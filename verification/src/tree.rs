//! Filtered tree copying: the per-entry decisions of one copy pass over a
//! source tree.
//!
//! A tree is a flat listing of entries, each a path relative to the source
//! root (components joined by `/`) holding either a file's text or marking a
//! directory.  A copy keeps every entry that the ignore rules do not
//! exclude, and passes file contents through placeholder substitution when
//! an answer map is supplied.  An entry is excluded when the rules match
//! the entry's own path or the path of any directory above it, both
//! anchored at the source root — just as a recursive walk that skips an
//! excluded directory never descends beneath it.

use vstd::prelude::*;
use vstd::string::StrSliceExecFns;
use vstd::string::StringExecFns;

use crate::ignore::matches_any;
use crate::ignore::IgnoreRules;
use crate::ignore::is_ignored;
use crate::substitute::apply_answers_spec;
use crate::substitute::substitute;
use crate::substitute::AnswerMap;

verus! {

/// One entry of a source or destination tree: a relative path, and the
/// file's text, or `None` for a directory.
#[derive(Debug, PartialEq, Clone)]
pub struct TreeEntry {
    pub path: String,
    pub content: Option<String>,
}

/// The mathematical value of one tree entry.
pub struct EntryModel {
    pub path: Seq<char>,
    pub content: Option<Seq<char>>,
}

impl TreeEntry {
    pub open spec fn model(&self) -> EntryModel {
        EntryModel {
            path: self.path@,
            content: match self.content {
                Some(c) => Some(c@),
                None => None,
            },
        }
    }
}

/// The models of a tree listing, in listing order.
pub open spec fn models(s: Seq<TreeEntry>) -> Seq<EntryModel> {
    s.map_values(|e: TreeEntry| e.model())
}

proof fn lemma_models_push(s: Seq<TreeEntry>, e: TreeEntry)
    ensures
        models(s.push(e)) == models(s).push(e.model()),
{
    assert(models(s.push(e)) =~= models(s).push(e.model()));
}

/// Whether position `i` ends a path component of `path`.
pub open spec fn boundary(path: Seq<char>, i: int) -> bool {
    i == path.len() || path[i] == '/'
}

/// Whether the rules exclude the entry at `path`: some pattern matches the
/// full path of the entry itself or of a directory above it.
pub open spec fn excluded_spec(patterns: Seq<Seq<char>>, root: Seq<char>, path: Seq<char>) -> bool {
    exists|i: int|
        1 <= i <= path.len() && #[trigger] boundary(path, i) && matches_any(
            patterns,
            root + "/"@ + path.take(i),
        )
}

/// Whether a copy with these rules keeps the entry at `path`.
pub open spec fn kept_spec(
    patterns: Option<Seq<Seq<char>>>,
    root: Seq<char>,
    path: Seq<char>,
) -> bool {
    match patterns {
        None => true,
        Some(ps) => !excluded_spec(ps, root, path),
    }
}

/// What a copied entry's content holds: a directory stays a directory, and
/// a file's text passes through the answer map when one is supplied.
pub open spec fn transform_spec(
    answers: Option<Seq<(Seq<char>, Seq<char>)>>,
    content: Option<Seq<char>>,
) -> Option<Seq<char>> {
    match content {
        None => None,
        Some(t) => Some(
            match answers {
                None => t,
                Some(m) => apply_answers_spec(m, t),
            },
        ),
    }
}

/// The destination listing of one copy pass: the kept entries in source
/// order, contents transformed.
pub open spec fn copy_spec(
    entries: Seq<EntryModel>,
    patterns: Option<Seq<Seq<char>>>,
    answers: Option<Seq<(Seq<char>, Seq<char>)>>,
    root: Seq<char>,
) -> Seq<EntryModel>
    decreases entries.len(),
{
    if entries.len() == 0 {
        Seq::empty()
    } else {
        copy_spec(entries.drop_last(), patterns, answers, root) + (if kept_spec(
            patterns,
            root,
            entries.last().path,
        ) {
            seq![
                EntryModel {
                    path: entries.last().path,
                    content: transform_spec(answers, entries.last().content),
                },
            ]
        } else {
            Seq::empty()
        })
    }
}

/// The pattern texts of an optional rule set.
pub open spec fn opt_rules_model(rules: Option<&IgnoreRules>) -> Option<Seq<Seq<char>>> {
    match rules {
        Some(r) => Some(r.model()),
        None => None,
    }
}

/// The pairs of an optional answer map.
pub open spec fn opt_answers_model(answers: Option<&AnswerMap>) -> Option<
    Seq<(Seq<char>, Seq<char>)>,
> {
    match answers {
        Some(m) => Some(m.model()),
        None => None,
    }
}

/// Whether the rules exclude the entry at `path` under source root `root`:
/// a pattern matches the entry's own full path or that of a directory above
/// it.
pub fn is_excluded(rules: &IgnoreRules, root: &str, path: &str) -> (r: bool)
    ensures
        r == excluded_spec(rules.model(), root@, path@),
{
    let n: usize = path.unicode_len();
    if n == 0 {
        return false;
    }
    let mut i: usize = 1;
    while i < n
        invariant
            n == path@.len(),
            1 <= i <= n,
            forall|j: int|
                1 <= j < i && #[trigger] boundary(path@, j) ==> !matches_any(
                    rules.model(),
                    root@ + "/"@ + path@.take(j),
                ),
        decreases n - i,
    {
        if path.get_char(i) == '/' {
            let mut candidate = root.to_owned();
            candidate.append("/");
            candidate.append(path.substring_char(0, i));
            proof {
                assert(candidate@ =~= root@ + "/"@ + path@.take(i as int));
            }
            if is_ignored(rules, candidate.as_str()) {
                proof {
                    assert(boundary(path@, i as int));
                }
                return true;
            }
        }
        i = i + 1;
    }
    let mut candidate = root.to_owned();
    candidate.append("/");
    candidate.append(path.substring_char(0, n));
    proof {
        assert(path@.take(n as int) =~= path@);
        assert(candidate@ =~= root@ + "/"@ + path@.take(n as int));
    }
    if is_ignored(rules, candidate.as_str()) {
        proof {
            assert(boundary(path@, n as int));
        }
        return true;
    }
    proof {
        assert(forall|j: int|
            1 <= j <= path@.len() && #[trigger] boundary(path@, j) && j != n ==> !matches_any(
                rules.model(),
                root@ + "/"@ + path@.take(j),
            ));
    }
    false
}

/// One copy pass over a source listing: creates the destination's entries
/// in source order, skipping what the rules exclude and transforming file
/// contents through the answer map when one is given.
pub fn copy_dir_all(
    entries: &Vec<TreeEntry>,
    root: &str,
    rules: Option<&IgnoreRules>,
    answers: Option<&AnswerMap>,
) -> (out: Vec<TreeEntry>)
    ensures
        models(out@) == copy_spec(
            models(entries@),
            opt_rules_model(rules),
            opt_answers_model(answers),
            root@,
        ),
{
    let ghost src = models(entries@);
    let ghost pats = opt_rules_model(rules);
    let ghost subs = opt_answers_model(answers);
    let mut out: Vec<TreeEntry> = Vec::new();
    let mut i: usize = 0;
    proof {
        assert(models(out@) =~= Seq::<EntryModel>::empty());
        assert(src.take(0) =~= Seq::<EntryModel>::empty());
    }
    while i < entries.len()
        invariant
            src == models(entries@),
            pats == opt_rules_model(rules),
            subs == opt_answers_model(answers),
            src.len() == entries@.len(),
            0 <= i <= entries@.len(),
            models(out@) == copy_spec(src.take(i as int), pats, subs, root@),
        decreases entries@.len() - i,
    {
        proof {
            assert(src.take(i + 1).drop_last() =~= src.take(i as int));
            assert(src.take(i + 1).last() == entries@[i as int].model());
        }
        let keep: bool = match rules {
            None => true,
            Some(r) => !is_excluded(r, root, entries[i].path.as_str()),
        };
        if keep {
            let content: Option<String> = match &entries[i].content {
                None => None,
                Some(c) => Some(
                    match answers {
                        None => c.clone(),
                        Some(m) => substitute(c.as_str(), m),
                    },
                ),
            };
            let entry = TreeEntry { path: entries[i].path.clone(), content };
            proof {
                lemma_models_push(out@, entry);
                assert(entry.model() == EntryModel {
                    path: src[i as int].path,
                    content: transform_spec(subs, src[i as int].content),
                });
            }
            out.push(entry);
            proof {
                assert(models(out@) =~= copy_spec(src.take(i as int), pats, subs, root@) + seq![
                    EntryModel {
                        path: src.take(i + 1).last().path,
                        content: transform_spec(subs, src.take(i + 1).last().content),
                    },
                ]);
            }
        } else {
            proof {
                assert(copy_spec(src.take(i + 1), pats, subs, root@) =~= copy_spec(
                    src.take(i as int),
                    pats,
                    subs,
                    root@,
                ));
            }
        }
        i = i + 1;
    }
    proof {
        assert(src.take(entries@.len() as int) =~= src);
    }
    out
}

/// A copy with no ignore rule and no answer map reproduces the source
/// listing exactly, entry for entry.
pub proof fn lemma_copy_identity(entries: Seq<EntryModel>, root: Seq<char>)
    ensures
        copy_spec(entries, None, None, root) == entries,
    decreases entries.len(),
{
    if entries.len() == 0 {
        assert(copy_spec(entries, None, None, root) =~= entries);
    } else {
        lemma_copy_identity(entries.drop_last(), root);
        let last = entries.last();
        assert(transform_spec(None, last.content) == last.content);
        assert(EntryModel { path: last.path, content: last.content } == last);
        assert(entries.drop_last() + seq![last] =~= entries);
    }
}

} // verus!
