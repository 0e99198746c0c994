//! Ignore rules: compiling a newline-delimited pattern file into a set of
//! path matchers, and answering whether a path is excluded.
//!
//! The matching itself is the glob crate's; this module compiles each kept
//! line into a `glob::Pattern` anchored at the source root and keeps the
//! pattern text beside the compiled form, so that contracts can speak of
//! what was compiled.

use vstd::prelude::*;
use vstd::string::StrSliceExecFns;
use vstd::string::StringExecFns;

use crate::text::split_lines;
use crate::text::split_lines_str;
use crate::text::str_seq_views;
use crate::text::trim_spec;
use crate::text::trim_str;

verus! {

#[verifier::external_type_specification]
#[verifier::external_body]
pub struct ExGlobPattern(glob::Pattern);

/// Whether the glob crate accepts `pattern` as a well-formed pattern.
pub uninterp spec fn glob_pattern_ok(pattern: Seq<char>) -> bool;

/// Whether the glob pattern `pattern` matches the whole of `path`, under the
/// glob crate's default match options.
pub uninterp spec fn glob_match(pattern: Seq<char>, path: Seq<char>) -> bool;

/// One compiled ignore pattern, kept beside the text it was compiled from.
pub struct CompiledPattern {
    text: String,
    pattern: glob::Pattern,
}

impl CompiledPattern {
    /// The pattern text this matcher was compiled from.
    pub closed spec fn text_view(&self) -> Seq<char> {
        self.text@
    }
}

/// Relies on `glob::Pattern::new`: whether compilation succeeds is a
/// function of the pattern text alone; the compiled value is kept beside
/// that text.
#[verifier::external_body]
fn compile_pattern(text: &str) -> (r: Option<CompiledPattern>)
    ensures
        (r is Some) == glob_pattern_ok(text@),
        r matches Some(m) ==> m.text_view() == text@,
{
    match glob::Pattern::new(text) {
        Ok(pattern) => Some(CompiledPattern { text: text.to_string(), pattern }),
        Err(_) => None,
    }
}

/// Relies on `glob::Pattern::matches`: the result is a function of the
/// pattern text and the candidate path alone.
#[verifier::external_body]
fn pattern_matches(m: &CompiledPattern, path: &str) -> (r: bool)
    ensures
        r == glob_match(m.text_view(), path@),
{
    m.pattern.matches(path)
}

/// The pattern of one ignore-file line: the line trimmed, with a single
/// trailing separator stripped, so that a `dir/` line excludes the directory
/// itself and with it everything beneath.
pub open spec fn clean_pattern(line: Seq<char>) -> Seq<char> {
    let t = trim_spec(line);
    if t.len() > 0 && t.last() == '/' {
        t.drop_last()
    } else {
        t
    }
}

/// Whether a line contributes a pattern: not blank, and not a comment.
pub open spec fn line_kept(line: Seq<char>) -> bool {
    trim_spec(line).len() > 0 && trim_spec(line)[0] != '#'
}

/// The pattern text a kept line compiles to: the source root, one
/// separator, and the cleaned line.
pub open spec fn full_pattern(root: Seq<char>, line: Seq<char>) -> Seq<char> {
    root + "/"@ + clean_pattern(line)
}

/// The pattern texts compiled from the given lines: one per kept line whose
/// pattern the glob crate accepts, in order.
pub open spec fn patterns_of_lines(root: Seq<char>, lines: Seq<Seq<char>>) -> Seq<Seq<char>>
    decreases lines.len(),
{
    if lines.len() == 0 {
        Seq::empty()
    } else {
        patterns_of_lines(root, lines.drop_last()) + (if line_kept(lines.last())
            && glob_pattern_ok(full_pattern(root, lines.last())) {
            seq![full_pattern(root, lines.last())]
        } else {
            Seq::empty()
        })
    }
}

/// The pattern texts compiled from an ignore file's content for a source
/// root.
pub open spec fn rules_spec(root: Seq<char>, content: Seq<char>) -> Seq<Seq<char>> {
    patterns_of_lines(root, split_lines(content))
}

/// Whether any of the patterns matches `path`.
pub open spec fn matches_any(patterns: Seq<Seq<char>>, path: Seq<char>) -> bool {
    exists|k: int| 0 <= k < patterns.len() && glob_match(patterns[k], path)
}

/// The compiled ignore rule set of one traversal, read-only once compiled.
pub struct IgnoreRules {
    patterns: Vec<CompiledPattern>,
}

impl IgnoreRules {
    /// The texts of the compiled patterns, in compilation order.
    pub closed spec fn model(&self) -> Seq<Seq<char>> {
        self.patterns@.map_values(|p: CompiledPattern| p.text_view())
    }
}

/// Compiles an ignore file's content into the rule set for a source root.
/// Blank lines and `#` comments are skipped; a line whose pattern the glob
/// crate rejects is skipped as well.
pub fn load_ignore_patterns(root: &str, content: &str) -> (r: IgnoreRules)
    ensures
        r.model() == rules_spec(root@, content@),
{
    let lines = split_lines_str(content);
    let ghost line_views = str_seq_views(lines@);
    let mut patterns: Vec<CompiledPattern> = Vec::new();
    let mut i: usize = 0;
    proof {
        assert(line_views.take(0) =~= Seq::<Seq<char>>::empty());
        assert(patterns@.map_values(|p: CompiledPattern| p.text_view()) =~= Seq::<
            Seq<char>,
        >::empty());
    }
    while i < lines.len()
        invariant
            line_views == str_seq_views(lines@),
            line_views.len() == lines.len(),
            0 <= i <= lines.len(),
            patterns@.map_values(|p: CompiledPattern| p.text_view()) == patterns_of_lines(
                root@,
                line_views.take(i as int),
            ),
        decreases lines.len() - i,
    {
        proof {
            assert(line_views.take(i + 1).drop_last() =~= line_views.take(i as int));
            assert(line_views.take(i + 1).last() == lines@[i as int]@);
        }
        let trimmed = trim_str(lines[i].as_str());
        let tn: usize = trimmed.as_str().unicode_len();
        if tn > 0 && trimmed.as_str().get_char(0) != '#' {
            let mut full = root.to_owned();
            full.append("/");
            if trimmed.as_str().get_char(tn - 1) == '/' {
                full.append(trimmed.as_str().substring_char(0, tn - 1));
                proof {
                    assert(trimmed@.subrange(0, tn - 1) =~= trimmed@.drop_last());
                }
            } else {
                full.append(trimmed.as_str());
            }
            let ghost prev = patterns@.map_values(|p: CompiledPattern| p.text_view());
            match compile_pattern(full.as_str()) {
                Some(p) => {
                    patterns.push(p);
                    proof {
                        assert(patterns@.map_values(|p: CompiledPattern| p.text_view())
                            =~= prev.push(full@));
                        assert(prev.push(full@) =~= prev + seq![full@]);
                    }
                },
                None => {
                    proof {
                        assert(patterns_of_lines(root@, line_views.take(i + 1)) =~= prev);
                    }
                },
            }
        } else {
            proof {
                assert(patterns_of_lines(root@, line_views.take(i + 1)) =~= patterns_of_lines(
                    root@,
                    line_views.take(i as int),
                ));
            }
        }
        i = i + 1;
    }
    proof {
        assert(line_views.take(lines.len() as int) =~= line_views);
    }
    IgnoreRules { patterns }
}

/// Whether the rule set excludes `path`.
pub fn is_ignored(rules: &IgnoreRules, path: &str) -> (r: bool)
    ensures
        r == matches_any(rules.model(), path@),
{
    let mut i: usize = 0;
    while i < rules.patterns.len()
        invariant
            0 <= i <= rules.patterns.len(),
            forall|k: int| 0 <= k < i ==> !glob_match(
                #[trigger] rules.model()[k],
                path@,
            ),
        decreases rules.patterns.len() - i,
    {
        if pattern_matches(&rules.patterns[i], path) {
            proof {
                assert(glob_match(rules.model()[i as int], path@));
            }
            return true;
        }
        i = i + 1;
    }
    false
}

} // verus!
