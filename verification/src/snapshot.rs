//! The engine's programmatic contract: creating a snapshot from a source
//! tree, materializing one into a destination tree, and resolving a
//! snapshot id to its place under the registry root.

use vstd::prelude::*;
use vstd::string::StrSliceExecFns;
use vstd::string::StringExecFns;

use crate::error::Error;
use crate::ignore::load_ignore_patterns;
use crate::ignore::rules_spec;
use crate::manifest::SetuprsConfig;
use crate::registry::explicit_decides;
use crate::registry::manifest_decides;
use crate::registry::resolve_identity;
use crate::substitute::AnswerMap;
use crate::text::eq_str;
use crate::text::join_path;
use crate::text::join_spec;
use crate::tree::copy_dir_all;
use crate::tree::copy_spec;
use crate::tree::models;
use crate::tree::EntryModel;
use crate::tree::TreeEntry;

verus! {

/// A snapshot as `create` hands it back: the decided identity, and the
/// filtered copy of the source tree to store under the registry root.
#[derive(Debug)]
pub struct Snapshot {
    pub id: String,
    pub entries: Vec<TreeEntry>,
}

/// The position of the first entry at `path`, if any.
pub open spec fn find_path(entries: Seq<EntryModel>, path: Seq<char>) -> Option<int>
    decreases entries.len(),
{
    if entries.len() == 0 {
        None
    } else if entries[0].path == path {
        Some(0int)
    } else {
        match find_path(entries.skip(1), path) {
            None => None,
            Some(j) => Some(j + 1),
        }
    }
}

pub proof fn lemma_find_path_characterization(entries: Seq<EntryModel>, path: Seq<char>)
    ensures
        match find_path(entries, path) {
            Some(i) => 0 <= i < entries.len() && entries[i].path == path && forall|k: int|
                0 <= k < i ==> entries[k].path != path,
            None => forall|k: int| 0 <= k < entries.len() ==> entries[k].path != path,
        },
    decreases entries.len(),
{
    if entries.len() > 0 && entries[0].path != path {
        lemma_find_path_characterization(entries.skip(1), path);
        match find_path(entries.skip(1), path) {
            Some(j) => {
                assert(entries[j + 1] == entries.skip(1)[j]);
                assert forall|k: int| 0 <= k < j + 1 implies entries[k].path != path by {
                    if k > 0 {
                        assert(entries.skip(1)[k - 1].path != path);
                    }
                };
            },
            None => {
                assert forall|k: int| 0 <= k < entries.len() implies entries[k].path != path by {
                    if k > 0 {
                        assert(entries.skip(1)[k - 1].path != path);
                    }
                };
            },
        }
    }
}

/// Whether the listing holds an entry at `path`.
pub open spec fn has_path(entries: Seq<EntryModel>, path: Seq<char>) -> bool {
    find_path(entries, path) is Some
}

/// The ignore file's text in a source listing: the content of the first
/// `.setuprsignore` entry, or empty when there is none or it is a
/// directory.
pub open spec fn ignore_text(entries: Seq<EntryModel>) -> Seq<char> {
    match find_path(entries, ".setuprsignore"@) {
        Some(i) => match entries[i].content {
            Some(c) => c,
            None => Seq::empty(),
        },
        None => Seq::empty(),
    }
}

/// Finds the first entry at `path` in a listing.
pub fn find_entry(entries: &Vec<TreeEntry>, path: &str) -> (r: Option<usize>)
    ensures
        r == match find_path(models(entries@), path@) {
            None => Option::<usize>::None,
            Some(i) => Option::<usize>::Some(i as usize),
        },
{
    let mut k: usize = 0;
    while k < entries.len()
        invariant
            0 <= k <= entries@.len(),
            forall|t: int| 0 <= t < k ==> #[trigger] models(entries@)[t].path != path@,
        decreases entries@.len() - k,
    {
        if eq_str(entries[k].path.as_str(), path) {
            proof {
                assert(models(entries@)[k as int] == entries@[k as int].model());
                assert(models(entries@)[k as int].path == path@);
                lemma_find_path_characterization(models(entries@), path@);
            }
            return Some(k);
        }
        k = k + 1;
    }
    proof {
        lemma_find_path_characterization(models(entries@), path@);
    }
    None
}

/// Captures a source tree as a snapshot.
///
/// The source must hold both files written at initialization time, the
/// manifest `setuprs.toml` and the ignore file `.setuprsignore`; otherwise
/// nothing is copied and the operation fails.  The identity is decided
/// before anything else: an explicit name wins, else the manifest's project
/// name, else a fresh unique token.  `parsed_manifest` is the outcome of
/// reading the manifest file, which the caller parses; it is consulted only
/// when no explicit name decides, and a failed parse then aborts the
/// operation.  The tree handed back is the source filtered by the compiled
/// ignore rules, contents copied verbatim.
pub fn create_snapshot(
    entries: &Vec<TreeEntry>,
    root: &str,
    explicit_name: Option<&str>,
    parsed_manifest: Option<Result<SetuprsConfig, String>>,
) -> (r: Result<Snapshot, Error>)
    ensures
        !(has_path(models(entries@), "setuprs.toml"@) && has_path(
            models(entries@),
            ".setuprsignore"@,
        )) ==> r == Err::<Snapshot, Error>(Error::MissingBasicInitialization),
        has_path(models(entries@), "setuprs.toml"@) && has_path(
            models(entries@),
            ".setuprsignore"@,
        ) ==> match r {
            Ok(s) => models(s.entries@) == copy_spec(
                models(entries@),
                Some(rules_spec(root@, ignore_text(models(entries@)))),
                None,
                root@,
            ) && s.id@.len() > 0 && (explicit_decides(explicit_name) ==> s.id@
                == explicit_name.unwrap()@) && (!explicit_decides(explicit_name) ==> match parsed_manifest {
                Some(Ok(m)) => (manifest_decides(&m) ==> s.id@ == m.project.unwrap().name@) && (
                !manifest_decides(&m) ==> s.id@.len() == 36),
                Some(Err(_)) => false,
                None => s.id@.len() == 36,
            }),
            Err(e) => !explicit_decides(explicit_name) && (parsed_manifest matches Some(Err(m))
                && e == Error::TomlError(m)),
        },
{
    let ignore_idx = match find_entry(entries, ".setuprsignore") {
        Some(k) => k,
        None => {
            return Err(Error::MissingBasicInitialization);
        },
    };
    if find_entry(entries, "setuprs.toml").is_none() {
        return Err(Error::MissingBasicInitialization);
    }
    let n_entries: usize = entries.len();
    proof {
        assert(models(entries@).len() == n_entries);
        lemma_find_path_characterization(models(entries@), ".setuprsignore"@);
        match find_path(models(entries@), ".setuprsignore"@) {
            Some(i) => {
                assert(ignore_idx == i as usize);
                assert(i == ignore_idx as int);
            },
            None => {
                assert(false);
            },
        }
        assert(models(entries@)[ignore_idx as int] == entries@[ignore_idx as int].model());
    }
    let ghost itext = ignore_text(models(entries@));
    let rules = match &entries[ignore_idx].content {
        Some(c) => {
            proof {
                assert(itext == c@);
            }
            load_ignore_patterns(root, c.as_str())
        },
        None => {
            proof {
                reveal_strlit("");
                assert(""@ =~= Seq::<char>::empty());
                assert(itext =~= ""@);
            }
            load_ignore_patterns(root, "")
        },
    };
    proof {
        assert(rules.model() == rules_spec(root@, itext));
    }
    let explicit_ok: bool = match explicit_name {
        Some(n) => n.unicode_len() > 0,
        None => false,
    };
    proof {
        assert(explicit_ok == explicit_decides(explicit_name));
    }
    let id: String = if explicit_ok {
        match explicit_name {
            Some(n) => n.to_owned(),
            None => String::new(),
        }
    } else {
        match parsed_manifest {
            None => fresh_id(),
            Some(Ok(m)) => resolve_identity(None, &m),
            Some(Err(msg)) => {
                return Err(Error::TomlError(msg));
            },
        }
    };
    let out = copy_dir_all(entries, root, Some(&rules), None);
    Ok(Snapshot { id, entries: out })
}

/// A freshly generated identity for a source that names none.
fn fresh_id() -> (r: String)
    ensures
        r@.len() == 36,
{
    crate::registry::fresh_uuid_string()
}

/// Materializes a snapshot's tree: every entry is kept, and each file's
/// text passes through the answer map.
pub fn clone_snapshot(entries: &Vec<TreeEntry>, answers: &AnswerMap) -> (out: Vec<TreeEntry>)
    ensures
        models(out@) == copy_spec(models(entries@), None, Some(answers.model()), ""@),
{
    copy_dir_all(entries, "", None, Some(answers))
}

/// Resolves a snapshot id to its directory under the registry root.  The
/// caller reports whether that directory exists; an absent snapshot is the
/// `SnapshotDontExist` error, and nothing is copied for it.
pub fn locate_snapshot(registry_root: &str, snapshot_id: &str, present: bool) -> (r: Result<
    String,
    Error,
>)
    ensures
        present ==> (r matches Ok(p) && p@ == join_spec(registry_root@, snapshot_id@)),
        !present ==> r == Err::<String, Error>(Error::SnapshotDontExist),
{
    if present {
        Ok(join_path(registry_root, snapshot_id))
    } else {
        Err(Error::SnapshotDontExist)
    }
}

} // verus!
