//! The snapshot registry's rules: deciding a new snapshot's identity and
//! listing existing snapshots in sorted order.

use vstd::multiset::Multiset;
use vstd::prelude::*;
use vstd::relations::sorted_by;
use vstd::relations::total_ordering;
use vstd::seq_lib::lemma_sorted_unique;
use vstd::seq_lib::to_multiset_build;
use vstd::seq_lib::to_multiset_insert;
use vstd::string::StrSliceExecFns;
use vstd::string::StringExecFns;

use crate::manifest::SetuprsConfig;
use crate::text::lemma_lex_le_antisymmetric;
use crate::text::lemma_lex_le_connected;
use crate::text::lemma_lex_le_reflexive;
use crate::text::lemma_lex_le_transitive;
use crate::text::lex_le;
use crate::text::str_le;
use crate::text::str_seq_views;

verus! {

/// Relies on `uuid::Uuid::new_v4` and its display form: a fresh random
/// version-4 UUID, rendered as the 36-character hyphenated text.  Nothing
/// further is assumed of the value: it is random.
#[verifier::external_body]
pub(crate) fn fresh_uuid_string() -> (r: String)
    ensures
        r@.len() == 36,
{
    uuid::Uuid::new_v4().to_string()
}

/// Whether an explicit name decides the identity: it must be present and
/// not empty.
pub open spec fn explicit_decides(explicit_name: Option<&str>) -> bool {
    explicit_name matches Some(n) && n@.len() > 0
}

/// Whether the manifest's project name decides the identity: it must be
/// present and not empty.
pub open spec fn manifest_decides(manifest: &SetuprsConfig) -> bool {
    manifest.project matches Some(p) && p.name@.len() > 0
}

/// Decides the identity of a new snapshot.  An explicit name always wins;
/// else the manifest's project name; else a freshly generated unique token.
/// An empty string counts as absent, so the result is never empty.
pub fn resolve_identity(explicit_name: Option<&str>, manifest: &SetuprsConfig) -> (r: String)
    ensures
        explicit_decides(explicit_name) ==> r@ == explicit_name.unwrap()@,
        !explicit_decides(explicit_name) && manifest_decides(manifest) ==> r@
            == manifest.project.unwrap().name@,
        !explicit_decides(explicit_name) && !manifest_decides(manifest) ==> r@.len() == 36,
        r@.len() > 0,
{
    match explicit_name {
        Some(n) => {
            if n.unicode_len() > 0 {
                return n.to_owned();
            }
        },
        None => {},
    }
    match &manifest.project {
        Some(p) => {
            if p.name.as_str().unicode_len() > 0 {
                return p.name.clone();
            }
        },
        None => {},
    }
    fresh_uuid_string()
}

/// Whether a listing of snapshot ids is in lexicographic order.
pub open spec fn ids_sorted(s: Seq<Seq<char>>) -> bool {
    forall|i: int, j: int| 0 <= i < j < s.len() ==> #[trigger] lex_le(s[i], s[j])
}

/// Sorts a registry listing lexicographically.  The result holds exactly
/// the given ids, each as often as it was given.
pub fn sort_snapshot_ids(ids: &Vec<String>) -> (r: Vec<String>)
    ensures
        ids_sorted(str_seq_views(r@)),
        str_seq_views(r@).to_multiset() == str_seq_views(ids@).to_multiset(),
{
    let mut out: Vec<String> = Vec::new();
    let mut i: usize = 0;
    proof {
        assert(str_seq_views(out@) =~= str_seq_views(ids@.take(0)));
    }
    while i < ids.len()
        invariant
            0 <= i <= ids@.len(),
            ids_sorted(str_seq_views(out@)),
            str_seq_views(out@).to_multiset() == str_seq_views(ids@.take(i as int)).to_multiset(),
        decreases ids@.len() - i,
    {
        let x = ids[i].clone();
        let ghost xv = x@;
        let ghost prev = str_seq_views(out@);
        let mut j: usize = 0;
        while j < out.len() && str_le(out[j].as_str(), x.as_str())
            invariant
                prev == str_seq_views(out@),
                x@ == xv,
                0 <= j <= out@.len(),
                forall|k: int| 0 <= k < j ==> lex_le(#[trigger] prev[k], xv),
            decreases out@.len() - j,
        {
            j = j + 1;
        }
        proof {
            assert forall|k: int| j <= k < prev.len() implies lex_le(xv, #[trigger] prev[k]) by {
                lemma_lex_le_connected(prev[j as int], xv);
                if k > j {
                    lemma_lex_le_transitive(xv, prev[j as int], prev[k]);
                }
            };
        }
        out.insert(j, x);
        proof {
            assert(str_seq_views(out@) =~= prev.insert(j as int, xv));
            let cur = prev.insert(j as int, xv);
            assert forall|p: int, q: int| 0 <= p < q < cur.len() implies #[trigger] lex_le(
                cur[p],
                cur[q],
            ) by {
                assert(cur[p] == if p < j { prev[p] } else if p == j { xv } else { prev[p - 1] });
                assert(cur[q] == if q < j { prev[q] } else if q == j { xv } else { prev[q - 1] });
            };
            to_multiset_insert(prev, j as int, xv);
            assert(str_seq_views(ids@.take(i + 1)) =~= str_seq_views(ids@.take(i as int)).push(
                xv,
            ));
            to_multiset_build(str_seq_views(ids@.take(i as int)), xv);
        }
        i = i + 1;
    }
    proof {
        assert(ids@.take(ids@.len() as int) =~= ids@);
    }
    out
}

/// Two sorted listings that hold the same ids, each the same number of
/// times, are the same listing.  Listing a registry is therefore a function
/// of the registry's contents alone: listing twice, or listing entries
/// found in another order, yields identical output.
pub proof fn lemma_sorted_listing_unique(a: Seq<Seq<char>>, b: Seq<Seq<char>>)
    requires
        ids_sorted(a),
        ids_sorted(b),
        a.to_multiset() == b.to_multiset(),
    ensures
        a == b,
{
    let leq = (|x: Seq<char>, y: Seq<char>| lex_le(x, y));
    assert forall|x: Seq<char>| #[trigger] leq(x, x) by {
        lemma_lex_le_reflexive(x);
    };
    assert forall|x: Seq<char>, y: Seq<char>| #[trigger] leq(x, y) && #[trigger] leq(y, x)
        implies x == y by {
        lemma_lex_le_antisymmetric(x, y);
    };
    assert forall|x: Seq<char>, y: Seq<char>, z: Seq<char>|
        #[trigger] leq(x, y) && #[trigger] leq(y, z) implies leq(x, z) by {
        lemma_lex_le_transitive(x, y, z);
    };
    assert forall|x: Seq<char>, y: Seq<char>| #[trigger] leq(x, y) || #[trigger] leq(y, x) by {
        lemma_lex_le_connected(x, y);
    };
    assert(total_ordering(leq));
    assert(sorted_by(a, leq));
    assert(sorted_by(b, leq));
    lemma_sorted_unique(a, b, leq);
}

} // verus!
