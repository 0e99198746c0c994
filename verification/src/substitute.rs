//! Placeholder substitution: every `{{name}}` token in a file's text is
//! replaced by the resolved value for `name`.

use vstd::prelude::*;
use vstd::string::StrSliceExecFns;
use vstd::string::StringExecFns;

use crate::text::push_char;

verus! {

/// One resolved template variable.
#[derive(Debug)]
pub struct Answer {
    pub name: String,
    pub value: String,
}

/// The fully resolved mapping from variable name to value, built once per
/// clone operation before any file content is rewritten.
#[derive(Debug)]
pub struct AnswerMap {
    pub answers: Vec<Answer>,
}

impl AnswerMap {
    /// The name/value pairs as character sequences, in substitution order.
    pub open spec fn model(&self) -> Seq<(Seq<char>, Seq<char>)> {
        self.answers@.map_values(|a: Answer| (a.name@, a.value@))
    }
}

/// `s` with every occurrence of `pat` replaced by `rep`, scanning left to
/// right without overlap, as std's `str::replace` does.
pub open spec fn replace_all(s: Seq<char>, pat: Seq<char>, rep: Seq<char>) -> Seq<char>
    decreases s.len(),
{
    if pat.len() == 0 {
        s
    } else if s.len() < pat.len() {
        s
    } else if s.subrange(0, pat.len() as int) == pat {
        rep + replace_all(s.skip(pat.len() as int), pat, rep)
    } else {
        seq![s[0]] + replace_all(s.skip(1), pat, rep)
    }
}

/// The literal token that stands for a variable in template text.
pub open spec fn placeholder_spec(name: Seq<char>) -> Seq<char> {
    "{{"@ + name + "}}"@
}

pub proof fn lemma_placeholder_len(name: Seq<char>)
    ensures
        placeholder_spec(name).len() == name.len() + 4,
{
    reveal_strlit("{{");
    reveal_strlit("}}");
}

/// `s` after the whole answer map is applied, one variable at a time, in
/// map order.
pub open spec fn apply_answers_spec(pairs: Seq<(Seq<char>, Seq<char>)>, s: Seq<char>) -> Seq<char>
    decreases pairs.len(),
{
    if pairs.len() == 0 {
        s
    } else {
        apply_answers_spec(pairs.skip(1), replace_all(s, placeholder_spec(pairs[0].0), pairs[0].1))
    }
}

/// The `{{name}}` token for a variable name.
pub fn build_placeholder(name: &str) -> (r: String)
    ensures
        r@ == placeholder_spec(name@),
{
    let mut r = "{{".to_owned();
    r.append(name);
    r.append("}}");
    r
}

/// Whether `pat` occurs in `s` starting at position `i`.
fn matches_at(s: &str, i: usize, pat: &str) -> (r: bool)
    requires
        i <= s@.len(),
    ensures
        r == (i + pat@.len() <= s@.len() && s@.subrange(i as int, i + pat@.len()) == pat@),
{
    let n: usize = s.unicode_len();
    let m: usize = pat.unicode_len();
    if m > n - i {
        return false;
    }
    let mut k: usize = 0;
    while k < m
        invariant
            n == s@.len(),
            m == pat@.len(),
            i + m <= n,
            0 <= k <= m,
            forall|t: int| 0 <= t < k ==> s@[i + t] == pat@[t],
        decreases m - k,
    {
        if s.get_char(i + k) != pat.get_char(k) {
            proof {
                assert(s@.subrange(i as int, i + pat@.len())[k as int] == s@[i + k]);
            }
            return false;
        }
        k = k + 1;
    }
    proof {
        assert(s@.subrange(i as int, i + pat@.len()) =~= pat@);
    }
    true
}

/// Replaces every occurrence of `pat` in `s` by `rep`, scanning left to
/// right without overlap.
pub fn replace_all_str(s: &str, pat: &str, rep: &str) -> (r: String)
    requires
        pat@.len() > 0,
    ensures
        r@ == replace_all(s@, pat@, rep@),
{
    let n: usize = s.unicode_len();
    let plen: usize = pat.unicode_len();
    let mut out = String::new();
    let mut i: usize = 0;
    proof {
        assert(s@.skip(0) =~= s@);
    }
    while i < n
        invariant
            n == s@.len(),
            plen == pat@.len(),
            plen > 0,
            0 <= i <= n,
            replace_all(s@, pat@, rep@) == out@ + replace_all(s@.skip(i as int), pat@, rep@),
        decreases n - i,
    {
        let ghost rem = s@.skip(i as int);
        if matches_at(s, i, pat) {
            proof {
                assert(rem.subrange(0, plen as int) =~= s@.subrange(i as int, i + plen));
                assert(rem.skip(plen as int) =~= s@.skip(i + plen));
            }
            out.append(rep);
            i = i + plen;
        } else {
            let c = s.get_char(i);
            proof {
                if rem.len() >= plen {
                    assert(rem.subrange(0, plen as int) =~= s@.subrange(i as int, i + plen));
                }
                assert(rem[0] == s@[i as int]);
                assert(rem.skip(1) =~= s@.skip(i + 1));
                if rem.len() < plen {
                    assert(rem =~= seq![s@[i as int]] + s@.skip(i + 1));
                    assert(replace_all(s@.skip(i + 1), pat@, rep@) == s@.skip(i + 1));
                }
            }
            push_char(&mut out, c);
            proof {
                assert(out@ + replace_all(s@.skip(i + 1), pat@, rep@) == (out@.drop_last()
                    + seq![s@[i as int]]) + replace_all(s@.skip(i + 1), pat@, rep@));
                assert(out@.drop_last() + (seq![s@[i as int]] + replace_all(
                    s@.skip(i + 1),
                    pat@,
                    rep@,
                )) =~= (out@.drop_last() + seq![s@[i as int]]) + replace_all(
                    s@.skip(i + 1),
                    pat@,
                    rep@,
                ));
            }
            i = i + 1;
        }
    }
    proof {
        assert(s@.skip(n as int) =~= Seq::<char>::empty());
        assert(replace_all(Seq::<char>::empty(), pat@, rep@) == Seq::<char>::empty());
        assert(out@ + Seq::<char>::empty() =~= out@);
    }
    out
}

/// Applies the whole answer map to one file's text, variable by variable in
/// map order.
pub fn substitute(content: &str, answers: &AnswerMap) -> (r: String)
    ensures
        r@ == apply_answers_spec(answers.model(), content@),
{
    let ghost pairs = answers.model();
    let mut cur = content.to_owned();
    let mut j: usize = 0;
    proof {
        assert(pairs.skip(0) =~= pairs);
    }
    while j < answers.answers.len()
        invariant
            pairs == answers.model(),
            pairs.len() == answers.answers.len(),
            0 <= j <= answers.answers.len(),
            apply_answers_spec(pairs, content@) == apply_answers_spec(
                pairs.skip(j as int),
                cur@,
            ),
        decreases answers.answers.len() - j,
    {
        let ph = build_placeholder(answers.answers[j].name.as_str());
        proof {
            lemma_placeholder_len(answers.answers[j as int].name@);
            assert(pairs[j as int] == (answers.answers[j as int].name@, answers.answers[j as int].value@));
            assert(pairs.skip(j as int)[0] == pairs[j as int]);
            assert(pairs.skip(j as int).skip(1) =~= pairs.skip(j + 1));
        }
        cur = replace_all_str(cur.as_str(), ph.as_str(), answers.answers[j].value.as_str());
        j = j + 1;
    }
    proof {
        assert(pairs.skip(answers.answers.len() as int) =~= Seq::<(Seq<char>, Seq<char>)>::empty());
    }
    cur
}

} // verus!
