//! The per-snapshot manifest: an optional project name and an ordered list
//! of template variables, together with the protocol that resolves each
//! variable to its final value.

use vstd::prelude::*;
use vstd::string::StrSliceExecFns;
use vstd::string::StringExecFns;

use crate::substitute::Answer;
use crate::substitute::AnswerMap;
use crate::text::eq_str;
use crate::text::str_seq_views;
use crate::text::trim_spec;
use crate::text::trim_str;

verus! {

/// The manifest of one snapshot source.
#[derive(Debug, PartialEq)]
pub struct SetuprsConfig {
    pub project: Option<Project>,
    pub variables: Option<Vec<Variables>>,
}

/// The project section of a manifest.
#[derive(Debug, PartialEq)]
pub struct Project {
    pub name: String,
}

/// One declared template variable: a name and an optional default value.
#[derive(Debug, PartialEq, Clone)]
pub struct Variables {
    pub name: String,
    pub default: Option<String>,
}

impl SetuprsConfig {
    /// The manifest of a source that has no manifest file: no project name
    /// and no variables.
    pub fn empty() -> (r: SetuprsConfig)
        ensures
            r.project is None,
            r.variables is None,
    {
        SetuprsConfig { project: None, variables: None }
    }
}

impl Variables {
    /// The name and optional default as character sequences.
    pub open spec fn model(&self) -> (Seq<char>, Option<Seq<char>>) {
        (self.name@, match self.default {
            Some(d) => Some(d@),
            None => None,
        })
    }
}

/// The models of a list of variables, in declaration order.
pub open spec fn vars_model(vars: Seq<Variables>) -> Seq<(Seq<char>, Option<Seq<char>>)> {
    vars.map_values(|v: Variables| v.model())
}

/// The manifest template written into a source directory at initialization
/// time: the project section with the given name, and the variables section
/// left as comments.
pub fn init_manifest_content(project_name: &str) -> (r: String)
    ensures
        r@ == "[project]\nname = \""@ + project_name@
            + "\"\n\n#[[variables]]\n#name=\"variable_name\"\n#default=\"variable_default_value\""@,
{
    let mut r = "[project]\nname = \"".to_owned();
    r.append(project_name);
    r.append("\"\n\n#[[variables]]\n#name=\"variable_name\"\n#default=\"variable_default_value\"");
    r
}

/// The ignore file written into a source directory at initialization time:
/// the version-control directory and the registry default are excluded from
/// every snapshot.
pub fn init_ignore_content() -> (r: String)
    ensures
        r@ == ".git\nsnapshots/"@,
{
    ".git\nsnapshots/".to_owned()
}

/// The question asked for one variable.  A variable with a default shows it;
/// one without ends with a bare colon.
pub fn prompt_for(v: &Variables) -> (r: String)
    ensures
        r@ == match v.default {
            None => "Enter value for "@ + v.name@ + ": "@,
            Some(d) => "Enter value for "@ + v.name@ + " [default: "@ + d@ + "]: "@,
        },
{
    let mut r = "Enter value for ".to_owned();
    r.append(v.name.as_str());
    match &v.default {
        None => {
            r.append(": ");
        },
        Some(d) => {
            r.append(" [default: ");
            r.append(d.as_str());
            r.append("]: ");
        },
    }
    r
}

/// The value a variable resolves to, given the raw line the user answered:
/// the trimmed answer, except that an empty trimmed answer falls back to the
/// default when the variable declares one.
pub open spec fn resolved_value_spec(default: Option<Seq<char>>, raw: Seq<char>) -> Seq<char> {
    match default {
        Some(d) => if trim_spec(raw).len() == 0 {
            d
        } else {
            trim_spec(raw)
        },
        None => trim_spec(raw),
    }
}

/// Resolves one variable against the raw answer the user gave.
pub fn resolve_value(v: &Variables, raw: &str) -> (r: String)
    ensures
        r@ == resolved_value_spec(v.model().1, raw@),
{
    let t = trim_str(raw);
    match &v.default {
        Some(d) => {
            if t.as_str().unicode_len() == 0 {
                d.clone()
            } else {
                t
            }
        },
        None => t,
    }
}

/// `pairs` with the value for `name` overwritten in place, or appended when
/// `name` is not yet present.
pub open spec fn upsert(
    pairs: Seq<(Seq<char>, Seq<char>)>,
    name: Seq<char>,
    value: Seq<char>,
) -> Seq<(Seq<char>, Seq<char>)>
    decreases pairs.len(),
{
    if pairs.len() == 0 {
        seq![(name, value)]
    } else if pairs[0].0 == name {
        seq![(name, value)] + pairs.skip(1)
    } else {
        seq![pairs[0]] + upsert(pairs.skip(1), name, value)
    }
}

proof fn lemma_upsert_found(
    pairs: Seq<(Seq<char>, Seq<char>)>,
    name: Seq<char>,
    value: Seq<char>,
    i: int,
)
    requires
        0 <= i < pairs.len(),
        pairs[i].0 == name,
        forall|k: int| 0 <= k < i ==> pairs[k].0 != name,
    ensures
        upsert(pairs, name, value) == pairs.update(i, (name, value)),
    decreases i,
{
    if i == 0 {
        assert(seq![(name, value)] + pairs.skip(1) =~= pairs.update(0, (name, value)));
    } else {
        assert(forall|k: int| 0 <= k < i - 1 ==> pairs.skip(1)[k] == pairs[k + 1]);
        lemma_upsert_found(pairs.skip(1), name, value, i - 1);
        assert(seq![pairs[0]] + pairs.skip(1).update(i - 1, (name, value)) =~= pairs.update(
            i,
            (name, value),
        ));
    }
}

proof fn lemma_upsert_absent(pairs: Seq<(Seq<char>, Seq<char>)>, name: Seq<char>, value: Seq<char>)
    requires
        forall|k: int| 0 <= k < pairs.len() ==> pairs[k].0 != name,
    ensures
        upsert(pairs, name, value) == pairs.push((name, value)),
    decreases pairs.len(),
{
    if pairs.len() == 0 {
        assert(seq![(name, value)] =~= pairs.push((name, value)));
    } else {
        assert(forall|k: int| 0 <= k < pairs.len() - 1 ==> pairs.skip(1)[k] == pairs[k + 1]);
        lemma_upsert_absent(pairs.skip(1), name, value);
        assert(seq![pairs[0]] + pairs.skip(1).push((name, value)) =~= pairs.push((name, value)));
    }
}

/// The final answer map for a variable list and the raw answers given for
/// its entries, in order.  A duplicate name keeps its first position and
/// takes the value resolved for its last occurrence.
pub open spec fn resolve_spec(
    vars: Seq<(Seq<char>, Option<Seq<char>>)>,
    raws: Seq<Seq<char>>,
) -> Seq<(Seq<char>, Seq<char>)>
    decreases vars.len(),
{
    if vars.len() == 0 {
        Seq::empty()
    } else {
        upsert(
            resolve_spec(vars.drop_last(), raws.drop_last()),
            vars.last().0,
            resolved_value_spec(vars.last().1, raws.last()),
        )
    }
}

/// Inserts one resolved variable into the map under overwrite semantics.
fn push_answer(m: &mut AnswerMap, name: &str, value: String)
    ensures
        final(m).model() == upsert(old(m).model(), name@, value@),
{
    let n: usize = m.answers.len();
    let mut i: usize = 0;
    while i < n
        invariant
            n == m.answers.len(),
            0 <= i <= n,
            forall|k: int| 0 <= k < i ==> #[trigger] m.answers@[k].name@ != name@,
            m == old(m),
        decreases n - i,
    {
        if eq_str(m.answers[i].name.as_str(), name) {
            let value_view = Ghost(value@);
            m.answers.remove(i);
            m.answers.insert(i, Answer { name: name.to_owned(), value });
            proof {
                lemma_upsert_found(old(m).model(), name@, value_view@, i as int);
                assert(m.model() =~= old(m).model().update(i as int, (name@, value_view@)));
            }
            return ;
        }
        i = i + 1;
    }
    let value_view = Ghost(value@);
    m.answers.push(Answer { name: name.to_owned(), value });
    proof {
        lemma_upsert_absent(old(m).model(), name@, value_view@);
        assert(m.model() =~= old(m).model().push((name@, value_view@)));
    }
}

/// Builds the answer map for a variable list from the raw answers collected
/// for its entries, one per variable in declaration order.
pub fn resolve_answers(vars: &Vec<Variables>, raw: &Vec<String>) -> (m: AnswerMap)
    requires
        raw@.len() == vars@.len(),
    ensures
        m.model() == resolve_spec(vars_model(vars@), str_seq_views(raw@)),
{
    let mut m = AnswerMap { answers: Vec::new() };
    let mut i: usize = 0;
    proof {
        assert(m.model() =~= Seq::<(Seq<char>, Seq<char>)>::empty());
        assert(vars_model(vars@.take(0)) =~= Seq::<(Seq<char>, Option<Seq<char>>)>::empty());
    }
    while i < vars.len()
        invariant
            raw@.len() == vars@.len(),
            0 <= i <= vars@.len(),
            m.model() == resolve_spec(
                vars_model(vars@.take(i as int)),
                str_seq_views(raw@.take(i as int)),
            ),
        decreases vars@.len() - i,
    {
        let value = resolve_value(&vars[i], raw[i].as_str());
        proof {
            let vm1 = vars_model(vars@.take(i + 1));
            let rv1 = str_seq_views(raw@.take(i + 1));
            assert(vm1.drop_last() =~= vars_model(vars@.take(i as int)));
            assert(rv1.drop_last() =~= str_seq_views(raw@.take(i as int)));
            assert(vm1.last() == vars@[i as int].model());
            assert(rv1.last() == raw@[i as int]@);
        }
        push_answer(&mut m, vars[i].name.as_str(), value);
        i = i + 1;
    }
    proof {
        assert(vars@.take(vars@.len() as int) =~= vars@);
        assert(raw@.take(raw@.len() as int) =~= raw@);
    }
    m
}

} // verus!
