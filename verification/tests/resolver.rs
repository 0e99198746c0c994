use setuprs::manifest::init_ignore_content;
use setuprs::manifest::init_manifest_content;
use setuprs::manifest::prompt_for;
use setuprs::manifest::resolve_answers;
use setuprs::manifest::resolve_value;
use setuprs::manifest::Variables;
use setuprs::substitute::build_placeholder;
use setuprs::substitute::replace_all_str;
use setuprs::substitute::substitute;
use setuprs::substitute::Answer;
use setuprs::substitute::AnswerMap;
use setuprs::text::trim_str;

fn var(name: &str, default: Option<&str>) -> Variables {
    Variables { name: name.to_string(), default: default.map(|d| d.to_string()) }
}

#[test]
fn default_is_used_for_an_empty_answer() {
    let vars = vec![var("var1", Some("value1"))];
    let raw = vec!["".to_string()];
    let answers = resolve_answers(&vars, &raw);
    assert_eq!(answers.answers.len(), 1);
    assert_eq!(answers.answers[0].name, "var1");
    assert_eq!(answers.answers[0].value, "value1");

    let rewritten = substitute("var1 = {{var1}}", &answers);
    assert_eq!(rewritten, "var1 = value1");
}

#[test]
fn default_is_used_for_a_blank_answer() {
    assert_eq!(resolve_value(&var("v", Some("fallback")), "   \t  "), "fallback");
}

#[test]
fn answer_overrides_the_default() {
    assert_eq!(resolve_value(&var("v", Some("fallback")), " chosen "), "chosen");
}

#[test]
fn required_variable_takes_the_answer_verbatim() {
    let vars = vec![var("var0", None)];
    let raw = vec!["value0".to_string()];
    let answers = resolve_answers(&vars, &raw);
    assert_eq!(answers.answers[0].value, "value0");

    let rewritten = substitute("{{var0}}", &answers);
    assert_eq!(rewritten, "value0");
}

#[test]
fn required_variable_may_resolve_to_an_empty_string() {
    assert_eq!(resolve_value(&var("v", None), "  "), "");
}

#[test]
fn later_duplicate_overwrites_the_earlier_value() {
    let vars = vec![var("v", None), var("v", None)];
    let raw = vec!["first".to_string(), "second".to_string()];
    let answers = resolve_answers(&vars, &raw);
    assert_eq!(answers.answers.len(), 1);
    assert_eq!(answers.answers[0].value, "second");
}

#[test]
fn prompt_shows_the_default_when_there_is_one() {
    assert_eq!(
        prompt_for(&var("var1", Some("value1"))),
        "Enter value for var1 [default: value1]: "
    );
    assert_eq!(prompt_for(&var("var0", None)), "Enter value for var0: ");
}

#[test]
fn unresolved_placeholders_are_left_untouched() {
    let answers = AnswerMap {
        answers: vec![Answer { name: "known".to_string(), value: "yes".to_string() }],
    };
    let rewritten = substitute("{{known}} and {{unknown}}", &answers);
    assert_eq!(rewritten, "yes and {{unknown}}");
}

#[test]
fn every_occurrence_is_replaced() {
    let answers = AnswerMap {
        answers: vec![Answer { name: "x".to_string(), value: "1".to_string() }],
    };
    assert_eq!(substitute("{{x}}{{x}} {{x}}", &answers), "11 1");
}

#[test]
fn replacement_scans_left_to_right_without_overlap() {
    assert_eq!(replace_all_str("aaa", "aa", "b"), "ba");
    assert_eq!(replace_all_str("abc", "d", "e"), "abc");
}

#[test]
fn placeholder_is_braced() {
    assert_eq!(build_placeholder("name"), "{{name}}");
}

#[test]
fn trim_removes_ascii_whitespace_from_both_ends() {
    assert_eq!(trim_str("  a b \t\r\n"), "a b");
    assert_eq!(trim_str(""), "");
    assert_eq!(trim_str(" \t "), "");
    assert_eq!(trim_str("kept"), "kept");
}

#[test]
fn on_init_set_default_snapshot_config_on_init() {
    assert_eq!(init_ignore_content(), ".git\nsnapshots/");
    let expected = "[project]
name = \"project_name\"\n
#[[variables]]
#name=\"variable_name\"
#default=\"variable_default_value\"";
    assert_eq!(init_manifest_content("project_name"), expected);
}
