use auto_pr::error::RunError;
use auto_pr::prompt::{accept_rendering, data_text, decorated, number_text, render, PromptVariables};
use auto_pr::stats::RepoStats;

fn variables() -> PromptVariables {
    PromptVariables {
        absolute_code_path: "/work/repo".to_string(),
        source_tree: ".\n|-- src".to_string(),
        git_diff_branch: "diff --git a/a.txt b/a.txt".to_string(),
        git_log_branch: "commit 1".to_string(),
        git_changed_files: vec!["a.txt".to_string(), "b.txt".to_string()],
        git_stats: RepoStats {
            duration_hours: 4,
            commit_count: 2,
            contributors: "2\tAda".to_string(),
            changed_files: 2,
        },
        code_velocity: "0.5".to_string(),
    }
}

#[test]
fn every_variable_reaches_the_template() {
    let template = "{{{absolute_code_path}}}|{{{source_tree}}}|{{{git_diff_branch}}}|{{{git_log_branch}}}|\
{{#each git_changed_files}}{{{this}}},{{/each}}|{{git_stats.duration}}|{{git_stats.commit_count}}|\
{{{git_stats.contributors}}}|{{git_stats.code_velocity}}";
    assert_eq!(
        render(template, &variables()),
        Ok("/work/repo|.\n|-- src|diff --git a/a.txt b/a.txt|commit 1|a.txt,b.txt,|4|2|2\tAda|0.5".to_string())
    );
}

#[test]
fn text_comes_through_unchanged() {
    let mut vars = variables();
    vars.git_diff_branch = "-\tlet s = \"a\\b\";\n+\tlet s = 'é\u{1F600}';\u{7}".to_string();
    assert_eq!(render("{{{git_diff_branch}}}", &vars), Ok(vars.git_diff_branch.clone()));
}

#[test]
fn a_template_without_variables_is_copied() {
    assert_eq!(render("Describe this pull request.", &variables()), Ok("Describe this pull request.".to_string()));
    assert_eq!(render("", &variables()), Ok(String::new()));
}

#[test]
fn an_unknown_variable_is_a_template_error() {
    assert_eq!(render("{{no_such_variable}}", &variables()), Err(RunError::Template));
    assert_eq!(render("{{git_stats.no_such_figure}}", &variables()), Err(RunError::Template));
}

#[test]
fn a_malformed_template_is_a_template_error() {
    assert_eq!(render("{{#if git_stats}}never closed", &variables()), Err(RunError::Template));
}

#[test]
fn a_velocity_that_is_no_number_is_a_template_error() {
    let mut vars = variables();
    vars.code_velocity = "1,\"x\":2".to_string();
    assert_eq!(render("ok", &vars), Err(RunError::Template));
    vars.code_velocity = String::new();
    assert_eq!(render("ok", &vars), Err(RunError::Template));
    vars.code_velocity = "e".to_string();
    assert_eq!(render("ok", &vars), Err(RunError::Template));
}

#[test]
fn number_texts_hold_digits_signs_points_and_exponents() {
    assert!(number_text("3.0"));
    assert!(number_text("1e-7"));
    assert!(number_text("-2.5E+3"));
    assert!(!number_text(""));
    assert!(!number_text("1 "));
    assert!(!number_text("NaN"));
    assert!(!number_text("1,2"));
}

#[test]
fn number_texts_follow_the_grammar_of_json() {
    for s in ["0", "-0", "7", "10", "0.5", "-0.5", "12.25", "1e5", "1E5", "1e+5", "1e-5", "0e0", "1.5e300", "-1.0E-2"] {
        assert!(number_text(s), "{:?}", s);
    }
    for s in [
        "+-", "+1", "-", "--1", "01", "-01", "00", ".5", "5.", "1.e5", "1e", "1e+", "1e-", "e5", "1e5.0", "1.2.3",
        "1ee5", "1e+-5", "0x10", "1_000", " 1", "1\n", "١", "Infinity", "-",
    ] {
        assert!(!number_text(s), "{:?}", s);
    }
}

#[test]
fn number_texts_are_what_the_json_parser_takes_as_numbers() {
    for s in ["0", "-0", "01", "1.", ".1", "1e5", "1e", "+1", "+-", "-", "2.5E-3", "1e+5", "", "--1", "1.2.3", "1,2"] {
        let parsed = serde_json::from_str::<serde_json::Value>(s).map(|v| v.is_number()).unwrap_or(false);
        assert_eq!(number_text(s), parsed, "{:?}", s);
    }
}

#[test]
fn the_velocity_is_a_number_in_the_template() {
    let mut vars = variables();
    vars.code_velocity = "3.0".to_string();
    assert_eq!(render("{{#if (gt git_stats.code_velocity 1)}}fast{{else}}slow{{/if}}", &vars), Ok("fast".to_string()));
    assert_eq!(render("{{git_stats.code_velocity}}", &vars), Ok("3.0".to_string()));
}

#[test]
fn rendering_twice_gives_the_same_text() {
    let template = "{{#each git_changed_files}}- {{this}}\n{{/each}}{{git_stats.contributors}}";
    let first = render(template, &variables());
    let second = render(template, &variables());
    assert!(first.is_ok());
    assert_eq!(first, second);
}

#[test]
fn the_data_document_is_json_with_the_known_keys() {
    let document = data_text(&variables());
    assert_eq!(
        document,
        "{\"absolute_code_path\":\"/work/repo\",\"source_tree\":\".\\n|-- src\",\
\"git_diff_branch\":\"diff --git a/a.txt b/a.txt\",\"git_log_branch\":\"commit 1\",\
\"git_changed_files\":[\"a.txt\",\"b.txt\"],\"git_stats\":{\"duration\":4,\"commit_count\":2,\
\"contributors\":\"2\\tAda\",\"code_velocity\":0.5}}"
    );
    let parsed: serde_json::Value = serde_json::from_str(&document).unwrap();
    assert_eq!(parsed["git_changed_files"][1], "b.txt");
    assert_eq!(parsed["git_stats"]["duration"], 4);
}

#[test]
fn the_data_document_of_no_files() {
    let mut vars = variables();
    vars.git_changed_files = Vec::new();
    vars.git_stats.duration_hours = -25;
    let parsed: serde_json::Value = serde_json::from_str(&data_text(&vars)).unwrap();
    assert_eq!(parsed["git_changed_files"].as_array().map(|a| a.len()), Some(0));
    assert_eq!(parsed["git_stats"]["duration"], -25);
}

#[test]
fn no_rendering_is_a_template_error() {
    assert_eq!(accept_rendering(None), Err(RunError::Template));
    assert_eq!(accept_rendering(Some("p".to_string())), Ok("p".to_string()));
}

#[test]
fn the_prompt_holds_no_secret() {
    let rendered = render(
        "{{absolute_code_path}}{{source_tree}}{{git_diff_branch}}{{git_log_branch}}{{git_stats.contributors}}",
        &variables(),
    )
    .unwrap();
    assert!(!rendered.contains("SECRET-KEY"));
}

#[test]
fn templates_with_decorators_are_not_rendered() {
    let endless = "{{#*inline \"a\"}}x{{> b}}{{/inline}}{{#*inline \"b\"}}y{{> a}}{{/inline}}{{> a}}";
    assert_eq!(render(endless, &variables()), Err(RunError::Template));
    assert_eq!(render("{{#*inline \"a\"}}x{{> a}}{{/inline}}{{> a}}", &variables()), Err(RunError::Template));
    assert_eq!(render("{{~ # * inline \"a\"}}x{{/inline}}", &variables()), Err(RunError::Template));
    assert_eq!(render("{{*inline}}", &variables()), Err(RunError::Template));
}

#[test]
fn an_asterisk_elsewhere_is_no_decorator() {
    assert!(!decorated("* a list item with {{source_tree}} in it *"));
    assert!(!decorated("{ {*"));
    assert!(!decorated("{{source_tree}} * {{git_log_branch}}"));
    assert!(!decorated(""));
    assert!(decorated("{{*"));
    assert!(decorated("{{#*inline"));
    assert!(decorated("{{{*"));
    assert!(decorated("{{{{*"));
    assert!(decorated("text {{ ~#\n* x}}"));
    assert_eq!(render("* {{{source_tree}}} *", &variables()), Ok("* .\n|-- src *".to_string()));
}

#[test]
fn a_partial_that_nobody_declared_is_a_template_error() {
    assert_eq!(render("{{> missing}}", &variables()), Err(RunError::Template));
}

#[test]
fn json_strings_escape_quotes_backslashes_and_controls() {
    let mut vars = variables();
    vars.absolute_code_path = "a\"b\\c\u{8}\t\n\u{c}\r\u{0}\u{1f}\u{7f}/é\u{1F600}".to_string();
    vars.source_tree = String::new();
    let document = data_text(&vars);
    assert!(document.starts_with(
        "{\"absolute_code_path\":\"a\\\"b\\\\c\\b\\t\\n\\f\\r\\u0000\\u001f\u{7f}/é\u{1F600}\",\"source_tree\":\"\","
    ));
    let parsed: serde_json::Value = serde_json::from_str(&document).unwrap();
    assert_eq!(parsed["absolute_code_path"], vars.absolute_code_path.as_str());
}

#[test]
fn every_control_character_is_escaped_as_the_serializer_does() {
    let mut code: u32 = 0;
    while code < 0x80 {
        let c = char::from_u32(code).unwrap();
        let mut vars = variables();
        vars.git_log_branch = c.to_string();
        let parsed: serde_json::Value = serde_json::from_str(&data_text(&vars)).unwrap();
        assert_eq!(parsed["git_log_branch"], c.to_string().as_str());
        code += 1;
    }
}
