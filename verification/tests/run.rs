use auto_pr::error::RunError;
use auto_pr::generate::{ClaudeResponse, Content, ServiceConfig, ServiceReply};
use auto_pr::inspect::CommandOutput;
use auto_pr::run::{Event, Phase, Run, RunSettings, Step};

const TEMPLATE: &str = "Path: {{absolute_code_path}}\nFiles:\n{{#each git_changed_files}}- {{this}}\n{{/each}}\
Diff:\n{{{git_diff_branch}}}\nLog:\n{{{git_log_branch}}}\nTree:\n{{{source_tree}}}\n\
Hours: {{git_stats.duration}} Commits: {{git_stats.commit_count}} Velocity: {{git_stats.code_velocity}}\n";

const DIFF: &str = "diff --git a/a.txt b/a.txt\n--- a/a.txt\n+++ b/a.txt\n@@ -1 +1 @@\n-old\n+new\n\
diff --git a/b.txt b/b.txt\n--- a/b.txt\n+++ b/b.txt\n+added";

fn printed(text: &str) -> Event {
    Event::Command(CommandOutput { status: Some(0), stdout: text.as_bytes().to_vec() })
}

fn credentials() -> Event {
    Event::Credentials {
        api_key: Some("SECRET-KEY".to_string()),
        vcs_token: Some("SECRET-TOKEN".to_string()),
    }
}

fn answer(texts: Vec<&str>) -> Event {
    Event::Reply(ServiceReply {
        status: Some(200),
        body: Some(ClaudeResponse { content: texts.into_iter().map(|t| Content { text: t.to_string() }).collect() }),
    })
}

fn vcs_arguments(step: Step) -> Vec<String> {
    match step {
        Step::RunVcs { program, arguments } => {
            assert_eq!(program, "git");
            arguments
        }
        _ => panic!("the run should ask the version-control tool"),
    }
}

fn failure(step: Step) -> RunError {
    match step {
        Step::Fail(e) => e,
        _ => panic!("the run should have failed"),
    }
}

/// Drives a run up to the point where the service has been asked.
fn run_until_sent(run: &mut Run) -> Step {
    match run.step(Event::Begin) {
        Step::ReadCredentials { api_key, vcs_token } => {
            assert_eq!(api_key, "CLAUDE_API_KEY");
            assert_eq!(vcs_token, "TOKEN_GITHUB");
        }
        _ => panic!("the run should ask for the credentials"),
    }
    assert_eq!(vcs_arguments(run.step(credentials())), vec!["rev-parse", "--abbrev-ref", "HEAD"]);
    match run.step(printed("feature\n")) {
        Step::RunListing { program, arguments } => {
            assert_eq!(program, "tree");
            assert_eq!(arguments, vec!["-L", "2", "--noreport", "--charset", "ascii"]);
        }
        _ => panic!("the run should ask for the directory listing"),
    }
    assert_eq!(vcs_arguments(run.step(printed(".\n|-- a.txt\n`-- b.txt\n"))), vec!["diff", "main", "feature"]);
    assert_eq!(vcs_arguments(run.step(printed(DIFF))), vec!["log", "main..feature"]);
    assert_eq!(
        vcs_arguments(run.step(printed("commit 1\n"))),
        vec!["diff", "--name-only", "main", "feature"]
    );
    assert_eq!(
        vcs_arguments(run.step(printed("a.txt\nb.txt\n"))),
        vec!["log", "--reverse", "--format=%at", "main..feature"]
    );
    assert_eq!(vcs_arguments(run.step(printed("1000\n"))), vec!["log", "-1", "--format=%at", "feature"]);
    assert_eq!(vcs_arguments(run.step(printed("1000\n"))), vec!["rev-list", "--count", "main..feature"]);
    assert_eq!(
        vcs_arguments(run.step(printed("1\n"))),
        vec!["shortlog", "-sn", "--no-merges", "main..feature"]
    );
    match run.step(printed("     1\tAda\n")) {
        Step::ReadTemplate(path) => assert_eq!(path, "pr_template.hbs"),
        _ => panic!("the run should ask for the template"),
    }
    assert!(matches!(run.step(Event::Template(Some(TEMPLATE.to_string()))), Step::ReadWorkingDirectory));
    let velocity = match run.step(Event::WorkingDirectory(Some("/work/repo".to_string()))) {
        Step::ComputeVelocity { changed_files, hours } => {
            assert_eq!(changed_files, 2);
            assert_eq!(hours, 1);
            changed_files as f64 / hours as f64
        }
        _ => panic!("the run should ask for the velocity"),
    };
    assert_eq!(velocity, 2.0);
    run.step(Event::Velocity(format!("{:?}", velocity)))
}

#[test]
fn a_run_writes_the_prompt_and_the_description() {
    let mut run = Run::new(RunSettings::standard("some-model".to_string()));
    assert_eq!(run.phase(), Phase::Start);
    let prompt = match run_until_sent(&mut run) {
        Step::Send(request) => {
            assert_eq!(request.endpoint, "https://api.anthropic.com/v1/messages");
            assert_eq!(request.model, "some-model");
            assert_eq!(request.max_tokens, 4000);
            assert_eq!(request.headers[0], ("x-api-key".to_string(), "SECRET-KEY".to_string()));
            assert_eq!(request.messages.len(), 1);
            assert_eq!(request.messages[0].role, "user");
            request.messages[0].content.clone()
        }
        _ => panic!("the run should send the request"),
    };
    assert!(prompt.contains("- a.txt\n- b.txt\n"));
    assert!(prompt.contains(DIFF));
    assert!(prompt.contains("Path: /work/repo"));
    assert!(prompt.contains("Hours: 0 Commits: 1 Velocity: 2.0"));
    assert!(!prompt.contains("SECRET-KEY"));
    assert!(!prompt.contains("SECRET-TOKEN"));
    assert_eq!(DIFF.lines().count(), 10);

    match run.step(answer(vec!["PR_DESC_OK"])) {
        Step::Write { name, contents } => {
            assert_eq!(name, "template_output.md");
            assert_eq!(contents, prompt);
        }
        _ => panic!("the run should write the prompt"),
    }
    match run.step(Event::Written(true)) {
        Step::Write { name, contents } => {
            assert_eq!(name, "pr_prompt.md");
            assert_eq!(contents, "PR_DESC_OK");
        }
        _ => panic!("the run should write the description"),
    }
    assert!(!run.is_over());
    match run.step(Event::Written(true)) {
        Step::Succeed(description) => assert_eq!(description, "PR_DESC_OK"),
        _ => panic!("the run should succeed"),
    }
    assert!(run.is_over());
    assert_eq!(run.phase(), Phase::Done);
}

#[test]
fn a_missing_credential_fails_before_any_command() {
    let some = |s: &str| Some(s.to_string());
    for (api_key, vcs_token) in [(None, some("t")), (some("k"), None), (None, None)] {
        let mut run = Run::new(RunSettings::standard("some-model".to_string()));
        assert!(matches!(run.step(Event::Begin), Step::ReadCredentials { .. }));
        let told = run.step(Event::Credentials { api_key, vcs_token });
        assert_eq!(failure(told), RunError::MissingCredential);
        assert_eq!(run.phase(), Phase::Failed(RunError::MissingCredential));
        assert_eq!(failure(run.step(printed("feature\n"))), RunError::MissingCredential);
        assert_eq!(failure(run.step(Event::Written(true))), RunError::MissingCredential);
    }
}

#[test]
fn a_failed_command_ends_the_run() {
    for failing in 0..9 {
        if failing == 1 {
            continue;
        }
        let mut run = Run::new(RunSettings::standard("some-model".to_string()));
        run.step(Event::Begin);
        run.step(credentials());
        let mut last = None;
        for index in 0..=failing {
            let event = if index == failing {
                Event::Command(CommandOutput { status: Some(128), stdout: b"fatal: bad revision".to_vec() })
            } else if index >= 5 && index <= 7 {
                printed("1\n")
            } else {
                printed("text\n")
            };
            last = Some(run.step(event));
        }
        assert_eq!(failure(last.unwrap()), RunError::VcsCommand, "command {}", failing);
        assert!(run.is_over());
        assert_eq!(failure(run.step(Event::Template(Some(TEMPLATE.to_string())))), RunError::VcsCommand);
        assert_eq!(failure(run.step(answer(vec!["PR_DESC_OK"]))), RunError::VcsCommand);
        assert_eq!(failure(run.step(Event::Written(true))), RunError::VcsCommand);
    }
}

#[test]
fn output_that_is_no_text_ends_the_run() {
    let mut run = Run::new(RunSettings::standard("some-model".to_string()));
    run.step(Event::Begin);
    run.step(credentials());
    let step = run.step(Event::Command(CommandOutput { status: Some(0), stdout: vec![0xff, 0xfe] }));
    assert_eq!(failure(step), RunError::Encoding);
}

#[test]
fn an_empty_answer_writes_nothing() {
    let mut run = Run::new(RunSettings::standard("some-model".to_string()));
    assert!(matches!(run_until_sent(&mut run), Step::Send(_)));
    assert_eq!(failure(run.step(answer(vec![]))), RunError::EmptyResponse);
    assert_eq!(run.phase(), Phase::Failed(RunError::EmptyResponse));
    assert_eq!(failure(run.step(Event::Written(true))), RunError::EmptyResponse);
}

#[test]
fn a_refused_request_is_a_service_error() {
    let mut run = Run::new(RunSettings::standard("some-model".to_string()));
    run_until_sent(&mut run);
    let step = run.step(Event::Reply(ServiceReply { status: Some(401), body: None }));
    assert_eq!(failure(step), RunError::Service);
}

#[test]
fn an_undecodable_answer_is_a_decode_error() {
    let mut run = Run::new(RunSettings::standard("some-model".to_string()));
    run_until_sent(&mut run);
    let step = run.step(Event::Reply(ServiceReply { status: Some(200), body: None }));
    assert_eq!(failure(step), RunError::Decode);
}

#[test]
fn a_file_that_cannot_be_written_is_an_io_error() {
    let mut run = Run::new(RunSettings::standard("some-model".to_string()));
    run_until_sent(&mut run);
    run.step(answer(vec!["PR_DESC_OK"]));
    assert_eq!(failure(run.step(Event::Written(false))), RunError::Io);

    let mut second = Run::new(RunSettings::standard("some-model".to_string()));
    run_until_sent(&mut second);
    second.step(answer(vec!["PR_DESC_OK"]));
    second.step(Event::Written(true));
    assert_eq!(failure(second.step(Event::Written(false))), RunError::Io);
}

#[test]
fn a_missing_template_is_a_template_error() {
    let mut run = Run::new(RunSettings::standard("some-model".to_string()));
    run.step(Event::Begin);
    run.step(credentials());
    for text in ["feature\n", "tree\n", "diff\n", "log\n", "a.txt\n", "1000\n", "5000\n", "2\n", "2\tAda\n"] {
        run.step(printed(text));
    }
    assert_eq!(run.phase(), Phase::Template);
    assert_eq!(failure(run.step(Event::Template(None))), RunError::Template);
}

#[test]
fn a_template_with_an_unknown_variable_sends_nothing() {
    let mut run = Run::new(RunSettings::standard("some-model".to_string()));
    run.step(Event::Begin);
    run.step(credentials());
    for text in ["feature\n", "tree\n", "diff\n", "log\n", "a.txt\n", "1000\n", "5000\n", "2\n", "2\tAda\n"] {
        run.step(printed(text));
    }
    run.step(Event::Template(Some("{{unknown}}".to_string())));
    run.step(Event::WorkingDirectory(Some("/work".to_string())));
    assert_eq!(failure(run.step(Event::Velocity("1.0".to_string()))), RunError::Template);
}

#[test]
fn an_unknown_working_directory_is_an_io_error() {
    let mut run = Run::new(RunSettings::standard("some-model".to_string()));
    run.step(Event::Begin);
    run.step(credentials());
    for text in ["feature\n", "tree\n", "diff\n", "log\n", "a.txt\n", "1000\n", "5000\n", "2\n", "2\tAda\n"] {
        run.step(printed(text));
    }
    run.step(Event::Template(Some("t".to_string())));
    assert_eq!(failure(run.step(Event::WorkingDirectory(None))), RunError::Io);
}

#[test]
fn an_event_out_of_turn_ends_the_run() {
    let mut run = Run::new(RunSettings::standard("some-model".to_string()));
    assert_eq!(failure(run.step(credentials())), RunError::Io);
    let mut done = Run::new(RunSettings::standard("some-model".to_string()));
    run_until_sent(&mut done);
    done.step(answer(vec!["d"]));
    done.step(Event::Written(true));
    done.step(Event::Written(true));
    assert!(matches!(done.step(Event::Begin), Step::Succeed(d) if d == "d"));
    assert_eq!(done.phase(), Phase::Done);
}

#[test]
fn the_settings_of_the_tool() {
    let settings = RunSettings::standard("some-model".to_string());
    assert_eq!(settings.template_path, "pr_template.hbs");
    assert_eq!(
        settings.exclude_patterns,
        vec!["**/dist/**", "**/node_modules/**", "**/scripts/**", "**/package-lock.json", "**/lib/**"]
    );
    assert_eq!(settings.base_branch, "main");
    assert_eq!(settings.prompt_file, "template_output.md");
    assert_eq!(settings.description_file, "pr_prompt.md");
    assert_eq!(settings.api_key_variable, "CLAUDE_API_KEY");
    assert_eq!(settings.vcs_token_variable, "TOKEN_GITHUB");
    assert_eq!(settings.service.model, "some-model");
    assert_eq!(settings.service.max_tokens, 4000);
}

#[test]
fn settings_may_point_elsewhere() {
    let settings = RunSettings {
        template_path: "other.hbs".to_string(),
        exclude_patterns: Vec::new(),
        base_branch: "develop".to_string(),
        prompt_file: "p.md".to_string(),
        description_file: "d.md".to_string(),
        vcs_program: "git".to_string(),
        listing_program: "tree".to_string(),
        api_key_variable: "KEY".to_string(),
        vcs_token_variable: "TOKEN".to_string(),
        service: ServiceConfig {
            endpoint: "http://localhost:1/mock".to_string(),
            model: "m".to_string(),
            max_tokens: 8,
            key_header: "k".to_string(),
            version_header: "v".to_string(),
            version: "1".to_string(),
        },
    };
    let mut run = Run::new(settings);
    run.step(Event::Begin);
    run.step(credentials());
    run.step(printed("topic\n"));
    assert_eq!(vcs_arguments(run.step(printed("tree"))), vec!["diff", "develop", "topic"]);
}

#[test]
fn test_run() {
    let mut run = Run::new(RunSettings::standard("some-model".to_string()));
    run_until_sent(&mut run);
    run.step(answer(vec!["PR_DESC_OK"]));
    run.step(Event::Written(true));
    let result = match run.step(Event::Written(true)) {
        Step::Succeed(description) => Ok(description),
        Step::Fail(error) => Err(error),
        _ => Err(RunError::Io),
    };
    assert!(result.is_ok());
}

#[test]
fn the_model_of_the_settings_is_the_model_that_is_asked() {
    let mut settings = RunSettings::standard("some-model".to_string());
    settings.service.model = "another-model".to_string();
    let mut run = Run::new(settings);
    match run_until_sent(&mut run) {
        Step::Send(request) => assert_eq!(request.model, "another-model"),
        _ => panic!("the run should send the request"),
    }
}
