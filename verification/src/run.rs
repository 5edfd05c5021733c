//! The orchestrator: one run from the credentials to the written files, as a
//! machine that is fed events and answers with the next step.
//!
//! The machine does no input or output. A driver performs each [`Step`] and
//! reports what happened as an [`Event`]; the machine decides what follows.
//! Whatever fails ends the run: from then on the machine asks for nothing.

use vstd::prelude::*;
use crate::error::RunError;
use crate::generate::{
    build_request, description_of, is_success, read_reply, request_of, standard_service,
    ClaudeRequest, ReplyView, RequestView, ServiceConfig, ServiceReply, ServiceView,
};
use crate::generator::{GeneratorView, PrGenerator};
use crate::inspect::{
    arguments, arguments_of, changed_files_of, listing_arguments, listing_arguments_of,
    listing_text, read_changed_files, read_listing, read_trimmed, trimmed_answer, CommandOutput,
    Query,
};
use crate::prompt::{prompt_of, render, PromptVariables, PromptView};
use crate::stats::{
    commit_count_of, commit_time_of, first_commit_time_of, hours_between, hours_from,
    read_commit_count, read_commit_time, read_first_commit_time, RepoStats, StatsView,
};
use crate::text::{copy_texts, texts};

verus! {

/// How far a run has come: each phase waits for the event that answers the
/// step which was asked for last.
#[derive(Debug, Clone, Copy, PartialEq, Eq, Structural)]
pub enum Phase {
    Start,
    Credentials,
    CurrentBranch,
    Listing,
    Diff,
    Log,
    ChangedFiles,
    FirstCommitTime,
    LastCommitTime,
    CommitCount,
    Contributors,
    Template,
    WorkingDirectory,
    Velocity,
    Reply,
    WritePrompt,
    WriteDescription,
    Done,
    Failed(RunError),
}

/// What a run is given before it starts.
pub struct RunSettings {
    /// Where the prompt template is read from.
    pub template_path: String,
    /// Glob patterns of the paths that are of no interest.
    pub exclude_patterns: Vec<String>,
    /// The branch against which the current branch is compared.
    pub base_branch: String,
    /// The file that receives the prompt.
    pub prompt_file: String,
    /// The file that receives the description.
    pub description_file: String,
    /// The program that answers questions about the repository.
    pub vcs_program: String,
    /// The program that lists the directory tree.
    pub listing_program: String,
    /// The environment variable that holds the API key of the service.
    pub api_key_variable: String,
    /// The environment variable that holds the access token for the host
    /// of the repository.
    pub vcs_token_variable: String,
    /// How the text-generation service is addressed.
    pub service: ServiceConfig,
}

/// `RunSettings` as mathematical values.
pub struct SettingsView {
    pub template_path: Seq<char>,
    pub exclude_patterns: Seq<Seq<char>>,
    pub base_branch: Seq<char>,
    pub prompt_file: Seq<char>,
    pub description_file: Seq<char>,
    pub vcs_program: Seq<char>,
    pub listing_program: Seq<char>,
    pub api_key_variable: Seq<char>,
    pub vcs_token_variable: Seq<char>,
    pub service: ServiceView,
}

impl View for RunSettings {
    type V = SettingsView;

    open spec fn view(&self) -> SettingsView {
        SettingsView {
            template_path: self.template_path@,
            exclude_patterns: texts(self.exclude_patterns@),
            base_branch: self.base_branch@,
            prompt_file: self.prompt_file@,
            description_file: self.description_file@,
            vcs_program: self.vcs_program@,
            listing_program: self.listing_program@,
            api_key_variable: self.api_key_variable@,
            vcs_token_variable: self.vcs_token_variable@,
            service: self.service@,
        }
    }
}

/// What the driver reports.
pub enum Event {
    /// The run may begin.
    Begin,
    /// The two credentials, each as the environment holds it.
    Credentials { api_key: Option<String>, vcs_token: Option<String> },
    /// A command has ended.
    Command(CommandOutput),
    /// The text of the template; `None` when it could not be read.
    Template(Option<String>),
    /// The working directory as an absolute path; `None` when unknown.
    WorkingDirectory(Option<String>),
    /// The code velocity, written as a decimal number.
    Velocity(String),
    /// The service has answered, or could not be reached.
    Reply(ServiceReply),
    /// Whether the file was written.
    Written(bool),
}

/// What the driver is to do next.
pub enum Step {
    /// Look up the API key and the access token in the environment, under
    /// these names; a file `.env` may fill the environment first.
    ReadCredentials { api_key: String, vcs_token: String },
    /// Run the version-control tool with these arguments.
    RunVcs { program: String, arguments: Vec<String> },
    /// Run the directory listing with these arguments.
    RunListing { program: String, arguments: Vec<String> },
    /// Read the template at this path.
    ReadTemplate(String),
    /// Find the working directory.
    ReadWorkingDirectory,
    /// Divide `changed_files` by `hours`, which is at least one, in floating
    /// point, and write the quotient as a decimal number.
    ComputeVelocity { changed_files: usize, hours: i64 },
    /// Post this request to the service.
    Send(ClaudeRequest),
    /// Write `contents` to the file `name`, replacing what it held.
    Write { name: String, contents: String },
    /// The run is over; this is the description.
    Succeed(String),
    /// The run is over; this is why.
    Fail(RunError),
}

/// `Event` as mathematical values.
pub enum EventView {
    Begin,
    Credentials { api_key: Option<Seq<char>>, vcs_token: Option<Seq<char>> },
    Command { status: Option<i32>, stdout: Seq<u8> },
    Template(Option<Seq<char>>),
    WorkingDirectory(Option<Seq<char>>),
    Velocity(Seq<char>),
    Reply(ReplyView),
    Written(bool),
}

/// `Step` as mathematical values.
pub enum StepView {
    ReadCredentials { api_key: Seq<char>, vcs_token: Seq<char> },
    RunVcs { program: Seq<char>, arguments: Seq<Seq<char>> },
    RunListing { program: Seq<char>, arguments: Seq<Seq<char>> },
    ReadTemplate(Seq<char>),
    ReadWorkingDirectory,
    ComputeVelocity { changed_files: int, hours: int },
    Send(RequestView),
    Write { name: Seq<char>, contents: Seq<char> },
    Succeed(Seq<char>),
    Fail(RunError),
}

/// The characters of a string that may be missing.
pub open spec fn text_of(o: Option<String>) -> Option<Seq<char>> {
    match o {
        Some(s) => Some(s@),
        None => None,
    }
}

impl View for Event {
    type V = EventView;

    open spec fn view(&self) -> EventView {
        match *self {
            Event::Begin => EventView::Begin,
            Event::Credentials { api_key, vcs_token } => EventView::Credentials {
                api_key: text_of(api_key),
                vcs_token: text_of(vcs_token),
            },
            Event::Command(out) => EventView::Command { status: out.status, stdout: out.stdout@ },
            Event::Template(t) => EventView::Template(text_of(t)),
            Event::WorkingDirectory(d) => EventView::WorkingDirectory(text_of(d)),
            Event::Velocity(v) => EventView::Velocity(v@),
            Event::Reply(r) => EventView::Reply(r@),
            Event::Written(ok) => EventView::Written(ok),
        }
    }
}

impl View for Step {
    type V = StepView;

    open spec fn view(&self) -> StepView {
        match *self {
            Step::ReadCredentials { api_key, vcs_token } => StepView::ReadCredentials {
                api_key: api_key@,
                vcs_token: vcs_token@,
            },
            Step::RunVcs { program, arguments } => StepView::RunVcs {
                program: program@,
                arguments: texts(arguments@),
            },
            Step::RunListing { program, arguments } => StepView::RunListing {
                program: program@,
                arguments: texts(arguments@),
            },
            Step::ReadTemplate(path) => StepView::ReadTemplate(path@),
            Step::ReadWorkingDirectory => StepView::ReadWorkingDirectory,
            Step::ComputeVelocity { changed_files, hours } => StepView::ComputeVelocity {
                changed_files: changed_files as int,
                hours: hours as int,
            },
            Step::Send(request) => StepView::Send(request@),
            Step::Write { name, contents } => StepView::Write { name: name@, contents: contents@ },
            Step::Succeed(d) => StepView::Succeed(d@),
            Step::Fail(e) => StepView::Fail(e),
        }
    }
}

/// A run: the settings, the phase, and what has been gathered so far.
pub struct Run {
    phase: Phase,
    settings: RunSettings,
    generator: Option<PrGenerator>,
    current_branch: String,
    first_time: i64,
    variables: PromptVariables,
    template: String,
    prompt: String,
    description: String,
}

/// `Run` as mathematical values.
pub struct RunView {
    pub phase: Phase,
    pub settings: SettingsView,
    /// The settings with the credentials, once those are known.
    pub generator: Option<GeneratorView>,
    pub current_branch: Seq<char>,
    /// The time of the oldest commit that only the current branch has.
    pub first_time: int,
    /// The variables for the template, as far as they are known.
    pub variables: PromptView,
    pub template: Seq<char>,
    pub prompt: Seq<char>,
    pub description: Seq<char>,
}

impl View for Run {
    type V = RunView;

    closed spec fn view(&self) -> RunView {
        RunView {
            phase: self.phase,
            settings: self.settings@,
            generator: match self.generator {
                Some(g) => Some(g@),
                None => None,
            },
            current_branch: self.current_branch@,
            first_time: self.first_time as int,
            variables: self.variables@,
            template: self.template@,
            prompt: self.prompt@,
            description: self.description@,
        }
    }
}

/// The settings of the command-line tool: the template `pr_template.hbs`,
/// the base branch `main`, the files `template_output.md` and
/// `pr_prompt.md`, the programs `git` and `tree`, the credentials in
/// `CLAUDE_API_KEY` and `TOKEN_GITHUB`, and the public service with the model
/// that is named.
pub open spec fn standard_settings(model: Seq<char>) -> SettingsView {
    SettingsView {
        template_path: "pr_template.hbs"@,
        exclude_patterns: seq![
            "**/dist/**"@,
            "**/node_modules/**"@,
            "**/scripts/**"@,
            "**/package-lock.json"@,
            "**/lib/**"@,
        ],
        base_branch: "main"@,
        prompt_file: "template_output.md"@,
        description_file: "pr_prompt.md"@,
        vcs_program: "git"@,
        listing_program: "tree"@,
        api_key_variable: "CLAUDE_API_KEY"@,
        vcs_token_variable: "TOKEN_GITHUB"@,
        service: standard_service(model),
    }
}

/// Variables of which nothing is known yet.
pub open spec fn no_variables() -> PromptView {
    PromptView {
        absolute_code_path: Seq::empty(),
        source_tree: Seq::empty(),
        git_diff_branch: Seq::empty(),
        git_log_branch: Seq::empty(),
        git_changed_files: Seq::empty(),
        git_stats: StatsView {
            duration_hours: 0,
            commit_count: 0,
            contributors: Seq::empty(),
            changed_files: 0,
        },
        code_velocity: Seq::empty(),
    }
}

/// A run that has not begun.
pub open spec fn initial(settings: SettingsView) -> RunView {
    RunView {
        phase: Phase::Start,
        settings,
        generator: None,
        current_branch: Seq::empty(),
        first_time: 0,
        variables: no_variables(),
        template: Seq::empty(),
        prompt: Seq::empty(),
        description: Seq::empty(),
    }
}

/// The run ends as a failure.
pub open spec fn failed(s: RunView, e: RunError) -> (RunView, StepView) {
    (RunView { phase: Phase::Failed(e), ..s }, StepView::Fail(e))
}

/// The run goes on to `phase` and asks the version-control tool `query`.
pub open spec fn asking(s: RunView, phase: Phase, query: Query) -> (RunView, StepView) {
    (
        RunView { phase, ..s },
        StepView::RunVcs {
            program: s.settings.vcs_program,
            arguments: arguments_of(query, s.settings.base_branch, s.current_branch),
        },
    )
}

/// The API key of a run; empty until the credentials are known.
pub open spec fn api_key_of(s: RunView) -> Seq<char> {
    match s.generator {
        Some(g) => g.claude_api_key,
        None => Seq::empty(),
    }
}

/// The credentials have been looked up: with both at hand the current
/// branch is asked for. The settings stay as they were given.
pub open spec fn after_credentials(
    s: RunView,
    api_key: Option<Seq<char>>,
    vcs_token: Option<Seq<char>>,
) -> (RunView, StepView) {
    match (api_key, vcs_token) {
        (Some(key), Some(token)) => asking(
            RunView {
                generator: Some(
                    GeneratorView {
                        template_path: s.settings.template_path,
                        exclude_patterns: s.settings.exclude_patterns,
                        claude_api_key: key,
                        token_github: token,
                    },
                ),
                ..s
            },
            Phase::CurrentBranch,
            Query::CurrentBranch,
        ),
        _ => failed(s, RunError::MissingCredential),
    }
}

/// The command that was asked for the name of the current branch has ended.
pub open spec fn after_current_branch(s: RunView, status: Option<i32>, stdout: Seq<u8>) -> (
    RunView,
    StepView,
) {
    match trimmed_answer(status, stdout) {
        Ok(branch) => (
            RunView { phase: Phase::Listing, current_branch: branch, ..s },
            StepView::RunListing {
                program: s.settings.listing_program,
                arguments: listing_arguments_of(),
            },
        ),
        Err(err) => failed(s, err),
    }
}

/// The command that was asked for the directory listing has ended.
pub open spec fn after_listing(s: RunView, status: Option<i32>, stdout: Seq<u8>) -> (
    RunView,
    StepView,
) {
    match listing_text(status, stdout) {
        Ok(tree) => asking(
            RunView { variables: PromptView { source_tree: tree, ..s.variables }, ..s },
            Phase::Diff,
            Query::Diff,
        ),
        Err(err) => failed(s, err),
    }
}

/// The command that was asked for the diff has ended.
pub open spec fn after_diff(s: RunView, status: Option<i32>, stdout: Seq<u8>) -> (
    RunView,
    StepView,
) {
    match trimmed_answer(status, stdout) {
        Ok(diff) => asking(
            RunView { variables: PromptView { git_diff_branch: diff, ..s.variables }, ..s },
            Phase::Log,
            Query::Log,
        ),
        Err(err) => failed(s, err),
    }
}

/// The command that was asked for the log has ended.
pub open spec fn after_log(s: RunView, status: Option<i32>, stdout: Seq<u8>) -> (
    RunView,
    StepView,
) {
    match trimmed_answer(status, stdout) {
        Ok(log) => asking(
            RunView { variables: PromptView { git_log_branch: log, ..s.variables }, ..s },
            Phase::ChangedFiles,
            Query::ChangedFiles,
        ),
        Err(err) => failed(s, err),
    }
}

/// The command that was asked for the changed files has ended.
pub open spec fn after_changed_files(s: RunView, status: Option<i32>, stdout: Seq<u8>) -> (
    RunView,
    StepView,
) {
    match changed_files_of(status, stdout) {
        Ok(files) => asking(
            RunView {
                variables: PromptView {
                    git_changed_files: files,
                    git_stats: StatsView { changed_files: files.len(), ..s.variables.git_stats },
                    ..s.variables
                },
                ..s
            },
            Phase::FirstCommitTime,
            Query::FirstCommitTime,
        ),
        Err(err) => failed(s, err),
    }
}

/// The command that was asked for the time of the oldest commit has ended.
pub open spec fn after_first_commit_time(s: RunView, status: Option<i32>, stdout: Seq<u8>) -> (
    RunView,
    StepView,
) {
    match first_commit_time_of(status, stdout) {
        Ok(first) => asking(
            RunView { first_time: first as int, ..s },
            Phase::LastCommitTime,
            Query::LastCommitTime,
        ),
        Err(err) => failed(s, err),
    }
}

/// The command that was asked for the time of the newest commit has ended.
pub open spec fn after_last_commit_time(s: RunView, status: Option<i32>, stdout: Seq<u8>) -> (
    RunView,
    StepView,
) {
    match commit_time_of(status, stdout) {
        Ok(last) => asking(
            RunView {
                variables: PromptView {
                    git_stats: StatsView {
                        duration_hours: hours_from(s.first_time, last as int),
                        ..s.variables.git_stats
                    },
                    ..s.variables
                },
                ..s
            },
            Phase::CommitCount,
            Query::CommitCount,
        ),
        Err(err) => failed(s, err),
    }
}

/// The command that was asked for the number of commits has ended.
pub open spec fn after_commit_count(s: RunView, status: Option<i32>, stdout: Seq<u8>) -> (
    RunView,
    StepView,
) {
    match commit_count_of(status, stdout) {
        Ok(count) => asking(
            RunView {
                variables: PromptView {
                    git_stats: StatsView { commit_count: count as nat, ..s.variables.git_stats },
                    ..s.variables
                },
                ..s
            },
            Phase::Contributors,
            Query::Contributors,
        ),
        Err(err) => failed(s, err),
    }
}

/// The command that was asked for the contributors has ended.
pub open spec fn after_contributors(s: RunView, status: Option<i32>, stdout: Seq<u8>) -> (
    RunView,
    StepView,
) {
    match trimmed_answer(status, stdout) {
        Ok(names) => (
            RunView {
                phase: Phase::Template,
                variables: PromptView {
                    git_stats: StatsView { contributors: names, ..s.variables.git_stats },
                    ..s.variables
                },
                ..s
            },
            StepView::ReadTemplate(s.settings.template_path),
        ),
        Err(err) => failed(s, err),
    }
}

/// The template has been read, or could not be.
pub open spec fn after_template(s: RunView, text: Option<Seq<char>>) -> (RunView, StepView) {
    match text {
        Some(template) => (
            RunView { phase: Phase::WorkingDirectory, template, ..s },
            StepView::ReadWorkingDirectory,
        ),
        None => failed(s, RunError::Template),
    }
}

/// The working directory has been found, or could not be.
pub open spec fn after_working_directory(s: RunView, path: Option<Seq<char>>) -> (
    RunView,
    StepView,
) {
    match path {
        Some(directory) => (
            RunView {
                phase: Phase::Velocity,
                variables: PromptView { absolute_code_path: directory, ..s.variables },
                ..s
            },
            StepView::ComputeVelocity {
                changed_files: s.variables.git_stats.velocity_numerator(),
                hours: s.variables.git_stats.velocity_denominator(),
            },
        ),
        None => failed(s, RunError::Io),
    }
}

/// The code velocity is known: the variables are complete, the template is
/// rendered, and the prompt is sent to the service. `rendering` is what the
/// engine gave, if it gave anything.
pub open spec fn after_velocity(s: RunView, velocity: Seq<char>, rendering: Option<Seq<char>>) -> (
    RunView,
    StepView,
) {
    let variables = PromptView { code_velocity: velocity, ..s.variables };
    match prompt_of(s.template, variables, rendering) {
        Ok(prompt) => (
            RunView { phase: Phase::Reply, variables, prompt, ..s },
            StepView::Send(request_of(s.settings.service, api_key_of(s), prompt)),
        ),
        Err(err) => failed(RunView { variables, ..s }, err),
    }
}

/// The service has answered: with a description at hand the prompt is
/// written first.
pub open spec fn after_reply(s: RunView, reply: ReplyView) -> (RunView, StepView) {
    match description_of(reply) {
        Ok(description) => (
            RunView { phase: Phase::WritePrompt, description, ..s },
            StepView::Write { name: s.settings.prompt_file, contents: s.prompt },
        ),
        Err(err) => failed(s, err),
    }
}

/// The prompt has been written, or could not be.
pub open spec fn after_prompt_written(s: RunView, ok: bool) -> (RunView, StepView) {
    if ok {
        (
            RunView { phase: Phase::WriteDescription, ..s },
            StepView::Write { name: s.settings.description_file, contents: s.description },
        )
    } else {
        failed(s, RunError::Io)
    }
}

/// The description has been written, or could not be.
pub open spec fn after_description_written(s: RunView, ok: bool) -> (RunView, StepView) {
    if ok {
        (RunView { phase: Phase::Done, ..s }, StepView::Succeed(s.description))
    } else {
        failed(s, RunError::Io)
    }
}

/// Whether the template engine is asked when a run in state `s` is told
/// `e`: it is when the code velocity arrives, and at no other time.
pub open spec fn asks_engine(s: RunView, e: EventView) -> bool {
    s.phase == Phase::Velocity && e is Velocity
}

/// What follows when a run in state `s` is told `e`: the state after it, and
/// the step that the driver is asked for. Where the template engine is
/// asked on the way, `rendering` is what it gave, if it gave anything;
/// elsewhere `rendering` plays no part.
///
/// Each phase accepts one kind of event. The event is read as the phase
/// says, what it holds is kept, and the next step is asked for; an event
/// that cannot be used ends the run with the error that tells why. An event
/// of another kind than the phase waits for ends the run with
/// `RunError::Io`. A run that is over stays as it is and repeats its last
/// word, the description or the error.
pub open spec fn next(s: RunView, e: EventView, rendering: Option<Seq<char>>) -> (
    RunView,
    StepView,
) {
    match (s.phase, e) {
        (Phase::Failed(err), _) => (s, StepView::Fail(err)),
        (Phase::Done, _) => (s, StepView::Succeed(s.description)),
        (Phase::Start, EventView::Begin) => (
            RunView { phase: Phase::Credentials, ..s },
            StepView::ReadCredentials {
                api_key: s.settings.api_key_variable,
                vcs_token: s.settings.vcs_token_variable,
            },
        ),
        (Phase::Credentials, EventView::Credentials { api_key, vcs_token }) => after_credentials(
            s,
            api_key,
            vcs_token,
        ),
        (Phase::CurrentBranch, EventView::Command { status, stdout }) => after_current_branch(
            s,
            status,
            stdout,
        ),
        (Phase::Listing, EventView::Command { status, stdout }) => after_listing(
            s,
            status,
            stdout,
        ),
        (Phase::Diff, EventView::Command { status, stdout }) => after_diff(
            s,
            status,
            stdout,
        ),
        (Phase::Log, EventView::Command { status, stdout }) => after_log(
            s,
            status,
            stdout,
        ),
        (Phase::ChangedFiles, EventView::Command { status, stdout }) => after_changed_files(
            s,
            status,
            stdout,
        ),
        (Phase::FirstCommitTime, EventView::Command { status, stdout }) => after_first_commit_time(
            s,
            status,
            stdout,
        ),
        (Phase::LastCommitTime, EventView::Command { status, stdout }) => after_last_commit_time(
            s,
            status,
            stdout,
        ),
        (Phase::CommitCount, EventView::Command { status, stdout }) => after_commit_count(
            s,
            status,
            stdout,
        ),
        (Phase::Contributors, EventView::Command { status, stdout }) => after_contributors(
            s,
            status,
            stdout,
        ),
        (Phase::Template, EventView::Template(text)) => after_template(s, text),
        (Phase::WorkingDirectory, EventView::WorkingDirectory(path)) => after_working_directory(
            s,
            path,
        ),
        (Phase::Velocity, EventView::Velocity(velocity)) => after_velocity(
            s,
            velocity,
            rendering,
        ),
        (Phase::Reply, EventView::Reply(reply)) => after_reply(s, reply),
        (Phase::WritePrompt, EventView::Written(ok)) => after_prompt_written(s, ok),
        (Phase::WriteDescription, EventView::Written(ok)) => after_description_written(s, ok),
        _ => failed(s, RunError::Io),
    }
}

impl RunSettings {
    /// The settings of the command-line tool, for the model that is named.
    pub fn standard(model: String) -> (s: RunSettings)
        ensures
            s@ == standard_settings(model@),
    {
        let mut exclude_patterns: Vec<String> = Vec::new();
        exclude_patterns.push("**/dist/**".to_owned());
        exclude_patterns.push("**/node_modules/**".to_owned());
        exclude_patterns.push("**/scripts/**".to_owned());
        exclude_patterns.push("**/package-lock.json".to_owned());
        exclude_patterns.push("**/lib/**".to_owned());
        proof {
            assert(texts(exclude_patterns@) =~= standard_settings(model@).exclude_patterns);
        }
        RunSettings {
            template_path: "pr_template.hbs".to_owned(),
            exclude_patterns,
            base_branch: "main".to_owned(),
            prompt_file: "template_output.md".to_owned(),
            description_file: "pr_prompt.md".to_owned(),
            vcs_program: "git".to_owned(),
            listing_program: "tree".to_owned(),
            api_key_variable: "CLAUDE_API_KEY".to_owned(),
            vcs_token_variable: "TOKEN_GITHUB".to_owned(),
            service: ServiceConfig::standard(model),
        }
    }
}

impl Run {
    /// A run that has not begun. Its first event is `Event::Begin`.
    pub fn new(settings: RunSettings) -> (r: Run)
        ensures
            r@ == initial(settings@),
    {
        let files: Vec<String> = Vec::new();
        proof {
            assert(texts(files@) =~= Seq::<Seq<char>>::empty());
        }
        Run {
            phase: Phase::Start,
            settings,
            generator: None,
            current_branch: String::new(),
            first_time: 0,
            variables: PromptVariables {
                absolute_code_path: String::new(),
                source_tree: String::new(),
                git_diff_branch: String::new(),
                git_log_branch: String::new(),
                git_changed_files: files,
                git_stats: RepoStats {
                    duration_hours: 0,
                    commit_count: 0,
                    contributors: String::new(),
                    changed_files: 0,
                },
                code_velocity: String::new(),
            },
            template: String::new(),
            prompt: String::new(),
            description: String::new(),
        }
    }

    /// How far the run has come.
    pub fn phase(&self) -> (p: Phase)
        ensures
            p == self@.phase,
    {
        self.phase
    }

    /// Whether the run is over, well or badly.
    pub fn is_over(&self) -> (b: bool)
        ensures
            b == (self@.phase == Phase::Done || self@.phase is Failed),
    {
        match self.phase {
            Phase::Done => true,
            Phase::Failed(_) => true,
            _ => false,
        }
    }

    fn fail(&mut self, e: RunError) -> (step: Step)
        ensures
            (final(self)@, step@) == failed(old(self)@, e),
    {
        self.phase = Phase::Failed(e);
        Step::Fail(e)
    }

    fn ask(&mut self, phase: Phase, query: Query) -> (step: Step)
        ensures
            (final(self)@, step@) == asking(old(self)@, phase, query),
    {
        self.phase = phase;
        Step::RunVcs {
            program: self.settings.vcs_program.clone(),
            arguments: arguments(
                query,
                self.settings.base_branch.as_str(),
                self.current_branch.as_str(),
            ),
        }
    }

    fn api_key(&self) -> (k: String)
        ensures
            k@ == api_key_of(self@),
    {
        match &self.generator {
            Some(g) => g.api_key().to_owned(),
            None => String::new(),
        }
    }

    fn on_credentials(&mut self, api_key: Option<String>, vcs_token: Option<String>) -> (step:
        Step)
        ensures
            (final(self)@, step@) == after_credentials(
                old(self)@,
                text_of(api_key),
                text_of(vcs_token),
            ),
    {
        match (api_key, vcs_token) {
            (Some(key), Some(token)) => {
                let generator = PrGenerator::new(
                    self.settings.template_path.clone(),
                    copy_texts(&self.settings.exclude_patterns),
                    key,
                    token,
                );
                self.generator = Some(generator);
                self.ask(Phase::CurrentBranch, Query::CurrentBranch)
            },
            _ => self.fail(RunError::MissingCredential),
        }
    }

    fn on_current_branch(&mut self, out: &CommandOutput) -> (step: Step)
        ensures
            (final(self)@, step@) == after_current_branch(old(self)@, out.status, out.stdout@),
    {
        match read_trimmed(out) {
            Ok(branch) => {
                self.current_branch = branch;
                self.phase = Phase::Listing;
                Step::RunListing {
                    program: self.settings.listing_program.clone(),
                    arguments: listing_arguments(),
                }
            },
            Err(err) => self.fail(err),
        }
    }

    fn on_listing(&mut self, out: &CommandOutput) -> (step: Step)
        ensures
            (final(self)@, step@) == after_listing(old(self)@, out.status, out.stdout@),
    {
        match read_listing(out) {
            Ok(tree) => {
                self.variables.source_tree = tree;
                self.ask(Phase::Diff, Query::Diff)
            },
            Err(err) => self.fail(err),
        }
    }

    fn on_diff(&mut self, out: &CommandOutput) -> (step: Step)
        ensures
            (final(self)@, step@) == after_diff(old(self)@, out.status, out.stdout@),
    {
        match read_trimmed(out) {
            Ok(diff) => {
                self.variables.git_diff_branch = diff;
                self.ask(Phase::Log, Query::Log)
            },
            Err(err) => self.fail(err),
        }
    }

    fn on_log(&mut self, out: &CommandOutput) -> (step: Step)
        ensures
            (final(self)@, step@) == after_log(old(self)@, out.status, out.stdout@),
    {
        match read_trimmed(out) {
            Ok(log) => {
                self.variables.git_log_branch = log;
                self.ask(Phase::ChangedFiles, Query::ChangedFiles)
            },
            Err(err) => self.fail(err),
        }
    }

    fn on_changed_files(&mut self, out: &CommandOutput) -> (step: Step)
        ensures
            (final(self)@, step@) == after_changed_files(old(self)@, out.status, out.stdout@),
    {
        match read_changed_files(out) {
            Ok(files) => {
                self.variables.git_stats.changed_files = files.len();
                self.variables.git_changed_files = files;
                self.ask(Phase::FirstCommitTime, Query::FirstCommitTime)
            },
            Err(err) => self.fail(err),
        }
    }

    fn on_first_commit_time(&mut self, out: &CommandOutput) -> (step: Step)
        ensures
            (final(self)@, step@) == after_first_commit_time(old(self)@, out.status, out.stdout@),
    {
        match read_first_commit_time(out) {
            Ok(first) => {
                self.first_time = first;
                self.ask(Phase::LastCommitTime, Query::LastCommitTime)
            },
            Err(err) => self.fail(err),
        }
    }

    fn on_last_commit_time(&mut self, out: &CommandOutput) -> (step: Step)
        ensures
            (final(self)@, step@) == after_last_commit_time(old(self)@, out.status, out.stdout@),
    {
        match read_commit_time(out) {
            Ok(last) => {
                self.variables.git_stats.duration_hours = hours_between(self.first_time, last);
                self.ask(Phase::CommitCount, Query::CommitCount)
            },
            Err(err) => self.fail(err),
        }
    }

    fn on_commit_count(&mut self, out: &CommandOutput) -> (step: Step)
        ensures
            (final(self)@, step@) == after_commit_count(old(self)@, out.status, out.stdout@),
    {
        match read_commit_count(out) {
            Ok(count) => {
                self.variables.git_stats.commit_count = count;
                self.ask(Phase::Contributors, Query::Contributors)
            },
            Err(err) => self.fail(err),
        }
    }

    fn on_contributors(&mut self, out: &CommandOutput) -> (step: Step)
        ensures
            (final(self)@, step@) == after_contributors(old(self)@, out.status, out.stdout@),
    {
        match read_trimmed(out) {
            Ok(names) => {
                self.variables.git_stats.contributors = names;
                self.phase = Phase::Template;
                Step::ReadTemplate(self.settings.template_path.clone())
            },
            Err(err) => self.fail(err),
        }
    }

    fn on_template(&mut self, text: Option<String>) -> (step: Step)
        ensures
            (final(self)@, step@) == after_template(old(self)@, text_of(text)),
    {
        match text {
            Some(template) => {
                self.template = template;
                self.phase = Phase::WorkingDirectory;
                Step::ReadWorkingDirectory
            },
            None => self.fail(RunError::Template),
        }
    }

    fn on_working_directory(&mut self, path: Option<String>) -> (step: Step)
        ensures
            (final(self)@, step@) == after_working_directory(old(self)@, text_of(path)),
    {
        match path {
            Some(directory) => {
                self.variables.absolute_code_path = directory;
                self.phase = Phase::Velocity;
                Step::ComputeVelocity {
                    changed_files: self.variables.git_stats.velocity_numerator(),
                    hours: self.variables.git_stats.velocity_denominator(),
                }
            },
            None => self.fail(RunError::Io),
        }
    }

    fn on_velocity(&mut self, velocity: String) -> (step: Step)
        ensures
            exists|rendering: Option<Seq<char>>|
                (final(self)@, step@) == #[trigger] after_velocity(
                    old(self)@,
                    velocity@,
                    rendering,
                ),
    {
        self.variables.code_velocity = velocity;
        let outcome = render(self.template.as_str(), &self.variables);
        let ghost rendering: Option<Seq<char>> = if outcome is Ok {
            Some(outcome->Ok_0@)
        } else {
            None
        };
        let ghost before = old(self)@;
        let step = self.keep_rendering(outcome);
        proof {
            assert((self@, step@) == after_velocity(before, velocity@, rendering));
        }
        step
    }

    fn keep_rendering(&mut self, outcome: Result<String, RunError>) -> (step: Step)
        ensures
            (final(self)@, step@) == (match outcome {
                Ok(prompt) => (
                    RunView { phase: Phase::Reply, prompt: prompt@, ..old(self)@ },
                    StepView::Send(
                        request_of(old(self)@.settings.service, api_key_of(old(self)@), prompt@),
                    ),
                ),
                Err(err) => failed(old(self)@, err),
            }),
    {
        match outcome {
            Ok(prompt) => {
                let key = self.api_key();
                let request = build_request(&self.settings.service, key.as_str(), prompt.as_str());
                self.prompt = prompt;
                self.phase = Phase::Reply;
                Step::Send(request)
            },
            Err(err) => self.fail(err),
        }
    }

    fn on_reply(&mut self, reply: &ServiceReply) -> (step: Step)
        ensures
            (final(self)@, step@) == after_reply(old(self)@, reply@),
    {
        match read_reply(reply) {
            Ok(description) => {
                self.description = description;
                self.phase = Phase::WritePrompt;
                Step::Write {
                    name: self.settings.prompt_file.clone(),
                    contents: self.prompt.clone(),
                }
            },
            Err(err) => self.fail(err),
        }
    }

    fn on_prompt_written(&mut self, ok: bool) -> (step: Step)
        ensures
            (final(self)@, step@) == after_prompt_written(old(self)@, ok),
    {
        if ok {
            self.phase = Phase::WriteDescription;
            Step::Write {
                name: self.settings.description_file.clone(),
                contents: self.description.clone(),
            }
        } else {
            self.fail(RunError::Io)
        }
    }

    fn on_description_written(&mut self, ok: bool) -> (step: Step)
        ensures
            (final(self)@, step@) == after_description_written(old(self)@, ok),
    {
        if ok {
            self.phase = Phase::Done;
            Step::Succeed(self.description.clone())
        } else {
            self.fail(RunError::Io)
        }
    }

    /// Takes in what the driver reports and says what it is to do next.
    ///
    /// When the code velocity arrives the template engine is asked, and what
    /// follows is what `next` says for the rendering that it gave, whatever
    /// that was. Every other step is fixed by the state and the event.
    pub fn step(&mut self, event: Event) -> (step: Step)
        ensures
            !asks_engine(old(self)@, event@) ==> (final(self)@, step@) == next(
                old(self)@,
                event@,
                None,
            ),
            asks_engine(old(self)@, event@) ==> exists|rendering: Option<Seq<char>>|
                (final(self)@, step@) == #[trigger] next(old(self)@, event@, rendering),
    {
        let phase = self.phase;
        match (phase, event) {
            (Phase::Failed(err), _) => Step::Fail(err),
            (Phase::Done, _) => Step::Succeed(self.description.clone()),
            (Phase::Start, Event::Begin) => {
                self.phase = Phase::Credentials;
                Step::ReadCredentials {
                    api_key: self.settings.api_key_variable.clone(),
                    vcs_token: self.settings.vcs_token_variable.clone(),
                }
            },
            (Phase::Credentials, Event::Credentials { api_key, vcs_token }) => self.on_credentials(
                api_key,
                vcs_token,
            ),
            (Phase::CurrentBranch, Event::Command(out)) => self.on_current_branch(&out),
            (Phase::Listing, Event::Command(out)) => self.on_listing(&out),
            (Phase::Diff, Event::Command(out)) => self.on_diff(&out),
            (Phase::Log, Event::Command(out)) => self.on_log(&out),
            (Phase::ChangedFiles, Event::Command(out)) => self.on_changed_files(&out),
            (Phase::FirstCommitTime, Event::Command(out)) => self.on_first_commit_time(&out),
            (Phase::LastCommitTime, Event::Command(out)) => self.on_last_commit_time(&out),
            (Phase::CommitCount, Event::Command(out)) => self.on_commit_count(&out),
            (Phase::Contributors, Event::Command(out)) => self.on_contributors(&out),
            (Phase::Template, Event::Template(text)) => self.on_template(text),
            (Phase::WorkingDirectory, Event::WorkingDirectory(path)) => self.on_working_directory(
                path,
            ),
            (Phase::Velocity, Event::Velocity(velocity)) => {
                let ghost before = self@;
                let ghost told = velocity@;
                let step = self.on_velocity(velocity);
                proof {
                    let rendering = choose|rendering: Option<Seq<char>>|
                        (self@, step@) == #[trigger] after_velocity(before, told, rendering);
                    assert((self@, step@) == next(before, EventView::Velocity(told), rendering));
                }
                step
            },
            (Phase::Reply, Event::Reply(reply)) => self.on_reply(&reply),
            (Phase::WritePrompt, Event::Written(ok)) => self.on_prompt_written(ok),
            (Phase::WriteDescription, Event::Written(ok)) => self.on_description_written(ok),
            _ => self.fail(RunError::Io),
        }
    }
}

/// The state of a run that started in `s` and was told `events` in turn,
/// where `engine` says for each place what rendering the engine gave, if it
/// was asked there.
pub open spec fn state_after(
    s: RunView,
    events: Seq<EventView>,
    engine: spec_fn(int) -> Option<Seq<char>>,
) -> RunView
    decreases events.len(),
{
    if events.len() == 0 {
        s
    } else {
        next(
            state_after(s, events.drop_last(), engine),
            events.last(),
            engine(events.len() - 1),
        ).0
    }
}

/// The step that answered the last of `events`.
pub open spec fn last_step(
    s: RunView,
    events: Seq<EventView>,
    engine: spec_fn(int) -> Option<Seq<char>>,
) -> StepView
    recommends
        events.len() > 0,
{
    next(state_after(s, events.drop_last(), engine), events.last(), engine(events.len() - 1)).1
}

/// The phase that follows `phase` when all goes well.
pub open spec fn following(phase: Phase) -> Phase {
    match phase {
        Phase::Start => Phase::Credentials,
        Phase::Credentials => Phase::CurrentBranch,
        Phase::CurrentBranch => Phase::Listing,
        Phase::Listing => Phase::Diff,
        Phase::Diff => Phase::Log,
        Phase::Log => Phase::ChangedFiles,
        Phase::ChangedFiles => Phase::FirstCommitTime,
        Phase::FirstCommitTime => Phase::LastCommitTime,
        Phase::LastCommitTime => Phase::CommitCount,
        Phase::CommitCount => Phase::Contributors,
        Phase::Contributors => Phase::Template,
        Phase::Template => Phase::WorkingDirectory,
        Phase::WorkingDirectory => Phase::Velocity,
        Phase::Velocity => Phase::Reply,
        Phase::Reply => Phase::WritePrompt,
        Phase::WritePrompt => Phase::WriteDescription,
        Phase::WriteDescription => Phase::Done,
        Phase::Done => Phase::Done,
        Phase::Failed(e) => Phase::Failed(e),
    }
}

/// The phases in which an answer of the version-control tool is awaited.
pub open spec fn awaits_vcs(phase: Phase) -> bool {
    phase == Phase::CurrentBranch || phase == Phase::Diff || phase == Phase::Log || phase
        == Phase::ChangedFiles || phase == Phase::FirstCommitTime || phase
        == Phase::LastCommitTime || phase == Phase::CommitCount || phase == Phase::Contributors
}

/// A step that starts a process.
pub open spec fn starts_process(step: StepView) -> bool {
    step is RunVcs || step is RunListing
}

/// A step that reaches the generation service or writes a file.
pub open spec fn sends_or_writes(step: StepView) -> bool {
    step is Send || step is Write
}

/// What the engine gave plays a part only where the engine is asked.
pub proof fn lemma_engine_is_asked_in_one_place(
    s: RunView,
    e: EventView,
    one: Option<Seq<char>>,
    other: Option<Seq<char>>,
)
    requires
        !asks_engine(s, e),
    ensures
        next(s, e, one) == next(s, e, other),
{
}

/// The steps of a run are strictly ordered: an event moves the run to the
/// phase that follows, or ends it as a failure.
pub proof fn lemma_phases_follow_in_order(s: RunView, e: EventView, rendering: Option<Seq<char>>)
    ensures
        next(s, e, rendering).0.phase == following(s.phase) || next(s, e, rendering).0.phase
            is Failed,
{
}

/// The step that is asked for tells the phase that the run has come to: each
/// phase waits for the answer to one kind of step. With the order of the
/// phases this says when anything can happen: a process is started only once
/// the credentials are known, the service is asked only once the variables
/// are complete, and a file is written only once the service has given a
/// description.
pub proof fn lemma_step_tells_the_phase(s: RunView, e: EventView, rendering: Option<Seq<char>>)
    ensures
        ({
            let phase = next(s, e, rendering).0.phase;
            let step = next(s, e, rendering).1;
            &&& step is ReadCredentials <==> phase == Phase::Credentials
            &&& step is RunVcs <==> awaits_vcs(phase)
            &&& step is RunListing <==> phase == Phase::Listing
            &&& step is ReadTemplate <==> phase == Phase::Template
            &&& step is ReadWorkingDirectory <==> phase == Phase::WorkingDirectory
            &&& step is ComputeVelocity <==> phase == Phase::Velocity
            &&& step is Send <==> phase == Phase::Reply
            &&& step is Write <==> phase == Phase::WritePrompt || phase == Phase::WriteDescription
            &&& step is Succeed <==> phase == Phase::Done
            &&& step is Fail <==> phase is Failed
        }),
{
    match s.phase {
        Phase::Start => {},
        Phase::Credentials => {},
        Phase::CurrentBranch => {},
        Phase::Listing => {},
        Phase::Diff => {},
        Phase::Log => {},
        Phase::ChangedFiles => {},
        Phase::FirstCommitTime => {},
        Phase::LastCommitTime => {},
        Phase::CommitCount => {},
        Phase::Contributors => {},
        Phase::Template => {},
        Phase::WorkingDirectory => {},
        Phase::Velocity => {},
        Phase::Reply => {},
        Phase::WritePrompt => {},
        Phase::WriteDescription => {},
        Phase::Done => {},
        Phase::Failed(_) => {},
    }
}

/// A run that has failed stays as it is and answers every event with its
/// error: it starts no process, sends nothing and writes nothing.
pub proof fn lemma_failure_is_final(
    s: RunView,
    error: RunError,
    events: Seq<EventView>,
    engine: spec_fn(int) -> Option<Seq<char>>,
)
    requires
        s.phase == Phase::Failed(error),
    ensures
        state_after(s, events, engine) == s,
        events.len() > 0 ==> last_step(s, events, engine) == StepView::Fail(error),
        events.len() > 0 ==> !starts_process(last_step(s, events, engine)) && !sends_or_writes(
            last_step(s, events, engine),
        ),
    decreases events.len(),
{
    if events.len() > 0 {
        lemma_failure_is_final(s, error, events.drop_last(), engine);
    }
}

/// Without both credentials a run fails before any process is started: it
/// asks for the credentials, fails with `MissingCredential`, and whatever
/// it is told afterwards it only repeats that.
pub proof fn lemma_missing_credential_stops_the_run(
    settings: SettingsView,
    api_key: Option<Seq<char>>,
    vcs_token: Option<Seq<char>>,
    later: Seq<EventView>,
    engine: spec_fn(int) -> Option<Seq<char>>,
)
    requires
        api_key is None || vcs_token is None,
    ensures
        ({
            let asked = next(initial(settings), EventView::Begin, None);
            let told = next(asked.0, EventView::Credentials { api_key, vcs_token }, None);
            &&& asked.1 is ReadCredentials
            &&& told.1 == StepView::Fail(RunError::MissingCredential)
            &&& state_after(told.0, later, engine) == told.0
            &&& later.len() > 0 ==> last_step(told.0, later, engine) == StepView::Fail(
                RunError::MissingCredential,
            )
        }),
{
    let asked = next(initial(settings), EventView::Begin, None);
    let told = next(asked.0, EventView::Credentials { api_key, vcs_token }, None);
    lemma_failure_is_final(told.0, RunError::MissingCredential, later, engine);
}

/// With both credentials a run goes on: it keeps its settings and asks the
/// version-control tool for the current branch.
pub proof fn lemma_credentials_let_the_run_go_on(
    settings: SettingsView,
    api_key: Seq<char>,
    vcs_token: Seq<char>,
)
    ensures
        ({
            let asked = next(initial(settings), EventView::Begin, None);
            let told = next(
                asked.0,
                EventView::Credentials { api_key: Some(api_key), vcs_token: Some(vcs_token) },
                None,
            );
            &&& told.0.phase == Phase::CurrentBranch
            &&& told.0.settings == settings
            &&& api_key_of(told.0) == api_key
            &&& told.1 == StepView::RunVcs {
                program: settings.vcs_program,
                arguments: arguments_of(Query::CurrentBranch, settings.base_branch, Seq::empty()),
            }
        }),
{
}

/// When the version-control tool ends with a status other than zero, or
/// cannot be started, the run fails with `VcsCommand` at once, and nothing is
/// sent to the service or written afterwards.
pub proof fn lemma_failed_command_stops_the_run(
    s: RunView,
    status: Option<i32>,
    stdout: Seq<u8>,
    later: Seq<EventView>,
    engine: spec_fn(int) -> Option<Seq<char>>,
)
    requires
        awaits_vcs(s.phase),
        status != Some(0i32),
    ensures
        ({
            let told = next(s, EventView::Command { status, stdout }, None);
            &&& told == failed(s, RunError::VcsCommand)
            &&& state_after(told.0, later, engine) == told.0
            &&& later.len() > 0 ==> last_step(told.0, later, engine) == StepView::Fail(
                RunError::VcsCommand,
            )
        }),
{
    let told = next(s, EventView::Command { status, stdout }, None);
    lemma_failure_is_final(told.0, RunError::VcsCommand, later, engine);
}

/// When the service answers without a content block, the run fails with
/// `EmptyResponse` and no file is written, then or later.
pub proof fn lemma_empty_reply_stops_the_run(
    s: RunView,
    reply: ReplyView,
    later: Seq<EventView>,
    engine: spec_fn(int) -> Option<Seq<char>>,
)
    requires
        s.phase == Phase::Reply,
        is_success(reply.status),
        reply.body matches Some(content) && content.len() == 0,
    ensures
        ({
            let told = next(s, EventView::Reply(reply), None);
            &&& told == failed(s, RunError::EmptyResponse)
            &&& state_after(told.0, later, engine) == told.0
            &&& later.len() > 0 ==> last_step(told.0, later, engine) == StepView::Fail(
                RunError::EmptyResponse,
            )
        }),
{
    let told = next(s, EventView::Reply(reply), None);
    lemma_failure_is_final(told.0, RunError::EmptyResponse, later, engine);
}

} // verus!
