//! The command that runs a snippet of JavaScript, and the sandbox that the
//! snippet is taken through: a static analysis of the text first, then a run in
//! a container that has no network, a read-only file system, and ceilings on
//! memory, processor time and the number of processes.
//!
//! The sandbox starts no process and touches no file. It is a state machine:
//! each step takes what the last request led to and says what to ask for
//! next, and the caller does the asking.

use vstd::prelude::*;
use crate::commands::outcome::{concat2, concat3, Action, ActionView, Level, Notice, NoticeView, Outcome, OutcomeView};
use crate::commands::registry::Registry;
use crate::commands::{BuiltinCommand, Command};
use crate::helpers::{arg_count, has_at_least_one_arg};
use crate::text::edit::{nth_line, nth_of_lines};
use crate::text::scan::{has_prefix, starts_with};

verus! {

/// Runs a snippet of JavaScript in the sandbox.
#[derive(Clone, Copy, Debug, Default, PartialEq, Eq)]
pub struct Node;

/// Where the static analysis is installed.
pub const TOOL_PATH: &'static str = "vendor/robocop/bin";

/// The program that runs containers.
pub const RUNTIME: &'static str = "docker";

/// What the sandbox is waiting for.
#[derive(Clone, Copy, Debug, PartialEq, Eq, Structural)]
pub enum Stage {
    /// To hear whether the static analysis is installed.
    Tool,
    /// For the static analysis to end.
    Gate,
    /// To hear whether the container runtime is running.
    Runtime,
    /// For the snippet to be written to a disposable file.
    Script,
    /// For the container to end.
    Container,
    /// For the disposable file to be removed.
    Cleanup,
    /// For nothing: the reply is settled.
    Done,
}

/// What the sandbox asks its caller to do.
#[derive(Clone, Debug, PartialEq, Eq)]
pub enum Request {
    /// Say whether a file exists at the path.
    CheckTool { path: String },
    /// Run the program with the arguments and wait for it to end.
    Run { program: String, args: Vec<String> },
    /// Write the content to a new disposable file with a name of its own.
    WriteScript { content: String },
    /// Remove the disposable file.
    RemoveScript { path: String },
    /// Send the reply: the sandbox is done.
    Finish { reply: String },
}

/// What a [`Request`] holds, with each text as a sequence of characters.
pub enum RequestView {
    CheckTool { path: Seq<char> },
    Run { program: Seq<char>, args: Seq<Seq<char>> },
    WriteScript { content: Seq<char> },
    RemoveScript { path: Seq<char> },
    Finish { reply: Seq<char> },
}

impl View for Request {
    type V = RequestView;

    open spec fn view(&self) -> RequestView {
        match *self {
            Request::CheckTool { path } => RequestView::CheckTool { path: path@ },
            Request::Run { program, args } => RequestView::Run {
                program: program@,
                args: args.deep_view(),
            },
            Request::WriteScript { content } => RequestView::WriteScript { content: content@ },
            Request::RemoveScript { path } => RequestView::RemoveScript { path: path@ },
            Request::Finish { reply } => RequestView::Finish { reply: reply@ },
        }
    }
}

/// What a request led to.
#[derive(Clone, Debug, PartialEq, Eq)]
pub enum Event {
    /// Whether the file exists.
    ToolChecked { present: bool },
    /// The program ran and ended; `success` is its exit status, and nothing
    /// else tells success from failure.
    Exited { success: bool, stdout: String, stderr: String },
    /// The program could not be started.
    FailedToStart,
    /// The disposable file is written, at this path.
    ScriptWritten { path: String },
    /// The disposable file could not be created, or it was created at the
    /// path given and could not be written.
    ScriptFailed { created: Option<String> },
    /// The disposable file is removed, or was found to be gone.
    ScriptRemoved,
}

/// What an [`Event`] holds, with each text as a sequence of characters.
pub enum EventView {
    ToolChecked { present: bool },
    Exited { success: bool, stdout: Seq<char>, stderr: Seq<char> },
    FailedToStart,
    ScriptWritten { path: Seq<char> },
    ScriptFailed { created: Option<Seq<char>> },
    ScriptRemoved,
}

impl View for Event {
    type V = EventView;

    open spec fn view(&self) -> EventView {
        match *self {
            Event::ToolChecked { present } => EventView::ToolChecked { present },
            Event::Exited { success, stdout, stderr } => EventView::Exited {
                success,
                stdout: stdout@,
                stderr: stderr@,
            },
            Event::FailedToStart => EventView::FailedToStart,
            Event::ScriptWritten { path } => EventView::ScriptWritten { path: path@ },
            Event::ScriptFailed { created } => EventView::ScriptFailed {
                created: match created {
                    Some(p) => Some(p@),
                    None => None,
                },
            },
            Event::ScriptRemoved => EventView::ScriptRemoved,
        }
    }
}

/// One step of the sandbox: what to ask for next, and a line for the log
/// where one is due.
#[derive(Clone, Debug, PartialEq, Eq)]
pub struct Step {
    pub request: Request,
    pub notice: Option<Notice>,
}

/// What a [`Step`] holds, with each text as a sequence of characters.
pub struct StepView {
    pub request: RequestView,
    pub notice: Option<NoticeView>,
}

impl View for Step {
    type V = StepView;

    open spec fn view(&self) -> StepView {
        StepView {
            request: self.request@,
            notice: match self.notice {
                Some(n) => Some(n@),
                None => None,
            },
        }
    }
}

/// One snippet on its way through the sandbox.
#[derive(Debug, PartialEq, Eq)]
pub struct Sandbox {
    stage: Stage,
    snippet: String,
    sender: String,
    script: Option<String>,
    reply: String,
}

/// What a [`Sandbox`] holds, with each text as a sequence of characters.
pub struct SandboxView {
    /// What the sandbox is waiting for.
    pub stage: Stage,
    /// The snippet, as the sender wrote it.
    pub snippet: Seq<char>,
    /// Who sent the snippet.
    pub sender: Seq<char>,
    /// The path of the disposable file, while there is one.
    pub script: Option<Seq<char>>,
    /// The reply, once it is settled.
    pub reply: Seq<char>,
}

impl View for Sandbox {
    type V = SandboxView;

    closed spec fn view(&self) -> SandboxView {
        SandboxView {
            stage: self.stage,
            snippet: self.snippet@,
            sender: self.sender@,
            script: match self.script {
                Some(p) => Some(p@),
                None => None,
            },
            reply: self.reply@,
        }
    }
}

impl SandboxView {
    /// There is a disposable file exactly while the sandbox waits for the
    /// container or for the removal of the file.
    pub open spec fn wf(self) -> bool {
        self.script is Some <==> (self.stage == Stage::Container || self.stage == Stage::Cleanup)
    }
}

/// The line of a tool's diagnostics that is shown to the sender: the fifth,
/// or a fixed text where there are fewer than five lines.
pub open spec fn error_line(stderr: Seq<char>) -> Seq<char> {
    match nth_of_lines(stderr, 4) {
        Some(line) => line,
        None => "Unknown error"@,
    }
}

/// Whether the line names one of the rejections that the static analysis
/// is there for.
pub open spec fn is_known_exception(line: Seq<char>) -> bool {
    has_prefix(line, "InfiniteLoopError"@) || has_prefix(line, "ForbiddenModuleError"@)
}

/// The snippet, wrapped so that its value is printed when the file is run.
pub open spec fn wrapped(snippet: Seq<char>) -> Seq<char> {
    "console.log((() => ("@ + snippet + "))());"@
}

/// The arguments of the probe that tells whether the runtime is running.
pub open spec fn probe_args() -> Seq<Seq<char>> {
    seq!["system"@, "info"@]
}

/// The arguments of the run in the container: removed when it ends, 128 MB of
/// memory, half a processor, no network, a read-only file system, 64
/// processes at most, and the disposable file as the only thing mounted,
/// read-only.
pub open spec fn container_args(path: Seq<char>) -> Seq<Seq<char>> {
    seq![
        "run"@,
        "--rm"@,
        "--memory"@,
        "128m"@,
        "--cpus"@,
        "0.5"@,
        "--network"@,
        "none"@,
        "--read-only"@,
        "--pids-limit"@,
        "64"@,
        "-v"@,
        path + ":/sandbox/script.js:ro"@,
        "node-sandbox"@,
        "node"@,
        "/sandbox/script.js"@,
    ]
}

/// The sandbox at rest, with the reply settled, and the request to send it.
pub open spec fn finished(state: SandboxView, reply: Seq<char>, notice: Option<NoticeView>) -> (
    SandboxView,
    StepView,
) {
    (
        SandboxView { stage: Stage::Done, script: None, reply, ..state },
        StepView { request: RequestView::Finish { reply }, notice },
    )
}

/// The sandbox with a disposable file at `path` that is to be removed before
/// the reply is sent.
pub open spec fn cleaning(
    state: SandboxView,
    path: Seq<char>,
    reply: Seq<char>,
    notice: Option<NoticeView>,
) -> (SandboxView, StepView) {
    (
        SandboxView { stage: Stage::Cleanup, script: Some(path), reply, ..state },
        StepView { request: RequestView::RemoveScript { path }, notice },
    )
}

/// A line for the log at the level of errors.
pub open spec fn error_notice(text: Seq<char>) -> Option<NoticeView> {
    Some(NoticeView { level: Level::Error, text })
}

/// The line for the log about a snippet that the static analysis rejected:
/// a warning where it did what it is there for, an error with all the
/// diagnostics where it did not.
pub open spec fn gate_notice(state: SandboxView, stderr: Seq<char>) -> Option<NoticeView> {
    if is_known_exception(error_line(stderr)) {
        Some(
            NoticeView {
                level: Level::Warn,
                text: "User "@ + state.sender + " triggered a security measure: `"@ + error_line(
                    stderr,
                ) + "` with `"@ + state.snippet + "`"@,
            },
        )
    } else {
        Some(
            NoticeView {
                level: Level::Error,
                text: "User "@ + state.sender + " triggered a Robocop exception: "@ + stderr
                    + " with `"@ + state.snippet + "`"@,
            },
        )
    }
}

/// The first step: a snippet without any token is answered with the usage
/// and goes nowhere; any other waits to hear of the tool.
pub open spec fn started(snippet: Seq<char>, sender: Seq<char>) -> (SandboxView, StepView) {
    let state = SandboxView {
        stage: Stage::Tool,
        snippet,
        sender,
        script: None,
        reply: Seq::empty(),
    };
    if arg_count(snippet) < 1 {
        finished(state, "USAGE: node <code>"@, None)
    } else {
        (state, StepView { request: RequestView::CheckTool { path: TOOL_PATH@ }, notice: None })
    }
}

/// The step that an event leads to. The stages follow one another in one
/// order, and the first failure settles the reply. An event that does not
/// answer the request of the stage ends the run with a fixed reply; where a
/// disposable file exists it is removed first.
pub open spec fn stepped(state: SandboxView, event: EventView) -> (SandboxView, StepView) {
    match (state.stage, event) {
        (Stage::Tool, EventView::ToolChecked { present }) => if present {
            (
                SandboxView { stage: Stage::Gate, ..state },
                StepView {
                    request: RequestView::Run { program: TOOL_PATH@, args: seq![state.snippet] },
                    notice: None,
                },
            )
        } else {
            finished(
                state,
                "Security measures not found. Not continuing."@,
                error_notice(
                    "Robocop not found at "@ + TOOL_PATH@
                        + ". Please run `make build` to install it."@,
                ),
            )
        },
        (Stage::Gate, EventView::Exited { success, stdout, stderr }) => if success {
            (
                SandboxView { stage: Stage::Runtime, ..state },
                StepView {
                    request: RequestView::Run { program: RUNTIME@, args: probe_args() },
                    notice: None,
                },
            )
        } else {
            finished(state, error_line(stderr), gate_notice(state, stderr))
        },
        (Stage::Gate, EventView::FailedToStart) => finished(
            state,
            "Failed to run Robocop"@,
            error_notice("Execution error: Failed to run Robocop"@),
        ),
        (Stage::Runtime, EventView::Exited { success, stdout, stderr }) => if success {
            (
                SandboxView { stage: Stage::Script, ..state },
                StepView {
                    request: RequestView::WriteScript { content: wrapped(state.snippet) },
                    notice: None,
                },
            )
        } else {
            finished(
                state,
                "Docker is not running. Not continuing."@,
                error_notice(
                    "User "@ + state.sender
                        + " tried to run the node command but Docker is not running."@,
                ),
            )
        },
        (Stage::Runtime, EventView::FailedToStart) => finished(
            state,
            "Docker is not running. Not continuing."@,
            error_notice(
                "User "@ + state.sender
                    + " tried to run the node command but the probe of Docker could not be started."@,
            ),
        ),
        (Stage::Script, EventView::ScriptWritten { path }) => (
            SandboxView { stage: Stage::Container, script: Some(path), ..state },
            StepView {
                request: RequestView::Run { program: RUNTIME@, args: container_args(path) },
                notice: None,
            },
        ),
        (Stage::Script, EventView::ScriptFailed { created }) => match created {
            Some(p) => cleaning(
                state,
                p,
                "Unable to write temporary JS file"@,
                error_notice("Execution error: Unable to write temporary JS file"@),
            ),
            None => finished(
                state,
                "Unable to create temporary JS file"@,
                error_notice("Execution error: Unable to create temporary JS file"@),
            ),
        },
        (Stage::Container, EventView::Exited { success, stdout, stderr }) => if success {
            cleaning(state, state.script->0, stdout, None)
        } else {
            cleaning(
                state,
                state.script->0,
                error_line(stderr),
                error_notice("Error while running JavaScript code: "@ + stderr),
            )
        },
        (Stage::Container, EventView::FailedToStart) => cleaning(
            state,
            state.script->0,
            "Error running Docker container"@,
            error_notice("Execution error: Error running Docker container"@),
        ),
        (Stage::Container, _) => cleaning(
            state,
            state.script->0,
            "There was an error while trying to run the code."@,
            None,
        ),
        (Stage::Cleanup, EventView::ScriptRemoved) => finished(state, state.reply, None),
        (Stage::Cleanup, _) => cleaning(state, state.script->0, state.reply, None),
        (Stage::Done, _) => finished(state, state.reply, None),
        _ => finished(state, "There was an error while trying to run the code."@, None),
    }
}

/// The line of a tool's diagnostics that is shown to the sender.
pub fn extract_error_line(stderr: &str) -> (r: String)
    ensures
        r@ == error_line(stderr@),
{
    match nth_line(stderr, 4) {
        Some(line) => line,
        None => "Unknown error".to_owned(),
    }
}

/// Whether the line names one of the rejections that the static analysis
/// is there for.
pub fn known_exception(line: &str) -> (r: bool)
    ensures
        r == is_known_exception(line@),
{
    starts_with(line, "InfiniteLoopError") || starts_with(line, "ForbiddenModuleError")
}

/// The snippet, wrapped so that its value is printed when the file is run.
pub fn create_temp_js(snippet: &str) -> (r: String)
    ensures
        r@ == wrapped(snippet@),
{
    concat3("console.log((() => (", snippet, "))());")
}

/// The arguments of the run in the container.
pub fn run_in_docker(path: &str) -> (r: Vec<String>)
    ensures
        r.deep_view() == container_args(path@),
{
    let mut v: Vec<String> = Vec::new();
    v.push("run".to_owned());
    v.push("--rm".to_owned());
    v.push("--memory".to_owned());
    v.push("128m".to_owned());
    v.push("--cpus".to_owned());
    v.push("0.5".to_owned());
    v.push("--network".to_owned());
    v.push("none".to_owned());
    v.push("--read-only".to_owned());
    v.push("--pids-limit".to_owned());
    v.push("64".to_owned());
    v.push("-v".to_owned());
    v.push(concat2(path, ":/sandbox/script.js:ro"));
    v.push("node-sandbox".to_owned());
    v.push("node".to_owned());
    v.push("/sandbox/script.js".to_owned());
    assert(v.deep_view() =~= container_args(path@));
    v
}

/// The arguments of the probe that tells whether the runtime is running.
pub fn ensure_docker_running() -> (r: Vec<String>)
    ensures
        r.deep_view() == probe_args(),
{
    let mut v: Vec<String> = Vec::new();
    v.push("system".to_owned());
    v.push("info".to_owned());
    assert(v.deep_view() =~= probe_args());
    v
}

impl Sandbox {
    /// There is a disposable file exactly while the sandbox waits for the
    /// container or for the removal of the file.
    #[verifier::type_invariant]
    spec fn inv(self) -> bool {
        self.script is Some <==> (self.stage == Stage::Container || self.stage == Stage::Cleanup)
    }

    /// What the sandbox is waiting for.
    pub fn stage(&self) -> (r: Stage)
        ensures
            r == self@.stage,
    {
        self.stage
    }

    /// Whether a disposable file exists.
    pub fn holds_script(&self) -> (r: bool)
        ensures
            r == (self@.script is Some),
            self@.wf(),
    {
        proof {
            use_type_invariant(self);
        }
        self.script.is_some()
    }

    fn finish(self, reply: String, notice: Option<Notice>) -> (r: (Sandbox, Step))
        ensures
            (r.0@, r.1@) == finished(
                self@,
                reply@,
                match notice {
                    Some(n) => Some(n@),
                    None => None,
                },
            ),
    {
        let text = reply.clone();
        (
            Sandbox {
                stage: Stage::Done,
                snippet: self.snippet,
                sender: self.sender,
                script: None,
                reply,
            },
            Step { request: Request::Finish { reply: text }, notice },
        )
    }

    fn clean(self, path: String, reply: String, notice: Option<Notice>) -> (r: (Sandbox, Step))
        ensures
            (r.0@, r.1@) == cleaning(
                self@,
                path@,
                reply@,
                match notice {
                    Some(n) => Some(n@),
                    None => None,
                },
            ),
    {
        let copy = path.clone();
        (
            Sandbox {
                stage: Stage::Cleanup,
                snippet: self.snippet,
                sender: self.sender,
                script: Some(path),
                reply,
            },
            Step { request: Request::RemoveScript { path: copy }, notice },
        )
    }

    /// Takes a snippet into the sandbox.
    pub fn start(snippet: &str, sender: &str) -> (r: (Sandbox, Step))
        ensures
            (r.0@, r.1@) == started(snippet@, sender@),
            r.0@.wf(),
    {
        let state = Sandbox {
            stage: Stage::Tool,
            snippet: snippet.to_owned(),
            sender: sender.to_owned(),
            script: None,
            reply: String::new(),
        };
        if !has_at_least_one_arg(snippet) {
            state.finish("USAGE: node <code>".to_owned(), None)
        } else {
            (state, Step { request: Request::CheckTool { path: TOOL_PATH.to_owned() }, notice: None })
        }
    }

    /// Takes the snippet one step further, given what the last request led
    /// to.
    pub fn step(self, event: Event) -> (r: (Sandbox, Step))
        ensures
            (r.0@, r.1@) == stepped(self@, event@),
            self@.wf(),
            r.0@.wf(),
    {
        proof {
            use_type_invariant(&self);
        }
        match self.stage {
            Stage::Tool => match event {
                Event::ToolChecked { present } => {
                    if present {
                        let mut args: Vec<String> = Vec::new();
                        args.push(self.snippet.clone());
                        assert(args.deep_view() =~= seq![self.snippet@]);
                        (
                            Sandbox {
                                stage: Stage::Gate,
                                snippet: self.snippet,
                                sender: self.sender,
                                script: self.script,
                                reply: self.reply,
                            },
                            Step {
                                request: Request::Run { program: TOOL_PATH.to_owned(), args },
                                notice: None,
                            },
                        )
                    } else {
                        let line = concat3(
                            "Robocop not found at ",
                            TOOL_PATH,
                            ". Please run `make build` to install it.",
                        );
                        self.finish(
                            "Security measures not found. Not continuing.".to_owned(),
                            Some(Notice { level: Level::Error, text: line }),
                        )
                    }
                },
                _ => self.finish("There was an error while trying to run the code.".to_owned(), None),
            },
            Stage::Gate => match event {
                Event::Exited { success, stdout, stderr } => {
                    if success {
                        (
                            Sandbox {
                                stage: Stage::Runtime,
                                snippet: self.snippet,
                                sender: self.sender,
                                script: self.script,
                                reply: self.reply,
                            },
                            Step {
                                request: Request::Run {
                                    program: RUNTIME.to_owned(),
                                    args: ensure_docker_running(),
                                },
                                notice: None,
                            },
                        )
                    } else {
                        let shown = extract_error_line(stderr.as_str());
                        let notice = if known_exception(shown.as_str()) {
                            let mut line = concat3(
                                "User ",
                                self.sender.as_str(),
                                " triggered a security measure: `",
                            );
                            line.append(shown.as_str());
                            line.append("` with `");
                            line.append(self.snippet.as_str());
                            line.append("`");
                            Notice { level: Level::Warn, text: line }
                        } else {
                            let mut line = concat3(
                                "User ",
                                self.sender.as_str(),
                                " triggered a Robocop exception: ",
                            );
                            line.append(stderr.as_str());
                            line.append(" with `");
                            line.append(self.snippet.as_str());
                            line.append("`");
                            Notice { level: Level::Error, text: line }
                        };
                        self.finish(shown, Some(notice))
                    }
                },
                Event::FailedToStart => self.finish(
                    "Failed to run Robocop".to_owned(),
                    Some(
                        Notice {
                            level: Level::Error,
                            text: "Execution error: Failed to run Robocop".to_owned(),
                        },
                    ),
                ),
                _ => self.finish("There was an error while trying to run the code.".to_owned(), None),
            },
            Stage::Runtime => match event {
                Event::Exited { success, stdout, stderr } => {
                    if success {
                        let content = create_temp_js(self.snippet.as_str());
                        (
                            Sandbox {
                                stage: Stage::Script,
                                snippet: self.snippet,
                                sender: self.sender,
                                script: self.script,
                                reply: self.reply,
                            },
                            Step { request: Request::WriteScript { content }, notice: None },
                        )
                    } else {
                        let line = concat3(
                            "User ",
                            self.sender.as_str(),
                            " tried to run the node command but Docker is not running.",
                        );
                        self.finish(
                            "Docker is not running. Not continuing.".to_owned(),
                            Some(Notice { level: Level::Error, text: line }),
                        )
                    }
                },
                Event::FailedToStart => {
                    let line = concat3(
                        "User ",
                        self.sender.as_str(),
                        " tried to run the node command but the probe of Docker could not be started.",
                    );
                    self.finish(
                        "Docker is not running. Not continuing.".to_owned(),
                        Some(Notice { level: Level::Error, text: line }),
                    )
                },
                _ => self.finish("There was an error while trying to run the code.".to_owned(), None),
            },
            Stage::Script => match event {
                Event::ScriptWritten { path } => {
                    let args = run_in_docker(path.as_str());
                    (
                        Sandbox {
                            stage: Stage::Container,
                            snippet: self.snippet,
                            sender: self.sender,
                            script: Some(path),
                            reply: self.reply,
                        },
                        Step {
                            request: Request::Run { program: RUNTIME.to_owned(), args },
                            notice: None,
                        },
                    )
                },
                Event::ScriptFailed { created } => match created {
                    Some(p) => self.clean(
                        p,
                        "Unable to write temporary JS file".to_owned(),
                        Some(
                            Notice {
                                level: Level::Error,
                                text: "Execution error: Unable to write temporary JS file".to_owned(),
                            },
                        ),
                    ),
                    None => self.finish(
                        "Unable to create temporary JS file".to_owned(),
                        Some(
                            Notice {
                                level: Level::Error,
                                text: "Execution error: Unable to create temporary JS file".to_owned(),
                            },
                        ),
                    ),
                },
                _ => self.finish("There was an error while trying to run the code.".to_owned(), None),
            },
            Stage::Container => {
                let path = match &self.script {
                    Some(p) => p.clone(),
                    None => String::new(),
                };
                match event {
                    Event::Exited { success, stdout, stderr } => {
                        if success {
                            self.clean(path, stdout, None)
                        } else {
                            let shown = extract_error_line(stderr.as_str());
                            let line = concat2(
                                "Error while running JavaScript code: ",
                                stderr.as_str(),
                            );
                            self.clean(path, shown, Some(Notice { level: Level::Error, text: line }))
                        }
                    },
                    Event::FailedToStart => self.clean(
                        path,
                        "Error running Docker container".to_owned(),
                        Some(
                            Notice {
                                level: Level::Error,
                                text: "Execution error: Error running Docker container".to_owned(),
                            },
                        ),
                    ),
                    _ => self.clean(
                        path,
                        "There was an error while trying to run the code.".to_owned(),
                        None,
                    ),
                }
            },
            Stage::Cleanup => {
                let reply = self.reply.clone();
                match event {
                    Event::ScriptRemoved => self.finish(reply, None),
                    _ => {
                        let path = match &self.script {
                            Some(p) => p.clone(),
                            None => String::new(),
                        };
                        self.clean(path, reply, None)
                    },
                }
            },
            Stage::Done => {
                let reply = self.reply.clone();
                self.finish(reply, None)
            },
        }
    }
}

impl Command for Node {
    open spec fn label(&self) -> Seq<char> {
        "node"@
    }

    open spec fn privileged(&self) -> bool {
        true
    }

    open spec fn outcome(
        &self,
        registry: Seq<BuiltinCommand>,
        args: Seq<char>,
        sender: Seq<char>,
    ) -> OutcomeView {
        if arg_count(args) < 1 {
            OutcomeView::reply("USAGE: node <code>"@)
        } else {
            OutcomeView::act(ActionView::RunSnippet { snippet: args })
        }
    }

    fn name(&self) -> (r: &'static str) {
        "node"
    }

    fn requires_trust(&self) -> (r: bool) {
        true
    }

    fn execute(&self, registry: &Registry, args: &str, sender: &str) -> (r: Outcome) {
        if !has_at_least_one_arg(args) {
            Outcome::reply("USAGE: node <code>".to_owned())
        } else {
            Outcome::act(Action::RunSnippet { snippet: args.to_owned() })
        }
    }
}

/// The invariant of the sandbox holds from the first step on and is kept by
/// every step.
pub proof fn lemma_sandbox_stays_well_formed(
    snippet: Seq<char>,
    sender: Seq<char>,
    state: SandboxView,
    event: EventView,
)
    requires
        state.wf(),
    ensures
        started(snippet, sender).0.wf(),
        stepped(state, event).0.wf(),
{
}

/// No disposable file is left behind: the reply is sent exactly when the
/// sandbox is done, and then no file exists. While a file exists, every step
/// asks for its removal, but for the one that hears of the removal.
pub proof fn lemma_script_is_removed_before_the_reply(state: SandboxView, event: EventView)
    requires
        state.wf(),
    ensures
        stepped(state, event).1.request is Finish <==> stepped(state, event).0.stage == Stage::Done,
        stepped(state, event).0.stage == Stage::Done ==> stepped(state, event).0.script is None,
        state.script matches Some(path) ==> stepped(state, event).1.request
            == (RequestView::RemoveScript { path }) || (state.stage == Stage::Cleanup
            && event is ScriptRemoved),
{
}

/// The stages are passed in one order. The runtime is probed only after the
/// static analysis has accepted the snippet, the file is written only after the
/// probe has succeeded, and the container is started only after the file is
/// written.
pub proof fn lemma_stages_in_order(state: SandboxView, event: EventView)
    requires
        state.wf(),
        state.stage != stepped(state, event).0.stage,
    ensures
        stepped(state, event).0.stage != Stage::Tool,
        stepped(state, event).0.stage == Stage::Gate ==> state.stage == Stage::Tool && event
            == (EventView::ToolChecked { present: true }),
        stepped(state, event).0.stage == Stage::Runtime ==> state.stage == Stage::Gate
            && event matches EventView::Exited { success: true, .. },
        stepped(state, event).0.stage == Stage::Script ==> state.stage == Stage::Runtime
            && event matches EventView::Exited { success: true, .. },
        stepped(state, event).0.stage == Stage::Container ==> state.stage == Stage::Script
            && event is ScriptWritten,
        stepped(state, event).0.stage == Stage::Cleanup ==> state.stage == Stage::Container || (
        state.stage == Stage::Script && event is ScriptFailed),
{
}

/// A program is run in a container only on a file that was just written:
/// the request comes out of the stage that waits for the file, and names
/// the path that the event gave.
pub proof fn lemma_container_runs_the_written_script(state: SandboxView, event: EventView)
    requires
        state.wf(),
        stepped(state, event).0.stage == Stage::Container,
    ensures
        state.stage == Stage::Script,
        event matches EventView::ScriptWritten { path } && stepped(state, event).1.request == (
        RequestView::Run { program: RUNTIME@, args: container_args(path) }),
{
}

/// A snippet that the static analysis rejects goes no further: the reply is the
/// fifth line of the diagnostics, and the sandbox is done.
pub proof fn lemma_rejected_snippet_is_not_run(state: SandboxView, stdout: Seq<char>, stderr: Seq<char>)
    requires
        state.wf(),
        state.stage == Stage::Gate,
    ensures
        stepped(state, EventView::Exited { success: false, stdout, stderr }).0.stage
            == Stage::Done,
        stepped(state, EventView::Exited { success: false, stdout, stderr }).1.request == (
        RequestView::Finish { reply: error_line(stderr) }),
{
}

/// A runtime that cannot be used gets one reply, whether the probe ran and
/// failed or could not be started; the snippet goes no further and no file
/// is written.
pub proof fn lemma_unavailable_runtime_declines(
    state: SandboxView,
    stdout: Seq<char>,
    stderr: Seq<char>,
)
    requires
        state.wf(),
        state.stage == Stage::Runtime,
    ensures
        stepped(state, EventView::FailedToStart).1.request == (RequestView::Finish {
            reply: "Docker is not running. Not continuing."@,
        }),
        stepped(state, EventView::Exited { success: false, stdout, stderr }).1.request == (
        RequestView::Finish { reply: "Docker is not running. Not continuing."@ }),
        stepped(state, EventView::FailedToStart).0.script is None,
        stepped(state, EventView::Exited { success: false, stdout, stderr }).0.script is None,
{
}

} // verus!
