//! What a command hands back: the action that it asks for, and a line for the
//! operator's log where one is due.

use vstd::prelude::*;

verus! {

/// How serious a line for the log is.
#[derive(Clone, Copy, Debug, PartialEq, Eq)]
pub enum Level {
    Debug,
    Info,
    Warn,
    Error,
}

/// A line for the operator's log.
#[derive(Clone, Debug, PartialEq, Eq)]
pub struct Notice {
    pub level: Level,
    pub text: String,
}

/// What a [`Notice`] holds, with each text as a sequence of characters.
pub struct NoticeView {
    pub level: Level,
    pub text: Seq<char>,
}

impl View for Notice {
    type V = NoticeView;

    open spec fn view(&self) -> NoticeView {
        NoticeView { level: self.level, text: self.text@ }
    }
}

/// A change to the store of custom commands and trusted users.
#[derive(Clone, Debug, PartialEq, Eq)]
pub enum StoreRequest {
    /// Add a custom command under a name that has no live command.
    Create { name: String, response: String },
    /// Give the command of this name another response.
    Update { name: String, response: String },
    /// Mark the command of this name as deleted.
    Delete { name: String },
    /// Make the user trusted, whatever they were before.
    Trust { username: String },
    /// Make the user untrusted, whatever they were before.
    Untrust { username: String },
}

/// What a [`StoreRequest`] holds, with each text as a sequence of characters.
pub enum StoreRequestView {
    Create { name: Seq<char>, response: Seq<char> },
    Update { name: Seq<char>, response: Seq<char> },
    Delete { name: Seq<char> },
    Trust { username: Seq<char> },
    Untrust { username: Seq<char> },
}

impl View for StoreRequest {
    type V = StoreRequestView;

    open spec fn view(&self) -> StoreRequestView {
        match *self {
            StoreRequest::Create { name, response } => StoreRequestView::Create {
                name: name@,
                response: response@,
            },
            StoreRequest::Update { name, response } => StoreRequestView::Update {
                name: name@,
                response: response@,
            },
            StoreRequest::Delete { name } => StoreRequestView::Delete { name: name@ },
            StoreRequest::Trust { username } => StoreRequestView::Trust { username: username@ },
            StoreRequest::Untrust { username } => StoreRequestView::Untrust { username: username@ },
        }
    }
}

/// The four numbers of a question about drawing cards.
#[derive(Clone, Copy, Debug, PartialEq, Eq)]
pub struct OddsParams {
    pub deck_size: u64,
    pub num_successes: u64,
    pub num_draws: u64,
    pub min_successes: u64,
}

/// What a command asks its caller to do.
#[derive(Clone, Debug, PartialEq, Eq)]
pub enum Action {
    /// Send this text; send nothing where it is empty.
    Reply(String),
    /// Perform the change on the store, then send the reply.
    Store { request: StoreRequest, reply: String },
    /// Read the custom commands from the store and answer with the list of
    /// all commands, of which `builtin` is the first part.
    ListCommands { builtin: String },
    /// Look the name up in the store, then create or update the command.
    AddCommand { name: String, response: String },
    /// Fetch the text behind the address and send it.
    FetchWeather { url: String },
    /// Read the file of lines and send one of them, picked at random among
    /// those that hold the target where one is given.
    PickLine { target: Option<String> },
    /// Take the snippet through the sandbox.
    RunSnippet { snippet: String },
    /// Compute the probability that the numbers ask for, and send it.
    ComputeOdds { params: OddsParams },
}

/// What an [`Action`] holds, with each text as a sequence of characters.
pub enum ActionView {
    Reply(Seq<char>),
    Store { request: StoreRequestView, reply: Seq<char> },
    ListCommands { builtin: Seq<char> },
    AddCommand { name: Seq<char>, response: Seq<char> },
    FetchWeather { url: Seq<char> },
    PickLine { target: Option<Seq<char>> },
    RunSnippet { snippet: Seq<char> },
    ComputeOdds { params: OddsParams },
}

impl View for Action {
    type V = ActionView;

    open spec fn view(&self) -> ActionView {
        match *self {
            Action::Reply(text) => ActionView::Reply(text@),
            Action::Store { request, reply } => ActionView::Store {
                request: request@,
                reply: reply@,
            },
            Action::ListCommands { builtin } => ActionView::ListCommands { builtin: builtin@ },
            Action::AddCommand { name, response } => ActionView::AddCommand {
                name: name@,
                response: response@,
            },
            Action::FetchWeather { url } => ActionView::FetchWeather { url: url@ },
            Action::PickLine { target } => ActionView::PickLine {
                target: match target {
                    Some(t) => Some(t@),
                    None => None,
                },
            },
            Action::RunSnippet { snippet } => ActionView::RunSnippet { snippet: snippet@ },
            Action::ComputeOdds { params } => ActionView::ComputeOdds { params },
        }
    }
}

/// What a command hands back.
#[derive(Clone, Debug, PartialEq, Eq)]
pub struct Outcome {
    pub action: Action,
    pub notice: Option<Notice>,
}

/// What an [`Outcome`] holds, with each text as a sequence of characters.
pub struct OutcomeView {
    pub action: ActionView,
    pub notice: Option<NoticeView>,
}

impl View for Outcome {
    type V = OutcomeView;

    open spec fn view(&self) -> OutcomeView {
        OutcomeView {
            action: self.action@,
            notice: match self.notice {
                Some(n) => Some(n@),
                None => None,
            },
        }
    }
}

impl OutcomeView {
    /// A reply and nothing for the log.
    pub open spec fn reply(text: Seq<char>) -> OutcomeView {
        OutcomeView { action: ActionView::Reply(text), notice: None }
    }

    /// A reply together with a line for the log.
    pub open spec fn noted(text: Seq<char>, level: Level, line: Seq<char>) -> OutcomeView {
        OutcomeView {
            action: ActionView::Reply(text),
            notice: Some(NoticeView { level, text: line }),
        }
    }

    /// An action and nothing for the log.
    pub open spec fn act(action: ActionView) -> OutcomeView {
        OutcomeView { action, notice: None }
    }
}

impl Outcome {
    /// A reply and nothing for the log.
    pub fn reply(text: String) -> (r: Outcome)
        ensures
            r@ == OutcomeView::reply(text@),
    {
        Outcome { action: Action::Reply(text), notice: None }
    }

    /// A reply together with a line for the log.
    pub fn noted(text: String, level: Level, line: String) -> (r: Outcome)
        ensures
            r@ == OutcomeView::noted(text@, level, line@),
    {
        Outcome { action: Action::Reply(text), notice: Some(Notice { level, text: line }) }
    }

    /// An action and nothing for the log.
    pub fn act(action: Action) -> (r: Outcome)
        ensures
            r@ == OutcomeView::act(action@),
    {
        Outcome { action, notice: None }
    }
}

/// The texts `a` and `b`, one after the other.
pub fn concat2(a: &str, b: &str) -> (r: String)
    ensures
        r@ == a@ + b@,
{
    let mut s = a.to_owned();
    s.append(b);
    s
}

/// The texts `a`, `b` and `c`, one after the other.
pub fn concat3(a: &str, b: &str, c: &str) -> (r: String)
    ensures
        r@ == a@ + b@ + c@,
{
    let mut s = a.to_owned();
    s.append(b);
    s.append(c);
    s
}

} // verus!
