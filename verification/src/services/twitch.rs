//! What the bot makes of the lines that come from the chat: which of them are
//! commands, which command is meant, and what is done where the name is that
//! of no built-in command.

use vstd::prelude::*;
use crate::commands::outcome::{concat2, concat3, Level, Notice, NoticeView, Outcome, OutcomeView};
use crate::commands::registry::{registered, Registry};
use crate::commands::BuiltinCommand;
use crate::messages::{detected, Message, MessageView};
use crate::text::chars::{text_of, to_chars};
use crate::text::scan::{has_prefix, matches_at};
use crate::text::split::{after_delimiters, after_token, skip_delimiters, skip_token, Delimiter};

verus! {

/// What comes from the chat.
#[derive(Clone, Debug, PartialEq, Eq)]
pub enum Inbound {
    /// A line that somebody wrote.
    Privmsg { sender: String, text: String },
    /// A notice of the server.
    Notice { text: String },
    /// Somebody joined a channel.
    Join { user: String, channel: String },
    /// Somebody left a channel.
    Part { user: String, channel: String },
    /// Anything else.
    Other,
}

/// What an [`Inbound`] holds, with each text as a sequence of characters.
pub enum InboundView {
    Privmsg { sender: Seq<char>, text: Seq<char> },
    Notice { text: Seq<char> },
    Join { user: Seq<char>, channel: Seq<char> },
    Part { user: Seq<char>, channel: Seq<char> },
    Other,
}

impl View for Inbound {
    type V = InboundView;

    open spec fn view(&self) -> InboundView {
        match *self {
            Inbound::Privmsg { sender, text } => InboundView::Privmsg {
                sender: sender@,
                text: text@,
            },
            Inbound::Notice { text } => InboundView::Notice { text: text@ },
            Inbound::Join { user, channel } => InboundView::Join {
                user: user@,
                channel: channel@,
            },
            Inbound::Part { user, channel } => InboundView::Part {
                user: user@,
                channel: channel@,
            },
            Inbound::Other => InboundView::Other,
        }
    }
}

/// Where a line from the chat goes.
#[derive(Clone, Debug, PartialEq, Eq)]
pub enum Route {
    /// To a built-in command. Where the command asks for trust, the store is
    /// asked about the sender before the command is run, each time anew.
    Builtin { command: BuiltinCommand, args: String, sender: String },
    /// To the store, which is asked for the custom command of this name.
    Custom { name: String, sender: String },
    /// To the answer that the subject of the line calls for.
    Subject { message: Message },
    /// To the log.
    Log { notice: Notice },
    /// Nowhere.
    Ignore,
}

/// What a [`Route`] holds, with each text as a sequence of characters.
pub enum RouteView {
    Builtin { command: BuiltinCommand, args: Seq<char>, sender: Seq<char> },
    Custom { name: Seq<char>, sender: Seq<char> },
    Subject { message: MessageView },
    Log { notice: NoticeView },
    Ignore,
}

impl View for Route {
    type V = RouteView;

    open spec fn view(&self) -> RouteView {
        match *self {
            Route::Builtin { command, args, sender } => RouteView::Builtin {
                command,
                args: args@,
                sender: sender@,
            },
            Route::Custom { name, sender } => RouteView::Custom { name: name@, sender: sender@ },
            Route::Subject { message } => RouteView::Subject { message: message@ },
            Route::Log { notice } => RouteView::Log { notice: notice@ },
            Route::Ignore => RouteView::Ignore,
        }
    }
}

/// The name of the command in what follows the prefix: all that stands
/// before the first whitespace.
pub open spec fn command_name(rest: Seq<char>) -> Seq<char> {
    rest.subrange(0, skip_token(rest, Delimiter::Whitespace, 0))
}

/// The arguments in what follows the prefix: all that stands after the first
/// run of whitespace, as it is.
pub open spec fn command_args(rest: Seq<char>) -> Seq<char> {
    rest.subrange(
        skip_delimiters(rest, Delimiter::Whitespace, skip_token(rest, Delimiter::Whitespace, 0)),
        rest.len() as int,
    )
}

/// The name and the arguments of a command line: a line is one when it
/// begins with the prefix.
pub open spec fn command_of(text: Seq<char>, prefix: Seq<char>) -> Option<(Seq<char>, Seq<char>)> {
    if has_prefix(text, prefix) {
        let rest = text.subrange(prefix.len() as int, text.len() as int);
        Some((command_name(rest), command_args(rest)))
    } else {
        None
    }
}

/// Where a line that somebody wrote goes: a command line to the built-in
/// command of its name, or to the store where no built-in command has that
/// name; any other line to the answer that its subject calls for, or nowhere.
pub open spec fn routed_line(
    registry: Seq<BuiltinCommand>,
    prefix: Seq<char>,
    sender: Seq<char>,
    text: Seq<char>,
) -> RouteView {
    match command_of(text, prefix) {
        Some((name, args)) => match registered(registry, name) {
            Some(command) => RouteView::Builtin { command, args, sender },
            None => RouteView::Custom { name, sender },
        },
        None => match detected(text) {
            Some(subject) => RouteView::Subject {
                message: MessageView { sender, content: text, subject: Some(subject) },
            },
            None => RouteView::Ignore,
        },
    }
}

/// Where something that comes from the chat goes.
pub open spec fn routed(registry: Seq<BuiltinCommand>, prefix: Seq<char>, inbound: InboundView) -> RouteView {
    match inbound {
        InboundView::Privmsg { sender, text } => routed_line(registry, prefix, sender, text),
        InboundView::Notice { text } => RouteView::Log {
            notice: NoticeView { level: Level::Info, text: "NOTICE: "@ + text },
        },
        InboundView::Join { user, channel } => RouteView::Log {
            notice: NoticeView {
                level: Level::Info,
                text: user + " joined the channel "@ + channel,
            },
        },
        InboundView::Part { user, channel } => RouteView::Log {
            notice: NoticeView { level: Level::Info, text: user + " left the channel "@ + channel },
        },
        InboundView::Other => RouteView::Ignore,
    }
}

/// What the store found under a name, as texts.
pub open spec fn found_view(found: Result<Option<String>, String>) -> Result<
    Option<Seq<char>>,
    Seq<char>,
> {
    match found {
        Ok(Some(response)) => Ok(Some(response@)),
        Ok(None) => Ok(None),
        Err(reason) => Err(reason@),
    }
}

/// What is done once the store was asked for a custom command: the response
/// is sent as it is stored; a name that the store does not know gets no
/// answer at all, and neither does one that the store failed on.
pub open spec fn custom_outcome(
    name: Seq<char>,
    sender: Seq<char>,
    found: Result<Option<Seq<char>>, Seq<char>>,
) -> OutcomeView {
    match found {
        Ok(Some(response)) => OutcomeView::noted(
            response,
            Level::Debug,
            "@"@ + sender + " triggered custom command `"@ + name + "`. Response: "@ + response,
        ),
        Ok(None) => OutcomeView::noted(
            Seq::empty(),
            Level::Debug,
            "@"@ + sender + " triggered custom command `"@ + name + "`. There was an error."@,
        ),
        Err(reason) => OutcomeView::noted(
            Seq::empty(),
            Level::Error,
            "Error fetching command `"@ + name + "`: "@ + reason,
        ),
    }
}

/// The name and the arguments of a command line.
pub fn parse_command(text: &str, prefix: &str) -> (r: Option<(String, String)>)
    ensures
        match r {
            Some(pair) => command_of(text@, prefix@) == Some((pair.0@, pair.1@)),
            None => command_of(text@, prefix@) is None,
        },
{
    let cs = to_chars(text);
    let ps = to_chars(prefix);
    if !matches_at(&cs, &ps, 0) {
        return None;
    }
    let rest = text_of(&cs, ps.len(), cs.len());
    let rs = to_chars(rest.as_str());
    let end = after_token(&rs, Delimiter::Whitespace, 0);
    let next = after_delimiters(&rs, Delimiter::Whitespace, end);
    Some((text_of(&rs, 0, end), text_of(&rs, next, rs.len())))
}

/// Where a command line goes.
pub fn handle_command(registry: &Registry, text: &str, sender: &str, prefix: &str) -> (r: Route)
    ensures
        r@ == match command_of(text@, prefix@) {
            Some((name, args)) => match registered(registry@, name) {
                Some(command) => RouteView::Builtin { command, args, sender: sender@ },
                None => RouteView::Custom { name, sender: sender@ },
            },
            None => RouteView::Ignore,
        },
{
    match parse_command(text, prefix) {
        Some(pair) => {
            let (name, args) = pair;
            match registry.get(name.as_str()) {
                Some(command) => Route::Builtin { command, args, sender: sender.to_owned() },
                None => Route::Custom { name, sender: sender.to_owned() },
            }
        },
        None => Route::Ignore,
    }
}

/// Where a line that somebody wrote goes.
pub fn handle_private_message(registry: &Registry, prefix: &str, sender: &str, text: &str) -> (r:
    Route)
    ensures
        r@ == routed_line(registry@, prefix@, sender@, text@),
{
    let cs = to_chars(text);
    let ps = to_chars(prefix);
    if matches_at(&cs, &ps, 0) {
        handle_command(registry, text, sender, prefix)
    } else {
        let message = Message::make(text, sender);
        if message.has_subject() {
            Route::Subject { message }
        } else {
            Route::Ignore
        }
    }
}

/// Where something that comes from the chat goes.
pub fn handle_server_message(registry: &Registry, prefix: &str, inbound: &Inbound) -> (r: Route)
    ensures
        r@ == routed(registry@, prefix@, inbound@),
{
    match inbound {
        Inbound::Privmsg { sender, text } => handle_private_message(
            registry,
            prefix,
            sender.as_str(),
            text.as_str(),
        ),
        Inbound::Notice { text } => Route::Log {
            notice: Notice { level: Level::Info, text: concat2("NOTICE: ", text.as_str()) },
        },
        Inbound::Join { user, channel } => Route::Log {
            notice: Notice {
                level: Level::Info,
                text: concat3(user.as_str(), " joined the channel ", channel.as_str()),
            },
        },
        Inbound::Part { user, channel } => Route::Log {
            notice: Notice {
                level: Level::Info,
                text: concat3(user.as_str(), " left the channel ", channel.as_str()),
            },
        },
        Inbound::Other => Route::Ignore,
    }
}

/// What is done once the store was asked for a custom command. An error of
/// the store comes as the text that describes it.
pub fn handle_custom_command(name: &str, sender: &str, found: Result<Option<String>, String>) -> (r:
    Outcome)
    ensures
        r@ == custom_outcome(name@, sender@, found_view(found)),
{
    match found {
        Ok(Some(response)) => {
            let mut line = concat3("@", sender, " triggered custom command `");
            line.append(name);
            line.append("`. Response: ");
            line.append(response.as_str());
            Outcome::noted(response, Level::Debug, line)
        },
        Ok(None) => {
            let mut line = concat3("@", sender, " triggered custom command `");
            line.append(name);
            line.append("`. There was an error.");
            Outcome::noted(String::new(), Level::Debug, line)
        },
        Err(reason) => {
            let mut line = concat3("Error fetching command `", name, "`: ");
            line.append(reason.as_str());
            Outcome::noted(String::new(), Level::Error, line)
        },
    }
}

/// Where the name of a command line is registered, the line goes to the
/// built-in command: the store is not asked, whatever it holds under that
/// name.
pub proof fn lemma_builtin_takes_precedence(
    registry: Seq<BuiltinCommand>,
    prefix: Seq<char>,
    sender: Seq<char>,
    text: Seq<char>,
)
    requires
        command_of(text, prefix) matches Some(pair) && registered(registry, pair.0) is Some,
    ensures
        routed_line(registry, prefix, sender, text) is Builtin,
{
}

/// A name that the store does not know gets no answer: the reply is empty.
pub proof fn lemma_unknown_command_is_met_with_silence(name: Seq<char>, sender: Seq<char>)
    ensures
        custom_outcome(name, sender, Ok(None)).action == crate::commands::outcome::ActionView::Reply(
            Seq::empty(),
        ),
{
}

} // verus!
