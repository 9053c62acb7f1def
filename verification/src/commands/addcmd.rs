//! The command that adds a custom command.

use vstd::prelude::*;
use crate::commands::names::{is_command_name, is_valid_command_name};
use crate::commands::outcome::{
    concat3,
    Action,
    ActionView,
    Level,
    Notice,
    NoticeView,
    Outcome,
    OutcomeView,
    StoreRequest,
    StoreRequestView,
};
use crate::commands::registry::{is_builtin, registered, Registry};
use crate::commands::{BuiltinCommand, Command};
use crate::helpers::{arg_count, has_at_least_n_args};
use crate::text::split::{after_first, before_first, cut, trim, trimmed};

verus! {

/// Adds a custom command, or gives it another response where it exists.
#[derive(Clone, Copy, Debug, Default, PartialEq, Eq)]
pub struct AddCmd;

/// What the arguments give: the name of the command, which is what stands
/// before the first space, and the response, which is the rest without the
/// whitespace around it; or the rejection that the sender gets.
pub open spec fn parsed(args: Seq<char>, sender: Seq<char>) -> Result<
    (Seq<char>, Seq<char>),
    OutcomeView,
> {
    let name = before_first(args, ' ');
    if arg_count(args) < 2 {
        Err(OutcomeView::reply("@"@ + sender + " USAGE: addcmd <name> <response>"@))
    } else if !is_command_name(name) {
        Err(
            OutcomeView::noted(
                "Command name can only contain letters and numbers."@,
                Level::Error,
                sender + " tried to add an invalid command name: "@ + name,
            ),
        )
    } else {
        Ok((name, trimmed(after_first(args, ' '))))
    }
}

/// What is done about a well-formed name: a built-in command is left alone,
/// any other name goes on to the store.
pub open spec fn handled(
    registry: Seq<BuiltinCommand>,
    name: Seq<char>,
    response: Seq<char>,
    sender: Seq<char>,
) -> OutcomeView {
    if registered(registry, name) is Some {
        OutcomeView::noted(
            "The command you are trying to add already exists as a built-in command."@,
            Level::Error,
            sender + " tried to add a command that already exists as a built-in command: "@ + name,
        )
    } else {
        OutcomeView::act(ActionView::AddCommand { name, response })
    }
}

/// The name and the response, taken from the arguments.
pub fn parse_args(args: &str, sender: &str) -> (r: Result<(String, String), Outcome>)
    ensures
        match r {
            Ok(pair) => parsed(args@, sender@) == Ok::<(Seq<char>, Seq<char>), OutcomeView>(
                (pair.0@, pair.1@),
            ),
            Err(rejection) => parsed(args@, sender@) == Err::<
                (Seq<char>, Seq<char>),
                OutcomeView,
            >(rejection@),
        },
{
    if !has_at_least_n_args(args, 2) {
        return Err(Outcome::reply(concat3("@", sender, " USAGE: addcmd <name> <response>")));
    }
    let (name, rest) = cut(args, ' ');
    let response = trim(rest.as_str());
    if !is_valid_command_name(name.as_str()) {
        return Err(
            Outcome::noted(
                "Command name can only contain letters and numbers.".to_owned(),
                Level::Error,
                concat3(sender, " tried to add an invalid command name: ", name.as_str()),
            ),
        );
    }
    Ok((name, response))
}

/// Hands the command on to the store, unless the name is that of a built-in
/// command.
pub fn handle_command(registry: &Registry, name: String, response: String, sender: &str) -> (r:
    Outcome)
    ensures
        r@ == handled(registry@, name@, response@, sender@),
{
    if is_builtin(registry, name.as_str()) {
        return Outcome::noted(
            "The command you are trying to add already exists as a built-in command.".to_owned(),
            Level::Error,
            concat3(sender, " tried to add a command that already exists as a built-in command: ", name.as_str()),
        );
    }
    Outcome::act(Action::AddCommand { name, response })
}

impl Command for AddCmd {
    open spec fn label(&self) -> Seq<char> {
        "addcmd"@
    }

    open spec fn privileged(&self) -> bool {
        true
    }

    open spec fn outcome(
        &self,
        registry: Seq<BuiltinCommand>,
        args: Seq<char>,
        sender: Seq<char>,
    ) -> OutcomeView {
        match parsed(args, sender) {
            Ok(pair) => handled(registry, pair.0, pair.1, sender),
            Err(rejection) => rejection,
        }
    }

    fn name(&self) -> (r: &'static str) {
        "addcmd"
    }

    fn requires_trust(&self) -> (r: bool) {
        true
    }

    fn execute(&self, registry: &Registry, args: &str, sender: &str) -> (r: Outcome) {
        match parse_args(args, sender) {
            Ok(pair) => handle_command(registry, pair.0, pair.1, sender),
            Err(rejection) => rejection,
        }
    }
}

/// What follows the look-up in the store: a command that exists gets the new
/// response, any other name gets a new command.
pub open spec fn settled(
    name: Seq<char>,
    response: Seq<char>,
    sender: Seq<char>,
    exists: bool,
) -> OutcomeView {
    if exists {
        OutcomeView {
            action: ActionView::Store {
                request: StoreRequestView::Update { name, response },
                reply: "Command already exists. It was updated with the new response."@,
            },
            notice: Some(
                NoticeView {
                    level: Level::Info,
                    text: sender + " tried to add a command that already exists: "@ + name
                        + ". It was updated with "@ + response,
                },
            ),
        }
    } else {
        OutcomeView::act(
            ActionView::Store {
                request: StoreRequestView::Create { name, response },
                reply: "Command added!"@,
            },
        )
    }
}

/// What to ask of the store once it is known whether a live command of this
/// name exists.
pub fn settle(name: String, response: String, sender: &str, exists: bool) -> (r: Outcome)
    ensures
        r@ == settled(name@, response@, sender@, exists),
{
    if exists {
        let mut line = concat3(sender, " tried to add a command that already exists: ", name.as_str());
        line.append(". It was updated with ");
        line.append(response.as_str());
        Outcome {
            action: Action::Store {
                request: StoreRequest::Update { name, response },
                reply: "Command already exists. It was updated with the new response.".to_owned(),
            },
            notice: Some(Notice { level: Level::Info, text: line }),
        }
    } else {
        Outcome::act(
            Action::Store {
                request: StoreRequest::Create { name, response },
                reply: "Command added!".to_owned(),
            },
        )
    }
}

/// A custom command is never created under the name of a registered command:
/// where the name that the arguments give is registered, the sender gets a
/// reply and the store is asked for nothing.
pub proof fn lemma_builtin_name_is_rejected(
    registry: Seq<BuiltinCommand>,
    args: Seq<char>,
    sender: Seq<char>,
)
    requires
        registered(registry, before_first(args, ' ')) is Some,
    ensures
        AddCmd.outcome(registry, args, sender).action is Reply,
{
}

/// The store is asked to look a name up only where the name is no built-in
/// and matches the pattern of command names.
pub proof fn lemma_added_name_is_checked(
    registry: Seq<BuiltinCommand>,
    args: Seq<char>,
    sender: Seq<char>,
)
    ensures
        AddCmd.outcome(registry, args, sender).action matches ActionView::AddCommand { name, .. }
            ==> is_command_name(name) && registered(registry, name) is None,
{
}

} // verus!
