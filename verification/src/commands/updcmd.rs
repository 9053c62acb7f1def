//! The command that gives a custom command another response.

use vstd::prelude::*;
use crate::commands::names::{is_command_name, is_valid_command_name};
use crate::commands::outcome::{
    concat3,
    Action,
    ActionView,
    Level,
    Outcome,
    OutcomeView,
    StoreRequest,
    StoreRequestView,
};
use crate::commands::registry::{is_builtin, registered, Registry};
use crate::commands::{BuiltinCommand, Command};
use crate::helpers::{arg_count, has_at_least_n_args};
use crate::text::split::{after_first, before_first, cut, trim, trimmed};

verus! {

/// Gives a custom command another response.
#[derive(Clone, Copy, Debug, Default, PartialEq, Eq)]
pub struct UpdateCmd;

/// What the arguments give: the name of the command, which is what stands
/// before the first space, and the response, which is the rest without the
/// whitespace around it; or the rejection that the sender gets.
pub open spec fn parsed(args: Seq<char>, sender: Seq<char>) -> Result<
    (Seq<char>, Seq<char>),
    OutcomeView,
> {
    let name = before_first(args, ' ');
    if arg_count(args) < 2 {
        Err(OutcomeView::reply("@"@ + sender + " USAGE: updcmd <name> <response>"@))
    } else if !is_command_name(name) {
        Err(
            OutcomeView::noted(
                "Command name can only contain letters and numbers."@,
                Level::Error,
                sender + " tried to update an invalid command name: "@ + name,
            ),
        )
    } else {
        Ok((name, trimmed(after_first(args, ' '))))
    }
}

/// What is done about a well-formed name: a built-in command is left alone,
/// any other name goes on to the store.
pub open spec fn handled(
    registry: Seq<BuiltinCommand>,
    name: Seq<char>,
    response: Seq<char>,
    sender: Seq<char>,
) -> OutcomeView {
    if registered(registry, name) is Some {
        OutcomeView::noted(
            "The command you are trying to update already exists as a built-in command."@,
            Level::Error,
            sender + " tried to update a command that already exists as a built-in command: "@ + name,
        )
    } else {
        OutcomeView::act(
            ActionView::Store {
                request: StoreRequestView::Update { name, response },
                reply: "Command updated!"@,
            },
        )
    }
}

/// The name and the response, taken from the arguments.
pub fn parse_args(args: &str, sender: &str) -> (r: Result<(String, String), Outcome>)
    ensures
        match r {
            Ok(pair) => parsed(args@, sender@) == Ok::<(Seq<char>, Seq<char>), OutcomeView>(
                (pair.0@, pair.1@),
            ),
            Err(rejection) => parsed(args@, sender@) == Err::<
                (Seq<char>, Seq<char>),
                OutcomeView,
            >(rejection@),
        },
{
    if !has_at_least_n_args(args, 2) {
        return Err(Outcome::reply(concat3("@", sender, " USAGE: updcmd <name> <response>")));
    }
    let (name, rest) = cut(args, ' ');
    let response = trim(rest.as_str());
    if !is_valid_command_name(name.as_str()) {
        return Err(
            Outcome::noted(
                "Command name can only contain letters and numbers.".to_owned(),
                Level::Error,
                concat3(sender, " tried to update an invalid command name: ", name.as_str()),
            ),
        );
    }
    Ok((name, response))
}

/// Hands the command on to the store, unless the name is that of a built-in
/// command.
pub fn handle_command(registry: &Registry, name: String, response: String, sender: &str) -> (r:
    Outcome)
    ensures
        r@ == handled(registry@, name@, response@, sender@),
{
    if is_builtin(registry, name.as_str()) {
        return Outcome::noted(
            "The command you are trying to update already exists as a built-in command.".to_owned(),
            Level::Error,
            concat3(sender, " tried to update a command that already exists as a built-in command: ", name.as_str()),
        );
    }
    Outcome::act(
        Action::Store {
            request: StoreRequest::Update { name, response },
            reply: "Command updated!".to_owned(),
        },
    )
}

impl Command for UpdateCmd {
    open spec fn label(&self) -> Seq<char> {
        "updcmd"@
    }

    open spec fn privileged(&self) -> bool {
        true
    }

    open spec fn outcome(
        &self,
        registry: Seq<BuiltinCommand>,
        args: Seq<char>,
        sender: Seq<char>,
    ) -> OutcomeView {
        match parsed(args, sender) {
            Ok(pair) => handled(registry, pair.0, pair.1, sender),
            Err(rejection) => rejection,
        }
    }

    fn name(&self) -> (r: &'static str) {
        "updcmd"
    }

    fn requires_trust(&self) -> (r: bool) {
        true
    }

    fn execute(&self, registry: &Registry, args: &str, sender: &str) -> (r: Outcome) {
        match parse_args(args, sender) {
            Ok(pair) => handle_command(registry, pair.0, pair.1, sender),
            Err(rejection) => rejection,
        }
    }
}

/// No built-in command is updated: the store is asked for a change only
/// where the name is no built-in and matches the pattern of command names.
pub proof fn lemma_store_request_is_checked(
    registry: Seq<BuiltinCommand>,
    args: Seq<char>,
    sender: Seq<char>,
)
    ensures
        UpdateCmd.outcome(registry, args, sender).action matches ActionView::Store { request, .. }
            ==> request matches StoreRequestView::Update { name, .. } && is_command_name(name)
            && registered(registry, name) is None,
{
}

} // verus!
