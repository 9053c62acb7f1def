//! The command that takes the trust away from a user.

use vstd::prelude::*;
use crate::commands::names::{is_username, is_valid_username};
use crate::commands::outcome::{
    concat2,
    concat3,
    Action,
    ActionView,
    Level,
    Notice,
    NoticeView,
    Outcome,
    OutcomeView,
    StoreRequest,
    StoreRequestView,
};
use crate::commands::registry::Registry;
use crate::commands::{BuiltinCommand, Command};
use crate::helpers::{arg_count, has_at_least_n_args};
use crate::text::split::{before_first, first_piece};

verus! {

/// Takes the trust away from a user.
#[derive(Clone, Copy, Debug, Default, PartialEq, Eq)]
pub struct Untrust;

/// What the arguments give: the username, which is what stands before the
/// first space, or the rejection that the sender gets.
pub open spec fn parsed(args: Seq<char>, sender: Seq<char>) -> Result<Seq<char>, OutcomeView> {
    let username = before_first(args, ' ');
    if arg_count(args) < 1 {
        Err(OutcomeView::reply("@"@ + sender + " USAGE: untrust <username>"@))
    } else if !is_username(username) {
        Err(
            OutcomeView::noted(
                "Username must be a valid Twitch username."@,
                Level::Error,
                sender + " tried to untrust an invalid username: "@ + username,
            ),
        )
    } else {
        Ok(username)
    }
}

/// What is done about a well-formed username: the store is asked for the
/// change, the sender is told, and the log says who asked.
pub open spec fn handled(username: Seq<char>, sender: Seq<char>) -> OutcomeView {
    OutcomeView {
        action: ActionView::Store {
            request: StoreRequestView::Untrust { username },
            reply: username + " has been untrusted."@,
        },
        notice: Some(
            NoticeView { level: Level::Info, text: sender + " untrusted user: "@ + username },
        ),
    }
}

/// The username, taken from the arguments.
pub fn parse_args(args: &str, sender: &str) -> (r: Result<String, Outcome>)
    ensures
        match r {
            Ok(username) => parsed(args@, sender@) == Ok::<Seq<char>, OutcomeView>(username@),
            Err(rejection) => parsed(args@, sender@) == Err::<Seq<char>, OutcomeView>(rejection@),
        },
{
    if !has_at_least_n_args(args, 1) {
        return Err(Outcome::reply(concat3("@", sender, " USAGE: untrust <username>")));
    }
    let username = first_piece(args, ' ');
    if !is_valid_username(username.as_str()) {
        return Err(
            Outcome::noted(
                "Username must be a valid Twitch username.".to_owned(),
                Level::Error,
                concat3(sender, " tried to untrust an invalid username: ", username.as_str()),
            ),
        );
    }
    Ok(username)
}

/// Asks the store for the change and tells the sender.
pub fn handle_command(username: String, sender: &str) -> (r: Outcome)
    ensures
        r@ == handled(username@, sender@),
{
    let reply = concat2(username.as_str(), " has been untrusted.");
    let line = concat3(sender, " untrusted user: ", username.as_str());
    Outcome {
        action: Action::Store { request: StoreRequest::Untrust { username }, reply },
        notice: Some(Notice { level: Level::Info, text: line }),
    }
}

impl Command for Untrust {
    open spec fn label(&self) -> Seq<char> {
        "untrust"@
    }

    open spec fn privileged(&self) -> bool {
        true
    }

    open spec fn outcome(
        &self,
        registry: Seq<BuiltinCommand>,
        args: Seq<char>,
        sender: Seq<char>,
    ) -> OutcomeView {
        match parsed(args, sender) {
            Ok(username) => handled(username, sender),
            Err(rejection) => rejection,
        }
    }

    fn name(&self) -> (r: &'static str) {
        "untrust"
    }

    fn requires_trust(&self) -> (r: bool) {
        true
    }

    fn execute(&self, registry: &Registry, args: &str, sender: &str) -> (r: Outcome) {
        match parse_args(args, sender) {
            Ok(username) => handle_command(username, sender),
            Err(rejection) => rejection,
        }
    }
}

/// Only a name that matches the pattern of usernames reaches the store.
pub proof fn lemma_store_request_is_checked(
    registry: Seq<BuiltinCommand>,
    args: Seq<char>,
    sender: Seq<char>,
)
    ensures
        Untrust.outcome(registry, args, sender).action matches ActionView::Store { request, .. }
            ==> request matches StoreRequestView::Untrust { username } && is_username(username),
{
}

} // verus!
