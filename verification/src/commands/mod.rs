//! The commands of the bot: what each is called, whether it asks for trust,
//! and what it does with its arguments.

pub mod addcmd;
pub mod cmd;
pub mod delcmd;
pub mod gtasa;
pub mod names;
pub mod node;
pub mod odds;
pub mod outcome;
pub mod ping;
pub mod registry;
pub mod trust;
pub mod untrust;
pub mod updcmd;
pub mod wttr;

use vstd::prelude::*;
use crate::commands::addcmd::AddCmd;
use crate::commands::cmd::Commands;
use crate::commands::delcmd::DelCmd;
use crate::commands::gtasa::Gta;
use crate::commands::node::Node;
use crate::commands::odds::Odds;
use crate::commands::outcome::{concat3, Level, Outcome, OutcomeView};
use crate::commands::ping::Ping;
use crate::commands::registry::Registry;
use crate::commands::trust::Trust;
use crate::commands::untrust::Untrust;
use crate::commands::updcmd::UpdateCmd;
use crate::commands::wttr::Wttr;
use crate::text::chars::str_eq;

verus! {

/// What every command offers: a name, whether it asks for trust, and what it
/// does with its arguments.
pub trait Command {
    /// The name under which the command is called.
    spec fn label(&self) -> Seq<char>;

    /// Whether only trusted users may run the command.
    spec fn privileged(&self) -> bool;

    /// What the command hands back for these arguments from this sender,
    /// given the commands that are registered.
    spec fn outcome(
        &self,
        registry: Seq<BuiltinCommand>,
        args: Seq<char>,
        sender: Seq<char>,
    ) -> OutcomeView;

    fn name(&self) -> (r: &'static str)
        ensures
            r@ == self.label(),
    ;

    fn requires_trust(&self) -> (r: bool)
        ensures
            r == self.privileged(),
    ;

    fn execute(&self, registry: &Registry, args: &str, sender: &str) -> (r: Outcome)
        ensures
            r@ == self.outcome(registry@, args@, sender@),
    ;
}

/// The kinds of command that are built into the bot.
#[derive(Clone, Copy, Debug, PartialEq, Eq, Structural)]
pub enum BuiltinCommand {
    Commands,
    Ping,
    AddCmd,
    DelCmd,
    UpdateCmd,
    Trust,
    Untrust,
    Wttr,
    GTASA,
    Node,
    Odds,
}

impl BuiltinCommand {
    /// The name under which the command is called.
    pub open spec fn label(self) -> Seq<char> {
        match self {
            BuiltinCommand::Commands => "commands"@,
            BuiltinCommand::Ping => "ping"@,
            BuiltinCommand::AddCmd => "addcmd"@,
            BuiltinCommand::DelCmd => "delcmd"@,
            BuiltinCommand::UpdateCmd => "updcmd"@,
            BuiltinCommand::Trust => "trust"@,
            BuiltinCommand::Untrust => "untrust"@,
            BuiltinCommand::Wttr => "clima"@,
            BuiltinCommand::GTASA => "gtasa"@,
            BuiltinCommand::Node => "node"@,
            BuiltinCommand::Odds => "odds"@,
        }
    }

    /// Whether only trusted users may run the command.
    pub open spec fn privileged(self) -> bool {
        match self {
            BuiltinCommand::AddCmd
            | BuiltinCommand::DelCmd
            | BuiltinCommand::UpdateCmd
            | BuiltinCommand::Trust
            | BuiltinCommand::Untrust
            | BuiltinCommand::Node => true,
            _ => false,
        }
    }

    /// The command that is called `name`, if there is one.
    pub open spec fn named(name: Seq<char>) -> Option<BuiltinCommand> {
        if name == "commands"@ {
            Some(BuiltinCommand::Commands)
        } else if name == "ping"@ {
            Some(BuiltinCommand::Ping)
        } else if name == "addcmd"@ {
            Some(BuiltinCommand::AddCmd)
        } else if name == "delcmd"@ {
            Some(BuiltinCommand::DelCmd)
        } else if name == "updcmd"@ {
            Some(BuiltinCommand::UpdateCmd)
        } else if name == "trust"@ {
            Some(BuiltinCommand::Trust)
        } else if name == "untrust"@ {
            Some(BuiltinCommand::Untrust)
        } else if name == "clima"@ {
            Some(BuiltinCommand::Wttr)
        } else if name == "gtasa"@ {
            Some(BuiltinCommand::GTASA)
        } else if name == "node"@ {
            Some(BuiltinCommand::Node)
        } else if name == "odds"@ {
            Some(BuiltinCommand::Odds)
        } else {
            None
        }
    }

    /// All the kinds, in the order in which they are declared.
    pub open spec fn every() -> Seq<BuiltinCommand> {
        seq![
            BuiltinCommand::Commands,
            BuiltinCommand::Ping,
            BuiltinCommand::AddCmd,
            BuiltinCommand::DelCmd,
            BuiltinCommand::UpdateCmd,
            BuiltinCommand::Trust,
            BuiltinCommand::Untrust,
            BuiltinCommand::Wttr,
            BuiltinCommand::GTASA,
            BuiltinCommand::Node,
            BuiltinCommand::Odds,
        ]
    }

    /// The command that is called `command`, if there is one.
    pub fn from_string(command: &str) -> (r: Option<BuiltinCommand>)
        ensures
            r == Self::named(command@),
    {
        if str_eq(command, "commands") {
            Some(BuiltinCommand::Commands)
        } else if str_eq(command, "ping") {
            Some(BuiltinCommand::Ping)
        } else if str_eq(command, "addcmd") {
            Some(BuiltinCommand::AddCmd)
        } else if str_eq(command, "delcmd") {
            Some(BuiltinCommand::DelCmd)
        } else if str_eq(command, "updcmd") {
            Some(BuiltinCommand::UpdateCmd)
        } else if str_eq(command, "trust") {
            Some(BuiltinCommand::Trust)
        } else if str_eq(command, "untrust") {
            Some(BuiltinCommand::Untrust)
        } else if str_eq(command, "clima") {
            Some(BuiltinCommand::Wttr)
        } else if str_eq(command, "gtasa") {
            Some(BuiltinCommand::GTASA)
        } else if str_eq(command, "node") {
            Some(BuiltinCommand::Node)
        } else if str_eq(command, "odds") {
            Some(BuiltinCommand::Odds)
        } else {
            None
        }
    }

    /// The name under which the command is called.
    pub fn name(&self) -> (r: &'static str)
        ensures
            r@ == self.label(),
    {
        match self {
            BuiltinCommand::Commands => "commands",
            BuiltinCommand::Ping => "ping",
            BuiltinCommand::AddCmd => "addcmd",
            BuiltinCommand::DelCmd => "delcmd",
            BuiltinCommand::UpdateCmd => "updcmd",
            BuiltinCommand::Trust => "trust",
            BuiltinCommand::Untrust => "untrust",
            BuiltinCommand::Wttr => "clima",
            BuiltinCommand::GTASA => "gtasa",
            BuiltinCommand::Node => "node",
            BuiltinCommand::Odds => "odds",
        }
    }

    /// Whether only trusted users may run the command.
    pub fn requires_trust(&self) -> (r: bool)
        ensures
            r == self.privileged(),
    {
        match self {
            BuiltinCommand::AddCmd
            | BuiltinCommand::DelCmd
            | BuiltinCommand::UpdateCmd
            | BuiltinCommand::Trust
            | BuiltinCommand::Untrust
            | BuiltinCommand::Node => true,
            _ => false,
        }
    }

    /// What the command does with its arguments, once the sender is let
    /// through.
    pub open spec fn handled(
        self,
        registry: Seq<BuiltinCommand>,
        args: Seq<char>,
        sender: Seq<char>,
    ) -> OutcomeView {
        match self {
            BuiltinCommand::Commands => Commands.outcome(registry, args, sender),
            BuiltinCommand::Ping => Ping.outcome(registry, args, sender),
            BuiltinCommand::AddCmd => AddCmd.outcome(registry, args, sender),
            BuiltinCommand::DelCmd => DelCmd.outcome(registry, args, sender),
            BuiltinCommand::UpdateCmd => UpdateCmd.outcome(registry, args, sender),
            BuiltinCommand::Trust => Trust.outcome(registry, args, sender),
            BuiltinCommand::Untrust => Untrust.outcome(registry, args, sender),
            BuiltinCommand::Wttr => Wttr.outcome(registry, args, sender),
            BuiltinCommand::GTASA => Gta.outcome(registry, args, sender),
            BuiltinCommand::Node => Node.outcome(registry, args, sender),
            BuiltinCommand::Odds => Odds.outcome(registry, args, sender),
        }
    }

    /// What the command hands back: the denial where it asks for trust and
    /// the sender has none, else what it does with its arguments.
    pub open spec fn outcome(
        self,
        registry: Seq<BuiltinCommand>,
        args: Seq<char>,
        sender: Seq<char>,
        trusted: bool,
    ) -> OutcomeView {
        if self.privileged() && !trusted {
            denial(self.label(), sender)
        } else {
            self.handled(registry, args, sender)
        }
    }

    /// Runs the command for a sender who is let through.
    pub fn handle(&self, registry: &Registry, args: &str, sender: &str) -> (r: Outcome)
        ensures
            r@ == self.handled(registry@, args@, sender@),
    {
        match self {
            BuiltinCommand::Commands => Commands.execute(registry, args, sender),
            BuiltinCommand::Ping => Ping.execute(registry, args, sender),
            BuiltinCommand::AddCmd => AddCmd.execute(registry, args, sender),
            BuiltinCommand::DelCmd => DelCmd.execute(registry, args, sender),
            BuiltinCommand::UpdateCmd => UpdateCmd.execute(registry, args, sender),
            BuiltinCommand::Trust => Trust.execute(registry, args, sender),
            BuiltinCommand::Untrust => Untrust.execute(registry, args, sender),
            BuiltinCommand::Wttr => Wttr.execute(registry, args, sender),
            BuiltinCommand::GTASA => Gta.execute(registry, args, sender),
            BuiltinCommand::Node => Node.execute(registry, args, sender),
            BuiltinCommand::Odds => Odds.execute(registry, args, sender),
        }
    }

    /// Runs the command for this sender. `trusted` is what the store says of
    /// the sender at this moment; it is not looked at where the command asks
    /// for no trust.
    pub fn execute(&self, registry: &Registry, args: &str, sender: &str, trusted: bool) -> (r:
        Outcome)
        ensures
            r@ == self.outcome(registry@, args@, sender@, trusted),
    {
        match authorize(*self, sender, trusted) {
            Err(refusal) => refusal,
            Ok(()) => self.handle(registry, args, sender),
        }
    }

    /// All the kinds, in the order in which they are declared.
    pub fn all() -> (r: Vec<BuiltinCommand>)
        ensures
            r@ == Self::every(),
    {
        let mut v: Vec<BuiltinCommand> = Vec::new();
        v.push(BuiltinCommand::Commands);
        v.push(BuiltinCommand::Ping);
        v.push(BuiltinCommand::AddCmd);
        v.push(BuiltinCommand::DelCmd);
        v.push(BuiltinCommand::UpdateCmd);
        v.push(BuiltinCommand::Trust);
        v.push(BuiltinCommand::Untrust);
        v.push(BuiltinCommand::Wttr);
        v.push(BuiltinCommand::GTASA);
        v.push(BuiltinCommand::Node);
        v.push(BuiltinCommand::Odds);
        assert(v@ =~= Self::every());
        v
    }
}

/// What a sender without trust gets for a command that asks for it: a fixed
/// refusal, and a warning in the log that names the command and the sender.
pub open spec fn denial(label: Seq<char>, sender: Seq<char>) -> OutcomeView {
    OutcomeView::noted(
        "@"@ + sender + " you are not authorized to run this command."@,
        Level::Warn,
        "User "@ + sender + " tried to run the `"@ + label
            + "` command without permission. Consider adding them to the trusted users list."@,
    )
}

/// Lets the sender through to the command, or refuses: a command that asks
/// for trust is refused to a sender who has none.
pub fn authorize(command: BuiltinCommand, sender: &str, trusted: bool) -> (r: Result<(), Outcome>)
    ensures
        r is Err <==> command.privileged() && !trusted,
        r matches Err(refusal) ==> refusal@ == denial(command.label(), sender@),
{
    if command.requires_trust() && !trusted {
        let mut line = concat3("User ", sender, " tried to run the `");
        line.append(command.name());
        line.append(
            "` command without permission. Consider adding them to the trusted users list.",
        );
        Err(
            Outcome::noted(
                concat3("@", sender, " you are not authorized to run this command."),
                Level::Warn,
                line,
            ),
        )
    } else {
        Ok(())
    }
}

/// A sender without trust changes nothing through a command that asks for
/// trust: all that comes back is a reply and a warning.
pub proof fn lemma_untrusted_sender_is_refused(
    command: BuiltinCommand,
    registry: Seq<BuiltinCommand>,
    args: Seq<char>,
    sender: Seq<char>,
)
    requires
        command.privileged(),
    ensures
        command.outcome(registry, args, sender, false).action is Reply,
        command.outcome(registry, args, sender, false).notice matches Some(n) && n.level
            == Level::Warn,
{
}

/// Each kind is called as the command that stands behind it, and asks for
/// trust exactly when that command does.
pub proof fn lemma_kinds_agree_with_commands()
    ensures
        BuiltinCommand::Commands.label() == Commands.label(),
        BuiltinCommand::Ping.label() == Ping.label(),
        BuiltinCommand::AddCmd.label() == AddCmd.label(),
        BuiltinCommand::DelCmd.label() == DelCmd.label(),
        BuiltinCommand::UpdateCmd.label() == UpdateCmd.label(),
        BuiltinCommand::Trust.label() == Trust.label(),
        BuiltinCommand::Untrust.label() == Untrust.label(),
        BuiltinCommand::Wttr.label() == Wttr.label(),
        BuiltinCommand::GTASA.label() == Gta.label(),
        BuiltinCommand::Node.label() == Node.label(),
        BuiltinCommand::Odds.label() == Odds.label(),
        BuiltinCommand::Commands.privileged() == Commands.privileged(),
        BuiltinCommand::Ping.privileged() == Ping.privileged(),
        BuiltinCommand::AddCmd.privileged() == AddCmd.privileged(),
        BuiltinCommand::DelCmd.privileged() == DelCmd.privileged(),
        BuiltinCommand::UpdateCmd.privileged() == UpdateCmd.privileged(),
        BuiltinCommand::Trust.privileged() == Trust.privileged(),
        BuiltinCommand::Untrust.privileged() == Untrust.privileged(),
        BuiltinCommand::Wttr.privileged() == Wttr.privileged(),
        BuiltinCommand::GTASA.privileged() == Gta.privileged(),
        BuiltinCommand::Node.privileged() == Node.privileged(),
        BuiltinCommand::Odds.privileged() == Odds.privileged(),
{
}

/// A command is found again under its own name: no two kinds share a name.
pub proof fn lemma_named_label(command: BuiltinCommand)
    ensures
        BuiltinCommand::named(command.label()) == Some(command),
{
    reveal_strlit("commands");
    reveal_strlit("ping");
    reveal_strlit("addcmd");
    reveal_strlit("delcmd");
    reveal_strlit("updcmd");
    reveal_strlit("trust");
    reveal_strlit("untrust");
    reveal_strlit("clima");
    reveal_strlit("gtasa");
    reveal_strlit("node");
    reveal_strlit("odds");
    let n = command.label();
    match command {
        BuiltinCommand::Commands => {},
        BuiltinCommand::Ping => {
            assert(n.len() == 4);
        },
        BuiltinCommand::AddCmd => {
            assert(n[0] == 'a');
        },
        BuiltinCommand::DelCmd => {
            assert(n[0] == 'd');
        },
        BuiltinCommand::UpdateCmd => {
            assert(n[0] == 'u' && n[1] == 'p');
        },
        BuiltinCommand::Trust => {
            assert(n.len() == 5 && n[0] == 't');
        },
        BuiltinCommand::Untrust => {
            assert(n.len() == 7 && n[0] == 'u');
        },
        BuiltinCommand::Wttr => {
            assert(n.len() == 5 && n[0] == 'c');
        },
        BuiltinCommand::GTASA => {
            assert(n.len() == 5 && n[0] == 'g');
        },
        BuiltinCommand::Node => {
            assert(n.len() == 4 && n[0] == 'n');
        },
        BuiltinCommand::Odds => {
            assert(n.len() == 4 && n[0] == 'o');
        },
    }
}

/// Whatever `named` finds is called by the name that was asked for.
pub proof fn lemma_label_named(name: Seq<char>)
    ensures
        BuiltinCommand::named(name) matches Some(c) ==> c.label() == name,
{
}

/// Two kinds of the same name are the same kind.
pub proof fn lemma_label_injective(a: BuiltinCommand, b: BuiltinCommand)
    requires
        a.label() == b.label(),
    ensures
        a == b,
{
    lemma_named_label(a);
    lemma_named_label(b);
}

/// The name of every kind is made of ASCII letters only, so it could be taken
/// for the name of a custom command.
pub proof fn lemma_label_is_command_name(command: BuiltinCommand)
    ensures
        crate::commands::names::is_command_name(command.label()),
{
    reveal_strlit("commands");
    reveal_strlit("ping");
    reveal_strlit("addcmd");
    reveal_strlit("delcmd");
    reveal_strlit("updcmd");
    reveal_strlit("trust");
    reveal_strlit("untrust");
    reveal_strlit("clima");
    reveal_strlit("gtasa");
    reveal_strlit("node");
    reveal_strlit("odds");
}

} // verus!
