//! The table of the commands that the bot knows, filled once when it starts.

use vstd::prelude::*;
use crate::commands::{lemma_label_injective, lemma_label_named, lemma_named_label, BuiltinCommand};

verus! {

/// Why a command was not registered.
#[derive(Clone, Copy, Debug, PartialEq, Eq, Structural)]
pub enum RegistryError {
    /// A command of this name is registered already.
    Duplicate,
}

/// The commands that are registered. They are held in the order of their
/// registration and listed in the order in which the kinds are declared.
pub struct Registry {
    commands: Vec<BuiltinCommand>,
}

impl View for Registry {
    type V = Seq<BuiltinCommand>;

    closed spec fn view(&self) -> Seq<BuiltinCommand> {
        self.commands@
    }
}

/// The command that is registered under `name`, if there is one.
pub open spec fn registered(entries: Seq<BuiltinCommand>, name: Seq<char>) -> Option<
    BuiltinCommand,
> {
    match BuiltinCommand::named(name) {
        Some(command) => if entries.contains(command) {
            Some(command)
        } else {
            None
        },
        None => None,
    }
}

/// Those of `kinds` that are among `entries`, in the order of `kinds`.
pub open spec fn chosen(kinds: Seq<BuiltinCommand>, entries: Seq<BuiltinCommand>) -> Seq<
    BuiltinCommand,
> {
    kinds.filter(|command: BuiltinCommand| entries.contains(command))
}

/// The registered commands as they are listed: in the order in which the
/// kinds are declared, whatever the order of registration.
pub open spec fn listing(entries: Seq<BuiltinCommand>) -> Seq<BuiltinCommand> {
    chosen(BuiltinCommand::every(), entries)
}

/// What one more kind adds to those that are chosen.
proof fn lemma_chosen_step(kinds: Seq<BuiltinCommand>, entries: Seq<BuiltinCommand>, i: int)
    requires
        0 <= i < kinds.len(),
    ensures
        chosen(kinds.take(0), entries) == Seq::<BuiltinCommand>::empty(),
        chosen(kinds.take(i + 1), entries) == if entries.contains(kinds[i]) {
            chosen(kinds.take(i), entries).push(kinds[i])
        } else {
            chosen(kinds.take(i), entries)
        },
{
    reveal(Seq::filter);
    assert(kinds.take(i + 1).drop_last() =~= kinds.take(i));
    assert(kinds.take(i + 1).last() == kinds[i]);
    assert(chosen(kinds.take(0), entries) =~= Seq::<BuiltinCommand>::empty());
}

impl Registry {
    /// No command is registered twice.
    #[verifier::type_invariant]
    spec fn inv(self) -> bool {
        self.commands@.no_duplicates()
    }

    /// A registry without commands.
    pub fn new() -> (r: Registry)
        ensures
            r@ == Seq::<BuiltinCommand>::empty(),
    {
        Registry { commands: Vec::new() }
    }

    /// The registry of all the built-in commands, in the order in which they
    /// are declared.
    pub fn with_builtins() -> (r: Registry)
        ensures
            r@ == BuiltinCommand::every(),
    {
        let commands = BuiltinCommand::all();
        assert(commands@.no_duplicates());
        Registry { commands }
    }

    /// Whether `command` is registered.
    pub fn contains(&self, command: BuiltinCommand) -> (r: bool)
        ensures
            r == self@.contains(command),
    {
        let mut i: usize = 0;
        while i < self.commands.len()
            invariant
                i <= self.commands.len(),
                forall|j: int| 0 <= j < i ==> self.commands@[j] != command,
            decreases self.commands.len() - i,
        {
            if self.commands[i] == command {
                return true;
            }
            i = i + 1;
        }
        false
    }

    /// The commands that are registered, in the order in which the kinds are
    /// declared, whatever the order of their registration; none of them
    /// twice.
    pub fn all(&self) -> (r: Vec<BuiltinCommand>)
        ensures
            r@ == listing(self@),
            r@.no_duplicates(),
    {
        let kinds = BuiltinCommand::all();
        let mut out: Vec<BuiltinCommand> = Vec::new();
        let mut i: usize = 0;
        proof {
            assert(kinds@.no_duplicates());
            if kinds@.len() > 0 {
                lemma_chosen_step(kinds@, self@, 0);
            }
        }
        while i < kinds.len()
            invariant
                i <= kinds.len(),
                kinds@ == BuiltinCommand::every(),
                kinds@.no_duplicates(),
                out@ == chosen(kinds@.take(i as int), self@),
                out@.no_duplicates(),
                forall|k: int| 0 <= k < out@.len() ==> kinds@.take(i as int).contains(out@[k]),
            decreases kinds.len() - i,
        {
            proof {
                lemma_chosen_step(kinds@, self@, i as int);
            }
            let command = kinds[i];
            let ghost before = out@.len();
            if self.contains(command) {
                proof {
                    assert forall|k: int| 0 <= k < out@.len() implies out@[k] != command by {
                        let j = choose|j: int|
                            0 <= j < kinds@.take(i as int).len() && kinds@.take(i as int)[j]
                                == out@[k];
                        assert(kinds@[j] == out@[k]);
                    }
                }
                out.push(command);
            }
            proof {
                assert forall|k: int| 0 <= k < out@.len() implies kinds@.take(i + 1).contains(
                    out@[k],
                ) by {
                    if k < before {
                        let j = choose|j: int|
                            0 <= j < kinds@.take(i as int).len() && kinds@.take(i as int)[j]
                                == out@[k];
                        assert(kinds@.take(i + 1)[j] == out@[k]);
                    } else {
                        assert(kinds@.take(i + 1)[i as int] == out@[k]);
                    }
                }
            }
            i = i + 1;
        }
        assert(kinds@.take(kinds.len() as int) =~= kinds@);
        out
    }

    /// The command that is registered under `name`.
    pub fn get(&self, name: &str) -> (r: Option<BuiltinCommand>)
        ensures
            r == registered(self@, name@),
    {
        match BuiltinCommand::from_string(name) {
            Some(command) => if self.contains(command) {
                Some(command)
            } else {
                None
            },
            None => None,
        }
    }
}

/// Registers `command` unless a command of its name is registered already.
pub fn register(registry: &mut Registry, command: BuiltinCommand) -> (r: Result<(), RegistryError>)
    ensures
        r is Ok <==> registered(old(registry)@, command.label()) is None,
        r is Ok ==> final(registry)@ == old(registry)@.push(command),
        r is Err ==> final(registry)@ == old(registry)@,
{
    proof {
        use_type_invariant(&*registry);
        lemma_named_label(command);
    }
    if registry.contains(command) {
        Err(RegistryError::Duplicate)
    } else {
        let mut commands: Vec<BuiltinCommand> = Vec::new();
        core::mem::swap(&mut commands, &mut registry.commands);
        commands.push(command);
        *registry = Registry { commands };
        Ok(())
    }
}

/// Whether `name` is the name of a registered command.
pub fn is_builtin(registry: &Registry, name: &str) -> (r: bool)
    ensures
        r == (registered(registry@, name@) is Some),
{
    registry.get(name).is_some()
}

/// A name leads to a registered command exactly when some entry is called by
/// it.
pub proof fn lemma_registered(entries: Seq<BuiltinCommand>, name: Seq<char>)
    ensures
        registered(entries, name) is Some <==> exists|i: int|
            0 <= i < entries.len() && (#[trigger] entries[i]).label() == name,
        registered(entries, name) matches Some(c) ==> c.label() == name && entries.contains(c),
{
    lemma_label_named(name);
    if registered(entries, name) is Some {
        let c = registered(entries, name)->0;
        let i = choose|i: int| 0 <= i < entries.len() && entries[i] == c;
        assert(entries[i].label() == name);
    }
    if exists|i: int| 0 <= i < entries.len() && (#[trigger] entries[i]).label() == name {
        let i = choose|i: int| 0 <= i < entries.len() && (#[trigger] entries[i]).label() == name;
        lemma_named_label(entries[i]);
        assert(entries.contains(entries[i]));
    }
}

/// In a registry without duplicates each name belongs to one entry at most.
pub proof fn lemma_one_entry_per_name(entries: Seq<BuiltinCommand>, i: int, j: int)
    requires
        entries.no_duplicates(),
        0 <= i < entries.len(),
        0 <= j < entries.len(),
        entries[i].label() == entries[j].label(),
    ensures
        i == j,
{
    lemma_label_injective(entries[i], entries[j]);
}

/// In the registry of all the built-in commands a name is registered exactly
/// when it is the name of a built-in command.
pub proof fn lemma_every_builtin_is_registered(name: Seq<char>)
    ensures
        registered(BuiltinCommand::every(), name) == BuiltinCommand::named(name),
{
    let every = BuiltinCommand::every();
    match BuiltinCommand::named(name) {
        Some(c) => {
            let i: int = match c {
                BuiltinCommand::Commands => 0,
                BuiltinCommand::Ping => 1,
                BuiltinCommand::AddCmd => 2,
                BuiltinCommand::DelCmd => 3,
                BuiltinCommand::UpdateCmd => 4,
                BuiltinCommand::Trust => 5,
                BuiltinCommand::Untrust => 6,
                BuiltinCommand::Wttr => 7,
                BuiltinCommand::GTASA => 8,
                BuiltinCommand::Node => 9,
                BuiltinCommand::Odds => 10,
            };
            assert(every[i] == c);
        },
        None => {},
    }
}

/// The listing holds exactly the commands that are registered.
pub proof fn lemma_listing_holds_the_registered(
    entries: Seq<BuiltinCommand>,
    command: BuiltinCommand,
)
    ensures
        listing(entries).contains(command) <==> entries.contains(command),
{
    let every = BuiltinCommand::every();
    let among = |c: BuiltinCommand| entries.contains(c);
    every.filter_lemma(among);
    let i: int = match command {
        BuiltinCommand::Commands => 0,
        BuiltinCommand::Ping => 1,
        BuiltinCommand::AddCmd => 2,
        BuiltinCommand::DelCmd => 3,
        BuiltinCommand::UpdateCmd => 4,
        BuiltinCommand::Trust => 5,
        BuiltinCommand::Untrust => 6,
        BuiltinCommand::Wttr => 7,
        BuiltinCommand::GTASA => 8,
        BuiltinCommand::Node => 9,
        BuiltinCommand::Odds => 10,
    };
    assert(every[i] == command);
    if listing(entries).contains(command) {
        let k = choose|k: int| 0 <= k < listing(entries).len() && listing(entries)[k] == command;
        assert(among(listing(entries)[k]));
    }
}

/// The order of registration does not show in the listing: two registries
/// that hold the same commands are listed alike.
pub proof fn lemma_listing_ignores_order(first: Seq<BuiltinCommand>, second: Seq<BuiltinCommand>)
    requires
        forall|command: BuiltinCommand| first.contains(command) <==> second.contains(command),
    ensures
        listing(first) == listing(second),
{
    let in_first = |command: BuiltinCommand| first.contains(command);
    let in_second = |command: BuiltinCommand| second.contains(command);
    assert(in_first =~= in_second);
}

/// The registry of all the built-in commands is listed as the kinds are
/// declared.
pub proof fn lemma_listing_of_every()
    ensures
        listing(BuiltinCommand::every()) == BuiltinCommand::every(),
{
    let every = BuiltinCommand::every();
    assert(every.len() == 11);
    lemma_chosen_step(every, every, 0);
    lemma_chosen_step(every, every, 1);
    lemma_chosen_step(every, every, 2);
    lemma_chosen_step(every, every, 3);
    lemma_chosen_step(every, every, 4);
    lemma_chosen_step(every, every, 5);
    lemma_chosen_step(every, every, 6);
    lemma_chosen_step(every, every, 7);
    lemma_chosen_step(every, every, 8);
    lemma_chosen_step(every, every, 9);
    lemma_chosen_step(every, every, 10);
    assert(every.contains(every[0]));
    assert(every.contains(every[1]));
    assert(every.contains(every[2]));
    assert(every.contains(every[3]));
    assert(every.contains(every[4]));
    assert(every.contains(every[5]));
    assert(every.contains(every[6]));
    assert(every.contains(every[7]));
    assert(every.contains(every[8]));
    assert(every.contains(every[9]));
    assert(every.contains(every[10]));
    assert(every.take(11) =~= every);
    assert(chosen(every.take(11), every) =~= every);
}

} // verus!
