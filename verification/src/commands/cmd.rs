//! The command that lists the commands: the built-in ones that ask for no
//! trust, then the custom ones.

use vstd::prelude::*;
use crate::commands::outcome::{concat2, concat3, Action, ActionView, Level, Notice, NoticeView, Outcome, OutcomeView};
use crate::commands::registry::{lemma_listing_ignores_order, listing, Registry};
use crate::commands::{BuiltinCommand, Command};
use crate::services::database::pairs;
use crate::text::edit::{join, joined};

verus! {

/// Lists the commands that everybody may run.
#[derive(Clone, Copy, Debug, Default, PartialEq, Eq)]
pub struct Commands;

/// The names of the entries that ask for no trust, in order.
pub open spec fn public_labels(entries: Seq<BuiltinCommand>) -> Seq<Seq<char>> {
    entries.filter(|c: BuiltinCommand| !c.privileged()).map_values(|c: BuiltinCommand| c.label())
}

/// The first part of the list: the names of the registered commands that ask
/// for no trust, in the order in which the kinds are declared, with a comma
/// and a space between them.
pub open spec fn builtin_list(entries: Seq<BuiltinCommand>) -> Seq<char> {
    joined(public_labels(listing(entries)), ", "@)
}

/// What one more entry adds to the names that are listed.
proof fn lemma_public_labels_step(entries: Seq<BuiltinCommand>, i: int)
    requires
        0 <= i < entries.len(),
    ensures
        public_labels(entries.take(0)) == Seq::<Seq<char>>::empty(),
        public_labels(entries.take(i + 1)) == if entries[i].privileged() {
            public_labels(entries.take(i))
        } else {
            public_labels(entries.take(i)).push(entries[i].label())
        },
{
    reveal(Seq::filter);
    assert(entries.take(i + 1).drop_last() =~= entries.take(i));
    assert(entries.take(i + 1).last() == entries[i]);
    assert(public_labels(entries.take(0)) =~= Seq::<Seq<char>>::empty());
    if !entries[i].privileged() {
        assert(public_labels(entries.take(i + 1)) =~= public_labels(entries.take(i)).push(
            entries[i].label(),
        ));
    }
}

/// The names of the stored commands, in the order of the rows.
pub open spec fn row_names(rows: Seq<(Seq<char>, Seq<char>)>) -> Seq<Seq<char>> {
    Seq::new(rows.len(), |i: int| rows[i].0)
}

/// The two parts of the list in one text: both with a comma and a space
/// between them, or the one that is not empty.
pub open spec fn combined(builtin: Seq<char>, db: Seq<char>) -> Seq<char> {
    if builtin.len() > 0 && db.len() > 0 {
        builtin + ", "@ + db
    } else if builtin.len() > 0 {
        builtin
    } else {
        db
    }
}

/// The second part of the list and the line for the log: the names of the
/// stored commands, or nothing and the reason where the store failed.
pub open spec fn fetched(stored: Result<Seq<(Seq<char>, Seq<char>)>, Seq<char>>) -> (
    Seq<char>,
    Option<NoticeView>,
) {
    match stored {
        Ok(rows) => (joined(row_names(rows), ", "@), None),
        Err(reason) => (
            Seq::empty(),
            Some(NoticeView { level: Level::Error, text: "Failed to retrieve commands: "@ + reason }),
        ),
    }
}

/// What the store gave, as pairs of texts.
pub open spec fn stored_view(stored: Result<Vec<(String, String)>, String>) -> Result<
    Seq<(Seq<char>, Seq<char>)>,
    Seq<char>,
> {
    match stored {
        Ok(rows) => Ok(pairs(rows@)),
        Err(reason) => Err(reason@),
    }
}

/// The whole answer, once the store has been read.
pub open spec fn listed(
    builtin: Seq<char>,
    stored: Result<Seq<(Seq<char>, Seq<char>)>, Seq<char>>,
) -> OutcomeView {
    OutcomeView {
        action: ActionView::Reply(combined(builtin, fetched(stored).0)),
        notice: fetched(stored).1,
    }
}

/// The names of the registered commands that ask for no trust, with a comma
/// and a space between them.
pub fn format_builtin_commands(registry: &Registry) -> (r: String)
    ensures
        r@ == builtin_list(registry@),
{
    let all = registry.all();
    let mut names: Vec<String> = Vec::new();
    let mut i: usize = 0;
    proof {
        reveal(Seq::filter);
        assert(public_labels(all@.take(0)) =~= Seq::<Seq<char>>::empty());
        assert(names.deep_view() =~= Seq::<Seq<char>>::empty());
    }
    while i < all.len()
        invariant
            all@ == listing(registry@),
            i <= all.len(),
            names.deep_view() == public_labels(all@.take(i as int)),
        decreases all.len() - i,
    {
        proof {
            lemma_public_labels_step(all@, i as int);
        }
        let command = all[i];
        if !command.requires_trust() {
            let ghost before = names.deep_view();
            names.push(command.name().to_owned());
            assert(names.deep_view() =~= before.push(command.label()));
        }
        i = i + 1;
    }
    assert(all@.take(all.len() as int) =~= all@);
    join(&names, ", ")
}

/// The names of the stored commands with a comma and a space between them,
/// or nothing and a line for the log where the store failed. The rows come as
/// pairs of name and response, an error as the text that describes it.
pub fn fetch_db_commands(stored: &Result<Vec<(String, String)>, String>) -> (r: (
    String,
    Option<Notice>,
))
    ensures
        r.0@ == fetched(stored_view(*stored)).0,
        match r.1 {
            Some(n) => fetched(stored_view(*stored)).1 == Some(n@),
            None => fetched(stored_view(*stored)).1 is None,
        },
{
    match stored {
        Ok(rows) => {
            let mut names: Vec<String> = Vec::new();
            let mut i: usize = 0;
            while i < rows.len()
                invariant
                    i <= rows.len(),
                    names.deep_view() == Seq::new(i as nat, |k: int| rows@[k].0@),
                decreases rows.len() - i,
            {
                let ghost before = names.deep_view();
                let name = rows[i].0.clone();
                assert(name@ == rows@[i as int].0@);
                names.push(name);
                assert(names.deep_view() =~= before.push(rows@[i as int].0@));
                i = i + 1;
                assert(names.deep_view() =~= Seq::new(i as nat, |k: int| rows@[k].0@));
            }
            assert(names.deep_view() =~= row_names(pairs(rows@)));
            (join(&names, ", "), None)
        },
        Err(reason) => (
            String::new(),
            Some(
                Notice {
                    level: Level::Error,
                    text: concat2("Failed to retrieve commands: ", reason.as_str()),
                },
            ),
        ),
    }
}

/// The two parts of the list in one text.
pub fn combine_commands(builtin: String, db: String) -> (r: String)
    ensures
        r@ == combined(builtin@, db@),
{
    let no_builtin = builtin.as_str().is_empty();
    let no_db = db.as_str().is_empty();
    if !no_builtin && !no_db {
        concat3(builtin.as_str(), ", ", db.as_str())
    } else if !no_builtin {
        builtin
    } else {
        db
    }
}

/// The whole answer, once the store has been read.
pub fn reply(builtin: String, stored: &Result<Vec<(String, String)>, String>) -> (r: Outcome)
    ensures
        r@ == listed(builtin@, stored_view(*stored)),
{
    let (db, notice) = fetch_db_commands(stored);
    Outcome { action: Action::Reply(combine_commands(builtin, db)), notice }
}

impl Command for Commands {
    open spec fn label(&self) -> Seq<char> {
        "commands"@
    }

    open spec fn privileged(&self) -> bool {
        false
    }

    open spec fn outcome(
        &self,
        registry: Seq<BuiltinCommand>,
        args: Seq<char>,
        sender: Seq<char>,
    ) -> OutcomeView {
        OutcomeView::act(ActionView::ListCommands { builtin: builtin_list(registry) })
    }

    fn name(&self) -> (r: &'static str) {
        "commands"
    }

    fn requires_trust(&self) -> (r: bool) {
        false
    }

    fn execute(&self, registry: &Registry, args: &str, sender: &str) -> (r: Outcome) {
        Outcome::act(Action::ListCommands { builtin: format_builtin_commands(registry) })
    }
}

/// The list does not show in which order the commands were registered: two
/// registries that hold the same commands give the same list.
pub proof fn lemma_list_ignores_order(first: Seq<BuiltinCommand>, second: Seq<BuiltinCommand>)
    requires
        forall|command: BuiltinCommand| first.contains(command) <==> second.contains(command),
    ensures
        builtin_list(first) == builtin_list(second),
{
    lemma_listing_ignores_order(first, second);
}

} // verus!
