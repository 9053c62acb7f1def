//! The store as the bot needs it: a table of custom commands and a table of
//! trusted users. A row is never removed. It is marked as deleted, does not
//! count from then on, and comes back to life when its name is written
//! again, so that no name ever stands in two rows.
//!
//! This module is a model of the store. It holds the two tables in memory,
//! says row by row what each operation does, and states as laws what the bot
//! relies on. The store on disk is asked through the statements of
//! [`crate::services::sqlite`], one for each operation that stands here.

use vstd::prelude::*;
use crate::commands::outcome::{StoreRequest, StoreRequestView};
use crate::text::chars::str_eq;

verus! {

/// One row of a table: a name, what is stored under it, and whether the row
/// is marked as deleted.
#[derive(Clone, Debug, PartialEq, Eq)]
pub struct Row {
    pub name: String,
    pub value: String,
    pub deleted: bool,
}

/// What a [`Row`] holds, with each text as a sequence of characters.
pub struct RowView {
    pub name: Seq<char>,
    pub value: Seq<char>,
    pub deleted: bool,
}

impl View for Row {
    type V = RowView;

    open spec fn view(&self) -> RowView {
        RowView { name: self.name@, value: self.value@, deleted: self.deleted }
    }
}

/// The rows of a table, in the order in which their names were first written.
#[derive(Debug, PartialEq, Eq)]
pub struct Table {
    rows: Vec<Row>,
}

impl View for Table {
    type V = Seq<RowView>;

    closed spec fn view(&self) -> Seq<RowView> {
        self.rows.deep_view()
    }
}

impl DeepView for Row {
    type V = RowView;

    open spec fn deep_view(&self) -> RowView {
        self@
    }
}

/// No name stands in two rows.
pub open spec fn unique(rows: Seq<RowView>) -> bool {
    forall|i: int, j: int|
        0 <= i < j < rows.len() ==> (#[trigger] rows[i]).name != (#[trigger] rows[j]).name
}

/// The index of the first row from `from` on that bears the name; the number
/// of rows where none does.
pub open spec fn find_row(rows: Seq<RowView>, name: Seq<char>, from: int) -> int
    decreases rows.len() - from,
{
    if 0 <= from < rows.len() && rows[from].name != name {
        find_row(rows, name, from + 1)
    } else {
        from
    }
}

/// What is stored under the name in a row that is not marked as deleted.
pub open spec fn live(rows: Seq<RowView>, name: Seq<char>) -> Option<Seq<char>> {
    let i = find_row(rows, name, 0);
    if i < rows.len() && !rows[i].deleted {
        Some(rows[i].value)
    } else {
        None
    }
}

/// The rows after the value is written under the name: the row of that name
/// holds the value and is alive, whether it existed before or not.
pub open spec fn upserted(rows: Seq<RowView>, name: Seq<char>, value: Seq<char>) -> Seq<RowView> {
    let i = find_row(rows, name, 0);
    if i < rows.len() {
        rows.update(i, RowView { name, value, deleted: false })
    } else {
        rows.push(RowView { name, value, deleted: false })
    }
}

/// The rows after the value of the row of that name is changed: nothing
/// changes where there is no such row, and a row that is marked as deleted
/// stays so.
pub open spec fn overwritten(rows: Seq<RowView>, name: Seq<char>, value: Seq<char>) -> Seq<
    RowView,
> {
    let i = find_row(rows, name, 0);
    if i < rows.len() {
        rows.update(i, RowView { name, value, deleted: rows[i].deleted })
    } else {
        rows
    }
}

/// The rows after the row of that name is marked as deleted.
pub open spec fn retired(rows: Seq<RowView>, name: Seq<char>) -> Seq<RowView> {
    let i = find_row(rows, name, 0);
    if i < rows.len() {
        rows.update(i, RowView { name, value: rows[i].value, deleted: true })
    } else {
        rows
    }
}

/// Pairs of texts, each as a pair of sequences of characters.
pub open spec fn pairs(rows: Seq<(String, String)>) -> Seq<(Seq<char>, Seq<char>)> {
    Seq::new(rows.len(), |i: int| (rows[i].0@, rows[i].1@))
}

/// Name and value of the rows that are not marked as deleted, in order.
pub open spec fn listed(rows: Seq<RowView>) -> Seq<(Seq<char>, Seq<char>)> {
    rows.filter(|row: RowView| !row.deleted).map_values(|row: RowView| (row.name, row.value))
}

/// What one more row adds to the rows that are listed.
proof fn lemma_listed_step(rows: Seq<RowView>, i: int)
    requires
        0 <= i < rows.len(),
    ensures
        listed(rows.take(0)) == Seq::<(Seq<char>, Seq<char>)>::empty(),
        listed(rows.take(i + 1)) == if rows[i].deleted {
            listed(rows.take(i))
        } else {
            listed(rows.take(i)).push((rows[i].name, rows[i].value))
        },
{
    reveal(Seq::filter);
    assert(rows.take(i + 1).drop_last() =~= rows.take(i));
    assert(rows.take(i + 1).last() == rows[i]);
    assert(listed(rows.take(0)) =~= Seq::<(Seq<char>, Seq<char>)>::empty());
    if !rows[i].deleted {
        assert(listed(rows.take(i + 1)) =~= listed(rows.take(i)).push(
            (rows[i].name, rows[i].value),
        ));
    }
}

/// Where `find_row` stops: at or after `from`, within the rows, at the first
/// row of that name.
pub proof fn lemma_find_row(rows: Seq<RowView>, name: Seq<char>, from: int)
    requires
        0 <= from <= rows.len(),
    ensures
        from <= find_row(rows, name, from) <= rows.len(),
        forall|j: int| from <= j < find_row(rows, name, from) ==> (#[trigger] rows[j]).name != name,
        find_row(rows, name, from) < rows.len() ==> rows[find_row(rows, name, from)].name == name,
    decreases rows.len() - from,
{
    if from < rows.len() && rows[from].name != name {
        lemma_find_row(rows, name, from + 1);
    }
}

/// `find_row` is settled by what it finds: an index that bears the name with
/// none before it that does, or the number of rows where no row bears it.
pub proof fn lemma_find_row_is(rows: Seq<RowView>, name: Seq<char>, from: int, at: int)
    requires
        0 <= from <= at <= rows.len(),
        forall|j: int| from <= j < at ==> (#[trigger] rows[j]).name != name,
        at < rows.len() ==> rows[at].name == name,
    ensures
        find_row(rows, name, from) == at,
    decreases at - from,
{
    if from < at {
        assert(rows[from].name != name);
        lemma_find_row_is(rows, name, from + 1, at);
    }
}

/// Writing leaves no name in two rows, and what was written is read back.
pub proof fn lemma_upserted(rows: Seq<RowView>, name: Seq<char>, value: Seq<char>)
    requires
        unique(rows),
    ensures
        unique(upserted(rows, name, value)),
        live(upserted(rows, name, value), name) == Some(value),
{
    lemma_find_row(rows, name, 0);
    let i = find_row(rows, name, 0);
    let after = upserted(rows, name, value);
    lemma_find_row_is(after, name, 0, i);
}

/// Marking as deleted leaves no name in two rows, and nothing is read back
/// under the name.
pub proof fn lemma_retired(rows: Seq<RowView>, name: Seq<char>)
    requires
        unique(rows),
    ensures
        unique(retired(rows, name)),
        live(retired(rows, name), name) is None,
{
    lemma_find_row(rows, name, 0);
    let i = find_row(rows, name, 0);
    let after = retired(rows, name);
    lemma_find_row_is(after, name, 0, i);
}

/// Changing a value leaves no name in two rows; the new value is read back
/// where the row is alive.
pub proof fn lemma_overwritten(rows: Seq<RowView>, name: Seq<char>, value: Seq<char>)
    requires
        unique(rows),
    ensures
        unique(overwritten(rows, name, value)),
        live(rows, name) is Some ==> live(overwritten(rows, name, value), name) == Some(value),
        live(rows, name) is None ==> live(overwritten(rows, name, value), name) is None,
{
    lemma_find_row(rows, name, 0);
    let i = find_row(rows, name, 0);
    let after = overwritten(rows, name, value);
    lemma_find_row_is(after, name, 0, i);
}

/// What is done under one name changes nothing under another.
pub proof fn lemma_other_names_are_untouched(
    rows: Seq<RowView>,
    name: Seq<char>,
    value: Seq<char>,
    other: Seq<char>,
)
    requires
        other != name,
    ensures
        live(upserted(rows, name, value), other) == live(rows, other),
        live(overwritten(rows, name, value), other) == live(rows, other),
        live(retired(rows, name), other) == live(rows, other),
{
    lemma_find_row(rows, name, 0);
    lemma_find_row(rows, other, 0);
    let k = find_row(rows, other, 0);
    let written = upserted(rows, name, value);
    if k == rows.len() && find_row(rows, name, 0) == rows.len() {
        lemma_find_row_is(written, other, 0, k + 1);
    } else {
        lemma_find_row_is(written, other, 0, k);
    }
    lemma_find_row_is(overwritten(rows, name, value), other, 0, k);
    lemma_find_row_is(retired(rows, name), other, 0, k);
}

impl Table {
    /// No name stands in two rows.
    #[verifier::type_invariant]
    spec fn inv(self) -> bool {
        unique(self.rows.deep_view())
    }

    /// A table without rows.
    pub fn new() -> (r: Table)
        ensures
            r@ == Seq::<RowView>::empty(),
    {
        let rows: Vec<Row> = Vec::new();
        assert(rows.deep_view() =~= Seq::<RowView>::empty());
        Table { rows }
    }

    /// The index of the row that bears the name; the number of rows where
    /// none does.
    fn find(&self, name: &str) -> (r: usize)
        ensures
            r == find_row(self@, name@, 0),
            r <= self.rows.len(),
            self.rows.len() == self@.len(),
            r < self.rows.len() ==> self.rows[r as int]@ == self@[r as int],
            unique(self@),
    {
        proof {
            use_type_invariant(self);
        }
        let mut i: usize = 0;
        while i < self.rows.len()
            invariant
                i <= self.rows.len(),
                self.rows.len() == self@.len(),
                unique(self@),
                find_row(self@, name@, 0) == find_row(self@, name@, i as int),
            decreases self.rows.len() - i,
        {
            assert(self@[i as int] == self.rows[i as int]@);
            if str_eq(self.rows[i].name.as_str(), name) {
                return i;
            }
            i = i + 1;
        }
        i
    }

    /// What is stored under the name in a row that is not marked as deleted.
    pub fn get(&self, name: &str) -> (r: Option<String>)
        ensures
            unique(self@),
            match r {
                Some(value) => live(self@, name@) == Some(value@),
                None => live(self@, name@) is None,
            },
    {
        let i = self.find(name);
        if i < self.rows.len() && !self.rows[i].deleted {
            Some(self.rows[i].value.clone())
        } else {
            None
        }
    }

    /// Writes the value under the name, in a row that is alive afterwards:
    /// the value is read back under the name from then on.
    pub fn upsert(&mut self, name: &str, value: &str)
        ensures
            final(self)@ == upserted(old(self)@, name@, value@),
            live(final(self)@, name@) == Some(value@),
    {
        let i = self.find(name);
        proof {
            lemma_upserted(self@, name@, value@);
        }
        let row = Row { name: name.to_owned(), value: value.to_owned(), deleted: false };
        let mut rows: Vec<Row> = Vec::new();
        core::mem::swap(&mut rows, &mut self.rows);
        if i < rows.len() {
            rows.set(i, row);
        } else {
            rows.push(row);
        }
        assert(rows.deep_view() =~= upserted(old(self)@, name@, value@));
        *self = Table { rows };
    }

    /// Changes the value of the row of that name, if there is one: where a
    /// value was read back under the name, the new one is from then on.
    pub fn overwrite(&mut self, name: &str, value: &str)
        ensures
            final(self)@ == overwritten(old(self)@, name@, value@),
            live(old(self)@, name@) is Some ==> live(final(self)@, name@) == Some(value@),
            live(old(self)@, name@) is None ==> live(final(self)@, name@) is None,
    {
        let i = self.find(name);
        proof {
            lemma_overwritten(self@, name@, value@);
        }
        if i < self.rows.len() {
            let deleted = self.rows[i].deleted;
            let row = Row { name: name.to_owned(), value: value.to_owned(), deleted };
            let mut rows: Vec<Row> = Vec::new();
            core::mem::swap(&mut rows, &mut self.rows);
            rows.set(i, row);
            assert(rows.deep_view() =~= overwritten(old(self)@, name@, value@));
            *self = Table { rows };
        }
    }

    /// Marks the row of that name as deleted, if there is one: nothing is
    /// read back under the name from then on.
    pub fn retire(&mut self, name: &str)
        ensures
            final(self)@ == retired(old(self)@, name@),
            live(final(self)@, name@) is None,
    {
        let i = self.find(name);
        proof {
            lemma_retired(self@, name@);
        }
        if i < self.rows.len() {
            let value = self.rows[i].value.clone();
            let row = Row { name: name.to_owned(), value, deleted: true };
            let mut rows: Vec<Row> = Vec::new();
            core::mem::swap(&mut rows, &mut self.rows);
            rows.set(i, row);
            assert(rows.deep_view() =~= retired(old(self)@, name@));
            *self = Table { rows };
        }
    }

    /// Name and value of the rows that are not marked as deleted, in order.
    pub fn list(&self) -> (r: Vec<(String, String)>)
        ensures
            pairs(r@) == listed(self@),
    {
        let mut out: Vec<(String, String)> = Vec::new();
        let mut i: usize = 0;
        proof {
            reveal(Seq::filter);
            assert(pairs(out@) =~= listed(self@.take(0)));
        }
        while i < self.rows.len()
            invariant
                i <= self.rows.len(),
                self.rows.len() == self@.len(),
                pairs(out@) == listed(self@.take(i as int)),
            decreases self.rows.len() - i,
        {
            assert(self@[i as int] == self.rows[i as int]@);
            proof {
                lemma_listed_step(self@, i as int);
            }
            if !self.rows[i].deleted {
                let name = self.rows[i].name.clone();
                let value = self.rows[i].value.clone();
                let ghost before = pairs(out@);
                out.push((name, value));
                assert(pairs(out@) =~= before.push((name@, value@)));
            }
            i = i + 1;
        }
        assert(self@.take(self.rows.len() as int) =~= self@);
        out
    }
}

impl Clone for Table {
    fn clone(&self) -> (r: Table)
        ensures
            r@ == self@,
    {
        proof {
            use_type_invariant(self);
        }
        let mut rows: Vec<Row> = Vec::new();
        let mut i: usize = 0;
        while i < self.rows.len()
            invariant
                i <= self.rows.len(),
                rows.deep_view() == self.rows.deep_view().take(i as int),
            decreases self.rows.len() - i,
        {
            let ghost before = rows.deep_view();
            let row = Row {
                name: self.rows[i].name.clone(),
                value: self.rows[i].value.clone(),
                deleted: self.rows[i].deleted,
            };
            assert(row@ == self.rows.deep_view()[i as int]);
            rows.push(row);
            assert(rows.deep_view() =~= before.push(row@));
            i = i + 1;
            assert(rows.deep_view() =~= self.rows.deep_view().take(i as int));
        }
        assert(self.rows.deep_view().take(self.rows.len() as int) =~= self.rows.deep_view());
        Table { rows }
    }
}

/// Why the store did not do what it was asked.
#[derive(Clone, Copy, Debug, PartialEq, Eq, Structural)]
pub enum StoreError {
    /// A command of this name exists and is not marked as deleted.
    AlreadyExists,
}

/// The two tables of the bot.
#[derive(Clone, Debug, PartialEq, Eq)]
pub struct Store {
    commands: Table,
    users: Table,
}

/// What a [`Store`] holds, with each text as a sequence of characters.
pub struct StoreState {
    /// The custom commands: name, response, and whether deleted.
    pub commands: Seq<RowView>,
    /// The users that were ever trusted: username, nothing, and whether the
    /// trust was taken away.
    pub users: Seq<RowView>,
}

impl View for Store {
    type V = StoreState;

    closed spec fn view(&self) -> StoreState {
        StoreState { commands: self.commands@, users: self.users@ }
    }
}

impl StoreState {
    /// In neither table a name stands in two rows.
    pub open spec fn wf(self) -> bool {
        unique(self.commands) && unique(self.users)
    }

    /// Whether the user is trusted.
    pub open spec fn is_trusted(self, username: Seq<char>) -> bool {
        live(self.users, username) is Some
    }

    /// The store after the user was made trusted.
    pub open spec fn trust(self, username: Seq<char>) -> StoreState {
        StoreState { users: upserted(self.users, username, Seq::empty()), ..self }
    }

    /// The store after the trust was taken away from the user.
    pub open spec fn untrust(self, username: Seq<char>) -> StoreState {
        StoreState { users: retired(self.users, username), ..self }
    }

    /// The response of the custom command, if there is a live one.
    pub open spec fn response(self, name: Seq<char>) -> Option<Seq<char>> {
        live(self.commands, name)
    }

    /// The store after the command was created, provided there was no live
    /// command of that name; the store as it was otherwise.
    pub open spec fn create(self, name: Seq<char>, response: Seq<char>) -> StoreState {
        if self.response(name) is Some {
            self
        } else {
            StoreState { commands: upserted(self.commands, name, response), ..self }
        }
    }

    /// The store after the command got another response.
    pub open spec fn update(self, name: Seq<char>, response: Seq<char>) -> StoreState {
        StoreState { commands: overwritten(self.commands, name, response), ..self }
    }

    /// The store after the command was deleted.
    pub open spec fn delete(self, name: Seq<char>) -> StoreState {
        StoreState { commands: retired(self.commands, name), ..self }
    }

    /// The store after a request was carried out.
    pub open spec fn apply(self, request: StoreRequestView) -> StoreState {
        match request {
            StoreRequestView::Create { name, response } => self.create(name, response),
            StoreRequestView::Update { name, response } => self.update(name, response),
            StoreRequestView::Delete { name } => self.delete(name),
            StoreRequestView::Trust { username } => self.trust(username),
            StoreRequestView::Untrust { username } => self.untrust(username),
        }
    }
}

/// The store after each of the first `n` users was made trusted.
pub open spec fn seeded(users: Seq<Seq<char>>, n: int) -> StoreState
    decreases n,
{
    if n <= 0 {
        StoreState { commands: Seq::empty(), users: Seq::empty() }
    } else {
        seeded(users, n - 1).trust(users[n - 1])
    }
}

/// In the model: a store with empty tables but for the users that are
/// trusted from the start. On disk: `sqlite::create_tables`, then
/// `sqlite::insert_trusted_users`.
pub fn migrate(trusted_users: &Vec<String>) -> (r: Store)
    ensures
        r@ == seeded(trusted_users.deep_view(), trusted_users.len() as int),
{
    let mut store = Store { commands: Table::new(), users: Table::new() };
    let mut i: usize = 0;
    while i < trusted_users.len()
        invariant
            i <= trusted_users.len(),
            store@ == seeded(trusted_users.deep_view(), i as int),
        decreases trusted_users.len() - i,
    {
        assert(trusted_users.deep_view()[i as int] == trusted_users[i as int]@);
        trust_user(&mut store, trusted_users[i].as_str());
        i = i + 1;
    }
    store
}

/// In the model: whether the user is trusted. On disk:
/// `sqlite::is_trusted`.
pub fn is_trusted(store: &Store, username: &str) -> (r: bool)
    ensures
        r == store@.is_trusted(username@),
{
    store.users.get(username).is_some()
}

/// In the model: makes the user trusted, whatever they were before. On
/// disk: `sqlite::statement` of `StoreRequest::Trust`.
pub fn trust_user(store: &mut Store, username: &str)
    ensures
        final(store)@ == old(store)@.trust(username@),
        final(store)@.is_trusted(username@),
{
    proof {
        reveal_strlit("");
        assert(""@ =~= Seq::<char>::empty());
    }
    store.users.upsert(username, "");
}

/// In the model: takes the trust away from the user, whatever they were
/// before. On disk: `sqlite::statement` of `StoreRequest::Untrust`.
pub fn untrust_user(store: &mut Store, username: &str)
    ensures
        final(store)@ == old(store)@.untrust(username@),
        !final(store)@.is_trusted(username@),
{
    store.users.retire(username);
}

/// In the model: the response of the custom command, if there is a live
/// one. On disk: `sqlite::get_command_response`.
pub fn get_command_response(store: &Store, name: &str) -> (r: Option<String>)
    ensures
        match r {
            Some(response) => store@.response(name@) == Some(response@),
            None => store@.response(name@) is None,
        },
{
    store.commands.get(name)
}

/// In the model: creates the custom command, unless a live command of that
/// name exists. A name whose command was deleted can be taken again. On
/// disk: `sqlite::statement` of `StoreRequest::Create`, and `sqlite::created`
/// on the number of rows that it changed.
pub fn create_command(store: &mut Store, name: &str, response: &str) -> (r: Result<(), StoreError>)
    ensures
        r is Ok <==> old(store)@.response(name@) is None,
        r is Ok ==> final(store)@.response(name@) == Some(response@),
        final(store)@ == old(store)@.create(name@, response@),
{
    if store.commands.get(name).is_some() {
        Err(StoreError::AlreadyExists)
    } else {
        store.commands.upsert(name, response);
        Ok(())
    }
}

/// In the model: gives the custom command another response. A live command
/// answers with it from then on, and no command comes to life by it. On
/// disk: `sqlite::statement` of `StoreRequest::Update`.
pub fn update_command_response(store: &mut Store, name: &str, response: &str)
    ensures
        final(store)@ == old(store)@.update(name@, response@),
        old(store)@.response(name@) is Some ==> final(store)@.response(name@) == Some(response@),
        old(store)@.response(name@) is None ==> final(store)@.response(name@) is None,
{
    store.commands.overwrite(name, response);
}

/// In the model: deletes the custom command, which is not found from then
/// on. On disk: `sqlite::statement` of `StoreRequest::Delete`.
pub fn delete_command(store: &mut Store, name: &str)
    ensures
        final(store)@ == old(store)@.delete(name@),
        final(store)@.response(name@) is None,
{
    store.commands.retire(name);
}

/// In the model: name and response of the custom commands that are alive,
/// in the order in which they were first created. On disk:
/// `sqlite::get_commands`.
pub fn get_commands(store: &Store) -> (r: Vec<(String, String)>)
    ensures
        pairs(r@) == listed(store@.commands),
{
    store.commands.list()
}

/// In the model: carries out a request. On disk: `sqlite::statement`.
pub fn apply(store: &mut Store, request: &StoreRequest)
    ensures
        final(store)@ == old(store)@.apply(request@),
{
    match request {
        StoreRequest::Create { name, response } => {
            let _ = create_command(store, name.as_str(), response.as_str());
        },
        StoreRequest::Update { name, response } => update_command_response(
            store,
            name.as_str(),
            response.as_str(),
        ),
        StoreRequest::Delete { name } => delete_command(store, name.as_str()),
        StoreRequest::Trust { username } => trust_user(store, username.as_str()),
        StoreRequest::Untrust { username } => untrust_user(store, username.as_str()),
    }
}

/// Whatever is asked of a store in which no name stands in two rows, no name
/// stands in two rows afterwards.
pub proof fn lemma_store_stays_well_formed(store: StoreState, request: StoreRequestView)
    requires
        store.wf(),
    ensures
        store.apply(request).wf(),
{
    match request {
        StoreRequestView::Create { name, response } => {
            lemma_upserted(store.commands, name, response);
        },
        StoreRequestView::Update { name, response } => {
            lemma_overwritten(store.commands, name, response);
        },
        StoreRequestView::Delete { name } => {
            lemma_retired(store.commands, name);
        },
        StoreRequestView::Trust { username } => {
            lemma_upserted(store.users, username, Seq::empty());
        },
        StoreRequestView::Untrust { username } => {
            lemma_retired(store.users, username);
        },
    }
}

/// Whatever a user was before: once the trust is taken away they are not
/// trusted, and once they are made trusted they are.
pub proof fn lemma_trust_is_what_was_last_said(store: StoreState, username: Seq<char>)
    requires
        store.wf(),
    ensures
        !store.untrust(username).is_trusted(username),
        store.trust(username).is_trusted(username),
        store.untrust(username).trust(username).is_trusted(username),
        !store.trust(username).untrust(username).is_trusted(username),
        store.trust(username).trust(username) == store.trust(username),
        store.untrust(username).untrust(username) == store.untrust(username),
{
    lemma_retired(store.users, username);
    lemma_upserted(store.users, username, Seq::empty());
    lemma_store_stays_well_formed(store, StoreRequestView::Untrust { username });
    lemma_store_stays_well_formed(store, StoreRequestView::Trust { username });
    lemma_upserted(store.untrust(username).users, username, Seq::empty());
    lemma_retired(store.trust(username).users, username);
    lemma_find_row(store.users, username, 0);
    let i = find_row(store.users, username, 0);
    lemma_find_row_is(store.trust(username).users, username, 0, i);
    lemma_find_row_is(store.untrust(username).users, username, 0, i);
    assert(store.trust(username).trust(username).users =~= store.trust(username).users);
    assert(store.untrust(username).untrust(username).users =~= store.untrust(username).users);
}

/// What a user is told of another changes nothing for them.
pub proof fn lemma_trust_of_others_is_untouched(
    store: StoreState,
    username: Seq<char>,
    other: Seq<char>,
)
    requires
        other != username,
    ensures
        store.trust(username).is_trusted(other) == store.is_trusted(other),
        store.untrust(username).is_trusted(other) == store.is_trusted(other),
{
    lemma_other_names_are_untouched(store.users, username, Seq::empty(), other);
}

/// A custom command is read back as it was created; once deleted it is not
/// found; and its name can be taken again after that.
pub proof fn lemma_command_round_trip(
    store: StoreState,
    name: Seq<char>,
    first: Seq<char>,
    second: Seq<char>,
)
    requires
        store.wf(),
        store.response(name) is None,
    ensures
        store.create(name, first).response(name) == Some(first),
        store.create(name, first).delete(name).response(name) is None,
        store.create(name, first).delete(name).create(name, second).response(name) == Some(
            second,
        ),
        store.create(name, first).update(name, second).response(name) == Some(second),
{
    lemma_upserted(store.commands, name, first);
    let created = store.create(name, first);
    lemma_retired(created.commands, name);
    let deleted = created.delete(name);
    lemma_upserted(deleted.commands, name, second);
    lemma_overwritten(created.commands, name, second);
}

/// A live command is not created again: the store stays as it is.
pub proof fn lemma_live_command_is_not_created(
    store: StoreState,
    name: Seq<char>,
    response: Seq<char>,
)
    requires
        store.response(name) is Some,
    ensures
        store.create(name, response) == store,
{
}

} // verus!
