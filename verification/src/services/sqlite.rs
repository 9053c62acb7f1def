//! The statements that ask the store on disk: the two tables in SQLite, with
//! a time of deletion that is empty as long as a row is alive. Each statement
//! does on disk what one operation of [`crate::services::database`] does in
//! the model. Nothing is run here: the caller hands text and values to the
//! database.

use vstd::prelude::*;
use crate::commands::outcome::{StoreRequest, StoreRequestView};
use crate::services::database::StoreError;
use crate::text::edit::{join, joined};
use crate::text::number::{decimal_digits, push_decimal};

verus! {

/// A statement and the values for its place holders, in their order.
#[derive(Clone, Debug, PartialEq, Eq)]
pub struct Statement {
    pub text: String,
    pub params: Vec<String>,
}

/// What a [`Statement`] holds, with each text as a sequence of characters.
pub struct StatementView {
    pub text: Seq<char>,
    pub params: Seq<Seq<char>>,
}

impl View for Statement {
    type V = StatementView;

    open spec fn view(&self) -> StatementView {
        StatementView { text: self.text@, params: self.params.deep_view() }
    }
}

/// The statement that makes the table of custom commands, unless it exists.
pub open spec fn commands_table() -> Seq<char> {
    "CREATE TABLE IF NOT EXISTS commands (id INTEGER PRIMARY KEY, name TEXT UNIQUE NOT NULL, response TEXT NOT NULL, created_at DATETIME NOT NULL, updated_at DATETIME NOT NULL, deleted_at DATETIME)"@
}

/// The statement that makes the table of trusted users, unless it exists.
pub open spec fn trusted_users_table() -> Seq<char> {
    "CREATE TABLE IF NOT EXISTS trusted_users (id INTEGER PRIMARY KEY, username TEXT UNIQUE NOT NULL, created_at DATETIME NOT NULL, updated_at DATETIME NOT NULL, deleted_at DATETIME)"@
}

/// The statement that carries out a request, and its values.
///
/// A command is created as a new row; where a row of that name is marked as
/// deleted it comes back to life with the new response, and a row that is
/// alive is left alone, so that the statement changes no row then. A response
/// is changed in the row of that name, alive or not. A command is deleted,
/// and the trust taken away, by setting the time of deletion. A user is made
/// trusted as a new row, or by emptying the time of deletion of their row.
pub open spec fn statement_of(request: StoreRequestView) -> StatementView {
    match request {
        StoreRequestView::Create { name, response } => StatementView {
            text: "INSERT INTO commands (name, response, created_at, updated_at) VALUES (?1, ?2, datetime('now'), datetime('now')) ON CONFLICT(name) DO UPDATE SET response = excluded.response, deleted_at = NULL, updated_at = datetime('now') WHERE deleted_at IS NOT NULL"@,
            params: seq![name, response],
        },
        StoreRequestView::Update { name, response } => StatementView {
            text: "UPDATE commands SET response = ?1, updated_at = datetime('now') WHERE name = ?2"@,
            params: seq![response, name],
        },
        StoreRequestView::Delete { name } => StatementView {
            text: "UPDATE commands SET deleted_at = datetime('now') WHERE name = ?1"@,
            params: seq![name],
        },
        StoreRequestView::Trust { username } => StatementView {
            text: "INSERT INTO trusted_users (username, created_at, updated_at) VALUES (?1, datetime('now'), datetime('now')) ON CONFLICT(username) DO UPDATE SET deleted_at = NULL, updated_at = datetime('now')"@,
            params: seq![username],
        },
        StoreRequestView::Untrust { username } => StatementView {
            text: "UPDATE trusted_users SET deleted_at = datetime('now'), updated_at = datetime('now') WHERE username = ?1"@,
            params: seq![username],
        },
    }
}

/// The question whether a user is trusted: it gives a row exactly when the
/// user has a row that is alive.
pub open spec fn trusted_question(username: Seq<char>) -> StatementView {
    StatementView {
        text: "SELECT 1 FROM trusted_users WHERE username = ?1 AND deleted_at IS NULL LIMIT 1"@,
        params: seq![username],
    }
}

/// The question for the response of a custom command: it gives the response
/// of the row of that name that is alive, and no row where there is none.
pub open spec fn response_question(name: Seq<char>) -> StatementView {
    StatementView {
        text: "SELECT response FROM commands WHERE name = ?1 AND deleted_at IS NULL"@,
        params: seq![name],
    }
}

/// The question for all the custom commands: name and response of the rows
/// that are alive, in the order in which they were first created.
pub open spec fn commands_question() -> StatementView {
    StatementView {
        text: "SELECT name, response FROM commands WHERE deleted_at IS NULL ORDER BY id"@,
        params: Seq::empty(),
    }
}

/// A vector of one text.
fn one(value: &str) -> (r: Vec<String>)
    ensures
        r.deep_view() == seq![value@],
{
    let mut v: Vec<String> = Vec::new();
    v.push(value.to_owned());
    assert(v.deep_view() =~= seq![value@]);
    v
}

/// A vector of two texts.
fn two(first: &str, second: &str) -> (r: Vec<String>)
    ensures
        r.deep_view() == seq![first@, second@],
{
    let mut v: Vec<String> = Vec::new();
    v.push(first.to_owned());
    v.push(second.to_owned());
    assert(v.deep_view() =~= seq![first@, second@]);
    v
}

/// The statements that make the two tables, unless they exist.
pub fn create_tables() -> (r: Vec<String>)
    ensures
        r.deep_view() == seq![commands_table(), trusted_users_table()],
{
    two(
        "CREATE TABLE IF NOT EXISTS commands (id INTEGER PRIMARY KEY, name TEXT UNIQUE NOT NULL, response TEXT NOT NULL, created_at DATETIME NOT NULL, updated_at DATETIME NOT NULL, deleted_at DATETIME)",
        "CREATE TABLE IF NOT EXISTS trusted_users (id INTEGER PRIMARY KEY, username TEXT UNIQUE NOT NULL, created_at DATETIME NOT NULL, updated_at DATETIME NOT NULL, deleted_at DATETIME)",
    )
}

/// The statement that carries out a request, and its values.
pub fn statement(request: &StoreRequest) -> (r: Statement)
    ensures
        r@ == statement_of(request@),
{
    match request {
        StoreRequest::Create { name, response } => Statement {
            text: "INSERT INTO commands (name, response, created_at, updated_at) VALUES (?1, ?2, datetime('now'), datetime('now')) ON CONFLICT(name) DO UPDATE SET response = excluded.response, deleted_at = NULL, updated_at = datetime('now') WHERE deleted_at IS NOT NULL".to_owned(),
            params: two(name.as_str(), response.as_str()),
        },
        StoreRequest::Update { name, response } => Statement {
            text: "UPDATE commands SET response = ?1, updated_at = datetime('now') WHERE name = ?2".to_owned(),
            params: two(response.as_str(), name.as_str()),
        },
        StoreRequest::Delete { name } => Statement {
            text: "UPDATE commands SET deleted_at = datetime('now') WHERE name = ?1".to_owned(),
            params: one(name.as_str()),
        },
        StoreRequest::Trust { username } => Statement {
            text: "INSERT INTO trusted_users (username, created_at, updated_at) VALUES (?1, datetime('now'), datetime('now')) ON CONFLICT(username) DO UPDATE SET deleted_at = NULL, updated_at = datetime('now')".to_owned(),
            params: one(username.as_str()),
        },
        StoreRequest::Untrust { username } => Statement {
            text: "UPDATE trusted_users SET deleted_at = datetime('now'), updated_at = datetime('now') WHERE username = ?1".to_owned(),
            params: one(username.as_str()),
        },
    }
}

/// What the statement that creates a command has done, told by the number
/// of rows that it changed: it changes none exactly when a command of that
/// name is alive.
pub fn created(rows_changed: usize) -> (r: Result<(), StoreError>)
    ensures
        r is Ok <==> rows_changed > 0,
        r is Err ==> r == Err::<(), StoreError>(StoreError::AlreadyExists),
{
    if rows_changed > 0 {
        Ok(())
    } else {
        Err(StoreError::AlreadyExists)
    }
}

/// The question whether a user is trusted.
pub fn is_trusted(username: &str) -> (r: Statement)
    ensures
        r@ == trusted_question(username@),
{
    Statement {
        text: "SELECT 1 FROM trusted_users WHERE username = ?1 AND deleted_at IS NULL LIMIT 1".to_owned(),
        params: one(username),
    }
}

/// The question for the response of a custom command.
pub fn get_command_response(name: &str) -> (r: Statement)
    ensures
        r@ == response_question(name@),
{
    Statement {
        text: "SELECT response FROM commands WHERE name = ?1 AND deleted_at IS NULL".to_owned(),
        params: one(name),
    }
}

/// The question for all the custom commands.
pub fn get_commands() -> (r: Statement)
    ensures
        r@ == commands_question(),
{
    let params: Vec<String> = Vec::new();
    assert(params.deep_view() =~= Seq::<Seq<char>>::empty());
    Statement {
        text: "SELECT name, response FROM commands WHERE deleted_at IS NULL ORDER BY id".to_owned(),
        params,
    }
}

/// The group of values for user number `number` in the statement that makes
/// several users trusted at once.
pub open spec fn value_group(number: nat) -> Seq<char> {
    "(?"@ + decimal_digits(number) + ", datetime('now'), datetime('now'))"@
}

/// The groups of values for `count` users, numbered from one.
pub open spec fn value_groups(count: nat) -> Seq<Seq<char>> {
    Seq::new(count, |k: int| value_group((k + 1) as nat))
}

/// The statement that makes `count` users trusted at once: each is written
/// as a new row, and where a row of that name exists it comes back to life.
pub open spec fn insert_statement(count: nat) -> Seq<char> {
    "INSERT INTO trusted_users (username, created_at, updated_at) VALUES "@ + joined(
        value_groups(count),
        ", "@,
    )
        + " ON CONFLICT(username) DO UPDATE SET deleted_at = NULL, updated_at = datetime('now')"@
}

/// The statement that makes `count` users trusted at once, with one place
/// holder for each username.
pub fn insert_trusted_users(count: usize) -> (r: String)
    ensures
        r@ == insert_statement(count as nat),
{
    let mut groups: Vec<String> = Vec::new();
    let mut i: usize = 0;
    while i < count
        invariant
            i <= count,
            groups.deep_view() == value_groups(i as nat),
        decreases count - i,
    {
        let mut group = "(?".to_owned();
        push_decimal(&mut group, (i + 1) as u64);
        group.append(", datetime('now'), datetime('now'))");
        let ghost before = groups.deep_view();
        groups.push(group);
        assert(groups.deep_view() =~= before.push(value_group((i + 1) as nat)));
        i = i + 1;
        assert(groups.deep_view() =~= value_groups(i as nat));
    }
    let mut text = "INSERT INTO trusted_users (username, created_at, updated_at) VALUES ".to_owned();
    let values = join(&groups, ", ");
    text.append(values.as_str());
    text.append(
        " ON CONFLICT(username) DO UPDATE SET deleted_at = NULL, updated_at = datetime('now')",
    );
    text
}

} // verus!
