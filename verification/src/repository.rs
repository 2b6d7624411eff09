//! The statements that the user operations ask of the store.
//!
//! A statement is SQL text with numbered placeholders and the values that
//! they are bound to. `$1` is always the identifier of the user; `$2` and
//! the following are texts, in the order of `params`. Every statement
//! expects exactly one row of the table `users` back.

use crate::models::users::{text_of, User, UserView};
use vstd::prelude::*;

verus! {

/// A parameterized statement, ready to be run.
#[derive(Clone, Debug)]
pub struct Statement {
    /// The SQL text.
    pub sql: String,
    /// The value bound to `$1`.
    pub id: u128,
    /// The values bound to `$2`, `$3` and so on.
    pub params: Vec<String>,
}

/// The mathematical value of a [`Statement`].
pub ghost struct StatementView {
    pub sql: Seq<char>,
    pub id: u128,
    pub params: Seq<Seq<char>>,
}

/// The texts of a list of strings.
pub open spec fn texts(strings: Seq<String>) -> Seq<Seq<char>> {
    strings.map_values(|s: String| s@)
}

impl View for Statement {
    type V = StatementView;

    open spec fn view(&self) -> StatementView {
        StatementView { sql: self.sql@, id: self.id, params: texts(self.params@) }
    }
}

/// The columns of `users` that a client can write.
#[derive(Clone, Copy, Debug, PartialEq, Eq, Structural)]
pub enum Column {
    Username,
    Password,
    Email,
    FirstName,
    LastName,
}

impl Column {
    /// The column's name in the table.
    pub open spec fn name(self) -> Seq<char> {
        match self {
            Column::Username => "username"@,
            Column::Password => "password"@,
            Column::Email => "email"@,
            Column::FirstName => "first_name"@,
            Column::LastName => "last_name"@,
        }
    }

    pub fn as_str(&self) -> (name: &'static str)
        ensures
            name@ == self.name(),
    {
        match self {
            Column::Username => "username",
            Column::Password => "password",
            Column::Email => "email",
            Column::FirstName => "first_name",
            Column::LastName => "last_name",
        }
    }
}

/// The new values of a partial update, column by column. A column that is
/// `None` is left as the store has it. `password` is the hash string.
#[derive(Clone, Debug)]
pub struct UserChanges {
    pub username: Option<String>,
    pub password: Option<String>,
    pub email: Option<String>,
    pub first_name: Option<String>,
    pub last_name: Option<String>,
}

/// The mathematical value of a [`UserChanges`].
pub ghost struct UserChangesView {
    pub username: Option<Seq<char>>,
    pub password: Option<Seq<char>>,
    pub email: Option<Seq<char>>,
    pub first_name: Option<Seq<char>>,
    pub last_name: Option<Seq<char>>,
}

impl View for UserChanges {
    type V = UserChangesView;

    open spec fn view(&self) -> UserChangesView {
        UserChangesView {
            username: text_of(self.username),
            password: text_of(self.password),
            email: text_of(self.email),
            first_name: text_of(self.first_name),
            last_name: text_of(self.last_name),
        }
    }
}

/// The assignment that one column of an update gives rise to: none where the
/// column keeps its value.
pub open spec fn assigned(column: Column, value: Option<Seq<char>>) -> Seq<(Column, Seq<char>)> {
    match value {
        Some(text) => seq![(column, text)],
        None => Seq::empty(),
    }
}

/// The columns of a list of assignments.
pub open spec fn columns_of(assignments: Seq<(Column, Seq<char>)>) -> Seq<Column> {
    assignments.map_values(|a: (Column, Seq<char>)| a.0)
}

/// The values of a list of assignments.
pub open spec fn values_of(assignments: Seq<(Column, Seq<char>)>) -> Seq<Seq<char>> {
    assignments.map_values(|a: (Column, Seq<char>)| a.1)
}

impl UserChangesView {
    /// The columns that change, each with its new value, in the order of
    /// the table's columns.
    pub open spec fn assignments(self) -> Seq<(Column, Seq<char>)> {
        assigned(Column::Username, self.username) + assigned(Column::Password, self.password)
            + assigned(Column::Email, self.email) + assigned(Column::FirstName, self.first_name)
            + assigned(Column::LastName, self.last_name)
    }

    /// The record after the update, given the record before it: a column
    /// that is named takes the new value, every other keeps its own, and
    /// the identifier stays.
    pub open spec fn applied_to(self, user: UserView) -> UserView {
        UserView {
            id: user.id,
            username: self.username.unwrap_or(user.username),
            password: self.password.unwrap_or(user.password),
            email: self.email.unwrap_or(user.email),
            first_name: self.first_name.unwrap_or(user.first_name),
            last_name: self.last_name.unwrap_or(user.last_name),
        }
    }
}

/// The placeholder with the number `n`, for `1 <= n <= 9`.
pub open spec fn placeholder(n: int) -> Seq<char> {
    seq!['$', (n + 48) as char]
}

/// One assignment of a set-list: the column, and the placeholder that its
/// new value is bound to.
pub open spec fn assignment_text(column: Column, n: int) -> Seq<char> {
    column.name() + " = "@ + placeholder(n)
}

/// The set-list of an update that writes `columns`: the assignments with
/// `, ` between them, the first bound to `$2`, the next to `$3`, and so on.
pub open spec fn set_list(columns: Seq<Column>) -> Seq<char>
    decreases columns.len(),
{
    if columns.len() == 0 {
        Seq::empty()
    } else if columns.len() == 1 {
        assignment_text(columns[0], 2)
    } else {
        set_list(columns.drop_last()) + ", "@ + assignment_text(
            columns.last(),
            columns.len() as int + 1,
        )
    }
}

/// The text of the statement that stores a new user.
pub open spec fn insert_sql() -> Seq<char> {
    "INSERT INTO users (id, username, password, email, first_name, last_name) VALUES ($1, $2, $3, $4, $5, $6) RETURNING id, username, password, email, first_name, last_name"@
}

/// The text of the statement that fetches a user.
pub open spec fn select_sql() -> Seq<char> {
    "SELECT * FROM users WHERE id = $1"@
}

/// The text of the statement that writes `columns` of a user, for at least
/// one column.
pub open spec fn update_sql(columns: Seq<Column>) -> Seq<char> {
    "UPDATE users SET "@ + set_list(columns)
        + " WHERE id = $1 RETURNING id, username, password, email, first_name, last_name"@
}

/// The statement that stores `user`.
pub open spec fn insert_statement(user: UserView) -> StatementView {
    StatementView {
        sql: insert_sql(),
        id: user.id,
        params: seq![user.username, user.password, user.email, user.first_name, user.last_name],
    }
}

/// The statement that fetches the user with the identifier `id`.
pub open spec fn select_statement(id: u128) -> StatementView {
    StatementView { sql: select_sql(), id, params: Seq::empty() }
}

/// The statement of a partial update of the user with the identifier `id`.
/// It writes the columns that change and no other. Where no column changes
/// there is nothing to write, and the statement fetches the user.
pub open spec fn update_statement(id: u128, changes: UserChangesView) -> StatementView {
    let assignments = changes.assignments();
    if assignments.len() == 0 {
        select_statement(id)
    } else {
        StatementView {
            sql: update_sql(columns_of(assignments)),
            id,
            params: values_of(assignments),
        }
    }
}

/// What one more column adds to a set-list.
proof fn lemma_set_list_push(columns: Seq<Column>, column: Column)
    ensures
        set_list(columns.push(column)) == set_list(columns) + (if columns.len() == 0 {
            Seq::<char>::empty()
        } else {
            ", "@
        }) + assignment_text(column, columns.len() as int + 2),
{
    let longer = columns.push(column);
    assert(longer.drop_last() =~= columns);
    assert(longer.last() == column);
    if columns.len() == 0 {
        assert(longer[0] == column);
        assert(set_list(columns) + Seq::<char>::empty() + assignment_text(column, 2)
            =~= assignment_text(column, 2));
    }
}

/// The placeholder for the parameter with the number `n`.
fn placeholder_str(n: usize) -> (text: &'static str)
    requires
        2 <= n <= 6,
    ensures
        text@ == placeholder(n as int),
{
    proof {
        reveal_strlit("$2");
        reveal_strlit("$3");
        reveal_strlit("$4");
        reveal_strlit("$5");
        reveal_strlit("$6");
    }
    let text = if n == 2 {
        "$2"
    } else if n == 3 {
        "$3"
    } else if n == 4 {
        "$4"
    } else if n == 5 {
        "$5"
    } else {
        "$6"
    };
    assert(text@ =~= placeholder(n as int));
    text
}

/// Adds one assignment to a set-list under construction, and its value to
/// the parameters.
fn push_assignment(sql: &mut String, params: &mut Vec<String>, column: Column, value: String)
    requires
        old(params).len() < 5,
    ensures
        final(params)@ == old(params)@.push(value),
        final(sql)@ == old(sql)@ + (if old(params).len() == 0 {
            Seq::<char>::empty()
        } else {
            ", "@
        }) + assignment_text(column, old(params).len() as int + 2),
{
    if params.len() > 0 {
        sql.append(", ");
    }
    sql.append(column.as_str());
    sql.append(" = ");
    sql.append(placeholder_str(params.len() + 2));
    params.push(value);
    assert(sql@ =~= old(sql)@ + (if old(params).len() == 0 {
        Seq::<char>::empty()
    } else {
        ", "@
    }) + assignment_text(column, old(params).len() as int + 2));
}

/// The statement that stores a new user: one `INSERT` that carries the six
/// column values and returns the row.
pub fn insert_user(user: User) -> (statement: Statement)
    ensures
        statement@ == insert_statement(user@),
{
    let mut params: Vec<String> = Vec::new();
    params.push(user.username);
    params.push(user.password);
    params.push(user.email);
    params.push(user.first_name);
    params.push(user.last_name);
    let statement = Statement {
        sql: String::from_str(
            "INSERT INTO users (id, username, password, email, first_name, last_name) VALUES ($1, $2, $3, $4, $5, $6) RETURNING id, username, password, email, first_name, last_name",
        ),
        id: user.id,
        params,
    };
    assert(statement@.params =~= insert_statement(user@).params);
    statement
}

/// The statement that fetches a user by identifier.
pub fn select_user(id: u128) -> (statement: Statement)
    ensures
        statement@ == select_statement(id),
{
    let statement = Statement {
        sql: String::from_str("SELECT * FROM users WHERE id = $1"),
        id,
        params: Vec::new(),
    };
    assert(statement@.params =~= select_statement(id).params);
    statement
}

/// Takes one column of an update into a statement under construction: where
/// the column changes, its assignment joins the set-list and its value the
/// parameters.
fn take_column(
    sql: &mut String,
    params: &mut Vec<String>,
    column: Column,
    value: Option<String>,
    Ghost(done): Ghost<Seq<(Column, Seq<char>)>>,
) -> (now_done: Ghost<Seq<(Column, Seq<char>)>>)
    requires
        old(params).len() < 5,
        old(sql)@ == "UPDATE users SET "@ + set_list(columns_of(done)),
        texts(old(params)@) == values_of(done),
    ensures
        now_done@ == done + assigned(column, text_of(value)),
        final(sql)@ == "UPDATE users SET "@ + set_list(columns_of(now_done@)),
        texts(final(params)@) == values_of(now_done@),
        final(params).len() <= old(params).len() + 1,
{
    match value {
        Some(text) => {
            let ghost now_done = done.push((column, text@));
            proof {
                assert(texts(params@).len() == params@.len());
                lemma_set_list_push(columns_of(done), column);
                assert(columns_of(now_done) =~= columns_of(done).push(column));
                assert(values_of(now_done) =~= values_of(done).push(text@));
                assert(now_done =~= done + assigned(column, Some(text@)));
            }
            push_assignment(sql, params, column, text);
            proof {
                assert(texts(params@) =~= values_of(now_done));
                assert(sql@ =~= "UPDATE users SET "@ + set_list(columns_of(now_done)));
            }
            Ghost(now_done)
        },
        None => {
            proof {
                assert(done + assigned(column, None) =~= done);
            }
            Ghost(done)
        },
    }
}

/// The statement of a partial update: one `UPDATE` that sets the columns
/// that change and returns the row, or, where no column changes, the
/// statement that fetches the row.
pub fn update_user(id: u128, changes: UserChanges) -> (statement: Statement)
    ensures
        statement@ == update_statement(id, changes@),
{
    let mut sql = String::from_str("UPDATE users SET ");
    let mut params: Vec<String> = Vec::new();
    let ghost none: Seq<(Column, Seq<char>)> = Seq::empty();
    proof {
        assert(sql@ =~= "UPDATE users SET "@ + set_list(columns_of(none)));
        assert(texts(params@) =~= values_of(none));
    }
    let done = take_column(&mut sql, &mut params, Column::Username, changes.username, Ghost(none));
    let done = take_column(&mut sql, &mut params, Column::Password, changes.password, done);
    let done = take_column(&mut sql, &mut params, Column::Email, changes.email, done);
    let done = take_column(&mut sql, &mut params, Column::FirstName, changes.first_name, done);
    let done = take_column(&mut sql, &mut params, Column::LastName, changes.last_name, done);
    proof {
        assert(done@ =~= changes@.assignments());
        assert(texts(params@).len() == params@.len());
    }
    if params.len() == 0 {
        select_user(id)
    } else {
        sql.append(" WHERE id = $1 RETURNING id, username, password, email, first_name, last_name");
        Statement { sql, id, params }
    }
}

/// The row after one assignment of a set-list.
pub open spec fn assign(user: UserView, column: Column, value: Seq<char>) -> UserView {
    match column {
        Column::Username => UserView { username: value, ..user },
        Column::Password => UserView { password: value, ..user },
        Column::Email => UserView { email: value, ..user },
        Column::FirstName => UserView { first_name: value, ..user },
        Column::LastName => UserView { last_name: value, ..user },
    }
}

/// The row after the assignments of a set-list: what an `UPDATE` with that
/// set-list makes of the row that it matches.
pub open spec fn assign_all(user: UserView, assignments: Seq<(Column, Seq<char>)>) -> UserView
    decreases assignments.len(),
{
    if assignments.len() == 0 {
        user
    } else {
        assign(
            assign_all(user, assignments.drop_last()),
            assignments.last().0,
            assignments.last().1,
        )
    }
}

/// What one more column of an update does to the row.
proof fn lemma_assign_all_assigned(
    user: UserView,
    done: Seq<(Column, Seq<char>)>,
    column: Column,
    value: Option<Seq<char>>,
)
    ensures
        assign_all(user, done + assigned(column, value)) == (match value {
            Some(text) => assign(assign_all(user, done), column, text),
            None => assign_all(user, done),
        }),
{
    let all = done + assigned(column, value);
    match value {
        Some(text) => {
            assert(all.drop_last() =~= done);
            assert(all.last() == (column, text));
        },
        None => {
            assert(all =~= done);
        },
    }
}

/// A partial update writes the columns that it names and no other: the
/// set-list makes of a row exactly the row with the new values in place,
/// the identifier stays, and a column without a new value keeps its own.
pub proof fn lemma_update_writes_named_columns_only(changes: UserChangesView, user: UserView)
    ensures
        assign_all(user, changes.assignments()) == changes.applied_to(user),
        changes.applied_to(user).id == user.id,
        changes.username is None ==> changes.applied_to(user).username == user.username,
        changes.password is None ==> changes.applied_to(user).password == user.password,
        changes.email is None ==> changes.applied_to(user).email == user.email,
        changes.first_name is None ==> changes.applied_to(user).first_name == user.first_name,
        changes.last_name is None ==> changes.applied_to(user).last_name == user.last_name,
{
    let none: Seq<(Column, Seq<char>)> = Seq::empty();
    let one = assigned(Column::Username, changes.username);
    let two = one + assigned(Column::Password, changes.password);
    let three = two + assigned(Column::Email, changes.email);
    let four = three + assigned(Column::FirstName, changes.first_name);
    assert(none + one =~= one);
    lemma_assign_all_assigned(user, none, Column::Username, changes.username);
    lemma_assign_all_assigned(user, one, Column::Password, changes.password);
    lemma_assign_all_assigned(user, two, Column::Email, changes.email);
    lemma_assign_all_assigned(user, three, Column::FirstName, changes.first_name);
    lemma_assign_all_assigned(user, four, Column::LastName, changes.last_name);
}

} // verus!
