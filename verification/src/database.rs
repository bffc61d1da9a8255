//! The SQL the bot runs against its token database: which statements read a
//! token and which replace one.
use vstd::prelude::*;

use crate::string_views;

verus! {

/// The file that holds the token database.
pub const DATABASE_FILE: &'static str = "streamhooks.db";

/// The table of the application access token.
pub const APP_AUTH_TABLE: &'static str = "streamhooks_app_auth";

/// The table of the user access and refresh tokens.
pub const USER_AUTH_TABLE: &'static str = "streamhooks_user_auth";

/// The column of an access token.
pub const ACCESS_TOKEN_COLUMN: &'static str = "access_token";

/// The column of a refresh token.
pub const REFRESH_TOKEN_COLUMN: &'static str = "refresh_token";

/// Inserts an application access token.
pub const INSERT_APP_TOKEN_SQL: &'static str =
    "INSERT INTO streamhooks_app_auth (access_token) VALUES ( $1 )";

/// Inserts a user access token and its refresh token.
pub const INSERT_USER_TOKENS_SQL: &'static str =
    "INSERT INTO streamhooks_user_auth (access_token, refresh_token) VALUES ( $1, $2 )";

/// An SQL statement with the values bound to it, in order.
pub struct SqlStatement {
    pub sql: String,
    pub binds: Vec<String>,
}

/// The text and the bound values of a statement.
pub open spec fn statement_view(st: SqlStatement) -> (Seq<char>, Seq<Seq<char>>) {
    (st.sql@, string_views(st.binds@))
}

/// The texts and bound values of a list of statements.
pub open spec fn plan_view(plan: Seq<SqlStatement>) -> Seq<(Seq<char>, Seq<Seq<char>>)> {
    plan.map_values(|st: SqlStatement| statement_view(st))
}

/// The query that reads `column` of the first row of `table`.
pub open spec fn select_first_text(column: Seq<char>, table: Seq<char>) -> Seq<char> {
    "SELECT "@ + column + " FROM "@ + table + " LIMIT 1"@
}

/// The statement that empties `table`. The table's name is bound to it as a
/// value as well.
pub open spec fn clear_table_view(table: Seq<char>) -> (Seq<char>, Seq<Seq<char>>) {
    ("DELETE FROM "@ + table, seq![table])
}

/// The statements that replace the stored application token with `access`:
/// the table is emptied, then the token is inserted.
pub open spec fn app_token_plan(access: Seq<char>) -> Seq<(Seq<char>, Seq<Seq<char>>)> {
    seq![clear_table_view(APP_AUTH_TABLE@), (INSERT_APP_TOKEN_SQL@, seq![access])]
}

/// The statements that replace the stored user tokens with `access` and
/// `refresh`: the table is emptied, then both tokens are inserted in one row.
pub open spec fn user_tokens_plan(access: Seq<char>, refresh: Seq<char>) -> Seq<
    (Seq<char>, Seq<Seq<char>>),
> {
    seq![clear_table_view(USER_AUTH_TABLE@), (INSERT_USER_TOKENS_SQL@, seq![access, refresh])]
}

/// The query that reads `column` of the first row of `table`.
pub fn select_first_query(column: &str, table: &str) -> (sql: String)
    ensures
        sql@ == select_first_text(column@, table@),
{
    let mut sql = String::from_str("SELECT ");
    sql.append(column);
    sql.append(" FROM ");
    sql.append(table);
    sql.append(" LIMIT 1");
    sql
}

/// The statement that empties `table`.
pub fn clear_table_statement(table: &str) -> (st: SqlStatement)
    ensures
        statement_view(st) == clear_table_view(table@),
{
    let mut sql = String::from_str("DELETE FROM ");
    sql.append(table);
    let mut binds: Vec<String> = Vec::new();
    binds.push(String::from_str(table));
    assert(string_views(binds@) =~= seq![table@]);
    SqlStatement { sql, binds }
}

/// The query that reads the stored application access token.
pub fn app_auth_token_query() -> (sql: String)
    ensures
        sql@ == select_first_text(ACCESS_TOKEN_COLUMN@, APP_AUTH_TABLE@),
{
    select_first_query(ACCESS_TOKEN_COLUMN, APP_AUTH_TABLE)
}

/// The query that reads the stored user access token.
pub fn user_access_token_query() -> (sql: String)
    ensures
        sql@ == select_first_text(ACCESS_TOKEN_COLUMN@, USER_AUTH_TABLE@),
{
    select_first_query(ACCESS_TOKEN_COLUMN, USER_AUTH_TABLE)
}

/// The query that reads the stored user refresh token.
pub fn user_refresh_token_query() -> (sql: String)
    ensures
        sql@ == select_first_text(REFRESH_TOKEN_COLUMN@, USER_AUTH_TABLE@),
{
    select_first_query(REFRESH_TOKEN_COLUMN, USER_AUTH_TABLE)
}

/// The statements, to be run in order, that replace the stored application
/// token with `access_token`.
pub fn app_auth_token_store_plan(access_token: String) -> (plan: Vec<SqlStatement>)
    ensures
        plan_view(plan@) == app_token_plan(access_token@),
{
    let clear = clear_table_statement(APP_AUTH_TABLE);
    let mut binds: Vec<String> = Vec::new();
    binds.push(access_token);
    let insert = SqlStatement { sql: String::from_str(INSERT_APP_TOKEN_SQL), binds };
    let ghost insert_view = statement_view(insert);
    assert(insert_view.1 =~= seq![access_token@]);
    let mut plan: Vec<SqlStatement> = Vec::new();
    plan.push(clear);
    plan.push(insert);
    assert(plan_view(plan@) =~= app_token_plan(access_token@));
    plan
}

/// The statements, to be run in order, that replace the stored user tokens
/// with `access_token` and `refresh_token`.
pub fn user_auth_tokens_store_plan(access_token: String, refresh_token: String) -> (plan: Vec<
    SqlStatement,
>)
    ensures
        plan_view(plan@) == user_tokens_plan(access_token@, refresh_token@),
{
    let clear = clear_table_statement(USER_AUTH_TABLE);
    let mut binds: Vec<String> = Vec::new();
    binds.push(access_token);
    binds.push(refresh_token);
    let insert = SqlStatement { sql: String::from_str(INSERT_USER_TOKENS_SQL), binds };
    let ghost insert_view = statement_view(insert);
    assert(insert_view.1 =~= seq![access_token@, refresh_token@]);
    let mut plan: Vec<SqlStatement> = Vec::new();
    plan.push(clear);
    plan.push(insert);
    assert(plan_view(plan@) =~= user_tokens_plan(access_token@, refresh_token@));
    plan
}

/// Storing a token empties its table and then inserts one row that binds
/// exactly the new token(s), access token first; the queries that read a
/// token back read from the same table.
pub proof fn lemma_store_replaces_row(access: Seq<char>, refresh: Seq<char>)
    ensures
        app_token_plan(access).len() == 2,
        app_token_plan(access)[0] == clear_table_view(APP_AUTH_TABLE@),
        app_token_plan(access)[1].1 == seq![access],
        user_tokens_plan(access, refresh).len() == 2,
        user_tokens_plan(access, refresh)[0] == clear_table_view(USER_AUTH_TABLE@),
        user_tokens_plan(access, refresh)[1].1 == seq![access, refresh],
        clear_table_view(APP_AUTH_TABLE@).0 == "DELETE FROM "@ + APP_AUTH_TABLE@,
        clear_table_view(USER_AUTH_TABLE@).0 == "DELETE FROM "@ + USER_AUTH_TABLE@,
{
}

} // verus!
