use vstd::prelude::*;

verus! {

/// One parameterized SQL statement, ready for the driver: the text with
/// `?` placeholders, and the parameters in binding order.  Every statement
/// the service issues against the `players` table is built here, so the
/// surrounding server never writes SQL of its own.
pub struct Statement {
    pub sql: &'static str,
    pub params: Vec<String>,
}

/// The insert issued by `create`.
pub fn insert_player_statement(name: &str, token: &str) -> (r: Statement)
    ensures
        r.sql@ == "INSERT INTO players (name, token) VALUES (?, ?)"@,
        r.params@.len() == 2,
        r.params@[0]@ == name@,
        r.params@[1]@ == token@,
{
    let mut params: Vec<String> = Vec::new();
    params.push(String::from_str(name));
    params.push(String::from_str(token));
    Statement { sql: "INSERT INTO players (name, token) VALUES (?, ?)", params }
}

/// The single-row read issued by `get_by_token`, and by `create` to re-read
/// the inserted row.
pub fn select_player_by_token_statement(token: &str) -> (r: Statement)
    ensures
        r.sql@ == "SELECT id, name, token FROM players WHERE token = ?"@,
        r.params@.len() == 1,
        r.params@[0]@ == token@,
{
    let mut params: Vec<String> = Vec::new();
    params.push(String::from_str(token));
    Statement { sql: "SELECT id, name, token FROM players WHERE token = ?", params }
}

/// The existence probe issued by `exists`.
pub fn player_exists_statement(token: &str) -> (r: Statement)
    ensures
        r.sql@ == "SELECT EXISTS(SELECT 1 FROM players WHERE token = ?)"@,
        r.params@.len() == 1,
        r.params@[0]@ == token@,
{
    let mut params: Vec<String> = Vec::new();
    params.push(String::from_str(token));
    Statement { sql: "SELECT EXISTS(SELECT 1 FROM players WHERE token = ?)", params }
}

/// The full read issued by `list`; deliberately without `ORDER BY`, the
/// order is the storage engine's own.
pub fn list_players_statement() -> (r: Statement)
    ensures
        r.sql@ == "SELECT id, name, token FROM players"@,
        r.params@.len() == 0,
{
    Statement { sql: "SELECT id, name, token FROM players", params: Vec::new() }
}

/// The write issued by `update_name`; parameters in binding order, the new
/// name before the token.
pub fn update_player_name_statement(new_name: &str, token: &str) -> (r: Statement)
    ensures
        r.sql@ == "UPDATE players SET name = ? WHERE token = ?"@,
        r.params@.len() == 2,
        r.params@[0]@ == new_name@,
        r.params@[1]@ == token@,
{
    let mut params: Vec<String> = Vec::new();
    params.push(String::from_str(new_name));
    params.push(String::from_str(token));
    Statement { sql: "UPDATE players SET name = ? WHERE token = ?", params }
}

/// The write issued by `delete`.
pub fn delete_player_statement(token: &str) -> (r: Statement)
    ensures
        r.sql@ == "DELETE FROM players WHERE token = ?"@,
        r.params@.len() == 1,
        r.params@[0]@ == token@,
{
    let mut params: Vec<String> = Vec::new();
    params.push(String::from_str(token));
    Statement { sql: "DELETE FROM players WHERE token = ?", params }
}

} // verus!
