use vstd::prelude::*;
use crate::app_error::AppError;
use crate::db::{
    PlayerStore, Row, create_player, delete_player_by_token, get_player_by_token, has_token,
    list_players, lookup, player_exists, row_pv, update_player_name,
};
use crate::http::Response;
use crate::json::{
    bool_json, player_json, players_json, spec_bool_json, spec_player_json, spec_players_json,
};
use crate::player::Player;
use crate::token::is_uuid_v4_hyphenated;

verus! {

/// The decoded body of `POST /players`.
pub struct CreatePlayerPayload {
    pub name: String,
}

/// The decoded body of `PUT /players/{token}`.
pub struct UpdatePlayerPayload {
    pub new_name: String,
}

/// The 200 answer carrying one player's JSON.
pub fn player_response(p: &Player) -> (r: Response)
    ensures
        r.status == 200,
        r.body@ == spec_player_json(p@),
{
    Response { status: 200, body: player_json(p) }
}

/// The 200 answer carrying the JSON array of players.
pub fn players_response(ps: &Vec<Player>) -> (r: Response)
    ensures
        r.status == 200,
        r.body@ == spec_players_json(ps@.map_values(|p: Player| p@)),
{
    Response { status: 200, body: players_json(ps) }
}

/// The 200 answer carrying the bare boolean of the existence probe.
pub fn exists_response(present: bool) -> (r: Response)
    ensures
        r.status == 200,
        r.body@ == spec_bool_json(present),
{
    Response { status: 200, body: bool_json(present) }
}

/// The bodiless 204 answer of the write operations.
pub fn no_content_response() -> (r: Response)
    ensures
        r.status == 204,
        r.body@.len() == 0,
{
    Response { status: 204, body: String::new() }
}

/// `POST /players`: create a player from the decoded body and answer 200
/// with the new player's JSON; a failure propagates unchanged, for the
/// uniform error response.  Wherever no stored token has the drawn token's
/// fixed length — in particular over an empty table — creation must
/// succeed and the answer is owed.
pub fn create_player_handler(store: &mut PlayerStore, payload: &CreatePlayerPayload) -> (r: Result<
    Response,
    AppError,
>)
    requires
        old(store).wf(),
        old(store).next_id < i64::MAX,
    ensures
        final(store).wf(),
        (forall|i: int| 0 <= i < old(store).rows@.len() ==> old(store).rows@[i].token@.len() != 36)
            ==> r is Ok,
        r matches Ok(resp) ==> ({
            &&& resp.status == 200
            &&& final(store).rows@.len() == old(store).rows@.len() + 1
            &&& (forall|i: int|
                0 <= i < old(store).rows@.len() ==> final(store).rows@[i] == old(store).rows@[i])
            &&& final(store).next_id == old(store).next_id + 1
            &&& row_pv(final(store).rows@.last()).name == payload.name@
            &&& is_uuid_v4_hyphenated(row_pv(final(store).rows@.last()).token)
            &&& !has_token(old(store).rows@, row_pv(final(store).rows@.last()).token)
            &&& resp.body@ == spec_player_json(row_pv(final(store).rows@.last()))
        }),
        r matches Err(e) ==> *final(store) == *old(store) && (e matches AppError::SqlxError(m)
            && m@ == "UNIQUE constraint failed: players.token"@),
{
    let p = match create_player(store, payload.name.as_str()) {
        Ok(p) => p,
        Err(e) => { return Err(e) },
    };
    Ok(player_response(&p))
}

/// `GET /players/{token}`: answer 200 with the matching player's JSON, or
/// propagate the storage failure of a token no row carries, unchanged.
pub fn get_player_handler(store: &PlayerStore, token: &str) -> (r: Result<Response, AppError>)
    ensures
        r is Ok <==> has_token(store.rows@, token@),
        r matches Ok(resp) ==> ({
            &&& resp.status == 200
            &&& lookup(store.rows@, token@) matches Some(p) && resp.body@ == spec_player_json(p)
        }),
        r matches Err(e) ==> e matches AppError::SqlxError(m) && m@
            == "no rows returned by a query that expected to return at least one row"@,
{
    let p = match get_player_by_token(store, token) {
        Ok(p) => p,
        Err(e) => { return Err(e) },
    };
    Ok(player_response(&p))
}

/// `GET /players/{token}/exists`: always 200, the body the bare boolean.
pub fn player_exists_handler(store: &PlayerStore, token: &str) -> (r: Result<Response, AppError>)
    ensures
        r matches Ok(resp) && resp.status == 200 && resp.body@ == spec_bool_json(
            has_token(store.rows@, token@),
        ),
{
    let b = match player_exists(store, token) {
        Ok(b) => b,
        Err(e) => { return Err(e) },
    };
    Ok(exists_response(b))
}

/// `GET /players`: always 200, the body the JSON array of every player in
/// storage order.
pub fn list_players_handler(store: &PlayerStore) -> (r: Result<Response, AppError>)
    ensures
        r matches Ok(resp) && resp.status == 200 && resp.body@ == spec_players_json(
            store.rows@.map_values(|row: Row| row_pv(row)),
        ),
{
    let ps = match list_players(store) {
        Ok(ps) => ps,
        Err(e) => { return Err(e) },
    };
    proof {
        assert(ps@.map_values(|p: Player| p@) =~= store.rows@.map_values(|row: Row| row_pv(row)));
    }
    Ok(players_response(&ps))
}

/// `PUT /players/{token}`: rename every matching row and answer 204 with no
/// body; an unknown token is still 204, the silent no-op of the store.
pub fn update_player_name_handler(
    store: &mut PlayerStore,
    token: &str,
    payload: &UpdatePlayerPayload,
) -> (r: Result<Response, AppError>)
    requires
        old(store).wf(),
    ensures
        final(store).wf(),
        r matches Ok(resp) && resp.status == 204 && resp.body@.len() == 0,
        final(store).rows@.len() == old(store).rows@.len(),
        final(store).next_id == old(store).next_id,
        forall|i: int|
            0 <= i < old(store).rows@.len() ==> (if old(store).rows@[i].token@ == token@ {
                final(store).rows@[i].id == old(store).rows@[i].id && final(store).rows@[i].token@
                    == old(store).rows@[i].token@ && final(store).rows@[i].name@
                    == payload.new_name@
            } else {
                final(store).rows@[i] == old(store).rows@[i]
            }),
{
    match update_player_name(store, token, payload.new_name.as_str()) {
        Ok(_) => (),
        Err(e) => { return Err(e) },
    };
    Ok(no_content_response())
}

/// `DELETE /players/{token}`: remove every matching row and answer 204 with
/// no body; an unknown token is still 204, the silent no-op of the store.
pub fn delete_player_handler(store: &mut PlayerStore, token: &str) -> (r: Result<
    Response,
    AppError,
>)
    requires
        old(store).wf(),
    ensures
        final(store).wf(),
        r matches Ok(resp) && resp.status == 204 && resp.body@.len() == 0,
        final(store).rows@ == old(store).rows@.filter(|row: Row| row.token@ != token@),
        final(store).next_id == old(store).next_id,
{
    match delete_player_by_token(store, token) {
        Ok(_) => (),
        Err(e) => { return Err(e) },
    };
    Ok(no_content_response())
}

} // verus!
