use vstd::prelude::*;
use vstd::pervasive::VecAdditionalExecFns;
use crate::app_error::AppError;
use crate::player::{Player, PlayerV};
use crate::token::{fresh_token, is_uuid_v4_hyphenated};

verus! {

/// A persisted row of the `players` table.
pub struct Row {
    pub id: i64,
    pub name: String,
    pub token: String,
}

/// The abstract value a stored row presents to clients.
pub open spec fn row_pv(row: Row) -> PlayerV {
    PlayerV { id: Some(row.id as int), name: row.name@, token: row.token@ }
}

/// Whether some row carries the token `t`.
pub open spec fn has_token(rows: Seq<Row>, t: Seq<char>) -> bool {
    exists|i: int| 0 <= i < rows.len() && rows[i].token@ == t
}

/// The first row carrying `t`, as the single-row read returns it; under
/// the store's invariant at most one row can match.
pub open spec fn lookup(rows: Seq<Row>, t: Seq<char>) -> Option<PlayerV>
    decreases rows.len(),
{
    if rows.len() == 0 {
        None
    } else if rows[0].token@ == t {
        Some(row_pv(rows[0]))
    } else {
        lookup(rows.drop_first(), t)
    }
}

pub proof fn lemma_lookup_at(rows: Seq<Row>, t: Seq<char>, i: int)
    requires
        0 <= i < rows.len(),
        rows[i].token@ == t,
        forall|j: int| 0 <= j < i ==> rows[j].token@ != t,
    ensures
        lookup(rows, t) == Some(row_pv(rows[i])),
    decreases rows.len(),
{
    if i > 0 {
        assert(rows.drop_first()[i - 1] == rows[i]);
        assert(forall|j: int| 0 <= j < i - 1 ==> rows.drop_first()[j] == rows[j + 1]);
        lemma_lookup_at(rows.drop_first(), t, i - 1);
    }
}

pub proof fn lemma_lookup_none(rows: Seq<Row>, t: Seq<char>)
    requires
        forall|j: int| 0 <= j < rows.len() ==> rows[j].token@ != t,
    ensures
        lookup(rows, t) is None,
    decreases rows.len(),
{
    if rows.len() > 0 {
        assert(forall|j: int|
            0 <= j < rows.drop_first().len() ==> rows.drop_first()[j] == rows[j + 1]);
        lemma_lookup_none(rows.drop_first(), t);
    }
}

/// The players table as this service sees it: the rows in storage order,
/// and the id the storage engine will assign next.
pub struct PlayerStore {
    pub rows: Vec<Row>,
    pub next_id: i64,
}

impl PlayerStore {
    /// The store's invariant: tokens are unique, ids strictly increase in
    /// storage order, and every id is below the one assigned next.
    pub open spec fn wf(self) -> bool {
        &&& forall|i: int, j: int|
            0 <= i < j < self.rows@.len() ==> self.rows@[i].token@ != self.rows@[j].token@
        &&& forall|i: int, j: int|
            0 <= i < j < self.rows@.len() ==> self.rows@[i].id < self.rows@[j].id
        &&& forall|i: int| 0 <= i < self.rows@.len() ==> self.rows@[i].id < self.next_id
    }

    /// An empty table; ids start at 1, as the storage engine assigns them.
    pub fn new() -> (r: PlayerStore)
        ensures
            r.wf(),
            r.rows@.len() == 0,
            r.next_id == 1,
    {
        PlayerStore { rows: Vec::new(), next_id: 1 }
    }
}

/// The single-row read `SELECT id, name, token FROM players WHERE token = ?`:
/// the unique row carrying the token, or the storage engine's no-row failure
/// when none does.
pub fn get_player_by_token(store: &PlayerStore, token: &str) -> (r: Result<Player, AppError>)
    ensures
        r is Ok <==> has_token(store.rows@, token@),
        r matches Ok(p) ==> lookup(store.rows@, token@) == Some(p@),
        r matches Err(e) ==> e matches AppError::SqlxError(m) && m@
            == "no rows returned by a query that expected to return at least one row"@,
{
    let token_s = String::from_str(token);
    let n = store.rows.len();
    let mut i: usize = 0;
    while i < n
        invariant
            n == store.rows@.len(),
            i <= n,
            token_s@ == token@,
            forall|j: int| 0 <= j < i ==> store.rows@[j].token@ != token@,
        decreases n - i,
    {
        if store.rows[i].token == token_s {
            let row = &store.rows[i];
            let p = Player { id: Some(row.id), name: row.name.clone(), token: row.token.clone() };
            proof {
                lemma_lookup_at(store.rows@, token@, i as int);
                assert(has_token(store.rows@, token@));
                assert(p@ == row_pv(store.rows@[i as int]));
            }
            return Ok(p);
        }
        i = i + 1;
    }
    proof {
        lemma_lookup_none(store.rows@, token@);
        assert(!has_token(store.rows@, token@)) by {
            if has_token(store.rows@, token@) {
                let w = choose|w: int| 0 <= w < store.rows@.len() && store.rows@[w].token@ == token@;
                assert(store.rows@[w].token@ != token@);
            }
        }
    }
    Err(
        AppError::SqlxError(
            String::from_str("no rows returned by a query that expected to return at least one row"),
        ),
    )
}

/// The existence probe `SELECT EXISTS(SELECT 1 FROM players WHERE token = ?)`:
/// whether some row carries the token.  An absent token is a valid `false`,
/// never a failure.
pub fn player_exists(store: &PlayerStore, token: &str) -> (r: Result<bool, AppError>)
    ensures
        r matches Ok(b) && b == has_token(store.rows@, token@),
{
    let token_s = String::from_str(token);
    let n = store.rows.len();
    let mut i: usize = 0;
    while i < n
        invariant
            n == store.rows@.len(),
            i <= n,
            token_s@ == token@,
            forall|j: int| 0 <= j < i ==> store.rows@[j].token@ != token@,
        decreases n - i,
    {
        if store.rows[i].token == token_s {
            proof {
                assert(has_token(store.rows@, token@));
            }
            return Ok(true);
        }
        i = i + 1;
    }
    proof {
        assert(!has_token(store.rows@, token@)) by {
            if has_token(store.rows@, token@) {
                let w = choose|w: int| 0 <= w < store.rows@.len() && store.rows@[w].token@ == token@;
                assert(store.rows@[w].token@ != token@);
            }
        }
    }
    Ok(false)
}

/// Interprets the scalar the existence probe returns: the storage engine
/// answers 1 when some row matched and 0 when none did.
pub fn exists_from_scalar(found: i64) -> (r: bool)
    ensures
        r == (found == 1),
{
    found == 1
}

/// The full read `SELECT id, name, token FROM players`: every row, in
/// storage order, as a player value.  The order is the storage engine's own
/// and callers may not rely on it.
pub fn list_players(store: &PlayerStore) -> (r: Result<Vec<Player>, AppError>)
    ensures
        r matches Ok(ps) && ps@.len() == store.rows@.len() && (forall|i: int|
            0 <= i < store.rows@.len() ==> ps@[i]@ == row_pv(store.rows@[i])),
{
    let n = store.rows.len();
    let mut ps: Vec<Player> = Vec::new();
    let mut i: usize = 0;
    while i < n
        invariant
            n == store.rows@.len(),
            i <= n,
            ps@.len() == i,
            forall|j: int| 0 <= j < i ==> ps@[j]@ == row_pv(store.rows@[j]),
        decreases n - i,
    {
        let row = &store.rows[i];
        ps.push(Player { id: Some(row.id), name: row.name.clone(), token: row.token.clone() });
        i = i + 1;
    }
    Ok(ps)
}

/// The insert of `create` for a given token, then the re-read by that token:
/// `INSERT INTO players (name, token) VALUES (?, ?)` followed by the
/// single-row read.  Fails exactly when the token is already present, as the
/// unique constraint makes the insert fail; then the table is unchanged.
pub fn create_player_with_token(store: &mut PlayerStore, name: &str, token: &str) -> (r: Result<
    Player,
    AppError,
>)
    requires
        old(store).wf(),
        old(store).next_id < i64::MAX,
    ensures
        final(store).wf(),
        r is Ok <==> !has_token(old(store).rows@, token@),
        r matches Ok(p) ==> ({
            &&& p@ == (PlayerV { id: Some(old(store).next_id as int), name: name@, token: token@ })
            &&& final(store).rows@.len() == old(store).rows@.len() + 1
            &&& (forall|i: int|
                0 <= i < old(store).rows@.len() ==> final(store).rows@[i] == old(store).rows@[i])
            &&& row_pv(final(store).rows@.last()) == p@
            &&& final(store).next_id == old(store).next_id + 1
        }),
        r matches Err(e) ==> *final(store) == *old(store) && (e matches AppError::SqlxError(m)
            && m@ == "UNIQUE constraint failed: players.token"@),
{
    let already = match player_exists(store, token) {
        Ok(b) => b,
        Err(e) => { return Err(e) },
    };
    if already {
        return Err(AppError::SqlxError(String::from_str("UNIQUE constraint failed: players.token")));
    }
    let id = store.next_id;
    store.next_id = id + 1;
    let row = Row { id, name: String::from_str(name), token: String::from_str(token) };
    store.rows.push(row);
    proof {
        let rows = old(store).rows@;
        let rs = store.rows@;
        assert(forall|j: int| 0 <= j < rows.len() ==> rs[j] == rows[j]);
        assert forall|j: int| 0 <= j < rows.len() implies rs[j].token@ != token@ by {
            if rows[j].token@ == token@ {
                assert(has_token(rows, token@));
            }
        }
        assert(store.wf());
    }
    match get_player_by_token(store, token) {
        Ok(p) => {
            proof {
                let rows = old(store).rows@;
                let pushed = store.rows@.last();
                assert forall|j: int| 0 <= j < rows.len() implies store.rows@[j].token@
                    != token@ by {
                    if rows[j].token@ == token@ {
                        assert(has_token(rows, token@));
                    }
                }
                lemma_lookup_at(store.rows@, token@, rows.len() as int);
                assert(p@ == row_pv(pushed));
            }
            Ok(p)
        },
        Err(e) => {
            proof {
                assert(has_token(store.rows@, token@)) by {
                    assert(store.rows@.last().token@ == token@);
                }
                assert(false);
            }
            Err(e)
        },
    }
}

/// `create`: draws a fresh random token, inserts `(name, token)` and
/// re-reads the row to obtain the assigned id.  The token is random, so the
/// contract holds whichever token came back: on success the token was not
/// yet present and the one new row carries it; a collision surfaces as the
/// storage failure of the unique constraint and leaves the table unchanged.
/// A drawn token is always 36 characters, so wherever no stored token has
/// that length — in particular over an empty table — no collision is
/// possible and creation must succeed.
pub fn create_player(store: &mut PlayerStore, name: &str) -> (r: Result<Player, AppError>)
    requires
        old(store).wf(),
        old(store).next_id < i64::MAX,
    ensures
        final(store).wf(),
        (forall|i: int| 0 <= i < old(store).rows@.len() ==> old(store).rows@[i].token@.len() != 36)
            ==> r is Ok,
        r matches Ok(p) ==> ({
            &&& is_uuid_v4_hyphenated(p.token@)
            &&& !has_token(old(store).rows@, p.token@)
            &&& p@ == (PlayerV {
                id: Some(old(store).next_id as int),
                name: name@,
                token: p.token@,
            })
            &&& final(store).rows@.len() == old(store).rows@.len() + 1
            &&& (forall|i: int|
                0 <= i < old(store).rows@.len() ==> final(store).rows@[i] == old(store).rows@[i])
            &&& row_pv(final(store).rows@.last()) == p@
            &&& final(store).next_id == old(store).next_id + 1
        }),
        r matches Err(e) ==> *final(store) == *old(store) && (e matches AppError::SqlxError(m)
            && m@ == "UNIQUE constraint failed: players.token"@),
{
    let tok = fresh_token();
    proof {
        if forall|i: int| 0 <= i < old(store).rows@.len() ==> old(store).rows@[i].token@.len()
            != 36 {
            assert(!has_token(old(store).rows@, tok@)) by {
                if has_token(old(store).rows@, tok@) {
                    let w = choose|w: int|
                        0 <= w < old(store).rows@.len() && old(store).rows@[w].token@ == tok@;
                    assert(old(store).rows@[w].token@.len() != 36);
                }
            }
        }
    }
    create_player_with_token(store, name, tok.as_str())
}

/// The write `UPDATE players SET name = ? WHERE token = ?`: every matching
/// row takes the new name, every other row is untouched, and an unknown
/// token is a silent no-op, not a failure.
pub fn update_player_name(store: &mut PlayerStore, token: &str, new_name: &str) -> (r: Result<
    (),
    AppError,
>)
    requires
        old(store).wf(),
    ensures
        final(store).wf(),
        r is Ok,
        final(store).rows@.len() == old(store).rows@.len(),
        final(store).next_id == old(store).next_id,
        forall|i: int|
            0 <= i < old(store).rows@.len() ==> (if old(store).rows@[i].token@ == token@ {
                final(store).rows@[i].id == old(store).rows@[i].id && final(store).rows@[i].token@
                    == old(store).rows@[i].token@ && final(store).rows@[i].name@ == new_name@
            } else {
                final(store).rows@[i] == old(store).rows@[i]
            }),
{
    let token_s = String::from_str(token);
    let n = store.rows.len();
    let mut i: usize = 0;
    while i < n
        invariant
            n == store.rows@.len(),
            n == old(store).rows@.len(),
            store.next_id == old(store).next_id,
            i <= n,
            token_s@ == token@,
            forall|j: int| i <= j < n ==> store.rows@[j] == old(store).rows@[j],
            forall|j: int|
                0 <= j < i ==> (if old(store).rows@[j].token@ == token@ {
                    store.rows@[j].id == old(store).rows@[j].id && store.rows@[j].token@ == old(
                        store,
                    ).rows@[j].token@ && store.rows@[j].name@ == new_name@
                } else {
                    store.rows@[j] == old(store).rows@[j]
                }),
        decreases n - i,
    {
        if store.rows[i].token == token_s {
            let id = store.rows[i].id;
            let new_row = Row { id, name: String::from_str(new_name), token: token_s.clone() };
            store.rows.set(i, new_row);
        }
        i = i + 1;
    }
    proof {
        assert forall|a: int| 0 <= a < n implies store.rows@[a].token@ == old(store).rows@[a].token@
            && store.rows@[a].id == old(store).rows@[a].id by {}
        assert(store.wf());
    }
    Ok(())
}

/// The write `DELETE FROM players WHERE token = ?`: exactly the matching
/// rows disappear, and an unknown token is a silent no-op, not a failure.
pub fn delete_player_by_token(store: &mut PlayerStore, token: &str) -> (r: Result<(), AppError>)
    requires
        old(store).wf(),
    ensures
        final(store).wf(),
        r is Ok,
        final(store).rows@ == old(store).rows@.filter(|row: Row| row.token@ != token@),
        final(store).next_id == old(store).next_id,
{
    let token_s = String::from_str(token);
    let ghost orig = old(store).rows@;
    let mut i: usize = 0;
    let ghost mut k: int = 0;
    while i < store.rows.len()
        invariant
            store.wf(),
            store.next_id == old(store).next_id,
            orig == old(store).rows@,
            token_s@ == token@,
            0 <= k <= orig.len(),
            i as int == orig.take(k).filter(|row: Row| row.token@ != token@).len(),
            store.rows@ == orig.take(k).filter(|row: Row| row.token@ != token@) + orig.skip(k),
        decreases orig.len() - k,
    {
        let ghost pred = |row: Row| row.token@ != token@;
        proof {
            assert(orig.skip(k).len() > 0);
            assert(store.rows@[i as int] == orig.skip(k)[0]);
            assert(store.rows@[i as int] == orig[k]);
            assert(orig.take(k + 1).drop_last() =~= orig.take(k));
            assert(orig.take(k + 1).last() == orig[k]);
            reveal_with_fuel(Seq::filter, 2);
        }
        let ghost prev = store.rows@;
        if store.rows[i].token == token_s {
            store.rows.remove(i);
            proof {
                assert(!pred(orig[k]));
                assert(orig.take(k + 1).filter(pred) =~= orig.take(k).filter(pred));
                assert(orig.skip(k).drop_first() =~= orig.skip(k + 1));
                assert(store.rows@ =~= prev.subrange(0, i as int) + prev.subrange(
                    i + 1,
                    prev.len() as int,
                ));
                assert(store.rows@ =~= orig.take(k + 1).filter(pred) + orig.skip(k + 1));
                // removing a row keeps the invariant: every surviving pair
                // was a pair of the previous state
                assert forall|a: int, b: int|
                    0 <= a < b < store.rows@.len() implies store.rows@[a].token@
                    != store.rows@[b].token@ && store.rows@[a].id < store.rows@[b].id by {
                    let a0 = if a < i as int { a } else { a + 1 };
                    let b0 = if b < i as int { b } else { b + 1 };
                    assert(store.rows@[a] == prev[a0]);
                    assert(store.rows@[b] == prev[b0]);
                }
                k = k + 1;
            }
        } else {
            i = i + 1;
            proof {
                assert(pred(orig[k]));
                assert(orig.take(k + 1).filter(pred) =~= orig.take(k).filter(pred).push(orig[k]));
                assert(store.rows@ =~= orig.take(k + 1).filter(pred) + orig.skip(k + 1));
                k = k + 1;
            }
        }
    }
    proof {
        assert(k == orig.len());
        assert(orig.take(k) =~= orig);
        assert(orig.skip(k) =~= Seq::<Row>::empty());
        assert(store.rows@ =~= orig.filter(|row: Row| row.token@ != token@));
    }
    Ok(())
}

} // verus!
