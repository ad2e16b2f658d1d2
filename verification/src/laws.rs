use vstd::prelude::*;
use crate::db::{Row, has_token, lookup, row_pv, lemma_lookup_at, lemma_lookup_none};
use crate::player::PlayerV;

verus! {

/// After `create` pushes a row whose token was not yet present, fetching
/// that token finds exactly that row: the same name and the same id.
pub proof fn lemma_create_then_get(rows: Seq<Row>, row: Row)
    requires
        !has_token(rows, row.token@),
    ensures
        lookup(rows.push(row), row.token@) == Some(row_pv(row)),
{
    let t = row.token@;
    let rs = rows.push(row);
    assert forall|j: int| 0 <= j < rows.len() implies rs[j].token@ != t by {
        if rs[j].token@ == t {
            assert(rows[j].token@ == t);
            assert(has_token(rows, t));
        }
    }
    lemma_lookup_at(rs, t, rows.len() as int);
}

/// A token is reported present immediately after the row bearing it is
/// added, and a token that no row ever carried stays absent.
pub proof fn lemma_exists_after_create(rows: Seq<Row>, row: Row, t: Seq<char>)
    ensures
        has_token(rows.push(row), row.token@),
        t != row.token@ && !has_token(rows, t) ==> !has_token(rows.push(row), t),
{
    let rs = rows.push(row);
    assert(rs[rows.len() as int].token@ == row.token@);
    if t != row.token@ && !has_token(rows, t) {
        assert(!has_token(rs, t)) by {
            if has_token(rs, t) {
                let w = choose|w: int| 0 <= w < rs.len() && rs[w].token@ == t;
                if w < rows.len() {
                    assert(rows[w].token@ == t);
                    assert(has_token(rows, t));
                }
            }
        }
    }
}

/// Listing a table of distinct tokens yields as many players as rows, and
/// the set of the listed tokens is exactly the set of tokens stored —
/// order plays no part in the statement.
pub proof fn lemma_list_tokens(rows: Seq<Row>, players: Seq<PlayerV>)
    requires
        players.len() == rows.len(),
        forall|i: int| 0 <= i < rows.len() ==> players[i] == row_pv(rows[i]),
        forall|i: int, j: int| 0 <= i < j < rows.len() ==> rows[i].token@ != rows[j].token@,
    ensures
        players.map_values(|p: PlayerV| p.token).to_set() == rows.map_values(
            |row: Row| row.token@,
        ).to_set(),
        players.map_values(|p: PlayerV| p.token).to_set().len() == rows.len(),
{
    let pt = players.map_values(|p: PlayerV| p.token);
    let rt = rows.map_values(|row: Row| row.token@);
    assert(pt =~= rt);
    assert(rt.no_duplicates());
    rt.unique_seq_to_set();
}

/// Renaming by token and then fetching the same token shows the new name
/// with the id unchanged, and renaming a token that no row carries leaves
/// every row exactly as it was.
pub proof fn lemma_update_then_get(
    old_rows: Seq<Row>,
    new_rows: Seq<Row>,
    t: Seq<char>,
    n: Seq<char>,
)
    requires
        new_rows.len() == old_rows.len(),
        forall|i: int|
            0 <= i < old_rows.len() ==> (if old_rows[i].token@ == t {
                new_rows[i].id == old_rows[i].id && new_rows[i].token@ == old_rows[i].token@
                    && new_rows[i].name@ == n
            } else {
                new_rows[i] == old_rows[i]
            }),
    ensures
        lookup(new_rows, t) == (match lookup(old_rows, t) {
            Some(p) => Some(PlayerV { id: p.id, name: n, token: p.token }),
            None => None,
        }),
        !has_token(old_rows, t) ==> new_rows == old_rows,
    decreases old_rows.len(),
{
    if old_rows.len() > 0 {
        assert(new_rows[0].token@ == old_rows[0].token@);
        assert(forall|i: int|
            0 <= i < old_rows.drop_first().len() ==> old_rows.drop_first()[i] == old_rows[i + 1]
                && new_rows.drop_first()[i] == new_rows[i + 1]);
        lemma_update_then_get(old_rows.drop_first(), new_rows.drop_first(), t, n);
        if old_rows[0].token@ == t {
            assert(lookup(new_rows, t) == Some(row_pv(new_rows[0])));
            assert(lookup(old_rows, t) == Some(row_pv(old_rows[0])));
        }
        if !has_token(old_rows, t) {
            assert(old_rows[0].token@ != t) by {
                if old_rows[0].token@ == t {
                    assert(has_token(old_rows, t));
                }
            }
            assert(!has_token(old_rows.drop_first(), t)) by {
                if has_token(old_rows.drop_first(), t) {
                    let w = choose|w: int|
                        0 <= w < old_rows.drop_first().len() && old_rows.drop_first()[w].token@
                            == t;
                    assert(old_rows[w + 1].token@ == t);
                    assert(has_token(old_rows, t));
                }
            }
            assert(new_rows =~= old_rows);
        }
    }
}

proof fn lemma_filter_of_satisfying(s: Seq<Row>, pred: spec_fn(Row) -> bool)
    requires
        forall|j: int| 0 <= j < s.len() ==> pred(s[j]),
    ensures
        s.filter(pred) == s,
    decreases s.len(),
{
    reveal_with_fuel(Seq::filter, 2);
    if s.len() == 0 {
        assert(s.filter(pred) =~= s);
    } else {
        assert(forall|j: int| 0 <= j < s.drop_last().len() ==> s.drop_last()[j] == s[j]);
        lemma_filter_of_satisfying(s.drop_last(), pred);
        assert(pred(s.last()));
        assert(s.filter(pred) =~= s.drop_last().filter(pred).push(s.last()));
        assert(s.drop_last().push(s.last()) =~= s);
    }
}

/// After `delete` removes the rows carrying a token, fetching that token
/// fails, and a second `delete` of the same token changes nothing.
pub proof fn lemma_delete_then_get(rows: Seq<Row>, t: Seq<char>)
    ensures
        lookup(rows.filter(|row: Row| row.token@ != t), t) is None,
        rows.filter(|row: Row| row.token@ != t).filter(|row: Row| row.token@ != t) == rows.filter(
            |row: Row| row.token@ != t,
        ),
{
    let pred = |row: Row| row.token@ != t;
    let f = rows.filter(pred);
    assert forall|j: int| 0 <= j < f.len() implies f[j].token@ != t by {
        rows.lemma_filter_pred(pred, j);
    }
    lemma_lookup_none(f, t);
    lemma_filter_of_satisfying(f, pred);
}

} // verus!
