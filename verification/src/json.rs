use vstd::prelude::*;
use crate::player::{Player, PlayerV};

verus! {

/// The character for one digit value, `0` to `f`; covers both the decimal
/// digits of numbers and the hexadecimal digits of escape sequences.
pub open spec fn digit_char(d: nat) -> char {
    if d == 0 {
        '0'
    } else if d == 1 {
        '1'
    } else if d == 2 {
        '2'
    } else if d == 3 {
        '3'
    } else if d == 4 {
        '4'
    } else if d == 5 {
        '5'
    } else if d == 6 {
        '6'
    } else if d == 7 {
        '7'
    } else if d == 8 {
        '8'
    } else if d == 9 {
        '9'
    } else if d == 10 {
        'a'
    } else if d == 11 {
        'b'
    } else if d == 12 {
        'c'
    } else if d == 13 {
        'd'
    } else if d == 14 {
        'e'
    } else {
        'f'
    }
}

fn digit_str(d: u64) -> (r: &'static str)
    requires
        d < 16,
    ensures
        r@ == seq![digit_char(d as nat)],
{
    proof {
        reveal_strlit("0");
        reveal_strlit("1");
        reveal_strlit("2");
        reveal_strlit("3");
        reveal_strlit("4");
        reveal_strlit("5");
        reveal_strlit("6");
        reveal_strlit("7");
        reveal_strlit("8");
        reveal_strlit("9");
        reveal_strlit("a");
        reveal_strlit("b");
        reveal_strlit("c");
        reveal_strlit("d");
        reveal_strlit("e");
        reveal_strlit("f");
    }
    let r = match d {
        0 => "0",
        1 => "1",
        2 => "2",
        3 => "3",
        4 => "4",
        5 => "5",
        6 => "6",
        7 => "7",
        8 => "8",
        9 => "9",
        10 => "a",
        11 => "b",
        12 => "c",
        13 => "d",
        14 => "e",
        _ => "f",
    };
    proof {
        assert(r@ =~= seq![digit_char(d as nat)]);
    }
    r
}

/// The decimal digits of `n`, most significant first.
pub open spec fn spec_u64_digits(n: nat) -> Seq<char>
    decreases n,
{
    if n < 10 {
        seq![digit_char(n)]
    } else {
        spec_u64_digits(n / 10).push(digit_char(n % 10))
    }
}

/// The decimal form of `i`, with a leading minus sign when negative.
pub open spec fn spec_i64_str(i: int) -> Seq<char> {
    if i >= 0 {
        spec_u64_digits(i as nat)
    } else {
        "-"@ + spec_u64_digits((-i) as nat)
    }
}

pub fn u64_to_string(n: u64) -> (r: String)
    ensures
        r@ == spec_u64_digits(n as nat),
    decreases n,
{
    if n < 10 {
        String::from_str(digit_str(n))
    } else {
        let mut s = u64_to_string(n / 10);
        s.append(digit_str(n % 10));
        proof {
            assert(s@ =~= spec_u64_digits((n / 10) as nat).push(digit_char((n % 10) as nat)));
        }
        s
    }
}

pub fn i64_to_string(i: i64) -> (r: String)
    ensures
        r@ == spec_i64_str(i as int),
{
    if i >= 0 {
        u64_to_string(i as u64)
    } else {
        let mag: u64 = if i == i64::MIN {
            9223372036854775808u64
        } else {
            (-i) as u64
        };
        let mut s = String::from_str("-");
        s.append(u64_to_string(mag).as_str());
        proof {
            assert(mag as nat == (-(i as int)) as nat);
            assert(s@ =~= spec_i64_str(i as int));
        }
        s
    }
}

/// The JSON text of an id field: the number itself, or `null` while the
/// record has no persisted id.
pub open spec fn spec_id_json(id: Option<int>) -> Seq<char> {
    match id {
        Some(i) => spec_i64_str(i),
        None => "null"@,
    }
}

pub fn id_json(id: Option<i64>) -> (r: String)
    ensures
        r@ == spec_id_json(crate::player::id_v(id)),
{
    match id {
        Some(i) => i64_to_string(i),
        None => String::from_str("null"),
    }
}

/// How one character appears inside a JSON string literal: the quote and
/// the backslash are escaped, the named control characters take their short
/// escapes, any other control character takes a `\u00..` escape, and every
/// remaining character stands for itself.
pub open spec fn escape_char(c: char) -> Seq<char> {
    if c == '"' {
        seq!['\\', '"']
    } else if c == '\\' {
        seq!['\\', '\\']
    } else if c == '\u{8}' {
        seq!['\\', 'b']
    } else if c == '\t' {
        seq!['\\', 't']
    } else if c == '\n' {
        seq!['\\', 'n']
    } else if c == '\u{c}' {
        seq!['\\', 'f']
    } else if c == '\r' {
        seq!['\\', 'r']
    } else if (c as u32) < 0x20 {
        seq!['\\', 'u', '0', '0', digit_char(((c as u32) / 16) as nat), digit_char(
            ((c as u32) % 16) as nat,
        )]
    } else {
        seq![c]
    }
}

/// The body of a JSON string literal: each character escaped in turn.
pub open spec fn spec_escape(s: Seq<char>) -> Seq<char>
    decreases s.len(),
{
    if s.len() == 0 {
        Seq::empty()
    } else {
        escape_char(s[0]) + spec_escape(s.drop_first())
    }
}

proof fn lemma_escape_push(s: Seq<char>, c: char)
    ensures
        spec_escape(s.push(c)) == spec_escape(s) + escape_char(c),
    decreases s.len(),
{
    if s.len() == 0 {
        assert(s.push(c).drop_first() =~= Seq::<char>::empty());
        assert(s.push(c)[0] == c);
        assert(spec_escape(s.push(c)) == escape_char(c) + spec_escape(Seq::<char>::empty()));
        assert(spec_escape(s) == Seq::<char>::empty());
        assert(spec_escape(s.push(c)) =~= spec_escape(s) + escape_char(c));
    } else {
        assert(s.push(c).drop_first() =~= s.drop_first().push(c));
        lemma_escape_push(s.drop_first(), c);
        assert(s.push(c)[0] == s[0]);
        assert(spec_escape(s.push(c)) == escape_char(s[0]) + (spec_escape(s.drop_first())
            + escape_char(c)));
        assert(escape_char(s[0]) + (spec_escape(s.drop_first()) + escape_char(c)) =~= (escape_char(
            s[0],
        ) + spec_escape(s.drop_first())) + escape_char(c));
    }
}

pub fn json_escape(s: &str) -> (r: String)
    ensures
        r@ == spec_escape(s@),
{
    let len = s.unicode_len();
    let mut r = String::new();
    let mut i: usize = 0;
    while i < len
        invariant
            len == s@.len(),
            i <= len,
            r@ == spec_escape(s@.take(i as int)),
        decreases len - i,
    {
        let c = s.get_char(i);
        proof {
            assert(s@.take(i + 1) =~= s@.take(i as int).push(c));
            lemma_escape_push(s@.take(i as int), c);
        }
        if c == '"' {
            r.append("\\\"");
            proof {
                reveal_strlit("\\\"");
                assert(("\\\"")@ =~= escape_char(c));
            }
        } else if c == '\\' {
            r.append("\\\\");
            proof {
                reveal_strlit("\\\\");
                assert(("\\\\")@ =~= escape_char(c));
            }
        } else if c == '\u{8}' {
            r.append("\\b");
            proof {
                reveal_strlit("\\b");
                assert(("\\b")@ =~= escape_char(c));
            }
        } else if c == '\t' {
            r.append("\\t");
            proof {
                reveal_strlit("\\t");
                assert(("\\t")@ =~= escape_char(c));
            }
        } else if c == '\n' {
            r.append("\\n");
            proof {
                reveal_strlit("\\n");
                assert(("\\n")@ =~= escape_char(c));
            }
        } else if c == '\u{c}' {
            r.append("\\f");
            proof {
                reveal_strlit("\\f");
                assert(("\\f")@ =~= escape_char(c));
            }
        } else if c == '\r' {
            r.append("\\r");
            proof {
                reveal_strlit("\\r");
                assert(("\\r")@ =~= escape_char(c));
            }
        } else if (c as u32) < 0x20 {
            let code = c as u32;
            r.append("\\u00");
            r.append(digit_str((code / 16) as u64));
            r.append(digit_str((code % 16) as u64));
            proof {
                reveal_strlit("\\u00");
                assert(("\\u00")@ + seq![digit_char(((c as u32) / 16) as nat)] + seq![
                    digit_char(((c as u32) % 16) as nat),
                ] =~= escape_char(c));
            }
        } else {
            let one = s.substring_char(i, i + 1);
            r.append(one);
            proof {
                assert(one@ =~= seq![c]);
                assert(one@ =~= escape_char(c));
            }
        }
        proof {
            assert(r@ =~= spec_escape(s@.take(i + 1)));
        }
        i = i + 1;
    }
    proof {
        assert(s@.take(len as int) =~= s@);
    }
    r
}

/// A full JSON string literal: the escaped text between double quotes.
pub open spec fn spec_json_string(s: Seq<char>) -> Seq<char> {
    "\""@ + spec_escape(s) + "\""@
}

pub fn json_string(s: &str) -> (r: String)
    ensures
        r@ == spec_json_string(s@),
{
    let mut r = String::from_str("\"");
    let escaped = json_escape(s);
    r.append(escaped.as_str());
    r.append("\"");
    proof {
        assert(r@ =~= spec_json_string(s@));
    }
    r
}

/// The JSON object for one player, fields in declaration order.
pub open spec fn spec_player_json(p: PlayerV) -> Seq<char> {
    "{\"id\":"@ + spec_id_json(p.id) + ",\"name\":"@ + spec_json_string(p.name) + ",\"token\":"@
        + spec_json_string(p.token) + "}"@
}

pub fn player_json(p: &Player) -> (r: String)
    ensures
        r@ == spec_player_json(p@),
{
    let mut r = String::from_str("{\"id\":");
    r.append(id_json(p.id).as_str());
    r.append(",\"name\":");
    r.append(json_string(p.name.as_str()).as_str());
    r.append(",\"token\":");
    r.append(json_string(p.token.as_str()).as_str());
    r.append("}");
    proof {
        assert(r@ =~= spec_player_json(p@));
    }
    r
}

/// The elements of a JSON array of players, separated by commas.
pub open spec fn spec_players_items(ps: Seq<PlayerV>) -> Seq<char>
    decreases ps.len(),
{
    if ps.len() == 0 {
        Seq::empty()
    } else if ps.len() == 1 {
        spec_player_json(ps[0])
    } else {
        spec_player_json(ps[0]) + ","@ + spec_players_items(ps.drop_first())
    }
}

/// The JSON array for a list of players.
pub open spec fn spec_players_json(ps: Seq<PlayerV>) -> Seq<char> {
    "["@ + spec_players_items(ps) + "]"@
}

fn players_items(players: &Vec<Player>, i: usize) -> (r: String)
    requires
        i <= players@.len(),
    ensures
        r@ == spec_players_items(players@.skip(i as int).map_values(|p: Player| p@)),
    decreases players@.len() - i,
{
    let ghost tail = players@.skip(i as int).map_values(|p: Player| p@);
    if i >= players.len() {
        proof {
            assert(tail =~= Seq::<PlayerV>::empty());
        }
        String::new()
    } else {
        let mut r = player_json(&players[i]);
        proof {
            assert(tail[0] == players@[i as int]@);
        }
        if i + 1 < players.len() {
            r.append(",");
            let rest = players_items(players, i + 1);
            r.append(rest.as_str());
            proof {
                assert(tail.drop_first() =~= players@.skip(i + 1).map_values(|p: Player| p@));
                assert(r@ =~= spec_players_items(tail));
            }
        } else {
            proof {
                assert(tail.len() == 1);
                assert(r@ =~= spec_players_items(tail));
            }
        }
        r
    }
}

pub fn players_json(players: &Vec<Player>) -> (r: String)
    ensures
        r@ == spec_players_json(players@.map_values(|p: Player| p@)),
{
    let mut r = String::from_str("[");
    let items = players_items(players, 0);
    r.append(items.as_str());
    r.append("]");
    proof {
        assert(players@.skip(0) =~= players@);
        assert(r@ =~= spec_players_json(players@.map_values(|p: Player| p@)));
    }
    r
}

/// The JSON text of a bare boolean.
pub open spec fn spec_bool_json(b: bool) -> Seq<char> {
    if b {
        "true"@
    } else {
        "false"@
    }
}

pub fn bool_json(b: bool) -> (r: String)
    ensures
        r@ == spec_bool_json(b),
{
    if b {
        String::from_str("true")
    } else {
        String::from_str("false")
    }
}

/// The uniform error body: one object with one `error` field holding the
/// human-readable message.
pub open spec fn spec_error_json(msg: Seq<char>) -> Seq<char> {
    "{\"error\":"@ + spec_json_string(msg) + "}"@
}

pub fn error_json(msg: &str) -> (r: String)
    ensures
        r@ == spec_error_json(msg@),
{
    let mut r = String::from_str("{\"error\":");
    r.append(json_string(msg).as_str());
    r.append("}");
    proof {
        assert(r@ =~= spec_error_json(msg@));
    }
    r
}

} // verus!
