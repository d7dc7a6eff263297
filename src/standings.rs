//! Typed decoding of a tournament's standings.
use vstd::prelude::*;

use crate::json::{get, get_member, Json};

verus! {

/// One entry of a decklist.
pub struct Mon {
    pub id: String,
    pub name: String,
    pub item: String,
    pub tera: Option<String>,
    pub ability: String,
    pub attacks: Vec<String>,
}

/// A player's match record.
#[derive(Debug, Clone, Copy, PartialEq, Eq, Structural)]
pub struct Record {
    pub wins: u32,
    pub losses: u32,
    pub ties: u32,
}

/// One player's standing: the decklist and the record.
pub struct Standing {
    pub decklist: Vec<Mon>,
    pub record: Record,
}

/// `j` is a string.
pub open spec fn text_ok(j: Option<Json>) -> bool {
    j matches Some(Json::Str(_))
}

/// `j` is the string `s`.
pub open spec fn text_decodes(j: Option<Json>, s: String) -> bool {
    j == Some(Json::Str(s))
}

/// `j` is absent, null, or a string.
pub open spec fn opt_text_ok(j: Option<Json>) -> bool {
    j is None || j == Some(Json::Null) || j matches Some(Json::Str(_))
}

/// `t` is what the optional string `j` holds.
pub open spec fn opt_text_decodes(j: Option<Json>, t: Option<String>) -> bool {
    match t {
        None => j is None || j == Some(Json::Null),
        Some(s) => j == Some(Json::Str(s)),
    }
}

/// `j` is an array of strings.
pub open spec fn texts_ok(j: Option<Json>) -> bool {
    j matches Some(Json::Array(a)) && forall|i: int| 0 <= i < a@.len() ==> (#[trigger] a@[i] is Str)
}

/// `j` is the array of the strings `v`.
pub open spec fn texts_decode(j: Option<Json>, v: Seq<String>) -> bool {
    j matches Some(Json::Array(a)) && a@.len() == v.len() && forall|i: int|
        0 <= i < a@.len() ==> #[trigger] a@[i] == Json::Str(v[i])
}

/// `j` is an integer that fits in 32 unsigned bits.
pub open spec fn count_ok(j: Option<Json>) -> bool {
    j matches Some(Json::Unsigned(n)) && n <= u32::MAX
}

/// `j` is the integer `n`.
pub open spec fn count_decodes(j: Option<Json>, n: u32) -> bool {
    j == Some(Json::Unsigned(n as u64))
}

/// `j` is an object with the fields of a decklist entry.
pub open spec fn mon_ok(j: Json) -> bool {
    &&& text_ok(get(j, "id"@))
    &&& text_ok(get(j, "name"@))
    &&& text_ok(get(j, "item"@))
    &&& opt_text_ok(get(j, "tera"@))
    &&& text_ok(get(j, "ability"@))
    &&& texts_ok(get(j, "attacks"@))
}

/// `m` is the decklist entry that `j` holds.
pub open spec fn mon_decodes(j: Json, m: Mon) -> bool {
    &&& text_decodes(get(j, "id"@), m.id)
    &&& text_decodes(get(j, "name"@), m.name)
    &&& text_decodes(get(j, "item"@), m.item)
    &&& opt_text_decodes(get(j, "tera"@), m.tera)
    &&& text_decodes(get(j, "ability"@), m.ability)
    &&& texts_decode(get(j, "attacks"@), m.attacks@)
}

/// `j` is an object with the three counts of a record.
pub open spec fn record_ok(j: Option<Json>) -> bool {
    j matches Some(r) && count_ok(get(r, "wins"@)) && count_ok(get(r, "losses"@)) && count_ok(
        get(r, "ties"@),
    )
}

/// `rec` is the record that `j` holds.
pub open spec fn record_decodes(j: Option<Json>, rec: Record) -> bool {
    j matches Some(r) && count_decodes(get(r, "wins"@), rec.wins) && count_decodes(
        get(r, "losses"@),
        rec.losses,
    ) && count_decodes(get(r, "ties"@), rec.ties)
}

/// `j` is an object with a decklist and a record.
pub open spec fn standing_ok(j: Json) -> bool {
    &&& get(j, "decklist"@) matches Some(Json::Array(d))
    &&& forall|i: int| 0 <= i < d@.len() ==> mon_ok(#[trigger] d@[i])
    &&& record_ok(get(j, "record"@))
}

/// `s` is the standing that `j` holds.
pub open spec fn standing_decodes(j: Json, s: Standing) -> bool {
    &&& get(j, "decklist"@) matches Some(Json::Array(d))
    &&& d@.len() == s.decklist@.len()
    &&& forall|i: int| 0 <= i < d@.len() ==> mon_decodes(#[trigger] d@[i], s.decklist@[i])
    &&& record_decodes(get(j, "record"@), s.record)
}

/// `j` is an array of standings.
pub open spec fn standings_ok(j: Json) -> bool {
    j matches Json::Array(a) && forall|i: int| 0 <= i < a@.len() ==> standing_ok(#[trigger] a@[i])
}

/// `v` are the standings that `j` holds, in order.
pub open spec fn standings_decode(j: Json, v: Seq<Standing>) -> bool {
    j matches Json::Array(a) && a@.len() == v.len() && forall|i: int|
        0 <= i < a@.len() ==> standing_decodes(#[trigger] a@[i], v[i])
}

/// The string member `key` of `j`.
fn text_member(j: &Json, key: &str) -> (r: Option<String>)
    ensures
        r is Some <==> text_ok(get(*j, key@)),
        r matches Some(s) ==> text_decodes(get(*j, key@), s),
{
    match get_member(j, key) {
        Some(Json::Str(s)) => Some(s.clone()),
        _ => None,
    }
}

/// The optional string member `key` of `j`: absent and null both give `None`.
fn opt_text_member(j: &Json, key: &str) -> (r: Option<Option<String>>)
    ensures
        r is Some <==> opt_text_ok(get(*j, key@)),
        r matches Some(t) ==> opt_text_decodes(get(*j, key@), t),
{
    match get_member(j, key) {
        None => Some(None),
        Some(Json::Null) => Some(None),
        Some(Json::Str(s)) => Some(Some(s.clone())),
        _ => None,
    }
}

/// The count member `key` of `j`.
fn count_member(j: &Json, key: &str) -> (r: Option<u32>)
    ensures
        r is Some <==> count_ok(get(*j, key@)),
        r matches Some(n) ==> count_decodes(get(*j, key@), n),
{
    match get_member(j, key) {
        Some(Json::Unsigned(n)) => {
            if *n <= 0xffff_ffffu64 {
                Some(*n as u32)
            } else {
                None
            }
        },
        _ => None,
    }
}

/// The member `key` of `j` as an array of strings.
fn texts_member(j: &Json, key: &str) -> (r: Option<Vec<String>>)
    ensures
        r is Some <==> texts_ok(get(*j, key@)),
        r matches Some(v) ==> texts_decode(get(*j, key@), v@),
{
    match get_member(j, key) {
        Some(Json::Array(a)) => {
            let mut v: Vec<String> = Vec::new();
            let mut i: usize = 0;
            while i < a.len()
                invariant
                    i <= a@.len(),
                    v@.len() == i,
                    get(*j, key@) == Some(Json::Array(*a)),
                    forall|k: int| 0 <= k < i ==> #[trigger] a@[k] == Json::Str(v@[k]),
                decreases a@.len() - i,
            {
                match &a[i] {
                    Json::Str(s) => v.push(s.clone()),
                    _ => return None,
                }
                i = i + 1;
            }
            Some(v)
        },
        _ => None,
    }
}

/// Decodes one decklist entry.
pub fn decode_mon(j: &Json) -> (r: Option<Mon>)
    ensures
        r is Some <==> mon_ok(*j),
        r matches Some(m) ==> mon_decodes(*j, m),
{
    let id = text_member(j, "id");
    let name = text_member(j, "name");
    let item = text_member(j, "item");
    let tera = opt_text_member(j, "tera");
    let ability = text_member(j, "ability");
    let attacks = texts_member(j, "attacks");
    match (id, name, item, tera, ability, attacks) {
        (Some(id), Some(name), Some(item), Some(tera), Some(ability), Some(attacks)) => Some(
            Mon { id, name, item, tera, ability, attacks },
        ),
        _ => None,
    }
}

/// Decodes a record of wins, losses and ties.
pub fn decode_record(j: &Json) -> (r: Option<Record>)
    ensures
        r is Some <==> record_ok(Some(*j)),
        r matches Some(rec) ==> record_decodes(Some(*j), rec),
{
    let wins = count_member(j, "wins");
    let losses = count_member(j, "losses");
    let ties = count_member(j, "ties");
    match (wins, losses, ties) {
        (Some(wins), Some(losses), Some(ties)) => Some(Record { wins, losses, ties }),
        _ => None,
    }
}

/// Decodes one player's standing.
pub fn decode_standing(j: &Json) -> (r: Option<Standing>)
    ensures
        r is Some <==> standing_ok(*j),
        r matches Some(s) ==> standing_decodes(*j, s),
{
    let record = match get_member(j, "record") {
        Some(rj) => match decode_record(rj) {
            Some(rec) => rec,
            None => return None,
        },
        None => return None,
    };
    match get_member(j, "decklist") {
        Some(Json::Array(d)) => {
            let mut decklist: Vec<Mon> = Vec::new();
            let mut i: usize = 0;
            while i < d.len()
                invariant
                    i <= d@.len(),
                    decklist@.len() == i,
                    get(*j, "decklist"@) == Some(Json::Array(*d)),
                    record_decodes(get(*j, "record"@), record),
                    record_ok(get(*j, "record"@)),
                    forall|k: int| 0 <= k < i ==> mon_decodes(#[trigger] d@[k], decklist@[k]),
                    forall|k: int| 0 <= k < i ==> mon_ok(#[trigger] d@[k]),
                decreases d@.len() - i,
            {
                match decode_mon(&d[i]) {
                    Some(m) => decklist.push(m),
                    None => {
                        assert(get(*j, "decklist"@)->0->Array_0@[i as int] == d@[i as int]);
                        return None;
                    },
                }
                i = i + 1;
            }
            Some(Standing { decklist, record })
        },
        _ => None,
    }
}

/// Decodes the body of a standings response: an array of standings.
pub fn decode_standings(j: &Json) -> (r: Option<Vec<Standing>>)
    ensures
        r is Some <==> standings_ok(*j),
        r matches Some(v) ==> standings_decode(*j, v@),
{
    match j {
        Json::Array(a) => {
            let mut v: Vec<Standing> = Vec::new();
            let mut i: usize = 0;
            while i < a.len()
                invariant
                    i <= a@.len(),
                    v@.len() == i,
                    *j == Json::Array(*a),
                    forall|k: int| 0 <= k < i ==> standing_decodes(#[trigger] a@[k], v@[k]),
                    forall|k: int| 0 <= k < i ==> standing_ok(#[trigger] a@[k]),
                decreases a@.len() - i,
            {
                match decode_standing(&a[i]) {
                    Some(s) => v.push(s),
                    None => {
                        assert(j->Array_0@[i as int] == a@[i as int]);
                        return None;
                    },
                }
                i = i + 1;
            }
            Some(v)
        },
        _ => None,
    }
}

} // verus!
