//! A decoded JSON document, as the library reads it.
use vstd::prelude::*;

verus! {

/// A JSON value. Object members keep the order in which they were decoded.
pub enum Json {
    Null,
    Bool(bool),
    /// A non-negative integer.
    Unsigned(u64),
    /// A negative integer.
    Negative(i64),
    /// Any other number, in its decimal text.
    Fraction(String),
    Str(String),
    Array(Vec<Json>),
    Object(Vec<(String, Json)>),
}

/// The value of the first member of `members` named `key`.
pub open spec fn member(members: Seq<(String, Json)>, key: Seq<char>) -> Option<Json>
    decreases members.len(),
{
    if members.len() == 0 {
        None
    } else if members[0].0@ == key {
        Some(members[0].1)
    } else {
        member(members.drop_first(), key)
    }
}

/// The member `key` of `j`, where `j` is an object that has one.
pub open spec fn get(j: Json, key: Seq<char>) -> Option<Json> {
    match j {
        Json::Object(members) => member(members@, key),
        _ => None,
    }
}

/// The text of `j`, where `j` is a string.
pub open spec fn text_of(j: Json) -> Option<String> {
    match j {
        Json::Str(s) => Some(s),
        _ => None,
    }
}

/// The member `key` of `j`, where `j` is an object that has one.
pub fn get_member<'a>(j: &'a Json, key: &str) -> (r: Option<&'a Json>)
    ensures
        r matches Some(v) ==> get(*j, key@) == Some(*v),
        r is None ==> get(*j, key@) is None,
{
    match j {
        Json::Object(members) => {
            let wanted = String::from_str(key);
            let mut i: usize = 0;
            assert(members@.skip(0) =~= members@);
            while i < members.len()
                invariant
                    i <= members@.len(),
                    wanted@ == key@,
                    get(*j, key@) == member(members@, key@),
                    member(members@, key@) == member(members@.skip(i as int), key@),
                decreases members@.len() - i,
            {
                assert(members@.skip(i as int).drop_first() =~= members@.skip(i + 1));
                assert(members@.skip(i as int)[0] == members@[i as int]);
                if members[i].0 == wanted {
                    return Some(&members[i].1);
                }
                i = i + 1;
            }
            None
        },
        _ => None,
    }
}

} // verus!

verus! {

/// The elements of `j`, where `j` is an array; otherwise none.
pub open spec fn elements(j: Json) -> Seq<Json> {
    match j {
        Json::Array(a) => a@,
        _ => Seq::empty(),
    }
}

/// The text of the member `id` of `j`, where it is a string.
pub open spec fn id_of(j: Json) -> Option<String> {
    match get(j, "id"@) {
        Some(Json::Str(s)) => Some(s),
        _ => None,
    }
}

/// The text of the member `id` of `j`, where it is a string.
pub fn id_member(j: &Json) -> (r: Option<&String>)
    ensures
        r matches Some(s) ==> id_of(*j) == Some(*s),
        r is None ==> id_of(*j) is None,
{
    match get_member(j, "id") {
        Some(Json::Str(s)) => Some(s),
        _ => None,
    }
}

} // verus!
