//! The entity list: which tournaments to fetch, and which catalog entries to show.
use vstd::prelude::*;

use crate::json::{elements, id_member, id_of, Json};
use crate::reply::{is_success, success_status, Reply};

verus! {

/// One item of a list response: the id that its detail fetch is built from.
pub struct EntityRef {
    pub id: String,
}

/// Why a list response gave no entities.
#[derive(Debug, Clone, Copy, PartialEq, Eq, Structural)]
pub enum ListError {
    /// The request did not complete.
    Transport,
    /// The server answered with a status outside 200..=299.
    Status(u16),
    /// The body is not JSON.
    Malformed,
    /// The body is JSON, but not an array.
    NotArray,
    /// The entry at this position has no string `id`.
    MissingId(usize),
}

/// Every entry of `items` has a string `id`.
pub open spec fn all_have_ids(items: Seq<Json>) -> bool {
    forall|i: int| 0 <= i < items.len() ==> (#[trigger] id_of(items[i])) is Some
}

/// `k` is the first position of `items` whose entry has no string `id`.
pub open spec fn first_without_id(items: Seq<Json>, k: int) -> bool {
    &&& 0 <= k < items.len()
    &&& id_of(items[k]) is None
    &&& forall|i: int| 0 <= i < k ==> (#[trigger] id_of(items[i])) is Some
}

/// Decodes a list response strictly: an array whose every entry carries a
/// string `id`. The first entry without one fails the whole list.
pub fn decode_entity_list(body: &Json) -> (r: Result<Vec<EntityRef>, ListError>)
    ensures
        !(body is Array) ==> r == Err::<Vec<EntityRef>, ListError>(ListError::NotArray),
        body is Array ==> (r is Ok <==> all_have_ids(elements(*body))),
        r matches Ok(v) ==> {
            &&& v@.len() == elements(*body).len()
            &&& forall|i: int|
                0 <= i < v@.len() ==> Some((#[trigger] v@[i]).id) == id_of(elements(*body)[i])
        },
        body is Array && r is Err ==> (r matches Err(ListError::MissingId(k)) && first_without_id(
            elements(*body),
            k as int,
        )),
{
    match body {
        Json::Array(a) => {
            let mut v: Vec<EntityRef> = Vec::new();
            let mut i: usize = 0;
            while i < a.len()
                invariant
                    i <= a@.len(),
                    v@.len() == i,
                    elements(*body) == a@,
                    forall|k: int| 0 <= k < i ==> Some((#[trigger] v@[k]).id) == id_of(a@[k]),
                    forall|k: int| 0 <= k < i ==> (#[trigger] id_of(a@[k])) is Some,
                decreases a@.len() - i,
            {
                match id_member(&a[i]) {
                    Some(id) => v.push(EntityRef { id: id.clone() }),
                    None => return Err(ListError::MissingId(i)),
                }
                i = i + 1;
            }
            Ok(v)
        },
        _ => Err(ListError::NotArray),
    }
}

/// The positions in `items` whose entry has a string `id`, in order.
pub open spec fn positions_with_ids(items: Seq<Json>) -> Seq<int>
    decreases items.len(),
{
    if items.len() == 0 {
        Seq::empty()
    } else if id_of(items.last()) is Some {
        positions_with_ids(items.drop_last()).push(items.len() - 1)
    } else {
        positions_with_ids(items.drop_last())
    }
}

/// The positions in `items` whose entry has no string `id`, in order.
pub open spec fn positions_without_ids(items: Seq<Json>) -> Seq<usize>
    decreases items.len(),
{
    if items.len() == 0 {
        Seq::empty()
    } else if id_of(items.last()) is None {
        positions_without_ids(items.drop_last()).push((items.len() - 1) as usize)
    } else {
        positions_without_ids(items.drop_last())
    }
}

/// What a lenient read of a list gives: the entities, and the positions of
/// the entries that were skipped for want of a string `id`.
pub struct LenientList {
    pub entities: Vec<EntityRef>,
    pub skipped: Vec<usize>,
}

/// Decodes a list response leniently: an array, of which each entry with a
/// string `id` gives an entity and each other entry is skipped and reported.
pub fn decode_entity_list_lenient(body: &Json) -> (r: Result<LenientList, ListError>)
    ensures
        !(body is Array) ==> r is Err && r->Err_0 == ListError::NotArray,
        body is Array ==> r is Ok,
        r matches Ok(l) ==> {
            let items = elements(*body);
            let with = positions_with_ids(items);
            &&& l.entities@.len() == with.len()
            &&& forall|k: int|
                0 <= k < l.entities@.len() ==> Some((#[trigger] l.entities@[k]).id) == id_of(
                    items[with[k]],
                )
            &&& l.skipped@ == positions_without_ids(items)
        },
{
    match body {
        Json::Array(a) => {
            let mut entities: Vec<EntityRef> = Vec::new();
            let mut skipped: Vec<usize> = Vec::new();
            let mut i: usize = 0;
            assert(a@.take(0) =~= Seq::<Json>::empty());
            while i < a.len()
                invariant
                    i <= a@.len(),
                    elements(*body) == a@,
                    entities@.len() == positions_with_ids(a@.take(i as int)).len(),
                    forall|k: int|
                        0 <= k < entities@.len() ==> Some((#[trigger] entities@[k]).id) == id_of(
                            a@[positions_with_ids(a@.take(i as int))[k]],
                        ),
                    skipped@ == positions_without_ids(a@.take(i as int)),
                decreases a@.len() - i,
            {
                assert(a@.take(i + 1).drop_last() =~= a@.take(i as int));
                assert(a@.take(i + 1).last() == a@[i as int]);
                match id_member(&a[i]) {
                    Some(id) => entities.push(EntityRef { id: id.clone() }),
                    None => skipped.push(i),
                }
                i = i + 1;
            }
            assert(a@.take(a@.len() as int) =~= a@);
            Ok(LenientList { entities, skipped })
        },
        _ => Err(ListError::NotArray),
    }
}

/// The positions in `items` whose entry has the string `id` equal to `target`.
pub open spec fn positions_with_id(items: Seq<Json>, target: Seq<char>) -> Seq<usize>
    decreases items.len(),
{
    if items.len() == 0 {
        Seq::empty()
    } else {
        let rest = positions_with_id(items.drop_last(), target);
        match id_of(items.last()) {
            Some(s) if s@ == target => rest.push((items.len() - 1) as usize),
            _ => rest,
        }
    }
}

/// The positions of the entries of a catalog array whose `id` is the string
/// `target`, in order. A body that is not an array is refused.
pub fn select_by_id(body: &Json, target: &str) -> (r: Result<Vec<usize>, ListError>)
    ensures
        !(body is Array) ==> r == Err::<Vec<usize>, ListError>(ListError::NotArray),
        body is Array ==> (r matches Ok(v) && v@ == positions_with_id(elements(*body), target@)),
{
    match body {
        Json::Array(a) => {
            let wanted = String::from_str(target);
            let mut v: Vec<usize> = Vec::new();
            let mut i: usize = 0;
            assert(a@.take(0) =~= Seq::<Json>::empty());
            while i < a.len()
                invariant
                    i <= a@.len(),
                    wanted@ == target@,
                    elements(*body) == a@,
                    v@ == positions_with_id(a@.take(i as int), target@),
                decreases a@.len() - i,
            {
                assert(a@.take(i + 1).drop_last() =~= a@.take(i as int));
                assert(a@.take(i + 1).last() == a@[i as int]);
                match id_member(&a[i]) {
                    Some(id) => {
                        if *id == wanted {
                            v.push(i);
                        }
                    },
                    None => {},
                }
                i = i + 1;
            }
            assert(a@.take(a@.len() as int) =~= a@);
            Ok(v)
        },
        _ => Err(ListError::NotArray),
    }
}

/// Why `reply` carries no JSON body to read a list from, or `None` where it does.
pub open spec fn reply_failure(reply: Reply) -> Option<ListError> {
    match reply {
        Reply::TransportError => Some(ListError::Transport),
        Reply::Abandoned => Some(ListError::Transport),
        Reply::Response { status, body } => {
            if !success_status(status) {
                Some(ListError::Status(status))
            } else if body is None {
                Some(ListError::Malformed)
            } else {
                None
            }
        },
    }
}

/// The JSON body of a successful response, or why there is none.
pub fn reply_body(reply: &Reply) -> (r: Result<&Json, ListError>)
    ensures
        r matches Err(e) ==> reply_failure(*reply) == Some(e),
        r is Ok <==> reply_failure(*reply) is None,
        r matches Ok(b) ==> Some(*b) == reply->Response_body,
{
    match reply {
        Reply::Response { status, body } => {
            if !is_success(*status) {
                Err(ListError::Status(*status))
            } else {
                match body {
                    Some(b) => Ok(b),
                    None => Err(ListError::Malformed),
                }
            }
        },
        _ => Err(ListError::Transport),
    }
}

/// The tournaments that a list reply names. A failed request, a failure
/// status, a body that is not JSON, or a list that does not decode strictly
/// gives an error, and then no detail fetch is due.
pub fn entities_from_reply(reply: &Reply) -> (r: Result<Vec<EntityRef>, ListError>)
    ensures
        reply_failure(*reply) matches Some(e) ==> r == Err::<Vec<EntityRef>, ListError>(e),
        reply_failure(*reply) is None ==> ({
            let body = reply->Response_body->0;
            &&& !(body is Array) ==> r == Err::<Vec<EntityRef>, ListError>(ListError::NotArray)
            &&& body is Array ==> (r is Ok <==> all_have_ids(elements(body)))
            &&& r matches Ok(v) ==> {
                &&& v@.len() == elements(body).len()
                &&& forall|i: int|
                    0 <= i < v@.len() ==> Some((#[trigger] v@[i]).id) == id_of(elements(body)[i])
            }
            &&& body is Array && r is Err ==> (r matches Err(ListError::MissingId(k))
                && first_without_id(elements(body), k as int))
        }),
{
    match reply_body(reply) {
        Ok(body) => decode_entity_list(body),
        Err(e) => Err(e),
    }
}

/// The positions of the catalog entries whose `id` is `target`, read from a
/// catalog reply.
pub fn formats_from_reply(reply: &Reply, target: &str) -> (r: Result<Vec<usize>, ListError>)
    ensures
        reply_failure(*reply) matches Some(e) ==> r == Err::<Vec<usize>, ListError>(e),
        reply_failure(*reply) is None ==> ({
            let body = reply->Response_body->0;
            &&& !(body is Array) ==> r == Err::<Vec<usize>, ListError>(ListError::NotArray)
            &&& body is Array ==> (r matches Ok(v) && v@ == positions_with_id(elements(body), target@))
        }),
{
    match reply_body(reply) {
        Ok(body) => select_by_id(body, target),
        Err(e) => Err(e),
    }
}

} // verus!
