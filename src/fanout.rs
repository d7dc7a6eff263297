//! Collecting the standings of many tournaments, one request each, where a
//! failed request costs only its own tournament.
use vstd::prelude::*;

use crate::json::Json;
use crate::listing::EntityRef;
use crate::reply::{is_success, success_status, Reply};
use crate::standings::{decode_standings, standings_decode, standings_ok, Standing};
use crate::urls::{standings_url, standings_url_spec};

verus! {

/// Why one tournament contributed nothing.
#[derive(Debug, Clone, Copy, PartialEq, Eq, Structural)]
pub enum FailureKind {
    /// The request did not complete.
    Transport,
    /// The server answered with a status outside 200..=299.
    Status(u16),
    /// The body is not JSON, or not standings.
    Decode,
    /// The task did not run to completion.
    Join,
}

/// The standings of one tournament.
pub struct DetailRecord {
    pub tournament: EntityRef,
    pub standings: Vec<Standing>,
}

/// One tournament whose standings could not be had, and why.
pub struct Failure {
    pub tournament: EntityRef,
    pub kind: FailureKind,
}

/// Everything a fan-out produced: the standings that arrived, and the failures.
pub struct Collected {
    pub records: Vec<DetailRecord>,
    pub failures: Vec<Failure>,
}

/// Why `reply` gives no standings, or `None` where it gives them.
pub open spec fn failure_of(reply: Reply) -> Option<FailureKind> {
    match reply {
        Reply::TransportError => Some(FailureKind::Transport),
        Reply::Abandoned => Some(FailureKind::Join),
        Reply::Response { status, body } => {
            if !success_status(status) {
                Some(FailureKind::Status(status))
            } else {
                match body {
                    Some(b) => if standings_ok(b) {
                        None
                    } else {
                        Some(FailureKind::Decode)
                    },
                    None => Some(FailureKind::Decode),
                }
            }
        },
    }
}

/// The body of a response.
pub open spec fn body_of(reply: Reply) -> Json {
    reply->Response_body->0
}

/// The positions of the replies that give standings, in order.
pub open spec fn success_positions(replies: Seq<Reply>) -> Seq<int>
    decreases replies.len(),
{
    if replies.len() == 0 {
        Seq::empty()
    } else if failure_of(replies.last()) is None {
        success_positions(replies.drop_last()).push(replies.len() - 1)
    } else {
        success_positions(replies.drop_last())
    }
}

/// The positions of the replies that give no standings, in order.
pub open spec fn failure_positions(replies: Seq<Reply>) -> Seq<int>
    decreases replies.len(),
{
    if replies.len() == 0 {
        Seq::empty()
    } else if failure_of(replies.last()) is Some {
        failure_positions(replies.drop_last()).push(replies.len() - 1)
    } else {
        failure_positions(replies.drop_last())
    }
}

/// The URL of each tournament's standings, in the order of `refs`.
pub fn standings_urls(refs: &Vec<EntityRef>) -> (r: Vec<String>)
    ensures
        r@.len() == refs@.len(),
        forall|i: int| 0 <= i < r@.len() ==> (#[trigger] r@[i])@ == standings_url_spec(refs@[i].id@),
{
    let mut r: Vec<String> = Vec::new();
    let mut i: usize = 0;
    while i < refs.len()
        invariant
            i <= refs@.len(),
            r@.len() == i,
            forall|k: int| 0 <= k < i ==> (#[trigger] r@[k])@ == standings_url_spec(refs@[k].id@),
        decreases refs@.len() - i,
    {
        r.push(standings_url(refs[i].id.as_str()));
        i = i + 1;
    }
    r
}

/// The standings that one reply gives, or why it gives none.
pub fn classify(reply: &Reply) -> (r: Result<Vec<Standing>, FailureKind>)
    ensures
        r matches Err(k) ==> failure_of(*reply) == Some(k),
        r is Ok <==> failure_of(*reply) is None,
        r matches Ok(v) ==> standings_decode(body_of(*reply), v@),
{
    match reply {
        Reply::TransportError => Err(FailureKind::Transport),
        Reply::Abandoned => Err(FailureKind::Join),
        Reply::Response { status, body } => {
            if !is_success(*status) {
                Err(FailureKind::Status(*status))
            } else {
                match body {
                    Some(b) => match decode_standings(b) {
                        Some(v) => Ok(v),
                        None => Err(FailureKind::Decode),
                    },
                    None => Err(FailureKind::Decode),
                }
            }
        },
    }
}

/// Collects the standings of each tournament from its reply. `replies[i]` is
/// the reply to the request for `refs[i]`. A reply that gives no standings
/// becomes a failure of that tournament alone; the others are kept.
pub fn collect_standings(refs: &Vec<EntityRef>, replies: &Vec<Reply>) -> (r: Collected)
    requires
        refs@.len() == replies@.len(),
    ensures
        r.records@.len() == success_positions(replies@).len(),
        forall|k: int|
            0 <= k < r.records@.len() ==> {
                let p = success_positions(replies@)[k];
                &&& (#[trigger] r.records@[k]).tournament.id == refs@[p].id
                &&& standings_decode(body_of(replies@[p]), r.records@[k].standings@)
            },
        r.failures@.len() == failure_positions(replies@).len(),
        forall|k: int|
            0 <= k < r.failures@.len() ==> {
                let p = failure_positions(replies@)[k];
                &&& (#[trigger] r.failures@[k]).tournament.id == refs@[p].id
                &&& failure_of(replies@[p]) == Some(r.failures@[k].kind)
            },
{
    let mut records: Vec<DetailRecord> = Vec::new();
    let mut failures: Vec<Failure> = Vec::new();
    let mut i: usize = 0;
    assert(replies@.take(0) =~= Seq::<Reply>::empty());
    while i < replies.len()
        invariant
            i <= replies@.len(),
            refs@.len() == replies@.len(),
            records@.len() == success_positions(replies@.take(i as int)).len(),
            forall|k: int|
                0 <= k < records@.len() ==> {
                    let p = success_positions(replies@.take(i as int))[k];
                    &&& (#[trigger] records@[k]).tournament.id == refs@[p].id
                    &&& standings_decode(body_of(replies@[p]), records@[k].standings@)
                },
            failures@.len() == failure_positions(replies@.take(i as int)).len(),
            forall|k: int|
                0 <= k < failures@.len() ==> {
                    let p = failure_positions(replies@.take(i as int))[k];
                    &&& (#[trigger] failures@[k]).tournament.id == refs@[p].id
                    &&& failure_of(replies@[p]) == Some(failures@[k].kind)
                },
        decreases replies@.len() - i,
    {
        assert(replies@.take(i + 1).drop_last() =~= replies@.take(i as int));
        assert(replies@.take(i + 1).last() == replies@[i as int]);
        let tournament = EntityRef { id: refs[i].id.clone() };
        match classify(&replies[i]) {
            Ok(standings) => records.push(DetailRecord { tournament, standings }),
            Err(kind) => failures.push(Failure { tournament, kind }),
        }
        i = i + 1;
    }
    assert(replies@.take(replies@.len() as int) =~= replies@);
    Collected { records, failures }
}

/// Every reply is counted once: as a record or as a failure. So a fan-out
/// over `n` tournaments yields at most `n` records, and fewer only where some
/// failure was recorded.
pub proof fn lemma_collected_sizes(replies: Seq<Reply>)
    ensures
        success_positions(replies).len() + failure_positions(replies).len() == replies.len(),
        success_positions(replies).len() <= replies.len(),
        success_positions(replies).len() < replies.len() ==> failure_positions(replies).len() >= 1,
    decreases replies.len(),
{
    if replies.len() > 0 {
        lemma_collected_sizes(replies.drop_last());
    }
}

} // verus!
