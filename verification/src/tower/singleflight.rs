//! Request coalescing ("singleflight").
//!
//! Concurrent identical chat or embedding requests are coalesced: the first
//! caller for a key becomes the leader and calls the inner service; callers
//! arriving while it runs become followers and receive the leader's result.
//! The key is the default hash of the request's JSON.
//!
//! [`SingleflightTable`] is the in-flight registry; the rest are the
//! decisions taken around the (asynchronous) call and broadcast.

use vstd::prelude::*;
use dashmap::DashMap;
use crate::util::dash::{flight_keys, flights_new, flights_contains, flights_insert, flights_remove};
use crate::error::LiterLlmError;
use crate::tower::cache::{hash_str, default_str_hash};
use crate::tower::request::RequestKind;

verus! {


/// The coalescing key of a request: the default hash of its JSON for chat
/// and embedding requests; other kinds are never coalesced.
pub fn singleflight_key(kind: RequestKind, json: Option<&str>) -> (k: Option<u64>)
    ensures
        (kind == RequestKind::Chat || kind == RequestKind::Embed) && json is Some ==> k == Some(default_str_hash(json->0@)),
        !((kind == RequestKind::Chat || kind == RequestKind::Embed) && json is Some) ==> k is None,
{
    match kind {
        RequestKind::Chat | RequestKind::Embed => match json {
            Some(j) => Some(hash_str(j)),
            None => None,
        },
        _ => None,
    }
}

/// Role of a caller for a key.
#[derive(Debug, Clone, Copy, PartialEq, Eq, Structural)]
pub enum Role {
    /// Calls the inner service and publishes the result.
    Leader,
    /// Waits for the leader's result.
    Follower,
}

/// Keys with a leader in flight.
pub struct SingleflightTable {
    in_flight: DashMap<u64, ()>,
}

impl SingleflightTable {
    /// The keys whose leader is running.
    pub closed spec fn spec_in_flight(&self) -> Set<u64> {
        flight_keys(self.in_flight)
    }

    /// No key in flight.
    pub fn new() -> (t: Self)
        ensures
            t.spec_in_flight() == Set::<u64>::empty(),
    {
        SingleflightTable { in_flight: flights_new() }
    }

    /// Join the flight for `key`: the first caller becomes the leader and
    /// the key is marked in flight; later callers are followers.
    pub fn join(&mut self, key: u64) -> (r: Role)
        ensures
            (r, final(self).spec_in_flight()) == spec_join(old(self).spec_in_flight(), key),
    {
        if flights_contains(&self.in_flight, key) {
            Role::Follower
        } else {
            flights_insert(&mut self.in_flight, key);
            Role::Leader
        }
    }

    /// The leader finished (or gave up): the key is no longer in flight.
    pub fn complete(&mut self, key: u64)
        ensures
            final(self).spec_in_flight() == spec_complete(old(self).spec_in_flight(), key),
    {
        flights_remove(&mut self.in_flight, key);
    }
}

/// Joining the flight for `key` with `in_flight` keys running: the caller's
/// role and the keys in flight afterwards.
pub open spec fn spec_join(in_flight: Set<u64>, key: u64) -> (Role, Set<u64>) {
    if in_flight.contains(key) {
        (Role::Follower, in_flight)
    } else {
        (Role::Leader, in_flight.insert(key))
    }
}

/// The keys in flight after the leader of `key` completes.
pub open spec fn spec_complete(in_flight: Set<u64>, key: u64) -> Set<u64> {
    in_flight.remove(key)
}

/// At most one leader per key: a caller leads exactly when its key is not
/// in flight; every caller joining while the leader runs follows and leaves
/// the table as it is; once the leader completes, the next caller leads
/// again; and a key's flight never touches other keys.
pub proof fn law_singleflight_one_leader(in_flight: Set<u64>, key: u64, other: u64)
    requires
        other != key,
    ensures
        spec_join(in_flight, key).0 == (if in_flight.contains(key) { Role::Follower } else { Role::Leader }),
        spec_join(spec_join(in_flight, key).1, key) == (Role::Follower, spec_join(in_flight, key).1),
        spec_join(spec_complete(spec_join(in_flight, key).1, key), key).0 == Role::Leader,
        spec_join(in_flight, key).1.contains(other) == in_flight.contains(other),
        spec_complete(in_flight, key).contains(other) == in_flight.contains(other),
{
}

/// Message when the leader's response cannot be shared.
pub open spec fn non_cacheable_message() -> Seq<char> {
    "singleflight: non-cacheable response variant in leader"@
}

/// What the leader publishes to its followers, given its result with the
/// response reduced to a shareable copy (`None` for a response that can
/// only be consumed once): a shared copy goes out as it is, a non-shareable
/// success becomes an internal error for the followers, and an error is
/// shared as it is.  The leader itself returns its own result.
pub fn leader_publication<R>(result: Result<Option<R>, LiterLlmError>) -> (p: Result<R, LiterLlmError>)
    ensures
        result matches Ok(Some(v)) ==> p == Ok::<R, LiterLlmError>(v),
        result matches Ok(None) ==> (p matches Err(LiterLlmError::InternalError { message }) && message@ == non_cacheable_message()),
        result matches Err(e) ==> p == Err::<R, LiterLlmError>(e),
{
    match result {
        Ok(Some(v)) => Ok(v),
        Ok(None) => {
            proof { reveal_strlit("singleflight: non-cacheable response variant in leader"); }
            Err(LiterLlmError::InternalError { message: String::from_str("singleflight: non-cacheable response variant in leader") })
        },
        Err(e) => Err(e),
    }
}

/// What a follower's receive attempt produced.
pub enum FollowerEvent<R> {
    /// The leader's published result.
    Received(Result<R, LiterLlmError>),
    /// The follower fell behind the channel.
    Lagged,
    /// The leader went away without publishing.
    Closed,
}

/// Next step of a follower.
pub enum FollowerStep<R> {
    /// Answer the caller with this result.
    Answer(Result<R, LiterLlmError>),
    /// Subscribe again and receive once more.
    Resubscribe,
}

/// Message when a lagging follower also fails its second attempt.
pub open spec fn lagged_twice_message() -> Seq<char> {
    "singleflight: follower lagged and retry also failed"@
}

/// Message when the leader closed the channel without a result.
pub open spec fn closed_message() -> Seq<char> {
    "singleflight: leader closed channel without sending a result"@
}

/// Decision on a follower's receive attempt (`retried`: this is the second
/// attempt after a lag).  A received result is the answer; a first lag
/// resubscribes; a second failure of any kind, or a closed channel on the
/// first attempt, is an internal error.
pub fn follower_step<R>(event: FollowerEvent<R>, retried: bool) -> (s: FollowerStep<R>)
    ensures
        event matches FollowerEvent::Received(r) ==> s == FollowerStep::Answer(r),
        event is Lagged && !retried ==> s is Resubscribe,
        !(event is Received) && retried ==> (s matches FollowerStep::Answer(Err(LiterLlmError::InternalError { message }))
            && message@ == lagged_twice_message()),
        event is Closed && !retried ==> (s matches FollowerStep::Answer(Err(LiterLlmError::InternalError { message }))
            && message@ == closed_message()),
{
    match event {
        FollowerEvent::Received(r) => FollowerStep::Answer(r),
        FollowerEvent::Lagged => if retried {
            proof { reveal_strlit("singleflight: follower lagged and retry also failed"); }
            FollowerStep::Answer(Err(LiterLlmError::InternalError { message: String::from_str("singleflight: follower lagged and retry also failed") }))
        } else {
            FollowerStep::Resubscribe
        },
        FollowerEvent::Closed => if retried {
            proof { reveal_strlit("singleflight: follower lagged and retry also failed"); }
            FollowerStep::Answer(Err(LiterLlmError::InternalError { message: String::from_str("singleflight: follower lagged and retry also failed") }))
        } else {
            proof { reveal_strlit("singleflight: leader closed channel without sending a result"); }
            FollowerStep::Answer(Err(LiterLlmError::InternalError { message: String::from_str("singleflight: leader closed channel without sending a result") }))
        },
    }
}

} // verus!
