//! The listener of a server that limits how many requests it handles at once.

use vstd::prelude::*;
use vstd::string::*;
use crate::status::StatusCode;
use crate::text::{decimal, u64_to_string};

verus! {

/// The kinds of I/O error that accepting a connection can meet, as far as the listener tells
/// them apart.
#[derive(Clone, Copy, Debug, PartialEq, Eq, Structural)]
pub enum IoErrorKind {
    ConnectionRefused,
    ConnectionAborted,
    ConnectionReset,
    Other,
}

/// Whether an error in accepting a connection is transient, so that the listener just goes on:
/// a connection refused, aborted or reset.
pub fn is_transient_error(kind: IoErrorKind) -> (r: bool)
    ensures
        r == (kind == IoErrorKind::ConnectionRefused || kind == IoErrorKind::ConnectionAborted
            || kind == IoErrorKind::ConnectionReset),
{
    match kind {
        IoErrorKind::ConnectionRefused | IoErrorKind::ConnectionAborted
        | IoErrorKind::ConnectionReset => true,
        IoErrorKind::Other => false,
    }
}

/// A listener that handles at most `limit` requests at once, answering the others with
/// `429 Too Many Requests`.
#[derive(Clone, Debug)]
pub struct RateLimitListener {
    pub addr: String,
    pub limit: usize,
}

impl RateLimitListener {
    /// A listener on an address.
    pub fn new(addr: String, limit: usize) -> (r: RateLimitListener)
        ensures
            r.addr == addr,
            r.limit == limit,
    {
        RateLimitListener { addr, limit }
    }

    /// A listener on a port of every interface.
    pub fn with_port(port: u16, limit: usize) -> (r: RateLimitListener)
        ensures
            r.addr@ == "0.0.0.0:"@ + decimal(port as nat),
            r.limit == limit,
    {
        let mut addr = "0.0.0.0:".to_string();
        addr.append(u64_to_string(port as u64).as_str());
        RateLimitListener { addr, limit }
    }

    /// The URL of the listener.
    pub fn to_string(&self) -> (r: String)
        ensures
            r@ == "http://"@ + self.addr@,
    {
        let mut r = "http://".to_string();
        r.append(self.addr.as_str());
        r
    }

    /// The status of a request that comes when `in_flight` requests are being handled: `None`
    /// if it can be handled, else `429 Too Many Requests`.
    pub fn accept_status(&self, in_flight: usize) -> (r: Option<StatusCode>)
        ensures
            r == (if in_flight < self.limit {
                None
            } else {
                Some(StatusCode::TooManyRequests)
            }),
    {
        if in_flight < self.limit {
            None
        } else {
            Some(StatusCode::TooManyRequests)
        }
    }
}

/// The number of requests being handled after one more comes, when `count` are being handled
/// and at most `limit` may be: it is taken if there is room, else refused.
pub open spec fn count_after_arrival(count: nat, limit: nat) -> nat {
    if count < limit {
        count + 1
    } else {
        count
    }
}

/// The number of requests being handled after one of `count` is done.
pub open spec fn count_after_completion(count: nat) -> nat {
    if count > 0 {
        (count - 1) as nat
    } else {
        0
    }
}

/// The number of requests being handled after a run of events, from none: each event is a
/// request that comes (`true`) or one that is done (`false`).
pub open spec fn count_after(events: Seq<bool>, limit: nat) -> nat
    decreases events.len(),
{
    if events.len() == 0 {
        0
    } else {
        let count = count_after(events.drop_last(), limit);
        if events.last() {
            count_after_arrival(count, limit)
        } else {
            count_after_completion(count)
        }
    }
}

/// Whatever requests come and are done, in whatever order, a listener never handles more than
/// its limit at once; and when it handles exactly its limit, a request that comes is refused
/// and the count stays.
pub proof fn law_accept_within_limit(events: Seq<bool>, limit: nat)
    ensures
        count_after(events, limit) <= limit,
        count_after(events, limit) == limit ==> count_after(events.push(true), limit) == limit,
        count_after(events, limit) < limit ==> count_after(events.push(true), limit) == count_after(
            events,
            limit,
        ) + 1,
    decreases events.len(),
{
    if events.len() > 0 {
        law_accept_within_limit(events.drop_last(), limit);
    }
    assert(events.push(true).drop_last() =~= events);
}

/// The requests that a rate-limited listener is handling: never more than its limit. It
/// remembers, as a proof-only record, the arrivals and completions it has seen.
pub struct InFlight {
    count: usize,
    limit: usize,
    events: Ghost<Seq<bool>>,
}

impl InFlight {
    #[verifier::type_invariant]
    spec fn bounded(self) -> bool {
        &&& self.count <= self.limit
        &&& self.count == count_after(self.events@, self.limit as nat)
    }

    /// How many requests are being handled.
    pub closed spec fn spec_count(&self) -> nat {
        self.count as nat
    }

    /// How many requests may be handled at once.
    pub closed spec fn spec_limit(&self) -> nat {
        self.limit as nat
    }

    /// The arrivals (`true`) and completions (`false`) seen so far, in order.
    pub closed spec fn spec_events(&self) -> Seq<bool> {
        self.events@
    }

    /// No request in flight, with the listener's limit.
    pub fn new(listener: &RateLimitListener) -> (r: InFlight)
        ensures
            r.spec_count() == 0,
            r.spec_limit() == listener.limit,
            r.spec_events() == Seq::<bool>::empty(),
    {
        InFlight { count: 0, limit: listener.limit, events: Ghost(Seq::empty()) }
    }

    /// How many requests are being handled; never more than the limit.
    pub fn count(&self) -> (r: usize)
        ensures
            r == self.spec_count(),
            r == count_after(self.spec_events(), self.spec_limit()),
            r <= self.spec_limit(),
    {
        proof {
            use_type_invariant(self);
        }
        self.count
    }

    /// Take a place for a request that comes: `None` if it can be handled (it is then counted),
    /// else `429 Too Many Requests` and nothing changes. Either way the count stays within the
    /// limit.
    pub fn enter(&mut self) -> (r: Option<StatusCode>)
        ensures
            final(self).spec_limit() == old(self).spec_limit(),
            final(self).spec_events() == old(self).spec_events().push(true),
            final(self).spec_count() == count_after_arrival(old(self).spec_count(), old(self).spec_limit()),
            final(self).spec_count() <= final(self).spec_limit(),
            r == (if old(self).spec_count() < old(self).spec_limit() {
                None
            } else {
                Some(StatusCode::TooManyRequests)
            }),
    {
        proof {
            use_type_invariant(&*self);
        }
        let ghost events = self.events@.push(true);
        proof {
            assert(events.drop_last() =~= self.events@);
        }
        if self.count < self.limit {
            *self = InFlight { count: self.count + 1, limit: self.limit, events: Ghost(events) };
            None
        } else {
            *self = InFlight { count: self.count, limit: self.limit, events: Ghost(events) };
            Some(StatusCode::TooManyRequests)
        }
    }

    /// Give back the place of a request that has been handled.
    pub fn finish(&mut self)
        requires
            old(self).spec_count() > 0,
        ensures
            final(self).spec_count() == count_after_completion(old(self).spec_count()),
            final(self).spec_count() == old(self).spec_count() - 1,
            final(self).spec_limit() == old(self).spec_limit(),
            final(self).spec_events() == old(self).spec_events().push(false),
    {
        proof {
            use_type_invariant(&*self);
        }
        let ghost events = self.events@.push(false);
        proof {
            assert(events.drop_last() =~= self.events@);
        }
        *self = InFlight { count: self.count - 1, limit: self.limit, events: Ghost(events) };
    }
}

} // verus!
