//! The connection multiplexer: one physical connection carries many logical
//! producers and consumers. This module holds the verified bookkeeping of
//! that engine — correlation-id allocation, the pending-request table, and
//! the target-id handler table that routes unsolicited push frames — while
//! the socket itself is driven by unverified plumbing around the library.

use vstd::prelude::*;

use crate::environment::TlsConfiguration;
use crate::error::ClientError;

verus! {

/// A hook the application may install to observe traffic counts. Metrics
/// are a collaborator outside the verified core: nothing is proved about an
/// implementation, and the default one does nothing.
pub trait MetricsCollector {
    /// Called with the number of messages handed to the connection.
    fn publish(&self, count: u64);

    /// Called with the number of publish errors observed.
    fn publish_error(&self, count: u64);

    /// Called with the number of confirmations observed.
    fn publish_confirm(&self, count: u64);

    /// Called with the number of messages delivered to consumers.
    fn consume(&self, count: u64);
}

/// The default metrics hook: it ignores every event.
#[derive(Clone, Copy, Debug, Default)]
pub struct NopMetricsCollector;

impl MetricsCollector for NopMetricsCollector {
    fn publish(&self, count: u64) {
    }

    fn publish_error(&self, count: u64) {
    }

    fn publish_confirm(&self, count: u64) {
    }

    fn consume(&self, count: u64) {
    }
}

/// Everything needed to open and dress a connection: address, credentials,
/// heartbeat, TLS settings and the client-provided connection name. The
/// unverified plumbing reads these when it dials the broker.
pub struct ClientOptions {
    pub host: String,
    pub port: u16,
    pub user: String,
    pub password: String,
    pub v_host: String,
    pub heartbeat: u32,
    pub tls: TlsConfiguration,
    pub load_balancer_mode: bool,
    pub client_provided_name: String,
    pub collector: Box<dyn MetricsCollector>,
}

/// The connection options every builder starts from: a local broker with the
/// conventional credentials, a one-minute heartbeat, TLS not configured and
/// the no-op metrics hook.
pub open spec fn is_default_client_options(c: ClientOptions) -> bool {
    &&& c.host@ == "localhost"@
    &&& c.port == 5552
    &&& c.user@ == "guest"@
    &&& c.password@ == "guest"@
    &&& c.v_host@ == "/"@
    &&& c.heartbeat == 60
    &&& crate::environment::is_default_tls(c.tls)
    &&& !c.load_balancer_mode
    &&& c.client_provided_name@ == "rust-stream"@
}

impl Default for ClientOptions {
    /// The starting point of every environment builder.
    fn default() -> (c: Self)
        ensures
            is_default_client_options(c),
    {
        ClientOptions {
            host: "localhost".to_owned(),
            port: 5552,
            user: "guest".to_owned(),
            password: "guest".to_owned(),
            v_host: "/".to_owned(),
            heartbeat: 60,
            tls: TlsConfiguration::default(),
            load_balancer_mode: false,
            client_provided_name: "rust-stream".to_owned(),
            collector: Box::new(NopMetricsCollector),
        }
    }
}

/// A sequence holds no element twice.
pub open spec fn unique_seq<T>(s: Seq<T>) -> bool {
    forall|i: int, j: int| 0 <= i < j < s.len() ==> s[i] != s[j]
}

/// Pushing `v` onto a sequence adds exactly `v` to its elements, and keeps
/// the sequence duplicate-free when `v` is new.
pub proof fn lemma_push_contains<T>(s: Seq<T>, v: T)
    ensures
        forall|x: T| #[trigger] s.push(v).contains(x) == (s.contains(x) || x == v),
        unique_seq(s) && !s.contains(v) ==> unique_seq(s.push(v)),
{
    let t = s.push(v);
    assert forall|x: T| t.contains(x) implies (s.contains(x) || x == v) by {
        let k = choose|k: int| 0 <= k < t.len() && t[k] == x;
        if k < s.len() {
            assert(s[k] == x);
        }
    }
    assert forall|x: T| s.contains(x) implies t.contains(x) by {
        let k = choose|k: int| 0 <= k < s.len() && s[k] == x;
        assert(t[k] == x);
    }
    assert(t[s.len() as int] == v);
    assert(t.contains(v));
}

/// Removing index `i` from a duplicate-free sequence keeps every other
/// element, drops `s[i]`, and keeps the sequence duplicate-free.
pub proof fn lemma_remove_unique<T>(s: Seq<T>, i: int)
    requires
        unique_seq(s),
        0 <= i < s.len(),
    ensures
        unique_seq(s.remove(i)),
        !s.remove(i).contains(s[i]),
        forall|x: T| x != s[i] ==> #[trigger] s.remove(i).contains(x) == s.contains(x),
        forall|x: T| #[trigger] s.remove(i).contains(x) ==> s.contains(x),
{
    let t = s.remove(i);
    assert forall|x: T| x != s[i] && s.contains(x) implies t.contains(x) by {
        let j = choose|j: int| 0 <= j < s.len() && s[j] == x;
        if j < i {
            assert(t[j] == x);
        } else {
            assert(t[j - 1] == x);
        }
    }
    assert forall|x: T| t.contains(x) implies s.contains(x) by {
        let k = choose|k: int| 0 <= k < t.len() && t[k] == x;
        if k < i {
            assert(s[k] == x);
        } else {
            assert(s[k + 1] == x);
        }
    }
    assert(!t.contains(s[i])) by {
        if t.contains(s[i]) {
            let k = choose|k: int| 0 <= k < t.len() && t[k] == s[i];
            if k < i {
                assert(s[k] == s[i]);
            } else {
                assert(s[k + 1] == s[i]);
            }
        }
    }
}

/// The per-connection demultiplexing state. Requests own a correlation id
/// until they resolve; push frames are routed by the target id registered in
/// the handler table. The socket, the frame codec and the background receive
/// loop live outside the library and consult this state through the methods
/// below.
pub struct Multiplexer {
    /// The next correlation id to hand out; ids are never reused, so every
    /// pending id is below this bound.
    pub next_correlation_id: u32,
    /// Correlation ids of requests that have been written but not resolved.
    pub pending: Vec<u32>,
    /// `handlers[id]` is true while a producer or consumer owns target id
    /// `id`. Ids are recycled only after explicit deregistration.
    pub handlers: Vec<bool>,
    /// Set once the connection is closed; every later request fails.
    pub closed: bool,
}

/// The largest number of producer/consumer ids one connection can carry:
/// target ids travel as one byte.
pub const MAX_HANDLER_IDS: usize = 256;

impl Multiplexer {
    /// The bookkeeping invariant: pending correlation ids are pairwise
    /// distinct and all below the allocation bound, and the handler table
    /// never outgrows the one-byte id space.
    pub open spec fn wf(self) -> bool {
        &&& unique_seq(self.pending@)
        &&& forall|x: u32| self.pending@.contains(x) ==> x < self.next_correlation_id
        &&& self.handlers@.len() <= 256
    }

    /// Whether a request with this correlation id is outstanding.
    pub open spec fn is_pending(self, correlation_id: u32) -> bool {
        self.pending@.contains(correlation_id)
    }

    /// Whether a producer or consumer currently owns this target id.
    pub open spec fn handler_registered(self, id: u8) -> bool {
        id < self.handlers@.len() && self.handlers@[id as int]
    }

    /// A fresh multiplexer for a newly opened connection: nothing pending,
    /// no handlers, not closed.
    pub fn new() -> (m: Multiplexer)
        ensures
            m.wf(),
            !m.closed,
            m.pending@.len() == 0,
            m.next_correlation_id == 0,
            forall|id: u8| !m.handler_registered(id),
    {
        Multiplexer {
            next_correlation_id: 0,
            pending: Vec::new(),
            handlers: Vec::new(),
            closed: false,
        }
    }

    /// Allocates the next correlation id and registers its pending slot; the
    /// caller then writes the request frame and suspends on the slot. The id
    /// handed out is never one still owed a response. Fails with
    /// `AlreadyClosed` once the connection is closed.
    pub fn register_request(&mut self) -> (r: Result<u32, ClientError>)
        requires
            old(self).wf(),
            old(self).next_correlation_id < u32::MAX,
        ensures
            final(self).wf(),
            final(self).closed == old(self).closed,
            final(self).handlers == old(self).handlers,
            old(self).closed ==> r == Err::<u32, ClientError>(ClientError::AlreadyClosed)
                && *final(self) == *old(self),
            !old(self).closed ==> {
                &&& r == Ok::<u32, ClientError>(old(self).next_correlation_id)
                &&& !old(self).is_pending(old(self).next_correlation_id)
                &&& final(self).pending@ == old(self).pending@.push(old(self).next_correlation_id)
                &&& final(self).next_correlation_id == old(self).next_correlation_id + 1
            },
    {
        if self.closed {
            return Err(ClientError::AlreadyClosed);
        }
        let cid = self.next_correlation_id;
        proof {
            lemma_push_contains(self.pending@, cid);
        }
        self.pending.push(cid);
        self.next_correlation_id = cid + 1;
        Ok(cid)
    }

    /// Resolves the pending request matching a response frame's correlation
    /// id. Returns whether a slot matched; an unmatched id is a logged
    /// protocol anomaly, not a fault, and changes nothing. A matched id
    /// leaves the table, so it resolves at most once.
    pub fn on_response(&mut self, correlation_id: u32) -> (matched: bool)
        requires
            old(self).wf(),
        ensures
            final(self).wf(),
            matched == old(self).is_pending(correlation_id),
            !final(self).is_pending(correlation_id),
            forall|x: u32| x != correlation_id
                ==> final(self).is_pending(x) == old(self).is_pending(x),
            matched ==> final(self).pending@.len() == old(self).pending@.len() - 1,
            !matched ==> *final(self) == *old(self),
            final(self).closed == old(self).closed,
            final(self).handlers == old(self).handlers,
            final(self).next_correlation_id == old(self).next_correlation_id,
    {
        let ghost orig = *old(self);
        let mut i: usize = 0;
        while i < self.pending.len()
            invariant
                *self == orig,
                orig == *old(self),
                orig.wf(),
                i <= self.pending@.len(),
                forall|j: int| 0 <= j < i ==> self.pending@[j] != correlation_id,
            decreases self.pending@.len() - i,
        {
            if self.pending[i] == correlation_id {
                proof {
                    assert(self.pending@.contains(correlation_id)) by {
                        assert(self.pending@[i as int] == correlation_id);
                    }
                    lemma_remove_unique(self.pending@, i as int);
                }
                self.pending.remove(i);
                return true;
            }
            i += 1;
        }
        assert(!self.pending@.contains(correlation_id));
        false
    }

    /// Registers a handler for push frames, handing out the lowest free
    /// target id. Returns `None` when the connection is closed or all
    /// one-byte ids are in use. A freed id is handed out again, so closing a
    /// producer or consumer leaks nothing.
    pub fn register_handler(&mut self) -> (r: Option<u8>)
        requires
            old(self).wf(),
        ensures
            final(self).wf(),
            final(self).closed == old(self).closed,
            final(self).pending == old(self).pending,
            final(self).next_correlation_id == old(self).next_correlation_id,
            old(self).closed ==> r is None && *final(self) == *old(self),
            match r {
                Some(id) => {
                    &&& !old(self).handler_registered(id)
                    &&& final(self).handler_registered(id)
                    &&& forall|j: u8| j != id
                        ==> final(self).handler_registered(j) == old(self).handler_registered(j)
                    &&& forall|j: u8| j < id ==> old(self).handler_registered(j)
                },
                None => {
                    &&& *final(self) == *old(self)
                    &&& (old(self).closed || forall|j: u8| old(self).handler_registered(j))
                },
            },
    {
        if self.closed {
            return None;
        }
        let ghost orig = *old(self);
        let mut i: usize = 0;
        while i < self.handlers.len()
            invariant
                *self == orig,
                orig == *old(self),
                !orig.closed,
                orig.wf(),
                i <= self.handlers@.len(),
                forall|j: int| 0 <= j < i ==> self.handlers@[j],
            decreases self.handlers@.len() - i,
        {
            if !self.handlers[i] {
                self.handlers.set(i, true);
                proof {
                    assert forall|j: u8| j != (i as u8) implies
                        self.handler_registered(j) == orig.handler_registered(j) by {
                        if (j as int) < self.handlers@.len() {
                            assert(self.handlers@[j as int] == orig.handlers@[j as int]);
                        }
                    }
                    assert forall|j: u8| j < (i as u8) implies orig.handler_registered(j) by {
                        assert(orig.handlers@[j as int]);
                    }
                }
                return Some(i as u8);
            }
            i += 1;
        }
        if self.handlers.len() < MAX_HANDLER_IDS {
            let id = self.handlers.len() as u8;
            self.handlers.push(true);
            proof {
                assert forall|j: u8| j != id implies
                    self.handler_registered(j) == orig.handler_registered(j) by {
                    if (j as int) < orig.handlers@.len() {
                        assert(self.handlers@[j as int] == orig.handlers@[j as int]);
                    }
                }
                assert forall|j: u8| j < id implies orig.handler_registered(j) by {
                    assert(orig.handlers@[j as int]);
                }
            }
            return Some(id);
        }
        proof {
            assert forall|j: u8| orig.handler_registered(j) by {
                assert(orig.handlers@[j as int]);
            }
        }
        None
    }

    /// Releases a target id; only after this may the id be handed out again.
    pub fn unregister_handler(&mut self, id: u8)
        requires
            old(self).wf(),
        ensures
            final(self).wf(),
            !final(self).handler_registered(id),
            forall|j: u8| j != id
                ==> final(self).handler_registered(j) == old(self).handler_registered(j),
            final(self).closed == old(self).closed,
            final(self).pending == old(self).pending,
            final(self).next_correlation_id == old(self).next_correlation_id,
    {
        if (id as usize) < self.handlers.len() {
            self.handlers.set(id as usize, false);
            proof {
                assert forall|j: u8| j != id implies
                    self.handler_registered(j) == old(self).handler_registered(j) by {
                    if (j as int) < self.handlers@.len() {
                        assert(self.handlers@[j as int] == old(self).handlers@[j as int]);
                    }
                }
            }
        }
    }

    /// The routing decision of the receive loop for a push frame: dispatch
    /// to the owner of the embedded target id if one is registered. A push
    /// for an unknown or torn-down target is a logged anomaly and is
    /// dropped; it never stalls the loop.
    pub fn route_push(&self, target_id: u8) -> (dispatch: bool)
        ensures
            dispatch == self.handler_registered(target_id),
    {
        (target_id as usize) < self.handlers.len() && self.handlers[target_id as usize]
    }

    /// Every target id currently registered, in increasing order; on
    /// connection loss each of these owners is notified exactly once.
    pub fn registered_handlers(&self) -> (ids: Vec<u8>)
        requires
            self.wf(),
        ensures
            forall|id: u8| ids@.contains(id) == self.handler_registered(id),
            forall|i: int, j: int| 0 <= i < j < ids@.len() ==> ids@[i] < ids@[j],
    {
        let mut ids: Vec<u8> = Vec::new();
        let mut i: usize = 0;
        while i < self.handlers.len()
            invariant
                i <= self.handlers@.len(),
                self.handlers@.len() <= 256,
                forall|id: u8| ids@.contains(id) == (id < i && self.handler_registered(id)),
                forall|a: int, b: int| 0 <= a < b < ids@.len() ==> ids@[a] < ids@[b],
                forall|a: int| 0 <= a < ids@.len() ==> ids@[a] < i,
            decreases self.handlers@.len() - i,
        {
            if self.handlers[i] {
                proof {
                    lemma_push_contains(ids@, i as u8);
                }
                ids.push(i as u8);
            }
            i += 1;
        }
        ids
    }

    /// Tears the connection down: every pending request is cancelled and its
    /// correlation id returned so each suspended caller resolves (with a
    /// connection-closed failure) rather than hanging; later requests fail
    /// with `AlreadyClosed`. Tearing down twice cancels nothing new.
    pub fn on_connection_lost(&mut self) -> (cancelled: Vec<u32>)
        requires
            old(self).wf(),
        ensures
            final(self).wf(),
            final(self).closed,
            final(self).pending@.len() == 0,
            cancelled@ == old(self).pending@,
            final(self).handlers == old(self).handlers,
            final(self).next_correlation_id == old(self).next_correlation_id,
    {
        self.closed = true;
        let mut cancelled: Vec<u32> = Vec::new();
        core::mem::swap(&mut cancelled, &mut self.pending);
        cancelled
    }

    /// An orderly close: the close frame is acknowledged by the broker, then
    /// the loop stops and everything pending is cancelled. Fails with
    /// `AlreadyClosed` the second time.
    pub fn close(&mut self) -> (r: Result<Vec<u32>, ClientError>)
        requires
            old(self).wf(),
        ensures
            final(self).wf(),
            old(self).closed ==> r == Err::<Vec<u32>, ClientError>(ClientError::AlreadyClosed)
                && *final(self) == *old(self),
            !old(self).closed ==> {
                &&& final(self).closed
                &&& final(self).pending@.len() == 0
                &&& final(self).handlers == old(self).handlers
                &&& final(self).next_correlation_id == old(self).next_correlation_id
                &&& match r {
                    Ok(cancelled) => cancelled@ == old(self).pending@,
                    Err(_) => false,
                }
            },
    {
        if self.closed {
            return Err(ClientError::AlreadyClosed);
        }
        Ok(self.on_connection_lost())
    }
}

} // verus!
