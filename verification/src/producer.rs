//! The publish pipeline: a producer assigns strictly increasing publishing
//! ids, batches messages until the size trigger or the time trigger fires,
//! and tracks unconfirmed ids so that every send resolves exactly once —
//! by a broker confirmation, a broker error, or a forced timeout at close.

use vstd::prelude::*;

use crate::client::lemma_push_contains;
use crate::client::lemma_remove_unique;
use crate::client::unique_seq;
use crate::error::ProducerCloseError;
use crate::error::ProducerCreateError;
use crate::error::ProducerPublishError;
use crate::types::ConfirmationStatus;
use crate::types::Message;
use crate::types::ResponseCode;

verus! {

/// Assembles a producer: optional deduplication name, the two flush
/// triggers, and whether messages will carry filter values.
pub struct ProducerBuilder {
    pub name: Option<String>,
    pub batch_size: usize,
    pub batch_publishing_delay_millis: u64,
    pub filter_value_extraction: bool,
    pub client_provided_name: String,
}

impl ProducerBuilder {
    /// Names the producer, enabling deduplication across reconnects.
    pub fn name(self, name: &str) -> (b: ProducerBuilder)
        ensures
            b == (ProducerBuilder { name: b.name, ..self }),
            b.name matches Some(n) && n@ == name@,
    {
        ProducerBuilder { name: Some(name.to_owned()), ..self }
    }

    /// Sets the size trigger: the buffer flushes when it holds this many
    /// messages.
    pub fn batch_size(self, batch_size: usize) -> (b: ProducerBuilder)
        ensures
            b == (ProducerBuilder { batch_size, ..self }),
    {
        ProducerBuilder { batch_size, ..self }
    }

    /// Sets the time trigger: the buffer flushes this many milliseconds
    /// after its first unflushed entry.
    pub fn batch_publishing_delay(self, millis: u64) -> (b: ProducerBuilder)
        ensures
            b == (ProducerBuilder { batch_publishing_delay_millis: millis, ..self }),
    {
        ProducerBuilder { batch_publishing_delay_millis: millis, ..self }
    }

    /// Declares that messages will carry filter values, which requires the
    /// broker's filtering feature at declaration time.
    pub fn filter_value_extractor(self, enable: bool) -> (b: ProducerBuilder)
        ensures
            b == (ProducerBuilder { filter_value_extraction: enable, ..self }),
    {
        ProducerBuilder { filter_value_extraction: enable, ..self }
    }

    /// Sets the connection name shown to the broker.
    pub fn client_provided_name(self, name: &str) -> (b: ProducerBuilder)
        ensures
            b == (ProducerBuilder { client_provided_name: b.client_provided_name, ..self }),
            b.client_provided_name@ == name@,
    {
        ProducerBuilder { client_provided_name: name.to_owned(), ..self }
    }

    /// Whether the local preconditions of this configuration hold:
    /// filter-value extraction needs the broker's filtering feature.
    pub open spec fn locally_valid(self, filtering_supported: bool) -> bool {
        !(self.filter_value_extraction && !filtering_supported)
    }

    /// Finishes the producer once the broker has answered the
    /// declare-publisher request. Success is owed exactly when the local
    /// preconditions hold and the broker answered ok; the producer then
    /// starts empty, with publishing ids from 0.
    pub fn build(
        self,
        stream: String,
        publisher_id: u8,
        filtering_supported: bool,
        declare_status: ResponseCode,
    ) -> (r: Result<Producer, ProducerCreateError>)
        requires
            self.batch_size >= 1,
        ensures
            r is Ok <==> (self.locally_valid(filtering_supported) && declare_status
                == ResponseCode::Okay),
            match r {
                Ok(p) => {
                    &&& p.wf()
                    &&& p.publisher_id == publisher_id
                    &&& p.stream == stream
                    &&& p.name == self.name
                    &&& p.batch_size == self.batch_size
                    &&& p.batch_publishing_delay_millis == self.batch_publishing_delay_millis
                    &&& p.buffer@.len() == 0
                    &&& p.unconfirmed@.len() == 0
                    &&& p.ids@.len() == 0
                    &&& p.resolved@.len() == 0
                    &&& p.next_publishing_id == 0
                    &&& p.flush_count == 0
                    &&& !p.closed
                },
                Err(e) => {
                    if self.filter_value_extraction && !filtering_supported {
                        e == ProducerCreateError::FilteringNotSupport
                    } else if declare_status == ResponseCode::StreamDoesNotExist {
                        e matches ProducerCreateError::StreamDoesNotExist { stream: s }
                            && s@ == stream@
                    } else {
                        e matches ProducerCreateError::Create { stream: s, status }
                            && s@ == stream@ && status == declare_status
                    }
                },
            },
    {
        if self.filter_value_extraction && !filtering_supported {
            return Err(ProducerCreateError::FilteringNotSupport);
        }
        if !declare_status.is_ok() {
            if matches!(declare_status, ResponseCode::StreamDoesNotExist) {
                return Err(ProducerCreateError::StreamDoesNotExist { stream });
            }
            return Err(ProducerCreateError::Create { stream, status: declare_status });
        }
        Ok(Producer {
            publisher_id,
            stream,
            name: self.name,
            batch_size: self.batch_size,
            batch_publishing_delay_millis: self.batch_publishing_delay_millis,
            buffer: Vec::new(),
            unconfirmed: Vec::new(),
            next_publishing_id: 0,
            flush_count: 0,
            closed: false,
            ids: Ghost(Seq::empty()),
            resolved: Ghost(Seq::empty()),
        })
    }
}

/// What one accepted send produced: the publishing id assigned to the
/// message, and — when the size trigger fired — the whole batch to
/// serialize into one outbound frame.
pub struct SendOutcome {
    pub publishing_id: u64,
    pub flushed: Option<Vec<(u64, Message)>>,
}

/// What closing produced: the final flush of the partial batch, if any, and
/// every publishing id whose confirmation never arrived, each force-failed
/// with a timeout exactly once.
pub struct CloseOutcome {
    pub flushed: Option<Vec<(u64, Message)>>,
    pub timed_out: Vec<u64>,
}

/// A live publisher on one stream: its broker-assigned id, the ordered
/// batch buffer, the confirmation table, and the publishing-id state.
pub struct Producer {
    pub publisher_id: u8,
    pub stream: String,
    pub name: Option<String>,
    /// The size trigger: the buffer flushes when it holds this many entries.
    pub batch_size: usize,
    /// The time trigger: the application calls [`Producer::flush`] this many
    /// milliseconds after the first unflushed entry.
    pub batch_publishing_delay_millis: u64,
    /// The ordered batch buffer of entries not yet flushed.
    pub buffer: Vec<(u64, Message)>,
    /// Publishing ids sent and not yet resolved.
    pub unconfirmed: Vec<u64>,
    /// The smallest publishing id a new send may be assigned.
    pub next_publishing_id: u64,
    /// How many batches have been flushed.
    pub flush_count: u64,
    pub closed: bool,
    /// Every publishing id ever assigned, in assignment order.
    pub ids: Ghost<Seq<u64>>,
    /// Every publishing id ever resolved, in resolution order.
    pub resolved: Ghost<Seq<u64>>,
}

impl Producer {
    /// The pipeline invariant. Assigned ids strictly increase and stay
    /// below the assignment bound; every assigned id is resolved or still
    /// unconfirmed, never both, and never twice; the buffer stays below the
    /// size trigger because reaching it flushes at once; a closed producer
    /// holds nothing in flight.
    pub open spec fn wf(self) -> bool {
        &&& self.batch_size >= 1
        &&& self.buffer@.len() < self.batch_size
        &&& forall|i: int, j: int| 0 <= i < j < self.ids@.len() ==> self.ids@[i] < self.ids@[j]
        &&& forall|i: int| 0 <= i < self.ids@.len() ==> self.ids@[i] < self.next_publishing_id
        &&& unique_seq(self.unconfirmed@)
        &&& unique_seq(self.resolved@)
        &&& forall|x: u64| self.ids@.contains(x) == (self.resolved@.contains(x)
            || self.unconfirmed@.contains(x))
        &&& forall|x: u64| !(self.resolved@.contains(x) && self.unconfirmed@.contains(x))
        &&& self.closed ==> self.buffer@.len() == 0 && self.unconfirmed@.len() == 0
    }

    /// The id a send of this message would be assigned: the caller-supplied
    /// id if the message carries one, else the next fresh id.
    pub open spec fn assigned_id(self, message: Message) -> u64 {
        match message.spec_publishing_id() {
            Some(id) => id,
            None => self.next_publishing_id,
        }
    }

    /// Whether a send of this message is accepted: the producer is open and
    /// a caller-supplied id exceeds every id already assigned.
    pub open spec fn send_accepted(self, message: Message) -> bool {
        &&& !self.closed
        &&& (message.spec_publishing_id() matches Some(id) ==> id >= self.next_publishing_id)
    }

    /// Sends one message: assigns its publishing id, registers the
    /// confirmation slot, appends to the batch buffer, and flushes the
    /// whole batch exactly when the buffer reaches the size trigger.
    ///
    /// Publishing ids strictly increase: a fresh id is always assigned, a
    /// caller-supplied id below the assignment bound — one that does not
    /// exceed every id already used — is rejected, and a gap above the
    /// bound is allowed.
    pub fn send(&mut self, message: Message) -> (r: Result<SendOutcome, ProducerPublishError>)
        requires
            old(self).wf(),
            old(self).next_publishing_id < u64::MAX,
            message.spec_publishing_id() matches Some(id) ==> id < u64::MAX,
            old(self).flush_count < u64::MAX,
        ensures
            final(self).wf(),
            old(self).closed ==> r == Err::<SendOutcome, ProducerPublishError>(
                ProducerPublishError::Closed,
            ) && *final(self) == *old(self),
            !old(self).closed && !old(self).send_accepted(message) ==> {
                &&& *final(self) == *old(self)
                &&& r == Err::<SendOutcome, ProducerPublishError>(
                    ProducerPublishError::PublishingIdReused {
                        id: old(self).assigned_id(message),
                    },
                )
            },
            old(self).send_accepted(message) ==> match r {
                Ok(outcome) => {
                    &&& outcome.publishing_id == old(self).assigned_id(message)
                    &&& final(self).ids@ == old(self).ids@.push(outcome.publishing_id)
                    &&& forall|i: int| 0 <= i < old(self).ids@.len()
                        ==> old(self).ids@[i] < outcome.publishing_id
                    &&& final(self).next_publishing_id == outcome.publishing_id + 1
                    &&& final(self).unconfirmed@ == old(self).unconfirmed@.push(
                        outcome.publishing_id,
                    )
                    &&& final(self).resolved@ == old(self).resolved@
                    &&& (old(self).buffer@.len() + 1 == old(self).batch_size ==> {
                        &&& outcome.flushed matches Some(batch) && batch@ == old(
                            self,
                        ).buffer@.push((outcome.publishing_id, message))
                        &&& final(self).buffer@.len() == 0
                        &&& final(self).flush_count == old(self).flush_count + 1
                    })
                    &&& (old(self).buffer@.len() + 1 < old(self).batch_size ==> {
                        &&& outcome.flushed is None
                        &&& final(self).buffer@ == old(self).buffer@.push((
                            outcome.publishing_id,
                            message,
                        ))
                        &&& final(self).flush_count == old(self).flush_count
                    })
                    &&& !final(self).closed
                    &&& final(self).batch_size == old(self).batch_size
                },
                Err(_) => false,
            },
    {
        if self.closed {
            return Err(ProducerPublishError::Closed);
        }
        let assigned: u64 = match message.publishing_id() {
            Some(id) => {
                if id < self.next_publishing_id {
                    return Err(ProducerPublishError::PublishingIdReused { id });
                }
                id
            },
            None => self.next_publishing_id,
        };
        proof {
            assert(!self.unconfirmed@.contains(assigned)) by {
                if self.unconfirmed@.contains(assigned) {
                    assert(self.ids@.contains(assigned));
                    let k = choose|k: int|
                        0 <= k < self.ids@.len() && self.ids@[k] == assigned;
                    assert(self.ids@[k] < self.next_publishing_id);
                }
            }
            assert(!self.resolved@.contains(assigned)) by {
                if self.resolved@.contains(assigned) {
                    assert(self.ids@.contains(assigned));
                    let k = choose|k: int|
                        0 <= k < self.ids@.len() && self.ids@[k] == assigned;
                    assert(self.ids@[k] < self.next_publishing_id);
                }
            }
            lemma_push_contains(self.ids@, assigned);
            lemma_push_contains(self.unconfirmed@, assigned);
        }
        self.buffer.push((assigned, message));
        self.unconfirmed.push(assigned);
        proof {
            self.ids@ = self.ids@.push(assigned);
        }
        self.next_publishing_id = assigned + 1;
        let flushed: Option<Vec<(u64, Message)>> = if self.buffer.len() == self.batch_size {
            self.flush_count = self.flush_count + 1;
            let mut batch: Vec<(u64, Message)> = Vec::new();
            core::mem::swap(&mut batch, &mut self.buffer);
            Some(batch)
        } else {
            None
        };
        Ok(SendOutcome { publishing_id: assigned, flushed })
    }

    /// Sends one message whose confirmation the application will take
    /// through a callback: the registered slot is the one-shot waiter that
    /// [`Producer::resolve_confirmation`] hands the outcome for, exactly
    /// once. The id assignment, batching and flushing are those of
    /// [`Producer::send`].
    pub fn send_with_callback(&mut self, message: Message) -> (r: Result<
        SendOutcome,
        ProducerPublishError,
    >)
        requires
            old(self).wf(),
            old(self).next_publishing_id < u64::MAX,
            message.spec_publishing_id() matches Some(id) ==> id < u64::MAX,
            old(self).flush_count < u64::MAX,
        ensures
            final(self).wf(),
            old(self).closed ==> r == Err::<SendOutcome, ProducerPublishError>(
                ProducerPublishError::Closed,
            ) && *final(self) == *old(self),
            !old(self).closed && !old(self).send_accepted(message) ==> {
                &&& *final(self) == *old(self)
                &&& r == Err::<SendOutcome, ProducerPublishError>(
                    ProducerPublishError::PublishingIdReused {
                        id: old(self).assigned_id(message),
                    },
                )
            },
            old(self).send_accepted(message) ==> match r {
                Ok(outcome) => {
                    &&& outcome.publishing_id == old(self).assigned_id(message)
                    &&& final(self).ids@ == old(self).ids@.push(outcome.publishing_id)
                    &&& forall|i: int| 0 <= i < old(self).ids@.len()
                        ==> old(self).ids@[i] < outcome.publishing_id
                    &&& final(self).next_publishing_id == outcome.publishing_id + 1
                    &&& final(self).unconfirmed@ == old(self).unconfirmed@.push(
                        outcome.publishing_id,
                    )
                    &&& final(self).resolved@ == old(self).resolved@
                    &&& (old(self).buffer@.len() + 1 == old(self).batch_size ==> {
                        &&& outcome.flushed matches Some(batch) && batch@ == old(
                            self,
                        ).buffer@.push((outcome.publishing_id, message))
                        &&& final(self).buffer@.len() == 0
                        &&& final(self).flush_count == old(self).flush_count + 1
                    })
                    &&& (old(self).buffer@.len() + 1 < old(self).batch_size ==> {
                        &&& outcome.flushed is None
                        &&& final(self).buffer@ == old(self).buffer@.push((
                            outcome.publishing_id,
                            message,
                        ))
                        &&& final(self).flush_count == old(self).flush_count
                    })
                    &&& !final(self).closed
                    &&& final(self).batch_size == old(self).batch_size
                },
                Err(_) => false,
            },
    {
        self.send(message)
    }

    /// The time trigger: flushes the partial batch when the publishing
    /// delay has elapsed since its first entry. Returns the batch to
    /// serialize into one outbound frame, or nothing when the buffer was
    /// empty — an empty buffer is never a flush.
    pub fn flush(&mut self) -> (batch: Option<Vec<(u64, Message)>>)
        requires
            old(self).wf(),
            old(self).flush_count < u64::MAX,
        ensures
            final(self).wf(),
            final(self).buffer@.len() == 0,
            old(self).buffer@.len() > 0 ==> (batch matches Some(b) && b@ == old(self).buffer@
                && final(self).flush_count == old(self).flush_count + 1),
            old(self).buffer@.len() == 0 ==> batch is None && *final(self) == *old(self),
            *final(self) == (Producer {
                buffer: final(self).buffer,
                flush_count: final(self).flush_count,
                ..*old(self)
            }),
    {
        if self.buffer.len() == 0 {
            return None;
        }
        self.flush_count = self.flush_count + 1;
        let mut batch: Vec<(u64, Message)> = Vec::new();
        core::mem::swap(&mut batch, &mut self.buffer);
        Some(batch)
    }

    /// Resolves one publishing id with the outcome a broker push carried
    /// for it. The id's waiter gets the outcome exactly once: a matching id
    /// leaves the confirmation table and the outcome is returned for its
    /// waiter; an id with no waiter — already resolved or never assigned —
    /// is ignored.
    pub fn resolve_confirmation(&mut self, id: u64, outcome: ConfirmationStatus) -> (r: Option<
        ConfirmationStatus,
    >)
        requires
            old(self).wf(),
        ensures
            final(self).wf(),
            old(self).unconfirmed@.contains(id) ==> {
                &&& r == Some(outcome)
                &&& !final(self).unconfirmed@.contains(id)
                &&& final(self).resolved@ == old(self).resolved@.push(id)
                &&& final(self).resolved@.contains(id)
                &&& forall|x: u64| x != id ==> final(self).unconfirmed@.contains(x) == old(
                    self,
                ).unconfirmed@.contains(x)
                &&& final(self).unconfirmed@.len() == old(self).unconfirmed@.len() - 1
            },
            !old(self).unconfirmed@.contains(id) ==> r is None && *final(self) == *old(self),
            final(self).ids == old(self).ids,
            final(self).buffer == old(self).buffer,
            final(self).closed == old(self).closed,
            final(self).flush_count == old(self).flush_count,
            final(self).next_publishing_id == old(self).next_publishing_id,
    {
        let ghost orig = *old(self);
        let mut i: usize = 0;
        while i < self.unconfirmed.len()
            invariant
                *self == orig,
                orig == *old(self),
                orig.wf(),
                i <= self.unconfirmed@.len(),
                forall|j: int| 0 <= j < i ==> self.unconfirmed@[j] != id,
            decreases self.unconfirmed@.len() - i,
        {
            if self.unconfirmed[i] == id {
                proof {
                    assert(self.unconfirmed@.contains(id)) by {
                        assert(self.unconfirmed@[i as int] == id);
                    }
                    lemma_remove_unique(self.unconfirmed@, i as int);
                    lemma_push_contains(self.resolved@, id);
                }
                self.unconfirmed.remove(i);
                proof {
                    self.resolved@ = self.resolved@.push(id);
                }
                return Some(outcome);
            }
            i += 1;
        }
        assert(!self.unconfirmed@.contains(id));
        None
    }

    /// Closes the producer: the partial batch flushes one last time, and
    /// every id still unconfirmed is force-failed with a timeout — each
    /// exactly once, so no send is ever silently forgotten. Closing twice
    /// fails with `AlreadyClosed`; sending after close fails with `Closed`.
    pub fn close(&mut self) -> (r: Result<CloseOutcome, ProducerCloseError>)
        requires
            old(self).wf(),
            old(self).flush_count < u64::MAX,
        ensures
            final(self).wf(),
            old(self).closed ==> r == Err::<CloseOutcome, ProducerCloseError>(
                ProducerCloseError::AlreadyClosed,
            ) && *final(self) == *old(self),
            !old(self).closed ==> match r {
                Ok(outcome) => {
                    &&& final(self).closed
                    &&& final(self).buffer@.len() == 0
                    &&& final(self).unconfirmed@.len() == 0
                    &&& outcome.timed_out@ == old(self).unconfirmed@
                    &&& final(self).resolved@ == old(self).resolved@ + old(self).unconfirmed@
                    &&& final(self).ids@ == old(self).ids@
                    &&& (old(self).buffer@.len() > 0 ==> (outcome.flushed matches Some(b)
                        && b@ == old(self).buffer@
                        && final(self).flush_count == old(self).flush_count + 1))
                    &&& (old(self).buffer@.len() == 0 ==> outcome.flushed is None
                        && final(self).flush_count == old(self).flush_count)
                    &&& *final(self) == (Producer {
                        buffer: final(self).buffer,
                        unconfirmed: final(self).unconfirmed,
                        flush_count: final(self).flush_count,
                        resolved: final(self).resolved,
                        closed: true,
                        ..*old(self)
                    })
                },
                Err(_) => false,
            },
    {
        if self.closed {
            return Err(ProducerCloseError::AlreadyClosed);
        }
        let flushed = self.flush();
        let mut timed_out: Vec<u64> = Vec::new();
        core::mem::swap(&mut timed_out, &mut self.unconfirmed);
        proof {
            lemma_concat_contains(self.resolved@, timed_out@);
            lemma_concat_unique_disjoint(self.resolved@, timed_out@);
            self.resolved@ = self.resolved@ + timed_out@;
        }
        self.closed = true;
        Ok(CloseOutcome { flushed, timed_out })
    }

    /// The outcome of the delete-publisher request that ends an orderly
    /// close: any non-ok status surfaces with the stream's name.
    pub fn delete_publisher_outcome(&self, status: ResponseCode) -> (r: Result<
        (),
        ProducerCloseError,
    >)
        ensures
            status == ResponseCode::Okay <==> r is Ok,
            status != ResponseCode::Okay ==> (match r {
                Err(ProducerCloseError::Close { stream: s, status: st }) => s@ == self.stream@
                    && st == status,
                _ => false,
            }),
    {
        if status.is_ok() {
            Ok(())
        } else {
            Err(ProducerCloseError::Close { stream: self.stream.clone(), status })
        }
    }

    /// Whether the producer has been closed.
    pub fn is_closed(&self) -> (r: bool)
        ensures
            r == self.closed,
    {
        self.closed
    }
}

/// Concatenation holds exactly the elements of its two parts.
proof fn lemma_concat_contains<T>(s1: Seq<T>, s2: Seq<T>)
    ensures
        forall|x: T| #[trigger] (s1 + s2).contains(x) == (s1.contains(x) || s2.contains(x)),
{
    let t = s1 + s2;
    assert forall|x: T| t.contains(x) implies (s1.contains(x) || s2.contains(x)) by {
        let k = choose|k: int| 0 <= k < t.len() && t[k] == x;
        if k < s1.len() {
            assert(s1[k] == x);
        } else {
            assert(s2[k - s1.len()] == x);
        }
    }
    assert forall|x: T| s1.contains(x) || s2.contains(x) implies t.contains(x) by {
        if s1.contains(x) {
            let k = choose|k: int| 0 <= k < s1.len() && s1[k] == x;
            assert(t[k] == x);
        } else {
            let k = choose|k: int| 0 <= k < s2.len() && s2[k] == x;
            assert(t[k + s1.len()] == x);
        }
    }
}

/// Concatenating two duplicate-free sequences with no common element stays
/// duplicate-free.
proof fn lemma_concat_unique_disjoint<T>(s1: Seq<T>, s2: Seq<T>)
    requires
        unique_seq(s1),
        unique_seq(s2),
        forall|x: T| !(s1.contains(x) && s2.contains(x)),
    ensures
        unique_seq(s1 + s2),
{
    let t = s1 + s2;
    assert forall|i: int, j: int| 0 <= i < j < t.len() implies t[i] != t[j] by {
        if i < s1.len() && j >= s1.len() {
            assert(s1.contains(t[i])) by {
                assert(s1[i] == t[i]);
            }
            assert(s2.contains(t[j])) by {
                assert(s2[j - s1.len()] == t[j]);
            }
        }
    }
}

/// How many messages are still buffered after `n` accepted sends on a fresh
/// producer with size trigger `b`, when the sends complete faster than the
/// publishing delay (so the time trigger never fires). Mirrors what
/// [`Producer::send`] ensures of the buffer at each step.
pub open spec fn buffered_after_sends(n: nat, b: nat) -> nat
    decreases n,
{
    if n == 0 {
        0
    } else if buffered_after_sends((n - 1) as nat, b) + 1 == b {
        0
    } else {
        buffered_after_sends((n - 1) as nat, b) + 1
    }
}

/// How many flushes `n` such sends have performed. Mirrors what
/// [`Producer::send`] ensures of the flush count at each step: a flush
/// happens exactly when the buffer reaches the size trigger.
pub open spec fn flushes_after_sends(n: nat, b: nat) -> nat
    decreases n,
{
    if n == 0 {
        0
    } else if buffered_after_sends((n - 1) as nat, b) + 1 == b {
        flushes_after_sends((n - 1) as nat, b) + 1
    } else {
        flushes_after_sends((n - 1) as nat, b)
    }
}

/// One more message into a buffer of `k % b` entries flushes exactly when it
/// fills the batch.
proof fn lemma_div_mod_step(k: nat, b: nat)
    requires
        b >= 1,
    ensures
        k % b + 1 == b ==> (k + 1) / b == k / b + 1 && (k + 1) % b == 0,
        k % b + 1 < b ==> (k + 1) / b == k / b && (k + 1) % b == k % b + 1,
{
    let q = (k as int) / (b as int);
    let r = (k as int) % (b as int);
    vstd::arithmetic::div_mod::lemma_fundamental_div_mod(k as int, b as int);
    if r + 1 == b {
        assert(k + 1 == (q + 1) * (b as int) + 0) by (nonlinear_arith)
            requires
                k as int == q * (b as int) + r,
                r + 1 == b as int,
        ;
        vstd::arithmetic::div_mod::lemma_fundamental_div_mod_converse(
            k as int + 1,
            b as int,
            q + 1,
            0,
        );
    } else {
        vstd::arithmetic::div_mod::lemma_fundamental_div_mod_converse(
            k as int + 1,
            b as int,
            q,
            r + 1,
        );
    }
}

/// For `n` sends on a producer with size trigger `b`, when sends complete
/// faster than the publishing delay, exactly `n / b` flushes have occurred
/// and `n % b` messages are still buffered.
pub proof fn lemma_batching_counts(n: nat, b: nat)
    requires
        b >= 1,
    ensures
        flushes_after_sends(n, b) == n / b,
        buffered_after_sends(n, b) == n % b,
    decreases n,
{
    if n > 0 {
        lemma_batching_counts((n - 1) as nat, b);
        lemma_div_mod_step((n - 1) as nat, b);
    }
}

/// For `n` sends on a producer with size trigger `b`, when sends complete
/// faster than the publishing delay, closing the producer flushes the
/// partial batch, for a total of exactly `(n + b - 1) / b` flushes — the
/// number of full batches, rounded up.
pub proof fn lemma_total_flushes_with_close(n: nat, b: nat)
    requires
        b >= 1,
    ensures
        flushes_after_sends(n, b) + (if buffered_after_sends(n, b) > 0 {
            1nat
        } else {
            0nat
        }) == (n + b - 1) / (b as int),
{
    lemma_batching_counts(n, b);
    let q = (n as int) / (b as int);
    let r = (n as int) % (b as int);
    vstd::arithmetic::div_mod::lemma_fundamental_div_mod(n as int, b as int);
    if r == 0 {
        assert(n + b - 1 == q * (b as int) + (b as int - 1)) by (nonlinear_arith)
            requires
                n as int == q * (b as int) + r,
                r == 0,
                b >= 1,
        ;
        vstd::arithmetic::div_mod::lemma_fundamental_div_mod_converse(
            n as int + b as int - 1,
            b as int,
            q,
            b as int - 1,
        );
    } else {
        {
            assert(n + b - 1 == (q + 1) * (b as int) + (r - 1)) by (nonlinear_arith)
                requires
                    n as int == q * (b as int) + r,
            ;
            vstd::arithmetic::div_mod::lemma_fundamental_div_mod_converse(
                n as int + b as int - 1,
                b as int,
                q + 1,
                r - 1,
            );
        }
    }
}

/// Publishing ids strictly increase per producer instance: the history of
/// assigned ids is strictly sorted, so a reused id is impossible and gaps
/// from caller-supplied ids are harmless.
pub proof fn lemma_publishing_ids_strictly_increase(p: Producer)
    requires
        p.wf(),
    ensures
        forall|i: int, j: int| 0 <= i < j < p.ids@.len() ==> p.ids@[i] < p.ids@[j],
{
}

/// Every send resolves exactly once. Once a producer is closed, every
/// publishing id it ever assigned is in its resolution history — confirmed,
/// rejected, or timed out — and appears there exactly once; no send is
/// silently forgotten.
pub proof fn lemma_every_send_resolves(p: Producer)
    requires
        p.wf(),
        p.closed,
    ensures
        forall|x: u64| p.ids@.contains(x) ==> p.resolved@.contains(x),
        unique_seq(p.resolved@),
{
    assert forall|x: u64| p.ids@.contains(x) implies p.resolved@.contains(x) by {
        assert(!p.unconfirmed@.contains(x));
    }
}

} // verus!
