//! The delivery pipeline: a consumer subscribes at an offset, unpacks
//! delivery chunks in broker-assigned order, and keeps the broker supplied
//! with credit so that delivery never starves while never exceeding the
//! configured ceiling.

use vstd::prelude::*;

use crate::error::ConsumerCloseError;
use crate::error::ConsumerCreateError;
use crate::error::ConsumerDeliveryError;
use crate::error::ConsumerStoreOffsetError;
use crate::types::Delivery;
use crate::types::Message;
use crate::types::OffsetSpecification;
use crate::types::ResponseCode;

verus! {

/// Server-side filtering: the broker sends only chunks that may match one of
/// these values; `match_unfiltered` additionally lets unfiltered messages
/// through. The final client-side check is the application's predicate.
#[derive(Clone, Debug)]
pub struct FilterConfiguration {
    pub values: Vec<String>,
    pub match_unfiltered: bool,
}

/// Assembles a consumer: name, initial offset, optional server-side
/// filtering, optional single-active-consumer membership.
pub struct ConsumerBuilder {
    pub consumer_name: Option<String>,
    pub offset_specification: OffsetSpecification,
    pub filter_configuration: Option<FilterConfiguration>,
    pub single_active_consumer: bool,
    pub client_provided_name: String,
    pub properties: Vec<(String, String)>,
}

impl ConsumerBuilder {
    /// Names the consumer; the name keys stored offsets and single-active
    /// groups.
    pub fn name(self, consumer_name: &str) -> (b: ConsumerBuilder)
        ensures
            b == (ConsumerBuilder { consumer_name: b.consumer_name, ..self }),
            b.consumer_name matches Some(n) && n@ == consumer_name@,
    {
        ConsumerBuilder { consumer_name: Some(consumer_name.to_owned()), ..self }
    }

    /// Sets the initial read position.
    pub fn offset(self, offset_specification: OffsetSpecification) -> (b: ConsumerBuilder)
        ensures
            b == (ConsumerBuilder { offset_specification, ..self }),
    {
        ConsumerBuilder { offset_specification, ..self }
    }

    /// Installs a server-side filter configuration.
    pub fn filter_input(self, filter_configuration: Option<FilterConfiguration>) -> (b:
        ConsumerBuilder)
        ensures
            b == (ConsumerBuilder { filter_configuration: b.filter_configuration, ..self }),
            b.filter_configuration == filter_configuration,
    {
        ConsumerBuilder { filter_configuration, ..self }
    }

    /// Joins a single-active-consumer group: the broker keeps one member of
    /// the named group active at a time.
    pub fn enable_single_active_consumer(self, enable: bool) -> (b: ConsumerBuilder)
        ensures
            b == (ConsumerBuilder { single_active_consumer: enable, ..self }),
    {
        ConsumerBuilder { single_active_consumer: enable, ..self }
    }

    /// Sets the connection name shown to the broker.
    pub fn client_provided_name(self, name: &str) -> (b: ConsumerBuilder)
        ensures
            b == (ConsumerBuilder { client_provided_name: b.client_provided_name, ..self }),
            b.client_provided_name@ == name@,
    {
        ConsumerBuilder { client_provided_name: name.to_owned(), ..self }
    }

    /// Attaches one arbitrary string property to the subscription.
    pub fn property(self, key: String, value: String) -> (b: ConsumerBuilder)
        ensures
            b == (ConsumerBuilder { properties: b.properties, ..self }),
            b.properties@ == self.properties@.push((key, value)),
    {
        let mut b = self;
        b.properties.push((key, value));
        b
    }

    /// Whether the local preconditions of this configuration hold: a
    /// single-active-consumer group needs a name, and filtering needs the
    /// broker's filtering feature.
    pub open spec fn locally_valid(self, filtering_supported: bool) -> bool {
        &&& !(self.single_active_consumer && self.consumer_name is None)
        &&& !(self.filter_configuration is Some && !filtering_supported)
    }

    /// Checks the local preconditions; these fail before any network call.
    pub fn validate(&self, filtering_supported: bool) -> (r: Result<(), ConsumerCreateError>)
        ensures
            r is Ok <==> self.locally_valid(filtering_supported),
            self.single_active_consumer && self.consumer_name is None ==> r == Err::<
                (),
                ConsumerCreateError,
            >(ConsumerCreateError::SingleActiveConsumerNotSupported),
            !(self.single_active_consumer && self.consumer_name is None)
                && self.filter_configuration is Some && !filtering_supported ==> r == Err::<
                (),
                ConsumerCreateError,
            >(ConsumerCreateError::FilteringNotSupport),
    {
        if self.single_active_consumer && self.consumer_name.is_none() {
            return Err(ConsumerCreateError::SingleActiveConsumerNotSupported);
        }
        if self.filter_configuration.is_some() && !filtering_supported {
            return Err(ConsumerCreateError::FilteringNotSupport);
        }
        Ok(())
    }

    /// Finishes the consumer once the broker has answered the subscribe
    /// request. Success is owed exactly when the local preconditions hold
    /// and the broker answered ok; the consumer then starts fully supplied
    /// with credit.
    pub fn build(
        self,
        stream: String,
        subscription_id: u8,
        filtering_supported: bool,
        subscribe_status: ResponseCode,
        max_credit: u32,
        refill_threshold: u32,
    ) -> (r: Result<Consumer, ConsumerCreateError>)
        requires
            1 <= refill_threshold <= max_credit,
        ensures
            r is Ok <==> (self.locally_valid(filtering_supported) && subscribe_status
                == ResponseCode::Okay),
            match r {
                Ok(c) => {
                    &&& c.wf()
                    &&& c.subscription_id == subscription_id
                    &&& c.stream == stream
                    &&& c.name == self.consumer_name
                    &&& c.single_active == self.single_active_consumer
                    &&& c.offset == 0
                    &&& c.credit == max_credit
                    &&& c.max_credit == max_credit
                    &&& c.refill_threshold == refill_threshold
                    &&& !c.closed
                },
                Err(e) => {
                    if self.single_active_consumer && self.consumer_name is None {
                        e == ConsumerCreateError::SingleActiveConsumerNotSupported
                    } else if self.filter_configuration is Some && !filtering_supported {
                        e == ConsumerCreateError::FilteringNotSupport
                    } else if subscribe_status == ResponseCode::StreamDoesNotExist {
                        e matches ConsumerCreateError::StreamDoesNotExist { stream: s }
                            && s@ == stream@
                    } else {
                        e matches ConsumerCreateError::Create { stream: s, status }
                            && s@ == stream@ && status == subscribe_status
                    }
                },
            },
    {
        if let Err(e) = self.validate(filtering_supported) {
            return Err(e);
        }
        if !subscribe_status.is_ok() {
            if matches!(subscribe_status, ResponseCode::StreamDoesNotExist) {
                return Err(ConsumerCreateError::StreamDoesNotExist { stream });
            }
            return Err(ConsumerCreateError::Create { stream, status: subscribe_status });
        }
        Ok(Consumer {
            subscription_id,
            stream,
            name: self.consumer_name,
            single_active: self.single_active_consumer,
            active: true,
            offset: 0,
            credit: max_credit,
            max_credit,
            refill_threshold,
            closed: false,
        })
    }
}

/// A live subscription: its id on the connection, its position in the
/// stream, and the credit bookkeeping that keeps deliveries flowing.
pub struct Consumer {
    pub subscription_id: u8,
    pub stream: String,
    pub name: Option<String>,
    /// Whether this member of a single-active-consumer group is the active
    /// one; always true outside such a group.
    pub single_active: bool,
    pub active: bool,
    /// One past the broker-assigned offset of the last message this
    /// consumer processed; zero until the first delivery. The broker owns
    /// offset assignment — this only records how far delivery has come.
    pub offset: u64,
    /// Chunks the broker may still deliver without a further grant.
    pub credit: u32,
    /// The ceiling credit may never exceed.
    pub max_credit: u32,
    /// A new block is granted as soon as credit drains below this.
    pub refill_threshold: u32,
    pub closed: bool,
}

impl Consumer {
    /// The credit invariant: the threshold is positive, credit never
    /// exceeds the ceiling, and — because a grant goes out the moment
    /// credit drains below the threshold — an open consumer always leaves
    /// the broker at least `refill_threshold` chunks of headroom. The
    /// broker therefore never starves waiting on the client.
    pub open spec fn wf(self) -> bool {
        &&& 1 <= self.refill_threshold <= self.max_credit
        &&& !self.closed ==> self.refill_threshold <= self.credit <= self.max_credit
    }

    /// Unpacks one delivery chunk whose first message the broker assigned
    /// `base_offset`. The messages come out in broker-assigned order, each
    /// tagged with this subscription's id and its absolute offset in the
    /// stream — `base_offset` plus its place in the chunk; the chunk
    /// consumes one credit, and the returned grant (zero when none is due)
    /// tops credit back up to the ceiling as soon as it drains below the
    /// refill threshold — never beyond the ceiling.
    pub fn on_delivery(&mut self, base_offset: u64, messages: Vec<Message>) -> (r: (
        Vec<Delivery>,
        u32,
    ))
        requires
            old(self).wf(),
            !old(self).closed,
            base_offset + messages@.len() <= u64::MAX,
        ensures
            final(self).wf(),
            !final(self).closed,
            r.0@.len() == messages@.len(),
            forall|i: int| 0 <= i < messages@.len() ==> {
                &&& (#[trigger] r.0@[i]).subscription_id == old(self).subscription_id
                &&& r.0@[i].offset == base_offset + i
                &&& r.0@[i].message == messages@[i]
            },
            messages@.len() > 0 ==> final(self).offset == base_offset + messages@.len(),
            messages@.len() == 0 ==> final(self).offset == old(self).offset,
            old(self).credit - 1 < old(self).refill_threshold ==> {
                &&& final(self).credit == old(self).max_credit
                &&& r.1 == old(self).max_credit - (old(self).credit - 1)
            },
            old(self).credit - 1 >= old(self).refill_threshold ==> {
                &&& final(self).credit == old(self).credit - 1
                &&& r.1 == 0
            },
            r.1 + old(self).credit - 1 <= old(self).max_credit,
            final(self).credit >= final(self).refill_threshold,
            *final(self) == (Consumer {
                offset: final(self).offset,
                credit: final(self).credit,
                ..*old(self)
            }),
    {
        let mut deliveries: Vec<Delivery> = Vec::new();
        let mut messages = messages;
        let ghost all = messages@;
        let total: usize = messages.len();
        let base = base_offset;
        let mut i: usize = 0;
        while messages.len() > 0
            invariant
                all.len() == total,
                i + messages@.len() == all.len(),
                base + all.len() <= u64::MAX,
                messages@ == all.subrange(i as int, all.len() as int),
                deliveries@.len() == i,
                forall|k: int| 0 <= k < i ==> {
                    &&& (#[trigger] deliveries@[k]).subscription_id == self.subscription_id
                    &&& deliveries@[k].offset == base + k
                    &&& deliveries@[k].message == all[k]
                },
                *self == *old(self),
            decreases messages@.len(),
        {
            let m = messages.remove(0);
            proof {
                let rest = all.subrange(i as int, all.len() as int);
                assert(m == rest[0] && rest[0] == all[i as int]);
                assert(rest.remove(0) =~= all.subrange(i as int + 1, all.len() as int));
            }
            deliveries.push(Delivery {
                subscription_id: self.subscription_id,
                offset: base + (i as u64),
                message: m,
            });
            i += 1;
        }
        if i > 0 {
            self.offset = base + (i as u64);
        }
        let spent = self.credit - 1;
        let granted: u32 = if spent < self.refill_threshold {
            let g = self.max_credit - spent;
            self.credit = self.max_credit;
            g
        } else {
            self.credit = spent;
            0
        };
        (deliveries, granted)
    }

    /// The content of a store-offset request: the configured name and the
    /// offset reached. Fails with `NameMissing` exactly when no name was
    /// configured — there is nothing to persist the offset under.
    pub fn store_offset(&self) -> (r: Result<(String, u64), ConsumerStoreOffsetError>)
        ensures
            r is Ok <==> self.name is Some,
            match r {
                Ok((name, offset)) => self.name matches Some(n) && n@ == name@
                    && offset == self.offset,
                Err(e) => e == ConsumerStoreOffsetError::NameMissing,
            },
    {
        match &self.name {
            Some(n) => Ok((n.clone(), self.offset)),
            None => Err(ConsumerStoreOffsetError::NameMissing),
        }
    }

    /// The outcome of a credit request the broker rejected: any non-ok
    /// status surfaces with the stream's name.
    pub fn credit_outcome(&self, status: ResponseCode) -> (r: Result<(), ConsumerDeliveryError>)
        ensures
            status == ResponseCode::Okay <==> r is Ok,
            status != ResponseCode::Okay ==> (match r {
                Err(ConsumerDeliveryError::Credit { stream: s, status: st }) => s@ == self.stream@
                    && st == status,
                _ => false,
            }),
    {
        if status.is_ok() {
            Ok(())
        } else {
            Err(ConsumerDeliveryError::Credit { stream: self.stream.clone(), status })
        }
    }

    /// Handles a single-active-consumer rebalance push. On activation the
    /// member resumes from the last stored offset if one is known, else
    /// from the position it had reached; on deactivation delivery stops
    /// until the broker activates it again.
    pub fn on_consumer_update(&mut self, active: bool, stored_offset: Option<u64>) -> (r: Option<
        OffsetSpecification,
    >)
        requires
            old(self).wf(),
        ensures
            final(self).wf(),
            *final(self) == (Consumer { active, ..*old(self) }),
            active ==> r == Some(match stored_offset {
                Some(o) => OffsetSpecification::Offset(o),
                None => OffsetSpecification::Offset(old(self).offset),
            }),
            !active ==> r is None,
    {
        self.active = active;
        if active {
            match stored_offset {
                Some(o) => Some(OffsetSpecification::Offset(o)),
                None => Some(OffsetSpecification::Offset(self.offset)),
            }
        } else {
            None
        }
    }

    /// Closes the subscription once the broker has answered the unsubscribe
    /// request: on ok the consumer stops (no credit is ever granted after
    /// this); on any other status the rejection surfaces and the consumer
    /// stays usable. Closing twice fails with `AlreadyClosed`.
    pub fn close(&mut self, unsubscribe_status: ResponseCode) -> (r: Result<
        (),
        ConsumerCloseError,
    >)
        requires
            old(self).wf(),
        ensures
            final(self).wf(),
            old(self).closed ==> r == Err::<(), ConsumerCloseError>(
                ConsumerCloseError::AlreadyClosed,
            ) && *final(self) == *old(self),
            !old(self).closed ==> {
                &&& (r is Ok <==> unsubscribe_status == ResponseCode::Okay)
                &&& (unsubscribe_status == ResponseCode::Okay ==> final(self).closed
                    && *final(self) == (Consumer { closed: true, ..*old(self) }))
                &&& (unsubscribe_status != ResponseCode::Okay ==> *final(self) == *old(self)
                    && (match r {
                        Err(ConsumerCloseError::Close { stream: s, status }) => s@
                            == old(self).stream@ && status == unsubscribe_status,
                        _ => false,
                    }))
            },
    {
        if self.closed {
            return Err(ConsumerCloseError::AlreadyClosed);
        }
        if unsubscribe_status.is_ok() {
            self.closed = true;
            Ok(())
        } else {
            Err(ConsumerCloseError::Close {
                stream: self.stream.clone(),
                status: unsubscribe_status,
            })
        }
    }
}

/// An open consumer can always take delivery of the next chunk: credit
/// stays at or above the refill threshold, which is positive, so with
/// unlimited messages available the broker is never starved by the client.
pub proof fn lemma_credit_never_exhausted(c: Consumer)
    requires
        c.wf(),
        !c.closed,
    ensures
        c.credit >= c.refill_threshold,
        c.credit >= 1,
{
}

} // verus!
