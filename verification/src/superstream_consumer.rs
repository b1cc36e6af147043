//! A consumer over a super-stream: one consumer per partition, their
//! delivery sequences merged, each partition's offset tracked independently.

use vstd::prelude::*;

use crate::consumer::Consumer;
use crate::consumer::FilterConfiguration;
use crate::types::Delivery;
use crate::types::Message;
use crate::types::OffsetSpecification;

verus! {

/// Assembles a super-stream consumer.
pub struct SuperStreamConsumerBuilder {
    pub offset_specification: OffsetSpecification,
    pub filter_configuration: Option<FilterConfiguration>,
    pub client_provided_name: String,
    pub properties: Vec<(String, String)>,
}

impl SuperStreamConsumerBuilder {
    /// Sets the initial read position of every partition consumer.
    pub fn offset(self, offset_specification: OffsetSpecification) -> (b:
        SuperStreamConsumerBuilder)
        ensures
            b == (SuperStreamConsumerBuilder { offset_specification, ..self }),
    {
        SuperStreamConsumerBuilder { offset_specification, ..self }
    }

    /// Installs a server-side filter configuration for every partition.
    pub fn filter_input(self, filter_configuration: Option<FilterConfiguration>) -> (b:
        SuperStreamConsumerBuilder)
        ensures
            b == (SuperStreamConsumerBuilder {
                filter_configuration: b.filter_configuration,
                ..self
            }),
            b.filter_configuration == filter_configuration,
    {
        SuperStreamConsumerBuilder { filter_configuration, ..self }
    }

    /// Sets the connection name shown to the broker.
    pub fn client_provided_name(self, name: &str) -> (b: SuperStreamConsumerBuilder)
        ensures
            b == (SuperStreamConsumerBuilder {
                client_provided_name: b.client_provided_name,
                ..self
            }),
            b.client_provided_name@ == name@,
    {
        SuperStreamConsumerBuilder { client_provided_name: name.to_owned(), ..self }
    }

    /// Finishes the super-stream consumer from the partition consumers
    /// already declared, one per partition stream.
    pub fn build(self, consumers: Vec<Consumer>) -> (c: SuperStreamConsumer)
        requires
            forall|i: int| 0 <= i < consumers@.len() ==> (#[trigger] consumers@[i]).wf(),
        ensures
            c.wf(),
            c.consumers == consumers,
    {
        SuperStreamConsumer { consumers }
    }
}

/// A super-stream consumer: one live consumer per partition. Deliveries of
/// all partitions merge into one sequence; each partition's offset advances
/// on its own.
pub struct SuperStreamConsumer {
    pub consumers: Vec<Consumer>,
}

impl SuperStreamConsumer {
    /// Every partition consumer is well formed.
    pub open spec fn wf(self) -> bool {
        forall|i: int| 0 <= i < self.consumers@.len() ==> (#[trigger] self.consumers@[i]).wf()
    }

    /// Unpacks a delivery chunk of one partition, whose first message the
    /// broker assigned `base_offset`, and merges it into the shared
    /// sequence. Only that partition's consumer moves — its offset advances
    /// and its credit is replenished exactly as [`Consumer::on_delivery`]
    /// says; every other partition is untouched.
    pub fn on_partition_delivery(
        &mut self,
        partition: usize,
        base_offset: u64,
        messages: Vec<Message>,
    ) -> (r: (Vec<Delivery>, u32))
        requires
            old(self).wf(),
            partition < old(self).consumers@.len(),
            !old(self).consumers@[partition as int].closed,
            base_offset + messages@.len() <= u64::MAX,
        ensures
            final(self).wf(),
            final(self).consumers@.len() == old(self).consumers@.len(),
            forall|i: int| 0 <= i < old(self).consumers@.len() && i != partition
                ==> final(self).consumers@[i] == old(self).consumers@[i],
            r.0@.len() == messages@.len(),
            forall|i: int| 0 <= i < messages@.len() ==> {
                &&& (#[trigger] r.0@[i]).subscription_id == old(self).consumers@[
                    partition as int].subscription_id
                &&& r.0@[i].offset == base_offset + i
                &&& r.0@[i].message == messages@[i]
            },
            ({
                let before = old(self).consumers@[partition as int];
                let after = final(self).consumers@[partition as int];
                &&& !after.closed
                &&& (messages@.len() > 0 ==> after.offset == base_offset + messages@.len())
                &&& (messages@.len() == 0 ==> after.offset == before.offset)
                &&& (before.credit - 1 < before.refill_threshold ==> after.credit
                    == before.max_credit && r.1 == before.max_credit - (before.credit - 1))
                &&& (before.credit - 1 >= before.refill_threshold ==> after.credit
                    == before.credit - 1 && r.1 == 0)
                &&& r.1 + before.credit - 1 <= before.max_credit
                &&& after.credit >= after.refill_threshold
                &&& after == (Consumer { offset: after.offset, credit: after.credit, ..before })
            }),
    {
        let consumer = &mut self.consumers[partition];
        consumer.on_delivery(base_offset, messages)
    }

    /// How many partitions the super-stream consumer reads.
    pub fn partition_count(&self) -> (n: usize)
        ensures
            n == self.consumers@.len(),
    {
        self.consumers.len()
    }
}

} // verus!
