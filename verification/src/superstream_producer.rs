//! A producer over a super-stream: messages fan out over the partition
//! streams by routing key, and each partition's producer is created lazily
//! on first use.

use vstd::prelude::*;
use vstd::string::StringSliceAdditionalSpecFns;

use crate::error::SuperStreamProducerPublishError;
use crate::superstream::RoutingStrategy;
use crate::superstream::hash_route_index;
use crate::superstream::key_route_indices;

verus! {

/// Assembles a super-stream producer.
pub struct SuperStreamProducerBuilder {
    pub route_strategy: RoutingStrategy,
    pub filter_value_extraction: bool,
    pub client_provided_name: String,
}

impl SuperStreamProducerBuilder {
    /// Declares that messages will carry filter values, which requires the
    /// broker's filtering feature when each partition producer is declared.
    pub fn filter_value_extractor(self, enable: bool) -> (b: SuperStreamProducerBuilder)
        ensures
            b == (SuperStreamProducerBuilder { filter_value_extraction: enable, ..self }),
    {
        SuperStreamProducerBuilder { filter_value_extraction: enable, ..self }
    }

    /// Sets the connection name shown to the broker.
    pub fn client_provided_name(self, name: &str) -> (b: SuperStreamProducerBuilder)
        ensures
            b == (SuperStreamProducerBuilder {
                client_provided_name: b.client_provided_name,
                ..self
            }),
            b.client_provided_name@ == name@,
    {
        SuperStreamProducerBuilder { client_provided_name: name.to_owned(), ..self }
    }

    /// Finishes the super-stream producer over the partition streams a
    /// metadata query answered with.
    pub fn build(self, partitions: Vec<String>) -> (p: SuperStreamProducer)
        requires
            partitions@.len() > 0,
        ensures
            p.wf(),
            p.partitions == partitions,
            p.route_strategy == self.route_strategy,
            forall|i: int| 0 <= i < p.created@.len() ==> !p.created@[i],
    {
        let mut created: Vec<bool> = Vec::new();
        let n = partitions.len();
        let mut i: usize = 0;
        while i < n
            invariant
                i <= n,
                created@.len() == i,
                forall|k: int| 0 <= k < i ==> !created@[k],
            decreases n - i,
        {
            created.push(false);
            i += 1;
        }
        SuperStreamProducer { partitions, route_strategy: self.route_strategy, created }
    }
}

/// A super-stream producer: the ordered partition streams, the routing
/// strategy, and which partitions already own a live producer.
pub struct SuperStreamProducer {
    pub partitions: Vec<String>,
    pub route_strategy: RoutingStrategy,
    /// `created[i]` is true once partition `i`'s producer exists; producers
    /// are created lazily on first use.
    pub created: Vec<bool>,
}

impl SuperStreamProducer {
    /// One creation flag per partition, and at least one partition.
    pub open spec fn wf(self) -> bool {
        &&& self.created@.len() == self.partitions@.len()
        &&& self.partitions@.len() > 0
    }

    /// The partitions a message with this routing key goes to. Under hash
    /// routing that is exactly one partition — the key's hash modulo the
    /// partition count; under key routing it is every partition the broker
    /// resolved the key to (`broker_routes` is that answer).
    pub fn route(&self, routing_key: &str, broker_routes: &Vec<String>) -> (idxs: Vec<usize>)
        requires
            self.wf(),
        ensures
            forall|a: int| 0 <= a < idxs@.len() ==> #[trigger] idxs@[a] < self.partitions@.len(),
            forall|a: int, b: int| 0 <= a < b < idxs@.len() ==> idxs@[a] < idxs@[b],
            self.route_strategy == RoutingStrategy::HashRoutingStrategy ==> idxs@.len() == 1
                && idxs@[0] == crate::superstream::spec_route_hash(routing_key.spec_bytes()) as int
                % self.partitions@.len() as int,
            self.route_strategy == RoutingStrategy::RoutingKeyRoutingStrategy ==> forall|k: usize|
                idxs@.contains(k) == (k < self.partitions@.len()
                && exists|j: int| 0 <= j < broker_routes@.len()
                    && broker_routes@[j]@ == self.partitions@[k as int]@),
    {
        match self.route_strategy {
            RoutingStrategy::HashRoutingStrategy => {
                let mut idxs: Vec<usize> = Vec::new();
                idxs.push(hash_route_index(routing_key, self.partitions.len()));
                idxs
            },
            RoutingStrategy::RoutingKeyRoutingStrategy => {
                key_route_indices(&self.partitions, broker_routes)
            },
        }
    }

    /// Whether partition `index` still needs its producer created before the
    /// first publish to it.
    pub fn needs_creation(&self, index: usize) -> (r: bool)
        requires
            self.wf(),
            index < self.partitions@.len(),
        ensures
            r == !self.created@[index as int],
    {
        !self.created[index]
    }

    /// Records that partition `index` now owns a live producer.
    pub fn mark_created(&mut self, index: usize)
        requires
            old(self).wf(),
            index < old(self).partitions@.len(),
        ensures
            final(self).wf(),
            final(self).created@ == old(self).created@.update(index as int, true),
            final(self).partitions == old(self).partitions,
            final(self).route_strategy == old(self).route_strategy,
    {
        self.created.set(index, true);
    }

    /// Collapses a per-partition publish failure into the super-stream
    /// taxonomy; which partition failed is deliberately discarded.
    pub fn wrap_publish_error(&self, _e: crate::error::ProducerPublishError) -> (r:
        SuperStreamProducerPublishError)
        ensures
            r == SuperStreamProducerPublishError::ProducerPublishError(),
    {
        SuperStreamProducerPublishError::ProducerPublishError()
    }

    /// Collapses a per-partition producer-creation failure into the
    /// super-stream taxonomy; which partition failed is deliberately
    /// discarded.
    pub fn wrap_create_error(&self, _e: crate::error::ProducerCreateError) -> (r:
        SuperStreamProducerPublishError)
        ensures
            r == SuperStreamProducerPublishError::ProducerCreateError(),
    {
        SuperStreamProducerPublishError::ProducerCreateError()
    }
}

} // verus!
