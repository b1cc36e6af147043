//! Routing of messages over the partitions of a super-stream: either a
//! stable hash of the routing key modulo the partition count, or the
//! partition names the broker resolved for the key.

use vstd::prelude::*;
use vstd::string::StringSliceAdditionalSpecFns;

verus! {

/// How a routing key picks partitions.
#[derive(Clone, Copy, Debug, PartialEq, Eq, Structural)]
pub enum RoutingStrategy {
    /// A stable hash of the key, modulo the partition count.
    HashRoutingStrategy,
    /// The broker resolves the key to partition names.
    RoutingKeyRoutingStrategy,
}

/// One step of the routing hash over a key's bytes: mix the byte in, then
/// multiply by the prime, keeping 32 bits.
pub open spec fn route_hash_update(h: u32, b: u8) -> u32 {
    ((((h ^ (b as u32)) as int) * 16777619) % 0x1_0000_0000) as u32
}

/// The routing hash folded over a byte sequence, starting from `h`.
pub open spec fn route_hash_seq(s: Seq<u8>, h: u32) -> u32
    decreases s.len(),
{
    if s.len() == 0 {
        h
    } else {
        route_hash_seq(s.drop_first(), route_hash_update(h, s.first()))
    }
}

/// The routing hash of a whole key. Equal keys always land on the same
/// partition, on every machine. The algorithm is this library's own choice
/// of stable hash; a publisher mixing client libraries on one super-stream
/// should use broker-resolved key routing instead, since another library's
/// hash may spread the same keys differently.
pub open spec fn spec_route_hash(s: Seq<u8>) -> u32 {
    route_hash_seq(s, 2166136261u32)
}

/// Computes the routing hash of a key.
pub fn route_hash(routing_key: &str) -> (h: u32)
    ensures
        h == spec_route_hash(routing_key.spec_bytes()),
{
    let bytes = routing_key.as_bytes();
    let ghost full = bytes@;
    let mut h: u32 = 2166136261;
    let mut i: usize = 0;
    proof {
        assert(full.skip(0) =~= full);
    }
    while i < bytes.len()
        invariant
            i <= full.len(),
            bytes@ == full,
            route_hash_seq(full.skip(i as int), h) == spec_route_hash(full),
        decreases full.len() - i,
    {
        let b = bytes[i];
        let ghost h_before = h;
        proof {
            assert(full.skip(i as int).first() == b);
            assert(full.skip(i as int).drop_first() =~= full.skip(i as int + 1));
            assert(route_hash_seq(full.skip(i as int), h) == route_hash_seq(
                full.skip(i as int + 1),
                route_hash_update(h, b),
            ));
        }
        let mixed = (h ^ (b as u32)) as u64 * 16777619;
        h = (mixed % 0x1_0000_0000) as u32;
        proof {
            assert(h == route_hash_update(h_before, b));
        }
        i += 1;
    }
    proof {
        assert(full.skip(full.len() as int) =~= Seq::<u8>::empty());
    }
    h
}

/// The partition a hashed key lands on: the hash modulo the partition count.
pub fn hash_route_index(routing_key: &str, partition_count: usize) -> (idx: usize)
    requires
        partition_count > 0,
    ensures
        idx == spec_route_hash(routing_key.spec_bytes()) as int % partition_count as int,
        idx < partition_count,
{
    (route_hash(routing_key) as usize) % partition_count
}

/// Whether some string of `haystack` reads as `needle`.
pub fn contains_string(haystack: &Vec<String>, needle: &String) -> (r: bool)
    ensures
        r == exists|j: int| 0 <= j < haystack@.len() && haystack@[j]@ == needle@,
{
    let mut i: usize = 0;
    while i < haystack.len()
        invariant
            i <= haystack@.len(),
            forall|j: int| 0 <= j < i ==> haystack@[j]@ != needle@,
        decreases haystack@.len() - i,
    {
        if haystack[i].eq(needle) {
            assert(haystack@[i as int]@ == needle@);
            return true;
        }
        i += 1;
    }
    false
}

/// The partitions a broker-resolved key routes to: the indices, in
/// increasing order, of exactly those partitions whose name appears among
/// the routes the broker answered with.
pub fn key_route_indices(partitions: &Vec<String>, routes: &Vec<String>) -> (idxs: Vec<usize>)
    ensures
        forall|k: usize| idxs@.contains(k) == (k < partitions@.len()
            && exists|j: int| 0 <= j < routes@.len() && routes@[j]@ == partitions@[k as int]@),
        forall|a: int, b: int| 0 <= a < b < idxs@.len() ==> idxs@[a] < idxs@[b],
        forall|a: int| 0 <= a < idxs@.len() ==> idxs@[a] < partitions@.len(),
    {
    let mut idxs: Vec<usize> = Vec::new();
    let mut i: usize = 0;
    while i < partitions.len()
        invariant
            i <= partitions@.len(),
            forall|k: usize| idxs@.contains(k) == (k < i
                && exists|j: int| 0 <= j < routes@.len() && routes@[j]@ == partitions@[k as int]@),
            forall|a: int, b: int| 0 <= a < b < idxs@.len() ==> idxs@[a] < idxs@[b],
            forall|a: int| 0 <= a < idxs@.len() ==> idxs@[a] < i,
        decreases partitions@.len() - i,
    {
        if contains_string(routes, &partitions[i]) {
            proof {
                crate::client::lemma_push_contains(idxs@, i);
            }
            idxs.push(i);
        }
        i += 1;
    }
    idxs
}

} // verus!
