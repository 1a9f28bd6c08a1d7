//! The key deriver: every message for a slot carries the same partition
//! key, the 8-byte big-endian encoding of the slot, so that the broker
//! routes all of a slot's messages, transaction and entry alike, to the
//! same partition.

use vstd::prelude::*;

verus! {

/// The 8-byte big-endian encoding of a slot, most significant byte first.
pub open spec fn spec_partition_key(slot: u64) -> Seq<u8> {
    seq![
        (((slot >> 56) & 0xff) as u8),
        (((slot >> 48) & 0xff) as u8),
        (((slot >> 40) & 0xff) as u8),
        (((slot >> 32) & 0xff) as u8),
        (((slot >> 24) & 0xff) as u8),
        (((slot >> 16) & 0xff) as u8),
        (((slot >> 8) & 0xff) as u8),
        ((slot & 0xff) as u8),
    ]
}

/// Derives the partition key for a slot.
pub fn partition_key(slot: u64) -> (r: Vec<u8>)
    ensures
        r@ == spec_partition_key(slot),
        r@.len() == 8,
{
    let mut r: Vec<u8> = Vec::new();
    r.push(((slot >> 56) & 0xff) as u8);
    r.push(((slot >> 48) & 0xff) as u8);
    r.push(((slot >> 40) & 0xff) as u8);
    r.push(((slot >> 32) & 0xff) as u8);
    r.push(((slot >> 24) & 0xff) as u8);
    r.push(((slot >> 16) & 0xff) as u8);
    r.push(((slot >> 8) & 0xff) as u8);
    r.push((slot & 0xff) as u8);
    assert(r@ =~= spec_partition_key(slot));
    r
}

/// The partition key is a faithful encoding: two slots with the same key
/// are the same slot, so keyed routing separates slots exactly.
pub proof fn lemma_partition_key_injective(a: u64, b: u64)
    requires
        spec_partition_key(a) == spec_partition_key(b),
    ensures
        a == b,
{
    assert(spec_partition_key(a)[0] == spec_partition_key(b)[0]);
    assert(spec_partition_key(a)[1] == spec_partition_key(b)[1]);
    assert(spec_partition_key(a)[2] == spec_partition_key(b)[2]);
    assert(spec_partition_key(a)[3] == spec_partition_key(b)[3]);
    assert(spec_partition_key(a)[4] == spec_partition_key(b)[4]);
    assert(spec_partition_key(a)[5] == spec_partition_key(b)[5]);
    assert(spec_partition_key(a)[6] == spec_partition_key(b)[6]);
    assert(spec_partition_key(a)[7] == spec_partition_key(b)[7]);
    assert(((((a >> 56) & 0xff) as u8) == (((b >> 56) & 0xff) as u8) && (((a >> 48) & 0xff) as u8)
        == (((b >> 48) & 0xff) as u8) && (((a >> 40) & 0xff) as u8) == (((b >> 40) & 0xff) as u8)
        && (((a >> 32) & 0xff) as u8) == (((b >> 32) & 0xff) as u8) && (((a >> 24) & 0xff) as u8)
        == (((b >> 24) & 0xff) as u8) && (((a >> 16) & 0xff) as u8) == (((b >> 16) & 0xff) as u8)
        && (((a >> 8) & 0xff) as u8) == (((b >> 8) & 0xff) as u8) && ((a & 0xff) as u8) == ((b
        & 0xff) as u8)) ==> a == b) by (bit_vector);
}

} // verus!
