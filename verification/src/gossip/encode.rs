//! Builders of the binary encoding of gossip messages, field by field.
use vstd::prelude::*;
use crate::wire::{le_bytes_u32, le_bytes_u64, push_bytes, push_u32_le, push_u64_le};
use crate::gossip::decode::{
    TAG_LOWEST_SLOT, TAG_PING, TAG_PONG, TAG_PRUNE_MESSAGE, TAG_PULL_REQUEST, TAG_PULL_RESPONSE,
    TAG_PUSH_MESSAGE, TAG_SNAPSHOT_HASHES,
};

verus! {

/// The concatenation of a list of byte strings.
pub open spec fn concat_bytes(items: Seq<Seq<u8>>) -> Seq<u8>
    decreases items.len(),
{
    if items.len() == 0 {
        Seq::empty()
    } else {
        concat_bytes(items.drop_last()) + items.last()
    }
}

/// The encoding of a list of `(slot, hash)` pairs, without its count.
pub open spec fn concat_slot_hashes(items: Seq<(u64, Seq<u8>)>) -> Seq<u8>
    decreases items.len(),
{
    if items.len() == 0 {
        Seq::empty()
    } else {
        concat_slot_hashes(items.drop_last()) + le_bytes_u64(items.last().0) + items.last().1
    }
}

/// The keys of a list of 32-byte arrays.
pub open spec fn key_array_view(keys: Seq<[u8; 32]>) -> Seq<Seq<u8>> {
    keys.map_values(|k: [u8; 32]| k@)
}

/// The pairs of a list of `(slot, hash)` arrays.
pub open spec fn slot_hash_array_view(items: Seq<(u64, [u8; 32])>) -> Seq<(u64, Seq<u8>)> {
    items.map_values(|p: (u64, [u8; 32])| (p.0, p.1@))
}

/// The views of a list of byte vectors.
pub open spec fn byte_vecs_view(items: Seq<Vec<u8>>) -> Seq<Seq<u8>> {
    items.map_values(|v: Vec<u8>| v@)
}

/// Encoding of a ping.
pub open spec fn spec_ping_bytes(from: Seq<u8>, token: Seq<u8>, signature: Seq<u8>) -> Seq<u8> {
    le_bytes_u32(TAG_PING) + from + token + signature
}

/// Encoding of a pong.
pub open spec fn spec_pong_bytes(from: Seq<u8>, hash: Seq<u8>, signature: Seq<u8>) -> Seq<u8> {
    le_bytes_u32(TAG_PONG) + from + hash + signature
}

/// Encoding of a prune message.
pub open spec fn spec_prune_bytes(
    outer_pubkey: Seq<u8>,
    pubkey: Seq<u8>,
    prunes: Seq<Seq<u8>>,
    signature: Seq<u8>,
    destination: Seq<u8>,
    wallclock: u64,
) -> Seq<u8> {
    le_bytes_u32(TAG_PRUNE_MESSAGE) + outer_pubkey + pubkey + le_bytes_u64(prunes.len() as u64)
        + concat_bytes(prunes) + signature + destination + le_bytes_u64(wallclock)
}

/// Encoding of a message made of a key and a list of already encoded values.
pub open spec fn spec_values_message_bytes(tag: u32, pubkey: Seq<u8>, values: Seq<Seq<u8>>) -> Seq<
    u8,
> {
    le_bytes_u32(tag) + pubkey + le_bytes_u64(values.len() as u64) + concat_bytes(values)
}

/// Encoding of a signed gossip value around already encoded data.
pub open spec fn spec_crds_value_bytes(signature: Seq<u8>, crds_data: Seq<u8>) -> Seq<u8> {
    signature + crds_data
}

/// Encoding of snapshot-hashes data.
pub open spec fn spec_snapshot_hashes_bytes(
    from: Seq<u8>,
    full_slot: u64,
    full_hash: Seq<u8>,
    incremental: Seq<(u64, Seq<u8>)>,
    wallclock: u64,
) -> Seq<u8> {
    le_bytes_u32(TAG_SNAPSHOT_HASHES) + from + le_bytes_u64(full_slot) + full_hash + le_bytes_u64(
        incremental.len() as u64,
    ) + concat_slot_hashes(incremental) + le_bytes_u64(wallclock)
}

/// Encoding of lowest-slot data with an empty root and empty deprecated lists.
pub open spec fn spec_lowest_slot_bytes(index: u8, from: Seq<u8>, lowest: u64, wallclock: u64) -> Seq<
    u8,
> {
    le_bytes_u32(TAG_LOWEST_SLOT) + seq![index] + from + le_bytes_u64(0) + le_bytes_u64(lowest)
        + le_bytes_u64(0) + le_bytes_u64(0) + le_bytes_u64(wallclock)
}

/// Encoding of a pull request around an encoded filter and value.
pub open spec fn spec_pull_request_bytes(filter: Seq<u8>, value: Seq<u8>) -> Seq<u8> {
    le_bytes_u32(TAG_PULL_REQUEST) + filter + value
}

/// Builds a ping from raw fields.
pub fn make_ping_bytes(from: &[u8; 32], token: &[u8; 32], signature: &[u8; 64]) -> (buf: Vec<u8>)
    ensures
        buf@ == spec_ping_bytes(from@, token@, signature@),
{
    let mut buf: Vec<u8> = Vec::with_capacity(132);
    push_u32_le(&mut buf, TAG_PING);
    push_bytes(&mut buf, from.as_slice());
    push_bytes(&mut buf, token.as_slice());
    push_bytes(&mut buf, signature.as_slice());
    buf
}

/// Builds a pong from raw fields.
pub fn make_pong_bytes(from: &[u8; 32], hash: &[u8; 32], signature: &[u8; 64]) -> (buf: Vec<u8>)
    ensures
        buf@ == spec_pong_bytes(from@, hash@, signature@),
{
    let mut buf: Vec<u8> = Vec::with_capacity(132);
    push_u32_le(&mut buf, TAG_PONG);
    push_bytes(&mut buf, from.as_slice());
    push_bytes(&mut buf, hash.as_slice());
    push_bytes(&mut buf, signature.as_slice());
    buf
}

/// Builds a prune message from raw fields.
pub fn make_prune_bytes(
    outer_pubkey: &[u8; 32],
    pubkey: &[u8; 32],
    prunes: &[[u8; 32]],
    signature: &[u8; 64],
    destination: &[u8; 32],
    wallclock: u64,
) -> (buf: Vec<u8>)
    ensures
        buf@ == spec_prune_bytes(
            outer_pubkey@,
            pubkey@,
            key_array_view(prunes@),
            signature@,
            destination@,
            wallclock,
        ),
{
    let mut buf: Vec<u8> = Vec::new();
    push_u32_le(&mut buf, TAG_PRUNE_MESSAGE);
    push_bytes(&mut buf, outer_pubkey.as_slice());
    push_bytes(&mut buf, pubkey.as_slice());
    push_u64_le(&mut buf, prunes.len() as u64);
    let ghost head = buf@;
    let mut i: usize = 0;
    while i < prunes.len()
        invariant
            i <= prunes@.len(),
            buf@ == head + concat_bytes(key_array_view(prunes@.take(i as int))),
        decreases prunes@.len() - i,
    {
        push_bytes(&mut buf, prunes[i].as_slice());
        proof {
            let ks = key_array_view(prunes@.take(i + 1));
            assert(prunes@.take(i + 1).drop_last() =~= prunes@.take(i as int));
            assert(ks.drop_last() =~= key_array_view(prunes@.take(i as int)));
        }
        i = i + 1;
        assert(buf@ =~= head + concat_bytes(key_array_view(prunes@.take(i as int))));
    }
    assert(prunes@.take(prunes@.len() as int) =~= prunes@);
    push_bytes(&mut buf, signature.as_slice());
    push_bytes(&mut buf, destination.as_slice());
    push_u64_le(&mut buf, wallclock);
    assert(buf@ =~= spec_prune_bytes(
        outer_pubkey@,
        pubkey@,
        key_array_view(prunes@),
        signature@,
        destination@,
        wallclock,
    ));
    buf
}

fn make_values_message_bytes(tag: u32, pubkey: &[u8; 32], values: &[Vec<u8>]) -> (buf: Vec<u8>)
    ensures
        buf@ == spec_values_message_bytes(tag, pubkey@, byte_vecs_view(values@)),
{
    let mut buf: Vec<u8> = Vec::new();
    push_u32_le(&mut buf, tag);
    push_bytes(&mut buf, pubkey.as_slice());
    push_u64_le(&mut buf, values.len() as u64);
    let ghost head = buf@;
    let mut i: usize = 0;
    while i < values.len()
        invariant
            i <= values@.len(),
            buf@ == head + concat_bytes(byte_vecs_view(values@.take(i as int))),
        decreases values@.len() - i,
    {
        push_bytes(&mut buf, values[i].as_slice());
        proof {
            let vs = byte_vecs_view(values@.take(i + 1));
            assert(values@.take(i + 1).drop_last() =~= values@.take(i as int));
            assert(vs.drop_last() =~= byte_vecs_view(values@.take(i as int)));
        }
        i = i + 1;
        assert(buf@ =~= head + concat_bytes(byte_vecs_view(values@.take(i as int))));
    }
    assert(values@.take(values@.len() as int) =~= values@);
    assert(buf@ =~= spec_values_message_bytes(tag, pubkey@, byte_vecs_view(values@)));
    buf
}

/// Builds a pull response from a key and already encoded values.
pub fn make_pull_response_bytes(pubkey: &[u8; 32], values: &[Vec<u8>]) -> (buf: Vec<u8>)
    ensures
        buf@ == spec_values_message_bytes(TAG_PULL_RESPONSE, pubkey@, byte_vecs_view(values@)),
{
    make_values_message_bytes(TAG_PULL_RESPONSE, pubkey, values)
}

/// Builds a push message from a key and already encoded values.
pub fn make_push_message_bytes(pubkey: &[u8; 32], values: &[Vec<u8>]) -> (buf: Vec<u8>)
    ensures
        buf@ == spec_values_message_bytes(TAG_PUSH_MESSAGE, pubkey@, byte_vecs_view(values@)),
{
    make_values_message_bytes(TAG_PUSH_MESSAGE, pubkey, values)
}

/// Builds a signed gossip value: signature then encoded data.
pub fn make_crds_value_bytes(signature: &[u8; 64], crds_data: &[u8]) -> (buf: Vec<u8>)
    ensures
        buf@ == spec_crds_value_bytes(signature@, crds_data@),
{
    let mut buf: Vec<u8> = Vec::new();
    push_bytes(&mut buf, signature.as_slice());
    push_bytes(&mut buf, crds_data);
    buf
}

/// Builds snapshot-hashes data from raw fields.
pub fn make_snapshot_hashes_crds_data(
    from: &[u8; 32],
    full_slot: u64,
    full_hash: &[u8; 32],
    incremental: &[(u64, [u8; 32])],
    wallclock: u64,
) -> (buf: Vec<u8>)
    ensures
        buf@ == spec_snapshot_hashes_bytes(
            from@,
            full_slot,
            full_hash@,
            slot_hash_array_view(incremental@),
            wallclock,
        ),
{
    let mut buf: Vec<u8> = Vec::new();
    push_u32_le(&mut buf, TAG_SNAPSHOT_HASHES);
    push_bytes(&mut buf, from.as_slice());
    push_u64_le(&mut buf, full_slot);
    push_bytes(&mut buf, full_hash.as_slice());
    push_u64_le(&mut buf, incremental.len() as u64);
    let ghost head = buf@;
    let mut i: usize = 0;
    while i < incremental.len()
        invariant
            i <= incremental@.len(),
            buf@ == head + concat_slot_hashes(slot_hash_array_view(incremental@.take(i as int))),
        decreases incremental@.len() - i,
    {
        push_u64_le(&mut buf, incremental[i].0);
        push_bytes(&mut buf, incremental[i].1.as_slice());
        proof {
            let hs = slot_hash_array_view(incremental@.take(i + 1));
            assert(incremental@.take(i + 1).drop_last() =~= incremental@.take(i as int));
            assert(hs.drop_last() =~= slot_hash_array_view(incremental@.take(i as int)));
        }
        i = i + 1;
        assert(buf@ =~= head + concat_slot_hashes(
            slot_hash_array_view(incremental@.take(i as int)),
        ));
    }
    assert(incremental@.take(incremental@.len() as int) =~= incremental@);
    push_u64_le(&mut buf, wallclock);
    assert(buf@ =~= spec_snapshot_hashes_bytes(
        from@,
        full_slot,
        full_hash@,
        slot_hash_array_view(incremental@),
        wallclock,
    ));
    buf
}

/// Builds lowest-slot data as a fresh record of the given key, lowest slot and
/// wallclock has it, with `index` as its index byte.
pub fn make_lowest_slot_crds_data(index: u8, from: &[u8; 32], lowest: u64, wallclock: u64) -> (buf:
    Vec<u8>)
    ensures
        buf@ == spec_lowest_slot_bytes(index, from@, lowest, wallclock),
{
    let mut buf: Vec<u8> = Vec::new();
    push_u32_le(&mut buf, TAG_LOWEST_SLOT);
    buf.push(index);
    push_bytes(&mut buf, from.as_slice());
    push_u64_le(&mut buf, 0);
    push_u64_le(&mut buf, lowest);
    push_u64_le(&mut buf, 0);
    push_u64_le(&mut buf, 0);
    push_u64_le(&mut buf, wallclock);
    assert(buf@ =~= spec_lowest_slot_bytes(index, from@, lowest, wallclock));
    buf
}

/// Builds a pull request from an encoded filter and an encoded value.
pub fn make_pull_request_bytes(filter_bytes: &[u8], value_bytes: &[u8]) -> (buf: Vec<u8>)
    ensures
        buf@ == spec_pull_request_bytes(filter_bytes@, value_bytes@),
{
    let mut buf: Vec<u8> = Vec::new();
    push_u32_le(&mut buf, TAG_PULL_REQUEST);
    push_bytes(&mut buf, filter_bytes);
    push_bytes(&mut buf, value_bytes);
    buf
}

} // verus!
