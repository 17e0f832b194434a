use fd_agave::gossip::convert::{check, gossip_decode_to_effects};
use fd_agave::gossip::effects::GossipEffects;
use fd_agave::gossip::encode::{
    make_crds_value_bytes, make_lowest_slot_crds_data, make_ping_bytes, make_pong_bytes,
    make_pull_request_bytes,
    make_prune_bytes, make_pull_response_bytes, make_push_message_bytes,
    make_snapshot_hashes_crds_data,
};
use fd_agave::gossip::gossip_crds_data;
use fd_agave::gossip::gossip_msg;

const MAX_WALLCLOCK: u64 = 1_000_000_000_000_000;

fn get_effects(input: &[u8]) -> GossipEffects {
    gossip_decode_to_effects(input)
}

/// Returns the inner message from effects, panicking if invalid.
fn unwrap_msg(effects: &GossipEffects) -> &gossip_msg::Msg {
    effects
        .msg
        .as_ref()
        .expect("effects.msg is None")
        .msg
        .as_ref()
        .expect("msg.msg is None")
}

#[test]
fn test_conformance_ping_valid() {
    let from = [0x11; 32];
    let token = [0x22; 32];
    let sig = [0x33; 64];
    let data = make_ping_bytes(&from, &token, &sig);
    assert!(check(&data, true));

    let effects = get_effects(&data);
    let msg = unwrap_msg(&effects);
    match msg {
        gossip_msg::Msg::Ping(p) => {
            assert_eq!(p.from, from);
            assert_eq!(p.token, token);
            assert_eq!(p.signature, sig);
        }
        other => panic!("expected Ping, got {other:?}"),
    }
}

#[test]
fn test_conformance_ping_default_fields() {
    let data = make_ping_bytes(&[0u8; 32], &[0u8; 32], &[0u8; 64]);
    assert!(check(&data, true));

    let effects = get_effects(&data);
    let msg = unwrap_msg(&effects);
    match msg {
        gossip_msg::Msg::Ping(p) => {
            assert_eq!(p.from, vec![0u8; 32]);
            assert_eq!(p.token, vec![0u8; 32]);
            assert_eq!(p.signature, vec![0u8; 64]);
        }
        other => panic!("expected Ping, got {other:?}"),
    }
}

#[test]
fn test_conformance_pong_valid() {
    let from = [0x44; 32];
    let hash = [0x55; 32];
    let sig = [0x66; 64];
    let data = make_pong_bytes(&from, &hash, &sig);
    assert!(check(&data, true));

    let effects = get_effects(&data);
    let msg = unwrap_msg(&effects);
    match msg {
        gossip_msg::Msg::Pong(p) => {
            assert_eq!(p.from, from);
            assert_eq!(p.hash, hash);
            assert_eq!(p.signature, sig);
        }
        other => panic!("expected Pong, got {other:?}"),
    }
}

#[test]
fn test_conformance_pong_default_fields() {
    let data = make_pong_bytes(&[0u8; 32], &[0u8; 32], &[0u8; 64]);
    assert!(check(&data, true));

    let effects = get_effects(&data);
    let msg = unwrap_msg(&effects);
    match msg {
        gossip_msg::Msg::Pong(p) => {
            assert_eq!(p.from, vec![0u8; 32]);
            assert_eq!(p.hash, vec![0u8; 32]);
            assert_eq!(p.signature, vec![0u8; 64]);
        }
        other => panic!("expected Pong, got {other:?}"),
    }
}

#[test]
fn test_conformance_prune_valid() {
    let pk = [0x11; 32];
    let prune_node = [0x22; 32];
    let sig = [0u8; 64];
    let dest = [0x33; 32];
    let wc = 1_000_000u64;
    let data = make_prune_bytes(&pk, &pk, &[prune_node], &sig, &dest, wc);
    assert!(check(&data, true));

    let effects = get_effects(&data);
    let msg = unwrap_msg(&effects);
    match msg {
        gossip_msg::Msg::PruneMessage(pm) => {
            assert_eq!(pm.pubkey, pk);
            let pd = pm.data.as_ref().unwrap();
            assert_eq!(pd.pubkey, pk);
            assert_eq!(pd.prunes.len(), 1);
            assert_eq!(pd.prunes[0].as_slice(), &prune_node);
            assert_eq!(pd.destination, dest);
            assert_eq!(pd.wallclock, wc);
            assert_eq!(pd.signature.len(), 64);
        }
        other => panic!("expected PruneMessage, got {other:?}"),
    }
}

#[test]
fn test_conformance_prune_mismatched_pubkeys() {
    let data = make_prune_bytes(
        &[0xAA; 32], // outer pubkey
        &[0xBB; 32], // PruneData.pubkey (mismatch)
        &[],
        &[0u8; 64],
        &[0u8; 32],
        1_000_000,
    );
    assert!(check(&data, false));
}

#[test]
fn test_conformance_prune_wallclock_at_max() {
    let pk = [0x11; 32];
    let data = make_prune_bytes(&pk, &pk, &[], &[0u8; 64], &[0u8; 32], MAX_WALLCLOCK);
    assert!(check(&data, false));
}

#[test]
fn test_conformance_prune_wallclock_below_max() {
    let pk = [0x11; 32];
    let data = make_prune_bytes(&pk, &pk, &[], &[0u8; 64], &[0u8; 32], MAX_WALLCLOCK - 1);
    assert!(check(&data, true));
}

#[test]
fn test_conformance_prune_many_nodes() {
    let pk = [0x11; 32];
    let prunes: Vec<[u8; 32]> = (0..32u8).map(|i| [i; 32]).collect();
    let data = make_prune_bytes(&pk, &pk, &prunes, &[0u8; 64], &[0u8; 32], 1_000_000);
    assert!(check(&data, true));

    let effects = get_effects(&data);
    let msg = unwrap_msg(&effects);
    match msg {
        gossip_msg::Msg::PruneMessage(pm) => {
            let pd = pm.data.as_ref().unwrap();
            assert_eq!(pd.prunes.len(), 32);
            for (i, proto_prune) in pd.prunes.iter().enumerate() {
                assert_eq!(proto_prune.as_slice(), &[i as u8; 32]);
            }
        }
        other => panic!("expected PruneMessage, got {other:?}"),
    }
}

#[test]
fn test_conformance_pull_response_empty() {
    let pk = [0x44; 32];
    let data = make_pull_response_bytes(&pk, &[]);
    assert!(check(&data, true));

    let effects = get_effects(&data);
    let msg = unwrap_msg(&effects);
    match msg {
        gossip_msg::Msg::PullResponse(pr) => {
            assert_eq!(pr.pubkey, pk);
            assert!(pr.values.is_empty());
        }
        other => panic!("expected PullResponse, got {other:?}"),
    }
}

#[test]
fn test_conformance_lowest_slot_nonzero_index() {
    let pk = [0x77; 32];
    let ls_data = make_lowest_slot_crds_data(1, &pk, 42, 1_000_000); // index=1 invalid
    let crds_val = make_crds_value_bytes(&[0u8; 64], &ls_data);
    let data = make_push_message_bytes(&pk, &[crds_val]);
    assert!(check(&data, false));
}

#[test]
fn test_conformance_snapshot_hashes_slot_at_max() {
    let pk = [0x88; 32];
    let sh_data =
        make_snapshot_hashes_crds_data(&pk, 1_000_000_000_000_000, &[0xAA; 32], &[], 1_000_000);
    let crds_val = make_crds_value_bytes(&[0u8; 64], &sh_data);
    let data = make_pull_response_bytes(&pk, &[crds_val]);
    assert!(check(&data, false));
}

#[test]
fn test_conformance_snapshot_hashes_incremental_not_above_full() {
    let pk = [0x99; 32];
    let sh_data = make_snapshot_hashes_crds_data(
        &pk,
        100,
        &[0xAA; 32],
        &[(50, [0xBB; 32])], // incremental slot 50 < full slot 100
        1_000_000,
    );
    let crds_val = make_crds_value_bytes(&[0u8; 64], &sh_data);
    let data = make_pull_response_bytes(&pk, &[crds_val]);
    assert!(check(&data, false));
}

#[test]
fn test_conformance_empty_input() {
    assert!(check(&[], false));
}

#[test]
fn test_conformance_truncated_input() {
    let data = make_ping_bytes(&[0x11; 32], &[0x22; 32], &[0x33; 64]);
    let truncated = &data[..data.len() / 2];
    assert!(check(truncated, false));
}

#[test]
fn test_conformance_trailing_bytes() {
    let mut data = make_ping_bytes(&[0x11; 32], &[0x22; 32], &[0x33; 64]);
    data.push(0xFF);
    assert!(check(&data, false));
}

// Further cases.

#[test]
fn snapshot_hashes_in_push_message_decode() {
    let pk = [0x55; 32];
    let sh_data =
        make_snapshot_hashes_crds_data(&pk, 100, &[0xAA; 32], &[(150, [0xBB; 32])], 1_000_000);
    let crds_val = make_crds_value_bytes(&[0x01; 64], &sh_data);
    let data = make_push_message_bytes(&pk, &[crds_val]);
    assert!(check(&data, true));
    let effects = get_effects(&data);
    match unwrap_msg(&effects) {
        gossip_msg::Msg::PushMessage(pm) => {
            assert_eq!(pm.pubkey, pk);
            assert_eq!(pm.values.len(), 1);
            assert_eq!(pm.values[0].signature, [0x01; 64]);
            match pm.values[0].data.as_ref().unwrap().data.as_ref().unwrap() {
                gossip_crds_data::Data::SnapshotHashes(sh) => {
                    assert_eq!(sh.from, pk);
                    assert_eq!(sh.full_slot, 100);
                    assert_eq!(sh.full_hash, [0xAA; 32]);
                    assert_eq!(sh.incremental.len(), 1);
                    assert_eq!(sh.incremental[0].slot, 150);
                    assert_eq!(sh.incremental[0].hash, [0xBB; 32]);
                    assert_eq!(sh.wallclock, 1_000_000);
                }
                other => panic!("expected SnapshotHashes, got {other:?}"),
            }
        }
        other => panic!("expected PushMessage, got {other:?}"),
    }
}

#[test]
fn lowest_slot_index_zero_decodes_with_index_zero() {
    let pk = [0x77; 32];
    let ls_data = make_lowest_slot_crds_data(0, &pk, 42, 1_000_000);
    let crds_val = make_crds_value_bytes(&[0u8; 64], &ls_data);
    let data = make_pull_response_bytes(&pk, &[crds_val]);
    assert!(check(&data, true));
    let effects = get_effects(&data);
    match unwrap_msg(&effects) {
        gossip_msg::Msg::PullResponse(pr) => {
            match pr.values[0].data.as_ref().unwrap().data.as_ref().unwrap() {
                gossip_crds_data::Data::LowestSlot(ls) => {
                    assert_eq!(ls.index, 0);
                    assert_eq!(ls.from, pk);
                    assert_eq!(ls.lowest, 42);
                    assert_eq!(ls.wallclock, 1_000_000);
                }
                other => panic!("expected LowestSlot, got {other:?}"),
            }
        }
        other => panic!("expected PullResponse, got {other:?}"),
    }
}

#[test]
fn lowest_slot_at_max_slot_rejected() {
    let pk = [0x77; 32];
    let ls_data = make_lowest_slot_crds_data(0, &pk, MAX_WALLCLOCK, 1_000_000);
    let crds_val = make_crds_value_bytes(&[0u8; 64], &ls_data);
    let data = make_pull_response_bytes(&pk, &[crds_val]);
    assert!(check(&data, false));
}

#[test]
fn snapshot_hashes_wallclock_at_max_rejected() {
    let pk = [0x99; 32];
    let sh_data = make_snapshot_hashes_crds_data(&pk, 100, &[0xAA; 32], &[], MAX_WALLCLOCK);
    let crds_val = make_crds_value_bytes(&[0u8; 64], &sh_data);
    let data = make_push_message_bytes(&pk, &[crds_val]);
    assert!(check(&data, false));
}

#[test]
fn unknown_message_variant_rejected() {
    let mut data = make_ping_bytes(&[0x11; 32], &[0x22; 32], &[0x33; 64]);
    data[0] = 6;
    assert!(check(&data, false));
}

#[test]
fn oversized_packet_rejected() {
    let pk = [0x11; 32];
    let prunes: Vec<[u8; 32]> = (0..40u8).map(|i| [i; 32]).collect();
    let data = make_prune_bytes(&pk, &pk, &prunes, &[0u8; 64], &[0u8; 32], 1);
    assert!(data.len() > 1232);
    assert!(check(&data, false));
}

#[test]
fn invalid_effects_have_no_message() {
    let effects = get_effects(&[1, 2, 3]);
    assert!(!effects.valid);
    assert!(effects.msg.is_none());
}

#[test]
fn prefix_of_prune_is_rejected() {
    let pk = [0x11; 32];
    let data = make_prune_bytes(&pk, &pk, &[[1; 32]], &[0u8; 64], &[0u8; 32], 5);
    assert!(check(&data, true));
    for k in 0..data.len() {
        assert!(check(&data[..k], false));
    }
}

fn push_varint(out: &mut Vec<u8>, mut v: u64) {
    while v >= 0x80 {
        out.push(((v & 0x7F) | 0x80) as u8);
        v >>= 7;
    }
    out.push(v as u8);
}

/// A node record (variant 11) with the given address and socket tables, as
/// bytes: key, varint wallclock, start time, shred version, version record,
/// then the counted tables (counts below 128 take one byte).
fn make_contact_info_with_tables(
    pubkey: &[u8; 32],
    wallclock: u64,
    addrs: &[Vec<u8>],
    sockets: &[(u8, u8, u16)],
    n_extensions: u8,
) -> Vec<u8> {
    let mut out = Vec::new();
    out.extend_from_slice(&11u32.to_le_bytes());
    out.extend_from_slice(pubkey);
    push_varint(&mut out, wallclock);
    out.extend_from_slice(&1_700_000_000_000_000u64.to_le_bytes());
    out.extend_from_slice(&0u16.to_le_bytes());
    push_varint(&mut out, 0);
    push_varint(&mut out, 1);
    push_varint(&mut out, 2);
    out.extend_from_slice(&0xDEADBEEFu32.to_le_bytes());
    out.extend_from_slice(&42u32.to_le_bytes());
    push_varint(&mut out, 1);
    out.push(addrs.len() as u8);
    for a in addrs {
        let tag: u32 = if a.len() == 4 { 0 } else { 1 };
        out.extend_from_slice(&tag.to_le_bytes());
        out.extend_from_slice(a);
    }
    out.push(sockets.len() as u8);
    for &(key, index, offset) in sockets {
        out.push(key);
        out.push(index);
        push_varint(&mut out, offset as u64);
    }
    out.push(n_extensions);
    out
}

/// A minimal node record: no addresses, no sockets.
fn make_contact_info_crds_data(pubkey: &[u8; 32], wallclock: u64) -> Vec<u8> {
    make_contact_info_with_tables(pubkey, wallclock, &[], &[], 0)
}

#[test]
fn test_conformance_pull_response_valid() {
    let pk = [0x44; 32];
    let ci_data = make_contact_info_crds_data(&pk, 1_000_000);
    let crds_val = make_crds_value_bytes(&[0u8; 64], &ci_data);
    let data = make_pull_response_bytes(&pk, &[crds_val]);
    assert!(check(&data, true));

    let effects = get_effects(&data);
    let msg = unwrap_msg(&effects);
    match msg {
        gossip_msg::Msg::PullResponse(pr) => {
            assert_eq!(pr.pubkey, pk);
            assert_eq!(pr.values.len(), 1);
            let crds_data = pr.values[0].data.as_ref().unwrap();
            match crds_data.data.as_ref().unwrap() {
                gossip_crds_data::Data::ContactInfo(ci) => {
                    assert_eq!(ci.pubkey, pk);
                }
                other => panic!("expected ContactInfo, got {other:?}"),
            }
        }
        other => panic!("expected PullResponse, got {other:?}"),
    }
}

#[test]
fn test_conformance_push_message_valid() {
    let pk = [0x55; 32];
    let ci_data = make_contact_info_crds_data(&pk, 1_000_000);
    let crds_val = make_crds_value_bytes(&[0u8; 64], &ci_data);
    let data = make_push_message_bytes(&pk, &[crds_val]);
    assert!(check(&data, true));

    let effects = get_effects(&data);
    let msg = unwrap_msg(&effects);
    match msg {
        gossip_msg::Msg::PushMessage(pm) => {
            assert_eq!(pm.pubkey, pk);
            assert_eq!(pm.values.len(), 1);
        }
        other => panic!("expected PushMessage, got {other:?}"),
    }
}

#[test]
fn test_conformance_push_message_multiple() {
    let pk = [0x55; 32];
    let ci_data = make_contact_info_crds_data(&pk, 1_000_000);
    let crds_val1 = make_crds_value_bytes(&[0u8; 64], &ci_data);
    let sh_data = make_snapshot_hashes_crds_data(&pk, 100, &[0xAA; 32], &[], 1_000_000);
    let crds_val2 = make_crds_value_bytes(&[0u8; 64], &sh_data);
    let data = make_push_message_bytes(&pk, &[crds_val1, crds_val2]);
    assert!(check(&data, true));

    let effects = get_effects(&data);
    let msg = unwrap_msg(&effects);
    match msg {
        gossip_msg::Msg::PushMessage(pm) => {
            assert_eq!(pm.pubkey, pk);
            assert_eq!(pm.values.len(), 2);
            match pm.values[0].data.as_ref().unwrap().data.as_ref().unwrap() {
                gossip_crds_data::Data::ContactInfo(ci) => {
                    assert_eq!(ci.pubkey, pk);
                }
                other => panic!("expected ContactInfo, got {other:?}"),
            }
            match pm.values[1].data.as_ref().unwrap().data.as_ref().unwrap() {
                gossip_crds_data::Data::SnapshotHashes(sh) => {
                    assert_eq!(sh.from, pk);
                    assert_eq!(sh.full_slot, 100);
                    assert!(sh.incremental.is_empty());
                }
                other => panic!("expected SnapshotHashes, got {other:?}"),
            }
        }
        other => panic!("expected PushMessage, got {other:?}"),
    }
}

fn contact_info_push(ci_data: &[u8]) -> Vec<u8> {
    let crds_val = make_crds_value_bytes(&[0u8; 64], ci_data);
    make_push_message_bytes(&[0x77; 32], &[crds_val])
}

#[test]
fn contact_info_fields_carried_to_effects() {
    let pk = [0x21; 32];
    let ci = make_contact_info_with_tables(
        &pk,
        1_000_000,
        &[vec![10, 0, 0, 1], vec![0xFE; 16]],
        &[(0, 0, 8000), (3, 1, 1), (5, 0, 2)],
        0,
    );
    // wallclock 1_000_000 is the three bytes C0 84 3D
    assert_eq!(&ci[36..39], &[0xC0, 0x84, 0x3D]);
    let data = contact_info_push(&ci);
    assert!(check(&data, true));
    let effects = get_effects(&data);
    match unwrap_msg(&effects) {
        gossip_msg::Msg::PushMessage(pm) => {
            match pm.values[0].data.as_ref().unwrap().data.as_ref().unwrap() {
                gossip_crds_data::Data::ContactInfo(c) => {
                    assert_eq!(c.pubkey, pk);
                    assert_eq!(c.wallclock, 1_000_000);
                    assert_eq!(c.outset, 1_700_000_000_000_000);
                    assert_eq!(c.shred_version, 0);
                }
                other => panic!("expected ContactInfo, got {other:?}"),
            }
        }
        other => panic!("expected PushMessage, got {other:?}"),
    }
}

#[test]
fn contact_info_wallclock_at_max_rejected() {
    let ci = make_contact_info_crds_data(&[1; 32], MAX_WALLCLOCK);
    assert!(check(&contact_info_push(&ci), false));
    let ci = make_contact_info_crds_data(&[1; 32], MAX_WALLCLOCK - 1);
    assert!(check(&contact_info_push(&ci), true));
}

#[test]
fn contact_info_duplicate_address_rejected() {
    let ci = make_contact_info_with_tables(
        &[1; 32],
        5,
        &[vec![10, 0, 0, 1], vec![10, 0, 0, 1]],
        &[(0, 0, 1), (1, 1, 1)],
        0,
    );
    assert!(check(&contact_info_push(&ci), false));
}

#[test]
fn contact_info_duplicate_socket_key_rejected() {
    let ci = make_contact_info_with_tables(&[1; 32], 5, &[vec![10, 0, 0, 1]], &[(4, 0, 1), (4, 0, 1)], 0);
    assert!(check(&contact_info_push(&ci), false));
}

#[test]
fn contact_info_socket_index_out_of_range_rejected() {
    let ci = make_contact_info_with_tables(&[1; 32], 5, &[vec![10, 0, 0, 1]], &[(0, 0, 1), (1, 1, 1)], 0);
    assert!(check(&contact_info_push(&ci), false));
}

#[test]
fn contact_info_unused_address_rejected() {
    let ci = make_contact_info_with_tables(
        &[1; 32],
        5,
        &[vec![10, 0, 0, 1], vec![10, 0, 0, 2]],
        &[(0, 0, 1)],
        0,
    );
    assert!(check(&contact_info_push(&ci), false));
}

#[test]
fn contact_info_port_overflow_rejected() {
    let ci = make_contact_info_with_tables(
        &[1; 32],
        5,
        &[vec![10, 0, 0, 1]],
        &[(0, 0, 0xFFFF), (1, 0, 1)],
        0,
    );
    assert!(check(&contact_info_push(&ci), false));
    let ci = make_contact_info_with_tables(
        &[1; 32],
        5,
        &[vec![10, 0, 0, 1]],
        &[(0, 0, 0xFFFE), (1, 0, 1)],
        0,
    );
    assert!(check(&contact_info_push(&ci), true));
}

#[test]
fn contact_info_extensions_rejected() {
    let ci = make_contact_info_with_tables(&[1; 32], 5, &[], &[], 1);
    assert!(check(&contact_info_push(&ci), false));
}

#[test]
fn contact_info_non_canonical_varint_rejected() {
    // wallclock 5 written with a redundant zero continuation byte
    let mut ci = make_contact_info_crds_data(&[1; 32], 5);
    ci.splice(36..37, [0x85, 0x00]);
    assert!(check(&contact_info_push(&ci), false));
}

#[test]
fn contact_info_bad_address_tag_rejected() {
    let mut ci = make_contact_info_with_tables(&[1; 32], 5, &[vec![10, 0, 0, 1]], &[(0, 0, 1)], 0);
    // the address tag follows the fixed fields and the one-byte address count
    let at = 4 + 32 + 1 + 8 + 2 + 3 + 8 + 1 + 1;
    assert_eq!(&ci[at..at + 4], &[0, 0, 0, 0]);
    ci[at] = 2;
    assert!(check(&contact_info_push(&ci), false));
}

fn make_duplicate_shred_crds_data(
    index: u16,
    from: &[u8; 32],
    wallclock: u64,
    shred_type: u8,
    num_chunks: u8,
    chunk_index: u8,
    chunk: &[u8],
) -> Vec<u8> {
    let mut out = Vec::new();
    out.extend_from_slice(&9u32.to_le_bytes());
    out.extend_from_slice(&index.to_le_bytes());
    out.extend_from_slice(from);
    out.extend_from_slice(&wallclock.to_le_bytes());
    out.extend_from_slice(&4242u64.to_le_bytes());
    out.extend_from_slice(&7u32.to_le_bytes());
    out.push(shred_type);
    out.push(num_chunks);
    out.push(chunk_index);
    out.extend_from_slice(&(chunk.len() as u64).to_le_bytes());
    out.extend_from_slice(chunk);
    out
}

#[test]
fn duplicate_shred_decodes_with_fields() {
    let from = [0x31; 32];
    let d = make_duplicate_shred_crds_data(511, &from, 1_000, 0xA5, 3, 2, &[1, 2, 3, 4]);
    let data = contact_info_push(&d);
    assert!(check(&data, true));
    let effects = get_effects(&data);
    match unwrap_msg(&effects) {
        gossip_msg::Msg::PushMessage(pm) => {
            match pm.values[0].data.as_ref().unwrap().data.as_ref().unwrap() {
                gossip_crds_data::Data::DuplicateShred(ds) => {
                    assert_eq!(ds.index, 511);
                    assert_eq!(ds.from, from);
                    assert_eq!(ds.wallclock, 1_000);
                    assert_eq!(ds.slot, 4242);
                    assert_eq!(ds.shred_index, 0);
                    assert_eq!(ds.shred_type, 0);
                    assert_eq!(ds.num_chunks, 3);
                    assert_eq!(ds.chunk_index, 2);
                    assert_eq!(ds.chunk, vec![1, 2, 3, 4]);
                }
                other => panic!("expected DuplicateShred, got {other:?}"),
            }
        }
        other => panic!("expected PushMessage, got {other:?}"),
    }
}

#[test]
fn duplicate_shred_bounds_rejected() {
    let from = [0x31; 32];
    // slot number at the bound
    let d = make_duplicate_shred_crds_data(512, &from, 1_000, 0x5A, 3, 2, &[]);
    assert!(check(&contact_info_push(&d), false));
    // chunk index not below the chunk count
    let d = make_duplicate_shred_crds_data(0, &from, 1_000, 0x5A, 3, 3, &[]);
    assert!(check(&contact_info_push(&d), false));
    // wallclock at the bound
    let d = make_duplicate_shred_crds_data(0, &from, MAX_WALLCLOCK, 0x5A, 3, 0, &[]);
    assert!(check(&contact_info_push(&d), false));
    // a byte that names no shred type
    let d = make_duplicate_shred_crds_data(0, &from, 1_000, 0x00, 3, 0, &[]);
    assert!(check(&contact_info_push(&d), false));
    // a chunk longer than what follows
    let mut d = make_duplicate_shred_crds_data(0, &from, 1_000, 0x5A, 3, 0, &[9, 9]);
    d.pop();
    assert!(check(&contact_info_push(&d), false));
}

#[test]
fn pull_request_bytes_layout() {
    let filter = [0xF1, 0xF2, 0xF3];
    let value = [0x01, 0x02];
    assert_eq!(
        make_pull_request_bytes(&filter, &value),
        vec![0, 0, 0, 0, 0xF1, 0xF2, 0xF3, 0x01, 0x02]
    );
}

/// A pull-request filter as bytes: counted keys, then the bit vector (a byte
/// 1 and counted blocks, or a byte 0), its length, the count of set bits,
/// the mask and the mask width.
fn make_filter_bytes(keys: &[u64], blocks: Option<&[u64]>, len: u64, mask: u64, mask_bits: u32) -> Vec<u8> {
    let mut out = Vec::new();
    out.extend_from_slice(&(keys.len() as u64).to_le_bytes());
    for k in keys {
        out.extend_from_slice(&k.to_le_bytes());
    }
    match blocks {
        Some(b) => {
            out.push(1);
            out.extend_from_slice(&(b.len() as u64).to_le_bytes());
            for w in b {
                out.extend_from_slice(&w.to_le_bytes());
            }
        }
        None => out.push(0),
    }
    out.extend_from_slice(&len.to_le_bytes());
    out.extend_from_slice(&3u64.to_le_bytes());
    out.extend_from_slice(&mask.to_le_bytes());
    out.extend_from_slice(&mask_bits.to_le_bytes());
    out
}

/// A filter with one key set and a bit vector of 128 bits.
fn make_crds_filter_bytes() -> Vec<u8> {
    make_filter_bytes(&[11, 22, 33], Some(&[0x0102_0304_0506_0708, 0xFF00_FF00_FF00_FF00]), 128, u64::MAX, 0)
}

#[test]
fn test_conformance_pull_request_contact_info() {
    let pk = [0xAA; 32];
    let filter = make_crds_filter_bytes();
    let ci_data = make_contact_info_crds_data(&pk, 1_000_000);
    let crds_val = make_crds_value_bytes(&[0u8; 64], &ci_data);
    let data = make_pull_request_bytes(&filter, &crds_val);
    assert!(check(&data, true));

    let effects = get_effects(&data);
    let msg = unwrap_msg(&effects);
    match msg {
        gossip_msg::Msg::PullRequest(pr) => {
            assert!(pr.filter.is_some());
            let crds_val = pr.value.as_ref().unwrap();
            assert_eq!(crds_val.signature.len(), 64);
            let crds_data = crds_val.data.as_ref().unwrap();
            match crds_data.data.as_ref().unwrap() {
                gossip_crds_data::Data::ContactInfo(ci) => {
                    assert_eq!(ci.pubkey, pk);
                }
                other => panic!("expected ContactInfo, got {other:?}"),
            }
        }
        other => panic!("expected PullRequest, got {other:?}"),
    }
}

#[test]
fn test_conformance_pull_request_snapshot_hashes_rejected() {
    let pk = [0xAA; 32];
    let filter = make_crds_filter_bytes();
    let sh_data = make_snapshot_hashes_crds_data(&pk, 100, &[0xBB; 32], &[], 1_000_000);
    let crds_val = make_crds_value_bytes(&[0u8; 64], &sh_data);
    let data = make_pull_request_bytes(&filter, &crds_val);
    assert!(check(&data, false));
}

#[test]
fn test_conformance_pull_request_lowest_slot_rejected() {
    let pk = [0xAA; 32];
    let filter = make_crds_filter_bytes();
    let ls_data = make_lowest_slot_crds_data(0, &pk, 42, 1_000_000);
    let crds_val = make_crds_value_bytes(&[0u8; 64], &ls_data);
    let data = make_pull_request_bytes(&filter, &crds_val);
    assert!(check(&data, false));
}

fn pull_request_with_filter(filter: &[u8]) -> Vec<u8> {
    let ci_data = make_contact_info_crds_data(&[0xAB; 32], 1_000_000);
    let crds_val = make_crds_value_bytes(&[0u8; 64], &ci_data);
    make_pull_request_bytes(filter, &crds_val)
}

#[test]
fn pull_request_filter_fields_and_masked_bits() {
    let filter = make_filter_bytes(&[5, 6], Some(&[u64::MAX, u64::MAX]), 74, 0xABCD, 7);
    let data = pull_request_with_filter(&filter);
    assert!(check(&data, true));
    let effects = get_effects(&data);
    match unwrap_msg(&effects) {
        gossip_msg::Msg::PullRequest(pr) => {
            let f = pr.filter.as_ref().unwrap();
            assert_eq!(f.mask, 0xABCD);
            assert_eq!(f.mask_bits, 7);
            let bloom = f.filter.as_ref().unwrap();
            assert_eq!(bloom.keys, vec![5, 6]);
            assert_eq!(bloom.num_bits_set, 3);
            // 74 bits: one full block, then ten bits of the second
            let mut expected = vec![0xFF; 8];
            expected.extend_from_slice(&[0xFF, 0x03, 0, 0, 0, 0, 0, 0]);
            assert_eq!(bloom.bits, expected);
        }
        other => panic!("expected PullRequest, got {other:?}"),
    }
}

#[test]
fn pull_request_bits_cover_only_used_blocks() {
    // three blocks stored, 64 bits used: one block is reported
    let filter = make_filter_bytes(&[], Some(&[1, 2, 3]), 64, 0, 0);
    let effects = get_effects(&pull_request_with_filter(&filter));
    match unwrap_msg(&effects) {
        gossip_msg::Msg::PullRequest(pr) => {
            let bloom = pr.filter.as_ref().unwrap().filter.as_ref().unwrap();
            assert_eq!(bloom.bits, vec![1, 0, 0, 0, 0, 0, 0, 0]);
        }
        other => panic!("expected PullRequest, got {other:?}"),
    }
}

#[test]
fn pull_request_empty_bloom_rejected() {
    // no blocks at all
    assert!(check(&pull_request_with_filter(&make_filter_bytes(&[1], None, 0, 0, 0)), false));
    // blocks, but no bit in use
    assert!(check(&pull_request_with_filter(&make_filter_bytes(&[1], Some(&[7]), 0, 0, 0)), false));
}

#[test]
fn pull_request_malformed_bit_vector_rejected() {
    // more bits than the blocks hold
    assert!(check(&pull_request_with_filter(&make_filter_bytes(&[1], Some(&[7]), 65, 0, 0)), false));
    // block storage present but empty
    assert!(check(&pull_request_with_filter(&make_filter_bytes(&[1], Some(&[]), 0, 0, 0)), false));
    // a storage marker other than 0 or 1
    let mut filter = make_filter_bytes(&[], None, 0, 0, 0);
    filter[8] = 2;
    assert!(check(&pull_request_with_filter(&filter), false));
}

#[test]
fn pull_request_wallclock_at_max_rejected() {
    let ci_data = make_contact_info_crds_data(&[0xAB; 32], MAX_WALLCLOCK);
    let crds_val = make_crds_value_bytes(&[0u8; 64], &ci_data);
    let data = make_pull_request_bytes(&make_crds_filter_bytes(), &crds_val);
    assert!(check(&data, false));
}

enum Run<'a> {
    Compressed(u64, &'a [u8]),
    Bits(u64, Option<&'a [u8]>, u64),
}

/// An epoch-slots record (variant 5): index, key, counted runs, wallclock.
fn make_epoch_slots_with_runs(index: u8, from: &[u8; 32], runs: &[Run], wallclock: u64) -> Vec<u8> {
    let mut out = Vec::new();
    out.extend_from_slice(&5u32.to_le_bytes());
    out.push(index);
    out.extend_from_slice(from);
    out.extend_from_slice(&(runs.len() as u64).to_le_bytes());
    for run in runs {
        match run {
            Run::Compressed(num, bytes) => {
                out.extend_from_slice(&0u32.to_le_bytes());
                out.extend_from_slice(&100u64.to_le_bytes());
                out.extend_from_slice(&num.to_le_bytes());
                out.extend_from_slice(&(bytes.len() as u64).to_le_bytes());
                out.extend_from_slice(bytes);
            }
            Run::Bits(num, storage, len) => {
                out.extend_from_slice(&1u32.to_le_bytes());
                out.extend_from_slice(&100u64.to_le_bytes());
                out.extend_from_slice(&num.to_le_bytes());
                match storage {
                    Some(b) => {
                        out.push(1);
                        out.extend_from_slice(&(b.len() as u64).to_le_bytes());
                        out.extend_from_slice(b);
                    }
                    None => out.push(0),
                }
                out.extend_from_slice(&len.to_le_bytes());
            }
        }
    }
    out.extend_from_slice(&wallclock.to_le_bytes());
    out
}

/// An epoch-slots record with no runs.
fn make_epoch_slots_crds_data(index: u8, from: &[u8; 32], wallclock: u64) -> Vec<u8> {
    make_epoch_slots_with_runs(index, from, &[], wallclock)
}

#[test]
fn test_conformance_epoch_slots_index_at_max() {
    let pk = [0x66; 32];
    let es_data = make_epoch_slots_crds_data(255, &pk, 1_000_000);
    let crds_val = make_crds_value_bytes(&[0u8; 64], &es_data);
    let data = make_push_message_bytes(&pk, &[crds_val]);
    assert!(check(&data, false));
}

#[test]
fn epoch_slots_fields_carried_to_effects() {
    let pk = [0x66; 32];
    let es = make_epoch_slots_with_runs(
        254,
        &pk,
        &[Run::Compressed(16383, &[1, 2, 3]), Run::Bits(8, Some(&[0xFF, 0x01]), 16), Run::Bits(0, None, 0)],
        77,
    );
    let data = make_push_message_bytes(&pk, &[make_crds_value_bytes(&[0u8; 64], &es)]);
    assert!(check(&data, true));
    let effects = get_effects(&data);
    match unwrap_msg(&effects) {
        gossip_msg::Msg::PushMessage(pm) => {
            match pm.values[0].data.as_ref().unwrap().data.as_ref().unwrap() {
                gossip_crds_data::Data::EpochSlots(e) => {
                    assert_eq!(e.index, 254);
                    assert_eq!(e.from, pk);
                    assert_eq!(e.wallclock, 77);
                }
                other => panic!("expected EpochSlots, got {other:?}"),
            }
        }
        other => panic!("expected PushMessage, got {other:?}"),
    }
}

#[test]
fn epoch_slots_run_bounds_rejected() {
    let pk = [0x66; 32];
    let push = |runs: &[Run]| {
        let es = make_epoch_slots_with_runs(0, &pk, runs, 77);
        make_push_message_bytes(&pk, &[make_crds_value_bytes(&[0u8; 64], &es)])
    };
    // too many slots in a run
    assert!(check(&push(&[Run::Compressed(16384, &[])]), false));
    assert!(check(&push(&[Run::Bits(16384, Some(&[0]), 8)]), false));
    // a bit vector whose length is not whole bytes
    assert!(check(&push(&[Run::Bits(1, Some(&[0, 0]), 12)]), false));
    // a bit vector that does not fill its storage
    assert!(check(&push(&[Run::Bits(1, Some(&[0, 0]), 8)]), false));
    // a bit vector longer than its storage
    assert!(check(&push(&[Run::Bits(1, Some(&[0]), 16)]), false));
    // empty storage after the marker 1
    assert!(check(&push(&[Run::Bits(1, Some(&[]), 0)]), false));
}

#[test]
fn epoch_slots_wallclock_at_max_rejected() {
    let pk = [0x66; 32];
    let es = make_epoch_slots_crds_data(0, &pk, MAX_WALLCLOCK);
    let data = make_push_message_bytes(&pk, &[make_crds_value_bytes(&[0u8; 64], &es)]);
    assert!(check(&data, false));
}

fn push_short(out: &mut Vec<u8>, n: usize) {
    // compact length: seven bits per byte, low bits first
    let mut v = n;
    loop {
        let b = (v & 0x7F) as u8;
        v >>= 7;
        if v == 0 {
            out.push(b);
            break;
        }
        out.push(b | 0x80);
    }
}

/// A legacy transaction as bytes: signatures, header, keys, blockhash, and
/// instructions given as (program index, account indexes, data).
fn make_transaction_bytes(
    n_signatures: usize,
    header: [u8; 3],
    keys: &[[u8; 32]],
    instructions: &[(u8, Vec<u8>, Vec<u8>)],
) -> Vec<u8> {
    let mut out = Vec::new();
    push_short(&mut out, n_signatures);
    for i in 0..n_signatures {
        out.extend_from_slice(&[i as u8 + 1; 64]);
    }
    out.extend_from_slice(&header);
    push_short(&mut out, keys.len());
    for k in keys {
        out.extend_from_slice(k);
    }
    out.extend_from_slice(&[0x5B; 32]);
    push_short(&mut out, instructions.len());
    for (program, accounts, data) in instructions {
        out.push(*program);
        push_short(&mut out, accounts.len());
        out.extend_from_slice(accounts);
        push_short(&mut out, data.len());
        out.extend_from_slice(data);
    }
    out
}

/// A vote transaction signed by `from`: the vote account, two sysvars and
/// the vote program, one instruction to the vote program.
fn make_vote_transaction(from: &[u8; 32]) -> Vec<u8> {
    make_transaction_bytes(
        1,
        [1, 0, 3],
        &[*from, [0x11; 32], [0x22; 32], [0x33; 32]],
        &[(3, vec![0, 1, 2, 0], vec![2, 0, 0, 0, 1, 0, 0, 0, 0, 0, 0, 0])],
    )
}

/// A vote (variant 1) as bytes: index, voter key, transaction, wallclock.
fn make_vote_crds_data_with_tx(index: u8, from: &[u8; 32], tx: &[u8], wallclock: u64) -> Vec<u8> {
    let mut out = Vec::new();
    out.extend_from_slice(&1u32.to_le_bytes());
    out.push(index);
    out.extend_from_slice(from);
    out.extend_from_slice(tx);
    out.extend_from_slice(&wallclock.to_le_bytes());
    out
}

fn make_vote_crds_data(index: u8, from: &[u8; 32], wallclock: u64) -> Vec<u8> {
    make_vote_crds_data_with_tx(index, from, &make_vote_transaction(from), wallclock)
}

#[test]
fn test_conformance_vote_index_valid() {
    let pk = [0xCC; 32];
    let vote_data = make_vote_crds_data(0, &pk, 1_000_000);
    let crds_val = make_crds_value_bytes(&[0u8; 64], &vote_data);
    let data = make_push_message_bytes(&pk, &[crds_val]);
    assert!(check(&data, true));

    let effects = get_effects(&data);
    let msg = unwrap_msg(&effects);
    match msg {
        gossip_msg::Msg::PushMessage(pm) => {
            match pm.values[0].data.as_ref().unwrap().data.as_ref().unwrap() {
                gossip_crds_data::Data::Vote(v) => {
                    assert_eq!(v.index, 0);
                    assert!(!v.transaction.is_empty());
                }
                other => panic!("expected Vote, got {other:?}"),
            }
        }
        other => panic!("expected PushMessage, got {other:?}"),
    }
}

#[test]
fn test_conformance_vote_index_at_max() {
    let pk = [0xCC; 32];
    let vote_data = make_vote_crds_data(32, &pk, 1_000_000);
    let crds_val = make_crds_value_bytes(&[0u8; 64], &vote_data);
    let data = make_push_message_bytes(&pk, &[crds_val]);
    assert!(check(&data, false));
}

#[test]
fn vote_fields_and_transaction_bytes_carried() {
    let pk = [0xCD; 32];
    let tx = make_vote_transaction(&pk);
    let vote_data = make_vote_crds_data_with_tx(31, &pk, &tx, 42);
    let data = make_push_message_bytes(&pk, &[make_crds_value_bytes(&[0u8; 64], &vote_data)]);
    assert!(check(&data, true));
    let effects = get_effects(&data);
    match unwrap_msg(&effects) {
        gossip_msg::Msg::PushMessage(pm) => {
            match pm.values[0].data.as_ref().unwrap().data.as_ref().unwrap() {
                gossip_crds_data::Data::Vote(v) => {
                    assert_eq!(v.index, 31);
                    assert_eq!(v.from, pk);
                    assert_eq!(v.wallclock, 42);
                    assert_eq!(v.transaction, tx);
                }
                other => panic!("expected Vote, got {other:?}"),
            }
        }
        other => panic!("expected PushMessage, got {other:?}"),
    }
}

fn vote_push_with_tx(tx: &[u8], wallclock: u64) -> Vec<u8> {
    let pk = [0xCE; 32];
    let vote_data = make_vote_crds_data_with_tx(0, &pk, tx, wallclock);
    make_push_message_bytes(&pk, &[make_crds_value_bytes(&[0u8; 64], &vote_data)])
}

#[test]
fn vote_transaction_checks() {
    let keys = [[1u8; 32], [2u8; 32], [3u8; 32]];
    let ok = make_transaction_bytes(1, [1, 0, 1], &keys, &[(2, vec![0, 1], vec![9])]);
    assert!(check(&vote_push_with_tx(&ok, 5), true));
    // wallclock at the bound
    assert!(check(&vote_push_with_tx(&ok, MAX_WALLCLOCK), false));
    // fewer signatures than required signers
    let tx = make_transaction_bytes(1, [2, 0, 1], &keys, &[(2, vec![], vec![])]);
    assert!(check(&vote_push_with_tx(&tx, 5), false));
    // more signatures than keys
    let tx = make_transaction_bytes(4, [1, 0, 1], &keys, &[]);
    assert!(check(&vote_push_with_tx(&tx, 5), false));
    // signers and read-only unsigned keys overlap past the keys
    let tx = make_transaction_bytes(1, [1, 0, 3], &keys, &[]);
    assert!(check(&vote_push_with_tx(&tx, 5), false));
    // no writable fee payer
    let tx = make_transaction_bytes(1, [1, 1, 0], &keys, &[]);
    assert!(check(&vote_push_with_tx(&tx, 5), false));
    // program index out of range, or the fee payer
    let tx = make_transaction_bytes(1, [1, 0, 1], &keys, &[(3, vec![], vec![])]);
    assert!(check(&vote_push_with_tx(&tx, 5), false));
    let tx = make_transaction_bytes(1, [1, 0, 1], &keys, &[(0, vec![], vec![])]);
    assert!(check(&vote_push_with_tx(&tx, 5), false));
    // account index out of range
    let tx = make_transaction_bytes(1, [1, 0, 1], &keys, &[(2, vec![0, 3], vec![])]);
    assert!(check(&vote_push_with_tx(&tx, 5), false));
    // a compact length with a redundant zero byte
    let mut tx = ok.clone();
    tx.splice(0..1, [0x81, 0x00]);
    assert!(check(&vote_push_with_tx(&tx, 5), false));
}


fn retired_value(tag: u32, body: &[u8]) -> Vec<u8> {
    let mut out = Vec::new();
    out.extend_from_slice(&tag.to_le_bytes());
    out.extend_from_slice(&[0x42; 32]);
    out.extend_from_slice(body);
    out
}

fn push_of(data: &[u8]) -> Vec<u8> {
    make_push_message_bytes(&[0x42; 32], &[make_crds_value_bytes(&[0u8; 64], data)])
}

/// The single value of a valid push message has no data.
fn assert_valid_with_empty_data(data: &[u8]) {
    let input = push_of(data);
    assert!(check(&input, true));
    let effects = get_effects(&input);
    match unwrap_msg(&effects) {
        gossip_msg::Msg::PushMessage(pm) => {
            assert_eq!(pm.values.len(), 1);
            assert!(pm.values[0].data.as_ref().unwrap().data.is_none());
        }
        other => panic!("expected PushMessage, got {other:?}"),
    }
}

#[test]
fn node_instance_valid_with_empty_data() {
    let mut body = Vec::new();
    body.extend_from_slice(&7u64.to_le_bytes()); // wallclock
    body.extend_from_slice(&8u64.to_le_bytes()); // timestamp
    body.extend_from_slice(&9u64.to_le_bytes()); // token
    assert_valid_with_empty_data(&retired_value(8, &body));
    let mut body = MAX_WALLCLOCK.to_le_bytes().to_vec();
    body.extend_from_slice(&[0; 16]);
    assert!(check(&push_of(&retired_value(8, &body)), false));
    // one byte short
    assert!(check(&push_of(&retired_value(8, &[0; 23])), false));
}

#[test]
fn legacy_versions_valid_with_empty_data() {
    let mut body = 5u64.to_le_bytes().to_vec();
    body.extend_from_slice(&[1, 0, 2, 0, 3, 0]); // major, minor, patch
    let mut v1 = body.clone();
    v1.push(0); // no commit
    assert_valid_with_empty_data(&retired_value(6, &v1));
    let mut v2 = body.clone();
    v2.push(1);
    v2.extend_from_slice(&0xAABBCCDDu32.to_le_bytes()); // commit
    v2.extend_from_slice(&77u32.to_le_bytes()); // feature set
    assert_valid_with_empty_data(&retired_value(7, &v2));
    // a commit marker other than 0 or 1
    let mut bad = body.clone();
    bad.push(2);
    assert!(check(&push_of(&retired_value(6, &bad)), false));
}

#[test]
fn accounts_hashes_checks() {
    let hashes = |slot: u64, wallclock: u64| {
        let mut body = 1u64.to_le_bytes().to_vec();
        body.extend_from_slice(&slot.to_le_bytes());
        body.extend_from_slice(&[0x99; 32]);
        body.extend_from_slice(&wallclock.to_le_bytes());
        body
    };
    assert_valid_with_empty_data(&retired_value(4, &hashes(100, 5)));
    assert_valid_with_empty_data(&retired_value(3, &hashes(100, 5)));
    assert!(check(&push_of(&retired_value(4, &hashes(1_000_000_000_000_000, 5))), false));
    assert!(check(&push_of(&retired_value(3, &hashes(100, MAX_WALLCLOCK))), false));
}

#[test]
fn legacy_contact_info_valid_with_empty_data() {
    let mut body = Vec::new();
    for i in 0..10u32 {
        if i % 2 == 0 {
            body.extend_from_slice(&0u32.to_le_bytes());
            body.extend_from_slice(&[10, 0, 0, i as u8]);
        } else {
            body.extend_from_slice(&1u32.to_le_bytes());
            body.extend_from_slice(&[0xFE; 16]);
        }
        body.extend_from_slice(&8000u16.to_le_bytes());
    }
    body.extend_from_slice(&5u64.to_le_bytes()); // wallclock
    body.extend_from_slice(&0u16.to_le_bytes()); // shred version
    assert_valid_with_empty_data(&retired_value(0, &body));
    // a socket address variant other than 0 or 1
    let mut bad = body.clone();
    bad[0] = 2;
    assert!(check(&push_of(&retired_value(0, &bad)), false));
}

#[test]
fn restart_records_valid_with_empty_data() {
    // heaviest fork: wallclock, last slot, hash, observed stake, shred version
    let mut heaviest = MAX_WALLCLOCK.to_le_bytes().to_vec();
    heaviest.extend_from_slice(&50u64.to_le_bytes());
    heaviest.extend_from_slice(&[0x11; 32]);
    heaviest.extend_from_slice(&1000u64.to_le_bytes());
    heaviest.extend_from_slice(&3u16.to_le_bytes());
    assert_valid_with_empty_data(&retired_value(13, &heaviest));

    let tail = |out: &mut Vec<u8>| {
        out.extend_from_slice(&50u64.to_le_bytes()); // last voted slot
        out.extend_from_slice(&[0x22; 32]); // last voted hash
        out.extend_from_slice(&3u16.to_le_bytes()); // shred version
    };
    // run lengths
    let mut rle = 5u64.to_le_bytes().to_vec();
    rle.extend_from_slice(&0u32.to_le_bytes());
    rle.extend_from_slice(&2u64.to_le_bytes());
    rle.extend_from_slice(&[4, 0, 6, 0]);
    tail(&mut rle);
    assert_valid_with_empty_data(&retired_value(12, &rle));
    // raw offsets: one storage byte, eight bits
    let mut raw = 5u64.to_le_bytes().to_vec();
    raw.extend_from_slice(&1u32.to_le_bytes());
    raw.push(1);
    raw.extend_from_slice(&1u64.to_le_bytes());
    raw.push(0xFF);
    raw.extend_from_slice(&8u64.to_le_bytes());
    tail(&mut raw);
    assert_valid_with_empty_data(&retired_value(12, &raw));
    // raw offsets longer than their storage
    let mut bad = 5u64.to_le_bytes().to_vec();
    bad.extend_from_slice(&1u32.to_le_bytes());
    bad.push(1);
    bad.extend_from_slice(&1u64.to_le_bytes());
    bad.push(0xFF);
    bad.extend_from_slice(&9u64.to_le_bytes());
    tail(&mut bad);
    assert!(check(&push_of(&retired_value(12, &bad)), false));
}
