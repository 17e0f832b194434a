//! Conversion of a fixture's transaction message into a versioned message.
pub mod proto;
pub mod message;

use vstd::prelude::*;
use crate::versioned_message::message::{
    CompiledInstruction, LegacyMessage, MessageAddressTableLookup, MessageHeader, SpecInstruction,
    SpecLookup, SpecVersionedMessage, V0Message, V1Message, VersionedMessage, instructions_view,
    keys_view, lookups_view,
};
use crate::versioned_message::proto::{
    SpecProtoInstruction, SpecProtoLookup, SpecProtoMessage, TRANSACTION_VERSION_LEGACY,
    TRANSACTION_VERSION_V1, TransactionConfig, TransactionMessage,
};

verus! {

/// The header of the message: the fixture's counts truncated to bytes, with at
/// least one required signature (the count is truncated first, then raised to
/// one); without a header, one required signature and nothing read-only.
pub open spec fn spec_header(h: Option<proto::MessageHeader>) -> MessageHeader {
    match h {
        Some(h) => MessageHeader {
            num_required_signatures: if (h.num_required_signatures as u8) < 1 {
                1
            } else {
                h.num_required_signatures as u8
            },
            num_readonly_signed_accounts: h.num_readonly_signed_accounts as u8,
            num_readonly_unsigned_accounts: h.num_readonly_unsigned_accounts as u8,
        },
        None => MessageHeader {
            num_required_signatures: 1,
            num_readonly_signed_accounts: 0,
            num_readonly_unsigned_accounts: 0,
        },
    }
}

/// A key is kept when it is exactly 32 bytes long.
pub open spec fn key_if_valid(k: Seq<u8>) -> Option<Seq<u8>> {
    if k.len() == 32 {
        Some(k)
    } else {
        None
    }
}

/// The fixture's keys that are 32 bytes long, in order.
pub open spec fn spec_account_keys(keys: Seq<Seq<u8>>) -> Seq<Seq<u8>> {
    keys.filter_map(|k: Seq<u8>| key_if_valid(k))
}

/// The blockhash when it is 32 bytes long, and 32 zero bytes otherwise.
pub open spec fn spec_blockhash(b: Seq<u8>) -> Seq<u8> {
    if b.len() == 32 {
        b
    } else {
        Seq::new(32, |i: int| 0u8)
    }
}

/// Account indexes truncated to bytes.
pub open spec fn indexes_as_u8(ix: Seq<u32>) -> Seq<u8> {
    ix.map_values(|i: u32| i as u8)
}

pub open spec fn spec_instruction(ci: SpecProtoInstruction) -> SpecInstruction {
    SpecInstruction {
        program_id_index: ci.program_id_index as u8,
        accounts: indexes_as_u8(ci.accounts),
        data: ci.data,
    }
}

pub open spec fn spec_instructions(ixs: Seq<SpecProtoInstruction>) -> Seq<SpecInstruction> {
    ixs.map_values(|ci: SpecProtoInstruction| spec_instruction(ci))
}

/// A lookup is kept when its table key is 32 bytes long.
pub open spec fn spec_lookup(l: SpecProtoLookup) -> Option<SpecLookup> {
    if l.account_key.len() == 32 {
        Some(
            SpecLookup {
                account_key: l.account_key,
                writable_indexes: indexes_as_u8(l.writable_indexes),
                readonly_indexes: indexes_as_u8(l.readonly_indexes),
            },
        )
    } else {
        None
    }
}

pub open spec fn spec_lookups(ls: Seq<SpecProtoLookup>) -> Seq<SpecLookup> {
    ls.filter_map(|l: SpecProtoLookup| spec_lookup(l))
}

/// A configuration that sets nothing.
pub open spec fn empty_config() -> TransactionConfig {
    TransactionConfig {
        priority_fee: None,
        compute_unit_limit: None,
        loaded_accounts_data_size_limit: None,
        heap_size: None,
    }
}

/// The versioned message a fixture describes: version 1 carries the fixture's
/// configuration (or an empty one); legacy carries no lookups; any other code
/// gives version 0, whose lookups keep those with a 32-byte table key.
pub open spec fn spec_versioned_message_from_proto(m: SpecProtoMessage) -> SpecVersionedMessage {
    let header = spec_header(m.header);
    let account_keys = spec_account_keys(m.account_keys);
    let blockhash = spec_blockhash(m.recent_blockhash);
    let instructions = spec_instructions(m.instructions);
    if m.version == TRANSACTION_VERSION_V1 {
        SpecVersionedMessage::V1 {
            header,
            config: match m.v1_config {
                Some(c) => c,
                None => empty_config(),
            },
            lifetime_specifier: blockhash,
            account_keys,
            instructions,
        }
    } else if m.version == TRANSACTION_VERSION_LEGACY {
        SpecVersionedMessage::Legacy { header, account_keys, recent_blockhash: blockhash, instructions }
    } else {
        SpecVersionedMessage::V0 {
            header,
            account_keys,
            recent_blockhash: blockhash,
            instructions,
            address_table_lookups: spec_lookups(m.address_table_lookups),
        }
    }
}

/// Every key kept from a fixture is 32 bytes long.
proof fn lemma_kept_keys_len(keys: Seq<Seq<u8>>)
    ensures
        forall|i: int|
            0 <= i < spec_account_keys(keys).len() ==> (#[trigger] spec_account_keys(keys)[i]).len()
                == 32,
{
    assert forall|i: int| 0 <= i < spec_account_keys(keys).len() implies (
    #[trigger] spec_account_keys(keys)[i]).len() == 32 by {
        let k = spec_account_keys(keys)[i];
        assert(spec_account_keys(keys).contains(k));
        keys.lemma_filter_map_contains(|k: Seq<u8>| key_if_valid(k), k);
    }
}

/// Every lookup kept from a fixture has a 32-byte table key.
proof fn lemma_kept_lookups_len(ls: Seq<SpecProtoLookup>)
    ensures
        forall|i: int|
            0 <= i < spec_lookups(ls).len() ==> (#[trigger] spec_lookups(ls)[i]).account_key.len()
                == 32,
{
    assert forall|i: int| 0 <= i < spec_lookups(ls).len() implies (
    #[trigger] spec_lookups(ls)[i]).account_key.len() == 32 by {
        let l = spec_lookups(ls)[i];
        assert(spec_lookups(ls).contains(l));
        ls.lemma_filter_map_contains(|l: SpecProtoLookup| spec_lookup(l), l);
    }
}

/// Whatever a fixture holds, the message built from it has a fee payer (at
/// least one required signature), account keys and table keys of 32 bytes,
/// and a 32-byte blockhash.
pub proof fn law_message_well_shaped(m: SpecProtoMessage)
    ensures
        match spec_versioned_message_from_proto(m) {
            SpecVersionedMessage::Legacy { header, account_keys, recent_blockhash, .. } => {
                &&& header.num_required_signatures >= 1
                &&& recent_blockhash.len() == 32
                &&& forall|i: int| 0 <= i < account_keys.len() ==> (#[trigger] account_keys[i]).len() == 32
            },
            SpecVersionedMessage::V0 {
                header,
                account_keys,
                recent_blockhash,
                address_table_lookups,
                ..
            } => {
                &&& header.num_required_signatures >= 1
                &&& recent_blockhash.len() == 32
                &&& forall|i: int| 0 <= i < account_keys.len() ==> (#[trigger] account_keys[i]).len() == 32
                &&& forall|i: int|
                    0 <= i < address_table_lookups.len() ==> (
                    #[trigger] address_table_lookups[i]).account_key.len() == 32
            },
            SpecVersionedMessage::V1 { header, lifetime_specifier, account_keys, .. } => {
                &&& header.num_required_signatures >= 1
                &&& lifetime_specifier.len() == 32
                &&& forall|i: int| 0 <= i < account_keys.len() ==> (#[trigger] account_keys[i]).len() == 32
            },
        },
{
    lemma_kept_keys_len(m.account_keys);
    lemma_kept_lookups_len(m.address_table_lookups);
}

/// Every lookup kept from a fixture is one of the fixture's lookups with a
/// 32-byte table key, copied key for key and with each writable and each
/// readonly index truncated to a byte, in place.
proof fn lemma_kept_lookup_copies(ls: Seq<SpecProtoLookup>, i: int) -> (j: int)
    requires
        0 <= i < spec_lookups(ls).len(),
    ensures
        0 <= j < ls.len(),
        ls[j].account_key.len() == 32,
        spec_lookups(ls)[i].account_key == ls[j].account_key,
        spec_lookups(ls)[i].writable_indexes.len() == ls[j].writable_indexes.len(),
        spec_lookups(ls)[i].readonly_indexes.len() == ls[j].readonly_indexes.len(),
        forall|k: int|
            0 <= k < ls[j].writable_indexes.len() ==> spec_lookups(ls)[i].writable_indexes[k]
                == #[trigger] ls[j].writable_indexes[k] as u8,
        forall|k: int|
            0 <= k < ls[j].readonly_indexes.len() ==> spec_lookups(ls)[i].readonly_indexes[k]
                == #[trigger] ls[j].readonly_indexes[k] as u8,
{
    let l = spec_lookups(ls)[i];
    assert(spec_lookups(ls).contains(l));
    ls.lemma_filter_map_contains(|l: SpecProtoLookup| spec_lookup(l), l);
    let t = choose|t: SpecProtoLookup| #[trigger] ls.contains(t) && spec_lookup(t) == Some(l);
    let j = choose|j: int| 0 <= j < ls.len() && ls[j] == t;
    j
}

/// A fixture of any version code but legacy and version 1 gives a version 0
/// message, and each of its address-table lookups is one of the fixture's
/// lookups with a 32-byte table key: the same key, and writable and readonly
/// indexes that are the fixture's own, element by element, truncated to bytes.
pub proof fn law_v0_lookups_copy_fixture(m: SpecProtoMessage, i: int)
    requires
        m.version != TRANSACTION_VERSION_LEGACY,
        m.version != TRANSACTION_VERSION_V1,
    ensures
        match spec_versioned_message_from_proto(m) {
            SpecVersionedMessage::V0 { address_table_lookups, .. } => 0 <= i
                < address_table_lookups.len() ==> exists|j: int|
            0 <= j < m.address_table_lookups.len() && {
                let fixture = #[trigger] m.address_table_lookups[j];
                let kept = address_table_lookups[i];
                &&& fixture.account_key.len() == 32
                &&& kept.account_key == fixture.account_key
                &&& kept.writable_indexes.len() == fixture.writable_indexes.len()
                &&& kept.readonly_indexes.len() == fixture.readonly_indexes.len()
                &&& forall|k: int|
                    0 <= k < fixture.writable_indexes.len() ==> kept.writable_indexes[k]
                        == fixture.writable_indexes[k] as u8
                &&& forall|k: int|
                    0 <= k < fixture.readonly_indexes.len() ==> kept.readonly_indexes[k]
                        == fixture.readonly_indexes[k] as u8
            },
            _ => false,
        },
{
    let lookups = spec_lookups(m.address_table_lookups);
    if 0 <= i < lookups.len() {
        let j = lemma_kept_lookup_copies(m.address_table_lookups, i);
        assert(m.address_table_lookups[j] == m.address_table_lookups[j]);
    }
}

/// When every fixture lookup has a 32-byte table key, all are kept, in order.
proof fn lemma_all_lookups_kept(ls: Seq<SpecProtoLookup>)
    requires
        forall|j: int| 0 <= j < ls.len() ==> (#[trigger] ls[j]).account_key.len() == 32,
    ensures
        spec_lookups(ls).len() == ls.len(),
        forall|j: int| 0 <= j < ls.len() ==> spec_lookup(ls[j]) == Some(#[trigger] spec_lookups(ls)[j]),
    decreases ls.len(),
{
    if ls.len() > 0 {
        let rest = ls.drop_last();
        assert forall|j: int| 0 <= j < rest.len() implies (#[trigger] rest[j]).account_key.len() == 32 by {
            assert(rest[j] == ls[j]);
        }
        lemma_all_lookups_kept(rest);
        assert(ls.last().account_key.len() == 32);
        assert(spec_lookups(ls) == spec_lookups(rest) + seq![spec_lookup(ls.last()).unwrap()]);
        assert forall|j: int| 0 <= j < ls.len() implies spec_lookup(ls[j]) == Some(
            #[trigger] spec_lookups(ls)[j],
        ) by {
            if j < rest.len() {
                assert(ls[j] == rest[j]);
            }
        }
    }
}

/// When every fixture lookup has a 32-byte table key, a version 0 message
/// keeps them all, in order: the `j`-th lookup of the message has the
/// `j`-th fixture lookup's key, and its writable and readonly indexes are
/// that lookup's own, element by element, truncated to bytes.
pub proof fn law_v0_lookups_all_kept(m: SpecProtoMessage)
    requires
        m.version != TRANSACTION_VERSION_LEGACY,
        m.version != TRANSACTION_VERSION_V1,
        forall|j: int|
            0 <= j < m.address_table_lookups.len() ==> (
            #[trigger] m.address_table_lookups[j]).account_key.len() == 32,
    ensures
        match spec_versioned_message_from_proto(m) {
            SpecVersionedMessage::V0 { address_table_lookups, .. } => {
                &&& address_table_lookups.len() == m.address_table_lookups.len()
                &&& forall|j: int|
                    0 <= j < address_table_lookups.len() ==> {
                        let fixture = m.address_table_lookups[j];
                        let kept = #[trigger] address_table_lookups[j];
                        &&& kept.account_key == fixture.account_key
                        &&& kept.writable_indexes.len() == fixture.writable_indexes.len()
                        &&& kept.readonly_indexes.len() == fixture.readonly_indexes.len()
                        &&& forall|k: int|
                            0 <= k < fixture.writable_indexes.len() ==> kept.writable_indexes[k]
                                == fixture.writable_indexes[k] as u8
                        &&& forall|k: int|
                            0 <= k < fixture.readonly_indexes.len() ==> kept.readonly_indexes[k]
                                == fixture.readonly_indexes[k] as u8
                    }
            },
            _ => false,
        },
{
    lemma_all_lookups_kept(m.address_table_lookups);
}

/// The instructions of a versioned message, whatever its version.
pub open spec fn message_instructions(v: SpecVersionedMessage) -> Seq<SpecInstruction> {
    match v {
        SpecVersionedMessage::Legacy { instructions, .. } => instructions,
        SpecVersionedMessage::V0 { instructions, .. } => instructions,
        SpecVersionedMessage::V1 { instructions, .. } => instructions,
    }
}

/// Whatever its version, a message keeps the fixture's instructions, all of
/// them and in order: each has the fixture instruction's program index and
/// account indexes, element by element, truncated to bytes, and its data.
pub proof fn law_instructions_copy_fixture(m: SpecProtoMessage)
    ensures
        ({
            let out = message_instructions(spec_versioned_message_from_proto(m));
            &&& out.len() == m.instructions.len()
            &&& forall|j: int|
                0 <= j < out.len() ==> {
                    let fixture = m.instructions[j];
                    let kept = #[trigger] out[j];
                    &&& kept.program_id_index == fixture.program_id_index as u8
                    &&& kept.data == fixture.data
                    &&& kept.accounts.len() == fixture.accounts.len()
                    &&& forall|k: int|
                        0 <= k < fixture.accounts.len() ==> kept.accounts[k]
                            == fixture.accounts[k] as u8
                }
        }),
{
}

fn convert_header(h: Option<proto::MessageHeader>) -> (r: MessageHeader)
    ensures
        r == spec_header(h),
{
    match h {
        Some(h) => {
            let n = h.num_required_signatures as u8;
            MessageHeader {
                num_required_signatures: if n < 1 {
                    1
                } else {
                    n
                },
                num_readonly_signed_accounts: h.num_readonly_signed_accounts as u8,
                num_readonly_unsigned_accounts: h.num_readonly_unsigned_accounts as u8,
            }
        },
        None => MessageHeader {
            num_required_signatures: 1,
            num_readonly_signed_accounts: 0,
            num_readonly_unsigned_accounts: 0,
        },
    }
}

fn copy_bytes(b: &Vec<u8>) -> (out: Vec<u8>)
    ensures
        out@ == b@,
{
    vstd::slice::slice_to_vec(b.as_slice())
}

fn convert_account_keys(keys: &Vec<Vec<u8>>) -> (out: Vec<Vec<u8>>)
    ensures
        keys_view(out@) == spec_account_keys(keys_view(keys@)),
{
    let ghost src = keys_view(keys@);
    let ghost f = |k: Seq<u8>| key_if_valid(k);
    let mut out: Vec<Vec<u8>> = Vec::new();
    let mut i: usize = 0;
    while i < keys.len()
        invariant
            i <= keys@.len(),
            src == keys_view(keys@),
            f == (|k: Seq<u8>| key_if_valid(k)),
            keys_view(out@) == src.take(i as int).filter_map(f),
        decreases keys@.len() - i,
    {
        proof {
            src.lemma_filter_map_take_succ(f, i as int);
        }
        if keys[i].len() == 32 {
            let k = copy_bytes(&keys[i]);
            let ghost prev = out@;
            out.push(k);
            assert(keys_view(out@) =~= keys_view(prev) + seq![src[i as int]]);
        }
        i = i + 1;
    }
    assert(src.take(keys@.len() as int) =~= src);
    out
}

fn convert_blockhash(b: &Vec<u8>) -> (out: Vec<u8>)
    ensures
        out@ == spec_blockhash(b@),
{
    if b.len() == 32 {
        copy_bytes(b)
    } else {
        let mut out: Vec<u8> = Vec::new();
        let mut i: usize = 0;
        while i < 32
            invariant
                i <= 32,
                out@ == Seq::new(i as nat, |j: int| 0u8),
            decreases 32 - i,
        {
            out.push(0u8);
            i = i + 1;
            assert(out@ =~= Seq::new(i as nat, |j: int| 0u8));
        }
        out
    }
}

fn convert_indexes(ix: &Vec<u32>) -> (out: Vec<u8>)
    ensures
        out@ == indexes_as_u8(ix@),
{
    let mut out: Vec<u8> = Vec::new();
    let mut i: usize = 0;
    while i < ix.len()
        invariant
            i <= ix@.len(),
            out@ == indexes_as_u8(ix@.take(i as int)),
        decreases ix@.len() - i,
    {
        out.push(ix[i] as u8);
        i = i + 1;
        assert(out@ =~= indexes_as_u8(ix@.take(i as int)));
    }
    assert(ix@.take(ix@.len() as int) =~= ix@);
    out
}

fn convert_instructions(ixs: &Vec<proto::CompiledInstruction>) -> (out: Vec<CompiledInstruction>)
    ensures
        instructions_view(out@) == spec_instructions(
            ixs@.map_values(|i: proto::CompiledInstruction| i@),
        ),
{
    let ghost src = ixs@.map_values(|i: proto::CompiledInstruction| i@);
    let mut out: Vec<CompiledInstruction> = Vec::new();
    let mut i: usize = 0;
    while i < ixs.len()
        invariant
            i <= ixs@.len(),
            src == ixs@.map_values(|i: proto::CompiledInstruction| i@),
            instructions_view(out@) == spec_instructions(src.take(i as int)),
        decreases ixs@.len() - i,
    {
        let ci = &ixs[i];
        let converted = CompiledInstruction {
            program_id_index: ci.program_id_index as u8,
            accounts: convert_indexes(&ci.accounts),
            data: copy_bytes(&ci.data),
        };
        let ghost prev = out@;
        let ghost cv = converted@;
        out.push(converted);
        proof {
            assert(instructions_view(out@) =~= instructions_view(prev).push(cv));
            assert(src.take(i + 1) =~= src.take(i as int).push(src[i as int]));
            assert(spec_instructions(src.take(i + 1)) =~= spec_instructions(src.take(i as int)).push(
                cv,
            ));
        }
        i = i + 1;
    }
    assert(src.take(ixs@.len() as int) =~= src);
    out
}

fn convert_lookups(ls: &Vec<proto::MessageAddressTableLookup>) -> (out: Vec<
    MessageAddressTableLookup,
>)
    ensures
        lookups_view(out@) == spec_lookups(
            ls@.map_values(|l: proto::MessageAddressTableLookup| l@),
        ),
{
    let ghost src = ls@.map_values(|l: proto::MessageAddressTableLookup| l@);
    let ghost f = |l: SpecProtoLookup| spec_lookup(l);
    let mut out: Vec<MessageAddressTableLookup> = Vec::new();
    let mut i: usize = 0;
    while i < ls.len()
        invariant
            i <= ls@.len(),
            src == ls@.map_values(|l: proto::MessageAddressTableLookup| l@),
            f == (|l: SpecProtoLookup| spec_lookup(l)),
            lookups_view(out@) == src.take(i as int).filter_map(f),
        decreases ls@.len() - i,
    {
        proof {
            src.lemma_filter_map_take_succ(f, i as int);
        }
        let l = &ls[i];
        if l.account_key.len() == 32 {
            let converted = MessageAddressTableLookup {
                account_key: copy_bytes(&l.account_key),
                writable_indexes: convert_indexes(&l.writable_indexes),
                readonly_indexes: convert_indexes(&l.readonly_indexes),
            };
            let ghost prev = out@;
            let ghost cv = converted@;
            out.push(converted);
            assert(lookups_view(out@) =~= lookups_view(prev) + seq![cv]);
        }
        i = i + 1;
    }
    assert(src.take(ls@.len() as int) =~= src);
    out
}

/// Builds the versioned message that a fixture's transaction message describes.
pub fn versioned_message_from_proto(value: &TransactionMessage) -> (r: VersionedMessage)
    ensures
        r@ == spec_versioned_message_from_proto(value@),
{
    let header = convert_header(value.header);
    let account_keys = convert_account_keys(&value.account_keys);
    let recent_blockhash = convert_blockhash(&value.recent_blockhash);
    let instructions = convert_instructions(&value.instructions);
    if value.version == TRANSACTION_VERSION_V1 {
        let config = match value.v1_config {
            Some(c) => c,
            None => TransactionConfig {
                priority_fee: None,
                compute_unit_limit: None,
                loaded_accounts_data_size_limit: None,
                heap_size: None,
            },
        };
        return VersionedMessage::V1(
            V1Message {
                header,
                config,
                lifetime_specifier: recent_blockhash,
                account_keys,
                instructions,
            },
        );
    }
    if value.version == TRANSACTION_VERSION_LEGACY {
        VersionedMessage::Legacy(
            LegacyMessage { header, account_keys, recent_blockhash, instructions },
        )
    } else {
        let address_table_lookups = convert_lookups(&value.address_table_lookups);
        VersionedMessage::V0(
            V0Message { header, account_keys, recent_blockhash, instructions, address_table_lookups },
        )
    }
}

} // verus!
