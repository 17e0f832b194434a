//! A versioned transaction message, with its model.
use vstd::prelude::*;
use crate::versioned_message::proto::TransactionConfig;

verus! {

#[derive(Clone, Copy, Debug, PartialEq, Eq)]
pub struct MessageHeader {
    pub num_required_signatures: u8,
    pub num_readonly_signed_accounts: u8,
    pub num_readonly_unsigned_accounts: u8,
}

#[derive(Debug)]
pub struct CompiledInstruction {
    pub program_id_index: u8,
    pub accounts: Vec<u8>,
    pub data: Vec<u8>,
}

#[derive(Debug)]
pub struct MessageAddressTableLookup {
    pub account_key: Vec<u8>,
    pub writable_indexes: Vec<u8>,
    pub readonly_indexes: Vec<u8>,
}

#[derive(Debug)]
pub struct LegacyMessage {
    pub header: MessageHeader,
    pub account_keys: Vec<Vec<u8>>,
    pub recent_blockhash: Vec<u8>,
    pub instructions: Vec<CompiledInstruction>,
}

#[derive(Debug)]
pub struct V0Message {
    pub header: MessageHeader,
    pub account_keys: Vec<Vec<u8>>,
    pub recent_blockhash: Vec<u8>,
    pub instructions: Vec<CompiledInstruction>,
    pub address_table_lookups: Vec<MessageAddressTableLookup>,
}

#[derive(Debug)]
pub struct V1Message {
    pub header: MessageHeader,
    pub config: TransactionConfig,
    pub lifetime_specifier: Vec<u8>,
    pub account_keys: Vec<Vec<u8>>,
    pub instructions: Vec<CompiledInstruction>,
}

#[derive(Debug)]
pub enum VersionedMessage {
    Legacy(LegacyMessage),
    V0(V0Message),
    V1(V1Message),
}

/// Model of a compiled instruction.
pub struct SpecInstruction {
    pub program_id_index: u8,
    pub accounts: Seq<u8>,
    pub data: Seq<u8>,
}

/// Model of an address-table lookup.
pub struct SpecLookup {
    pub account_key: Seq<u8>,
    pub writable_indexes: Seq<u8>,
    pub readonly_indexes: Seq<u8>,
}

/// Model of a versioned message.
pub enum SpecVersionedMessage {
    Legacy {
        header: MessageHeader,
        account_keys: Seq<Seq<u8>>,
        recent_blockhash: Seq<u8>,
        instructions: Seq<SpecInstruction>,
    },
    V0 {
        header: MessageHeader,
        account_keys: Seq<Seq<u8>>,
        recent_blockhash: Seq<u8>,
        instructions: Seq<SpecInstruction>,
        address_table_lookups: Seq<SpecLookup>,
    },
    V1 {
        header: MessageHeader,
        config: TransactionConfig,
        lifetime_specifier: Seq<u8>,
        account_keys: Seq<Seq<u8>>,
        instructions: Seq<SpecInstruction>,
    },
}

/// The models of a list of keys.
pub open spec fn keys_view(keys: Seq<Vec<u8>>) -> Seq<Seq<u8>> {
    keys.map_values(|k: Vec<u8>| k@)
}

/// The models of a list of instructions.
pub open spec fn instructions_view(ixs: Seq<CompiledInstruction>) -> Seq<SpecInstruction> {
    ixs.map_values(|i: CompiledInstruction| i@)
}

/// The models of a list of lookups.
pub open spec fn lookups_view(ls: Seq<MessageAddressTableLookup>) -> Seq<SpecLookup> {
    ls.map_values(|l: MessageAddressTableLookup| l@)
}

impl View for CompiledInstruction {
    type V = SpecInstruction;

    open spec fn view(&self) -> SpecInstruction {
        SpecInstruction {
            program_id_index: self.program_id_index,
            accounts: self.accounts@,
            data: self.data@,
        }
    }
}

impl View for MessageAddressTableLookup {
    type V = SpecLookup;

    open spec fn view(&self) -> SpecLookup {
        SpecLookup {
            account_key: self.account_key@,
            writable_indexes: self.writable_indexes@,
            readonly_indexes: self.readonly_indexes@,
        }
    }
}

impl View for VersionedMessage {
    type V = SpecVersionedMessage;

    open spec fn view(&self) -> SpecVersionedMessage {
        match self {
            VersionedMessage::Legacy(m) => SpecVersionedMessage::Legacy {
                header: m.header,
                account_keys: keys_view(m.account_keys@),
                recent_blockhash: m.recent_blockhash@,
                instructions: instructions_view(m.instructions@),
            },
            VersionedMessage::V0(m) => SpecVersionedMessage::V0 {
                header: m.header,
                account_keys: keys_view(m.account_keys@),
                recent_blockhash: m.recent_blockhash@,
                instructions: instructions_view(m.instructions@),
                address_table_lookups: lookups_view(m.address_table_lookups@),
            },
            VersionedMessage::V1(m) => SpecVersionedMessage::V1 {
                header: m.header,
                config: m.config,
                lifetime_specifier: m.lifetime_specifier@,
                account_keys: keys_view(m.account_keys@),
                instructions: instructions_view(m.instructions@),
            },
        }
    }
}

} // verus!
