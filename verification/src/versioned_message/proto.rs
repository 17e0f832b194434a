//! The conformance fixture's description of a transaction message.
use vstd::prelude::*;

verus! {

/// Raw version code of a legacy message.
pub const TRANSACTION_VERSION_LEGACY: i32 = 1;

/// Raw version code of a version 1 message.
pub const TRANSACTION_VERSION_V1: i32 = 2;

#[derive(Clone, Copy, Debug, PartialEq, Eq)]
pub struct MessageHeader {
    pub num_required_signatures: u32,
    pub num_readonly_signed_accounts: u32,
    pub num_readonly_unsigned_accounts: u32,
}

#[derive(Debug)]
pub struct CompiledInstruction {
    pub program_id_index: u32,
    pub accounts: Vec<u32>,
    pub data: Vec<u8>,
}

#[derive(Debug)]
pub struct MessageAddressTableLookup {
    pub account_key: Vec<u8>,
    pub writable_indexes: Vec<u32>,
    pub readonly_indexes: Vec<u32>,
}

#[derive(Clone, Copy, Debug, PartialEq, Eq)]
pub struct TransactionConfig {
    pub priority_fee: Option<u64>,
    pub compute_unit_limit: Option<u32>,
    pub loaded_accounts_data_size_limit: Option<u32>,
    pub heap_size: Option<u32>,
}

/// A transaction message as a fixture describes it; `version` is the raw
/// version code (a code that names no version reads as version 0).
#[derive(Debug)]
pub struct TransactionMessage {
    pub header: Option<MessageHeader>,
    pub account_keys: Vec<Vec<u8>>,
    pub recent_blockhash: Vec<u8>,
    pub instructions: Vec<CompiledInstruction>,
    pub address_table_lookups: Vec<MessageAddressTableLookup>,
    pub version: i32,
    pub v1_config: Option<TransactionConfig>,
}

/// Model of a fixture instruction.
pub struct SpecProtoInstruction {
    pub program_id_index: u32,
    pub accounts: Seq<u32>,
    pub data: Seq<u8>,
}

/// Model of a fixture address-table lookup.
pub struct SpecProtoLookup {
    pub account_key: Seq<u8>,
    pub writable_indexes: Seq<u32>,
    pub readonly_indexes: Seq<u32>,
}

/// Model of a fixture transaction message.
pub struct SpecProtoMessage {
    pub header: Option<MessageHeader>,
    pub account_keys: Seq<Seq<u8>>,
    pub recent_blockhash: Seq<u8>,
    pub instructions: Seq<SpecProtoInstruction>,
    pub address_table_lookups: Seq<SpecProtoLookup>,
    pub version: i32,
    pub v1_config: Option<TransactionConfig>,
}

impl View for CompiledInstruction {
    type V = SpecProtoInstruction;

    open spec fn view(&self) -> SpecProtoInstruction {
        SpecProtoInstruction {
            program_id_index: self.program_id_index,
            accounts: self.accounts@,
            data: self.data@,
        }
    }
}

impl View for MessageAddressTableLookup {
    type V = SpecProtoLookup;

    open spec fn view(&self) -> SpecProtoLookup {
        SpecProtoLookup {
            account_key: self.account_key@,
            writable_indexes: self.writable_indexes@,
            readonly_indexes: self.readonly_indexes@,
        }
    }
}

impl View for TransactionMessage {
    type V = SpecProtoMessage;

    open spec fn view(&self) -> SpecProtoMessage {
        SpecProtoMessage {
            header: self.header,
            account_keys: self.account_keys@.map_values(|k: Vec<u8>| k@),
            recent_blockhash: self.recent_blockhash@,
            instructions: self.instructions@.map_values(|i: CompiledInstruction| i@),
            address_table_lookups: self.address_table_lookups@.map_values(
                |l: MessageAddressTableLookup| l@,
            ),
            version: self.version,
            v1_config: self.v1_config,
        }
    }
}

} // verus!
