use fd_agave::versioned_message::message::VersionedMessage;
use fd_agave::versioned_message::proto::{
    CompiledInstruction as ProtoCompiledInstruction, MessageAddressTableLookup as ProtoLookup,
    MessageHeader as ProtoMessageHeader, TransactionConfig as ProtoTransactionConfig,
    TransactionMessage as ProtoTransactionMessage,
};
use fd_agave::versioned_message::versioned_message_from_proto;

const V0: i32 = 0;
const LEGACY: i32 = 1;
const V1: i32 = 2;

fn proto_message(version: i32, v1_config: Option<ProtoTransactionConfig>) -> ProtoTransactionMessage {
    ProtoTransactionMessage {
        version,
        header: Some(ProtoMessageHeader {
            num_required_signatures: 1,
            num_readonly_signed_accounts: 0,
            num_readonly_unsigned_accounts: 1,
        }),
        account_keys: vec![vec![0x11; 32], vec![0x22; 32]],
        recent_blockhash: vec![0xB0; 32],
        instructions: vec![ProtoCompiledInstruction {
            program_id_index: 1,
            accounts: vec![0],
            data: vec![9],
        }],
        address_table_lookups: vec![],
        v1_config,
    }
}

fn empty_config() -> ProtoTransactionConfig {
    ProtoTransactionConfig {
        priority_fee: None,
        compute_unit_limit: None,
        loaded_accounts_data_size_limit: None,
        heap_size: None,
    }
}

fn default_message() -> ProtoTransactionMessage {
    ProtoTransactionMessage {
        header: None,
        account_keys: vec![],
        recent_blockhash: vec![],
        instructions: vec![],
        address_table_lookups: vec![],
        version: 0,
        v1_config: None,
    }
}

#[test]
fn v1_version_selects_v1() {
    let config = ProtoTransactionConfig {
        priority_fee: Some(0),
        compute_unit_limit: None,
        loaded_accounts_data_size_limit: Some(65_536),
        heap_size: Some(64 * 1024),
    };
    let VersionedMessage::V1(message) =
        versioned_message_from_proto(&proto_message(V1, Some(config)))
    else {
        panic!("expected V1");
    };
    assert_eq!(message.config.priority_fee, Some(0));
    assert_eq!(message.config.compute_unit_limit, None);
    assert_eq!(message.config.loaded_accounts_data_size_limit, Some(65_536));
    assert_eq!(message.config.heap_size, Some(64 * 1024));
    assert_eq!(message.lifetime_specifier, [0xB0; 32]);
    assert_eq!(message.account_keys.len(), 2);
    assert_eq!(message.instructions[0].data, vec![9]);
    assert_eq!(message.header.num_readonly_unsigned_accounts, 1);
}

#[test]
fn v1_without_config_has_empty_config() {
    let VersionedMessage::V1(message) = versioned_message_from_proto(&proto_message(V1, None))
    else {
        panic!("expected V1");
    };
    assert_eq!(message.config, empty_config());
}

#[test]
fn default_version_is_v0_and_ignores_stray_config() {
    let stray = Some(ProtoTransactionConfig { heap_size: Some(64 * 1024), ..empty_config() });
    assert!(matches!(
        versioned_message_from_proto(&proto_message(V0, stray)),
        VersionedMessage::V0(_)
    ));
    assert!(matches!(
        versioned_message_from_proto(&default_message()),
        VersionedMessage::V0(_)
    ));
}

#[test]
fn legacy_version_selects_legacy() {
    assert!(matches!(
        versioned_message_from_proto(&proto_message(LEGACY, None)),
        VersionedMessage::Legacy(_)
    ));
}

// Further cases.

#[test]
fn header_truncates_then_clamps_signatures() {
    let mut m = proto_message(LEGACY, None);
    m.header = Some(ProtoMessageHeader {
        num_required_signatures: 512,
        num_readonly_signed_accounts: 257,
        num_readonly_unsigned_accounts: 3,
    });
    let VersionedMessage::Legacy(message) = versioned_message_from_proto(&m) else {
        panic!("expected Legacy");
    };
    assert_eq!(message.header.num_required_signatures, 1);
    assert_eq!(message.header.num_readonly_signed_accounts, 1);
    assert_eq!(message.header.num_readonly_unsigned_accounts, 3);
}

#[test]
fn missing_header_defaults_to_one_signer() {
    let VersionedMessage::V0(message) = versioned_message_from_proto(&default_message()) else {
        panic!("expected V0");
    };
    assert_eq!(message.header.num_required_signatures, 1);
    assert_eq!(message.header.num_readonly_signed_accounts, 0);
    assert_eq!(message.header.num_readonly_unsigned_accounts, 0);
    assert_eq!(message.recent_blockhash, [0u8; 32]);
}

#[test]
fn short_keys_are_dropped_and_indexes_truncate() {
    let mut m = proto_message(V0, None);
    m.account_keys = vec![vec![1; 32], vec![2; 31], vec![3; 33], vec![4; 32]];
    m.instructions = vec![ProtoCompiledInstruction {
        program_id_index: 258,
        accounts: vec![256, 7],
        data: vec![1, 2],
    }];
    m.address_table_lookups = vec![
        ProtoLookup { account_key: vec![5; 32], writable_indexes: vec![300], readonly_indexes: vec![1] },
        ProtoLookup { account_key: vec![6; 3], writable_indexes: vec![], readonly_indexes: vec![] },
    ];
    m.recent_blockhash = vec![7; 31];
    let VersionedMessage::V0(message) = versioned_message_from_proto(&m) else {
        panic!("expected V0");
    };
    assert_eq!(message.account_keys, vec![vec![1u8; 32], vec![4u8; 32]]);
    assert_eq!(message.instructions[0].program_id_index, 2);
    assert_eq!(message.instructions[0].accounts, vec![0, 7]);
    assert_eq!(message.address_table_lookups.len(), 1);
    assert_eq!(message.address_table_lookups[0].account_key, [5u8; 32]);
    assert_eq!(message.address_table_lookups[0].writable_indexes, vec![44]);
    assert_eq!(message.recent_blockhash, [0u8; 32]);
}

#[test]
fn unknown_version_code_reads_as_v0() {
    assert!(matches!(
        versioned_message_from_proto(&proto_message(7, None)),
        VersionedMessage::V0(_)
    ));
}
