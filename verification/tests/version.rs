use fd_agave::version::{ClientId, Version};

fn version(client: u16) -> Version {
    Version { major: 0, minor: 709, patch: 30108, commit: 0x0a1b2c3d, feature_set: 123456, client }
}

#[test]
fn client_codes_name_clients() {
    assert_eq!(version(0).client(), ClientId::SolanaLabs);
    assert_eq!(version(1).client(), ClientId::JitoLabs);
    assert_eq!(version(2).client(), ClientId::Frankendancer);
    assert_eq!(version(3).client(), ClientId::Agave);
    assert_eq!(version(4).client(), ClientId::AgavePaladin);
    assert_eq!(version(5).client(), ClientId::Firedancer);
    assert_eq!(version(6).client(), ClientId::AgaveBam);
    assert_eq!(version(7).client(), ClientId::Sig);
    assert_eq!(version(8).client(), ClientId::Unknown(8));
    assert_eq!(version(u16::MAX).client(), ClientId::Unknown(u16::MAX));
}

#[test]
fn client_code_roundtrip() {
    for code in [0u16, 1, 2, 3, 4, 5, 6, 7, 8, 100, u16::MAX] {
        assert_eq!(ClientId::from(code).code(), Some(code));
    }
    assert_eq!(ClientId::Unknown(3).code(), None);
    assert_eq!(ClientId::Unknown(7).code(), None);
    assert_eq!(ClientId::Unknown(8).code(), Some(8));
}

#[test]
fn display_is_release_numbers() {
    assert_eq!(version(3).to_display_string(), "0.709.30108");
}

#[test]
fn debug_shows_commit_feature_set_and_client() {
    assert_eq!(
        version(2).to_debug_string(),
        "0.709.30108 (src:0a1b2c3d; feat:123456, client:Frankendancer)"
    );
    let mut v = version(42);
    v.commit = 7;
    assert_eq!(v.to_debug_string(), "0.709.30108 (src:00000007; feat:123456, client:Unknown(42))");
}

#[test]
fn reported_version_truncates_and_reads_feature_set() {
    let mut id = [0u8; 32];
    id[0] = 0x78;
    id[1] = 0x56;
    id[2] = 0x34;
    id[3] = 0x12;
    id[4] = 0xff;
    let v = Version::reported(0x1_0002, 3, 65_540, 0xdeadbeef, &id, ClientId::this_client());
    assert_eq!(v.major, 2);
    assert_eq!(v.minor, 3);
    assert_eq!(v.patch, 4);
    assert_eq!(v.commit, 0xdeadbeef);
    assert_eq!(v.feature_set, 0x12345678);
    assert_eq!(v.client, 2);
}
