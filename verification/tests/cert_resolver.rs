use fd_agave::cert_resolver::ResolvePublicKey;

#[test]
fn raw_public_key_offer_is_detected() {
    assert!(!ResolvePublicKey::client_offers_raw_public_key(None));
    assert!(!ResolvePublicKey::client_offers_raw_public_key(Some(&[])));
    assert!(!ResolvePublicKey::client_offers_raw_public_key(Some(&[0x00])));
    assert!(ResolvePublicKey::client_offers_raw_public_key(Some(&[0x00, 0x02])));
    assert!(ResolvePublicKey::client_offers_raw_public_key(Some(&[0x02])));
}
