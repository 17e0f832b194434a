use fd_agave::account_overrides::{AccountOverrides, Pubkey};
use solana_account::AccountSharedData;
use solana_sdk_ids::sysvar;

fn key(k: &solana_pubkey::Pubkey) -> Pubkey {
    Pubkey::new_from_array(k.to_bytes())
}

#[test]
fn test_set_account() {
    let mut accounts = AccountOverrides::default();
    let data = AccountSharedData::default();
    let key = key(&solana_pubkey::Pubkey::new_unique());
    accounts.set_account(&key, Some(data.clone()));
    assert_eq!(accounts.get(&key), Some(&data));

    accounts.set_account(&key, None);
    assert!(accounts.get(&key).is_none());
}

#[test]
fn test_slot_history() {
    let mut accounts = AccountOverrides::default();
    let data = AccountSharedData::default();

    assert_eq!(accounts.get(&Pubkey::new_from_array(sysvar::slot_history::id().to_bytes())), None);
    accounts.set_slot_history(Some(data.clone()));

    assert_eq!(
        accounts.get(&Pubkey::new_from_array(sysvar::slot_history::id().to_bytes())),
        Some(&data)
    );
}

#[test]
fn overriding_replaces_and_keeps_other_keys() {
    let mut accounts = AccountOverrides::new();
    let a = Pubkey::new_from_array([1; 32]);
    let b = Pubkey::new_from_array([2; 32]);
    let c = Pubkey::new_from_array([3; 32]);
    let one = AccountSharedData::new(1, 0, &solana_pubkey::Pubkey::default());
    let two = AccountSharedData::new(2, 0, &solana_pubkey::Pubkey::default());
    accounts.set_account(&a, Some(one.clone()));
    accounts.set_account(&b, Some(two.clone()));
    accounts.set_account(&c, Some(one.clone()));
    accounts.set_account(&a, Some(two.clone()));
    assert_eq!(accounts.get(&a), Some(&two));
    assert_eq!(accounts.get(&b), Some(&two));
    accounts.set_account(&a, None);
    assert_eq!(accounts.get(&a), None);
    assert_eq!(accounts.get(&b), Some(&two));
    assert_eq!(accounts.get(&c), Some(&one));
    accounts.set_account(&a, None);
    assert_eq!(accounts.get(&c), Some(&one));
}

#[test]
fn slot_history_key_matches_sysvar() {
    let mut accounts = AccountOverrides::new();
    let data = AccountSharedData::new(5, 0, &solana_pubkey::Pubkey::default());
    accounts.set_slot_history(Some(data.clone()));
    let k = Pubkey::new_from_array(sysvar::slot_history::id().to_bytes());
    assert_eq!(accounts.get(&k), Some(&data));
    accounts.set_slot_history(None);
    assert_eq!(accounts.get(&k), None);
}
