//! Overridden accounts, as used for transaction simulation: a map from account
//! keys to accounts that takes precedence over the accounts store.
use vstd::prelude::*;
use solana_account::AccountSharedData;

verus! {

#[verifier::external_type_specification]
#[verifier::external_body]
pub struct ExAccountSharedData(AccountSharedData);

/// A 32-byte account key.
#[derive(Clone, Copy, Debug, PartialEq, Eq)]
pub struct Pubkey {
    bytes: [u8; 32],
}

impl View for Pubkey {
    type V = Seq<u8>;

    closed spec fn view(&self) -> Seq<u8> {
        self.bytes@
    }
}

impl Pubkey {
    /// The key with these bytes.
    pub fn new_from_array(bytes: [u8; 32]) -> (k: Pubkey)
        ensures
            k@ == bytes@,
    {
        Pubkey { bytes }
    }

    /// The bytes of the key.
    pub fn to_bytes(&self) -> (b: [u8; 32])
        ensures
            b@ == self@,
    {
        self.bytes
    }

    /// Whether two keys are the same.
    pub fn same_as(&self, other: &Pubkey) -> (r: bool)
        ensures
            r == (self@ == other@),
    {
        let mut i: usize = 0;
        while i < 32
            invariant
                i <= 32,
                self@.len() == 32,
                other@.len() == 32,
                forall|j: int| 0 <= j < i ==> self@[j] == other@[j],
            decreases 32 - i,
        {
            if self.bytes[i] != other.bytes[i] {
                return false;
            }
            i = i + 1;
        }
        assert(self@ =~= other@);
        true
    }
}

/// The key of the slot-history sysvar account.
pub open spec fn slot_history_key() -> Seq<u8> {
    seq![
        6u8, 167, 213, 23, 25, 47, 10, 175, 200, 117, 226, 225, 132, 87, 124, 80, 105, 207, 200, 70,
        73, 227, 235, 146, 120, 47, 149, 141, 72, 0, 0, 0,
    ]
}

/// `solana_sdk_ids::sysvar::slot_history::id()`: the key of the slot-history
/// sysvar, `SysvarS1otHistory11111111111111111111111111`, whose bytes the
/// contract spells out.
#[verifier::external_body]
fn slot_history_id() -> (b: [u8; 32])
    ensures
        b@ == slot_history_key(),
{
    solana_sdk_ids::sysvar::slot_history::id().to_bytes()
}

/// The entries of an override table, one per key, with the map they stand for.
struct OverrideTable {
    accounts: Vec<(Pubkey, AccountSharedData)>,
    map: Ghost<Map<Seq<u8>, AccountSharedData>>,
}

impl OverrideTable {
    /// The map that the entries stand for.
    spec fn as_map(&self) -> Map<Seq<u8>, AccountSharedData> {
        self.map@
    }

    /// Every key occurs once, and the entries are exactly the map.
    spec fn wf(&self) -> bool {
        &&& forall|i: int, j: int|
            0 <= i < j < self.accounts@.len() ==> #[trigger] self.accounts@[i].0@
                != #[trigger] self.accounts@[j].0@
        &&& forall|i: int|
            0 <= i < self.accounts@.len() ==> self.map@.contains_key(
                #[trigger] self.accounts@[i].0@,
            ) && self.map@[self.accounts@[i].0@] == self.accounts@[i].1
        &&& forall|k: Seq<u8>|
            #[trigger] self.map@.contains_key(k) ==> exists|i: int|
                0 <= i < self.accounts@.len() && #[trigger] self.accounts@[i].0@ == k
    }

    /// No entries.
    fn new() -> (r: OverrideTable)
        ensures
            r.wf(),
            r.as_map() == Map::<Seq<u8>, AccountSharedData>::empty(),
    {
        OverrideTable { accounts: Vec::new(), map: Ghost(Map::empty()) }
    }

    fn find(&self, pubkey: &Pubkey) -> (r: Option<usize>)
        ensures
            match r {
                Some(i) => i < self.accounts@.len() && self.accounts@[i as int].0@ == pubkey@,
                None => forall|i: int|
                    0 <= i < self.accounts@.len() ==> #[trigger] self.accounts@[i].0@ != pubkey@,
            },
    {
        let mut i: usize = 0;
        while i < self.accounts.len()
            invariant
                i <= self.accounts@.len(),
                forall|j: int| 0 <= j < i ==> #[trigger] self.accounts@[j].0@ != pubkey@,
            decreases self.accounts@.len() - i,
        {
            if self.accounts[i].0.same_as(pubkey) {
                return Some(i);
            }
            i = i + 1;
        }
        None
    }

    /// Inserts or removes the entry of a key.
    fn set_account(&mut self, pubkey: &Pubkey, account: Option<AccountSharedData>)
        requires
            old(self).wf(),
        ensures
            final(self).wf(),
            final(self).as_map() == match account {
                Some(a) => old(self).as_map().insert(pubkey@, a),
                None => old(self).as_map().remove(pubkey@),
            },
    {
        let key = *pubkey;
        match account {
            Some(a) => {
                let ghost av = a;
                match self.find(pubkey) {
                    Some(i) => {
                        self.accounts.set(i, (key, a));
                        self.map = Ghost(self.map@.insert(key@, av));
                        proof {
                            assert forall|k: Seq<u8>| #[trigger]
                                self.map@.contains_key(k) implies exists|j: int|
                                0 <= j < self.accounts@.len() && #[trigger] self.accounts@[j].0@
                                    == k by {
                                if k != key@ {
                                    let j = choose|j: int|
                                        0 <= j < old(self).accounts@.len()
                                            && #[trigger] old(self).accounts@[j].0@ == k;
                                    assert(self.accounts@[j].0@ == k);
                                } else {
                                    assert(self.accounts@[i as int].0@ == k);
                                }
                            }
                        }
                    },
                    None => {
                        self.accounts.push((key, a));
                        self.map = Ghost(self.map@.insert(key@, av));
                        proof {
                            let n = old(self).accounts@.len() as int;
                            assert forall|k: Seq<u8>| #[trigger]
                                self.map@.contains_key(k) implies exists|j: int|
                                0 <= j < self.accounts@.len() && #[trigger] self.accounts@[j].0@
                                    == k by {
                                if k != key@ {
                                    let j = choose|j: int|
                                        0 <= j < old(self).accounts@.len()
                                            && #[trigger] old(self).accounts@[j].0@ == k;
                                    assert(self.accounts@[j].0@ == k);
                                } else {
                                    assert(self.accounts@[n].0@ == k);
                                }
                            }
                        }
                    },
                }
            },
            None => {
                match self.find(pubkey) {
                    Some(i) => {
                        let ghost old_accounts = self.accounts@;
                        let ghost last = old_accounts.len() - 1;
                        let _removed = self.accounts.swap_remove(i);
                        self.map = Ghost(self.map@.remove(key@));
                        proof {
                            assert forall|a: int, b: int|
                                0 <= a < b < self.accounts@.len() implies #[trigger] self.accounts@[a].0@
                                != #[trigger] self.accounts@[b].0@ by {
                                let oa = if a == i { last } else { a };
                                let ob = if b == i { last } else { b };
                                assert(self.accounts@[a] == old_accounts[oa]);
                                assert(self.accounts@[b] == old_accounts[ob]);
                                if oa < ob {
                                    assert(old_accounts[oa].0@ != old_accounts[ob].0@);
                                } else {
                                    assert(old_accounts[ob].0@ != old_accounts[oa].0@);
                                }
                            }
                            assert forall|a: int| 0 <= a < self.accounts@.len() implies self.map@.contains_key(
                                #[trigger] self.accounts@[a].0@,
                            ) && self.map@[self.accounts@[a].0@] == self.accounts@[a].1 by {
                                let oa = if a == i { last } else { a };
                                assert(self.accounts@[a] == old_accounts[oa]);
                                assert(oa != i);
                                if oa < i {
                                    assert(old_accounts[oa].0@ != old_accounts[i as int].0@);
                                } else {
                                    assert(old_accounts[i as int].0@ != old_accounts[oa].0@);
                                }
                            }
                            assert forall|k: Seq<u8>| #[trigger]
                                self.map@.contains_key(k) implies exists|j: int|
                                0 <= j < self.accounts@.len() && #[trigger] self.accounts@[j].0@
                                    == k by {
                                let j = choose|j: int|
                                    0 <= j < old_accounts.len() && #[trigger] old_accounts[j].0@
                                        == k;
                                assert(j != i);
                                if j == last {
                                    assert(self.accounts@[i as int].0@ == k);
                                } else {
                                    assert(self.accounts@[j].0@ == k);
                                }
                            }
                        }
                    },
                    None => {
                        proof {
                            assert(!self.map@.contains_key(key@));
                            assert(self.map@.remove(key@) =~= self.map@);
                        }
                    },
                }
            },
        }
    }

    /// The account of a key, if it has an entry.
    fn get(&self, pubkey: &Pubkey) -> (r: Option<&AccountSharedData>)
        requires
            self.wf(),
        ensures
            match r {
                Some(a) => self.as_map().contains_key(pubkey@) && *a == self.as_map()[pubkey@],
                None => !self.as_map().contains_key(pubkey@),
            },
    {
        match self.find(pubkey) {
            Some(i) => Some(&self.accounts[i].1),
            None => None,
        }
    }
}

/// Encapsulates overridden accounts, typically used for transaction
/// simulations.
pub struct AccountOverrides {
    table: OverrideTable,
}

impl View for AccountOverrides {
    type V = Map<Seq<u8>, AccountSharedData>;

    closed spec fn view(&self) -> Map<Seq<u8>, AccountSharedData> {
        self.table.map@
    }
}

impl AccountOverrides {
    #[verifier::type_invariant]
    spec fn inv(self) -> bool {
        self.table.wf()
    }

    /// No overrides.
    pub fn new() -> (r: AccountOverrides)
        ensures
            r@ == Map::<Seq<u8>, AccountSharedData>::empty(),
    {
        AccountOverrides { table: OverrideTable::new() }
    }

    /// Insert or remove an account with a given pubkey to/from the list of overrides.
    pub fn set_account(&mut self, pubkey: &Pubkey, account: Option<AccountSharedData>)
        ensures
            final(self)@ == match account {
                Some(a) => old(self)@.insert(pubkey@, a),
                None => old(self)@.remove(pubkey@),
            },
    {
        proof {
            use_type_invariant(&*self);
        }
        let mut table = OverrideTable::new();
        std::mem::swap(&mut table, &mut self.table);
        table.set_account(pubkey, account);
        self.table = table;
    }

    /// Sets in the slot history
    ///
    /// Note: no checks are performed on the correctness of the contained data
    pub fn set_slot_history(&mut self, slot_history: Option<AccountSharedData>)
        ensures
            final(self)@ == match slot_history {
                Some(a) => old(self)@.insert(slot_history_key(), a),
                None => old(self)@.remove(slot_history_key()),
            },
    {
        let key = Pubkey::new_from_array(slot_history_id());
        self.set_account(&key, slot_history);
    }

    /// Gets the account if it's found in the list of overrides
    pub fn get(&self, pubkey: &Pubkey) -> (r: Option<&AccountSharedData>)
        ensures
            match r {
                Some(a) => self@.contains_key(pubkey@) && *a == self@[pubkey@],
                None => !self@.contains_key(pubkey@),
            },
    {
        proof {
            use_type_invariant(self);
        }
        self.table.get(pubkey)
    }
}

impl Default for AccountOverrides {
    fn default() -> (r: AccountOverrides)
        ensures
            r@ == Map::<Seq<u8>, AccountSharedData>::empty(),
    {
        AccountOverrides::new()
    }
}

} // verus!
