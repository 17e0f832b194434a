//! A vote as gossip carries it: the voter's key, a signed legacy transaction
//! holding the vote, and a wallclock. Every length in a transaction is a
//! compact length, which has a single encoding, so the bytes a transaction is
//! read from are its encoding.
use vstd::prelude::*;
use crate::wire::{get_bytes, get_u64_le, lemma_extend_reads, u64_le_at};
use crate::gossip::varint::{lemma_extend_short_u16, read_short_u16, spec_short_u16};
use crate::gossip::protocol::bytes_seq_view;
use crate::gossip::MAX_WALLCLOCK;
use crate::versioned_message::message::{
    CompiledInstruction, MessageHeader, SpecInstruction, instructions_view,
};

verus! {

/// Vote slots that a node may fill.
pub const MAX_VOTES: u8 = 32;

/// Model of a legacy transaction.
pub struct SpecTransaction {
    pub signatures: Seq<Seq<u8>>,
    pub header: MessageHeader,
    pub account_keys: Seq<Seq<u8>>,
    pub recent_blockhash: Seq<u8>,
    pub instructions: Seq<SpecInstruction>,
}

/// Model of a vote: voter, transaction, the bytes the transaction was read
/// from, and wallclock.
pub struct SpecVote {
    pub from: Seq<u8>,
    pub transaction: SpecTransaction,
    pub transaction_bytes: Seq<u8>,
    pub wallclock: u64,
}

#[derive(Debug)]
pub struct Transaction {
    pub signatures: Vec<Vec<u8>>,
    pub header: MessageHeader,
    pub account_keys: Vec<Vec<u8>>,
    pub recent_blockhash: Vec<u8>,
    pub instructions: Vec<CompiledInstruction>,
}

#[derive(Debug)]
pub struct Vote {
    pub from: Vec<u8>,
    pub transaction: Transaction,
    pub transaction_bytes: Vec<u8>,
    pub wallclock: u64,
}

impl View for Transaction {
    type V = SpecTransaction;

    open spec fn view(&self) -> SpecTransaction {
        SpecTransaction {
            signatures: bytes_seq_view(self.signatures@),
            header: self.header,
            account_keys: bytes_seq_view(self.account_keys@),
            recent_blockhash: self.recent_blockhash@,
            instructions: instructions_view(self.instructions@),
        }
    }
}

impl View for Vote {
    type V = SpecVote;

    open spec fn view(&self) -> SpecVote {
        SpecVote {
            from: self.from@,
            transaction: self.transaction@,
            transaction_bytes: self.transaction_bytes@,
            wallclock: self.wallclock,
        }
    }
}

/// `n` consecutive pieces of `size` bytes starting at `start`.
pub open spec fn spec_chunks(s: Seq<u8>, start: int, n: nat, size: nat) -> Seq<Seq<u8>> {
    Seq::new(n, |i: int| s.subrange(start + size * i, start + size * i + size))
}

/// A compact count at `pos`, then that many pieces of `size` bytes.
pub open spec fn spec_parse_short_chunks(s: Seq<u8>, pos: int, size: nat) -> Option<
    (Seq<Seq<u8>>, int),
> {
    match spec_short_u16(s, pos) {
        Some((n, p)) => if p + size * n <= s.len() {
            Some((spec_chunks(s, p, n as nat, size), p + size * n))
        } else {
            None
        },
        None => None,
    }
}

/// A compact count at `pos`, then that many bytes.
pub open spec fn spec_parse_short_bytes(s: Seq<u8>, pos: int) -> Option<(Seq<u8>, int)> {
    match spec_short_u16(s, pos) {
        Some((n, p)) => if p + n <= s.len() {
            Some((s.subrange(p, p + n), p + n))
        } else {
            None
        },
        None => None,
    }
}

/// An instruction: program index byte, counted account indexes, counted data.
pub open spec fn spec_parse_instruction(s: Seq<u8>, pos: int) -> Option<(SpecInstruction, int)> {
    if 0 <= pos < s.len() {
        match spec_parse_short_bytes(s, pos + 1) {
            Some((accounts, p1)) => match spec_parse_short_bytes(s, p1) {
                Some((data, p2)) => Some(
                    (SpecInstruction { program_id_index: s[pos], accounts, data }, p2),
                ),
                None => None,
            },
            None => None,
        }
    } else {
        None
    }
}

/// `n` consecutive instructions starting at `pos`.
pub open spec fn spec_parse_instructions(s: Seq<u8>, pos: int, n: nat) -> Option<
    (Seq<SpecInstruction>, int),
>
    decreases n,
{
    if n == 0 {
        Some((seq![], pos))
    } else {
        match spec_parse_instructions(s, pos, (n - 1) as nat) {
            Some((v, p)) => match spec_parse_instruction(s, p) {
                Some((ix, q)) => Some((v.push(ix), q)),
                None => None,
            },
            None => None,
        }
    }
}

/// A legacy transaction: counted 64-byte signatures, then the message: three
/// header bytes, counted 32-byte keys, a 32-byte blockhash, counted
/// instructions.
pub open spec fn spec_parse_transaction(s: Seq<u8>, pos: int) -> Option<(SpecTransaction, int)> {
    match spec_parse_short_chunks(s, pos, 64) {
        Some((signatures, p1)) => if p1 + 3 <= s.len() {
            match spec_parse_short_chunks(s, p1 + 3, 32) {
                Some((account_keys, p2)) => if p2 + 32 <= s.len() {
                    match spec_short_u16(s, p2 + 32) {
                        Some((n, p3)) => match spec_parse_instructions(s, p3, n as nat) {
                            Some((instructions, p4)) => Some(
                                (
                                    SpecTransaction {
                                        signatures,
                                        header: MessageHeader {
                                            num_required_signatures: s[p1],
                                            num_readonly_signed_accounts: s[p1 + 1],
                                            num_readonly_unsigned_accounts: s[p1 + 2],
                                        },
                                        account_keys,
                                        recent_blockhash: s.subrange(p2, p2 + 32),
                                        instructions,
                                    },
                                    p4,
                                ),
                            ),
                            None => None,
                        },
                        None => None,
                    }
                } else {
                    None
                },
                None => None,
            }
        } else {
            None
        },
        None => None,
    }
}

/// A vote entry: index byte, voter key, transaction, wallclock.
pub open spec fn spec_parse_vote(s: Seq<u8>, pos: int) -> Option<(u8, SpecVote, int)> {
    if 0 <= pos && pos + 33 <= s.len() {
        match spec_parse_transaction(s, pos + 33) {
            Some((t, p)) => if p + 8 <= s.len() {
                Some(
                    (
                        s[pos],
                        SpecVote {
                            from: s.subrange(pos + 1, pos + 33),
                            transaction: t,
                            transaction_bytes: s.subrange(pos + 33, p),
                            wallclock: u64_le_at(s, p),
                        },
                        p + 8,
                    ),
                )
            } else {
                None
            },
            None => None,
        }
    } else {
        None
    }
}

/// Whether an instruction names a program other than the fee payer and only
/// accounts that the transaction lists.
pub open spec fn spec_instruction_in_bounds(ix: SpecInstruction, n_keys: nat) -> bool {
    &&& ix.program_id_index < n_keys
    &&& ix.program_id_index != 0
    &&& forall|j: int| 0 <= j < ix.accounts.len() ==> #[trigger] ix.accounts[j] < n_keys
}

/// Whether a transaction is consistent: enough signatures for its signers, no
/// more signatures than keys, signers and read-only unsigned keys within the
/// keys, a writable fee payer, and every instruction in bounds.
pub open spec fn spec_sanitize_transaction(t: SpecTransaction) -> bool {
    &&& t.header.num_required_signatures <= t.signatures.len()
    &&& t.signatures.len() <= t.account_keys.len()
    &&& t.header.num_required_signatures + t.header.num_readonly_unsigned_accounts
        <= t.account_keys.len()
    &&& t.header.num_readonly_signed_accounts < t.header.num_required_signatures
    &&& forall|i: int|
        0 <= i < t.instructions.len() ==> spec_instruction_in_bounds(
            #[trigger] t.instructions[i],
            t.account_keys.len(),
        )
}

/// Whether a vote entry is within bounds.
pub open spec fn spec_sanitize_vote(ix: u8, v: SpecVote) -> bool {
    &&& ix < MAX_VOTES
    &&& v.wallclock < MAX_WALLCLOCK
    &&& spec_sanitize_transaction(v.transaction)
}

/// Reads `n` pieces of `size` bytes; the caller has checked that they fit.
fn get_chunks(s: &[u8], start: usize, n: usize, size: usize) -> (out: Vec<Vec<u8>>)
    requires
        start + size * n <= s@.len(),
    ensures
        bytes_seq_view(out@) == spec_chunks(s@, start as int, n as nat, size as nat),
{
    let mut out: Vec<Vec<u8>> = Vec::new();
    let mut i: usize = 0;
    let mut p: usize = start;
    while i < n
        invariant
            i <= n,
            start + size * n <= s.len(),
            p == start + size * i,
            bytes_seq_view(out@) == spec_chunks(s@, start as int, i as nat, size as nat),
        decreases n - i,
    {
        assert(p + size <= start + size * n) by (nonlinear_arith)
            requires
                p == start + size * i,
                i < n,
        ;
        let c = get_bytes(s, p, size);
        let ghost prev = out@;
        let ghost cv = c@;
        out.push(c);
        proof {
            assert(bytes_seq_view(out@) =~= bytes_seq_view(prev).push(cv));
            assert(spec_chunks(s@, start as int, (i + 1) as nat, size as nat) =~= spec_chunks(
                s@,
                start as int,
                i as nat,
                size as nat,
            ).push(cv));
            assert(p + size == start + size * (i + 1)) by (nonlinear_arith)
                requires
                    p == start + size * i,
            ;
        }
        i = i + 1;
        p = p + size;
    }
    out
}

fn parse_short_chunks(s: &[u8], pos: usize, size: usize) -> (r: Option<(Vec<Vec<u8>>, usize)>)
    requires
        size <= 64,
    ensures
        match (r, spec_parse_short_chunks(s@, pos as int, size as nat)) {
            (Some((v, p)), Some((sv, sp))) => bytes_seq_view(v@) == sv && p == sp,
            (None, None) => true,
            _ => false,
        },
{
    let (n, p) = match read_short_u16(s, pos) {
        Some(x) => x,
        None => return None,
    };
    let n = n as usize;
    assert(size * n <= 64 * 65535) by (nonlinear_arith)
        requires
            size <= 64,
            n <= 65535,
    ;
    if p > s.len() || size * n > s.len() - p {
        return None;
    }
    let v = get_chunks(s, p, n, size);
    Some((v, p + size * n))
}

fn parse_short_bytes(s: &[u8], pos: usize) -> (r: Option<(Vec<u8>, usize)>)
    ensures
        crate::wire::lift(r) == spec_parse_short_bytes(s@, pos as int),
{
    let (n, p) = match read_short_u16(s, pos) {
        Some(x) => x,
        None => return None,
    };
    let n = n as usize;
    if p > s.len() || n > s.len() - p {
        return None;
    }
    Some((get_bytes(s, p, n), p + n))
}

fn parse_instruction(s: &[u8], pos: usize) -> (r: Option<(CompiledInstruction, usize)>)
    ensures
        crate::wire::lift(r) == spec_parse_instruction(s@, pos as int),
{
    if pos >= s.len() {
        return None;
    }
    let (accounts, p1) = match parse_short_bytes(s, pos + 1) {
        Some(x) => x,
        None => return None,
    };
    let (data, p2) = match parse_short_bytes(s, p1) {
        Some(x) => x,
        None => return None,
    };
    Some((CompiledInstruction { program_id_index: s[pos], accounts, data }, p2))
}

/// Once reading the first `i` instructions fails, reading more of them fails too.
proof fn lemma_instructions_fail_monotone(s: Seq<u8>, pos: int, i: nat, n: nat)
    requires
        i <= n,
        spec_parse_instructions(s, pos, i) is None,
    ensures
        spec_parse_instructions(s, pos, n) is None,
    decreases n,
{
    if n > i {
        lemma_instructions_fail_monotone(s, pos, i, (n - 1) as nat);
    }
}

fn parse_instructions(s: &[u8], pos: usize, n: u16) -> (r: Option<
    (Vec<CompiledInstruction>, usize),
>)
    ensures
        match (r, spec_parse_instructions(s@, pos as int, n as nat)) {
            (Some((v, p)), Some((sv, sp))) => instructions_view(v@) == sv && p == sp,
            (None, None) => true,
            _ => false,
        },
{
    let mut out: Vec<CompiledInstruction> = Vec::new();
    let mut p: usize = pos;
    let mut i: u16 = 0;
    while i < n
        invariant
            i <= n,
            spec_parse_instructions(s@, pos as int, i as nat) == Some(
                (instructions_view(out@), p as int),
            ),
        decreases n - i,
    {
        match parse_instruction(s, p) {
            Some((ix, q)) => {
                let ghost prev = out@;
                let ghost iv = ix@;
                out.push(ix);
                p = q;
                i = i + 1;
                assert(instructions_view(out@) =~= instructions_view(prev).push(iv));
            },
            None => {
                proof {
                    lemma_instructions_fail_monotone(s@, pos as int, (i + 1) as nat, n as nat);
                }
                return None;
            },
        }
    }
    Some((out, p))
}

pub fn parse_transaction(s: &[u8], pos: usize) -> (r: Option<(Transaction, usize)>)
    ensures
        crate::wire::lift(r) == spec_parse_transaction(s@, pos as int),
{
    let (signatures, p1) = match parse_short_chunks(s, pos, 64) {
        Some(x) => x,
        None => return None,
    };
    if p1 > s.len() || s.len() - p1 < 3 {
        return None;
    }
    let (account_keys, p2) = match parse_short_chunks(s, p1 + 3, 32) {
        Some(x) => x,
        None => return None,
    };
    if p2 > s.len() || s.len() - p2 < 32 {
        return None;
    }
    let (n, p3) = match read_short_u16(s, p2 + 32) {
        Some(x) => x,
        None => return None,
    };
    let (instructions, p4) = match parse_instructions(s, p3, n) {
        Some(x) => x,
        None => return None,
    };
    let header = MessageHeader {
        num_required_signatures: s[p1],
        num_readonly_signed_accounts: s[p1 + 1],
        num_readonly_unsigned_accounts: s[p1 + 2],
    };
    let recent_blockhash = get_bytes(s, p2, 32);
    Some((Transaction { signatures, header, account_keys, recent_blockhash, instructions }, p4))
}

pub fn parse_vote(s: &[u8], pos: usize) -> (r: Option<(u8, Vote, usize)>)
    ensures
        match (r, spec_parse_vote(s@, pos as int)) {
            (Some((ix, v, p)), Some((six, sv, sp))) => ix == six && v@ == sv && p == sp,
            (None, None) => true,
            _ => false,
        },
{
    if pos > s.len() || s.len() - pos < 33 {
        return None;
    }
    match parse_transaction(s, pos + 33) {
        Some((transaction, p)) => {
            proof {
                lemma_transaction_bounds(s@, pos + 33);
            }
            if p > s.len() || s.len() - p < 8 {
                return None;
            }
            let from = get_bytes(s, pos + 1, 32);
            let transaction_bytes = get_bytes(s, pos + 33, p - (pos + 33));
            let wallclock = get_u64_le(s, p);
            Some((s[pos], Vote { from, transaction, transaction_bytes, wallclock }, p + 8))
        },
        None => None,
    }
}

fn instruction_in_bounds(ix: &CompiledInstruction, n_keys: usize) -> (r: bool)
    ensures
        r == spec_instruction_in_bounds(ix@, n_keys as nat),
{
    if ix.program_id_index as usize >= n_keys || ix.program_id_index == 0 {
        return false;
    }
    let mut j: usize = 0;
    while j < ix.accounts.len()
        invariant
            j <= ix.accounts@.len(),
            forall|k: int| 0 <= k < j ==> #[trigger] ix.accounts@[k] < n_keys,
        decreases ix.accounts@.len() - j,
    {
        if ix.accounts[j] as usize >= n_keys {
            assert(ix@.accounts[j as int] == ix.accounts@[j as int]);
            return false;
        }
        j = j + 1;
    }
    true
}

pub fn sanitize_transaction(t: &Transaction) -> (r: bool)
    ensures
        r == spec_sanitize_transaction(t@),
{
    let n_sigs = t.signatures.len();
    let n_keys = t.account_keys.len();
    assert(t@.signatures.len() == n_sigs && t@.account_keys.len() == n_keys);
    if t.header.num_required_signatures as usize > n_sigs || n_sigs > n_keys {
        return false;
    }
    if t.header.num_required_signatures as usize + t.header.num_readonly_unsigned_accounts as usize
        > n_keys {
        return false;
    }
    if t.header.num_readonly_signed_accounts >= t.header.num_required_signatures {
        return false;
    }
    let mut i: usize = 0;
    while i < t.instructions.len()
        invariant
            i <= t.instructions@.len(),
            n_keys == t@.account_keys.len(),
            forall|k: int|
                0 <= k < i ==> spec_instruction_in_bounds(
                    #[trigger] t.instructions@[k]@,
                    n_keys as nat,
                ),
        decreases t.instructions@.len() - i,
    {
        if !instruction_in_bounds(&t.instructions[i], n_keys) {
            assert(t@.instructions[i as int] == t.instructions@[i as int]@);
            assert(!spec_instruction_in_bounds(t@.instructions[i as int], t@.account_keys.len()));
            return false;
        }
        i = i + 1;
    }
    assert forall|k: int| 0 <= k < t@.instructions.len() implies spec_instruction_in_bounds(
        #[trigger] t@.instructions[k],
        t@.account_keys.len(),
    ) by {
        assert(t@.instructions[k] == t.instructions@[k]@);
    }
    true
}

pub fn sanitize_vote(ix: u8, v: &Vote) -> (r: bool)
    ensures
        r == spec_sanitize_vote(ix, v@),
{
    ix < MAX_VOTES && v.wallclock < MAX_WALLCLOCK && sanitize_transaction(&v.transaction)
}

proof fn lemma_extend_short_chunks(s: Seq<u8>, t: Seq<u8>, pos: int, size: nat)
    requires
        spec_parse_short_chunks(s, pos, size) is Some,
    ensures
        spec_parse_short_chunks(s + t, pos, size) == spec_parse_short_chunks(s, pos, size),
        pos < spec_parse_short_chunks(s, pos, size).unwrap().1 <= s.len(),
{
    lemma_extend_reads(s, t);
    lemma_extend_short_u16(s, t, pos);
    let (n, p) = spec_short_u16(s, pos).unwrap();
    assert forall|i: int| 0 <= i < n implies #[trigger] spec_chunks(s + t, p, n as nat, size)[i]
        == spec_chunks(s, p, n as nat, size)[i] by {
        assert(p + size * i + size <= p + size * n) by (nonlinear_arith)
            requires
                0 <= i < n,
        ;
        assert(0 <= size * i) by (nonlinear_arith)
            requires
                0 <= i,
        ;
    }
    assert(spec_chunks(s + t, p, n as nat, size) =~= spec_chunks(s, p, n as nat, size));
}

proof fn lemma_extend_short_bytes(s: Seq<u8>, t: Seq<u8>, pos: int)
    requires
        spec_parse_short_bytes(s, pos) is Some,
    ensures
        spec_parse_short_bytes(s + t, pos) == spec_parse_short_bytes(s, pos),
        pos < spec_parse_short_bytes(s, pos).unwrap().1 <= s.len(),
{
    lemma_extend_reads(s, t);
    lemma_extend_short_u16(s, t, pos);
}

proof fn lemma_extend_instructions(s: Seq<u8>, t: Seq<u8>, pos: int, n: nat)
    requires
        0 <= pos <= s.len(),
        spec_parse_instructions(s, pos, n) is Some,
    ensures
        spec_parse_instructions(s + t, pos, n) == spec_parse_instructions(s, pos, n),
        pos <= spec_parse_instructions(s, pos, n).unwrap().1 <= s.len(),
    decreases n,
{
    lemma_extend_reads(s, t);
    if n > 0 {
        lemma_extend_instructions(s, t, pos, (n - 1) as nat);
        let p = spec_parse_instructions(s, pos, (n - 1) as nat).unwrap().1;
        lemma_extend_short_bytes(s, t, p + 1);
        let p1 = spec_parse_short_bytes(s, p + 1).unwrap().1;
        lemma_extend_short_bytes(s, t, p1);
        assert(spec_parse_instruction(s + t, p) == spec_parse_instruction(s, p));
    }
}

/// A transaction read from `s` ends after where it starts and within `s`.
pub proof fn lemma_transaction_bounds(s: Seq<u8>, pos: int)
    requires
        spec_parse_transaction(s, pos) is Some,
    ensures
        pos < spec_parse_transaction(s, pos).unwrap().1 <= s.len(),
{
    let t = Seq::<u8>::empty();
    assert(s + t =~= s);
    lemma_extend_short_chunks(s, t, pos, 64);
    let p1 = spec_parse_short_chunks(s, pos, 64).unwrap().1;
    lemma_extend_short_chunks(s, t, p1 + 3, 32);
    let p2 = spec_parse_short_chunks(s, p1 + 3, 32).unwrap().1;
    lemma_extend_short_u16(s, t, p2 + 32);
    let (n, p3) = spec_short_u16(s, p2 + 32).unwrap();
    lemma_extend_instructions(s, t, p3, n as nat);
}

/// A vote entry read from `s` reads the same from any extension of `s`, and
/// ends within `s`.
pub proof fn lemma_extend_vote(s: Seq<u8>, t: Seq<u8>, pos: int)
    requires
        spec_parse_vote(s, pos) is Some,
    ensures
        spec_parse_vote(s + t, pos) == spec_parse_vote(s, pos),
        spec_parse_vote(s, pos).unwrap().2 <= s.len(),
{
    lemma_extend_reads(s, t);
    let q = pos + 33;
    lemma_extend_short_chunks(s, t, q, 64);
    let p1 = spec_parse_short_chunks(s, q, 64).unwrap().1;
    lemma_extend_short_chunks(s, t, p1 + 3, 32);
    let p2 = spec_parse_short_chunks(s, p1 + 3, 32).unwrap().1;
    lemma_extend_short_u16(s, t, p2 + 32);
    let (n, p3) = spec_short_u16(s, p2 + 32).unwrap();
    lemma_extend_instructions(s, t, p3, n as nat);
    assert(spec_parse_transaction(s + t, q) == spec_parse_transaction(s, q));
}

} // verus!
