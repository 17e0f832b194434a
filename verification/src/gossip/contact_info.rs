//! The node record of gossip: who a node is, when it started, the version it
//! runs and the sockets it serves, each socket an address index and a port
//! offset from the previous socket's port.
use vstd::prelude::*;
use crate::wire::{lemma_extend_reads, get_bytes, get_u16_le, get_u32_le, get_u64_le, read_u32_le, spec_u32_at, u16_le_at, u32_le_at, u64_le_at};
use crate::gossip::varint::{
    lemma_extend_short_u16, lemma_extend_varint_u16_from, lemma_extend_varint_u64_from,
    read_short_u16, read_varint_u16, read_varint_u64, spec_short_u16, spec_varint_u16,
    spec_varint_u64,
};
use crate::gossip::sanitize::bytes_eq;
use crate::version::Version;

verus! {

/// Model of an IP address: four or sixteen octets.
pub enum SpecIpAddr {
    V4(Seq<u8>),
    V6(Seq<u8>),
}

#[derive(Debug)]
pub enum IpAddr {
    V4(Vec<u8>),
    V6(Vec<u8>),
}

impl View for IpAddr {
    type V = SpecIpAddr;

    open spec fn view(&self) -> SpecIpAddr {
        match self {
            IpAddr::V4(o) => SpecIpAddr::V4(o@),
            IpAddr::V6(o) => SpecIpAddr::V6(o@),
        }
    }
}

/// A socket of a node: its key, the index of its address, and its port as an
/// offset from the port of the socket before it.
#[derive(Clone, Copy, Debug, PartialEq, Eq, Structural)]
pub struct SocketEntry {
    pub key: u8,
    pub index: u8,
    pub offset: u16,
}

/// Model of a node record.
pub struct SpecContactInfo {
    pub pubkey: Seq<u8>,
    pub wallclock: u64,
    pub outset: u64,
    pub shred_version: u16,
    pub version: Version,
    pub addrs: Seq<SpecIpAddr>,
    pub sockets: Seq<SocketEntry>,
}

#[derive(Debug)]
pub struct ContactInfo {
    pub pubkey: Vec<u8>,
    pub wallclock: u64,
    pub outset: u64,
    pub shred_version: u16,
    pub version: Version,
    pub addrs: Vec<IpAddr>,
    pub sockets: Vec<SocketEntry>,
}

/// The model of a list of addresses.
pub open spec fn ip_addrs_view(v: Seq<IpAddr>) -> Seq<SpecIpAddr> {
    v.map_values(|a: IpAddr| a@)
}

impl View for ContactInfo {
    type V = SpecContactInfo;

    open spec fn view(&self) -> SpecContactInfo {
        SpecContactInfo {
            pubkey: self.pubkey@,
            wallclock: self.wallclock,
            outset: self.outset,
            shred_version: self.shred_version,
            version: self.version,
            addrs: ip_addrs_view(self.addrs@),
            sockets: self.sockets@,
        }
    }
}

/// A version record: three variable-length release numbers, the commit and
/// feature-set words, and a variable-length client code.
pub open spec fn spec_parse_node_version(s: Seq<u8>, pos: int) -> Option<(Version, int)> {
    match spec_varint_u16(s, pos) {
        Some((major, p1)) => match spec_varint_u16(s, p1) {
            Some((minor, p2)) => match spec_varint_u16(s, p2) {
                Some((patch, p3)) => if p3 + 8 <= s.len() {
                    match spec_varint_u16(s, p3 + 8) {
                        Some((client, p4)) => Some(
                            (
                                Version {
                                    major,
                                    minor,
                                    patch,
                                    commit: u32_le_at(s, p3),
                                    feature_set: u32_le_at(s, p3 + 4),
                                    client,
                                },
                                p4,
                            ),
                        ),
                        None => None,
                    }
                } else {
                    None
                },
                None => None,
            },
            None => None,
        },
        None => None,
    }
}

/// An address: variant index 0 then four octets, or 1 then sixteen.
pub open spec fn spec_parse_ip_addr(s: Seq<u8>, pos: int) -> Option<(SpecIpAddr, int)> {
    match spec_u32_at(s, pos) {
        Some((tag, p)) => if tag == 0 && p + 4 <= s.len() {
            Some((SpecIpAddr::V4(s.subrange(p, p + 4)), p + 4))
        } else if tag == 1 && p + 16 <= s.len() {
            Some((SpecIpAddr::V6(s.subrange(p, p + 16)), p + 16))
        } else {
            None
        },
        None => None,
    }
}

/// `n` consecutive addresses starting at `pos`.
pub open spec fn spec_parse_ip_addrs(s: Seq<u8>, pos: int, n: nat) -> Option<
    (Seq<SpecIpAddr>, int),
>
    decreases n,
{
    if n == 0 {
        Some((seq![], pos))
    } else {
        match spec_parse_ip_addrs(s, pos, (n - 1) as nat) {
            Some((v, p)) => match spec_parse_ip_addr(s, p) {
                Some((a, q)) => Some((v.push(a), q)),
                None => None,
            },
            None => None,
        }
    }
}

/// A socket: key byte, index byte, variable-length port offset.
pub open spec fn spec_parse_socket(s: Seq<u8>, pos: int) -> Option<(SocketEntry, int)> {
    if 0 <= pos && pos + 2 <= s.len() {
        match spec_varint_u16(s, pos + 2) {
            Some((offset, p)) => Some((SocketEntry { key: s[pos], index: s[pos + 1], offset }, p)),
            None => None,
        }
    } else {
        None
    }
}

/// `n` consecutive sockets starting at `pos`.
pub open spec fn spec_parse_sockets(s: Seq<u8>, pos: int, n: nat) -> Option<
    (Seq<SocketEntry>, int),
>
    decreases n,
{
    if n == 0 {
        Some((seq![], pos))
    } else {
        match spec_parse_sockets(s, pos, (n - 1) as nat) {
            Some((v, p)) => match spec_parse_socket(s, p) {
                Some((e, q)) => Some((v.push(e), q)),
                None => None,
            },
            None => None,
        }
    }
}

/// The sum of the port offsets of the sockets.
pub open spec fn spec_offsets_total(sockets: Seq<SocketEntry>) -> int
    decreases sockets.len(),
{
    if sockets.len() == 0 {
        0
    } else {
        spec_offsets_total(sockets.drop_last()) + sockets.last().offset
    }
}

/// Whether some socket uses the address at index `a`.
pub open spec fn spec_referenced(sockets: Seq<SocketEntry>, a: int) -> bool {
    exists|i: int| 0 <= i < sockets.len() && #[trigger] sockets[i].index == a
}

/// The tables of a node are consistent: addresses are distinct, socket keys
/// are distinct, every socket names an address, every address is used, and
/// the last port does not pass `u16::MAX`.
pub open spec fn spec_entries_valid(addrs: Seq<SpecIpAddr>, sockets: Seq<SocketEntry>) -> bool {
    &&& forall|i: int, j: int| 0 <= i < j < addrs.len() ==> addrs[i] != addrs[j]
    &&& forall|i: int, j: int| 0 <= i < j < sockets.len() ==> sockets[i].key != sockets[j].key
    &&& forall|i: int| 0 <= i < sockets.len() ==> (#[trigger] sockets[i]).index < addrs.len()
    &&& forall|a: int| 0 <= a < addrs.len() ==> #[trigger] spec_referenced(sockets, a)
    &&& spec_offsets_total(sockets) <= u16::MAX
}

/// The tables of a node record: counted addresses, counted sockets, and an
/// extension list that must be empty; the tables must be consistent.
pub open spec fn spec_parse_tables(s: Seq<u8>, pos: int) -> Option<
    (Seq<SpecIpAddr>, Seq<SocketEntry>, int),
> {
    match spec_short_u16(s, pos) {
        Some((na, p1)) => match spec_parse_ip_addrs(s, p1, na as nat) {
            Some((addrs, p2)) => match spec_short_u16(s, p2) {
                Some((ns, p3)) => match spec_parse_sockets(s, p3, ns as nat) {
                    Some((sockets, p4)) => match spec_short_u16(s, p4) {
                        Some((ne, p5)) => if ne == 0 && spec_entries_valid(addrs, sockets) {
                            Some((addrs, sockets, p5))
                        } else {
                            None
                        },
                        None => None,
                    },
                    None => None,
                },
                None => None,
            },
            None => None,
        },
        None => None,
    }
}

/// A node record: key, variable-length wallclock, start time, shred version,
/// version record, then its tables.
pub open spec fn spec_parse_contact_info(s: Seq<u8>, pos: int) -> Option<(SpecContactInfo, int)> {
    if 0 <= pos && pos + 32 <= s.len() {
        match spec_varint_u64(s, pos + 32) {
            Some((wallclock, p1)) => if p1 + 10 <= s.len() {
                match spec_parse_node_version(s, p1 + 10) {
                    Some((version, p2)) => match spec_parse_tables(s, p2) {
                        Some((addrs, sockets, p3)) => Some(
                            (
                                SpecContactInfo {
                                    pubkey: s.subrange(pos, pos + 32),
                                    wallclock,
                                    outset: u64_le_at(s, p1),
                                    shred_version: u16_le_at(s, p1 + 8),
                                    version,
                                    addrs,
                                    sockets,
                                },
                                p3,
                            ),
                        ),
                        None => None,
                    },
                    None => None,
                }
            } else {
                None
            },
            None => None,
        }
    } else {
        None
    }
}

/// Once reading the first `i` addresses fails, reading more of them fails too.
proof fn lemma_ip_addrs_fail_monotone(s: Seq<u8>, pos: int, i: nat, n: nat)
    requires
        i <= n,
        spec_parse_ip_addrs(s, pos, i) is None,
    ensures
        spec_parse_ip_addrs(s, pos, n) is None,
    decreases n,
{
    if n > i {
        lemma_ip_addrs_fail_monotone(s, pos, i, (n - 1) as nat);
    }
}

/// Once reading the first `i` sockets fails, reading more of them fails too.
proof fn lemma_sockets_fail_monotone(s: Seq<u8>, pos: int, i: nat, n: nat)
    requires
        i <= n,
        spec_parse_sockets(s, pos, i) is None,
    ensures
        spec_parse_sockets(s, pos, n) is None,
    decreases n,
{
    if n > i {
        lemma_sockets_fail_monotone(s, pos, i, (n - 1) as nat);
    }
}

pub fn parse_node_version(s: &[u8], pos: usize) -> (r: Option<(Version, usize)>)
    ensures
        match r {
            Some((v, p)) => spec_parse_node_version(s@, pos as int) == Some((v, p as int)),
            None => spec_parse_node_version(s@, pos as int) is None,
        },
{
    let (major, p1) = match read_varint_u16(s, pos) {
        Some(x) => x,
        None => return None,
    };
    let (minor, p2) = match read_varint_u16(s, p1) {
        Some(x) => x,
        None => return None,
    };
    let (patch, p3) = match read_varint_u16(s, p2) {
        Some(x) => x,
        None => return None,
    };
    if p3 > s.len() || s.len() - p3 < 8 {
        return None;
    }
    let commit = get_u32_le(s, p3);
    let feature_set = get_u32_le(s, p3 + 4);
    match read_varint_u16(s, p3 + 8) {
        Some((client, p4)) => Some(
            (Version { major, minor, patch, commit, feature_set, client }, p4),
        ),
        None => None,
    }
}

pub fn parse_ip_addr(s: &[u8], pos: usize) -> (r: Option<(IpAddr, usize)>)
    ensures
        crate::wire::lift(r) == spec_parse_ip_addr(s@, pos as int),
{
    match read_u32_le(s, pos) {
        Some((tag, p)) => {
            if tag == 0 && s.len() - p >= 4 {
                Some((IpAddr::V4(get_bytes(s, p, 4)), p + 4))
            } else if tag == 1 && s.len() - p >= 16 {
                Some((IpAddr::V6(get_bytes(s, p, 16)), p + 16))
            } else {
                None
            }
        },
        None => None,
    }
}

pub fn parse_ip_addrs(s: &[u8], pos: usize, n: u16) -> (r: Option<(Vec<IpAddr>, usize)>)
    ensures
        match (r, spec_parse_ip_addrs(s@, pos as int, n as nat)) {
            (Some((v, p)), Some((sv, sp))) => ip_addrs_view(v@) == sv && p == sp,
            (None, None) => true,
            _ => false,
        },
{
    let mut out: Vec<IpAddr> = Vec::new();
    let mut p: usize = pos;
    let mut i: u16 = 0;
    while i < n
        invariant
            i <= n,
            spec_parse_ip_addrs(s@, pos as int, i as nat) == Some((ip_addrs_view(out@), p as int)),
        decreases n - i,
    {
        match parse_ip_addr(s, p) {
            Some((a, q)) => {
                let ghost prev = out@;
                let ghost av = a@;
                out.push(a);
                p = q;
                i = i + 1;
                assert(ip_addrs_view(out@) =~= ip_addrs_view(prev).push(av));
            },
            None => {
                proof {
                    lemma_ip_addrs_fail_monotone(s@, pos as int, (i + 1) as nat, n as nat);
                }
                return None;
            },
        }
    }
    Some((out, p))
}

pub fn parse_socket(s: &[u8], pos: usize) -> (r: Option<(SocketEntry, usize)>)
    ensures
        match r {
            Some((e, p)) => spec_parse_socket(s@, pos as int) == Some((e, p as int)),
            None => spec_parse_socket(s@, pos as int) is None,
        },
{
    if pos > s.len() || s.len() - pos < 2 {
        return None;
    }
    match read_varint_u16(s, pos + 2) {
        Some((offset, p)) => Some((SocketEntry { key: s[pos], index: s[pos + 1], offset }, p)),
        None => None,
    }
}

pub fn parse_sockets(s: &[u8], pos: usize, n: u16) -> (r: Option<(Vec<SocketEntry>, usize)>)
    ensures
        match (r, spec_parse_sockets(s@, pos as int, n as nat)) {
            (Some((v, p)), Some((sv, sp))) => v@ == sv && p == sp,
            (None, None) => true,
            _ => false,
        },
{
    let mut out: Vec<SocketEntry> = Vec::new();
    let mut p: usize = pos;
    let mut i: u16 = 0;
    while i < n
        invariant
            i <= n,
            spec_parse_sockets(s@, pos as int, i as nat) == Some((out@, p as int)),
        decreases n - i,
    {
        match parse_socket(s, p) {
            Some((e, q)) => {
                out.push(e);
                p = q;
                i = i + 1;
            },
            None => {
                proof {
                    lemma_sockets_fail_monotone(s@, pos as int, (i + 1) as nat, n as nat);
                }
                return None;
            },
        }
    }
    Some((out, p))
}

fn ip_addr_eq(a: &IpAddr, b: &IpAddr) -> (r: bool)
    ensures
        r == (a@ == b@),
{
    match (a, b) {
        (IpAddr::V4(x), IpAddr::V4(y)) => bytes_eq(x.as_slice(), y.as_slice()),
        (IpAddr::V6(x), IpAddr::V6(y)) => bytes_eq(x.as_slice(), y.as_slice()),
        _ => false,
    }
}

/// Whether no address occurs twice.
fn addrs_distinct(addrs: &Vec<IpAddr>) -> (r: bool)
    ensures
        r == (forall|i: int, j: int|
            0 <= i < j < addrs@.len() ==> ip_addrs_view(addrs@)[i] != ip_addrs_view(addrs@)[j]),
{
    let n = addrs.len();
    let ghost v = ip_addrs_view(addrs@);
    let mut j: usize = 0;
    while j < n
        invariant
            n == addrs@.len(),
            v == ip_addrs_view(addrs@),
            j <= n,
            forall|a: int, b: int| 0 <= a < b < j ==> v[a] != v[b],
        decreases n - j,
    {
        let mut i: usize = 0;
        while i < j
            invariant
                n == addrs@.len(),
                v == ip_addrs_view(addrs@),
                i <= j,
                j < n,
                forall|a: int, b: int| 0 <= a < b < j ==> v[a] != v[b],
                forall|a: int| 0 <= a < i ==> v[a] != v[j as int],
            decreases j - i,
        {
            if ip_addr_eq(&addrs[i], &addrs[j]) {
                assert(v[i as int] == v[j as int]);
                return false;
            }
            i = i + 1;
        }
        j = j + 1;
    }
    true
}

/// Whether no socket key occurs twice.
fn socket_keys_distinct(sockets: &Vec<SocketEntry>) -> (r: bool)
    ensures
        r == (forall|i: int, j: int|
            0 <= i < j < sockets@.len() ==> sockets@[i].key != sockets@[j].key),
{
    let n = sockets.len();
    let mut j: usize = 0;
    while j < n
        invariant
            n == sockets@.len(),
            j <= n,
            forall|a: int, b: int| 0 <= a < b < j ==> sockets@[a].key != sockets@[b].key,
        decreases n - j,
    {
        let mut i: usize = 0;
        while i < j
            invariant
                n == sockets@.len(),
                i <= j,
                j < n,
                forall|a: int, b: int| 0 <= a < b < j ==> sockets@[a].key != sockets@[b].key,
                forall|a: int| 0 <= a < i ==> sockets@[a].key != sockets@[j as int].key,
            decreases j - i,
        {
            if sockets[i].key == sockets[j].key {
                return false;
            }
            i = i + 1;
        }
        j = j + 1;
    }
    true
}

/// Whether every socket names one of `n_addrs` addresses.
fn socket_indices_in_range(sockets: &Vec<SocketEntry>, n_addrs: usize) -> (r: bool)
    ensures
        r == (forall|i: int| 0 <= i < sockets@.len() ==> (#[trigger] sockets@[i]).index < n_addrs),
{
    let mut i: usize = 0;
    while i < sockets.len()
        invariant
            i <= sockets@.len(),
            forall|k: int| 0 <= k < i ==> (#[trigger] sockets@[k]).index < n_addrs,
        decreases sockets@.len() - i,
    {
        if sockets[i].index as usize >= n_addrs {
            return false;
        }
        i = i + 1;
    }
    true
}

/// Whether each of the first `n_addrs` address indices is named by a socket.
fn addrs_all_used(sockets: &Vec<SocketEntry>, n_addrs: usize) -> (r: bool)
    ensures
        r == (forall|a: int| 0 <= a < n_addrs ==> #[trigger] spec_referenced(sockets@, a)),
{
    let mut a: usize = 0;
    while a < n_addrs
        invariant
            a <= n_addrs,
            forall|b: int| 0 <= b < a ==> #[trigger] spec_referenced(sockets@, b),
        decreases n_addrs - a,
    {
        let mut i: usize = 0;
        let mut found = false;
        while i < sockets.len()
            invariant
                i <= sockets@.len(),
                a < n_addrs,
                found ==> spec_referenced(sockets@, a as int),
                !found ==> forall|k: int| 0 <= k < i ==> (#[trigger] sockets@[k]).index != a,
            decreases sockets@.len() - i,
        {
            if sockets[i].index as usize == a {
                found = true;
            }
            i = i + 1;
        }
        if !found {
            assert(!spec_referenced(sockets@, a as int));
            return false;
        }
        a = a + 1;
    }
    true
}

/// The offsets of a prefix sum to no more than those of the whole list.
proof fn lemma_offsets_prefix(sockets: Seq<SocketEntry>, k: int)
    requires
        0 <= k <= sockets.len(),
    ensures
        spec_offsets_total(sockets.take(k)) <= spec_offsets_total(sockets),
    decreases sockets.len(),
{
    if k < sockets.len() {
        lemma_offsets_prefix(sockets.drop_last(), k);
        assert(sockets.drop_last().take(k) =~= sockets.take(k));
    } else {
        assert(sockets.take(k) =~= sockets);
    }
}

/// Whether the offsets sum to at most `u16::MAX`.
fn offsets_fit(sockets: &Vec<SocketEntry>) -> (r: bool)
    ensures
        r == (spec_offsets_total(sockets@) <= u16::MAX),
{
    let mut total: u32 = 0;
    let mut i: usize = 0;
    while i < sockets.len()
        invariant
            i <= sockets@.len(),
            total == spec_offsets_total(sockets@.take(i as int)),
            total <= u16::MAX,
        decreases sockets@.len() - i,
    {
        assert(sockets@.take(i + 1).drop_last() =~= sockets@.take(i as int));
        total = total + sockets[i].offset as u32;
        i = i + 1;
        if total > 0xFFFF {
            proof {
                lemma_offsets_prefix(sockets@, i as int);
            }
            return false;
        }
    }
    assert(sockets@.take(i as int) =~= sockets@);
    true
}

/// Whether the tables of a node are consistent.
pub fn entries_valid(addrs: &Vec<IpAddr>, sockets: &Vec<SocketEntry>) -> (r: bool)
    ensures
        r == spec_entries_valid(ip_addrs_view(addrs@), sockets@),
{
    addrs_distinct(addrs) && socket_keys_distinct(sockets) && socket_indices_in_range(
        sockets,
        addrs.len(),
    ) && addrs_all_used(sockets, addrs.len()) && offsets_fit(sockets)
}

pub fn parse_tables(s: &[u8], pos: usize) -> (r: Option<(Vec<IpAddr>, Vec<SocketEntry>, usize)>)
    ensures
        match (r, spec_parse_tables(s@, pos as int)) {
            (Some((a, k, p)), Some((sa, sk, sp))) => ip_addrs_view(a@) == sa && k@ == sk && p
                == sp,
            (None, None) => true,
            _ => false,
        },
{
    let (na, p1) = match read_short_u16(s, pos) {
        Some(x) => x,
        None => return None,
    };
    let (addrs, p2) = match parse_ip_addrs(s, p1, na) {
        Some(x) => x,
        None => return None,
    };
    let (ns, p3) = match read_short_u16(s, p2) {
        Some(x) => x,
        None => return None,
    };
    let (sockets, p4) = match parse_sockets(s, p3, ns) {
        Some(x) => x,
        None => return None,
    };
    let (ne, p5) = match read_short_u16(s, p4) {
        Some(x) => x,
        None => return None,
    };
    if ne == 0 && entries_valid(&addrs, &sockets) {
        Some((addrs, sockets, p5))
    } else {
        None
    }
}

pub fn parse_contact_info(s: &[u8], pos: usize) -> (r: Option<(ContactInfo, usize)>)
    ensures
        crate::wire::lift(r) == spec_parse_contact_info(s@, pos as int),
{
    if pos > s.len() || s.len() - pos < 32 {
        return None;
    }
    let (wallclock, p1) = match read_varint_u64(s, pos + 32) {
        Some(x) => x,
        None => return None,
    };
    if p1 > s.len() || s.len() - p1 < 10 {
        return None;
    }
    let (version, p2) = match parse_node_version(s, p1 + 10) {
        Some(x) => x,
        None => return None,
    };
    match parse_tables(s, p2) {
        Some((addrs, sockets, p3)) => {
            let pubkey = get_bytes(s, pos, 32);
            let outset = get_u64_le(s, p1);
            let shred_version = get_u16_le(s, p1 + 8);
            Some(
                (
                    ContactInfo { pubkey, wallclock, outset, shred_version, version, addrs, sockets },
                    p3,
                ),
            )
        },
        None => None,
    }
}

proof fn lemma_extend_varint_u16(s: Seq<u8>, t: Seq<u8>, pos: int)
    requires
        spec_varint_u16(s, pos) is Some,
    ensures
        spec_varint_u16(s + t, pos) == spec_varint_u16(s, pos),
        pos < spec_varint_u16(s, pos).unwrap().1 <= s.len(),
{
    lemma_extend_varint_u16_from(s, t, pos, 0, 0);
}

proof fn lemma_extend_node_version(s: Seq<u8>, t: Seq<u8>, pos: int)
    requires
        spec_parse_node_version(s, pos) is Some,
    ensures
        spec_parse_node_version(s + t, pos) == spec_parse_node_version(s, pos),
        pos < spec_parse_node_version(s, pos).unwrap().1 <= s.len(),
{
    lemma_extend_reads(s, t);
    lemma_extend_varint_u16(s, t, pos);
    let p1 = spec_varint_u16(s, pos).unwrap().1;
    lemma_extend_varint_u16(s, t, p1);
    let p2 = spec_varint_u16(s, p1).unwrap().1;
    lemma_extend_varint_u16(s, t, p2);
    let p3 = spec_varint_u16(s, p2).unwrap().1;
    lemma_extend_varint_u16(s, t, p3 + 8);
}

proof fn lemma_extend_ip_addrs(s: Seq<u8>, t: Seq<u8>, pos: int, n: nat)
    requires
        0 <= pos <= s.len(),
        spec_parse_ip_addrs(s, pos, n) is Some,
    ensures
        spec_parse_ip_addrs(s + t, pos, n) == spec_parse_ip_addrs(s, pos, n),
        pos <= spec_parse_ip_addrs(s, pos, n).unwrap().1 <= s.len(),
    decreases n,
{
    lemma_extend_reads(s, t);
    if n > 0 {
        lemma_extend_ip_addrs(s, t, pos, (n - 1) as nat);
        let p = spec_parse_ip_addrs(s, pos, (n - 1) as nat).unwrap().1;
        assert(spec_parse_ip_addr(s + t, p) == spec_parse_ip_addr(s, p));
    }
}

proof fn lemma_extend_sockets(s: Seq<u8>, t: Seq<u8>, pos: int, n: nat)
    requires
        0 <= pos <= s.len(),
        spec_parse_sockets(s, pos, n) is Some,
    ensures
        spec_parse_sockets(s + t, pos, n) == spec_parse_sockets(s, pos, n),
        pos <= spec_parse_sockets(s, pos, n).unwrap().1 <= s.len(),
    decreases n,
{
    lemma_extend_reads(s, t);
    if n > 0 {
        lemma_extend_sockets(s, t, pos, (n - 1) as nat);
        let p = spec_parse_sockets(s, pos, (n - 1) as nat).unwrap().1;
        lemma_extend_varint_u16(s, t, p + 2);
        assert(spec_parse_socket(s + t, p) == spec_parse_socket(s, p));
    }
}

proof fn lemma_extend_tables(s: Seq<u8>, t: Seq<u8>, pos: int)
    requires
        spec_parse_tables(s, pos) is Some,
    ensures
        spec_parse_tables(s + t, pos) == spec_parse_tables(s, pos),
        pos < spec_parse_tables(s, pos).unwrap().2 <= s.len(),
{
    lemma_extend_short_u16(s, t, pos);
    let (na, p1) = spec_short_u16(s, pos).unwrap();
    lemma_extend_ip_addrs(s, t, p1, na as nat);
    let p2 = spec_parse_ip_addrs(s, p1, na as nat).unwrap().1;
    lemma_extend_short_u16(s, t, p2);
    let (ns, p3) = spec_short_u16(s, p2).unwrap();
    lemma_extend_sockets(s, t, p3, ns as nat);
    let p4 = spec_parse_sockets(s, p3, ns as nat).unwrap().1;
    lemma_extend_short_u16(s, t, p4);
}

/// A node record read from `s` reads the same from any extension of `s`, and
/// ends within `s`.
pub proof fn lemma_extend_contact_info(s: Seq<u8>, t: Seq<u8>, pos: int)
    requires
        spec_parse_contact_info(s, pos) is Some,
    ensures
        spec_parse_contact_info(s + t, pos) == spec_parse_contact_info(s, pos),
        spec_parse_contact_info(s, pos).unwrap().1 <= s.len(),
{
    lemma_extend_reads(s, t);
    lemma_extend_varint_u64_from(s, t, pos + 32, 0, 0);
    let p1 = spec_varint_u64(s, pos + 32).unwrap().1;
    lemma_extend_node_version(s, t, p1 + 10);
    let p2 = spec_parse_node_version(s, p1 + 10).unwrap().1;
    lemma_extend_tables(s, t, p2);
}

} // verus!
