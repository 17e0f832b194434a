//! The version record a node announces over gossip, and client identifiers.
use vstd::prelude::*;
use crate::text::{decimal, hex_fixed, push_decimal, push_hex_fixed, push_str};
use crate::wire::u32_from_le;

verus! {

/// Identifies the implementation that runs a node.
#[derive(Clone, Copy, Debug, PartialEq, Eq, Structural)]
pub enum ClientId {
    SolanaLabs,
    JitoLabs,
    Frankendancer,
    Agave,
    AgavePaladin,
    Firedancer,
    AgaveBam,
    Sig,
    Unknown(u16),
}

/// The largest code that names a known client.
pub const MAX_KNOWN_CLIENT_CODE: u16 = 7;

/// The client that a code names; codes without a name are kept as unknown.
pub open spec fn spec_client_id(code: u16) -> ClientId {
    if code == 0 {
        ClientId::SolanaLabs
    } else if code == 1 {
        ClientId::JitoLabs
    } else if code == 2 {
        ClientId::Frankendancer
    } else if code == 3 {
        ClientId::Agave
    } else if code == 4 {
        ClientId::AgavePaladin
    } else if code == 5 {
        ClientId::Firedancer
    } else if code == 6 {
        ClientId::AgaveBam
    } else if code == 7 {
        ClientId::Sig
    } else {
        ClientId::Unknown(code)
    }
}

/// The code of a client; an unknown client that carries a code of a known one has none.
pub open spec fn spec_client_code(c: ClientId) -> Option<u16> {
    match c {
        ClientId::SolanaLabs => Some(0),
        ClientId::JitoLabs => Some(1),
        ClientId::Frankendancer => Some(2),
        ClientId::Agave => Some(3),
        ClientId::AgavePaladin => Some(4),
        ClientId::Firedancer => Some(5),
        ClientId::AgaveBam => Some(6),
        ClientId::Sig => Some(7),
        ClientId::Unknown(code) => if code <= MAX_KNOWN_CLIENT_CODE {
            None
        } else {
            Some(code)
        },
    }
}

/// The name that the debug rendering of a client shows.
pub open spec fn spec_client_debug(c: ClientId) -> Seq<char> {
    match c {
        ClientId::SolanaLabs => "SolanaLabs"@,
        ClientId::JitoLabs => "JitoLabs"@,
        ClientId::Frankendancer => "Frankendancer"@,
        ClientId::Agave => "Agave"@,
        ClientId::AgavePaladin => "AgavePaladin"@,
        ClientId::Firedancer => "Firedancer"@,
        ClientId::AgaveBam => "AgaveBam"@,
        ClientId::Sig => "Sig"@,
        ClientId::Unknown(code) => "Unknown("@ + decimal(code as nat) + ")"@,
    }
}

impl ClientId {
    /// The client that a code names.
    pub fn from_code(code: u16) -> (c: ClientId)
        ensures
            c == spec_client_id(code),
    {
        if code == 0 {
            ClientId::SolanaLabs
        } else if code == 1 {
            ClientId::JitoLabs
        } else if code == 2 {
            ClientId::Frankendancer
        } else if code == 3 {
            ClientId::Agave
        } else if code == 4 {
            ClientId::AgavePaladin
        } else if code == 5 {
            ClientId::Firedancer
        } else if code == 6 {
            ClientId::AgaveBam
        } else if code == 7 {
            ClientId::Sig
        } else {
            ClientId::Unknown(code)
        }
    }

    /// The code of a client, when it has one.
    pub fn code(&self) -> (r: Option<u16>)
        ensures
            r == spec_client_code(*self),
    {
        match self {
            ClientId::SolanaLabs => Some(0),
            ClientId::JitoLabs => Some(1),
            ClientId::Frankendancer => Some(2),
            ClientId::Agave => Some(3),
            ClientId::AgavePaladin => Some(4),
            ClientId::Firedancer => Some(5),
            ClientId::AgaveBam => Some(6),
            ClientId::Sig => Some(7),
            ClientId::Unknown(code) => if *code <= MAX_KNOWN_CLIENT_CODE {
                None
            } else {
                Some(*code)
            },
        }
    }

    /// The client this node runs.
    pub fn this_client() -> (c: ClientId)
        ensures
            c == ClientId::Frankendancer,
    {
        ClientId::Frankendancer
    }

    /// The debug rendering of a client: its name, or `Unknown(code)`.
    pub fn to_debug_string(&self) -> (s: String)
        ensures
            s@ == spec_client_debug(*self),
    {
        let mut s = String::new();
        match self {
            ClientId::SolanaLabs => push_str(&mut s, "SolanaLabs"),
            ClientId::JitoLabs => push_str(&mut s, "JitoLabs"),
            ClientId::Frankendancer => push_str(&mut s, "Frankendancer"),
            ClientId::Agave => push_str(&mut s, "Agave"),
            ClientId::AgavePaladin => push_str(&mut s, "AgavePaladin"),
            ClientId::Firedancer => push_str(&mut s, "Firedancer"),
            ClientId::AgaveBam => push_str(&mut s, "AgaveBam"),
            ClientId::Sig => push_str(&mut s, "Sig"),
            ClientId::Unknown(code) => {
                push_str(&mut s, "Unknown(");
                push_decimal(&mut s, *code as u64);
                push_str(&mut s, ")");
            },
        }
        assert(s@ =~= spec_client_debug(*self));
        s
    }
}

impl From<u16> for ClientId {
    fn from(code: u16) -> (c: ClientId) {
        ClientId::from_code(code)
    }
}

impl vstd::std_specs::convert::FromSpecImpl<u16> for ClientId {
    open spec fn obeys_from_spec() -> bool {
        true
    }

    open spec fn from_spec(code: u16) -> ClientId {
        spec_client_id(code)
    }
}

/// Every code reads back as the client it names.
pub proof fn law_client_code_roundtrip(code: u16)
    ensures
        spec_client_code(spec_client_id(code)) == Some(code),
{
}

/// Every client that has a code is the client that its code names.
pub proof fn law_client_id_roundtrip(c: ClientId)
    requires
        spec_client_code(c) is Some,
    ensures
        spec_client_id(spec_client_code(c).unwrap()) == c,
{
}

/// The version record a node announces: release numbers, the first four bytes
/// of its commit and of its feature-set identifier, and its client code.
#[derive(Clone, Copy, Debug, PartialEq, Eq, Structural)]
pub struct Version {
    pub major: u16,
    pub minor: u16,
    pub patch: u16,
    pub commit: u32,
    pub feature_set: u32,
    pub client: u16,
}

/// The display rendering `major.minor.patch`.
pub open spec fn spec_version_display(v: Version) -> Seq<char> {
    decimal(v.major as nat) + "."@ + decimal(v.minor as nat) + "."@ + decimal(v.patch as nat)
}

/// The debug rendering `major.minor.patch (src:commit; feat:feature_set, client:name)`,
/// with the commit as eight lower-case hexadecimal digits.
pub open spec fn spec_version_debug(v: Version) -> Seq<char> {
    spec_version_display(v) + " (src:"@ + hex_fixed(v.commit as nat, 8) + "; feat:"@ + decimal(
        v.feature_set as nat,
    ) + ", client:"@ + spec_client_debug(spec_client_id(v.client)) + ")"@
}

/// The record a node with these release numbers reports: each release number
/// keeps its low sixteen bits, and the feature set is the little-endian value
/// of the first four bytes of the feature-set identifier.
pub open spec fn spec_reported_version(
    major: u64,
    minor: u64,
    patch: u64,
    commit: u32,
    feature_set_id: Seq<u8>,
    client: u16,
) -> Version {
    Version {
        major: major as u16,
        minor: minor as u16,
        patch: patch as u16,
        commit,
        feature_set: u32_from_le(feature_set_id[0], feature_set_id[1], feature_set_id[2], feature_set_id[3]),
        client,
    }
}

impl Version {
    /// The client that this record names.
    pub fn client(&self) -> (c: ClientId)
        ensures
            c == spec_client_id(self.client),
    {
        ClientId::from(self.client)
    }

    /// The record of a node: release numbers truncated to sixteen bits, the
    /// commit, the first four bytes of the feature-set identifier read
    /// little-endian, and the code of `client` (a client with a code).
    pub fn reported(
        major: u64,
        minor: u64,
        patch: u64,
        commit: u32,
        feature_set_id: &[u8; 32],
        client: ClientId,
    ) -> (v: Version)
        requires
            spec_client_code(client) is Some,
        ensures
            v == spec_reported_version(
                major,
                minor,
                patch,
                commit,
                feature_set_id@,
                spec_client_code(client).unwrap(),
            ),
    {
        let feature_set: u32 = (feature_set_id[0] as u32) | ((feature_set_id[1] as u32) << 8u32)
            | ((feature_set_id[2] as u32) << 16u32) | ((feature_set_id[3] as u32) << 24u32);
        let code = match client.code() {
            Some(c) => c,
            None => 0,
        };
        Version {
            major: major as u16,
            minor: minor as u16,
            patch: patch as u16,
            commit,
            feature_set,
            client: code,
        }
    }

    /// The display rendering `major.minor.patch`.
    pub fn to_display_string(&self) -> (s: String)
        ensures
            s@ == spec_version_display(*self),
    {
        let mut s = String::new();
        push_decimal(&mut s, self.major as u64);
        push_str(&mut s, ".");
        push_decimal(&mut s, self.minor as u64);
        push_str(&mut s, ".");
        push_decimal(&mut s, self.patch as u64);
        assert(s@ =~= spec_version_display(*self));
        s
    }

    /// The debug rendering, with the commit in hexadecimal and the client by name.
    pub fn to_debug_string(&self) -> (s: String)
        ensures
            s@ == spec_version_debug(*self),
    {
        let mut s = self.to_display_string();
        push_str(&mut s, " (src:");
        push_hex_fixed(&mut s, self.commit as u64, 8);
        push_str(&mut s, "; feat:");
        push_decimal(&mut s, self.feature_set as u64);
        push_str(&mut s, ", client:");
        let name = self.client().to_debug_string();
        push_str(&mut s, name.as_str());
        push_str(&mut s, ")");
        assert(s@ =~= spec_version_debug(*self));
        s
    }
}

} // verus!
