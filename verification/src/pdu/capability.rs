//! Capability sets and the rule by which one of them is chosen for a session.

use vstd::prelude::*;

verus! {

/// Flag of a version 8.1 capability set: the client decodes H.264 in the
/// AVC420 layout.
pub const AVC420_ENABLED: u32 = 0x10;

/// The protocol versions a capability set can announce.
#[derive(Debug, Clone, Copy, PartialEq, Eq, Structural)]
pub enum CapabilityVersion {
    V8,
    V8_1,
    V10,
    V10_1,
    V10_2,
    V10_3,
    V10_4,
    V10_5,
    V10_6,
    V10_6Err,
    V10_7,
}

/// One capability set: a protocol version together with the feature flags
/// that this version defines.  Version 10.1 defines none.
#[derive(Debug, Clone, Copy, PartialEq, Eq, Structural)]
pub enum CapabilitySet {
    V8 { flags: u32 },
    V8_1 { flags: u32 },
    V10 { flags: u32 },
    V10_1,
    V10_2 { flags: u32 },
    V10_3 { flags: u32 },
    V10_4 { flags: u32 },
    V10_5 { flags: u32 },
    V10_6 { flags: u32 },
    V10_6Err { flags: u32 },
    V10_7 { flags: u32 },
}

impl CapabilitySet {
    /// The version that this set announces, whatever its flags.
    pub open spec fn spec_version(self) -> CapabilityVersion {
        match self {
            CapabilitySet::V8 { .. } => CapabilityVersion::V8,
            CapabilitySet::V8_1 { .. } => CapabilityVersion::V8_1,
            CapabilitySet::V10 { .. } => CapabilityVersion::V10,
            CapabilitySet::V10_1 => CapabilityVersion::V10_1,
            CapabilitySet::V10_2 { .. } => CapabilityVersion::V10_2,
            CapabilitySet::V10_3 { .. } => CapabilityVersion::V10_3,
            CapabilitySet::V10_4 { .. } => CapabilityVersion::V10_4,
            CapabilitySet::V10_5 { .. } => CapabilityVersion::V10_5,
            CapabilitySet::V10_6 { .. } => CapabilityVersion::V10_6,
            CapabilitySet::V10_6Err { .. } => CapabilityVersion::V10_6Err,
            CapabilitySet::V10_7 { .. } => CapabilityVersion::V10_7,
        }
    }

    /// The set a session falls back to: version 8.1 with AVC420 enabled.
    pub open spec fn spec_baseline() -> CapabilitySet {
        CapabilitySet::V8_1 { flags: AVC420_ENABLED }
    }

    #[verifier::when_used_as_spec(spec_version)]
    pub fn version(self) -> (v: CapabilityVersion)
        ensures
            v == self.spec_version(),
    {
        match self {
            CapabilitySet::V8 { .. } => CapabilityVersion::V8,
            CapabilitySet::V8_1 { .. } => CapabilityVersion::V8_1,
            CapabilitySet::V10 { .. } => CapabilityVersion::V10,
            CapabilitySet::V10_1 => CapabilityVersion::V10_1,
            CapabilitySet::V10_2 { .. } => CapabilityVersion::V10_2,
            CapabilitySet::V10_3 { .. } => CapabilityVersion::V10_3,
            CapabilitySet::V10_4 { .. } => CapabilityVersion::V10_4,
            CapabilitySet::V10_5 { .. } => CapabilityVersion::V10_5,
            CapabilitySet::V10_6 { .. } => CapabilityVersion::V10_6,
            CapabilitySet::V10_6Err { .. } => CapabilityVersion::V10_6Err,
            CapabilitySet::V10_7 { .. } => CapabilityVersion::V10_7,
        }
    }

    #[verifier::when_used_as_spec(spec_baseline)]
    pub fn baseline() -> (c: CapabilitySet)
        ensures
            c == CapabilitySet::spec_baseline(),
    {
        CapabilitySet::V8_1 { flags: AVC420_ENABLED }
    }
}

/// Whether `offered` holds a set of the given version.
pub open spec fn offers_version(offered: Seq<CapabilitySet>, version: CapabilityVersion) -> bool {
    exists|i: int| 0 <= i < offered.len() && (#[trigger] offered[i]).version() == version
}

/// The capability set that a session settles on.
///
/// Only the server's first preference counts.  It is chosen, flags and all, if
/// the client offers a set of the same version; the client's own flags play no
/// part.  In every other case the session falls back to the baseline.
pub open spec fn negotiated_capability(
    client: Seq<CapabilitySet>,
    server: Seq<CapabilitySet>,
) -> CapabilitySet {
    if server.len() > 0 && offers_version(client, server[0].version()) {
        server[0]
    } else {
        CapabilitySet::baseline()
    }
}

} // verus!
