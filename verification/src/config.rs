//! Init-time capability negotiation.
//!
//! During Init the kernel offers a capability bitmask and a read-ahead
//! limit; the backend requests capabilities of its own. The reply carries
//! the intersection of the two bitmasks together with the engine's
//! supported protocol version and the negotiated numeric limits.

use vstd::prelude::*;

verus! {

/// The protocol major version this engine replies with.
pub const SUPPORTED_MAJOR: u32 = 7;

/// The protocol minor version this engine replies with.
pub const SUPPORTED_MINOR: u32 = 31;

/// The lowest protocol major version the engine accepts at Init.
pub const MIN_SUPPORTED_MAJOR: u32 = 7;

/// The lowest protocol minor version the engine accepts at Init
/// (together with `MIN_SUPPORTED_MAJOR`, compared lexicographically).
pub const MIN_SUPPORTED_MINOR: u32 = 6;

/// The default maximum write size granted to the kernel, in bytes (16 MiB).
pub const DEFAULT_MAX_WRITE: u32 = 16777216;

/// Whether a version claimed at Init is below the supported minimum.
pub open spec fn version_below_min(major: u32, minor: u32) -> bool {
    major < MIN_SUPPORTED_MAJOR || (major == MIN_SUPPORTED_MAJOR && minor < MIN_SUPPORTED_MINOR)
}

/// Whether a version claimed at Init is below the supported minimum.
#[verifier::when_used_as_spec(version_below_min)]
pub fn check_version_below_min(major: u32, minor: u32) -> (r: bool)
    ensures
        r == version_below_min(major, minor),
{
    major < MIN_SUPPORTED_MAJOR || (major == MIN_SUPPORTED_MAJOR && minor < MIN_SUPPORTED_MINOR)
}

/// The ephemeral negotiation state built once per Init call and consumed
/// to construct the Init reply. The backend's init capability may raise the
/// requested bitmask and adjust the numeric limits before the reply is built.
#[derive(Clone, Copy, Debug, PartialEq, Eq, Structural)]
pub struct KernelConfig {
    /// Capabilities the kernel offered at Init.
    pub kernel_caps: u64,
    /// Capabilities the backend requested; only those also offered are granted.
    pub requested: u64,
    /// Maximum read-ahead, as offered by the kernel.
    pub max_readahead: u32,
    /// Maximum size of one write handed to the backend.
    pub max_write: u32,
}

impl KernelConfig {
    /// The negotiation state as freshly built from an Init operation:
    /// nothing requested yet, default write limit.
    pub open spec fn spec_new(kernel_caps: u64, max_readahead: u32) -> KernelConfig {
        KernelConfig {
            kernel_caps,
            requested: 0,
            max_readahead,
            max_write: DEFAULT_MAX_WRITE,
        }
    }

    /// Build the negotiation state from the kernel's Init offer.
    pub fn new(kernel_caps: u64, max_readahead: u32) -> (r: KernelConfig)
        ensures
            r == KernelConfig::spec_new(kernel_caps, max_readahead),
    {
        KernelConfig { kernel_caps, requested: 0, max_readahead, max_write: DEFAULT_MAX_WRITE }
    }

    /// The capability bitmask granted to the kernel: the intersection of
    /// what the kernel offered and what the backend requested.
    pub open spec fn spec_negotiated(&self) -> u64 {
        self.kernel_caps & self.requested
    }

    /// The capability bitmask granted to the kernel.
    #[verifier::when_used_as_spec(spec_negotiated)]
    pub fn negotiated(&self) -> (r: u64)
        ensures
            r == self.spec_negotiated(),
    {
        self.kernel_caps & self.requested
    }

    /// Request additional capabilities on behalf of the backend.
    pub fn add_capabilities(&mut self, caps: u64)
        ensures
            final(self).requested == old(self).requested | caps,
            final(self).kernel_caps == old(self).kernel_caps,
            final(self).max_readahead == old(self).max_readahead,
            final(self).max_write == old(self).max_write,
    {
        self.requested = self.requested | caps;
    }

    /// Lower or raise the maximum write size granted to the kernel.
    pub fn set_max_write(&mut self, max_write: u32)
        ensures
            *final(self) == (KernelConfig { max_write, ..*old(self) }),
    {
        self.max_write = max_write;
    }

    /// Lower or raise the maximum read-ahead granted to the kernel.
    pub fn set_max_readahead(&mut self, max_readahead: u32)
        ensures
            *final(self) == (KernelConfig { max_readahead, ..*old(self) }),
    {
        self.max_readahead = max_readahead;
    }
}

/// The payload of a successful Init reply.
#[derive(Clone, Copy, Debug, PartialEq, Eq, Structural)]
pub struct InitReply {
    /// The engine's supported protocol major version.
    pub major: u32,
    /// The engine's supported protocol minor version.
    pub minor: u32,
    /// The negotiated capability bitmask: offered and requested.
    pub capabilities: u64,
    /// The negotiated maximum read-ahead.
    pub max_readahead: u32,
    /// The negotiated maximum write size.
    pub max_write: u32,
}

/// The Init reply a finished negotiation produces.
pub open spec fn spec_init_reply(config: KernelConfig) -> InitReply {
    InitReply {
        major: SUPPORTED_MAJOR,
        minor: SUPPORTED_MINOR,
        capabilities: config.spec_negotiated(),
        max_readahead: config.max_readahead,
        max_write: config.max_write,
    }
}

/// Build the Init reply from a finished negotiation: the engine's supported
/// version, the capability intersection, and the negotiated limits.
pub fn init_reply_for(config: &KernelConfig) -> (r: InitReply)
    ensures
        r == spec_init_reply(*config),
{
    InitReply {
        major: SUPPORTED_MAJOR,
        minor: SUPPORTED_MINOR,
        capabilities: config.negotiated(),
        max_readahead: config.max_readahead,
        max_write: config.max_write,
    }
}

} // verus!
