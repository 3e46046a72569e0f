use vstd::prelude::*;

verus! {

/// The application profile. Supplied once, at construction; it selects the
/// sizing defaults and the allocation strategy.
#[derive(Clone, Copy, Debug, PartialEq, Eq, Structural)]
pub enum ApplicationType {
    WebApp,
    ApiBackend,
    DesktopApp,
    AutomationScript,
    EmbeddedSystem,
    Unsupported,
}

/// Resolved sizing configuration for a manager: how large each buffer is, how
/// many bytes the pool holds in total, and a small scale multiplier.
///
/// Zero sizes must be resolved through the sizing policy defaults before a
/// manager is constructed: both byte counts are required to be strictly
/// positive there.
#[derive(Clone, Copy, Debug, PartialEq, Eq, Structural)]
pub struct MemoryConfig {
    /// Length in bytes of each pooled buffer.
    pub buffer_size: usize,
    /// Total byte budget of the pool.
    pub pool_size: usize,
    /// Small positive scale factor, defaulted to 1 by the sizing policy.
    pub scale_multiplier: u8,
}

} // verus!
