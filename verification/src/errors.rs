use vstd::prelude::*;

verus! {

/// Errors raised by the memory-allocation subsystem.
#[derive(Clone, Copy, Debug, PartialEq, Eq, Structural)]
pub enum CoreError {
    /// The application profile is unsupported; raised only at construction,
    /// which then produces no manager.
    ConfigurationError,
    /// A requested sizing value exceeds its representable safety bound.
    SizingError,
    /// An internal invariant was violated: a pool was expected but absent.
    ResourceAllocationError,
}

} // verus!
