//! Sizing policy: pure derivation of the effective buffer size, pool size and
//! scale multiplier from an application profile and an optional caller-supplied
//! request. A nonzero request within the safety bound is taken verbatim; a zero
//! request falls back to the profile default; a request beyond the bound is
//! rejected with a sizing error.

use vstd::prelude::*;

use crate::config::ApplicationType;
use crate::errors::CoreError;

verus! {

/// Largest byte count the policy accepts verbatim: half of the address space.
pub open spec fn spec_size_bound() -> usize {
    usize::MAX / 2
}

/// Profile default for the buffer size, in bytes; an unsupported profile
/// yields 0, which surfaces as a configuration error once consumed.
pub open spec fn spec_default_buffer_size(app_type: ApplicationType) -> usize {
    match app_type {
        ApplicationType::WebApp => (16 * 1024 * 1024) as usize,
        ApplicationType::ApiBackend => (8 * 1024 * 1024) as usize,
        ApplicationType::DesktopApp => (4 * 1024 * 1024) as usize,
        ApplicationType::AutomationScript => (2 * 1024 * 1024) as usize,
        ApplicationType::EmbeddedSystem => (512 * 1024) as usize,
        ApplicationType::Unsupported => 0 as usize,
    }
}

/// Profile default for the total pool size, in bytes; an unsupported profile
/// yields 0, which surfaces as a configuration error once consumed.
pub open spec fn spec_default_pool_size(app_type: ApplicationType) -> usize {
    match app_type {
        ApplicationType::WebApp => (150 * 1024 * 1024) as usize,
        ApplicationType::ApiBackend => (100 * 1024 * 1024) as usize,
        ApplicationType::DesktopApp => (50 * 1024 * 1024) as usize,
        ApplicationType::AutomationScript => (30 * 1024 * 1024) as usize,
        ApplicationType::EmbeddedSystem => (5 * 1024 * 1024) as usize,
        ApplicationType::Unsupported => 0 as usize,
    }
}

/// Profile default for the scale multiplier: 1 for every supported profile,
/// 0 for an unsupported one.
pub open spec fn spec_default_multiplier(app_type: ApplicationType) -> u8 {
    match app_type {
        ApplicationType::WebApp => 1,
        ApplicationType::ApiBackend => 1,
        ApplicationType::DesktopApp => 1,
        ApplicationType::AutomationScript => 1,
        ApplicationType::EmbeddedSystem => 1,
        ApplicationType::Unsupported => 0,
    }
}

/// Derives the effective buffer size: a nonzero request within the safety
/// bound is returned verbatim, a zero request yields the profile default, and
/// a request beyond the bound is rejected with a sizing error.
pub fn define_buffer_size(app_type: ApplicationType, buffer_size: usize) -> (r: Result<
    usize,
    CoreError,
>)
    ensures
        buffer_size > spec_size_bound() ==> r == Err::<usize, CoreError>(CoreError::SizingError),
        0 < buffer_size <= spec_size_bound() ==> r == Ok::<usize, CoreError>(buffer_size),
        buffer_size == 0 ==> r == Ok::<usize, CoreError>(spec_default_buffer_size(app_type)),
{
    if buffer_size > usize::MAX / 2 {
        Err(CoreError::SizingError)
    } else if buffer_size != 0 {
        Ok(buffer_size)
    } else {
        match app_type {
            ApplicationType::WebApp => Ok(16 * 1024 * 1024),
            ApplicationType::ApiBackend => Ok(8 * 1024 * 1024),
            ApplicationType::DesktopApp => Ok(4 * 1024 * 1024),
            ApplicationType::AutomationScript => Ok(2 * 1024 * 1024),
            ApplicationType::EmbeddedSystem => Ok(512 * 1024),
            ApplicationType::Unsupported => Ok(0),
        }
    }
}

/// Derives the effective total pool size, under the same contract as the
/// buffer-size derivation, in the pool-size domain.
pub fn define_pool_size(app_type: ApplicationType, pool_size: usize) -> (r: Result<
    usize,
    CoreError,
>)
    ensures
        pool_size > spec_size_bound() ==> r == Err::<usize, CoreError>(CoreError::SizingError),
        0 < pool_size <= spec_size_bound() ==> r == Ok::<usize, CoreError>(pool_size),
        pool_size == 0 ==> r == Ok::<usize, CoreError>(spec_default_pool_size(app_type)),
{
    if pool_size > usize::MAX / 2 {
        Err(CoreError::SizingError)
    } else if pool_size != 0 {
        Ok(pool_size)
    } else {
        match app_type {
            ApplicationType::WebApp => Ok(150 * 1024 * 1024),
            ApplicationType::ApiBackend => Ok(100 * 1024 * 1024),
            ApplicationType::DesktopApp => Ok(50 * 1024 * 1024),
            ApplicationType::AutomationScript => Ok(30 * 1024 * 1024),
            ApplicationType::EmbeddedSystem => Ok(5 * 1024 * 1024),
            ApplicationType::Unsupported => Ok(0),
        }
    }
}

/// Derives the effective scale multiplier, under the same contract as the
/// size derivations, in the small-integer domain. The safety bound of that
/// domain is the type's own maximum, so no representable request can exceed
/// it and the derivation always succeeds.
pub fn define_multiplier(app_type: ApplicationType, memory_scale: u8) -> (r: Result<u8, CoreError>)
    ensures
        memory_scale != 0 ==> r == Ok::<u8, CoreError>(memory_scale),
        memory_scale == 0 ==> r == Ok::<u8, CoreError>(spec_default_multiplier(app_type)),
        r is Ok,
{
    if memory_scale != 0 {
        Ok(memory_scale)
    } else {
        match app_type {
            ApplicationType::WebApp => Ok(1),
            ApplicationType::ApiBackend => Ok(1),
            ApplicationType::DesktopApp => Ok(1),
            ApplicationType::AutomationScript => Ok(1),
            ApplicationType::EmbeddedSystem => Ok(1),
            ApplicationType::Unsupported => Ok(0),
        }
    }
}

} // verus!
