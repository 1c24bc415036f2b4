//! Validation performed when an accelerator context is constructed: the
//! platform index and the device index must each fall within the enumerated,
//! non-empty lists available at construction time, or construction fails with
//! a typed error.

use vstd::prelude::*;

use crate::decimal::dec_seq;
use crate::error::Error;
use crate::error::message_of;

verus! {

/// Outcome of checking a requested platform index against the number of
/// enumerated platforms: an empty enumeration means no accelerator at all,
/// an index at or past the end is out of range and is reported together with
/// the largest valid index.
pub open spec fn platform_check(platform_count: usize, platform_index: usize) -> Result<
    (),
    Error,
> {
    if platform_count == 0 {
        Err(Error::NoAcceleratorAvailable)
    } else if platform_index >= platform_count {
        Err(Error::IndexOutOfRange { index: platform_index, max: (platform_count - 1) as usize })
    } else {
        Ok(())
    }
}

/// Outcome of checking a requested device index against the number of devices
/// enumerated on the chosen platform.
pub open spec fn device_check(device_count: usize, device_index: usize) -> Result<(), Error> {
    if device_index >= device_count {
        Err(Error::DeviceNotFound { index: device_index })
    } else {
        Ok(())
    }
}

/// Check a requested platform index against the enumerated platform count.
pub fn validate_platform_index(platform_count: usize, platform_index: usize) -> (r: Result<
    (),
    Error,
>)
    ensures
        r == platform_check(platform_count, platform_index),
{
    if platform_count == 0 {
        Err(Error::NoAcceleratorAvailable)
    } else if platform_index >= platform_count {
        Err(Error::IndexOutOfRange { index: platform_index, max: platform_count - 1 })
    } else {
        Ok(())
    }
}

/// Check a requested device index against the device count of the chosen
/// platform.
pub fn validate_device_index(device_count: usize, device_index: usize) -> (r: Result<(), Error>)
    ensures
        r == device_check(device_count, device_index),
{
    if device_index >= device_count {
        Err(Error::DeviceNotFound { index: device_index })
    } else {
        Ok(())
    }
}

/// Every pair of indices that lies within the enumerated ranges is accepted:
/// construction never rejects a valid platform and device selection.
pub proof fn lemma_in_range_accepted(
    platform_count: usize,
    platform_index: usize,
    device_count: usize,
    device_index: usize,
)
    requires
        platform_index < platform_count,
        device_index < device_count,
    ensures
        platform_check(platform_count, platform_index) == Ok::<(), Error>(()),
        device_check(device_count, device_index) == Ok::<(), Error>(()),
{
}

/// Every platform index at or past the enumerated count is rejected with
/// `IndexOutOfRange`, and the rendered error text names both the supplied
/// index and the largest valid one.
pub proof fn lemma_out_of_range_reported(platform_count: usize, platform_index: usize)
    requires
        platform_count > 0,
        platform_index >= platform_count,
    ensures
        platform_check(platform_count, platform_index) == Err::<(), Error>(
            Error::IndexOutOfRange {
                index: platform_index,
                max: (platform_count - 1) as usize,
            },
        ),
        message_of(
            Error::IndexOutOfRange { index: platform_index, max: (platform_count - 1) as usize },
        ) == "Platform index "@ + dec_seq(platform_index as nat) + " too large (max "@ + dec_seq(
            (platform_count - 1) as nat,
        ) + ")"@,
{
}

} // verus!
