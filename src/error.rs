use vstd::prelude::*;

verus! {

/// Why an operation of the controller failed.
#[derive(Clone, Copy, Debug, PartialEq, Eq, Structural)]
pub enum BmcError {
    /// A node identifier that names no slot.
    InvalidNode,
    /// The pin driver refused a write.
    Hardware,
    /// The configuration store could not be read or written.
    Persistence,
    /// No supported USB device showed up.
    DeviceNotFound,
    /// More than one supported USB device showed up; it holds their number.
    DeviceAmbiguous(usize),
    /// What was read back from the device differs from the image.
    ChecksumMismatch,
    /// A bulk transfer or a device file failed.
    Io,
}

/// The error for a discovery that found `count` supported devices, where
/// exactly one was needed.
pub open spec fn device_count_error(count: usize) -> Option<BmcError> {
    if count == 0 {
        Some(BmcError::DeviceNotFound)
    } else if count == 1 {
        None
    } else {
        Some(BmcError::DeviceAmbiguous(count))
    }
}

/// Accepts a device discovery only when it found exactly one device.
pub fn verify_one_device(count: usize) -> (r: Result<(), BmcError>)
    ensures
        r.is_ok() <==> count == 1,
        r matches Err(e) ==> device_count_error(count) == Some(e),
{
    if count == 0 {
        Err(BmcError::DeviceNotFound)
    } else if count == 1 {
        Ok(())
    } else {
        Err(BmcError::DeviceAmbiguous(count))
    }
}

} // verus!
