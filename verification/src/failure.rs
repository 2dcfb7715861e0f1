//! Why a device operation failed.

use vstd::prelude::*;

verus! {

/// `IdeviceError` of the `idevice` crate, carried through unread: nothing is
/// claimed of what an error holds.
#[verifier::external_type_specification]
#[verifier::external_body]
pub struct ExIdeviceError(idevice::IdeviceError);

/// Why an operation on a device failed.
#[derive(Debug)]
pub enum Failure {
    /// The device link reported an error while it carried out a call.
    Link(idevice::IdeviceError),
    /// The device answered with a value of another shape than the protocol
    /// gives.
    UnexpectedResponse,
    /// No address is known under which to reach the device.
    DeviceNotFound,
}

} // verus!
