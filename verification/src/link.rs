//! The calls that the worker asks of the device link, and the answers that
//! come back.

use crate::address::Endpoint;
use crate::credential::PairingCredential;
use crate::device::Device;
use crate::failure::Failure;
use crate::value::Value;
use vstd::prelude::*;

verus! {

/// The name under which the host presents itself to a device.
pub const LABEL: &'static str = "idevice_pair";

/// The domain and key of the flag that lets a device be reached without a
/// cable.
pub const WIRELESS_DOMAIN: &'static str = "com.apple.mobile.wireless_lockdown";

pub const WIRELESS_KEY: &'static str = "EnableWifiDebugging";

/// The domain and key under which a device reports its developer mode.
pub const DEVELOPER_MODE_DOMAIN: &'static str = "com.apple.security.mac.amfi";

pub const DEVELOPER_MODE_KEY: &'static str = "DeveloperModeStatus";

/// The key of a device's display name among its values.
pub const DEVICE_NAME_KEY: &'static str = "DeviceName";

/// The key of the chip identifier to which a disk image is personalized.
pub const CHIP_ID_KEY: &'static str = "UniqueChipID";

/// The key of an application's display name in its description.
pub const DISPLAY_NAME_KEY: &'static str = "CFBundleDisplayName";

/// The kind of application that a user installs.
pub const USER_APPLICATIONS: &'static str = "User";

/// One call on the device link. The caller keeps the connections that the
/// calls of one intent open, and closes them when the intent is answered.
#[derive(Debug)]
pub enum LinkCall {
    /// Connect to the multiplexing service.
    ConnectMux,
    /// List the devices that the multiplexing service knows.
    ListDevices,
    /// Fetch the pairing record that the multiplexing service stores for a
    /// device.
    FetchPairRecord { udid: String },
    /// Fetch the host's build identifier from the multiplexing service.
    FetchBuid,
    /// Connect to the control service of a device.
    OpenLockdown { device: Device },
    /// Start an authenticated session on the open control connection.
    StartSession { credential: PairingCredential },
    /// Read every value of the default domain.
    ReadAllValues,
    /// Read one value.
    ReadValue { key: &'static str, domain: Option<&'static str> },
    /// Set a flag to true.
    SetFlag { key: &'static str, domain: &'static str },
    /// Run the pairing handshake.
    Pair { host_id: String, system_buid: String },
    /// Open a socket to a device on the network and speak the control
    /// protocol over it.
    Dial { endpoint: Endpoint },
    /// Connect to the service that knows the installed applications.
    OpenInstallationProxy { device: Device },
    /// List the installed applications of one kind.
    ListApplications { kind: &'static str },
    /// Connect to the service that opens application containers.
    OpenHouseArrest { device: Device },
    /// Open the documents of one application.
    VendDocuments { bundle_id: String },
    /// Open a file in the vended container, creating it, to write it anew.
    OpenForWriting { path: String },
    /// Write to the open file.
    Write { bytes: Vec<u8> },
    /// Connect to the service that mounts disk images.
    OpenImageMounter { device: Device },
    /// List the disk images that the device has mounted.
    ListImages,
    /// Mount the bundled developer disk image, personalized to a chip.
    MountPersonalized { chip_id: u64 },
}

/// The answer to a call.
#[derive(Debug)]
pub enum LinkReply {
    /// The call succeeded and returns nothing.
    Done,
    /// The call failed.
    Failed(idevice::IdeviceError),
    Devices(Vec<Device>),
    Credential(PairingCredential),
    Text(String),
    Value(Value),
    /// The installed applications: each bundle identifier with the
    /// application's description.
    Applications(Vec<(String, Value)>),
    /// The number of mounted disk images.
    Images(usize),
}

/// What a flow of calls does next: `S` is what it remembers between two
/// calls, `R` what it ends in.
#[derive(Debug)]
pub enum Step<S, R> {
    /// Make this call, and come back with its answer to the stage given.
    Call(S, LinkCall),
    /// The flow is over.
    Finish(R),
}

/// Why a call whose answer was `reply` did not give what was asked of it:
/// the link's own error, or else an answer of the wrong shape.
pub open spec fn spec_failure_of(reply: LinkReply) -> Failure {
    match reply {
        LinkReply::Failed(error) => Failure::Link(error),
        _ => Failure::UnexpectedResponse,
    }
}

/// Why a call whose answer was `reply` did not give what was asked of it.
#[verifier::when_used_as_spec(spec_failure_of)]
pub fn failure_of(reply: LinkReply) -> (out: Failure)
    ensures
        out == spec_failure_of(reply),
{
    match reply {
        LinkReply::Failed(error) => Failure::Link(error),
        _ => Failure::UnexpectedResponse,
    }
}

} // verus!
