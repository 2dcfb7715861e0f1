//! What the interactive layer asks of the worker, and what it hears back.

use crate::address::Address;
use crate::credential::PairingCredential;
use crate::device::Device;
use crate::failure::Failure;
use crate::table::NameTable;
use vstd::prelude::*;

verus! {

/// A request to the worker.
#[derive(Debug)]
pub enum Intent {
    /// List the devices that are attached by cable.
    GetDevices,
    /// Let the device be reached without a cable.
    EnableWireless(Device),
    /// Ask whether the device is in developer mode.
    CheckDevMode(Device),
    /// Mount the developer disk image unless one is mounted.
    AutoMount(Device),
    /// Load the pairing record that the host holds for the device.
    LoadPairingFile(Device),
    /// Pair with the device anew.
    GeneratePairingFile(Device),
    /// Check that the credential opens a session over the network, at the
    /// address given or else at the one under which the device was seen.
    Validate(Option<Address>, PairingCredential),
    /// Find which of the named applications the device has installed.
    InstalledApps(Device, Vec<String>),
    /// Write the credential into an application's documents.
    InstallPairingFile {
        device: Device,
        /// The application's display name.
        name: String,
        bundle_id: String,
        /// The file's path below the application's documents.
        path: String,
        credential: PairingCredential,
    },
    /// A device was seen on the network: its address and the hardware
    /// identifier it announced.
    DiscoveredDevice(Address, String),
}

/// The answer to an intent.
#[derive(Debug)]
pub enum Outcome {
    /// The multiplexing service could not be reached.
    NoUsbmuxd(Failure),
    GetDevicesFailure(Failure),
    /// The devices attached by cable, by display name.
    Devices(NameTable<Device>),
    EnabledWireless,
    EnableWirelessFailure(Failure),
    DevMode(Result<bool, Failure>),
    MountRes(Result<(), Failure>),
    PairingFile(Result<PairingCredential, Failure>),
    Validated(Result<(), Failure>),
    /// The installed applications among those asked for: the bundle
    /// identifier of each, by display name.
    InstalledApps(Result<NameTable<String>, Failure>),
    /// How installing into the application of this display name went.
    InstallPairingFile(String, Result<(), Failure>),
}

/// The kinds of intent.
#[derive(Clone, Copy, Debug, PartialEq, Eq, Structural)]
pub enum IntentKind {
    GetDevices,
    EnableWireless,
    CheckDevMode,
    AutoMount,
    LoadPairingFile,
    GeneratePairingFile,
    Validate,
    InstalledApps,
    InstallPairingFile,
    DiscoveredDevice,
}

impl Intent {
    pub open spec fn spec_kind(&self) -> IntentKind {
        match self {
            Intent::GetDevices => IntentKind::GetDevices,
            Intent::EnableWireless(_) => IntentKind::EnableWireless,
            Intent::CheckDevMode(_) => IntentKind::CheckDevMode,
            Intent::AutoMount(_) => IntentKind::AutoMount,
            Intent::LoadPairingFile(_) => IntentKind::LoadPairingFile,
            Intent::GeneratePairingFile(_) => IntentKind::GeneratePairingFile,
            Intent::Validate(_, _) => IntentKind::Validate,
            Intent::InstalledApps(_, _) => IntentKind::InstalledApps,
            Intent::InstallPairingFile { .. } => IntentKind::InstallPairingFile,
            Intent::DiscoveredDevice(_, _) => IntentKind::DiscoveredDevice,
        }
    }

    /// The kind of this intent.
    #[verifier::when_used_as_spec(spec_kind)]
    pub fn kind(&self) -> (out: IntentKind)
        ensures
            out == self.spec_kind(),
    {
        match self {
            Intent::GetDevices => IntentKind::GetDevices,
            Intent::EnableWireless(_) => IntentKind::EnableWireless,
            Intent::CheckDevMode(_) => IntentKind::CheckDevMode,
            Intent::AutoMount(_) => IntentKind::AutoMount,
            Intent::LoadPairingFile(_) => IntentKind::LoadPairingFile,
            Intent::GeneratePairingFile(_) => IntentKind::GeneratePairingFile,
            Intent::Validate(_, _) => IntentKind::Validate,
            Intent::InstalledApps(_, _) => IntentKind::InstalledApps,
            Intent::InstallPairingFile { .. } => IntentKind::InstallPairingFile,
            Intent::DiscoveredDevice(_, _) => IntentKind::DiscoveredDevice,
        }
    }
}

impl IntentKind {
    /// Whether an intent of this kind is answered with an outcome. A
    /// discovery is the one kind that is not: it only updates what the worker
    /// knows.
    pub open spec fn spec_bears_outcome(self) -> bool {
        self != IntentKind::DiscoveredDevice
    }

    #[verifier::when_used_as_spec(spec_bears_outcome)]
    pub fn bears_outcome(self) -> (out: bool)
        ensures
            out == self.spec_bears_outcome(),
    {
        self != IntentKind::DiscoveredDevice
    }
}

impl Outcome {
    /// Whether this outcome can be the answer to an intent of `kind`.
    pub open spec fn spec_answers(&self, kind: IntentKind) -> bool {
        match self {
            Outcome::NoUsbmuxd(_) => {
                ||| kind == IntentKind::GetDevices
                ||| kind == IntentKind::EnableWireless
                ||| kind == IntentKind::CheckDevMode
                ||| kind == IntentKind::LoadPairingFile
                ||| kind == IntentKind::GeneratePairingFile
            },
            Outcome::GetDevicesFailure(_) => kind == IntentKind::GetDevices,
            Outcome::Devices(_) => kind == IntentKind::GetDevices,
            Outcome::EnabledWireless => kind == IntentKind::EnableWireless,
            Outcome::EnableWirelessFailure(_) => kind == IntentKind::EnableWireless,
            Outcome::DevMode(_) => kind == IntentKind::CheckDevMode,
            Outcome::MountRes(_) => kind == IntentKind::AutoMount,
            Outcome::PairingFile(_) => {
                kind == IntentKind::LoadPairingFile || kind == IntentKind::GeneratePairingFile
            },
            Outcome::Validated(_) => kind == IntentKind::Validate,
            Outcome::InstalledApps(_) => kind == IntentKind::InstalledApps,
            Outcome::InstallPairingFile(_, _) => kind == IntentKind::InstallPairingFile,
        }
    }

    /// The failure that this outcome reports, if it reports one.
    pub open spec fn reported(self) -> Option<Failure> {
        match self {
            Outcome::NoUsbmuxd(failure) => Some(failure),
            Outcome::GetDevicesFailure(failure) => Some(failure),
            Outcome::EnableWirelessFailure(failure) => Some(failure),
            Outcome::DevMode(Err(failure)) => Some(failure),
            Outcome::MountRes(Err(failure)) => Some(failure),
            Outcome::PairingFile(Err(failure)) => Some(failure),
            Outcome::Validated(Err(failure)) => Some(failure),
            Outcome::InstalledApps(Err(failure)) => Some(failure),
            Outcome::InstallPairingFile(_, Err(failure)) => Some(failure),
            _ => None,
        }
    }

    /// The failure that this outcome reports, if it reports one.
    pub fn failure(&self) -> (out: Option<&Failure>)
        ensures
            match out {
                Some(failure) => self.reported() == Some(*failure),
                None => self.reported().is_none(),
            },
    {
        match self {
            Outcome::NoUsbmuxd(failure) => Some(failure),
            Outcome::GetDevicesFailure(failure) => Some(failure),
            Outcome::EnableWirelessFailure(failure) => Some(failure),
            Outcome::DevMode(Err(failure)) => Some(failure),
            Outcome::MountRes(Err(failure)) => Some(failure),
            Outcome::PairingFile(Err(failure)) => Some(failure),
            Outcome::Validated(Err(failure)) => Some(failure),
            Outcome::InstalledApps(Err(failure)) => Some(failure),
            Outcome::InstallPairingFile(_, Err(failure)) => Some(failure),
            _ => None,
        }
    }

    /// Whether this outcome is an answer to `intent`: one for intents of its
    /// kind, that names the application which the intent was to install
    /// into, and holds a credential for the device which the intent was to
    /// pair with.
    pub open spec fn settles(self, intent: Intent) -> bool {
        &&& self.answers(intent.kind())
        &&& match (self, intent) {
            (
                Outcome::InstallPairingFile(name, _),
                Intent::InstallPairingFile { name: asked, .. },
            ) => name == asked,
            (Outcome::PairingFile(Ok(credential)), Intent::GeneratePairingFile(device)) => {
                credential.udid == Some(device.udid)
            },
            _ => true,
        }
    }

    /// Whether this outcome can be the answer to an intent of `kind`.
    #[verifier::when_used_as_spec(spec_answers)]
    pub fn answers(&self, kind: IntentKind) -> (out: bool)
        ensures
            out == self.spec_answers(kind),
    {
        match self {
            Outcome::NoUsbmuxd(_) => {
                kind == IntentKind::GetDevices || kind == IntentKind::EnableWireless || kind
                    == IntentKind::CheckDevMode || kind == IntentKind::LoadPairingFile || kind
                    == IntentKind::GeneratePairingFile
            },
            Outcome::GetDevicesFailure(_) => kind == IntentKind::GetDevices,
            Outcome::Devices(_) => kind == IntentKind::GetDevices,
            Outcome::EnabledWireless => kind == IntentKind::EnableWireless,
            Outcome::EnableWirelessFailure(_) => kind == IntentKind::EnableWireless,
            Outcome::DevMode(_) => kind == IntentKind::CheckDevMode,
            Outcome::MountRes(_) => kind == IntentKind::AutoMount,
            Outcome::PairingFile(_) => {
                kind == IntentKind::LoadPairingFile || kind == IntentKind::GeneratePairingFile
            },
            Outcome::Validated(_) => kind == IntentKind::Validate,
            Outcome::InstalledApps(_) => kind == IntentKind::InstalledApps,
            Outcome::InstallPairingFile(_, _) => kind == IntentKind::InstallPairingFile,
        }
    }
}

} // verus!
