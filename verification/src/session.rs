//! What the interactive layer knows and shows, how an outcome changes it,
//! and which intents an action of the user sends to the worker.

use crate::address::Address;
use crate::apps::{file_of, pairing_file_of, supported_apps, FEATHER, SIDESTORE, STIKDEBUG};
use crate::credential::{record_bytes, PairingCredential};
use crate::device::Device;
use crate::failure::Failure;
use crate::intent::{Intent, Outcome};
use crate::table::NameTable;
use vstd::prelude::*;
use vstd::string::StringExecFns;

verus! {

/// The kind of system that the host runs.
#[derive(Debug, Clone, Copy, PartialEq, Eq, Structural)]
pub enum Platform {
    Windows,
    MacOs,
    Other,
}

pub const WINDOWS_HINT: &'static str =
    "Make sure you have iTunes installed from Apple's website, and that it's running.";

pub const MACOS_HINT: &'static str =
    "usbmuxd should be running by default on MacOS. Please raise an issue on GitHub.";

pub const OTHER_HINT: &'static str = "Make sure usbmuxd is installed and running.";

/// What to tell the user who has no multiplexing service running.
pub fn remediation_hint(platform: Platform) -> (out: &'static str)
    ensures
        out == match platform {
            Platform::Windows => WINDOWS_HINT,
            Platform::MacOs => MACOS_HINT,
            Platform::Other => OTHER_HINT,
        },
{
    match platform {
        Platform::Windows => WINDOWS_HINT,
        Platform::MacOs => MACOS_HINT,
        Platform::Other => OTHER_HINT,
    }
}

/// The ending of the name of a saved pairing file.
pub const SAVED_FILE_ENDING: &'static str = ".plist";

/// The name under which to offer saving the pairing file of a device.
pub fn saved_file_name(udid: &str) -> (out: String)
    ensures
        out@ == udid@ + SAVED_FILE_ENDING@,
{
    String::from_str(udid).concat(SAVED_FILE_ENDING)
}

/// What stands in place of the list of devices while there is none.
#[derive(Debug)]
pub enum Placeholder {
    Loading,
    /// The multiplexing service could not be reached.
    NoUsbmuxd(Failure),
    /// The multiplexing service gave no list.
    ListFailed(Failure),
}

/// What is said of the pairing file while there is none to show.
#[derive(Debug)]
pub enum Notice {
    Loading,
    Failed(Failure),
}

/// Why a credential was not found good.
#[derive(Debug)]
pub enum Rejection {
    /// The address that the user typed is no address.
    InvalidAddress,
    Failed(Failure),
}

/// What the interactive layer knows.
#[derive(Debug)]
pub struct Session {
    /// The devices attached by cable, by display name, once they are listed.
    pub devices: Option<NameTable<Device>>,
    pub placeholder: Placeholder,
    /// The display name of the device that the user chose.
    pub selected_device: String,
    pub wireless_enabled: Option<Result<(), Failure>>,
    pub dev_mode_enabled: Option<Result<bool, Failure>>,
    pub ddi_mounted: Option<Result<(), Failure>>,
    pub pairing_file: Option<PairingCredential>,
    /// The record of the pairing file, as it is shown and saved.
    pub pairing_file_record: Option<Vec<u8>>,
    pub pairing_file_message: Option<Notice>,
    /// Why the pairing file could not be saved to disk.
    pub save_error: Option<String>,
    /// The bundle identifiers of the installed applications that take a
    /// pairing file, by display name.
    pub installed_apps: Option<Result<NameTable<String>, Failure>>,
    /// How installing into each application went, by display name; `None`
    /// while the installation runs.
    pub install_res: NameTable<Option<Result<(), Failure>>>,
    pub validate_res: Option<Result<(), Rejection>>,
    pub validating: bool,
    /// The address that the user typed, if any.
    pub validation_ip_input: String,
    pub show_logs: bool,
}

/// `after` is `before` once `outcome` is taken in.
///
/// Each outcome fills the one place that shows it. A list of devices takes
/// the place of the list; a failure to list changes only the placeholder. A
/// credential is kept together with its record, and not kept where it has no
/// record. The outcome of an installation is noted only for an application
/// whose installation was asked for.
pub open spec fn applied(before: Session, outcome: Outcome, after: Session) -> bool {
    match outcome {
        Outcome::NoUsbmuxd(failure) => after == (Session {
            placeholder: Placeholder::NoUsbmuxd(failure),
            ..before
        }),
        Outcome::GetDevicesFailure(failure) => after == (Session {
            placeholder: Placeholder::ListFailed(failure),
            ..before
        }),
        Outcome::Devices(devices) => after == (Session { devices: Some(devices), ..before }),
        Outcome::EnabledWireless => after == (Session { wireless_enabled: Some(Ok(())), ..before }),
        Outcome::EnableWirelessFailure(failure) => after == (Session {
            wireless_enabled: Some(Err(failure)),
            ..before
        }),
        Outcome::DevMode(status) => after == (Session { dev_mode_enabled: Some(status), ..before }),
        Outcome::MountRes(ending) => after == (Session { ddi_mounted: Some(ending), ..before }),
        Outcome::PairingFile(Ok(credential)) => match record_bytes(credential@) {
            Some(record) => {
                &&& after == (Session {
                    pairing_file: Some(credential),
                    pairing_file_message: None,
                    pairing_file_record: after.pairing_file_record,
                    ..before
                })
                &&& after.pairing_file_record matches Some(bytes) && bytes@ == record
            },
            None => {
                &&& after == (Session { pairing_file_message: after.pairing_file_message, ..before })
                &&& after.pairing_file_message matches Some(Notice::Failed(failure)) && failure is Link
            },
        },
        Outcome::PairingFile(Err(failure)) => after == (Session {
            pairing_file_message: Some(Notice::Failed(failure)),
            ..before
        }),
        Outcome::Validated(Ok(())) => after == (Session { validate_res: Some(Ok(())), ..before }),
        Outcome::Validated(Err(failure)) => after == (Session {
            validate_res: Some(Err(Rejection::Failed(failure))),
            ..before
        }),
        Outcome::InstalledApps(found) => after == (Session { installed_apps: Some(found), ..before }),
        Outcome::InstallPairingFile(name, ending) => {
            &&& after == (Session { install_res: after.install_res, ..before })
            &&& after.install_res@ == if before.install_res@.contains_key(name@) {
                before.install_res@.insert(name@, Some(ending))
            } else {
                before.install_res@
            }
        },
    }
}

/// The device that the user chose, while it is in the list.
pub open spec fn chosen_device(session: Session) -> Option<Device> {
    match session.devices {
        Some(devices) => if devices@.contains_key(session.selected_device@) {
            Some(devices@[session.selected_device@])
        } else {
            None
        },
        None => None,
    }
}

/// `wanted` names the applications that take a pairing file.
pub open spec fn names_supported(wanted: Seq<String>) -> bool {
    &&& wanted.len() == 3
    &&& wanted[0]@ == SIDESTORE@
    &&& wanted[1]@ == FEATHER@
    &&& wanted[2]@ == STIKDEBUG@
}

/// `intents` are what choosing `device` asks of the worker: to let it be
/// reached without a cable, to read its developer mode, to mount the disk
/// image, and to find the applications that take a pairing file.
pub open spec fn asks_about(intents: Seq<Intent>, device: Device) -> bool {
    &&& intents.len() == 4
    &&& intents[0] == Intent::EnableWireless(device)
    &&& intents[1] == Intent::CheckDevMode(device)
    &&& intents[2] == Intent::AutoMount(device)
    &&& intents[3] matches Intent::InstalledApps(asked, wanted) && asked == device && names_supported(
        wanted@,
    )
}

/// The bundle identifier of an installed application.
pub open spec fn installed_bundle(session: Session, name: Seq<char>) -> Option<String> {
    match session.installed_apps {
        Some(Ok(found)) => if found@.contains_key(name) {
            Some(found@[name])
        } else {
            None
        },
        _ => None,
    }
}

impl Session {
    /// The session at startup: nothing listed, nothing chosen.
    pub fn new() -> (out: Session)
        ensures
            out.devices.is_none(),
            out.placeholder is Loading,
            out.selected_device@.len() == 0,
            out.wireless_enabled.is_none(),
            out.dev_mode_enabled.is_none(),
            out.ddi_mounted.is_none(),
            out.pairing_file.is_none(),
            out.pairing_file_record.is_none(),
            out.pairing_file_message.is_none(),
            out.save_error.is_none(),
            out.installed_apps.is_none(),
            out.install_res@ == Map::<Seq<char>, Option<Result<(), Failure>>>::empty(),
            out.validate_res.is_none(),
            !out.validating,
            out.validation_ip_input@.len() == 0,
            !out.show_logs,
    {
        Session {
            devices: None,
            placeholder: Placeholder::Loading,
            selected_device: String::new(),
            wireless_enabled: None,
            dev_mode_enabled: None,
            ddi_mounted: None,
            pairing_file: None,
            pairing_file_record: None,
            pairing_file_message: None,
            save_error: None,
            installed_apps: None,
            install_res: NameTable::new(),
            validate_res: None,
            validating: false,
            validation_ip_input: String::new(),
            show_logs: false,
        }
    }

    /// The intent that the interactive layer sends at startup, and whenever
    /// the user asks for the list anew.
    pub fn refresh() -> (out: Intent)
        ensures
            out == Intent::GetDevices,
    {
        Intent::GetDevices
    }

    /// Takes in an outcome.
    pub fn apply(&mut self, outcome: Outcome)
        ensures
            applied(*old(self), outcome, *final(self)),
    {
        match outcome {
            Outcome::NoUsbmuxd(failure) => {
                self.placeholder = Placeholder::NoUsbmuxd(failure);
            },
            Outcome::GetDevicesFailure(failure) => {
                self.placeholder = Placeholder::ListFailed(failure);
            },
            Outcome::Devices(devices) => {
                self.devices = Some(devices);
            },
            Outcome::EnabledWireless => {
                self.wireless_enabled = Some(Ok(()));
            },
            Outcome::EnableWirelessFailure(failure) => {
                self.wireless_enabled = Some(Err(failure));
            },
            Outcome::DevMode(status) => {
                self.dev_mode_enabled = Some(status);
            },
            Outcome::MountRes(ending) => {
                self.ddi_mounted = Some(ending);
            },
            Outcome::PairingFile(Ok(credential)) => match credential.serialize() {
                Ok(record) => {
                    self.pairing_file = Some(credential);
                    self.pairing_file_message = None;
                    self.pairing_file_record = Some(record);
                },
                Err(failure) => {
                    self.pairing_file_message = Some(Notice::Failed(failure));
                },
            },
            Outcome::PairingFile(Err(failure)) => {
                self.pairing_file_message = Some(Notice::Failed(failure));
            },
            Outcome::Validated(Ok(())) => {
                self.validate_res = Some(Ok(()));
            },
            Outcome::Validated(Err(failure)) => {
                self.validate_res = Some(Err(Rejection::Failed(failure)));
            },
            Outcome::InstalledApps(found) => {
                self.installed_apps = Some(found);
            },
            Outcome::InstallPairingFile(name, ending) => {
                if self.install_res.contains(&name) {
                    self.install_res.insert(name, Some(ending));
                }
            },
        }
    }

    /// The device that the user chose, while it is in the list.
    pub fn selected(&self) -> (out: Option<&Device>)
        ensures
            match out {
                Some(device) => chosen_device(*self) == Some(*device),
                None => chosen_device(*self).is_none(),
            },
    {
        match &self.devices {
            Some(devices) => devices.get(&self.selected_device),
            None => None,
        }
    }

    /// The user chooses the device of display name `name`.
    ///
    /// For a device of the list, what was known of the device chosen before
    /// is forgotten and the worker is asked about the new one. Any other
    /// name changes nothing.
    pub fn select(&mut self, name: String) -> (out: Vec<Intent>)
        ensures
            match chosen_device(Session { selected_device: name, ..*old(self) }) {
                Some(device) => {
                    &&& asks_about(out@, device)
                    &&& *final(self) == (Session {
                        selected_device: name,
                        wireless_enabled: None,
                        dev_mode_enabled: None,
                        ddi_mounted: None,
                        pairing_file: None,
                        pairing_file_message: None,
                        pairing_file_record: None,
                        installed_apps: None,
                        validating: false,
                        validate_res: None,
                        ..*old(self)
                    })
                },
                None => out@.len() == 0 && *final(self) == *old(self),
            },
    {
        let mut out: Vec<Intent> = Vec::new();
        let found = match &self.devices {
            Some(devices) => match devices.get(&name) {
                Some(device) => Some(device.duplicate()),
                None => None,
            },
            None => None,
        };
        match found {
            Some(device) => {
                out.push(Intent::EnableWireless(device.duplicate()));
                out.push(Intent::CheckDevMode(device.duplicate()));
                out.push(Intent::AutoMount(device.duplicate()));
                out.push(Intent::InstalledApps(device, supported_apps()));
                self.selected_device = name;
                self.wireless_enabled = None;
                self.dev_mode_enabled = None;
                self.ddi_mounted = None;
                self.pairing_file = None;
                self.pairing_file_message = None;
                self.pairing_file_record = None;
                self.installed_apps = None;
                self.validating = false;
                self.validate_res = None;
            },
            None => {},
        }
        out
    }

    /// The user asks for the pairing record that the host holds for the
    /// device chosen. Without a device chosen nothing happens.
    pub fn load(&mut self) -> (out: Option<Intent>)
        ensures
            match chosen_device(*old(self)) {
                Some(device) => {
                    &&& out == Some(Intent::LoadPairingFile(device))
                    &&& *final(self) == (Session {
                        pairing_file_message: Some(Notice::Loading),
                        pairing_file_record: None,
                        ..*old(self)
                    })
                },
                None => out.is_none() && *final(self) == *old(self),
            },
    {
        let found = match self.selected() {
            Some(device) => Some(device.duplicate()),
            None => None,
        };
        match found {
            Some(device) => {
                self.pairing_file_message = Some(Notice::Loading);
                self.pairing_file_record = None;
                Some(Intent::LoadPairingFile(device))
            },
            None => None,
        }
    }

    /// The user asks for a new pairing with the device chosen. Without a
    /// device chosen nothing happens.
    pub fn generate(&mut self) -> (out: Option<Intent>)
        ensures
            match chosen_device(*old(self)) {
                Some(device) => {
                    &&& out == Some(Intent::GeneratePairingFile(device))
                    &&& *final(self) == (Session {
                        pairing_file_message: Some(Notice::Loading),
                        pairing_file_record: None,
                        ..*old(self)
                    })
                },
                None => out.is_none() && *final(self) == *old(self),
            },
    {
        let found = match self.selected() {
            Some(device) => Some(device.duplicate()),
            None => None,
        };
        match found {
            Some(device) => {
                self.pairing_file_message = Some(Notice::Loading);
                self.pairing_file_record = None;
                Some(Intent::GeneratePairingFile(device))
            },
            None => None,
        }
    }

    /// The user asks to check the pairing file. `parsed` is the address that
    /// the user typed, where what was typed is an address.
    ///
    /// With nothing typed the device is looked for on the network. With
    /// something typed that is no address, the check is over at once. Without
    /// a pairing file nothing happens.
    pub fn validate(&mut self, parsed: Option<Address>) -> (out: Option<Intent>)
        ensures
            match old(self).pairing_file {
                Some(credential) => if old(self).validation_ip_input@.len() == 0 {
                    &&& out matches Some(Intent::Validate(None, sent)) && sent@ == credential@
                    &&& *final(self) == (Session {
                        validating: true,
                        validate_res: None,
                        ..*old(self)
                    })
                } else {
                    match parsed {
                        Some(address) => {
                            &&& out matches Some(Intent::Validate(Some(given), sent)) && given
                                == address && sent@ == credential@
                            &&& *final(self) == (Session {
                                validating: true,
                                validate_res: None,
                                ..*old(self)
                            })
                        },
                        None => {
                            &&& out.is_none()
                            &&& *final(self) == (Session {
                                validating: true,
                                validate_res: Some(Err(Rejection::InvalidAddress)),
                                ..*old(self)
                            })
                        },
                    }
                },
                None => out.is_none() && *final(self) == *old(self),
            },
    {
        let credential = match &self.pairing_file {
            Some(credential) => credential.duplicate(),
            None => {
                return None;
            },
        };
        self.validating = true;
        self.validate_res = None;
        if self.validation_ip_input.as_str().unicode_len() == 0 {
            Some(Intent::Validate(None, credential))
        } else {
            match parsed {
                Some(address) => Some(Intent::Validate(Some(address), credential)),
                None => {
                    self.validate_res = Some(Err(Rejection::InvalidAddress));
                    None
                },
            }
        }
    }

    /// The user asks to install the pairing file into the application of
    /// display name `name`.
    ///
    /// The installation is asked for, and noted as running, where a device
    /// is chosen, a pairing file is there, and the application is installed
    /// and takes a pairing file. Otherwise nothing happens.
    pub fn install(&mut self, name: &String) -> (out: Option<Intent>)
        ensures
            match (
                chosen_device(*old(self)),
                old(self).pairing_file,
                installed_bundle(*old(self), name@),
                file_of(name@),
            ) {
                (Some(chosen), Some(kept), Some(bundle), Some(file)) => {
                    &&& out matches Some(
                        Intent::InstallPairingFile { device, name: app, bundle_id, path, credential },
                    )
                    &&& device == chosen
                    &&& app@ == name@
                    &&& bundle_id == bundle
                    &&& path@ == file
                    &&& credential@ == kept@
                    &&& *final(self) == (Session { install_res: final(self).install_res, ..*old(self) })
                    &&& final(self).install_res@ == old(self).install_res@.insert(name@, None)
                },
                _ => out.is_none() && *final(self) == *old(self),
            },
    {
        let device = match self.selected() {
            Some(device) => device.duplicate(),
            None => {
                return None;
            },
        };
        let credential = match &self.pairing_file {
            Some(credential) => credential.duplicate(),
            None => {
                return None;
            },
        };
        let bundle_id = match &self.installed_apps {
            Some(Ok(found)) => match found.get(name) {
                Some(bundle_id) => bundle_id.clone(),
                None => {
                    return None;
                },
            },
            _ => {
                return None;
            },
        };
        let path = match pairing_file_of(name.as_str()) {
            Some(file) => String::from_str(file),
            None => {
                return None;
            },
        };
        self.install_res.insert(name.clone(), None);
        Some(
            Intent::InstallPairingFile { device, name: name.clone(), bundle_id, path, credential },
        )
    }

    /// Notes how saving the pairing file to disk went.
    pub fn saved(&mut self, ending: Result<(), String>)
        ensures
            *final(self) == (Session {
                save_error: match ending {
                    Ok(()) => None,
                    Err(message) => Some(message),
                },
                ..*old(self)
            }),
    {
        self.save_error = match ending {
            Ok(()) => None,
            Err(message) => Some(message),
        };
    }
}

} // verus!
