use idevice::IdeviceError;
use idevice_pair::address::{Address, Endpoint};
use idevice_pair::apps::{
    documents_path, installed_apps, pairing_file_of, select_apps, supported_apps, wanted_has,
    AppsStage,
};
use idevice_pair::credential::PairingCredential;
use idevice_pair::device::{usb_only, Device, Transport};
use idevice_pair::devices::{get_devices, DevicesStage};
use idevice_pair::devmode::{check_dev_mode, developer_mode, DevModeStage};
use idevice_pair::failure::Failure;
use idevice_pair::install::{install_pairing_file, write_step, InstallStage};
use idevice_pair::intent::Outcome;
use idevice_pair::link::{failure_of, LinkCall, LinkReply, Step};
use idevice_pair::mount::{auto_mount, MountStage};
use idevice_pair::pairing::{
    generate_pairing_file, load_pairing_file, pairing_request, GenerateStage, LoadStage,
};
use idevice_pair::presence::{resolve, Presence};
use idevice_pair::validate::{validate, ValidateStage};
use idevice_pair::value::Value;
use idevice_pair::wireless::{enable_wireless, WirelessStage};

fn device(udid: &str) -> Device {
    Device { transport: Transport::Usb, udid: udid.to_string(), device_id: 7 }
}

fn credential(mac: &str) -> PairingCredential {
    PairingCredential {
        device_certificate: vec![1],
        host_private_key: vec![2],
        host_certificate: vec![3],
        root_private_key: vec![4],
        root_certificate: vec![5],
        system_buid: "BUID".to_string(),
        host_id: "HOST".to_string(),
        escrow_bag: Some(vec![6]),
        wifi_mac_address: mac.to_string(),
        udid: None,
    }
}

fn named(name: &str) -> Value {
    Value::Dictionary(vec![
        ("CFBundleIdentifier".to_string(), Value::Text("x".to_string())),
        ("CFBundleDisplayName".to_string(), Value::Text(name.to_string())),
    ])
}

fn failed() -> LinkReply {
    LinkReply::Failed(IdeviceError::Timeout)
}

fn is_timeout(failure: &Failure) -> bool {
    matches!(failure, Failure::Link(IdeviceError::Timeout))
}

#[test]
fn failure_of_keeps_the_links_error_and_names_a_wrong_shape() {
    assert!(is_timeout(&failure_of(failed())));
    assert!(matches!(failure_of(LinkReply::Done), Failure::UnexpectedResponse));
    assert!(matches!(failure_of(LinkReply::Images(0)), Failure::UnexpectedResponse));
}

#[test]
fn value_accessors_read_one_shape_each() {
    assert_eq!(Value::Boolean(true).as_boolean(), Some(true));
    assert_eq!(Value::Unsigned(1).as_boolean(), None);
    assert_eq!(Value::Unsigned(42).as_unsigned(), Some(42));
    assert_eq!(Value::Text("42".to_string()).as_unsigned(), None);
    assert_eq!(Value::Text("a".to_string()).as_text(), Some(&"a".to_string()));
    assert_eq!(Value::Other.as_text(), None);
    let dictionary = Value::Dictionary(vec![
        ("a".to_string(), Value::Unsigned(1)),
        ("b".to_string(), Value::Text("x".to_string())),
        ("a".to_string(), Value::Unsigned(2)),
    ]);
    assert!(matches!(dictionary.get("a"), Some(Value::Unsigned(1))));
    assert!(dictionary.get("c").is_none());
    assert!(Value::Other.get("a").is_none());
    assert_eq!(dictionary.get_text("b"), Some(&"x".to_string()));
    assert_eq!(dictionary.get_text("a"), None);
}

#[test]
fn usb_only_keeps_cabled_devices_in_order() {
    let listed = vec![
        device("a"),
        Device { transport: Transport::Network(Address::V4(1)), udid: "b".to_string(), device_id: 1 },
        Device { transport: Transport::Unknown("bt".to_string()), udid: "c".to_string(), device_id: 2 },
        device("d"),
    ];
    let kept: Vec<String> = usb_only(listed).into_iter().map(|d| d.udid).collect();
    assert_eq!(kept, vec!["a".to_string(), "d".to_string()]);
}

#[test]
fn listing_without_multiplexing_service_says_so() {
    let Step::Call(stage, call) = get_devices() else { panic!() };
    assert!(matches!(call, LinkCall::ConnectMux));
    let Step::Finish(Outcome::NoUsbmuxd(failure)) = stage.advance(failed()) else { panic!() };
    assert!(is_timeout(&failure));
}

#[test]
fn listing_that_fails_reports_the_failure() {
    let Step::Call(stage, call) = DevicesStage::Connecting.advance(LinkReply::Done) else {
        panic!()
    };
    assert!(matches!(call, LinkCall::ListDevices));
    let Step::Finish(Outcome::GetDevicesFailure(failure)) = stage.advance(failed()) else {
        panic!()
    };
    assert!(is_timeout(&failure));
}

#[test]
fn listing_of_no_devices_is_empty() {
    let Step::Finish(Outcome::Devices(found)) =
        DevicesStage::Listing.advance(LinkReply::Devices(Vec::new()))
    else {
        panic!()
    };
    assert!(found.is_empty());
}

fn answer_names(mut step: Step<DevicesStage, Outcome>, names: Vec<Option<Value>>) -> Outcome {
    let mut names = names.into_iter();
    loop {
        match step {
            Step::Finish(outcome) => return outcome,
            Step::Call(stage, LinkCall::OpenLockdown { .. }) => {
                step = match names.next().unwrap() {
                    Some(values) => {
                        let Step::Call(stage, LinkCall::ReadAllValues) = stage.advance(LinkReply::Done)
                        else {
                            panic!()
                        };
                        stage.advance(LinkReply::Value(values))
                    }
                    None => stage.advance(failed()),
                };
            }
            Step::Call(_, other) => panic!("{other:?}"),
        }
    }
}

fn values(name: &str) -> Option<Value> {
    Some(Value::Dictionary(vec![("DeviceName".to_string(), Value::Text(name.to_string()))]))
}

#[test]
fn listing_keys_devices_by_display_name_and_drops_the_silent() {
    let listed = vec![
        device("a"),
        Device { transport: Transport::Network(Address::V4(1)), udid: "n".to_string(), device_id: 1 },
        device("b"),
        device("c"),
        device("d"),
    ];
    let first = DevicesStage::Listing.advance(LinkReply::Devices(listed));
    let no_name = Some(Value::Dictionary(vec![("DeviceName".to_string(), Value::Unsigned(1))]));
    let outcome = answer_names(first, vec![values("Phone"), None, no_name, values("Pad")]);
    let Outcome::Devices(found) = outcome else { panic!() };
    assert_eq!(found.entries().len(), 2);
    assert_eq!(found.get(&"Phone".to_string()).unwrap().udid, "a");
    assert_eq!(found.get(&"Pad".to_string()).unwrap().udid, "d");
}

#[test]
fn later_device_of_the_same_name_replaces_the_earlier() {
    let first = DevicesStage::Listing.advance(LinkReply::Devices(vec![device("a"), device("b")]));
    let outcome = answer_names(first, vec![values("Phone"), values("Phone")]);
    let Outcome::Devices(found) = outcome else { panic!() };
    assert_eq!(found.entries().len(), 1);
    assert_eq!(found.get(&"Phone".to_string()).unwrap().udid, "b");
}

#[test]
fn device_whose_values_cannot_be_read_is_dropped() {
    let Step::Call(stage, _) = DevicesStage::Listing.advance(LinkReply::Devices(vec![device("a")]))
    else {
        panic!()
    };
    let Step::Call(stage, LinkCall::ReadAllValues) = stage.advance(LinkReply::Done) else { panic!() };
    let Step::Finish(Outcome::Devices(found)) = stage.advance(failed()) else { panic!() };
    assert!(found.is_empty());
}

#[test]
fn wireless_flow_sets_the_flag_in_a_session() {
    let Step::Call(stage, LinkCall::ConnectMux) = enable_wireless(device("u1")) else { panic!() };
    let Step::Call(stage, LinkCall::OpenLockdown { device }) = stage.advance(LinkReply::Done) else {
        panic!()
    };
    assert_eq!(device.udid, "u1");
    let Step::Call(stage, LinkCall::FetchPairRecord { udid }) = stage.advance(LinkReply::Done) else {
        panic!()
    };
    assert_eq!(udid, "u1");
    let Step::Call(stage, LinkCall::StartSession { credential: used }) =
        stage.advance(LinkReply::Credential(credential("m")))
    else {
        panic!()
    };
    assert_eq!(used.wifi_mac_address, "m");
    let Step::Call(stage, LinkCall::SetFlag { key, domain }) = stage.advance(LinkReply::Done) else {
        panic!()
    };
    assert_eq!(key, "EnableWifiDebugging");
    assert_eq!(domain, "com.apple.mobile.wireless_lockdown");
    assert!(matches!(stage.advance(LinkReply::Done), Step::Finish(Outcome::EnabledWireless)));
}

#[test]
fn wireless_flow_stops_at_the_first_failure() {
    let Step::Finish(Outcome::NoUsbmuxd(f)) =
        (WirelessStage::Connecting { device: device("u") }).advance(failed())
    else {
        panic!()
    };
    assert!(is_timeout(&f));
    for stage in [
        WirelessStage::Opening { udid: "u".to_string() },
        WirelessStage::Fetching,
        WirelessStage::Starting,
        WirelessStage::Setting,
    ] {
        let Step::Finish(Outcome::EnableWirelessFailure(f)) = stage.advance(failed()) else {
            panic!()
        };
        assert!(is_timeout(&f));
    }
    let Step::Finish(Outcome::EnableWirelessFailure(f)) =
        WirelessStage::Fetching.advance(LinkReply::Done)
    else {
        panic!()
    };
    assert!(matches!(f, Failure::UnexpectedResponse));
}

#[test]
fn developer_mode_reads_a_truth_value() {
    assert!(matches!(developer_mode(&Value::Boolean(true)), Ok(true)));
    assert!(matches!(developer_mode(&Value::Boolean(false)), Ok(false)));
    assert!(matches!(developer_mode(&Value::Unsigned(1)), Err(Failure::UnexpectedResponse)));
    assert!(matches!(
        developer_mode(&Value::Text("true".to_string())),
        Err(Failure::UnexpectedResponse)
    ));
}

#[test]
fn devmode_flow_reads_the_status_in_a_session() {
    let Step::Call(stage, LinkCall::ConnectMux) = check_dev_mode(device("u1")) else { panic!() };
    let Step::Call(stage, LinkCall::FetchPairRecord { udid }) = stage.advance(LinkReply::Done) else {
        panic!()
    };
    assert_eq!(udid, "u1");
    let Step::Call(stage, LinkCall::OpenLockdown { device }) =
        stage.advance(LinkReply::Credential(credential("m")))
    else {
        panic!()
    };
    assert_eq!(device.udid, "u1");
    let Step::Call(stage, LinkCall::StartSession { credential: used }) =
        stage.advance(LinkReply::Done)
    else {
        panic!()
    };
    assert_eq!(used.wifi_mac_address, "m");
    let Step::Call(stage, LinkCall::ReadValue { key, domain }) = stage.advance(LinkReply::Done)
    else {
        panic!()
    };
    assert_eq!(key, "DeveloperModeStatus");
    assert_eq!(domain, Some("com.apple.security.mac.amfi"));
    assert!(matches!(
        stage.advance(LinkReply::Value(Value::Boolean(true))),
        Step::Finish(Outcome::DevMode(Ok(true)))
    ));
}

#[test]
fn devmode_flow_tells_a_wrong_type_from_a_failed_call() {
    assert!(matches!(
        DevModeStage::Reading.advance(LinkReply::Value(Value::Unsigned(1))),
        Step::Finish(Outcome::DevMode(Err(Failure::UnexpectedResponse)))
    ));
    let Step::Finish(Outcome::DevMode(Err(f))) = DevModeStage::Reading.advance(failed()) else {
        panic!()
    };
    assert!(is_timeout(&f));
    let Step::Finish(Outcome::NoUsbmuxd(f)) =
        (DevModeStage::Connecting { device: device("u") }).advance(failed())
    else {
        panic!()
    };
    assert!(is_timeout(&f));
    let Step::Finish(Outcome::DevMode(Err(f))) =
        (DevModeStage::Fetching { device: device("u") }).advance(failed())
    else {
        panic!()
    };
    assert!(is_timeout(&f));
}

#[test]
fn mount_flow_mounts_for_the_chip_when_nothing_is_mounted() {
    let Step::Call(stage, LinkCall::OpenImageMounter { device: d }) = auto_mount(device("u1")) else {
        panic!()
    };
    assert_eq!(d.udid, "u1");
    let Step::Call(stage, LinkCall::ListImages) = stage.advance(LinkReply::Done) else { panic!() };
    let Step::Call(stage, LinkCall::OpenLockdown { device: d }) = stage.advance(LinkReply::Images(0))
    else {
        panic!()
    };
    assert_eq!(d.udid, "u1");
    let Step::Call(stage, LinkCall::ReadValue { key, domain }) = stage.advance(LinkReply::Done)
    else {
        panic!()
    };
    assert_eq!(key, "UniqueChipID");
    assert_eq!(domain, None);
    let Step::Call(stage, LinkCall::MountPersonalized { chip_id }) =
        stage.advance(LinkReply::Value(Value::Unsigned(0x1234_5678_9ABC)))
    else {
        panic!()
    };
    assert_eq!(chip_id, 0x1234_5678_9ABC);
    assert!(matches!(stage.advance(LinkReply::Done), Step::Finish(Ok(()))));
}

#[test]
fn auto_mount_twice_mounts_once() {
    let mut mounted = 0usize;
    let mut mounts = 0;
    for _ in 0..2 {
        let mut step = auto_mount(device("u1"));
        loop {
            step = match step {
                Step::Finish(ending) => {
                    assert!(ending.is_ok());
                    break;
                }
                Step::Call(stage, LinkCall::ListImages) => stage.advance(LinkReply::Images(mounted)),
                Step::Call(stage, LinkCall::ReadValue { .. }) => {
                    stage.advance(LinkReply::Value(Value::Unsigned(9)))
                }
                Step::Call(stage, LinkCall::MountPersonalized { .. }) => {
                    mounts += 1;
                    mounted = 1;
                    stage.advance(LinkReply::Done)
                }
                Step::Call(stage, _) => stage.advance(LinkReply::Done),
            };
        }
    }
    assert_eq!(mounts, 1);
}

#[test]
fn mount_flow_stops_at_the_first_failure() {
    for stage in [
        MountStage::Connecting { device: device("u") },
        MountStage::Listing { device: device("u") },
        MountStage::OpeningControl,
        MountStage::ReadingChip,
        MountStage::Mounting,
    ] {
        let Step::Finish(Err(f)) = stage.advance(failed()) else { panic!() };
        assert!(is_timeout(&f));
    }
    assert!(matches!(
        MountStage::ReadingChip.advance(LinkReply::Value(Value::Text("9".to_string()))),
        Step::Finish(Err(Failure::UnexpectedResponse))
    ));
}

#[test]
fn load_flow_hands_on_the_stored_record() {
    let Step::Call(stage, LinkCall::ConnectMux) = load_pairing_file(device("u1")) else { panic!() };
    let Step::Call(stage, LinkCall::FetchPairRecord { udid }) = stage.advance(LinkReply::Done) else {
        panic!()
    };
    assert_eq!(udid, "u1");
    let Step::Finish(Outcome::PairingFile(Ok(loaded))) =
        stage.advance(LinkReply::Credential(credential("m")))
    else {
        panic!()
    };
    assert_eq!(loaded.wifi_mac_address, "m");
    assert_eq!(loaded.udid, None);
}

#[test]
fn load_flow_reports_failures() {
    let Step::Finish(Outcome::NoUsbmuxd(f)) =
        (LoadStage::Connecting { udid: "u".to_string() }).advance(failed())
    else {
        panic!()
    };
    assert!(is_timeout(&f));
    let Step::Finish(Outcome::PairingFile(Err(f))) = LoadStage::Fetching.advance(failed()) else {
        panic!()
    };
    assert!(is_timeout(&f));
}

#[test]
fn generate_flow_pairs_under_flipped_buid_and_fills_in_the_udid() {
    let Step::Call(stage, LinkCall::ConnectMux) = generate_pairing_file(device("u1")) else {
        panic!()
    };
    let Step::Call(stage, LinkCall::OpenLockdown { device: d }) = stage.advance(LinkReply::Done)
    else {
        panic!()
    };
    assert_eq!(d.udid, "u1");
    let Step::Call(stage, LinkCall::FetchBuid) = stage.advance(LinkReply::Done) else { panic!() };
    let Step::Call(stage, LinkCall::Pair { host_id, system_buid }) =
        stage.advance(LinkReply::Text("F1234ABC".to_string()))
    else {
        panic!()
    };
    assert_eq!(system_buid, "A1234ABC");
    assert_eq!(host_id.len(), 36);
    assert_eq!(host_id, host_id.to_uppercase());
    let Step::Finish(Outcome::PairingFile(Ok(made))) =
        stage.advance(LinkReply::Credential(credential("m")))
    else {
        panic!()
    };
    assert_eq!(made.udid, Some("u1".to_string()));
    assert_eq!(made.wifi_mac_address, "m");
    assert_eq!(made.escrow_bag, Some(vec![6]));
}

#[test]
fn pairing_request_flips_a_into_f() {
    let Step::Call(GenerateStage::Pairing { udid }, LinkCall::Pair { host_id, system_buid }) =
        pairing_request("u".to_string(), "ID".to_string(), "A1234ABC")
    else {
        panic!()
    };
    assert_eq!(udid, "u");
    assert_eq!(host_id, "ID");
    assert_eq!(system_buid, "F1234ABC");
}

#[test]
fn empty_build_identifier_is_a_breach() {
    assert!(matches!(
        pairing_request("u".to_string(), "ID".to_string(), ""),
        Step::Finish(Outcome::PairingFile(Err(Failure::UnexpectedResponse)))
    ));
    assert!(matches!(
        (GenerateStage::Fetching { udid: "u".to_string() }).advance(LinkReply::Text(String::new())),
        Step::Finish(Outcome::PairingFile(Err(Failure::UnexpectedResponse)))
    ));
}

#[test]
fn generate_flow_reports_failures() {
    let Step::Finish(Outcome::NoUsbmuxd(f)) =
        (GenerateStage::Connecting { device: device("u") }).advance(failed())
    else {
        panic!()
    };
    assert!(is_timeout(&f));
    for stage in [
        GenerateStage::Opening { udid: "u".to_string() },
        GenerateStage::Fetching { udid: "u".to_string() },
        GenerateStage::Pairing { udid: "u".to_string() },
    ] {
        let Step::Finish(Outcome::PairingFile(Err(f))) = stage.advance(failed()) else { panic!() };
        assert!(is_timeout(&f));
    }
}

#[test]
fn resolve_prefers_the_address_given() {
    let mut presence = Presence::new();
    presence.insert("m".to_string(), Address::V4(1));
    assert!(matches!(
        resolve(Some(Address::V4(2)), &presence, &credential("m")),
        Ok(Address::V4(2))
    ));
    assert!(matches!(resolve(None, &presence, &credential("m")), Ok(Address::V4(1))));
    assert!(matches!(
        resolve(None, &presence, &credential("other")),
        Err(Failure::DeviceNotFound)
    ));
}

#[test]
fn validate_with_address_bypasses_what_was_seen() {
    let mut presence = Presence::new();
    presence.insert("m".to_string(), Address::V4(1));
    let Step::Call(stage, LinkCall::Dial { endpoint }) =
        validate(Some(Address::V4(2)), &presence, credential("m"))
    else {
        panic!()
    };
    assert_eq!(endpoint, Endpoint { address: Address::V4(2), port: 62078 });
    let Step::Call(stage, LinkCall::StartSession { credential: used }) =
        stage.advance(LinkReply::Done)
    else {
        panic!()
    };
    assert_eq!(used.wifi_mac_address, "m");
    assert!(matches!(stage.advance(LinkReply::Done), Step::Finish(Outcome::Validated(Ok(())))));
}

#[test]
fn validate_of_unseen_device_dials_nothing() {
    let mut presence = Presence::new();
    presence.insert("other".to_string(), Address::V4(1));
    assert!(matches!(
        validate(None, &presence, credential("m")),
        Step::Finish(Outcome::Validated(Err(Failure::DeviceNotFound)))
    ));
    assert!(matches!(
        validate(None, &Presence::new(), credential("m")),
        Step::Finish(Outcome::Validated(Err(Failure::DeviceNotFound)))
    ));
}

#[test]
fn validate_reports_a_socket_or_session_failure() {
    let Step::Finish(Outcome::Validated(Err(f))) =
        (ValidateStage::Dialing { credential: credential("m") }).advance(failed())
    else {
        panic!()
    };
    assert!(is_timeout(&f));
    let Step::Finish(Outcome::Validated(Err(f))) = ValidateStage::Starting.advance(failed()) else {
        panic!()
    };
    assert!(is_timeout(&f));
}

#[test]
fn supported_apps_have_a_place_for_the_pairing_file() {
    assert_eq!(
        supported_apps(),
        vec!["SideStore".to_string(), "Feather".to_string(), "StikDebug".to_string()]
    );
    assert_eq!(pairing_file_of("SideStore"), Some("ALTPairingFile.mobiledevicepairing"));
    assert_eq!(pairing_file_of("Feather"), Some("pairingFile.plist"));
    assert_eq!(pairing_file_of("StikDebug"), Some("pairingFile.plist"));
    assert_eq!(pairing_file_of("Safari"), None);
    assert_eq!(documents_path("pairingFile.plist"), "/Documents/pairingFile.plist");
    assert_eq!(documents_path(""), "/Documents/");
}

#[test]
fn select_apps_keeps_the_wanted_by_display_name() {
    let installed = vec![
        ("com.example.notes".to_string(), named("Notes")),
        ("com.sidestore".to_string(), named("SideStore")),
        ("com.example.game".to_string(), named("Game")),
        ("com.feather".to_string(), named("Feather")),
    ];
    let table = select_apps(&installed, &supported_apps()).unwrap();
    assert_eq!(
        table.entries(),
        &vec![
            ("SideStore".to_string(), "com.sidestore".to_string()),
            ("Feather".to_string(), "com.feather".to_string()),
        ]
    );
    assert!(wanted_has(&supported_apps(), &"StikDebug".to_string()));
    assert!(!wanted_has(&supported_apps(), &"Notes".to_string()));
}

#[test]
fn select_apps_lets_the_later_of_two_same_names_stand() {
    let installed = vec![
        ("one".to_string(), named("Feather")),
        ("two".to_string(), named("Feather")),
    ];
    let table = select_apps(&installed, &supported_apps()).unwrap();
    assert_eq!(table.entries(), &vec![("Feather".to_string(), "two".to_string())]);
}

#[test]
fn select_apps_refuses_a_list_with_a_nameless_application() {
    let installed = vec![
        ("com.sidestore".to_string(), named("SideStore")),
        ("com.example".to_string(), Value::Dictionary(Vec::new())),
    ];
    assert!(matches!(
        select_apps(&installed, &supported_apps()),
        Err(Failure::UnexpectedResponse)
    ));
    let not_text =
        vec![("x".to_string(), Value::Dictionary(vec![("CFBundleDisplayName".to_string(), Value::Unsigned(1))]))];
    assert!(matches!(select_apps(&not_text, &supported_apps()), Err(Failure::UnexpectedResponse)));
    let not_dictionary = vec![("x".to_string(), Value::Text("SideStore".to_string()))];
    assert!(matches!(
        select_apps(&not_dictionary, &supported_apps()),
        Err(Failure::UnexpectedResponse)
    ));
}

#[test]
fn apps_flow_lists_user_applications() {
    let Step::Call(stage, LinkCall::OpenInstallationProxy { device: d }) =
        installed_apps(device("u1"), supported_apps())
    else {
        panic!()
    };
    assert_eq!(d.udid, "u1");
    let Step::Call(stage, LinkCall::ListApplications { kind }) = stage.advance(LinkReply::Done)
    else {
        panic!()
    };
    assert_eq!(kind, "User");
    let installed = vec![
        ("com.example.notes".to_string(), named("Notes")),
        ("com.stik".to_string(), named("StikDebug")),
    ];
    let Step::Finish(Outcome::InstalledApps(Ok(table))) =
        stage.advance(LinkReply::Applications(installed))
    else {
        panic!()
    };
    assert_eq!(table.entries(), &vec![("StikDebug".to_string(), "com.stik".to_string())]);
}

#[test]
fn apps_flow_reports_failures() {
    let Step::Finish(Outcome::InstalledApps(Err(f))) =
        (AppsStage::Opening { wanted: supported_apps() }).advance(failed())
    else {
        panic!()
    };
    assert!(is_timeout(&f));
    let Step::Finish(Outcome::InstalledApps(Err(f))) =
        (AppsStage::Listing { wanted: supported_apps() }).advance(failed())
    else {
        panic!()
    };
    assert!(is_timeout(&f));
    let nameless = vec![("x".to_string(), Value::Other)];
    assert!(matches!(
        (AppsStage::Listing { wanted: supported_apps() }).advance(LinkReply::Applications(nameless)),
        Step::Finish(Outcome::InstalledApps(Err(Failure::UnexpectedResponse)))
    ));
}

#[test]
fn install_flow_writes_the_record_below_documents() {
    let Step::Call(stage, LinkCall::OpenHouseArrest { device: d }) = install_pairing_file(
        device("u1"),
        "SideStore".to_string(),
        "com.sidestore".to_string(),
        "ALTPairingFile.mobiledevicepairing".to_string(),
        credential("m"),
    ) else {
        panic!()
    };
    assert_eq!(d.udid, "u1");
    let Step::Call(stage, LinkCall::VendDocuments { bundle_id }) = stage.advance(LinkReply::Done)
    else {
        panic!()
    };
    assert_eq!(bundle_id, "com.sidestore");
    let Step::Call(stage, LinkCall::OpenForWriting { path }) = stage.advance(LinkReply::Done) else {
        panic!()
    };
    assert_eq!(path, "/Documents/ALTPairingFile.mobiledevicepairing");
    let Step::Call(stage, LinkCall::Write { bytes }) = stage.advance(LinkReply::Done) else {
        panic!()
    };
    assert_eq!(bytes, credential("m").serialize().unwrap());
    let Step::Finish(Outcome::InstallPairingFile(name, Ok(()))) = stage.advance(LinkReply::Done)
    else {
        panic!()
    };
    assert_eq!(name, "SideStore");
}

#[test]
fn install_flow_tags_every_failure_with_the_application() {
    let stages = vec![
        InstallStage::Opening {
            name: "Feather".to_string(),
            bundle_id: "b".to_string(),
            path: "p".to_string(),
            credential: credential("m"),
        },
        InstallStage::Vending {
            name: "Feather".to_string(),
            path: "p".to_string(),
            credential: credential("m"),
        },
        InstallStage::Creating { name: "Feather".to_string(), credential: credential("m") },
        InstallStage::Writing { name: "Feather".to_string() },
    ];
    for stage in stages {
        let Step::Finish(Outcome::InstallPairingFile(name, Err(f))) = stage.advance(failed()) else {
            panic!()
        };
        assert_eq!(name, "Feather");
        assert!(is_timeout(&f));
    }
}

#[test]
fn write_step_ends_the_installation_without_bytes() {
    let Step::Finish(Outcome::InstallPairingFile(name, Err(f))) =
        write_step("Feather".to_string(), Err(Failure::Link(IdeviceError::Timeout)))
    else {
        panic!()
    };
    assert_eq!(name, "Feather");
    assert!(is_timeout(&f));
    let Step::Call(InstallStage::Writing { name }, LinkCall::Write { bytes }) =
        write_step("Feather".to_string(), Ok(vec![1, 2]))
    else {
        panic!()
    };
    assert_eq!(name, "Feather");
    assert_eq!(bytes, vec![1, 2]);
}

#[test]
fn device_copy_is_the_same_device() {
    let network =
        Device { transport: Transport::Network(Address::V6(3)), udid: "n".to_string(), device_id: 9 };
    let copy = network.duplicate();
    assert_eq!(copy.udid, "n");
    assert_eq!(copy.device_id, 9);
    assert!(matches!(copy.transport, Transport::Network(Address::V6(3))));
    assert!(!copy.is_usb());
    assert!(device("a").duplicate().is_usb());
    assert!(matches!(
        Transport::Unknown("bt".to_string()).duplicate(),
        Transport::Unknown(name) if name == "bt"
    ));
}
