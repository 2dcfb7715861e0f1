use idevice::IdeviceError;
use idevice_pair::address::{Address, Endpoint};
use idevice_pair::credential::PairingCredential;
use idevice_pair::device::{Device, Transport};
use idevice_pair::failure::Failure;
use idevice_pair::intent::{Intent, IntentKind, Outcome};
use idevice_pair::link::{LinkCall, LinkReply, Step};
use idevice_pair::presence::Presence;
use idevice_pair::value::Value;
use idevice_pair::worker::{begin, Action, Stage, Worker};

fn phone() -> Device {
    Device { transport: Transport::Usb, udid: "u1".to_string(), device_id: 7 }
}

fn pairing(mac: &str) -> PairingCredential {
    PairingCredential {
        device_certificate: vec![1],
        host_private_key: vec![2],
        host_certificate: vec![3],
        root_private_key: vec![4],
        root_certificate: vec![5],
        system_buid: "BUID".to_string(),
        host_id: "HOST".to_string(),
        escrow_bag: None,
        wifi_mac_address: mac.to_string(),
        udid: None,
    }
}

/// Answers every call with a failure and collects the outcomes.
fn drain_failing(worker: &mut Worker) -> Vec<Outcome> {
    let mut outcomes = Vec::new();
    let mut action = worker.next();
    loop {
        action = match action {
            Action::Call(_) => worker.resume(LinkReply::Failed(IdeviceError::Timeout)),
            Action::Emit(outcome) => {
                outcomes.push(outcome);
                worker.next()
            }
            Action::Rest => return outcomes,
        };
    }
}

#[test]
fn new_worker_rests() {
    let mut worker = Worker::new();
    assert!(worker.is_idle());
    assert_eq!(worker.waiting(), 0);
    assert!(worker.seen().is_empty());
    assert!(matches!(worker.next(), Action::Rest));
    assert!(matches!(worker.resume(LinkReply::Done), Action::Rest));
    assert!(worker.is_idle());
}

#[test]
fn intent_kinds_and_their_answers() {
    assert_eq!(Intent::GetDevices.kind(), IntentKind::GetDevices);
    assert_eq!(Intent::AutoMount(phone()).kind(), IntentKind::AutoMount);
    assert_eq!(
        Intent::DiscoveredDevice(Address::V4(1), "m".to_string()).kind(),
        IntentKind::DiscoveredDevice
    );
    assert!(IntentKind::Validate.bears_outcome());
    assert!(!IntentKind::DiscoveredDevice.bears_outcome());
    let no_mux = Outcome::NoUsbmuxd(Failure::DeviceNotFound);
    assert!(no_mux.answers(IntentKind::GetDevices));
    assert!(no_mux.answers(IntentKind::GeneratePairingFile));
    assert!(!no_mux.answers(IntentKind::Validate));
    assert!(!no_mux.answers(IntentKind::AutoMount));
    assert!(Outcome::EnabledWireless.answers(IntentKind::EnableWireless));
    assert!(!Outcome::EnabledWireless.answers(IntentKind::CheckDevMode));
    assert!(Outcome::PairingFile(Err(Failure::DeviceNotFound)).answers(IntentKind::LoadPairingFile));
    assert!(Outcome::MountRes(Ok(())).answers(IntentKind::AutoMount));
}

#[test]
fn outcomes_come_in_the_order_of_submission() {
    let mut worker = Worker::new();
    let intents = vec![
        Intent::GetDevices,
        Intent::EnableWireless(phone()),
        Intent::DiscoveredDevice(Address::V4(1), "m".to_string()),
        Intent::CheckDevMode(phone()),
        Intent::AutoMount(phone()),
        Intent::LoadPairingFile(phone()),
        Intent::GeneratePairingFile(phone()),
        Intent::Validate(None, pairing("unseen")),
        Intent::InstalledApps(phone(), vec!["SideStore".to_string()]),
        Intent::InstallPairingFile {
            device: phone(),
            name: "SideStore".to_string(),
            bundle_id: "b".to_string(),
            path: "p".to_string(),
            credential: pairing("m"),
        },
        Intent::Validate(None, pairing("m")),
    ];
    let asked: Vec<IntentKind> =
        intents.iter().map(|i| i.kind()).filter(|k| k.bears_outcome()).collect();
    for intent in intents {
        worker.submit(intent);
    }
    assert_eq!(worker.waiting(), 11);
    let outcomes = drain_failing(&mut worker);
    assert_eq!(outcomes.len(), asked.len());
    for (outcome, kind) in outcomes.iter().zip(asked.iter()) {
        assert!(outcome.answers(*kind), "{outcome:?} for {kind:?}");
    }
    assert!(matches!(outcomes[0], Outcome::NoUsbmuxd(_)));
    assert!(matches!(outcomes[3], Outcome::MountRes(Err(_))));
    assert!(matches!(outcomes[6], Outcome::Validated(Err(Failure::DeviceNotFound))));
    assert!(matches!(outcomes[9], Outcome::Validated(Err(Failure::Link(_)))));
    assert!(worker.is_idle());
    assert_eq!(worker.waiting(), 0);
}

#[test]
fn worker_carries_out_one_intent_at_a_time() {
    let mut worker = Worker::new();
    worker.submit(Intent::LoadPairingFile(phone()));
    worker.submit(Intent::GetDevices);
    assert!(matches!(worker.next(), Action::Call(LinkCall::ConnectMux)));
    assert!(!worker.is_idle());
    assert_eq!(worker.waiting(), 1);
    assert!(matches!(worker.next(), Action::Rest));
    assert_eq!(worker.waiting(), 1);
    let Action::Call(LinkCall::FetchPairRecord { udid }) = worker.resume(LinkReply::Done) else {
        panic!()
    };
    assert_eq!(udid, "u1");
    let Action::Emit(Outcome::PairingFile(Ok(loaded))) =
        worker.resume(LinkReply::Credential(pairing("m")))
    else {
        panic!()
    };
    assert_eq!(loaded.wifi_mac_address, "m");
    assert!(worker.is_idle());
    assert!(matches!(worker.next(), Action::Call(LinkCall::ConnectMux)));
    assert_eq!(worker.waiting(), 0);
}

#[test]
fn discovery_gives_no_outcome_and_updates_what_was_seen() {
    let mut worker = Worker::new();
    worker.submit(Intent::DiscoveredDevice(Address::V4(1), "m".to_string()));
    assert!(worker.seen().is_empty());
    assert!(matches!(worker.next(), Action::Rest));
    assert_eq!(worker.seen().get(&"m".to_string()), Some(&Address::V4(1)));
    assert!(worker.is_idle());
    assert_eq!(worker.waiting(), 0);
}

#[test]
fn validate_resolves_to_the_latest_sighting() {
    let mut worker = Worker::new();
    worker.submit(Intent::DiscoveredDevice(Address::V4(1), "m".to_string()));
    worker.submit(Intent::Validate(None, pairing("m")));
    let Action::Call(LinkCall::Dial { endpoint }) = worker.next() else { panic!() };
    assert_eq!(endpoint, Endpoint { address: Address::V4(1), port: 62078 });
    assert!(matches!(worker.resume(LinkReply::Done), Action::Call(LinkCall::StartSession { .. })));
    assert!(matches!(worker.resume(LinkReply::Done), Action::Emit(Outcome::Validated(Ok(())))));

    worker.submit(Intent::DiscoveredDevice(Address::V4(2), "m".to_string()));
    worker.submit(Intent::DiscoveredDevice(Address::V6(9), "other".to_string()));
    worker.submit(Intent::Validate(None, pairing("m")));
    let Action::Call(LinkCall::Dial { endpoint }) = worker.next() else { panic!() };
    assert_eq!(endpoint, Endpoint { address: Address::V4(2), port: 62078 });
    assert_eq!(worker.seen().entries().len(), 2);
}

#[test]
fn validate_with_address_ignores_the_sighting() {
    let mut worker = Worker::new();
    worker.submit(Intent::DiscoveredDevice(Address::V4(1), "m".to_string()));
    worker.submit(Intent::Validate(Some(Address::V4(77)), pairing("m")));
    let Action::Call(LinkCall::Dial { endpoint }) = worker.next() else { panic!() };
    assert_eq!(endpoint, Endpoint { address: Address::V4(77), port: 62078 });
}

#[test]
fn validate_of_unseen_device_is_answered_without_a_call() {
    let mut worker = Worker::new();
    worker.submit(Intent::DiscoveredDevice(Address::V4(1), "other".to_string()));
    worker.submit(Intent::Validate(None, pairing("m")));
    worker.submit(Intent::GetDevices);
    assert!(matches!(
        worker.next(),
        Action::Emit(Outcome::Validated(Err(Failure::DeviceNotFound)))
    ));
    assert!(worker.is_idle());
    assert!(matches!(worker.next(), Action::Call(LinkCall::ConnectMux)));
}

#[test]
fn sighting_submitted_while_busy_waits_its_turn() {
    let mut worker = Worker::new();
    worker.submit(Intent::GetDevices);
    assert!(matches!(worker.next(), Action::Call(LinkCall::ConnectMux)));
    worker.submit(Intent::DiscoveredDevice(Address::V4(1), "m".to_string()));
    assert!(worker.seen().is_empty());
    assert!(matches!(
        worker.resume(LinkReply::Failed(IdeviceError::Timeout)),
        Action::Emit(Outcome::NoUsbmuxd(_))
    ));
    assert!(matches!(worker.next(), Action::Rest));
    assert_eq!(worker.seen().get(&"m".to_string()), Some(&Address::V4(1)));
}

#[test]
fn begin_starts_the_flow_of_each_kind() {
    let presence = Presence::new();
    assert!(matches!(
        begin(Intent::GetDevices, &presence),
        Some(Step::Call(Stage::Devices(_), LinkCall::ConnectMux))
    ));
    assert!(matches!(
        begin(Intent::EnableWireless(phone()), &presence),
        Some(Step::Call(Stage::Wireless(_), LinkCall::ConnectMux))
    ));
    assert!(matches!(
        begin(Intent::CheckDevMode(phone()), &presence),
        Some(Step::Call(Stage::DevMode(_), LinkCall::ConnectMux))
    ));
    assert!(matches!(
        begin(Intent::AutoMount(phone()), &presence),
        Some(Step::Call(Stage::Mount(_), LinkCall::OpenImageMounter { .. }))
    ));
    assert!(matches!(
        begin(Intent::LoadPairingFile(phone()), &presence),
        Some(Step::Call(Stage::Load(_), LinkCall::ConnectMux))
    ));
    assert!(matches!(
        begin(Intent::GeneratePairingFile(phone()), &presence),
        Some(Step::Call(Stage::Generate(_), LinkCall::ConnectMux))
    ));
    assert!(matches!(
        begin(Intent::InstalledApps(phone(), Vec::new()), &presence),
        Some(Step::Call(Stage::Apps(_), LinkCall::OpenInstallationProxy { .. }))
    ));
    assert!(begin(Intent::DiscoveredDevice(Address::V4(1), "m".to_string()), &presence).is_none());
}

#[test]
fn worker_mounts_through_the_mount_flow() {
    let mut worker = Worker::new();
    worker.submit(Intent::AutoMount(phone()));
    assert!(matches!(worker.next(), Action::Call(LinkCall::OpenImageMounter { .. })));
    assert!(matches!(worker.resume(LinkReply::Done), Action::Call(LinkCall::ListImages)));
    assert!(matches!(
        worker.resume(LinkReply::Images(1)),
        Action::Emit(Outcome::MountRes(Ok(())))
    ));
    worker.submit(Intent::AutoMount(phone()));
    assert!(matches!(worker.next(), Action::Call(LinkCall::OpenImageMounter { .. })));
    assert!(matches!(worker.resume(LinkReply::Done), Action::Call(LinkCall::ListImages)));
    assert!(matches!(worker.resume(LinkReply::Images(0)), Action::Call(LinkCall::OpenLockdown { .. })));
    assert!(matches!(worker.resume(LinkReply::Done), Action::Call(LinkCall::ReadValue { .. })));
    assert!(matches!(
        worker.resume(LinkReply::Value(Value::Unsigned(5))),
        Action::Call(LinkCall::MountPersonalized { chip_id: 5 })
    ));
    assert!(matches!(worker.resume(LinkReply::Done), Action::Emit(Outcome::MountRes(Ok(())))));
}

#[test]
fn outcome_reports_its_failure() {
    assert!(matches!(
        Outcome::NoUsbmuxd(Failure::DeviceNotFound).failure(),
        Some(Failure::DeviceNotFound)
    ));
    assert!(matches!(
        Outcome::InstallPairingFile("x".to_string(), Err(Failure::UnexpectedResponse)).failure(),
        Some(Failure::UnexpectedResponse)
    ));
    assert!(matches!(
        Outcome::DevMode(Err(Failure::Link(IdeviceError::Timeout))).failure(),
        Some(Failure::Link(IdeviceError::Timeout))
    ));
    assert!(Outcome::EnabledWireless.failure().is_none());
    assert!(Outcome::DevMode(Ok(false)).failure().is_none());
    assert!(Outcome::MountRes(Ok(())).failure().is_none());
    assert!(Outcome::InstallPairingFile("x".to_string(), Ok(())).failure().is_none());
}
