//! Listing the devices that are attached by cable, each under its display
//! name.

use crate::device::{attached_by_cable, usb_only, Device};
use crate::intent::Outcome;
use crate::link::{failure_of, LinkCall, LinkReply, Step, DEVICE_NAME_KEY};
use crate::table::NameTable;
use crate::value::Value;
use vstd::prelude::*;

verus! {

/// How far the listing has come: the call whose answer is awaited.
#[derive(Debug)]
pub enum DevicesStage {
    /// Connecting to the multiplexing service.
    Connecting,
    /// Listing the service's devices.
    Listing,
    /// Connecting to the control service of `current`. `rest` are the devices
    /// still to be asked, `found` those that gave their name.
    Opening { current: Device, rest: Vec<Device>, found: NameTable<Device> },
    /// Reading the values of `current`.
    Reading { current: Device, rest: Vec<Device>, found: NameTable<Device> },
}

pub type DevicesStep = Step<DevicesStage, Outcome>;

/// The display name among a device's values.
pub open spec fn device_name(values: Value) -> Option<Seq<char>> {
    values.text_entry(DEVICE_NAME_KEY@)
}

/// `out` turns to the first device of `rest`, or ends the listing with
/// `found` where none is left.
pub open spec fn probes(out: DevicesStep, rest: Seq<Device>, found: Map<Seq<char>, Device>) -> bool {
    if rest.len() > 0 {
        &&& out matches Step::Call(
            DevicesStage::Opening { current, rest: later, found: table },
            LinkCall::OpenLockdown { device },
        )
        &&& current == rest[0]
        &&& device == rest[0]
        &&& later@ == rest.drop_first()
        &&& table@ == found
    } else {
        out matches Step::Finish(Outcome::Devices(table)) && table@ == found
    }
}

/// The first step of the listing: connect to the multiplexing service.
pub open spec fn devices_begin() -> DevicesStep {
    Step::Call(DevicesStage::Connecting, LinkCall::ConnectMux)
}

/// `out` is the step that follows `stage` once its call is answered with
/// `reply`.
///
/// Without the multiplexing service, or without its list, the listing fails.
/// Of the listed devices those attached by cable are asked for their values,
/// one after the other. A device that cannot be asked, or has no display
/// name, is passed over; each other stands under its display name, in place
/// of an earlier device of the same name.
pub open spec fn devices_next(stage: DevicesStage, reply: LinkReply, out: DevicesStep) -> bool {
    match stage {
        DevicesStage::Connecting => match reply {
            LinkReply::Done => out == DevicesStep::Call(DevicesStage::Listing, LinkCall::ListDevices),
            _ => out == DevicesStep::Finish(Outcome::NoUsbmuxd(failure_of(reply))),
        },
        DevicesStage::Listing => match reply {
            LinkReply::Devices(listed) => probes(
                out,
                attached_by_cable(listed@),
                Map::<Seq<char>, Device>::empty(),
            ),
            _ => out == DevicesStep::Finish(Outcome::GetDevicesFailure(failure_of(reply))),
        },
        DevicesStage::Opening { current, rest, found } => match reply {
            LinkReply::Done => out == DevicesStep::Call(
                DevicesStage::Reading { current, rest, found },
                LinkCall::ReadAllValues,
            ),
            _ => probes(out, rest@, found@),
        },
        DevicesStage::Reading { current, rest, found } => match reply {
            LinkReply::Value(values) => match device_name(values) {
                Some(name) => probes(out, rest@, found@.insert(name, current)),
                None => probes(out, rest@, found@),
            },
            _ => probes(out, rest@, found@),
        },
    }
}

/// Begins listing the devices.
pub fn get_devices() -> (out: DevicesStep)
    ensures
        out == devices_begin(),
{
    Step::Call(DevicesStage::Connecting, LinkCall::ConnectMux)
}

/// Turns to the first device of `rest`, or ends the listing.
fn probe(rest: Vec<Device>, found: NameTable<Device>) -> (out: DevicesStep)
    ensures
        probes(out, rest@, found@),
{
    let mut rest = rest;
    if rest.len() > 0 {
        let current = rest.remove(0);
        let device = current.duplicate();
        Step::Call(DevicesStage::Opening { current, rest, found }, LinkCall::OpenLockdown { device })
    } else {
        Step::Finish(Outcome::Devices(found))
    }
}

impl DevicesStage {
    /// Takes the answer to the call of this stage and gives the next step.
    pub fn advance(self, reply: LinkReply) -> (out: DevicesStep)
        ensures
            devices_next(self, reply, out),
    {
        match self {
            DevicesStage::Connecting => match reply {
                LinkReply::Done => Step::Call(DevicesStage::Listing, LinkCall::ListDevices),
                other => Step::Finish(Outcome::NoUsbmuxd(failure_of(other))),
            },
            DevicesStage::Listing => match reply {
                LinkReply::Devices(listed) => probe(usb_only(listed), NameTable::new()),
                other => Step::Finish(Outcome::GetDevicesFailure(failure_of(other))),
            },
            DevicesStage::Opening { current, rest, found } => match reply {
                LinkReply::Done => Step::Call(
                    DevicesStage::Reading { current, rest, found },
                    LinkCall::ReadAllValues,
                ),
                _ => probe(rest, found),
            },
            DevicesStage::Reading { current, rest, found } => match reply {
                LinkReply::Value(values) => match values.get_text(DEVICE_NAME_KEY) {
                    Some(name) => {
                        let mut found = found;
                        found.insert(name.clone(), current);
                        probe(rest, found)
                    },
                    None => probe(rest, found),
                },
                _ => probe(rest, found),
            },
        }
    }
}

/// Every device that the listing turns to is attached by cable, when those
/// that are left to ask are.
pub proof fn listing_asks_only_cabled(stage: DevicesStage, reply: LinkReply, out: DevicesStep)
    requires
        devices_next(stage, reply, out),
        stage matches DevicesStage::Opening { current, rest, .. } ==> forall|i: int|
            0 <= i < rest.len() ==> (#[trigger] rest[i]).transport is Usb,
        stage matches DevicesStage::Reading { current, rest, .. } ==> forall|i: int|
            0 <= i < rest.len() ==> (#[trigger] rest[i]).transport is Usb,
    ensures
        out matches Step::Call(DevicesStage::Opening { current, rest, .. }, _)
            ==> current.transport is Usb && forall|i: int|
            0 <= i < rest.len() ==> (#[trigger] rest[i]).transport is Usb,
{
    match stage {
        DevicesStage::Listing => {
            if let LinkReply::Devices(listed) = reply {
                let cabled = attached_by_cable(listed@);
                listed@.filter_lemma(|d: Device| d.transport is Usb);
                if let Step::Call(DevicesStage::Opening { current, rest, .. }, _) = out {
                    assert(cabled.contains(cabled[0]));
                    assert forall|i: int| 0 <= i < rest.len() implies (
                    #[trigger] rest[i]).transport is Usb by {
                        assert(rest[i] == cabled[i + 1]);
                        assert(cabled.contains(cabled[i + 1]));
                    }
                }
            }
        },
        DevicesStage::Opening { current, rest, found } => {
            if let Step::Call(DevicesStage::Opening { current: c2, rest: r2, .. }, _) = out {
                assert(c2 == rest[0]);
                assert forall|i: int| 0 <= i < r2.len() implies (#[trigger] r2[i]).transport is Usb by {
                    assert(r2[i] == rest[i + 1]);
                }
            }
        },
        DevicesStage::Reading { current, rest, found } => {
            if let Step::Call(DevicesStage::Opening { current: c2, rest: r2, .. }, _) = out {
                assert(c2 == rest[0]);
                assert forall|i: int| 0 <= i < r2.len() implies (#[trigger] r2[i]).transport is Usb by {
                    assert(r2[i] == rest[i + 1]);
                }
            }
        },
        _ => {},
    }
}

} // verus!
