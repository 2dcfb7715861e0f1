//! Letting a device be reached without a cable.

use crate::device::Device;
use crate::intent::Outcome;
use crate::link::{
    failure_of, LinkCall, LinkReply, Step, WIRELESS_DOMAIN, WIRELESS_KEY,
};
use vstd::prelude::*;

verus! {

/// How far the flow has come: the call whose answer is awaited.
#[derive(Debug)]
pub enum WirelessStage {
    /// Connecting to the multiplexing service.
    Connecting { device: Device },
    /// Connecting to the control service of the device of this identifier.
    Opening { udid: String },
    /// Fetching the device's pairing record.
    Fetching,
    /// Starting a session under the record.
    Starting,
    /// Setting the flag.
    Setting,
}

pub type WirelessStep = Step<WirelessStage, Outcome>;

/// The first step for `device`: connect to the multiplexing service.
pub open spec fn wireless_begins(device: Device) -> WirelessStep {
    Step::Call(WirelessStage::Connecting { device }, LinkCall::ConnectMux)
}

/// The step that follows `stage` once its call is answered with `reply`.
///
/// The calls follow one another while each succeeds, and the flag is set in
/// a session under the pairing record that the host holds. The first call
/// that fails ends the flow with its error.
pub open spec fn wireless_next(stage: WirelessStage, reply: LinkReply) -> WirelessStep {
    match stage {
        WirelessStage::Connecting { device } => match reply {
            LinkReply::Done => Step::Call(
                WirelessStage::Opening { udid: device.udid },
                LinkCall::OpenLockdown { device },
            ),
            _ => Step::Finish(Outcome::NoUsbmuxd(failure_of(reply))),
        },
        WirelessStage::Opening { udid } => match reply {
            LinkReply::Done => Step::Call(WirelessStage::Fetching, LinkCall::FetchPairRecord { udid }),
            _ => Step::Finish(Outcome::EnableWirelessFailure(failure_of(reply))),
        },
        WirelessStage::Fetching => match reply {
            LinkReply::Credential(credential) => Step::Call(
                WirelessStage::Starting,
                LinkCall::StartSession { credential },
            ),
            _ => Step::Finish(Outcome::EnableWirelessFailure(failure_of(reply))),
        },
        WirelessStage::Starting => match reply {
            LinkReply::Done => Step::Call(
                WirelessStage::Setting,
                LinkCall::SetFlag { key: WIRELESS_KEY, domain: WIRELESS_DOMAIN },
            ),
            _ => Step::Finish(Outcome::EnableWirelessFailure(failure_of(reply))),
        },
        WirelessStage::Setting => match reply {
            LinkReply::Done => Step::Finish(Outcome::EnabledWireless),
            _ => Step::Finish(Outcome::EnableWirelessFailure(failure_of(reply))),
        },
    }
}

/// Begins the flow for `device`.
pub fn enable_wireless(device: Device) -> (out: WirelessStep)
    ensures
        out == wireless_begins(device),
{
    Step::Call(WirelessStage::Connecting { device }, LinkCall::ConnectMux)
}

impl WirelessStage {
    /// Takes the answer to the call of this stage and gives the next step.
    pub fn advance(self, reply: LinkReply) -> (out: WirelessStep)
        ensures
            out == wireless_next(self, reply),
    {
        match self {
            WirelessStage::Connecting { device } => match reply {
                LinkReply::Done => {
                    let udid = device.udid.clone();
                    Step::Call(WirelessStage::Opening { udid }, LinkCall::OpenLockdown { device })
                },
                other => Step::Finish(Outcome::NoUsbmuxd(failure_of(other))),
            },
            WirelessStage::Opening { udid } => match reply {
                LinkReply::Done => Step::Call(
                    WirelessStage::Fetching,
                    LinkCall::FetchPairRecord { udid },
                ),
                other => Step::Finish(Outcome::EnableWirelessFailure(failure_of(other))),
            },
            WirelessStage::Fetching => match reply {
                LinkReply::Credential(credential) => Step::Call(
                    WirelessStage::Starting,
                    LinkCall::StartSession { credential },
                ),
                other => Step::Finish(Outcome::EnableWirelessFailure(failure_of(other))),
            },
            WirelessStage::Starting => match reply {
                LinkReply::Done => Step::Call(
                    WirelessStage::Setting,
                    LinkCall::SetFlag { key: WIRELESS_KEY, domain: WIRELESS_DOMAIN },
                ),
                other => Step::Finish(Outcome::EnableWirelessFailure(failure_of(other))),
            },
            WirelessStage::Setting => match reply {
                LinkReply::Done => Step::Finish(Outcome::EnabledWireless),
                other => Step::Finish(Outcome::EnableWirelessFailure(failure_of(other))),
            },
        }
    }
}

/// The flow reports the flag as set only in answer to the call that sets
/// it.
pub proof fn wireless_is_enabled_by_the_last_call(stage: WirelessStage, reply: LinkReply)
    requires
        wireless_next(stage, reply) == WirelessStep::Finish(Outcome::EnabledWireless),
    ensures
        stage is Setting,
        reply is Done,
{
}

} // verus!
