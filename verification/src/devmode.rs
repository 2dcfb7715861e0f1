//! Asking a device whether it is in developer mode.

use crate::credential::PairingCredential;
use crate::device::Device;
use crate::failure::Failure;
use crate::intent::Outcome;
use crate::link::{
    failure_of, LinkCall, LinkReply, Step, DEVELOPER_MODE_DOMAIN,
    DEVELOPER_MODE_KEY,
};
use crate::value::Value;
use vstd::prelude::*;

verus! {

/// How far the flow has come: the call whose answer is awaited.
#[derive(Debug)]
pub enum DevModeStage {
    /// Connecting to the multiplexing service.
    Connecting { device: Device },
    /// Fetching the device's pairing record.
    Fetching { device: Device },
    /// Connecting to the device's control service.
    Opening { credential: PairingCredential },
    /// Starting a session under the record.
    Starting,
    /// Reading the status.
    Reading,
}

pub type DevModeStep = Step<DevModeStage, Outcome>;

/// What a status value says: developer mode on or off, where the value is a
/// truth value, and else that the device did not keep to the protocol.
pub open spec fn status_of(value: Value) -> Result<bool, Failure> {
    match value.boolean() {
        Some(enabled) => Ok(enabled),
        None => Err(Failure::UnexpectedResponse),
    }
}

/// What a status value says.
pub fn developer_mode(value: &Value) -> (out: Result<bool, Failure>)
    ensures
        out == status_of(*value),
{
    match value.as_boolean() {
        Some(enabled) => Ok(enabled),
        None => Err(Failure::UnexpectedResponse),
    }
}

/// The first step for `device`: connect to the multiplexing service.
pub open spec fn devmode_begins(device: Device) -> DevModeStep {
    Step::Call(DevModeStage::Connecting { device }, LinkCall::ConnectMux)
}

/// The step that follows `stage` once its call is answered with `reply`.
///
/// The status is read in a session under the pairing record that the host
/// holds. The first call that fails ends the flow with its error, and a
/// status that is no truth value ends it as a breach of the protocol.
pub open spec fn devmode_next(stage: DevModeStage, reply: LinkReply) -> DevModeStep {
    match stage {
        DevModeStage::Connecting { device } => match reply {
            LinkReply::Done => Step::Call(
                DevModeStage::Fetching { device },
                LinkCall::FetchPairRecord { udid: device.udid },
            ),
            _ => Step::Finish(Outcome::NoUsbmuxd(failure_of(reply))),
        },
        DevModeStage::Fetching { device } => match reply {
            LinkReply::Credential(credential) => Step::Call(
                DevModeStage::Opening { credential },
                LinkCall::OpenLockdown { device },
            ),
            _ => Step::Finish(Outcome::DevMode(Err(failure_of(reply)))),
        },
        DevModeStage::Opening { credential } => match reply {
            LinkReply::Done => Step::Call(
                DevModeStage::Starting,
                LinkCall::StartSession { credential },
            ),
            _ => Step::Finish(Outcome::DevMode(Err(failure_of(reply)))),
        },
        DevModeStage::Starting => match reply {
            LinkReply::Done => Step::Call(
                DevModeStage::Reading,
                LinkCall::ReadValue { key: DEVELOPER_MODE_KEY, domain: Some(DEVELOPER_MODE_DOMAIN) },
            ),
            _ => Step::Finish(Outcome::DevMode(Err(failure_of(reply)))),
        },
        DevModeStage::Reading => match reply {
            LinkReply::Value(value) => Step::Finish(Outcome::DevMode(status_of(value))),
            _ => Step::Finish(Outcome::DevMode(Err(failure_of(reply)))),
        },
    }
}

/// Begins the flow for `device`.
pub fn check_dev_mode(device: Device) -> (out: DevModeStep)
    ensures
        out == devmode_begins(device),
{
    Step::Call(DevModeStage::Connecting { device }, LinkCall::ConnectMux)
}

impl DevModeStage {
    /// Takes the answer to the call of this stage and gives the next step.
    pub fn advance(self, reply: LinkReply) -> (out: DevModeStep)
        ensures
            out == devmode_next(self, reply),
    {
        match self {
            DevModeStage::Connecting { device } => match reply {
                LinkReply::Done => {
                    let udid = device.udid.clone();
                    Step::Call(
                        DevModeStage::Fetching { device },
                        LinkCall::FetchPairRecord { udid },
                    )
                },
                other => Step::Finish(Outcome::NoUsbmuxd(failure_of(other))),
            },
            DevModeStage::Fetching { device } => match reply {
                LinkReply::Credential(credential) => Step::Call(
                    DevModeStage::Opening { credential },
                    LinkCall::OpenLockdown { device },
                ),
                other => Step::Finish(Outcome::DevMode(Err(failure_of(other)))),
            },
            DevModeStage::Opening { credential } => match reply {
                LinkReply::Done => Step::Call(
                    DevModeStage::Starting,
                    LinkCall::StartSession { credential },
                ),
                other => Step::Finish(Outcome::DevMode(Err(failure_of(other)))),
            },
            DevModeStage::Starting => match reply {
                LinkReply::Done => Step::Call(
                    DevModeStage::Reading,
                    LinkCall::ReadValue {
                        key: DEVELOPER_MODE_KEY,
                        domain: Some(DEVELOPER_MODE_DOMAIN),
                    },
                ),
                other => Step::Finish(Outcome::DevMode(Err(failure_of(other)))),
            },
            DevModeStage::Reading => match reply {
                LinkReply::Value(value) => Step::Finish(Outcome::DevMode(developer_mode(&value))),
                other => Step::Finish(Outcome::DevMode(Err(failure_of(other)))),
            },
        }
    }
}

/// A status of another type than a truth value is a breach of the protocol,
/// told apart from a call that failed.
pub proof fn status_of_wrong_type_is_a_breach(value: Value, error: idevice::IdeviceError)
    requires
        value.boolean().is_none(),
    ensures
        devmode_next(DevModeStage::Reading, LinkReply::Value(value)) == DevModeStep::Finish(
            Outcome::DevMode(Err(Failure::UnexpectedResponse)),
        ),
        devmode_next(DevModeStage::Reading, LinkReply::Failed(error)) == DevModeStep::Finish(
            Outcome::DevMode(Err(Failure::Link(error))),
        ),
{
}

} // verus!
