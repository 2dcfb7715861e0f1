//! Checking that a credential opens a session with its device over the
//! network.

use crate::address::{Address, Endpoint, CONTROL_PORT};
use crate::credential::PairingCredential;
use crate::failure::Failure;
use crate::intent::Outcome;
use crate::link::{failure_of, LinkCall, LinkReply, Step};
use crate::presence::{resolve, resolved, Presence};
use vstd::prelude::*;

verus! {

/// How far the check has come: the call whose answer is awaited.
#[derive(Debug)]
pub enum ValidateStage {
    /// Opening a socket to the device.
    Dialing { credential: PairingCredential },
    /// Starting a session under the credential.
    Starting,
}

pub type ValidateStep = Step<ValidateStage, Outcome>;

/// The first step of the check: dial the control port at the address given,
/// or else at the one last seen for the credential's hardware identifier.
/// Where there is neither the check ends at once, the device not found, and
/// nothing is dialled.
pub open spec fn validate_begins(
    explicit: Option<Address>,
    presence: Map<Seq<char>, Address>,
    credential: PairingCredential,
) -> ValidateStep {
    match resolved(explicit, presence, credential.wifi_mac_address@) {
        Some(address) => Step::Call(
            ValidateStage::Dialing { credential },
            LinkCall::Dial { endpoint: Endpoint { address, port: CONTROL_PORT } },
        ),
        None => Step::Finish(Outcome::Validated(Err(Failure::DeviceNotFound))),
    }
}

/// The step that follows `stage` once its call is answered with `reply`:
/// the credential is good when the session starts, and the error of the call
/// that failed says why it is not.
pub open spec fn validate_next(stage: ValidateStage, reply: LinkReply) -> ValidateStep {
    match stage {
        ValidateStage::Dialing { credential } => match reply {
            LinkReply::Done => Step::Call(
                ValidateStage::Starting,
                LinkCall::StartSession { credential },
            ),
            _ => Step::Finish(Outcome::Validated(Err(failure_of(reply)))),
        },
        ValidateStage::Starting => match reply {
            LinkReply::Done => Step::Finish(Outcome::Validated(Ok(()))),
            _ => Step::Finish(Outcome::Validated(Err(failure_of(reply)))),
        },
    }
}

/// Begins checking `credential`.
pub fn validate(explicit: Option<Address>, presence: &Presence, credential: PairingCredential) -> (out:
    ValidateStep)
    ensures
        out == validate_begins(explicit, presence@, credential),
{
    match resolve(explicit, presence, &credential) {
        Ok(address) => Step::Call(
            ValidateStage::Dialing { credential },
            LinkCall::Dial { endpoint: address.control_endpoint() },
        ),
        Err(failure) => Step::Finish(Outcome::Validated(Err(failure))),
    }
}

impl ValidateStage {
    /// Takes the answer to the call of this stage and gives the next step.
    pub fn advance(self, reply: LinkReply) -> (out: ValidateStep)
        ensures
            out == validate_next(self, reply),
    {
        match self {
            ValidateStage::Dialing { credential } => match reply {
                LinkReply::Done => Step::Call(
                    ValidateStage::Starting,
                    LinkCall::StartSession { credential },
                ),
                other => Step::Finish(Outcome::Validated(Err(failure_of(other)))),
            },
            ValidateStage::Starting => match reply {
                LinkReply::Done => Step::Finish(Outcome::Validated(Ok(()))),
                other => Step::Finish(Outcome::Validated(Err(failure_of(other)))),
            },
        }
    }
}

/// With an address given, the check dials that address on the control port,
/// whatever was seen on the network, even for the credential's own hardware
/// identifier.
pub proof fn check_dials_the_address_given(
    address: Address,
    presence: Map<Seq<char>, Address>,
    credential: PairingCredential,
)
    ensures
        validate_begins(Some(address), presence, credential) == ValidateStep::Call(
            ValidateStage::Dialing { credential },
            LinkCall::Dial { endpoint: Endpoint { address, port: 62078 } },
        ),
{
}

/// With no address given and none seen for the credential's hardware
/// identifier, the check fails with the device not found and asks for no
/// call.
pub proof fn check_of_unseen_device_dials_nothing(
    presence: Map<Seq<char>, Address>,
    credential: PairingCredential,
)
    requires
        !presence.contains_key(credential.wifi_mac_address@),
    ensures
        validate_begins(None, presence, credential) == ValidateStep::Finish(
            Outcome::Validated(Err(Failure::DeviceNotFound)),
        ),
{
}

/// With no address given, the check dials the address of the latest
/// sighting of the credential's hardware identifier.
pub proof fn check_dials_the_latest_sighting(
    presence: Map<Seq<char>, Address>,
    credential: PairingCredential,
    earlier: Address,
    later: Address,
)
    ensures
        validate_begins(
            None,
            presence.insert(credential.wifi_mac_address@, earlier),
            credential,
        ) == ValidateStep::Call(
            ValidateStage::Dialing { credential },
            LinkCall::Dial { endpoint: Endpoint { address: earlier, port: CONTROL_PORT } },
        ),
        validate_begins(
            None,
            presence.insert(credential.wifi_mac_address@, earlier).insert(
                credential.wifi_mac_address@,
                later,
            ),
            credential,
        ) == ValidateStep::Call(
            ValidateStage::Dialing { credential },
            LinkCall::Dial { endpoint: Endpoint { address: later, port: CONTROL_PORT } },
        ),
{
}

} // verus!
