//! Obtaining a pairing credential: the one the host holds, or a new one.

use crate::credential::{
    flip_first, fresh_session_id, is_session_id, try_flip_buid, PairingCredential,
};
use crate::device::Device;
use crate::failure::Failure;
use crate::intent::Outcome;
use crate::link::{failure_of, LinkCall, LinkReply, Step};
use vstd::prelude::*;

verus! {

/// How far loading has come: the call whose answer is awaited.
#[derive(Debug)]
pub enum LoadStage {
    /// Connecting to the multiplexing service.
    Connecting { udid: String },
    /// Fetching the pairing record.
    Fetching,
}

pub type LoadStep = Step<LoadStage, Outcome>;

/// The first step of loading the record of `device`.
pub open spec fn load_begins(device: Device) -> LoadStep {
    Step::Call(LoadStage::Connecting { udid: device.udid }, LinkCall::ConnectMux)
}

/// The step that follows `stage` once its call is answered with `reply`:
/// the record as the multiplexing service holds it, or the error of the call
/// that failed.
pub open spec fn load_next(stage: LoadStage, reply: LinkReply) -> LoadStep {
    match stage {
        LoadStage::Connecting { udid } => match reply {
            LinkReply::Done => Step::Call(LoadStage::Fetching, LinkCall::FetchPairRecord { udid }),
            _ => Step::Finish(Outcome::NoUsbmuxd(failure_of(reply))),
        },
        LoadStage::Fetching => match reply {
            LinkReply::Credential(credential) => Step::Finish(Outcome::PairingFile(Ok(credential))),
            _ => Step::Finish(Outcome::PairingFile(Err(failure_of(reply)))),
        },
    }
}

/// Begins loading the pairing record of `device`.
pub fn load_pairing_file(device: Device) -> (out: LoadStep)
    ensures
        out == load_begins(device),
{
    Step::Call(LoadStage::Connecting { udid: device.udid }, LinkCall::ConnectMux)
}

impl LoadStage {
    /// Takes the answer to the call of this stage and gives the next step.
    pub fn advance(self, reply: LinkReply) -> (out: LoadStep)
        ensures
            out == load_next(self, reply),
    {
        match self {
            LoadStage::Connecting { udid } => match reply {
                LinkReply::Done => Step::Call(
                    LoadStage::Fetching,
                    LinkCall::FetchPairRecord { udid },
                ),
                other => Step::Finish(Outcome::NoUsbmuxd(failure_of(other))),
            },
            LoadStage::Fetching => match reply {
                LinkReply::Credential(credential) => Step::Finish(
                    Outcome::PairingFile(Ok(credential)),
                ),
                other => Step::Finish(Outcome::PairingFile(Err(failure_of(other)))),
            },
        }
    }
}

/// How far pairing has come: the call whose answer is awaited.
#[derive(Debug)]
pub enum GenerateStage {
    /// Connecting to the multiplexing service.
    Connecting { device: Device },
    /// Connecting to the control service of the device of this identifier.
    Opening { udid: String },
    /// Fetching the host's build identifier.
    Fetching { udid: String },
    /// Running the handshake.
    Pairing { udid: String },
}

pub type GenerateStep = Step<GenerateStage, Outcome>;

/// The first step of pairing with `device`.
pub open spec fn generate_begins(device: Device) -> GenerateStep {
    Step::Call(GenerateStage::Connecting { device }, LinkCall::ConnectMux)
}

/// `out` asks for the handshake that follows the host's build identifier
/// `buid`, for the device `udid`: under a session identifier, and under
/// `buid` with its first character flipped. A build identifier without a
/// first character ends the flow as a breach of the protocol.
pub open spec fn asks_to_pair(out: GenerateStep, udid: String, buid: Seq<char>) -> bool {
    if buid.len() > 0 {
        &&& out matches Step::Call(
            GenerateStage::Pairing { udid: kept },
            LinkCall::Pair { host_id, system_buid },
        )
        &&& kept == udid
        &&& is_session_id(host_id@)
        &&& system_buid@ == flip_first(buid)
    } else {
        out == GenerateStep::Finish(Outcome::PairingFile(Err(Failure::UnexpectedResponse)))
    }
}

/// `out` is the step that follows `stage` once its call is answered with
/// `reply`.
///
/// The handshake runs under a fresh session identifier and under the host's
/// build identifier with its first character flipped. The credential that
/// it gives is handed on with the device's identifier filled in. The first
/// call that fails ends the flow with its error.
pub open spec fn generate_next(stage: GenerateStage, reply: LinkReply, out: GenerateStep) -> bool {
    match stage {
        GenerateStage::Connecting { device } => match reply {
            LinkReply::Done => out == GenerateStep::Call(
                GenerateStage::Opening { udid: device.udid },
                LinkCall::OpenLockdown { device },
            ),
            _ => out == GenerateStep::Finish(Outcome::NoUsbmuxd(failure_of(reply))),
        },
        GenerateStage::Opening { udid } => match reply {
            LinkReply::Done => out == GenerateStep::Call(
                GenerateStage::Fetching { udid },
                LinkCall::FetchBuid,
            ),
            _ => out == GenerateStep::Finish(Outcome::PairingFile(Err(failure_of(reply)))),
        },
        GenerateStage::Fetching { udid } => match reply {
            LinkReply::Text(buid) => asks_to_pair(out, udid, buid@),
            _ => out == GenerateStep::Finish(Outcome::PairingFile(Err(failure_of(reply)))),
        },
        GenerateStage::Pairing { udid } => match reply {
            LinkReply::Credential(credential) => out == GenerateStep::Finish(
                Outcome::PairingFile(Ok(PairingCredential { udid: Some(udid), ..credential })),
            ),
            _ => out == GenerateStep::Finish(Outcome::PairingFile(Err(failure_of(reply)))),
        },
    }
}

/// Begins pairing with `device`.
pub fn generate_pairing_file(device: Device) -> (out: GenerateStep)
    ensures
        out == generate_begins(device),
{
    Step::Call(GenerateStage::Connecting { device }, LinkCall::ConnectMux)
}

/// The handshake to ask for, for the device `udid`, under the session
/// identifier `host_id` and the host's build identifier `buid`.
pub fn pairing_request(udid: String, host_id: String, buid: &str) -> (out: GenerateStep)
    ensures
        is_session_id(host_id@) ==> asks_to_pair(out, udid, buid@),
        if buid@.len() > 0 {
            &&& out matches Step::Call(
                GenerateStage::Pairing { udid: kept },
                LinkCall::Pair { host_id: id, system_buid },
            )
            &&& kept == udid
            &&& id == host_id
            &&& system_buid@ == flip_first(buid@)
        } else {
            out == GenerateStep::Finish(Outcome::PairingFile(Err(Failure::UnexpectedResponse)))
        },
{
    match try_flip_buid(buid) {
        Some(system_buid) => Step::Call(
            GenerateStage::Pairing { udid },
            LinkCall::Pair { host_id, system_buid },
        ),
        None => Step::Finish(Outcome::PairingFile(Err(Failure::UnexpectedResponse))),
    }
}

impl GenerateStage {
    /// The identifier of the device that is paired with.
    pub open spec fn udid(self) -> String {
        match self {
            GenerateStage::Connecting { device } => device.udid,
            GenerateStage::Opening { udid } => udid,
            GenerateStage::Fetching { udid } => udid,
            GenerateStage::Pairing { udid } => udid,
        }
    }

    /// Takes the answer to the call of this stage and gives the next step.
    pub fn advance(self, reply: LinkReply) -> (out: GenerateStep)
        ensures
            generate_next(self, reply, out),
    {
        match self {
            GenerateStage::Connecting { device } => match reply {
                LinkReply::Done => {
                    let udid = device.udid.clone();
                    Step::Call(GenerateStage::Opening { udid }, LinkCall::OpenLockdown { device })
                },
                other => Step::Finish(Outcome::NoUsbmuxd(failure_of(other))),
            },
            GenerateStage::Opening { udid } => match reply {
                LinkReply::Done => Step::Call(GenerateStage::Fetching { udid }, LinkCall::FetchBuid),
                other => Step::Finish(Outcome::PairingFile(Err(failure_of(other)))),
            },
            GenerateStage::Fetching { udid } => match reply {
                LinkReply::Text(buid) => pairing_request(udid, fresh_session_id(), buid.as_str()),
                other => Step::Finish(Outcome::PairingFile(Err(failure_of(other)))),
            },
            GenerateStage::Pairing { udid } => match reply {
                LinkReply::Credential(credential) => Step::Finish(
                    Outcome::PairingFile(Ok(credential.with_udid(udid))),
                ),
                other => Step::Finish(Outcome::PairingFile(Err(failure_of(other)))),
            },
        }
    }
}

/// The build identifier of the handshake differs from the host's in its
/// first character, which is `A` where the host's is `F` and `F` otherwise,
/// and in nothing else.
pub proof fn handshake_flips_the_build_identifier(
    udid: String,
    buid: Seq<char>,
    out: GenerateStep,
    at: int,
)
    requires
        buid.len() > 0,
        asks_to_pair(out, udid, buid),
        1 <= at < buid.len(),
    ensures
        out matches Step::Call(_, LinkCall::Pair { system_buid, .. }) && system_buid@.len()
            == buid.len() && system_buid@[0] == (if buid[0] == 'F' {
            'A'
        } else {
            'F'
        }) && system_buid@[at] == buid[at],
{
}

/// A credential that the handshake gives is handed on with the device's
/// identifier in it and nothing else changed.
pub proof fn new_credential_names_the_device(
    udid: String,
    credential: PairingCredential,
    out: GenerateStep,
)
    requires
        generate_next(GenerateStage::Pairing { udid }, LinkReply::Credential(credential), out),
    ensures
        out matches Step::Finish(Outcome::PairingFile(Ok(made))) && made@.udid == Some(udid@)
            && made@.wifi_mac_address == credential@.wifi_mac_address && made@.host_id
            == credential@.host_id && made@.system_buid == credential@.system_buid
            && made@.device_certificate == credential@.device_certificate
            && made@.host_certificate == credential@.host_certificate && made@.root_certificate
            == credential@.root_certificate && made@.host_private_key
            == credential@.host_private_key && made@.root_private_key
            == credential@.root_private_key && made@.escrow_bag == credential@.escrow_bag,
{
}

} // verus!
