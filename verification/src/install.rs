//! Writing a credential into the documents of an application.

use crate::apps::{documents_path, DOCUMENTS};
use crate::credential::{record_bytes, PairingCredential};
use crate::device::Device;
use crate::failure::Failure;
use crate::intent::Outcome;
use crate::link::{failure_of, LinkCall, LinkReply, Step};
use vstd::prelude::*;

verus! {

/// How far the installation has come: the call whose answer is awaited.
/// `name` is the display name of the application.
#[derive(Debug)]
pub enum InstallStage {
    /// Connecting to the service that opens containers.
    Opening { name: String, bundle_id: String, path: String, credential: PairingCredential },
    /// Opening the application's documents.
    Vending { name: String, path: String, credential: PairingCredential },
    /// Opening the file.
    Creating { name: String, credential: PairingCredential },
    /// Writing the file.
    Writing { name: String },
}

pub type InstallStep = Step<InstallStage, Outcome>;

/// The first step: connect to the service that opens containers.
pub open spec fn install_begins(
    device: Device,
    name: String,
    bundle_id: String,
    path: String,
    credential: PairingCredential,
) -> InstallStep {
    Step::Call(
        InstallStage::Opening { name, bundle_id, path, credential },
        LinkCall::OpenHouseArrest { device },
    )
}

/// `out` asks to write `encoded` to the open file, or ends the installation
/// for the application `name` where there are no bytes to write.
pub open spec fn writes(out: InstallStep, name: String, encoded: Result<Vec<u8>, Failure>) -> bool {
    match encoded {
        Ok(bytes) => out == InstallStep::Call(
            InstallStage::Writing { name },
            LinkCall::Write { bytes },
        ),
        Err(failure) => out == InstallStep::Finish(Outcome::InstallPairingFile(name, Err(failure))),
    }
}

/// `out` is the step that follows `stage` once its call is answered with
/// `reply`.
///
/// The file is opened at its path below the application's documents, and the
/// credential is written to it as the bytes of its record. Every ending
/// carries the application's display name; the first call that fails ends
/// the installation with its error, and so does a credential that has no
/// record.
pub open spec fn install_next(stage: InstallStage, reply: LinkReply, out: InstallStep) -> bool {
    match stage {
        InstallStage::Opening { name, bundle_id, path, credential } => match reply {
            LinkReply::Done => out == InstallStep::Call(
                InstallStage::Vending { name, path, credential },
                LinkCall::VendDocuments { bundle_id },
            ),
            _ => out == InstallStep::Finish(
                Outcome::InstallPairingFile(name, Err(failure_of(reply))),
            ),
        },
        InstallStage::Vending { name, path, credential } => match reply {
            LinkReply::Done => {
                &&& out matches Step::Call(
                    InstallStage::Creating { name: kept, credential: carried },
                    LinkCall::OpenForWriting { path: full },
                )
                &&& kept == name
                &&& carried == credential
                &&& full@ == DOCUMENTS@ + path@
            },
            _ => out == InstallStep::Finish(
                Outcome::InstallPairingFile(name, Err(failure_of(reply))),
            ),
        },
        InstallStage::Creating { name, credential } => match reply {
            LinkReply::Done => match record_bytes(credential@) {
                Some(record) => {
                    &&& out matches Step::Call(
                        InstallStage::Writing { name: kept },
                        LinkCall::Write { bytes },
                    )
                    &&& kept == name
                    &&& bytes@ == record
                },
                None => {
                    &&& out matches Step::Finish(Outcome::InstallPairingFile(kept, Err(failure)))
                    &&& kept == name
                    &&& failure is Link
                },
            },
            _ => out == InstallStep::Finish(
                Outcome::InstallPairingFile(name, Err(failure_of(reply))),
            ),
        },
        InstallStage::Writing { name } => match reply {
            LinkReply::Done => out == InstallStep::Finish(Outcome::InstallPairingFile(name, Ok(()))),
            _ => out == InstallStep::Finish(
                Outcome::InstallPairingFile(name, Err(failure_of(reply))),
            ),
        },
    }
}

/// Begins installing `credential` into the application `name`.
pub fn install_pairing_file(
    device: Device,
    name: String,
    bundle_id: String,
    path: String,
    credential: PairingCredential,
) -> (out: InstallStep)
    ensures
        out == install_begins(device, name, bundle_id, path, credential),
{
    Step::Call(
        InstallStage::Opening { name, bundle_id, path, credential },
        LinkCall::OpenHouseArrest { device },
    )
}

/// The step that follows the opening of the file, given the bytes of the
/// credential's record or the reason why there are none.
pub fn write_step(name: String, encoded: Result<Vec<u8>, Failure>) -> (out: InstallStep)
    ensures
        writes(out, name, encoded),
{
    match encoded {
        Ok(bytes) => Step::Call(InstallStage::Writing { name }, LinkCall::Write { bytes }),
        Err(failure) => Step::Finish(Outcome::InstallPairingFile(name, Err(failure))),
    }
}

impl InstallStage {
    /// The display name of the application that is installed into.
    pub open spec fn application(self) -> String {
        match self {
            InstallStage::Opening { name, .. } => name,
            InstallStage::Vending { name, .. } => name,
            InstallStage::Creating { name, .. } => name,
            InstallStage::Writing { name } => name,
        }
    }

    /// Takes the answer to the call of this stage and gives the next step.
    pub fn advance(self, reply: LinkReply) -> (out: InstallStep)
        ensures
            install_next(self, reply, out),
    {
        match self {
            InstallStage::Opening { name, bundle_id, path, credential } => match reply {
                LinkReply::Done => Step::Call(
                    InstallStage::Vending { name, path, credential },
                    LinkCall::VendDocuments { bundle_id },
                ),
                other => Step::Finish(Outcome::InstallPairingFile(name, Err(failure_of(other)))),
            },
            InstallStage::Vending { name, path, credential } => match reply {
                LinkReply::Done => Step::Call(
                    InstallStage::Creating { name, credential },
                    LinkCall::OpenForWriting { path: documents_path(path.as_str()) },
                ),
                other => Step::Finish(Outcome::InstallPairingFile(name, Err(failure_of(other)))),
            },
            InstallStage::Creating { name, credential } => match reply {
                LinkReply::Done => write_step(name, credential.serialize()),
                other => Step::Finish(Outcome::InstallPairingFile(name, Err(failure_of(other)))),
            },
            InstallStage::Writing { name } => match reply {
                LinkReply::Done => Step::Finish(Outcome::InstallPairingFile(name, Ok(()))),
                other => Step::Finish(Outcome::InstallPairingFile(name, Err(failure_of(other)))),
            },
        }
    }
}

/// The installation stays with its application: every step that follows
/// is for the same one, and every ending carries its display name.
pub proof fn installation_keeps_its_application(
    stage: InstallStage,
    reply: LinkReply,
    out: InstallStep,
)
    requires
        install_next(stage, reply, out),
    ensures
        match out {
            Step::Call(next, _) => next.application() == stage.application(),
            Step::Finish(outcome) => outcome matches Outcome::InstallPairingFile(name, _) && name
                == stage.application(),
        },
{
}

} // verus!
