//! Mounting the developer disk image on a device that has none mounted.

use crate::device::Device;
use crate::failure::Failure;
use crate::link::{failure_of, LinkCall, LinkReply, Step, CHIP_ID_KEY};
use vstd::prelude::*;

verus! {

/// How far the mounting of the disk image has come: the call whose answer
/// is awaited.
#[derive(Debug)]
pub enum MountStage {
    /// Connecting to the device's image mounter.
    Connecting { device: Device },
    /// Listing the images that are mounted.
    Listing { device: Device },
    /// Connecting to the device's control service.
    OpeningControl,
    /// Reading the chip identifier.
    ReadingChip,
    /// Mounting the image.
    Mounting,
}

/// A step of the flow, which ends in success or in the failure of one of
/// its calls.
pub type MountStep = Step<MountStage, Result<(), Failure>>;

/// The first step of the flow for `device`: connect to its image mounter.
pub open spec fn mount_begins(device: Device) -> MountStep {
    Step::Call(MountStage::Connecting { device }, LinkCall::OpenImageMounter { device })
}

/// The step that follows `stage` once its call is answered with `reply`.
///
/// A device that reports a mounted image is done, with no further call.
/// Otherwise the chip identifier is read and the image mounted for it. A
/// call that fails ends the flow with its error, and so does an answer of
/// the wrong shape.
pub open spec fn mount_next(stage: MountStage, reply: LinkReply) -> MountStep {
    match stage {
        MountStage::Connecting { device } => match reply {
            LinkReply::Done => Step::Call(MountStage::Listing { device }, LinkCall::ListImages),
            _ => Step::Finish(Err(failure_of(reply))),
        },
        MountStage::Listing { device } => match reply {
            LinkReply::Images(count) => if count > 0 {
                Step::Finish(Ok(()))
            } else {
                Step::Call(MountStage::OpeningControl, LinkCall::OpenLockdown { device })
            },
            _ => Step::Finish(Err(failure_of(reply))),
        },
        MountStage::OpeningControl => match reply {
            LinkReply::Done => Step::Call(
                MountStage::ReadingChip,
                LinkCall::ReadValue { key: CHIP_ID_KEY, domain: None },
            ),
            _ => Step::Finish(Err(failure_of(reply))),
        },
        MountStage::ReadingChip => match reply {
            LinkReply::Value(value) => match value.unsigned() {
                Some(chip_id) => Step::Call(
                    MountStage::Mounting,
                    LinkCall::MountPersonalized { chip_id },
                ),
                None => Step::Finish(Err(Failure::UnexpectedResponse)),
            },
            _ => Step::Finish(Err(failure_of(reply))),
        },
        MountStage::Mounting => match reply {
            LinkReply::Done => Step::Finish(Ok(())),
            _ => Step::Finish(Err(failure_of(reply))),
        },
    }
}

/// Begins mounting the developer disk image on `device`.
pub fn auto_mount(device: Device) -> (out: MountStep)
    ensures
        out == mount_begins(device),
{
    let copy = device.duplicate();
    Step::Call(MountStage::Connecting { device }, LinkCall::OpenImageMounter { device: copy })
}

impl MountStage {
    /// Takes the answer to the call of this stage and gives the next step.
    pub fn advance(self, reply: LinkReply) -> (out: MountStep)
        ensures
            out == mount_next(self, reply),
    {
        match self {
            MountStage::Connecting { device } => match reply {
                LinkReply::Done => Step::Call(
                    MountStage::Listing { device },
                    LinkCall::ListImages,
                ),
                other => Step::Finish(Err(failure_of(other))),
            },
            MountStage::Listing { device } => match reply {
                LinkReply::Images(count) => if count > 0 {
                    Step::Finish(Ok(()))
                } else {
                    Step::Call(MountStage::OpeningControl, LinkCall::OpenLockdown { device })
                },
                other => Step::Finish(Err(failure_of(other))),
            },
            MountStage::OpeningControl => match reply {
                LinkReply::Done => Step::Call(
                    MountStage::ReadingChip,
                    LinkCall::ReadValue { key: CHIP_ID_KEY, domain: None },
                ),
                other => Step::Finish(Err(failure_of(other))),
            },
            MountStage::ReadingChip => match reply {
                LinkReply::Value(value) => match value.as_unsigned() {
                    Some(chip_id) => Step::Call(
                        MountStage::Mounting,
                        LinkCall::MountPersonalized { chip_id },
                    ),
                    None => Step::Finish(Err(Failure::UnexpectedResponse)),
                },
                other => Step::Finish(Err(failure_of(other))),
            },
            MountStage::Mounting => match reply {
                LinkReply::Done => Step::Finish(Ok(())),
                other => Step::Finish(Err(failure_of(other))),
            },
        }
    }
}

/// On a device that reports an image as mounted the flow makes two calls,
/// to connect and to list, and ends in success: it never mounts again. No
/// step that follows a listing is a mount.
pub proof fn mounted_image_is_not_mounted_again(device: Device, count: usize)
    requires
        count > 0,
    ensures
        mount_begins(device) == MountStep::Call(
            MountStage::Connecting { device },
            LinkCall::OpenImageMounter { device },
        ),
        mount_next(MountStage::Connecting { device }, LinkReply::Done) == MountStep::Call(
            MountStage::Listing { device },
            LinkCall::ListImages,
        ),
        mount_next(MountStage::Listing { device }, LinkReply::Images(count)) == MountStep::Finish(
            Ok(()),
        ),
        forall|reply: LinkReply|
            !(#[trigger] mount_next(MountStage::Listing { device }, reply) matches MountStep::Call(
                _,
                LinkCall::MountPersonalized { .. },
            )),
{
}

/// The image is mounted only in answer to a chip identifier, and for that
/// chip.
pub proof fn mount_follows_chip_identifier(stage: MountStage, reply: LinkReply, chip_id: u64)
    requires
        mount_next(stage, reply) matches MountStep::Call(_, LinkCall::MountPersonalized { chip_id: c })
            && c == chip_id,
    ensures
        stage is ReadingChip,
        reply matches LinkReply::Value(value) && value.unsigned() == Some(chip_id),
{
}

/// A call that fails ends the flow at once with the link's error.
pub proof fn failed_call_ends_mounting(stage: MountStage, error: idevice::IdeviceError)
    ensures
        mount_next(stage, LinkReply::Failed(error)) == MountStep::Finish(Err(Failure::Link(error))),
{
}

} // verus!
