//! The worker: it takes the intents in the order in which they come, carries
//! out one at a time through calls on the device link, and answers each with
//! one outcome.

use crate::address::Address;
use crate::apps::{apps_begin, apps_next, installed_apps, AppsStage, AppsStep};
use crate::devices::{devices_begin, devices_next, get_devices, DevicesStage, DevicesStep};
use crate::devmode::{check_dev_mode, devmode_begins, devmode_next, DevModeStage, DevModeStep};
use crate::install::{
    install_begins, install_next, install_pairing_file, InstallStage, InstallStep,
};
use crate::intent::{Intent, IntentKind, Outcome};
use crate::link::{LinkCall, LinkReply, Step};
use crate::mount::{auto_mount, mount_begins, mount_next, MountStage, MountStep};
use crate::pairing::{
    generate_begins, generate_next, generate_pairing_file, load_begins, load_next,
    load_pairing_file, GenerateStage, GenerateStep, LoadStage, LoadStep,
};
use crate::presence::Presence;
use crate::validate::{validate, validate_begins, validate_next, ValidateStage, ValidateStep};
use crate::wireless::{
    enable_wireless, wireless_begins, wireless_next, WirelessStage, WirelessStep,
};
use std::collections::VecDeque;
use vstd::prelude::*;

verus! {

/// What the worker remembers of the intent it is carrying out, while it
/// waits for the answer to a call.
#[derive(Debug)]
pub enum Stage {
    Devices(DevicesStage),
    Wireless(WirelessStage),
    DevMode(DevModeStage),
    Mount(MountStage),
    Load(LoadStage),
    Generate(GenerateStage),
    Validate(ValidateStage),
    Apps(AppsStage),
    Install(InstallStage),
}

/// A step of the worker on one intent: a call to make, or the outcome.
pub type Progress = Step<Stage, Outcome>;

/// What the worker asks of its caller.
#[derive(Debug)]
pub enum Action {
    /// Make this call on the device link and hand its answer to `resume`.
    Call(LinkCall),
    /// Send this outcome to the interactive layer, then ask `next`.
    Emit(Outcome),
    /// Nothing to do until an intent is submitted, or, while a call is
    /// outstanding, until its answer is handed in.
    Rest,
}

impl Stage {
    /// The kind of intent that is being carried out at this stage.
    pub open spec fn kind(self) -> IntentKind {
        match self {
            Stage::Devices(_) => IntentKind::GetDevices,
            Stage::Wireless(_) => IntentKind::EnableWireless,
            Stage::DevMode(_) => IntentKind::CheckDevMode,
            Stage::Mount(_) => IntentKind::AutoMount,
            Stage::Load(_) => IntentKind::LoadPairingFile,
            Stage::Generate(_) => IntentKind::GeneratePairingFile,
            Stage::Validate(_) => IntentKind::Validate,
            Stage::Apps(_) => IntentKind::InstalledApps,
            Stage::Install(_) => IntentKind::InstallPairingFile,
        }
    }

    /// This stage is one of carrying out `intent`: of its kind, for the
    /// application that it is to install into, and for the device that it is
    /// to pair with.
    pub open spec fn serves(self, intent: Intent) -> bool {
        &&& self.kind() == intent.kind()
        &&& match (self, intent) {
            (Stage::Install(stage), Intent::InstallPairingFile { name, .. }) => stage.application()
                == name,
            (Stage::Generate(stage), Intent::GeneratePairingFile(device)) => stage.udid()
                == device.udid,
            _ => true,
        }
    }
}

/// The step `out`, as a step of the listing of devices.
pub open spec fn devices_part(out: Progress) -> Option<DevicesStep> {
    match out {
        Step::Call(Stage::Devices(stage), call) => Some(Step::Call(stage, call)),
        Step::Call(_, _) => None,
        Step::Finish(outcome) => Some(Step::Finish(outcome)),
    }
}

pub open spec fn wireless_part(out: Progress) -> Option<WirelessStep> {
    match out {
        Step::Call(Stage::Wireless(stage), call) => Some(Step::Call(stage, call)),
        Step::Call(_, _) => None,
        Step::Finish(outcome) => Some(Step::Finish(outcome)),
    }
}

pub open spec fn devmode_part(out: Progress) -> Option<DevModeStep> {
    match out {
        Step::Call(Stage::DevMode(stage), call) => Some(Step::Call(stage, call)),
        Step::Call(_, _) => None,
        Step::Finish(outcome) => Some(Step::Finish(outcome)),
    }
}

/// The step `out`, as a step of the mounting of the disk image, whose
/// ending the worker reports unchanged.
pub open spec fn mount_part(out: Progress) -> Option<MountStep> {
    match out {
        Step::Call(Stage::Mount(stage), call) => Some(Step::Call(stage, call)),
        Step::Call(_, _) => None,
        Step::Finish(Outcome::MountRes(ending)) => Some(Step::Finish(ending)),
        Step::Finish(_) => None,
    }
}

pub open spec fn load_part(out: Progress) -> Option<LoadStep> {
    match out {
        Step::Call(Stage::Load(stage), call) => Some(Step::Call(stage, call)),
        Step::Call(_, _) => None,
        Step::Finish(outcome) => Some(Step::Finish(outcome)),
    }
}

pub open spec fn generate_part(out: Progress) -> Option<GenerateStep> {
    match out {
        Step::Call(Stage::Generate(stage), call) => Some(Step::Call(stage, call)),
        Step::Call(_, _) => None,
        Step::Finish(outcome) => Some(Step::Finish(outcome)),
    }
}

pub open spec fn validate_part(out: Progress) -> Option<ValidateStep> {
    match out {
        Step::Call(Stage::Validate(stage), call) => Some(Step::Call(stage, call)),
        Step::Call(_, _) => None,
        Step::Finish(outcome) => Some(Step::Finish(outcome)),
    }
}

pub open spec fn apps_part(out: Progress) -> Option<AppsStep> {
    match out {
        Step::Call(Stage::Apps(stage), call) => Some(Step::Call(stage, call)),
        Step::Call(_, _) => None,
        Step::Finish(outcome) => Some(Step::Finish(outcome)),
    }
}

pub open spec fn install_part(out: Progress) -> Option<InstallStep> {
    match out {
        Step::Call(Stage::Install(stage), call) => Some(Step::Call(stage, call)),
        Step::Call(_, _) => None,
        Step::Finish(outcome) => Some(Step::Finish(outcome)),
    }
}

/// `out` is the first step on `intent`, for a worker that has seen the
/// devices of `presence` on the network: the first step of the flow that
/// carries out intents of its kind. No step is the first on a discovery.
pub open spec fn begins(presence: Map<Seq<char>, Address>, intent: Intent, out: Progress) -> bool {
    match intent {
        Intent::GetDevices => devices_part(out) == Some(devices_begin()),
        Intent::EnableWireless(device) => wireless_part(out) == Some(wireless_begins(device)),
        Intent::CheckDevMode(device) => devmode_part(out) == Some(devmode_begins(device)),
        Intent::AutoMount(device) => mount_part(out) == Some(mount_begins(device)),
        Intent::LoadPairingFile(device) => load_part(out) == Some(load_begins(device)),
        Intent::GeneratePairingFile(device) => generate_part(out) == Some(generate_begins(device)),
        Intent::Validate(explicit, credential) => validate_part(out) == Some(
            validate_begins(explicit, presence, credential),
        ),
        Intent::InstalledApps(device, wanted) => apps_part(out) == Some(apps_begin(device, wanted)),
        Intent::InstallPairingFile { device, name, bundle_id, path, credential } => install_part(out)
            == Some(install_begins(device, name, bundle_id, path, credential)),
        Intent::DiscoveredDevice(_, _) => false,
    }
}

/// `out` is the step that follows `stage` once its call is answered with
/// `reply`: the next step of the flow that the stage belongs to.
pub open spec fn follows(stage: Stage, reply: LinkReply, out: Progress) -> bool {
    match stage {
        Stage::Devices(stage) => devices_part(out) matches Some(step) && devices_next(
            stage,
            reply,
            step,
        ),
        Stage::Wireless(stage) => wireless_part(out) == Some(wireless_next(stage, reply)),
        Stage::DevMode(stage) => devmode_part(out) == Some(devmode_next(stage, reply)),
        Stage::Mount(stage) => mount_part(out) == Some(mount_next(stage, reply)),
        Stage::Load(stage) => load_part(out) == Some(load_next(stage, reply)),
        Stage::Generate(stage) => generate_part(out) matches Some(step) && generate_next(
            stage,
            reply,
            step,
        ),
        Stage::Validate(stage) => validate_part(out) == Some(validate_next(stage, reply)),
        Stage::Apps(stage) => apps_part(out) matches Some(step) && apps_next(stage, reply, step),
        Stage::Install(stage) => install_part(out) matches Some(step) && install_next(
            stage,
            reply,
            step,
        ),
    }
}

/// The first step on an intent serves that intent: a call is made for it,
/// and an outcome is an answer to it.
pub proof fn first_step_serves_the_intent(
    presence: Map<Seq<char>, Address>,
    intent: Intent,
    out: Progress,
)
    requires
        begins(presence, intent, out),
    ensures
        intent.kind().bears_outcome(),
        match out {
            Step::Call(stage, _) => stage.serves(intent),
            Step::Finish(outcome) => outcome.settles(intent),
        },
{
}

/// Every later step serves the same intent: the worker stays with an intent
/// until its one outcome, which is an answer to it.
pub proof fn next_step_serves_the_intent(
    stage: Stage,
    reply: LinkReply,
    out: Progress,
    intent: Intent,
)
    requires
        follows(stage, reply, out),
        stage.serves(intent),
    ensures
        match out {
            Step::Call(next, _) => next.serves(intent),
            Step::Finish(outcome) => outcome.settles(intent),
        },
{
}

/// A call that fails ends the intent in hand at once, with an outcome that
/// reports the link's error: nothing is tried again and no error is lost.
/// The one exception is the listing of devices, which passes over a device
/// that cannot be asked for its name.
pub proof fn failed_call_ends_the_intent(stage: Stage, error: idevice::IdeviceError, out: Progress)
    requires
        follows(stage, LinkReply::Failed(error), out),
        !(stage matches Stage::Devices(DevicesStage::Opening { .. })),
        !(stage matches Stage::Devices(DevicesStage::Reading { .. })),
    ensures
        out matches Step::Finish(outcome) && outcome.reported() == Some(
            crate::failure::Failure::Link(error),
        ),
{
}

/// The first step on `intent`.
pub fn begin(intent: Intent, presence: &Presence) -> (out: Option<Progress>)
    ensures
        match out {
            Some(step) => begins(presence@, intent, step),
            None => intent is DiscoveredDevice,
        },
{
    match intent {
        Intent::GetDevices => Some(
            match get_devices() {
                Step::Call(stage, call) => Step::Call(Stage::Devices(stage), call),
                Step::Finish(outcome) => Step::Finish(outcome),
            },
        ),
        Intent::EnableWireless(device) => Some(
            match enable_wireless(device) {
                Step::Call(stage, call) => Step::Call(Stage::Wireless(stage), call),
                Step::Finish(outcome) => Step::Finish(outcome),
            },
        ),
        Intent::CheckDevMode(device) => Some(
            match check_dev_mode(device) {
                Step::Call(stage, call) => Step::Call(Stage::DevMode(stage), call),
                Step::Finish(outcome) => Step::Finish(outcome),
            },
        ),
        Intent::AutoMount(device) => Some(
            match auto_mount(device) {
                Step::Call(stage, call) => Step::Call(Stage::Mount(stage), call),
                Step::Finish(ending) => Step::Finish(Outcome::MountRes(ending)),
            },
        ),
        Intent::LoadPairingFile(device) => Some(
            match load_pairing_file(device) {
                Step::Call(stage, call) => Step::Call(Stage::Load(stage), call),
                Step::Finish(outcome) => Step::Finish(outcome),
            },
        ),
        Intent::GeneratePairingFile(device) => Some(
            match generate_pairing_file(device) {
                Step::Call(stage, call) => Step::Call(Stage::Generate(stage), call),
                Step::Finish(outcome) => Step::Finish(outcome),
            },
        ),
        Intent::Validate(explicit, credential) => Some(
            match validate(explicit, presence, credential) {
                Step::Call(stage, call) => Step::Call(Stage::Validate(stage), call),
                Step::Finish(outcome) => Step::Finish(outcome),
            },
        ),
        Intent::InstalledApps(device, wanted) => Some(
            match installed_apps(device, wanted) {
                Step::Call(stage, call) => Step::Call(Stage::Apps(stage), call),
                Step::Finish(outcome) => Step::Finish(outcome),
            },
        ),
        Intent::InstallPairingFile { device, name, bundle_id, path, credential } => Some(
            match install_pairing_file(device, name, bundle_id, path, credential) {
                Step::Call(stage, call) => Step::Call(Stage::Install(stage), call),
                Step::Finish(outcome) => Step::Finish(outcome),
            },
        ),
        Intent::DiscoveredDevice(_, _) => None,
    }
}

impl Stage {
    /// Takes the answer to the call of this stage and gives the next step.
    pub fn advance(self, reply: LinkReply) -> (out: Progress)
        ensures
            follows(self, reply, out),
    {
        match self {
            Stage::Devices(stage) => match stage.advance(reply) {
                Step::Call(stage, call) => Step::Call(Stage::Devices(stage), call),
                Step::Finish(outcome) => Step::Finish(outcome),
            },
            Stage::Wireless(stage) => match stage.advance(reply) {
                Step::Call(stage, call) => Step::Call(Stage::Wireless(stage), call),
                Step::Finish(outcome) => Step::Finish(outcome),
            },
            Stage::DevMode(stage) => match stage.advance(reply) {
                Step::Call(stage, call) => Step::Call(Stage::DevMode(stage), call),
                Step::Finish(outcome) => Step::Finish(outcome),
            },
            Stage::Mount(stage) => match stage.advance(reply) {
                Step::Call(stage, call) => Step::Call(Stage::Mount(stage), call),
                Step::Finish(ending) => Step::Finish(Outcome::MountRes(ending)),
            },
            Stage::Load(stage) => match stage.advance(reply) {
                Step::Call(stage, call) => Step::Call(Stage::Load(stage), call),
                Step::Finish(outcome) => Step::Finish(outcome),
            },
            Stage::Generate(stage) => match stage.advance(reply) {
                Step::Call(stage, call) => Step::Call(Stage::Generate(stage), call),
                Step::Finish(outcome) => Step::Finish(outcome),
            },
            Stage::Validate(stage) => match stage.advance(reply) {
                Step::Call(stage, call) => Step::Call(Stage::Validate(stage), call),
                Step::Finish(outcome) => Step::Finish(outcome),
            },
            Stage::Apps(stage) => match stage.advance(reply) {
                Step::Call(stage, call) => Step::Call(Stage::Apps(stage), call),
                Step::Finish(outcome) => Step::Finish(outcome),
            },
            Stage::Install(stage) => match stage.advance(reply) {
                Step::Call(stage, call) => Step::Call(Stage::Install(stage), call),
                Step::Finish(outcome) => Step::Finish(outcome),
            },
        }
    }
}

/// The intents of `inbox` that are answered with an outcome, in the order
/// of the inbox.
pub open spec fn bearing(inbox: Seq<Intent>) -> Seq<Intent>
    decreases inbox.len(),
{
    if inbox.len() == 0 {
        Seq::empty()
    } else if inbox[0].kind().bears_outcome() {
        seq![inbox[0]] + bearing(inbox.drop_first())
    } else {
        bearing(inbox.drop_first())
    }
}

/// An intent that joins the inbox at its end joins those that are answered
/// at theirs.
pub proof fn bearing_push(inbox: Seq<Intent>, intent: Intent)
    ensures
        bearing(inbox.push(intent)) == if intent.kind().bears_outcome() {
            bearing(inbox).push(intent)
        } else {
            bearing(inbox)
        },
    decreases inbox.len(),
{
    let longer = inbox.push(intent);
    if inbox.len() == 0 {
        assert(longer.drop_first() =~= Seq::<Intent>::empty());
        assert(bearing(longer.drop_first()) =~= Seq::<Intent>::empty());
        if intent.kind().bears_outcome() {
            assert(seq![intent] + Seq::<Intent>::empty() =~= Seq::<Intent>::empty().push(intent));
        }
    } else {
        bearing_push(inbox.drop_first(), intent);
        assert(longer.drop_first() =~= inbox.drop_first().push(intent));
        assert(longer[0] == inbox[0]);
        if inbox[0].kind().bears_outcome() && intent.kind().bears_outcome() {
            assert(seq![inbox[0]] + bearing(inbox.drop_first()).push(intent) =~= (seq![inbox[0]]
                + bearing(inbox.drop_first())).push(intent));
        }
    }
}

/// What the worker knows of the network, and what is left of its inbox,
/// once the discoveries at the head of the inbox are taken in: each puts
/// its address under its hardware identifier, in place of an earlier one.
pub open spec fn settled(presence: Map<Seq<char>, Address>, inbox: Seq<Intent>) -> (
    Map<Seq<char>, Address>,
    Seq<Intent>,
)
    decreases inbox.len(),
{
    if inbox.len() == 0 {
        (presence, inbox)
    } else {
        match inbox[0] {
            Intent::DiscoveredDevice(address, identifier) => settled(
                presence.insert(identifier@, address),
                inbox.drop_first(),
            ),
            _ => (presence, inbox),
        }
    }
}

/// The step that the worker took, from what it asked of its caller and
/// what it remembers afterwards.
pub open spec fn taken(action: Action, after: Option<Stage>) -> Option<Progress> {
    match (action, after) {
        (Action::Call(call), Some(stage)) => Some(Step::Call(stage, call)),
        (Action::Emit(outcome), None) => Some(Step::Finish(outcome)),
        _ => None,
    }
}

/// Outcomes come in the order in which their intents were submitted. Of the
/// intents `asked` so far, `before` were answered before the action and
/// `after` are answered after it: an outcome is an answer to the first
/// intent that was not answered yet, and nothing else changes the count.
pub open spec fn answers_in_turn(
    asked: Seq<Intent>,
    before: nat,
    after: nat,
    action: Action,
) -> bool {
    match action {
        Action::Emit(outcome) => {
            &&& before < asked.len()
            &&& outcome.settles(asked[before as int])
            &&& after == before + 1
        },
        _ => after == before,
    }
}

/// The intents that were submitted and not answered are the one in hand,
/// which the stage serves, and those of the inbox, in that order.
pub open spec fn in_step(
    stage: Option<Stage>,
    inbox: Seq<Intent>,
    asked: Seq<Intent>,
    answered: nat,
) -> bool {
    match stage {
        Some(stage) => {
            &&& answered < asked.len()
            &&& stage.serves(asked[answered as int])
            &&& asked.skip(answered as int + 1) == bearing(inbox)
        },
        None => answered <= asked.len() && asked.skip(answered as int) == bearing(inbox),
    }
}

/// The worker. It owns the inbox of intents and what was seen of devices on
/// the network, and carries out one intent at a time.
pub struct Worker {
    presence: Presence,
    inbox: VecDeque<Intent>,
    stage: Option<Stage>,
    asked: Ghost<Seq<Intent>>,
    answered: Ghost<nat>,
}

impl Worker {
    #[verifier::type_invariant]
    spec fn well_formed(&self) -> bool {
        in_step(self.stage, self.inbox@, self.asked@, self.answered@)
    }

    /// The last address seen for each hardware identifier.
    pub closed spec fn presence(&self) -> Map<Seq<char>, Address> {
        self.presence@
    }

    /// The intents that wait to be carried out, the next one first.
    pub closed spec fn inbox(&self) -> Seq<Intent> {
        self.inbox@
    }

    /// What is remembered of the intent in hand; `None` between two intents.
    pub closed spec fn stage(&self) -> Option<Stage> {
        self.stage
    }

    /// The intents submitted so far that are answered with an outcome, in
    /// the order of their submission.
    pub closed spec fn asked(&self) -> Seq<Intent> {
        self.asked@
    }

    /// The number of outcomes given so far.
    pub closed spec fn answered(&self) -> nat {
        self.answered@
    }

    /// A worker with nothing to do and nothing seen.
    pub fn new() -> (out: Worker)
        ensures
            out.presence() == Map::<Seq<char>, Address>::empty(),
            out.inbox() == Seq::<Intent>::empty(),
            out.stage().is_none(),
            out.asked() == Seq::<Intent>::empty(),
            out.answered() == 0,
    {
        let inbox: VecDeque<Intent> = VecDeque::new();
        assert(Seq::<Intent>::empty().skip(0) =~= bearing(inbox@));
        Worker {
            presence: Presence::new(),
            inbox,
            stage: None,
            asked: Ghost(Seq::empty()),
            answered: Ghost(0),
        }
    }

    /// What was seen of devices on the network.
    pub fn seen(&self) -> (out: &Presence)
        ensures
            out@ == self.presence(),
    {
        &self.presence
    }

    /// Whether no intent is in hand.
    pub fn is_idle(&self) -> (out: bool)
        ensures
            out == self.stage().is_none(),
    {
        self.stage.is_none()
    }

    /// The number of intents that wait in the inbox.
    pub fn waiting(&self) -> (out: usize)
        ensures
            out == self.inbox().len(),
    {
        self.inbox.len()
    }

    /// Puts `intent` at the end of the inbox.
    pub fn submit(&mut self, intent: Intent)
        ensures
            final(self).inbox() == old(self).inbox().push(intent),
            final(self).presence() == old(self).presence(),
            final(self).stage() == old(self).stage(),
            final(self).answered() == old(self).answered(),
            final(self).asked() == if intent.kind().bears_outcome() {
                old(self).asked().push(intent)
            } else {
                old(self).asked()
            },
    {
        proof {
            use_type_invariant(&*self);
        }
        let mut worker = Worker::new();
        core::mem::swap(self, &mut worker);
        let Worker { presence, inbox, stage, asked, answered } = worker;
        let mut inbox = inbox;
        let ghost before = inbox@;
        let ghost longer = if intent.kind().bears_outcome() {
            asked@.push(intent)
        } else {
            asked@
        };
        proof {
            bearing_push(before, intent);
            let from = if stage.is_some() {
                answered@ as int + 1
            } else {
                answered@ as int
            };
            if intent.kind().bears_outcome() {
                assert(longer.skip(from) =~= asked@.skip(from).push(intent));
            }
            assert(longer.skip(from) =~= bearing(before.push(intent)));
        }
        inbox.push_back(intent);
        *self = Worker { presence, inbox, stage, asked: Ghost(longer), answered };
    }

    /// Takes up the next intent, unless one is in hand.
    ///
    /// The discoveries at the head of the inbox are taken in first. The
    /// intent behind them is begun: the worker asks for its first call, or
    /// gives its outcome where it needs none. With an intent in hand, or
    /// with nothing left in the inbox, the worker rests.
    #[verifier::loop_isolation(false)]
    pub fn next(&mut self) -> (action: Action)
        ensures
            final(self).asked() == old(self).asked(),
            answers_in_turn(old(self).asked(), old(self).answered(), final(self).answered(), action),
            match old(self).stage() {
                Some(stage) => {
                    &&& action is Rest
                    &&& final(self).stage() == Some(stage)
                    &&& final(self).inbox() == old(self).inbox()
                    &&& final(self).presence() == old(self).presence()
                },
                None => {
                    let (known, left) = settled(old(self).presence(), old(self).inbox());
                    &&& final(self).presence() == known
                    &&& if left.len() == 0 {
                        &&& action is Rest
                        &&& final(self).stage().is_none()
                        &&& final(self).inbox() == left
                    } else {
                        &&& final(self).inbox() == left.drop_first()
                        &&& taken(action, final(self).stage()) matches Some(step)
                        &&& begins(known, left[0], step)
                    }
                },
            },
    {
        proof {
            use_type_invariant(&*self);
        }
        let mut worker = Worker::new();
        core::mem::swap(self, &mut worker);
        let Worker { presence, inbox, stage, asked, answered } = worker;
        if stage.is_some() {
            *self = Worker { presence, inbox, stage, asked, answered };
            return Action::Rest;
        }
        let mut presence = presence;
        let mut inbox = inbox;
        let ghost start = (presence@, inbox@);
        loop
            invariant
                stage.is_none(),
                answered@ <= asked@.len(),
                asked@.skip(answered@ as int) =~= bearing(inbox@),
                settled(start.0, start.1) == settled(presence@, inbox@),
            decreases inbox@.len(),
        {
            let ghost waiting = inbox@;
            let ghost known = presence@;
            match inbox.pop_front() {
                None => {
                    *self = Worker { presence, inbox, stage: None, asked, answered };
                    return Action::Rest;
                },
                Some(intent) => {
                    assert(inbox@ == waiting.drop_first());
                    match intent {
                        Intent::DiscoveredDevice(address, identifier) => {
                            presence.insert(identifier, address);
                        },
                        other => {
                            proof {
                                assert(settled(known, waiting) == (known, waiting));
                                assert(asked@.skip(answered@ as int)[0] == other);
                                assert(asked@.skip(answered@ as int).drop_first() =~= bearing(
                                    inbox@,
                                ));
                                assert(asked@.skip(answered@ as int).drop_first() =~= asked@.skip(
                                    answered@ as int + 1,
                                ));
                            }
                            match begin(other, &presence) {
                                Some(Step::Call(stage, call)) => {
                                    proof {
                                        first_step_serves_the_intent(
                                            known,
                                            other,
                                            Step::Call(stage, call),
                                        );
                                    }
                                    *self = Worker {
                                        presence,
                                        inbox,
                                        stage: Some(stage),
                                        asked,
                                        answered,
                                    };
                                    return Action::Call(call);
                                },
                                Some(Step::Finish(outcome)) => {
                                    proof {
                                        first_step_serves_the_intent(
                                            known,
                                            other,
                                            Step::Finish(outcome),
                                        );
                                    }
                                    *self = Worker {
                                        presence,
                                        inbox,
                                        stage: None,
                                        asked,
                                        answered: Ghost((answered@ + 1) as nat),
                                    };
                                    return Action::Emit(outcome);
                                },
                                None => {
                                    *self = Worker { presence, inbox, stage: None, asked, answered };
                                    return Action::Rest;
                                },
                            }
                        },
                    }
                },
            }
        }
    }

    /// Takes the answer to the call that the worker asked for, and goes on
    /// with the intent in hand: the worker asks for the next call, or gives
    /// the outcome and is free for the next intent. An answer that comes
    /// while no call is outstanding is dropped.
    pub fn resume(&mut self, reply: LinkReply) -> (action: Action)
        ensures
            final(self).asked() == old(self).asked(),
            final(self).inbox() == old(self).inbox(),
            final(self).presence() == old(self).presence(),
            answers_in_turn(old(self).asked(), old(self).answered(), final(self).answered(), action),
            match old(self).stage() {
                Some(stage) => taken(action, final(self).stage()) matches Some(step) && follows(
                    stage,
                    reply,
                    step,
                ),
                None => action is Rest && final(self).stage().is_none(),
            },
    {
        proof {
            use_type_invariant(&*self);
        }
        let mut worker = Worker::new();
        core::mem::swap(self, &mut worker);
        let Worker { presence, inbox, stage, asked, answered } = worker;
        match stage {
            None => {
                *self = Worker { presence, inbox, stage: None, asked, answered };
                Action::Rest
            },
            Some(stage) => {
                let ghost intent = asked@[answered@ as int];
                match stage.advance(reply) {
                    Step::Call(next, call) => {
                        proof {
                            next_step_serves_the_intent(stage, reply, Step::Call(next, call), intent);
                        }
                        *self = Worker { presence, inbox, stage: Some(next), asked, answered };
                        Action::Call(call)
                    },
                    Step::Finish(outcome) => {
                        proof {
                            next_step_serves_the_intent(stage, reply, Step::Finish(outcome), intent);
                        }
                        *self = Worker {
                            presence,
                            inbox,
                            stage: None,
                            asked,
                            answered: Ghost((answered@ + 1) as nat),
                        };
                        Action::Emit(outcome)
                    },
                }
            },
        }
    }
}

} // verus!
