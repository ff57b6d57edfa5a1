//! The virtual touchscreen: what it declares to the kernel, and what it writes.
//!
//! It is a uinput device and not a client of a compositor protocol, because the wlroots family has
//! no virtual-touch protocol; libinput reads evdev touchscreens everywhere. Udev classifies the
//! device by what it declares: `ABS_X`/`ABS_Y`, `BTN_TOUCH` as its only key (a finger tool key
//! would make it a touchpad) and `INPUT_PROP_DIRECT`.

use vstd::prelude::*;
use vstd::string::*;

use crate::contacts::{
    lemma_scaled_in_range, Contact, Contacts, InputEvent, TouchState, ABS_MAX, LIFTED,
    MAX_CONTACTS,
};
use crate::evdev::{
    encode_frame, events_bytes, law_a_frame_is_closed_by_one_report, law_frame_layout,
    law_frame_round_trip, le16, le32, push_le16, push_le32,
    record_event, syn, twos_complement, Ev, ABS_MT_POSITION_X, ABS_MT_POSITION_Y, ABS_MT_SLOT,
    ABS_MT_TRACKING_ID, ABS_X, ABS_Y, BTN_TOUCH, EV_ABS, EV_KEY, RECORD_LEN,
};
use crate::text::concat3;
use crate::touch_laws::law_state_stays_well_formed;

verus! {

// Request numbers of the uinput ioctls (x86_64).
pub const UI_DEV_CREATE: u64 = 0x5501;

pub const UI_DEV_DESTROY: u64 = 0x5502;

pub const UI_DEV_SETUP: u64 = 0x405c_5503;

pub const UI_ABS_SETUP: u64 = 0x401c_5504;

pub const UI_SET_EVBIT: u64 = 0x4004_5564;

pub const UI_SET_KEYBIT: u64 = 0x4004_5565;

pub const UI_SET_PROPBIT: u64 = 0x4004_556e;

/// The contact lands where the finger is, on the output that the device is mapped to. Without this
/// property libinput would take the device for a touchpad.
pub const INPUT_PROP_DIRECT: i32 = 0x01;

pub const BUS_VIRTUAL: u16 = 0x0006;

/// The identity that a compositor's mapping rule can name.
pub const VENDOR: u16 = 0x1209;

pub const PRODUCT: u16 = 0x5054;

pub const VERSION: u16 = 1;

/// Bytes that `struct uinput_setup` has for the name.
pub const NAME_LEN: usize = 80;

/// One declaration on the way to a device.
#[derive(Clone, Copy, Debug, PartialEq, Eq, Structural)]
pub enum SetupStep {
    /// The device sends events of this type.
    EventType(u16),
    /// The device has this key.
    Key(u16),
    /// The device has this property.
    Property(i32),
    /// The device has this axis. It declares no resolution: the size of the client's glass is
    /// nothing that the host can know, and a made-up one would only mislead.
    Axis { code: u16, minimum: i32, maximum: i32 },
    /// The device is known by this project's name and identity.
    Identity,
    /// The device is complete.
    Create,
}

/// What an ioctl is called with.
#[derive(Debug, PartialEq, Eq)]
pub enum Argument {
    Int(i32),
    /// A pointer to this image of a C struct.
    Struct(Vec<u8>),
}

/// The steps that declare the touchscreen, in order.
pub open spec fn setup_steps() -> Seq<SetupStep> {
    seq![
        SetupStep::EventType(EV_KEY),
        SetupStep::EventType(EV_ABS),
        SetupStep::Key(BTN_TOUCH),
        SetupStep::Property(INPUT_PROP_DIRECT),
        SetupStep::Axis { code: ABS_X, minimum: 0, maximum: ABS_MAX },
        SetupStep::Axis { code: ABS_Y, minimum: 0, maximum: ABS_MAX },
        SetupStep::Axis { code: ABS_MT_POSITION_X, minimum: 0, maximum: ABS_MAX },
        SetupStep::Axis { code: ABS_MT_POSITION_Y, minimum: 0, maximum: ABS_MAX },
        SetupStep::Axis { code: ABS_MT_SLOT, minimum: 0, maximum: (MAX_CONTACTS - 1) as i32 },
        SetupStep::Axis { code: ABS_MT_TRACKING_ID, minimum: 0, maximum: i32::MAX },
        SetupStep::Identity,
        SetupStep::Create,
    ]
}

/// The steps that declare the touchscreen, in order.
fn steps() -> (r: Vec<SetupStep>)
    ensures
        r@ == setup_steps(),
{
    vec![
        SetupStep::EventType(EV_KEY),
        SetupStep::EventType(EV_ABS),
        SetupStep::Key(BTN_TOUCH),
        SetupStep::Property(INPUT_PROP_DIRECT),
        SetupStep::Axis { code: ABS_X, minimum: 0, maximum: ABS_MAX },
        SetupStep::Axis { code: ABS_Y, minimum: 0, maximum: ABS_MAX },
        SetupStep::Axis { code: ABS_MT_POSITION_X, minimum: 0, maximum: ABS_MAX },
        SetupStep::Axis { code: ABS_MT_POSITION_Y, minimum: 0, maximum: ABS_MAX },
        SetupStep::Axis { code: ABS_MT_SLOT, minimum: 0, maximum: MAX_CONTACTS as i32 - 1 },
        SetupStep::Axis { code: ABS_MT_TRACKING_ID, minimum: 0, maximum: i32::MAX },
        SetupStep::Identity,
        SetupStep::Create,
    ]
}

/// The image of `struct uinput_abs_setup`: the code, two bytes of padding, then the value, the
/// bounds, fuzz, flat and resolution.
pub open spec fn axis_bytes(code: u16, minimum: i32, maximum: i32) -> Seq<u8> {
    le16(code as int) + le16(0) + le32(0) + le32(twos_complement(minimum)) + le32(
        twos_complement(maximum),
    ) + le32(0) + le32(0) + le32(0)
}

/// `name` in a field of `NAME_LEN` bytes, padded with zeros.
pub open spec fn name_bytes(name: Seq<char>) -> Seq<u8> {
    Seq::new(
        NAME_LEN as nat,
        |i: int|
            if i < name.len() {
                name[i] as u8
            } else {
                0u8
            },
    )
}

/// The image of `struct uinput_setup`: the identity, the name and no force feedback.
pub open spec fn identity_bytes() -> Seq<u8> {
    le16(BUS_VIRTUAL as int) + le16(VENDOR as int) + le16(PRODUCT as int) + le16(VERSION as int)
        + name_bytes("Punktfunk Touchscreen"@) + le32(0)
}

/// What an [`Argument`] holds.
pub enum ArgumentView {
    Int(i32),
    Struct(Seq<u8>),
}

impl View for Argument {
    type V = ArgumentView;

    open spec fn view(&self) -> ArgumentView {
        match *self {
            Argument::Int(i) => ArgumentView::Int(i),
            Argument::Struct(bytes) => ArgumentView::Struct(bytes@),
        }
    }
}

impl SetupStep {
    pub open spec fn request_number(self) -> u64 {
        match self {
            SetupStep::EventType(_) => UI_SET_EVBIT,
            SetupStep::Key(_) => UI_SET_KEYBIT,
            SetupStep::Property(_) => UI_SET_PROPBIT,
            SetupStep::Axis { .. } => UI_ABS_SETUP,
            SetupStep::Identity => UI_DEV_SETUP,
            SetupStep::Create => UI_DEV_CREATE,
        }
    }

    pub open spec fn argument_value(self) -> ArgumentView {
        match self {
            SetupStep::EventType(code) => ArgumentView::Int(code as i32),
            SetupStep::Key(code) => ArgumentView::Int(code as i32),
            SetupStep::Property(code) => ArgumentView::Int(code),
            SetupStep::Axis { code, minimum, maximum } => ArgumentView::Struct(
                axis_bytes(code, minimum, maximum),
            ),
            SetupStep::Identity => ArgumentView::Struct(identity_bytes()),
            SetupStep::Create => ArgumentView::Int(0),
        }
    }

    /// What a failure of the step is reported as.
    pub open spec fn name(self) -> Seq<char> {
        match self {
            SetupStep::EventType(code) => if code == EV_KEY {
                "UI_SET_EVBIT(EV_KEY)"@
            } else if code == EV_ABS {
                "UI_SET_EVBIT(EV_ABS)"@
            } else {
                "UI_SET_EVBIT"@
            },
            SetupStep::Key(_) => "UI_SET_KEYBIT"@,
            SetupStep::Property(_) => "UI_SET_PROPBIT(DIRECT)"@,
            SetupStep::Axis { .. } => "UI_ABS_SETUP"@,
            SetupStep::Identity => "UI_DEV_SETUP"@,
            SetupStep::Create => "UI_DEV_CREATE"@,
        }
    }

    /// The ioctl's request number.
    pub fn request(&self) -> (r: u64)
        ensures
            r == self.request_number(),
    {
        match *self {
            SetupStep::EventType(_) => UI_SET_EVBIT,
            SetupStep::Key(_) => UI_SET_KEYBIT,
            SetupStep::Property(_) => UI_SET_PROPBIT,
            SetupStep::Axis { .. } => UI_ABS_SETUP,
            SetupStep::Identity => UI_DEV_SETUP,
            SetupStep::Create => UI_DEV_CREATE,
        }
    }

    /// The ioctl's argument.
    pub fn argument(&self) -> (r: Argument)
        ensures
            r@ == self.argument_value(),
    {
        match *self {
            SetupStep::EventType(code) => Argument::Int(code as i32),
            SetupStep::Key(code) => Argument::Int(code as i32),
            SetupStep::Property(code) => Argument::Int(code),
            SetupStep::Axis { code, minimum, maximum } => {
                let mut out: Vec<u8> = Vec::new();
                push_le16(&mut out, code);
                push_le16(&mut out, 0);
                push_le32(&mut out, 0);
                push_le32(&mut out, minimum);
                push_le32(&mut out, maximum);
                push_le32(&mut out, 0);
                push_le32(&mut out, 0);
                push_le32(&mut out, 0);
                Argument::Struct(out)
            },
            SetupStep::Identity => {
                let mut out: Vec<u8> = Vec::new();
                push_le16(&mut out, BUS_VIRTUAL);
                push_le16(&mut out, VENDOR);
                push_le16(&mut out, PRODUCT);
                push_le16(&mut out, VERSION);
                proof {
                    reveal_strlit("Punktfunk Touchscreen");
                    assert("Punktfunk Touchscreen".is_ascii());
                }
                push_name(&mut out, "Punktfunk Touchscreen");
                push_le32(&mut out, 0);
                Argument::Struct(out)
            },
            SetupStep::Create => Argument::Int(0),
        }
    }

    fn what(&self) -> (r: &'static str)
        ensures
            r@ == self.name(),
    {
        match *self {
            SetupStep::EventType(code) => if code == EV_KEY {
                "UI_SET_EVBIT(EV_KEY)"
            } else if code == EV_ABS {
                "UI_SET_EVBIT(EV_ABS)"
            } else {
                "UI_SET_EVBIT"
            },
            SetupStep::Key(_) => "UI_SET_KEYBIT",
            SetupStep::Property(_) => "UI_SET_PROPBIT(DIRECT)",
            SetupStep::Axis { .. } => "UI_ABS_SETUP",
            SetupStep::Identity => "UI_DEV_SETUP",
            SetupStep::Create => "UI_DEV_CREATE",
        }
    }
}

fn push_name(out: &mut Vec<u8>, name: &str)
    requires
        name.is_ascii(),
        name@.len() <= NAME_LEN,
    ensures
        final(out)@ == old(out)@ + name_bytes(name@),
{
    let ghost start = out@;
    let len: usize = name.unicode_len();
    let mut i: usize = 0;
    while i < NAME_LEN
        invariant
            i <= NAME_LEN,
            name.is_ascii(),
            len == name@.len(),
            out@ == start + name_bytes(name@).take(i as int),
        decreases NAME_LEN - i,
    {
        let b: u8 = if i < len {
            name.get_ascii(i)
        } else {
            0
        };
        out.push(b);
        i += 1;
        assert(name_bytes(name@).take(i as int) == name_bytes(name@).take(i - 1).push(b));
    }
    assert(name_bytes(name@).take(NAME_LEN as int) == name_bytes(name@));
}

/// How far the setup of a device has come.
#[derive(Debug)]
pub enum SetupStage {
    /// `/dev/uinput` is to be opened.
    Opening,
    /// Step number so-and-so is to be issued.
    Issuing(usize),
    /// The device exists.
    Ready,
    /// The setup failed, for this reason.
    Failed(String),
}

/// What a [`SetupStage`] holds.
pub enum SetupStageView {
    Opening,
    Issuing(int),
    Ready,
    Failed(Seq<char>),
}

impl View for SetupStage {
    type V = SetupStageView;

    open spec fn view(&self) -> SetupStageView {
        match *self {
            SetupStage::Opening => SetupStageView::Opening,
            SetupStage::Issuing(i) => SetupStageView::Issuing(i as int),
            SetupStage::Ready => SetupStageView::Ready,
            SetupStage::Failed(reason) => SetupStageView::Failed(reason@),
        }
    }
}

/// The report of a device node that does not open.
pub open spec fn open_failure(cause: Seq<char>) -> Seq<char> {
    "open /dev/uinput: "@ + cause
        + " (install the udev rule granting the 'input' group access — see scripts/60-punktfunk.rules — and add the user to the 'input' group)"@
}

impl SetupStageView {
    /// The stage after the pending action came out as `outcome`, with the cause where it failed.
    pub open spec fn after(self, outcome: Result<(), Seq<char>>) -> SetupStageView {
        match (self, outcome) {
            (SetupStageView::Opening, Ok(_)) => SetupStageView::Issuing(0),
            (SetupStageView::Opening, Err(cause)) => SetupStageView::Failed(open_failure(cause)),
            (SetupStageView::Issuing(i), Ok(_)) => if i + 1 < setup_steps().len() {
                SetupStageView::Issuing(i + 1)
            } else {
                SetupStageView::Ready
            },
            (SetupStageView::Issuing(i), Err(cause)) => SetupStageView::Failed(
                setup_steps()[i].name() + ": "@ + cause,
            ),
            _ => self,
        }
    }

    /// The stage after a run of outcomes.
    pub open spec fn after_all(self, outcomes: Seq<Result<(), Seq<char>>>) -> SetupStageView
        decreases outcomes.len(),
    {
        if outcomes.len() == 0 {
            self
        } else {
            self.after_all(outcomes.drop_last()).after(outcomes.last())
        }
    }

    pub open spec fn action(self) -> SetupAction {
        match self {
            SetupStageView::Opening => SetupAction::Open,
            SetupStageView::Issuing(i) => SetupAction::Issue(setup_steps()[i]),
            SetupStageView::Ready => SetupAction::Finish,
            SetupStageView::Failed(_) => SetupAction::GiveUp,
        }
    }
}

/// What is to be done next for a device in setup.
#[derive(Clone, Copy, Debug, PartialEq, Eq, Structural)]
pub enum SetupAction {
    /// Open `/dev/uinput` for reading and writing, non-blocking, closed on exec.
    Open,
    /// Issue this step's ioctl on it.
    Issue(SetupStep),
    /// Nothing: take the touchscreen.
    Finish,
    /// Nothing: close the device node and report the failure.
    GiveUp,
}

/// A device in setup. Whoever owns the device node performs [`DeviceSetup::action`] and hands the
/// outcome back, until there is nothing left to do.
pub struct DeviceSetup {
    stage: SetupStage,
}

impl View for DeviceSetup {
    type V = SetupStageView;

    closed spec fn view(&self) -> SetupStageView {
        self.stage@
    }
}

/// The outcome of an action, by view.
pub open spec fn outcome_view(outcome: Result<(), String>) -> Result<(), Seq<char>> {
    match outcome {
        Ok(_) => Ok(()),
        Err(cause) => Err(cause@),
    }
}

impl DeviceSetup {
    #[verifier::type_invariant]
    spec fn step_exists(self) -> bool {
        self.stage matches SetupStage::Issuing(i) ==> i < setup_steps().len()
    }

    /// What is to be done next.
    pub fn action(&self) -> (action: SetupAction)
        ensures
            action == self@.action(),
    {
        proof {
            use_type_invariant(self);
        }
        match &self.stage {
            SetupStage::Opening => SetupAction::Open,
            SetupStage::Issuing(i) => SetupAction::Issue(steps()[*i]),
            SetupStage::Ready => SetupAction::Finish,
            SetupStage::Failed(_) => SetupAction::GiveUp,
        }
    }

    /// Take the outcome of the pending action. There is none after the end.
    pub fn answer(self, outcome: Result<(), String>) -> (next: DeviceSetup)
        ensures
            next@ == self@.after(outcome_view(outcome)),
    {
        proof {
            use_type_invariant(&self);
        }
        let stage = match (self.stage, outcome) {
            (SetupStage::Opening, Ok(_)) => SetupStage::Issuing(0),
            (SetupStage::Opening, Err(cause)) => SetupStage::Failed(
                concat3(
                    "open /dev/uinput: ",
                    cause.as_str(),
                    " (install the udev rule granting the 'input' group access — see scripts/60-punktfunk.rules — and add the user to the 'input' group)",
                ),
            ),
            (SetupStage::Issuing(i), Ok(_)) => if i + 1 < steps().len() {
                SetupStage::Issuing(i + 1)
            } else {
                SetupStage::Ready
            },
            (SetupStage::Issuing(i), Err(cause)) => SetupStage::Failed(
                concat3(steps()[i].what(), ": ", cause.as_str()),
            ),
            (stage, _) => stage,
        };
        DeviceSetup { stage }
    }

    /// The touchscreen, once the device exists; else the stage that the setup is in.
    pub fn finish(self) -> (r: Result<VirtualTouchscreen, SetupStage>)
        ensures
            match r {
                Ok(screen) => self@ is Ready && screen@.live == Seq::<Contact>::empty()
                    && screen@.next == 0,
                Err(stage) => !(self@ is Ready) && stage@ == self@,
            },
    {
        match self.stage {
            SetupStage::Ready => Ok(VirtualTouchscreen { contacts: Contacts::default() }),
            stage => Err(stage),
        }
    }
}

/// The virtual touchscreen: the fingers that are down on it, and the bytes that tell the kernel.
/// Each run of bytes goes to the device node in one write, which is what keeps a frame whole.
pub struct VirtualTouchscreen {
    contacts: Contacts,
}

impl View for VirtualTouchscreen {
    type V = TouchState;

    closed spec fn view(&self) -> TouchState {
        self.contacts@
    }
}

/// The bytes that publish a frame, if there is one.
pub open spec fn published(frame: Option<Seq<Ev>>) -> Option<Seq<u8>> {
    match frame {
        Some(evs) => Some(events_bytes(evs.push(syn()))),
        None => None,
    }
}

/// The bytes of an optional write.
pub open spec fn bytes_view(bytes: Option<Vec<u8>>) -> Option<Seq<u8>> {
    match bytes {
        Some(bytes) => Some(bytes@),
        None => None,
    }
}

/// What to do when the touchscreen goes away.
#[derive(Debug, PartialEq, Eq)]
pub enum TeardownAction {
    /// Write these bytes to the device node, in one call.
    Write(Vec<u8>),
    /// Issue this ioctl, which takes no argument.
    Destroy { request: u64 },
}

/// What a [`TeardownAction`] holds.
pub enum TeardownView {
    Write(Seq<u8>),
    Destroy { request: u64 },
}

impl View for TeardownAction {
    type V = TeardownView;

    open spec fn view(&self) -> TeardownView {
        match *self {
            TeardownAction::Write(bytes) => TeardownView::Write(bytes@),
            TeardownAction::Destroy { request } => TeardownView::Destroy { request },
        }
    }
}

/// The views of a list of actions.
pub open spec fn teardown_views(actions: Seq<TeardownAction>) -> Seq<TeardownView> {
    actions.map_values(|a: TeardownAction| a@)
}

/// The frame that lifts what is still down, if any finger is, and then the end of the device.
pub open spec fn teardown_actions(s: TouchState) -> Seq<TeardownView> {
    let destroy = TeardownView::Destroy { request: UI_DEV_DESTROY };
    match published(s.release_frame()) {
        Some(bytes) => seq![TeardownView::Write(bytes), destroy],
        None => seq![destroy],
    }
}

impl VirtualTouchscreen {
    #[verifier::type_invariant]
    spec fn contacts_well_formed(self) -> bool {
        self.contacts@.wf()
    }

    /// Begin to set the device up.
    pub fn create() -> (setup: DeviceSetup)
        ensures
            setup@ == SetupStageView::Opening,
    {
        DeviceSetup { stage: SetupStage::Opening }
    }

    /// Apply one wire touch event: what to write for it, one frame at most.
    pub fn apply(&mut self, ev: &InputEvent) -> (bytes: Option<Vec<u8>>)
        ensures
            old(self)@.wf(),
            final(self)@.wf(),
            bytes_view(bytes) == published(old(self)@.frame(*ev)),
            final(self)@ == old(self)@.after(*ev),
    {
        proof {
            use_type_invariant(&*self);
        }
        let mut contacts = Contacts::default();
        std::mem::swap(&mut contacts, &mut self.contacts);
        let frame = contacts.frame(ev);
        self.contacts = contacts;
        match frame {
            Some(evs) => Some(encode_frame(evs.as_slice())),
            None => None,
        }
    }

    fn release(&self) -> (bytes: Option<Vec<u8>>)
        ensures
            self@.wf(),
            bytes_view(bytes) == published(self@.release_frame()),
    {
        proof {
            use_type_invariant(self);
        }
        match self.contacts.release() {
            Some(evs) => Some(encode_frame(evs.as_slice())),
            None => None,
        }
    }

    /// What to do when the touchscreen goes away, in this order and whether or not any of it
    /// fails: lift every finger still down, then destroy the device. A compositor that learned of
    /// the removal in the middle of a stroke would have to invent an ending for it.
    pub fn teardown(self) -> (actions: Vec<TeardownAction>)
        ensures
            self@.wf(),
            teardown_views(actions@) == teardown_actions(self@),
    {
        let mut actions: Vec<TeardownAction> = Vec::new();
        match self.release() {
            Some(bytes) => actions.push(TeardownAction::Write(bytes)),
            None => {},
        }
        actions.push(TeardownAction::Destroy { request: UI_DEV_DESTROY });
        assert(teardown_views(actions@) == teardown_actions(self@));
        actions
    }
}

proof fn lemma_lifts_are_pairs(s: TouchState, to: int)
    requires
        0 <= to <= s.live.len(),
    ensures
        s.lifts_to(to).len() == 2 * to,
        forall|i: int|
            0 <= i < to ==> s.lifts_to(to)[2 * i] == (
                EV_ABS,
                ABS_MT_SLOT,
                (#[trigger] s.live[i]).slot,
            ) && s.lifts_to(to)[2 * i + 1] == (EV_ABS, ABS_MT_TRACKING_ID, LIFTED),
    decreases to,
{
    if to > 0 {
        lemma_lifts_are_pairs(s, to - 1);
    }
}

/// The device is destroyed once, and nothing is done after that. A frame is written before it
/// exactly where a finger is still down. It ends the contact in the slot of each such finger, in no
/// slot twice, and lifts the button once.
pub proof fn law_teardown_lifts_and_then_destroys(s: TouchState)
    requires
        s.wf(),
    ensures
        teardown_actions(s).last() == (TeardownView::Destroy { request: 0x5502 }),
        s.live.len() == 0 ==> teardown_actions(s).len() == 1,
        s.live.len() > 0 ==> teardown_actions(s).len() == 2 && exists|evs: Seq<Ev>|
            {
                &&& teardown_actions(s)[0] == TeardownView::Write(
                    #[trigger] events_bytes(evs.push(syn())),
                )
                &&& evs.len() == 2 * s.live.len() + 1
                &&& forall|i: int|
                    0 <= i < s.live.len() ==> evs[2 * i] == (
                        3u16,
                        0x2fu16,
                        (#[trigger] s.live[i]).slot,
                    ) && evs[2 * i + 1] == (3u16, 0x39u16, -1i32)
                &&& evs.last() == (1u16, 0x14au16, 0i32)
            },
        forall|i: int, j: int|
            0 <= i < j < s.live.len() ==> (#[trigger] s.live[i]).slot != (
            #[trigger] s.live[j]).slot,
{
    if s.live.len() > 0 {
        let evs = s.release_frame()->0;
        lemma_lifts_are_pairs(s, s.live.len() as int);
        assert(teardown_actions(s)[0] == TeardownView::Write(events_bytes(evs.push(syn()))));
    }
}

/// Does the device declare `ev`? Its axis must have `ev`'s value in range, or its keys hold it.
pub open spec fn declared(ev: Ev) -> bool {
    ||| ev.0 == EV_KEY && setup_steps().contains(SetupStep::Key(ev.1))
    ||| ev.0 == EV_ABS && exists|i: int|
        0 <= i < setup_steps().len() && {
            &&& #[trigger] setup_steps()[i] matches SetupStep::Axis { code, minimum, maximum }
            &&& code == ev.1
            &&& minimum <= ev.2 <= maximum
        }
}

/// Every event of every frame is one that the device declares, but for the end of a contact, which
/// has no tracking id.
pub proof fn law_frames_stay_within_the_declaration(s: TouchState, ev: InputEvent)
    requires
        s.wf(),
    ensures
        s.frame(ev) matches Some(evs) ==> forall|i: int|
            0 <= i < evs.len() ==> declared(#[trigger] evs[i]) || evs[i] == (
                EV_ABS,
                ABS_MT_TRACKING_ID,
                LIFTED,
            ),
{
    let steps = setup_steps();
    assert(steps[2] == SetupStep::Key(BTN_TOUCH));
    assert(steps[4] == (SetupStep::Axis { code: ABS_X, minimum: 0, maximum: ABS_MAX }));
    assert(steps[5] == (SetupStep::Axis { code: ABS_Y, minimum: 0, maximum: ABS_MAX }));
    assert(steps[6] == (SetupStep::Axis { code: ABS_MT_POSITION_X, minimum: 0, maximum: ABS_MAX }));
    assert(steps[7] == (SetupStep::Axis { code: ABS_MT_POSITION_Y, minimum: 0, maximum: ABS_MAX }));
    assert(steps[8] == (SetupStep::Axis {
        code: ABS_MT_SLOT,
        minimum: 0,
        maximum: (MAX_CONTACTS - 1) as i32,
    }));
    assert(steps[9] == (SetupStep::Axis { code: ABS_MT_TRACKING_ID, minimum: 0, maximum: i32::MAX }));
    lemma_scaled_in_range(ev.x as int, ev.surface_width());
    lemma_scaled_in_range(ev.y as int, ev.surface_height());
    law_state_stays_well_formed(s, ev);
    if s.opens(ev) {
        assert(s.after(ev).live.last().slot == s.free_slot());
    }
}

/// Every event of the frame that is sent before the device goes away is one that the device
/// declares, but for the ends of the contacts.
pub proof fn law_release_stays_within_the_declaration(s: TouchState)
    requires
        s.wf(),
    ensures
        s.release_frame() matches Some(evs) ==> forall|i: int|
            0 <= i < evs.len() ==> declared(#[trigger] evs[i]) || evs[i] == (
                EV_ABS,
                ABS_MT_TRACKING_ID,
                LIFTED,
            ),
{
    assert(setup_steps()[2] == SetupStep::Key(BTN_TOUCH));
    lemma_lifts_are_declared(s, s.live.len() as int);
}

proof fn lemma_lifts_are_declared(s: TouchState, to: int)
    requires
        s.wf(),
        0 <= to <= s.live.len(),
    ensures
        forall|i: int|
            0 <= i < s.lifts_to(to).len() ==> declared(#[trigger] s.lifts_to(to)[i])
                || s.lifts_to(to)[i] == (EV_ABS, ABS_MT_TRACKING_ID, LIFTED),
    decreases to,
{
    if to > 0 {
        lemma_lifts_are_declared(s, to - 1);
        assert(setup_steps()[8] == (SetupStep::Axis {
            code: ABS_MT_SLOT,
            minimum: 0,
            maximum: (MAX_CONTACTS - 1) as i32,
        }));
        let before = s.lifts_to(to - 1);
        assert forall|i: int| 0 <= i < s.lifts_to(to).len() implies declared(
            #[trigger] s.lifts_to(to)[i],
        ) || s.lifts_to(to)[i] == (EV_ABS, ABS_MT_TRACKING_ID, LIFTED) by {
            if i < before.len() {
                assert(s.lifts_to(to)[i] == before[i]);
            }
        }
    }
}

/// What is written for an event is one frame: whole records, of which the last, and no other, is
/// the report that publishes the frame.
pub proof fn law_one_report_per_frame(s: TouchState, ev: InputEvent, k: int)
    requires
        s.wf(),
        s.answers(ev),
        0 <= k <= s.frame(ev)->0.len(),
    ensures
        published(s.frame(ev))->0.len() == RECORD_LEN * (s.frame(ev)->0.len() + 1),
        record_event(
            published(s.frame(ev))->0.subrange(RECORD_LEN * k, RECORD_LEN * (k + 1)),
        ) == if k < s.frame(ev)->0.len() {
            s.frame(ev)->0[k]
        } else {
            syn()
        },
        k < s.frame(ev)->0.len() ==> s.frame(ev)->0[k] != syn(),
{
    law_frame_round_trip(s.frame(ev)->0.push(syn()), k);
    law_frames_stay_within_the_declaration(s, ev);
}

/// What is reported where action number `i` of the setup fails: the opening, then the steps.
pub open spec fn failure(i: int, cause: Seq<char>) -> Seq<char> {
    if i == 0 {
        open_failure(cause)
    } else {
        setup_steps()[i - 1].name() + ": "@ + cause
    }
}

/// The setup takes the steps in order. The device exists exactly after the node has opened and
/// every step has succeeded, and the first failure ends the setup with its own report.
pub proof fn law_setup_takes_every_step(outcomes: Seq<Result<(), Seq<char>>>)
    ensures
        (forall|i: int|
            0 <= i < outcomes.len() && i <= setup_steps().len() ==> (#[trigger] outcomes[i]) is Ok)
            ==> SetupStageView::Opening.after_all(outcomes) == if outcomes.len() == 0 {
            SetupStageView::Opening
        } else if outcomes.len() <= setup_steps().len() {
            SetupStageView::Issuing(outcomes.len() - 1)
        } else {
            SetupStageView::Ready
        },
        forall|k: int|
            0 <= k < outcomes.len() && k <= setup_steps().len() && (#[trigger] outcomes[k]) is Err
                && (forall|i: int| 0 <= i < k ==> (#[trigger] outcomes[i]) is Ok)
                ==> SetupStageView::Opening.after_all(outcomes) == SetupStageView::Failed(
                failure(k, outcomes[k]->Err_0),
            ),
    decreases outcomes.len(),
{
    if outcomes.len() > 0 {
        let before = outcomes.drop_last();
        law_setup_takes_every_step(before);
        assert(forall|i: int| 0 <= i < before.len() ==> before[i] == outcomes[i]);
    }
}

/// The ioctl of each step, and what goes with it where that is a number.
pub proof fn law_each_step_is_its_own_ioctl(step: SetupStep)
    ensures
        match step {
            SetupStep::EventType(code) => step.request_number() == 0x4004_5564
                && step.argument_value() == ArgumentView::Int(code as i32),
            SetupStep::Key(code) => step.request_number() == 0x4004_5565 && step.argument_value()
                == ArgumentView::Int(code as i32),
            SetupStep::Property(code) => step.request_number() == 0x4004_556e
                && step.argument_value() == ArgumentView::Int(code),
            SetupStep::Axis { .. } => step.request_number() == 0x401c_5504
                && step.argument_value() is Struct,
            SetupStep::Identity => step.request_number() == 0x405c_5503
                && step.argument_value() is Struct,
            SetupStep::Create => step.request_number() == 0x5501 && step.argument_value()
                == ArgumentView::Int(0),
        },
{
}

/// The number that four bytes from `at` on hold, the least significant first.
pub open spec fn word_at(bytes: Seq<u8>, at: int) -> int {
    bytes[at] + 0x100 * bytes[at + 1] + 0x1_0000 * bytes[at + 2] + 0x100_0000 * bytes[at + 3]
}

/// An axis is declared with its code and its bounds, each in its place, and with nothing else: it
/// starts at zero and has no fuzz, no flat zone and no resolution.
pub proof fn law_an_axis_is_declared_by_its_bounds(code: u16, minimum: i32, maximum: i32)
    requires
        0 <= minimum,
        0 <= maximum,
    ensures
        (SetupStep::Axis { code, minimum, maximum }).argument_value() matches ArgumentView::Struct(
            bytes,
        ) && {
            &&& bytes.len() == 28
            &&& bytes[0] + 0x100 * bytes[1] == code
            &&& word_at(bytes, 8) == minimum
            &&& word_at(bytes, 12) == maximum
            &&& forall|i: int| 2 <= i < 8 || 16 <= i < 28 ==> #[trigger] bytes[i] == 0
        },
{
    let bytes = axis_bytes(code, minimum, maximum);
    assert(bytes.len() == 28);
    assert(bytes[0] == (code as int % 256) as u8);
    assert(bytes[8] == (minimum as int % 0x1_0000 % 256) as u8);
    assert(bytes[10] == (minimum as int / 0x1_0000 % 256) as u8);
    assert(bytes[12] == (maximum as int % 0x1_0000 % 256) as u8);
    assert(bytes[14] == (maximum as int / 0x1_0000 % 256) as u8);
    let zero = le32(0);
    assert(zero.len() == 4 && zero[0] == 0 && zero[1] == 0 && zero[2] == 0 && zero[3] == 0);
}

/// The device is `1209:5054`, version one, on the virtual bus, under its name in ASCII, and has no
/// force feedback.
pub proof fn law_the_device_has_its_identity()
    ensures
        SetupStep::Identity.argument_value() matches ArgumentView::Struct(bytes) && {
            &&& bytes.len() == 92
            &&& bytes[0] + 0x100 * bytes[1] == 6
            &&& bytes[2] + 0x100 * bytes[3] == 0x1209
            &&& bytes[4] + 0x100 * bytes[5] == 0x5054
            &&& bytes[6] + 0x100 * bytes[7] == 1
            &&& "Punktfunk Touchscreen"@.len() == 21
            &&& forall|i: int|
                0 <= i < 21 ==> bytes[8 + i] as int == (#[trigger] "Punktfunk Touchscreen"@[i]) as int
            &&& forall|i: int| 29 <= i < 92 ==> #[trigger] bytes[i] == 0
        },
{
    reveal_strlit("Punktfunk Touchscreen");
    let name = "Punktfunk Touchscreen"@;
    let bytes = identity_bytes();
    let field = name_bytes(name);
    assert(bytes.len() == 92);
    assert(bytes[0] == 6 && bytes[1] == 0);
    assert(bytes[2] == 0x09 && bytes[3] == 0x12);
    assert(bytes[4] == 0x54 && bytes[5] == 0x50);
    assert(bytes[6] == 1 && bytes[7] == 0);
    assert forall|i: int| 0 <= i < 21 implies bytes[8 + i] as int == (#[trigger] name[i]) as int by {
        assert(bytes[8 + i] == field[i]);
    }
    let zero = le32(0);
    assert(zero.len() == 4 && zero[0] == 0 && zero[1] == 0 && zero[2] == 0 && zero[3] == 0);
    assert forall|i: int| 29 <= i < 92 implies #[trigger] bytes[i] == 0 by {
        if i < 88 {
            assert(bytes[i] == field[i - 8]);
        } else {
            assert(bytes[i] == zero[i - 88]);
        }
    }
}

/// What the device declares, and nothing else: keys and absolute axes, the touch button as its only
/// key, that it is direct, four position axes over the whole range, ten slots and every tracking id
/// that is not negative. Each is declared once, and the device is created last.
pub proof fn law_what_the_device_declares(step: SetupStep)
    ensures
        setup_steps().contains(step) <==> match step {
            SetupStep::EventType(code) => code == 1 || code == 3,
            SetupStep::Key(code) => code == 0x14a,
            SetupStep::Property(code) => code == 1,
            SetupStep::Axis { code, minimum, maximum } => minimum == 0 && ((code == 0x00 || code
                == 0x01 || code == 0x35 || code == 0x36) && maximum == 65535 || code == 0x2f
                && maximum == 9 || code == 0x39 && maximum == 0x7fff_ffff),
            SetupStep::Identity => true,
            SetupStep::Create => true,
        },
        setup_steps().no_duplicates(),
        setup_steps().last() == SetupStep::Create,
{
    let steps = setup_steps();
    assert(steps.len() == 12);
    assert(steps[0] == SetupStep::EventType(1));
    assert(steps[1] == SetupStep::EventType(3));
    assert(steps[2] == SetupStep::Key(0x14a));
    assert(steps[3] == SetupStep::Property(1));
    assert(steps[4] == (SetupStep::Axis { code: 0x00, minimum: 0, maximum: 65535 }));
    assert(steps[5] == (SetupStep::Axis { code: 0x01, minimum: 0, maximum: 65535 }));
    assert(steps[6] == (SetupStep::Axis { code: 0x35, minimum: 0, maximum: 65535 }));
    assert(steps[7] == (SetupStep::Axis { code: 0x36, minimum: 0, maximum: 65535 }));
    assert(steps[8] == (SetupStep::Axis { code: 0x2f, minimum: 0, maximum: 9 }));
    assert(steps[9] == (SetupStep::Axis { code: 0x39, minimum: 0, maximum: 0x7fff_ffff }));
    assert(steps[10] == SetupStep::Identity);
    assert(steps[11] == SetupStep::Create);
}

/// While all goes well, the node is opened first, then each step is issued in its turn, and only
/// then is there a touchscreen to take. After a failure nothing more is issued.
pub proof fn law_setup_issues_the_steps_in_turn(outcomes: Seq<Result<(), Seq<char>>>, k: int)
    ensures
        (forall|i: int| 0 <= i < outcomes.len() ==> (#[trigger] outcomes[i]) is Ok)
            ==> SetupStageView::Opening.after_all(outcomes).action() == if outcomes.len() == 0 {
            SetupAction::Open
        } else if outcomes.len() <= 12 {
            SetupAction::Issue(setup_steps()[outcomes.len() - 1])
        } else {
            SetupAction::Finish
        },
        0 <= k < outcomes.len() && k <= 12 && outcomes[k] is Err
            ==> SetupStageView::Opening.after_all(outcomes).action() is GiveUp,
{
    law_setup_takes_every_step(outcomes);
    assert(setup_steps().len() == 12);
    if 0 <= k < outcomes.len() && k <= 12 && outcomes[k] is Err {
        lemma_first_failure_ends(outcomes, k);
    }
}

proof fn lemma_first_failure_ends(outcomes: Seq<Result<(), Seq<char>>>, k: int)
    requires
        0 <= k < outcomes.len(),
        k <= 12,
        outcomes[k] is Err,
    ensures
        SetupStageView::Opening.after_all(outcomes) is Failed,
    decreases k,
{
    assert(setup_steps().len() == 12);
    if exists|i: int| 0 <= i < k && (#[trigger] outcomes[i]) is Err {
        let i = choose|i: int| 0 <= i < k && (#[trigger] outcomes[i]) is Err;
        lemma_first_failure_ends(outcomes, i);
    } else {
        law_setup_takes_every_step(outcomes);
    }
}

/// A failed step is reported by its name, with the cause behind it; a node that does not open, by
/// its path, with the cause and what to do about it.
pub proof fn law_setup_failures_name_the_step_and_the_cause(i: int, cause: Seq<char>)
    requires
        0 <= i < 12,
    ensures
        SetupStageView::Opening.after(Err(cause)) matches SetupStageView::Failed(text) && {
            let n = "open /dev/uinput: "@.len() as int;
            &&& text.len() > n + cause.len()
            &&& text.take(n) == "open /dev/uinput: "@
            &&& text.subrange(n, n + cause.len()) == cause
        },
        SetupStageView::Issuing(i).after(Err(cause)) matches SetupStageView::Failed(text) && text
            == (match setup_steps()[i] {
            SetupStep::EventType(code) => if code == 1 {
                "UI_SET_EVBIT(EV_KEY)"@
            } else {
                "UI_SET_EVBIT(EV_ABS)"@
            },
            SetupStep::Key(_) => "UI_SET_KEYBIT"@,
            SetupStep::Property(_) => "UI_SET_PROPBIT(DIRECT)"@,
            SetupStep::Axis { .. } => "UI_ABS_SETUP"@,
            SetupStep::Identity => "UI_DEV_SETUP"@,
            SetupStep::Create => "UI_DEV_CREATE"@,
        }) + ": "@ + cause,
{
    law_what_the_device_declares(setup_steps()[i]);
    assert(setup_steps().contains(setup_steps()[i]));
    let tail =
        " (install the udev rule granting the 'input' group access — see scripts/60-punktfunk.rules — and add the user to the 'input' group)"@;
    reveal_strlit(
        " (install the udev rule granting the 'input' group access — see scripts/60-punktfunk.rules — and add the user to the 'input' group)",
    );
    assert(tail.len() > 0);
    let n = "open /dev/uinput: "@.len() as int;
    let text = open_failure(cause);
    assert(text == "open /dev/uinput: "@ + cause + tail);
    assert(text.take(n) == "open /dev/uinput: "@);
    assert(text.subrange(n, n + cause.len()) == cause);
}

/// What is written for a frame: a record for each event, with its type, code and value in their
/// places, and one more that is all zeros. Without a frame nothing is written.
pub proof fn law_what_is_written(evs: Seq<Ev>, k: int)
    requires
        0 <= k < evs.len(),
    ensures
        published(None) is None,
        published(Some(evs)) matches Some(bytes) && {
            &&& bytes.len() == 24 * evs.len() + 24
            &&& bytes[24 * k + 16] + 0x100 * bytes[24 * k + 17] == evs[k].0
            &&& bytes[24 * k + 18] + 0x100 * bytes[24 * k + 19] == evs[k].1
            &&& word_at(bytes, 24 * k + 20) == if evs[k].2 < 0 {
                0x1_0000_0000 + evs[k].2
            } else {
                evs[k].2 as int
            }
            &&& forall|i: int|
                24 * k <= i < 24 * k + 16 || 24 * evs.len() <= i < bytes.len()
                    ==> #[trigger] bytes[i] == 0
        },
{
    law_frame_layout(evs.push(syn()), k);
    law_a_frame_is_closed_by_one_report(evs);
}

/// The models of arguments, writes and stages carry what these carry, unchanged.
pub proof fn law_steps_are_modelled_as_held(
    bytes: Vec<u8>,
    n: i32,
    request: u64,
    i: usize,
    reason: String,
)
    ensures
        Argument::Int(n)@ == ArgumentView::Int(n),
        Argument::Struct(bytes)@ == ArgumentView::Struct(bytes@),
        TeardownAction::Write(bytes)@ == TeardownView::Write(bytes@),
        (TeardownAction::Destroy { request })@ == (TeardownView::Destroy { request }),
        bytes_view(Some(bytes)) == Some(bytes@) && bytes_view(None) is None,
        SetupStage::Opening@ is Opening && SetupStage::Ready@ is Ready,
        SetupStage::Issuing(i)@ == SetupStageView::Issuing(i as int),
        SetupStage::Failed(reason)@ == SetupStageView::Failed(reason@),
        outcome_view(Ok(())) is Ok,
        outcome_view(Err(reason)) == Err::<(), Seq<char>>(reason@),
{
}

/// The model of a teardown has its actions, in order.
pub proof fn law_teardowns_are_modelled_in_order(actions: Seq<TeardownAction>, i: int)
    requires
        0 <= i < actions.len(),
    ensures
        teardown_views(actions).len() == actions.len(),
        teardown_views(actions)[i] == actions[i]@,
{
}

} // verus!
