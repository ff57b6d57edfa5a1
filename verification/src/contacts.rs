//! The wire's touch plane as multitouch frames (kernel MT protocol B).
//!
//! Contacts are keyed by the wire's finger id and mapped onto compact slots. The tracking id is a
//! running counter and never the wire id: a client reuses an id as soon as that finger lifts, and
//! the protocol tells a new touch from a continuing one by the tracking id in the slot changing.

use vstd::prelude::*;

use crate::evdev::{
    Ev, ABS_MT_POSITION_X, ABS_MT_POSITION_Y, ABS_MT_SLOT, ABS_MT_TRACKING_ID, ABS_X, ABS_Y,
    BTN_TOUCH, EV_ABS, EV_KEY,
};

verus! {

/// Simultaneous contacts, and so slots, that the device declares.
pub const MAX_CONTACTS: usize = 10;

/// Full scale on both position axes.
pub const ABS_MAX: i32 = 65535;

/// The tracking id that ends the contact in a slot.
pub const LIFTED: i32 = -1;

/// What a wire touch event reports.
#[derive(Clone, Copy, Debug, PartialEq, Eq, Structural)]
pub enum InputKind {
    TouchDown,
    TouchMove,
    TouchUp,
}

/// One touch event of the wire.
#[derive(Clone, Copy, Debug)]
pub struct InputEvent {
    pub kind: InputKind,
    pub _pad: [u8; 3],
    /// The finger id, free for reuse after its `TouchUp`.
    pub code: u32,
    pub x: i32,
    pub y: i32,
    /// The client's touch surface: width in the high half, height in the low one. A lift carries
    /// neither surface nor coordinates.
    pub flags: u32,
}

impl InputEvent {
    pub open spec fn surface_width(self) -> int {
        self.flags as int / 0x1_0000
    }

    pub open spec fn surface_height(self) -> int {
        self.flags as int % 0x1_0000
    }

    /// Is there a surface to scale against?
    pub open spec fn usable(self) -> bool {
        self.surface_width() != 0 && self.surface_height() != 0
    }

    /// Where the contact lands on the horizontal axis.
    pub open spec fn target_x(self) -> i32 {
        scaled(self.x as int, self.surface_width()) as i32
    }

    /// Where the contact lands on the vertical axis.
    pub open spec fn target_y(self) -> i32 {
        scaled(self.y as int, self.surface_height()) as i32
    }
}

/// A finger the compositor currently believes is down.
#[derive(Clone, Copy, Debug, PartialEq, Eq, Structural)]
pub struct Contact {
    /// The wire's finger id.
    pub id: u32,
    /// The slot this finger owns until it lifts.
    pub slot: i32,
}

/// The fingers that are down, oldest first, and the codec of frames over them.
pub struct Contacts {
    pub live: Vec<Contact>,
    /// The tracking id that the next touch gets.
    pub next_tracking_id: i32,
}

/// What [`Contacts`] holds.
pub struct TouchState {
    pub live: Seq<Contact>,
    pub next: i32,
}

impl View for Contacts {
    type V = TouchState;

    open spec fn view(&self) -> TouchState {
        TouchState { live: self.live@, next: self.next_tracking_id }
    }
}

/// `v` on an axis of `extent` pixels, clamped to it and rescaled to `0..=ABS_MAX`; the origin
/// where there is no extent.
pub open spec fn scaled(v: int, extent: int) -> int {
    let inside = if v < 0 {
        0
    } else if v > extent {
        extent
    } else {
        v
    };
    if extent == 0 {
        0
    } else {
        inside * ABS_MAX / extent
    }
}

/// The tracking id that follows `id`: they stay non-negative, since [`LIFTED`] is not.
pub open spec fn following(id: i32) -> i32 {
    if id == i32::MAX {
        0
    } else {
        (id + 1) as i32
    }
}

/// The frame fragment that moves a contact: its position, and the single-touch axes as well where
/// it is the primary finger.
pub open spec fn position_events(primary: bool, x: i32, y: i32) -> Seq<Ev> {
    let place = seq![(EV_ABS, ABS_MT_POSITION_X, x), (EV_ABS, ABS_MT_POSITION_Y, y)];
    if primary {
        place + seq![(EV_ABS, ABS_X, x), (EV_ABS, ABS_Y, y)]
    } else {
        place
    }
}

/// The frame fragment that selects a slot.
pub open spec fn select(slot: i32) -> Seq<Ev> {
    seq![(EV_ABS, ABS_MT_SLOT, slot)]
}

/// The frame fragment that gives the selected slot a tracking id ([`LIFTED`] ends its contact).
pub open spec fn track(id: i32) -> Seq<Ev> {
    seq![(EV_ABS, ABS_MT_TRACKING_ID, id)]
}

/// The frame fragment that flips `BTN_TOUCH` to `value` where `flip` holds.
pub open spec fn button(flip: bool, value: i32) -> Seq<Ev> {
    if flip {
        seq![(EV_KEY, BTN_TOUCH, value)]
    } else {
        Seq::empty()
    }
}

impl TouchState {
    /// At most one contact per slot and per finger, all in slots that the device declares.
    pub open spec fn wf(self) -> bool {
        &&& self.live.len() <= MAX_CONTACTS
        &&& self.next >= 0
        &&& forall|i: int|
            0 <= i < self.live.len() ==> 0 <= (#[trigger] self.live[i]).slot < MAX_CONTACTS
        &&& forall|i: int, j: int|
            0 <= i < j < self.live.len() ==> {
                &&& (#[trigger] self.live[i]).id != (#[trigger] self.live[j]).id
                &&& self.live[i].slot != self.live[j].slot
            }
    }

    pub open spec fn taken(self, slot: int) -> bool {
        exists|i: int| 0 <= i < self.live.len() && (#[trigger] self.live[i]).slot == slot
    }

    pub open spec fn tracks(self, id: u32) -> bool {
        exists|i: int| 0 <= i < self.live.len() && (#[trigger] self.live[i]).id == id
    }

    /// Where finger `id` stands in `live`.
    pub open spec fn index(self, id: u32) -> int {
        choose|i: int| 0 <= i < self.live.len() && (#[trigger] self.live[i]).id == id
    }

    /// The lowest slot that no live contact owns.
    pub open spec fn is_free_slot(self, slot: int) -> bool {
        &&& 0 <= slot
        &&& !self.taken(slot)
        &&& forall|s: int| 0 <= s < slot ==> self.taken(s)
    }

    pub open spec fn free_slot(self) -> i32 {
        choose|slot: i32| self.is_free_slot(slot as int)
    }

    /// Is `slot` that of the oldest live finger?
    pub open spec fn is_primary(self, slot: i32) -> bool {
        self.live.len() > 0 && self.live[0].slot == slot
    }

    /// `self` with finger `id` down in the lowest free slot.
    pub open spec fn with_down(self, id: u32) -> TouchState {
        TouchState {
            live: self.live.push(Contact { id, slot: self.free_slot() }),
            next: following(self.next),
        }
    }

    /// `self` with finger `id` lifted.
    pub open spec fn without(self, id: u32) -> TouchState {
        TouchState { live: self.live.remove(self.index(id)), next: self.next }
    }

    /// The frame that puts a new finger down at `(x, y)`.
    pub open spec fn down_frame(self, x: i32, y: i32) -> Seq<Ev> {
        let first = self.live.len() == 0;
        select(self.free_slot()) + track(self.next) + position_events(first, x, y) + button(
            first,
            1,
        )
    }

    /// The frame that moves finger `id` to `(x, y)`.
    pub open spec fn move_frame(self, id: u32, x: i32, y: i32) -> Seq<Ev> {
        let slot = self.live[self.index(id)].slot;
        select(slot) + position_events(self.is_primary(slot), x, y)
    }

    /// The frame that lifts finger `id`.
    pub open spec fn lift_frame(self, id: u32) -> Seq<Ev> {
        select(self.live[self.index(id)].slot) + track(LIFTED) + button(self.live.len() == 1, 0)
    }

    /// Does `ev` change anything, and so call for a frame? Not where it lifts a finger that is not
    /// down, carries no usable surface, or puts down a finger with every slot taken.
    pub open spec fn answers(self, ev: InputEvent) -> bool {
        if ev.kind is TouchUp {
            self.tracks(ev.code)
        } else {
            ev.usable() && (self.tracks(ev.code) || self.live.len() < MAX_CONTACTS)
        }
    }

    /// Does `ev` begin a contact?
    pub open spec fn opens(self, ev: InputEvent) -> bool {
        self.answers(ev) && !(ev.kind is TouchUp) && !self.tracks(ev.code)
    }

    /// The frame that expresses `ev`.
    pub open spec fn frame(self, ev: InputEvent) -> Option<Seq<Ev>> {
        if !self.answers(ev) {
            None
        } else if ev.kind is TouchUp {
            Some(self.lift_frame(ev.code))
        } else if self.tracks(ev.code) {
            Some(self.move_frame(ev.code, ev.target_x(), ev.target_y()))
        } else {
            Some(self.down_frame(ev.target_x(), ev.target_y()))
        }
    }

    /// The contacts after `ev`.
    pub open spec fn after(self, ev: InputEvent) -> TouchState {
        if !self.answers(ev) {
            self
        } else if ev.kind is TouchUp {
            self.without(ev.code)
        } else if self.tracks(ev.code) {
            self
        } else {
            self.with_down(ev.code)
        }
    }

    /// The events that lift the `to` oldest fingers.
    pub open spec fn lifts_to(self, to: int) -> Seq<Ev>
        decreases to,
    {
        if to <= 0 {
            Seq::empty()
        } else {
            self.lifts_to(to - 1) + select(self.live[to - 1].slot) + track(LIFTED)
        }
    }

    /// The frame that lifts every finger still down, if any is.
    pub open spec fn release_frame(self) -> Option<Seq<Ev>> {
        if self.live.len() == 0 {
            None
        } else {
            Some(self.lifts_to(self.live.len() as int) + button(true, 0))
        }
    }
}

/// The events of an optional frame.
pub open spec fn frame_view(frame: Option<Vec<Ev>>) -> Option<Seq<Ev>> {
    match frame {
        Some(evs) => Some(evs@),
        None => None,
    }
}

/// Slots `0..k` cannot all be taken by fewer than `k` contacts.
pub proof fn lemma_slots_run_out(s: TouchState, k: int)
    requires
        0 <= k,
        forall|slot: int| 0 <= slot < k ==> s.taken(slot),
    ensures
        k <= s.live.len(),
{
    let slots = s.live.map_values(|c: Contact| c.slot as int);
    let run = vstd::set_lib::set_int_range(0, k);
    assert forall|slot: int| run.contains(slot) implies slots.to_set().contains(slot) by {
        assert(s.taken(slot));
        let i = choose|i: int| 0 <= i < s.live.len() && (#[trigger] s.live[i]).slot == slot;
        assert(slots[i] == slot);
    }
    vstd::set_lib::lemma_int_range(0, k);
    slots.lemma_cardinality_of_set();
    vstd::set_lib::lemma_len_subset(run, slots.to_set());
}

/// There is one lowest free slot only.
pub proof fn lemma_free_slot_unique(s: TouchState, slot: i32)
    requires
        s.is_free_slot(slot as int),
    ensures
        s.free_slot() == slot,
{
    let other = s.free_slot();
    assert(s.is_free_slot(other as int));
    if other < slot {
        assert(s.taken(other as int));
    }
    if slot < other {
        assert(s.taken(slot as int));
    }
}

impl Default for Contacts {
    fn default() -> (c: Contacts)
        ensures
            c@.wf(),
            c@.live == Seq::<Contact>::empty(),
            c@.next == 0,
    {
        Contacts { live: Vec::new(), next_tracking_id: 0 }
    }
}

impl Contacts {
    /// Where finger `id` stands in `live`.
    fn find(&self, id: u32) -> (found: Option<usize>)
        requires
            self@.wf(),
        ensures
            match found {
                Some(i) => i < self.live@.len() && self.live@[i as int].id == id
                    && self@.tracks(id) && self@.index(id) == i,
                None => !self@.tracks(id),
            },
    {
        let mut i: usize = 0;
        while i < self.live.len()
            invariant
                i <= self.live@.len(),
                self@.wf(),
                forall|j: int| 0 <= j < i ==> (#[trigger] self.live@[j]).id != id,
            decreases self.live@.len() - i,
        {
            if self.live[i].id == id {
                assert(self@.live[i as int].id == id);
                assert(self@.tracks(id));
                return Some(i);
            }
            i += 1;
        }
        None
    }

    /// The lowest slot no live contact owns.
    pub fn free_slot(&self) -> (slot: i32)
        requires
            self@.live.len() <= i32::MAX,
        ensures
            self@.is_free_slot(slot as int),
            slot == self@.free_slot(),
            slot <= self@.live.len(),
    {
        let mut slot: i32 = 0;
        loop
            invariant
                0 <= slot <= self.live@.len() <= i32::MAX,
                forall|s: int| 0 <= s < slot ==> self@.taken(s),
            decreases self.live@.len() - slot,
        {
            let mut i: usize = 0;
            let mut owned: bool = false;
            while i < self.live.len()
                invariant
                    i <= self.live@.len(),
                    owned == exists|j: int|
                        0 <= j < i && (#[trigger] self.live@[j]).slot == slot,
                decreases self.live@.len() - i,
            {
                if self.live[i].slot == slot {
                    owned = true;
                    assert(self.live@[i as int].slot == slot);
                }
                i += 1;
            }
            if !owned {
                proof {
                    assert(!self@.taken(slot as int));
                    lemma_free_slot_unique(self@, slot);
                }
                return slot;
            }
            proof {
                let j = choose|j: int|
                    0 <= j < self.live@.len() && (#[trigger] self.live@[j]).slot == slot;
                assert(self@.live[j].slot == slot);
                assert(self@.taken(slot as int));
                assert(forall|s: int| 0 <= s < slot + 1 ==> self@.taken(s));
                lemma_slots_run_out(self@, slot + 1);
            }
            slot += 1;
        }
    }

    /// Hand out the next tracking id.
    pub fn take_tracking_id(&mut self) -> (id: i32)
        ensures
            id == old(self)@.next,
            final(self)@ == (TouchState { next: following(id), ..old(self)@ }),
    {
        let id: i32 = self.next_tracking_id;
        self.next_tracking_id = if id == i32::MAX {
            0
        } else {
            id + 1
        };
        id
    }

    /// Append the position events of the contact in `slot`.
    pub fn position(&self, slot: i32, x: i32, y: i32, out: &mut Vec<Ev>)
        ensures
            final(out)@ == old(out)@ + position_events(self@.is_primary(slot), x, y),
    {
        out.push((EV_ABS, ABS_MT_POSITION_X, x));
        out.push((EV_ABS, ABS_MT_POSITION_Y, y));
        if self.live.len() > 0 && self.live[0].slot == slot {
            out.push((EV_ABS, ABS_X, x));
            out.push((EV_ABS, ABS_Y, y));
        }
    }

    /// Begin to track `id` at `(x, y)`. `None` when every slot is taken: a newcomer is dropped and
    /// never evicts a finger that the compositor is tracking.
    pub fn down(&mut self, id: u32, x: i32, y: i32) -> (frame: Option<Vec<Ev>>)
        ensures
            old(self)@.wf() && !old(self)@.tracks(id) ==> final(self)@.wf(),
            old(self)@.live.len() >= MAX_CONTACTS ==> frame is None && final(self)@ == old(self)@,
            old(self)@.live.len() < MAX_CONTACTS ==> {
                &&& frame_view(frame) == Some(old(self)@.down_frame(x, y))
                &&& final(self)@ == old(self)@.with_down(id)
            },
    {
        if self.live.len() >= MAX_CONTACTS {
            return None;
        }
        let slot = self.free_slot();
        let tracking = self.take_tracking_id();
        let first: bool = self.live.len() == 0;
        self.live.push(Contact { id, slot });
        let mut out: Vec<Ev> = Vec::new();
        out.push((EV_ABS, ABS_MT_SLOT, slot));
        out.push((EV_ABS, ABS_MT_TRACKING_ID, tracking));
        self.position(slot, x, y, &mut out);
        if first {
            out.push((EV_KEY, BTN_TOUCH, 1));
        }
        proof {
            let before = old(self)@;
            assert(!before.taken(slot as int));
            assert(self@.is_primary(slot) == first) by {
                if !first {
                    assert(before.live[0] == self@.live[0]);
                }
            }
            assert forall|i: int, j: int|
                before.wf() && !before.tracks(id) && 0 <= i < j < self@.live.len() implies {
                &&& (#[trigger] self@.live[i]).id != (#[trigger] self@.live[j]).id
                &&& self@.live[i].slot != self@.live[j].slot
            } by {
                assert(self@.live[i] == before.live[i]);
                if j < before.live.len() {
                    assert(self@.live[j] == before.live[j]);
                }
            }
            assert(out@ == before.down_frame(x, y));
        }
        Some(out)
    }

    /// The frame that expresses one wire touch event. `None` where there is nothing to send.
    pub fn frame(&mut self, ev: &InputEvent) -> (frame: Option<Vec<Ev>>)
        requires
            old(self)@.wf(),
        ensures
            final(self)@.wf(),
            frame_view(frame) == old(self)@.frame(*ev),
            final(self)@ == old(self)@.after(*ev),
    {
        if ev.kind == InputKind::TouchUp {
            let i: usize = match self.find(ev.code) {
                Some(i) => i,
                None => {
                    return None;
                },
            };
            let slot: i32 = self.live.remove(i).slot;
            let mut out: Vec<Ev> = Vec::new();
            out.push((EV_ABS, ABS_MT_SLOT, slot));
            out.push((EV_ABS, ABS_MT_TRACKING_ID, LIFTED));
            if self.live.len() == 0 {
                out.push((EV_KEY, BTN_TOUCH, 0));
            }
            assert(out@ == old(self)@.lift_frame(ev.code));
            return Some(out);
        }
        let w: u32 = (ev.flags >> 16) & 0xffff;
        let h: u32 = ev.flags & 0xffff;
        proof {
            let flags = ev.flags;
            assert((flags >> 16) & 0xffff == flags / 0x1_0000) by (bit_vector);
            assert(flags & 0xffff == flags % 0x1_0000) by (bit_vector);
        }
        if w == 0 || h == 0 {
            return None;
        }
        let x: i32 = scale(ev.x, w);
        let y: i32 = scale(ev.y, h);
        match self.find(ev.code) {
            Some(i) => {
                let slot: i32 = self.live[i].slot;
                let mut out: Vec<Ev> = Vec::new();
                out.push((EV_ABS, ABS_MT_SLOT, slot));
                self.position(slot, x, y, &mut out);
                assert(out@ == self@.move_frame(ev.code, x, y));
                Some(out)
            },
            // A finger that is not down: a fresh touch, or a move whose touch was lost on the
            // unreliable datagram plane. The contact begins here, so the stroke heals itself.
            None => self.down(ev.code, x, y),
        }
    }

    /// The frame that lifts every finger still down, for when the device goes away: the
    /// compositor then need not invent an end for a stroke. `None` where nothing is down.
    pub fn release(&self) -> (frame: Option<Vec<Ev>>)
        ensures
            frame_view(frame) == self@.release_frame(),
    {
        if self.live.len() == 0 {
            return None;
        }
        let mut out: Vec<Ev> = Vec::new();
        let mut i: usize = 0;
        while i < self.live.len()
            invariant
                i <= self.live@.len(),
                out@ == self@.lifts_to(i as int),
            decreases self.live@.len() - i,
        {
            out.push((EV_ABS, ABS_MT_SLOT, self.live[i].slot));
            out.push((EV_ABS, ABS_MT_TRACKING_ID, LIFTED));
            i += 1;
            assert(out@ == self@.lifts_to(i as int));
        }
        out.push((EV_KEY, BTN_TOUCH, 0));
        assert(out@ == self@.lifts_to(self@.live.len() as int) + button(true, 0));
        Some(out)
    }
}

/// The axis bounds every scaled coordinate.
pub proof fn lemma_scaled_in_range(v: int, extent: int)
    requires
        0 <= extent,
    ensures
        0 <= scaled(v, extent) <= ABS_MAX,
{
    if extent > 0 {
        let inside = if v < 0 {
            0
        } else if v > extent {
            extent
        } else {
            v
        };
        assert(0 <= inside * 65535 / extent <= 65535) by (nonlinear_arith)
            requires
                0 <= inside <= extent,
                extent > 0,
        ;
    }
}

/// Wire pixel to axis position, clamped to the surface: a touch a pixel outside the client's
/// content must not wrap around the output.
pub fn scale(v: i32, extent: u32) -> (r: i32)
    ensures
        r == scaled(v as int, extent as int),
        0 <= r <= ABS_MAX,
{
    proof {
        lemma_scaled_in_range(v as int, extent as int);
    }
    if extent == 0 {
        return 0;
    }
    let extent: i64 = extent as i64;
    let inside: i64 = if v < 0 {
        0
    } else if v as i64 > extent {
        extent
    } else {
        v as i64
    };
    (inside * ABS_MAX as i64 / extent) as i32
}

/// The model of the contacts is what they hold, finger by finger, and that of a frame its events.
pub proof fn law_contacts_are_modelled_as_held(c: Contacts, frame: Vec<Ev>)
    ensures
        c@.live == c.live@,
        c@.next == c.next_tracking_id,
        frame_view(Some(frame)) == Some(frame@),
        frame_view(None) is None,
{
}

} // verus!
