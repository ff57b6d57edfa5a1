//! What the touch frames add up to for whoever reads them.
//!
//! [`Receiver`] is the reader's side of the protocol, as far as the frames speak of it. The laws
//! hold for every state that the contacts can be in and for every wire event.

use vstd::prelude::*;

use crate::contacts::{
    button, following, lemma_free_slot_unique, lemma_scaled_in_range, lemma_slots_run_out,
    position_events, scaled, select, track, Contact, InputEvent, InputKind, TouchState, ABS_MAX,
    LIFTED, MAX_CONTACTS,
};
use crate::evdev::{
    Ev, ABS_MT_POSITION_X, ABS_MT_POSITION_Y, ABS_MT_SLOT, ABS_MT_TRACKING_ID, ABS_X, ABS_Y,
    BTN_TOUCH, EV_ABS, EV_KEY,
};

verus! {

/// What a reader of the device has been told.
#[verifier::ext_equal]
pub struct Receiver {
    /// The slot that multitouch events speak of.
    pub slot: int,
    /// The tracking id in each slot that holds a contact.
    pub tracking: Map<int, int>,
    /// The last position told in each slot.
    pub x: Map<int, int>,
    pub y: Map<int, int>,
    /// The position on the single-touch axes.
    pub single_x: int,
    pub single_y: int,
    /// Is `BTN_TOUCH` pressed?
    pub touch: bool,
}

impl Receiver {
    /// The reader after one event.
    pub open spec fn hears(self, ev: Ev) -> Receiver {
        let value = ev.2 as int;
        if ev.0 == EV_ABS && ev.1 == ABS_MT_SLOT {
            Receiver { slot: value, ..self }
        } else if ev.0 == EV_ABS && ev.1 == ABS_MT_TRACKING_ID && ev.2 == LIFTED {
            Receiver { tracking: self.tracking.remove(self.slot), ..self }
        } else if ev.0 == EV_ABS && ev.1 == ABS_MT_TRACKING_ID {
            Receiver { tracking: self.tracking.insert(self.slot, value), ..self }
        } else if ev.0 == EV_ABS && ev.1 == ABS_MT_POSITION_X {
            Receiver { x: self.x.insert(self.slot, value), ..self }
        } else if ev.0 == EV_ABS && ev.1 == ABS_MT_POSITION_Y {
            Receiver { y: self.y.insert(self.slot, value), ..self }
        } else if ev.0 == EV_ABS && ev.1 == ABS_X {
            Receiver { single_x: value, ..self }
        } else if ev.0 == EV_ABS && ev.1 == ABS_Y {
            Receiver { single_y: value, ..self }
        } else if ev.0 == EV_KEY && ev.1 == BTN_TOUCH {
            Receiver { touch: value != 0, ..self }
        } else {
            self
        }
    }

    /// The reader after a run of events.
    pub open spec fn hears_all(self, evs: Seq<Ev>) -> Receiver
        decreases evs.len(),
    {
        if evs.len() == 0 {
            self
        } else {
            self.hears_all(evs.drop_last()).hears(evs.last())
        }
    }

    /// The reader after a frame, if there is one.
    pub open spec fn hears_frame(self, frame: Option<Seq<Ev>>) -> Receiver {
        match frame {
            Some(evs) => self.hears_all(evs),
            None => self,
        }
    }

    /// The reader believes what the contacts hold: a contact in exactly the slots that live
    /// fingers own, and a touch exactly while a finger is down.
    pub open spec fn agrees(self, s: TouchState) -> bool {
        &&& forall|slot: int| #[trigger] self.tracking.contains_key(slot) <==> s.taken(slot)
        &&& self.touch == (s.live.len() > 0)
    }
}

/// The state after a run of wire events.
pub open spec fn after_all(s: TouchState, evs: Seq<InputEvent>) -> TouchState
    decreases evs.len(),
{
    if evs.len() == 0 {
        s
    } else {
        after_all(s, evs.drop_last()).after(evs.last())
    }
}

/// The reader after the frames of a run of wire events.
pub open spec fn heard_all(r: Receiver, s: TouchState, evs: Seq<InputEvent>) -> Receiver
    decreases evs.len(),
{
    if evs.len() == 0 {
        r
    } else {
        heard_all(r, s, evs.drop_last()).hears_frame(
            after_all(s, evs.drop_last()).frame(evs.last()),
        )
    }
}

proof fn lemma_hears_concat(r: Receiver, a: Seq<Ev>, b: Seq<Ev>)
    ensures
        r.hears_all(a + b) == r.hears_all(a).hears_all(b),
    decreases b.len(),
{
    if b.len() == 0 {
        assert(a + b == a);
    } else {
        lemma_hears_concat(r, a, b.drop_last());
        assert((a + b).drop_last() == a + b.drop_last());
    }
}

proof fn lemma_hears_one(r: Receiver, ev: Ev)
    ensures
        r.hears_all(seq![ev]) == r.hears(ev),
{
    assert(seq![ev].drop_last() == Seq::<Ev>::empty());
    assert(r.hears_all(Seq::<Ev>::empty()) == r);
}

proof fn lemma_hears_position(r: Receiver, primary: bool, x: i32, y: i32)
    ensures
        r.hears_all(position_events(primary, x, y)) == (Receiver {
            x: r.x.insert(r.slot, x as int),
            y: r.y.insert(r.slot, y as int),
            single_x: if primary {
                x as int
            } else {
                r.single_x
            },
            single_y: if primary {
                y as int
            } else {
                r.single_y
            },
            ..r
        }),
{
    let at_x = (EV_ABS, ABS_MT_POSITION_X, x);
    let at_y = (EV_ABS, ABS_MT_POSITION_Y, y);
    let place = seq![at_x, at_y];
    assert(place == seq![at_x] + seq![at_y]);
    lemma_hears_concat(r, seq![at_x], seq![at_y]);
    lemma_hears_one(r, at_x);
    lemma_hears_one(r.hears(at_x), at_y);
    let placed = r.hears_all(place);
    if primary {
        let single_x = (EV_ABS, ABS_X, x);
        let single_y = (EV_ABS, ABS_Y, y);
        let single = seq![single_x, single_y];
        assert(single == seq![single_x] + seq![single_y]);
        lemma_hears_concat(r, place, single);
        lemma_hears_concat(placed, seq![single_x], seq![single_y]);
        lemma_hears_one(placed, single_x);
        lemma_hears_one(placed.hears(single_x), single_y);
    }
}

proof fn lemma_hears_button(r: Receiver, flip: bool, value: i32)
    ensures
        r.hears_all(button(flip, value)) == (Receiver {
            touch: if flip {
                value != 0
            } else {
                r.touch
            },
            ..r
        }),
{
    if flip {
        lemma_hears_one(r, (EV_KEY, BTN_TOUCH, value));
    }
}

/// A slot that is free exists while fewer contacts than slots are live.
proof fn lemma_free_slot(s: TouchState, least: int)
    requires
        s.wf(),
        s.live.len() < MAX_CONTACTS,
        0 <= least <= s.live.len(),
        forall|slot: int| 0 <= slot < least ==> s.taken(slot),
    ensures
        s.is_free_slot(s.free_slot() as int),
        s.free_slot() <= s.live.len(),
    decreases s.live.len() - least,
{
    if s.taken(least) {
        assert(forall|slot: int| 0 <= slot < least + 1 ==> s.taken(slot));
        lemma_slots_run_out(s, least + 1);
        lemma_free_slot(s, least + 1);
    } else {
        assert(s.is_free_slot(least));
        lemma_free_slot_unique(s, least as i32);
    }
}

proof fn lemma_index(s: TouchState, id: u32)
    requires
        s.tracks(id),
    ensures
        0 <= s.index(id) < s.live.len(),
        s.live[s.index(id)].id == id,
{
}

/// Every event keeps at most one contact per slot and per finger.
pub proof fn law_state_stays_well_formed(s: TouchState, ev: InputEvent)
    requires
        s.wf(),
    ensures
        s.after(ev).wf(),
{
    let t = s.after(ev);
    if s.opens(ev) {
        lemma_free_slot(s, 0);
        assert forall|i: int, j: int| 0 <= i < j < t.live.len() implies {
            &&& (#[trigger] t.live[i]).id != (#[trigger] t.live[j]).id
            &&& t.live[i].slot != t.live[j].slot
        } by {
            assert(t.live[i] == s.live[i]);
            if j < s.live.len() {
                assert(t.live[j] == s.live[j]);
            }
        }
    }
}

/// The reader of the frames always believes what the contacts hold, and what it believes of a
/// slot that the event does not speak of stays as it was.
pub proof fn law_receiver_agrees(r: Receiver, s: TouchState, ev: InputEvent)
    requires
        s.wf(),
        r.agrees(s),
    ensures
        r.hears_frame(s.frame(ev)).agrees(s.after(ev)),
        forall|i: int|
            0 <= i < s.live.len() && (#[trigger] s.live[i]).id != ev.code ==> {
                let slot = s.live[i].slot as int;
                let told = r.hears_frame(s.frame(ev));
                &&& told.tracking.contains_key(slot)
                &&& told.tracking[slot] == r.tracking[slot]
                &&& r.x.contains_key(slot) ==> told.x.contains_key(slot) && told.x[slot]
                    == r.x[slot]
                &&& r.y.contains_key(slot) ==> told.y.contains_key(slot) && told.y[slot]
                    == r.y[slot]
            },
        // A finger that is down after a touch or a move is where the event puts it.
        s.answers(ev) && !(ev.kind is TouchUp) ==> {
            let t = s.after(ev);
            let slot = t.live[t.index(ev.code)].slot as int;
            let told = r.hears_frame(s.frame(ev));
            &&& t.tracks(ev.code)
            &&& told.x.contains_key(slot) && told.x[slot] == ev.target_x()
            &&& told.y.contains_key(slot) && told.y[slot] == ev.target_y()
        },
        // A new contact has the state's next tracking id, in a slot that held no contact.
        s.opens(ev) ==> {
            let slot = s.free_slot() as int;
            let told = r.hears_frame(s.frame(ev));
            &&& !r.tracking.contains_key(slot)
            &&& told.tracking.contains_key(slot) && told.tracking[slot] == s.next
        },
{
    let t = s.after(ev);
    let told = r.hears_frame(s.frame(ev));
    law_state_stays_well_formed(s, ev);
    assert forall|i: int| 0 <= i < s.live.len() implies r.tracking.contains_key(
        (#[trigger] s.live[i]).slot as int,
    ) by {
        assert(s.taken(s.live[i].slot as int));
    }
    if s.answers(ev) {
        if s.opens(ev) {
            lemma_free_slot(s, 0);
            let slot = s.free_slot();
            let first = s.live.len() == 0;
            let (x, y) = (ev.target_x(), ev.target_y());
            lemma_hears_one(r, (EV_ABS, ABS_MT_SLOT, slot));
            let r1 = r.hears_all(select(slot));
            lemma_hears_concat(r, select(slot), track(s.next));
            lemma_hears_one(r1, (EV_ABS, ABS_MT_TRACKING_ID, s.next));
            let r2 = r1.hears_all(track(s.next));
            lemma_hears_concat(r, select(slot) + track(s.next), position_events(first, x, y));
            lemma_hears_position(r2, first, x, y);
            let r3 = r2.hears_all(position_events(first, x, y));
            lemma_hears_concat(
                r,
                select(slot) + track(s.next) + position_events(first, x, y),
                button(first, 1),
            );
            lemma_hears_button(r3, first, 1);
            assert(t.live.last() == (Contact { id: ev.code, slot }));
            assert forall|k: int| #[trigger] told.tracking.contains_key(k) <==> t.taken(k) by {
                if k == slot {
                    assert(t.live[s.live.len() as int].slot == k);
                } else if s.taken(k) {
                    let i = choose|i: int| 0 <= i < s.live.len() && (#[trigger] s.live[i]).slot
                        == k;
                    assert(t.live[i] == s.live[i]);
                } else if t.taken(k) {
                    let i = choose|i: int| 0 <= i < t.live.len() && (#[trigger] t.live[i]).slot
                        == k;
                    assert(t.live[i] == s.live[i]);
                }
            }
            assert(t.tracks(ev.code)) by {
                assert(t.live[s.live.len() as int].id == ev.code);
            }
            lemma_index(t, ev.code);
            assert forall|i: int| 0 <= i < s.live.len() && (#[trigger] s.live[i]).id
                != ev.code implies s.live[i].slot != slot by {
                assert(s.taken(s.live[i].slot as int));
            }
        } else {
            lemma_index(s, ev.code);
            let at = s.index(ev.code);
            let slot = s.live[at].slot;
            lemma_hears_one(r, (EV_ABS, ABS_MT_SLOT, slot));
            let r1 = r.hears_all(select(slot));
            if ev.kind is TouchUp {
                let last = s.live.len() == 1;
                lemma_hears_concat(r, select(slot), track(LIFTED));
                lemma_hears_one(r1, (EV_ABS, ABS_MT_TRACKING_ID, LIFTED));
                let r2 = r1.hears_all(track(LIFTED));
                lemma_hears_concat(r, select(slot) + track(LIFTED), button(last, 0));
                lemma_hears_button(r2, last, 0);
                assert forall|k: int| #[trigger] told.tracking.contains_key(k) <==> t.taken(k) by {
                    if t.taken(k) {
                        let i = choose|i: int| 0 <= i < t.live.len() && (#[trigger] t.live[i]).slot
                            == k;
                        let j = if i < at {
                            i
                        } else {
                            i + 1
                        };
                        assert(t.live[i] == s.live[j]);
                        assert(s.taken(k));
                    } else if k != slot && s.taken(k) {
                        let j = choose|j: int| 0 <= j < s.live.len() && (#[trigger] s.live[j]).slot
                            == k;
                        let i = if j < at {
                            j
                        } else {
                            j - 1
                        };
                        assert(t.live[i] == s.live[j]);
                    }
                }
            } else {
                let (x, y) = (ev.target_x(), ev.target_y());
                let primary = s.is_primary(slot);
                lemma_hears_concat(r, select(slot), position_events(primary, x, y));
                lemma_hears_position(r1, primary, x, y);
            }
        }
    }
}

/// From an untouched device on, the reader believes what the contacts hold after any run of wire
/// events.
pub proof fn law_receiver_agrees_throughout(r: Receiver, s: TouchState, evs: Seq<InputEvent>)
    requires
        s.wf(),
        r.agrees(s),
    ensures
        after_all(s, evs).wf(),
        heard_all(r, s, evs).agrees(after_all(s, evs)),
    decreases evs.len(),
{
    if evs.len() > 0 {
        law_receiver_agrees_throughout(r, s, evs.drop_last());
        let before = after_all(s, evs.drop_last());
        law_state_stays_well_formed(before, evs.last());
        law_receiver_agrees(heard_all(r, s, evs.drop_last()), before, evs.last());
    }
}

proof fn lemma_lifts(r: Receiver, s: TouchState, to: int)
    requires
        s.wf(),
        r.agrees(s),
        0 <= to <= s.live.len(),
    ensures
        forall|slot: int| #[trigger]
            r.hears_all(s.lifts_to(to)).tracking.contains_key(slot) <==> s.taken(slot) && forall|
                i: int,
            |
                0 <= i < to ==> (#[trigger] s.live[i]).slot != slot,
    decreases to,
{
    if to > 0 {
        lemma_lifts(r, s, to - 1);
        let slot = s.live[to - 1].slot;
        let before = s.lifts_to(to - 1);
        let r0 = r.hears_all(before);
        lemma_hears_concat(r, before, select(slot));
        lemma_hears_one(r0, (EV_ABS, ABS_MT_SLOT, slot));
        let r1 = r0.hears_all(select(slot));
        lemma_hears_concat(r, before + select(slot), track(LIFTED));
        lemma_hears_one(r1, (EV_ABS, ABS_MT_TRACKING_ID, LIFTED));
    }
}

/// The frame that is sent before the device goes away leaves no contact and no pressed button
/// behind.
pub proof fn law_release_lifts_everything(r: Receiver, s: TouchState)
    requires
        s.wf(),
        r.agrees(s),
    ensures
        r.hears_frame(s.release_frame()).tracking == Map::<int, int>::empty(),
        !r.hears_frame(s.release_frame()).touch,
{
    let told = r.hears_frame(s.release_frame());
    if s.live.len() > 0 {
        let n = s.live.len() as int;
        lemma_lifts(r, s, n);
        lemma_hears_concat(r, s.lifts_to(n), button(true, 0));
        lemma_hears_button(r.hears_all(s.lifts_to(n)), true, 0);
    }
    assert forall|slot: int| !(#[trigger] told.tracking.contains_key(slot)) by {
        if s.taken(slot) {
            let i = choose|i: int| 0 <= i < s.live.len() && (#[trigger] s.live[i]).slot == slot;
            assert(s.live[i].slot == slot);
        }
    }
    assert(told.tracking == Map::<int, int>::empty());
}

/// `BTN_TOUCH` belongs to the first finger down and to the last one up: a frame presses it exactly
/// when the first contact begins, and releases it exactly when the last one ends.
pub proof fn law_button_marks_first_and_last(s: TouchState, ev: InputEvent)
    requires
        s.wf(),
    ensures
        s.frame(ev) matches Some(evs) ==> forall|i: int|
            0 <= i < evs.len() && (#[trigger] evs[i]).1 == BTN_TOUCH ==> evs[i] == (
                EV_KEY,
                BTN_TOUCH,
                if s.live.len() == 0 {
                    1i32
                } else {
                    0i32
                },
            ),
        (s.frame(ev) matches Some(evs) && exists|i: int|
            0 <= i < evs.len() && (#[trigger] evs[i]).1 == BTN_TOUCH) <==> (s.live.len() == 0) != (
        s.after(ev).live.len() == 0),
{
    if s.answers(ev) {
        let evs = s.frame(ev)->0;
        if s.opens(ev) {
            let slot = s.free_slot();
            let first = s.live.len() == 0;
            if first {
                assert(evs.last() == (EV_KEY, BTN_TOUCH, 1i32));
                assert(evs[evs.len() - 1].1 == BTN_TOUCH);
            }
        } else {
            lemma_index(s, ev.code);
            if ev.kind is TouchUp && s.live.len() == 1 {
                assert(evs.last() == (EV_KEY, BTN_TOUCH, 0i32));
                assert(evs[evs.len() - 1].1 == BTN_TOUCH);
            }
        }
    }
}

/// No event takes the slot of a live finger away but that finger's own lift.
pub proof fn law_no_eviction(s: TouchState, ev: InputEvent, c: Contact)
    requires
        s.wf(),
        s.live.contains(c),
        !(ev.kind is TouchUp && ev.code == c.id),
    ensures
        s.after(ev).live.contains(c),
{
    let i = choose|i: int| 0 <= i < s.live.len() && s.live[i] == c;
    let t = s.after(ev);
    if s.answers(ev) && ev.kind is TouchUp {
        lemma_index(s, ev.code);
        let at = s.index(ev.code);
        if i < at {
            assert(t.live[i] == c);
        } else {
            assert(t.live[i - 1] == c);
        }
    } else {
        assert(t.live[i] == c);
    }
}

/// A lift undoes the touch that it ends: the other contacts are as they were, and only the
/// tracking id has moved on.
pub proof fn law_lift_undoes_touch(s: TouchState, down: InputEvent, up: InputEvent)
    requires
        s.wf(),
        s.opens(down),
        up.kind is TouchUp,
        up.code == down.code,
    ensures
        s.after(down).answers(up),
        s.after(down).after(up).live == s.live,
        s.after(down).after(up).next == following(s.next),
{
    let t = s.after(down);
    law_state_stays_well_formed(s, down);
    assert(t.live[s.live.len() as int].id == up.code);
    assert(t.tracks(up.code));
    lemma_index(t, up.code);
    assert(t.live.remove(t.index(up.code)) == s.live);
}

/// A move for a finger that is not down does what a touch does: a touch that was lost on the way
/// heals with the next move.
pub proof fn law_move_heals_a_lost_touch(s: TouchState, touch: InputEvent, moved: InputEvent)
    requires
        touch.kind is TouchDown,
        moved == (InputEvent { kind: InputKind::TouchMove, ..touch }),
    ensures
        s.frame(moved) == s.frame(touch),
        s.after(moved) == s.after(touch),
{
}

/// Only the oldest live finger drives the single-touch axes, and it drives both of them with its
/// own position whenever it moves.
pub proof fn law_single_touch_follows_the_oldest(s: TouchState, ev: InputEvent)
    requires
        s.wf(),
        s.answers(ev),
        !(ev.kind is TouchUp),
    ensures
        s.after(ev).live[0].id == ev.code ==> {
            &&& s.frame(ev)->0.contains((EV_ABS, ABS_X, ev.target_x()))
            &&& s.frame(ev)->0.contains((EV_ABS, ABS_Y, ev.target_y()))
        },
        s.after(ev).live[0].id != ev.code ==> forall|i: int|
            0 <= i < s.frame(ev)->0.len() ==> {
                &&& (#[trigger] s.frame(ev)->0[i]).1 != ABS_X
                &&& s.frame(ev)->0[i].1 != ABS_Y
            },
{
    let evs = s.frame(ev)->0;
    if s.opens(ev) {
        if s.live.len() == 0 {
            assert(evs[4] == (EV_ABS, ABS_X, ev.target_x()));
            assert(evs[5] == (EV_ABS, ABS_Y, ev.target_y()));
        } else {
            assert(s.after(ev).live[0] == s.live[0]);
            assert(s.live[0].id != ev.code);
        }
    } else {
        lemma_index(s, ev.code);
        if s.is_primary(s.live[s.index(ev.code)].slot) {
            assert(evs[3] == (EV_ABS, ABS_X, ev.target_x()));
            assert(evs[4] == (EV_ABS, ABS_Y, ev.target_y()));
        }
    }
}

/// How many contacts a run of events begins.
pub open spec fn opened(s: TouchState, evs: Seq<InputEvent>) -> int
    decreases evs.len(),
{
    if evs.len() == 0 {
        0
    } else {
        opened(s, evs.drop_last()) + if after_all(s, evs.drop_last()).opens(evs.last()) {
            1int
        } else {
            0
        }
    }
}

/// Tracking ids are handed out in turn: after a run of events the next one is as many steps on as
/// contacts have begun.
pub proof fn law_tracking_ids_count_touches(s: TouchState, evs: Seq<InputEvent>)
    requires
        s.wf(),
    ensures
        0 <= opened(s, evs) <= evs.len(),
        after_all(s, evs).next == (s.next + opened(s, evs)) % 0x8000_0000,
    decreases evs.len(),
{
    if evs.len() > 0 {
        law_tracking_ids_count_touches(s, evs.drop_last());
        let before = after_all(s, evs.drop_last());
        let k = s.next + opened(s, evs.drop_last());
        if before.opens(evs.last()) {
            assert((k + 1) % 0x8000_0000 == if k % 0x8000_0000 == 0x7fff_ffff {
                0
            } else {
                k % 0x8000_0000 + 1
            });
        }
    }
}

proof fn lemma_opened_grows(s: TouchState, evs: Seq<InputEvent>, i: int, j: int)
    requires
        0 <= i < j <= evs.len(),
        after_all(s, evs.take(i)).opens(evs[i]),
    ensures
        opened(s, evs.take(i)) < opened(s, evs.take(j)),
    decreases j,
{
    assert(evs.take(j).drop_last() == evs.take(j - 1));
    if i < j - 1 {
        lemma_opened_grows(s, evs, i, j - 1);
    }
}

/// Two touches of one session never share a tracking id, so a slot that is used again is always
/// seen as a new touch. (The counter comes round after 2^31 touches, however many events they
/// take.)
pub proof fn law_tracking_ids_are_fresh(s: TouchState, evs: Seq<InputEvent>, i: int, j: int)
    requires
        s.wf(),
        0 <= i < j < evs.len(),
        opened(s, evs.take(j)) - opened(s, evs.take(i)) < 0x8000_0000,
        after_all(s, evs.take(i)).opens(evs[i]),
        after_all(s, evs.take(j)).opens(evs[j]),
    ensures
        after_all(s, evs.take(i)).frame(evs[i])->0[1] == (
            EV_ABS,
            ABS_MT_TRACKING_ID,
            after_all(s, evs.take(i)).next,
        ),
        after_all(s, evs.take(j)).frame(evs[j])->0[1] == (
            EV_ABS,
            ABS_MT_TRACKING_ID,
            after_all(s, evs.take(j)).next,
        ),
        after_all(s, evs.take(i)).next != after_all(s, evs.take(j)).next,
{
    law_tracking_ids_count_touches(s, evs.take(i));
    law_tracking_ids_count_touches(s, evs.take(j));
    lemma_opened_grows(s, evs, i, j);
    let a = s.next + opened(s, evs.take(i));
    let b = s.next + opened(s, evs.take(j));
    assert(a % 0x8000_0000 != b % 0x8000_0000);
}

/// The scale spans the surface: its near edge is the axis origin, its far edge, and nothing short
/// of it, the axis maximum, a sample outside is clamped to the edge it lies beyond, and order is
/// kept.
pub proof fn law_scale_spans_the_surface(v: int, w: int, extent: int)
    requires
        0 < extent,
    ensures
        v <= 0 ==> scaled(v, extent) == 0,
        v >= extent <==> scaled(v, extent) == ABS_MAX,
        0 <= scaled(v, extent) <= ABS_MAX,
        v <= w ==> scaled(v, extent) <= scaled(w, extent),
{
    lemma_scaled_in_range(v, extent);
    let inside_v = if v < 0 {
        0
    } else if v > extent {
        extent
    } else {
        v
    };
    let inside_w = if w < 0 {
        0
    } else if w > extent {
        extent
    } else {
        w
    };
    assert(extent * 65535 / extent == 65535) by (nonlinear_arith)
        requires
            extent > 0,
    ;
    assert(0int * 65535 / extent == 0) by (nonlinear_arith)
        requires
            extent > 0,
    ;
    if v < extent {
        assert(inside_v * 65535 / extent < 65535) by (nonlinear_arith)
            requires
                0 <= inside_v < extent,
        ;
    }
    if v <= w {
        assert(inside_v * 65535 / extent <= inside_w * 65535 / extent) by (nonlinear_arith)
            requires
                inside_v <= inside_w,
                extent > 0,
        ;
    }
}

/// A touch or a move that is answered tells the reader its place: each axis in proportion to its
/// own side of the surface, the width in the high half of the flags and the height in the low one.
/// A sample outside the surface is told at the edge, and the far edge, and nothing short of it, is
/// full scale.
pub proof fn law_each_axis_is_scaled_by_its_own_side(s: TouchState, ev: InputEvent, w: int, h: int)
    requires
        s.wf(),
        1 <= w <= 0xffff,
        1 <= h <= 0xffff,
        ev.flags == w * 0x1_0000 + h,
        !(ev.kind is TouchUp),
        s.frame(ev) is Some,
    ensures
        exists|k: int|
            0 <= k < s.frame(ev)->0.len() && (#[trigger] s.frame(ev)->0[k]).0 == 3
                && s.frame(ev)->0[k].1 == 0x35,
        exists|k: int|
            0 <= k < s.frame(ev)->0.len() && (#[trigger] s.frame(ev)->0[k]).0 == 3
                && s.frame(ev)->0[k].1 == 0x36,
        forall|k: int|
            0 <= k < s.frame(ev)->0.len() && (#[trigger] s.frame(ev)->0[k]).0 == 3 ==> {
                let told = s.frame(ev)->0[k].2;
                &&& s.frame(ev)->0[k].1 == 0x35 || s.frame(ev)->0[k].1 == 0x00 ==> {
                    &&& told == (if ev.x < 0 {
                        0
                    } else if ev.x > w {
                        w
                    } else {
                        ev.x as int
                    }) * 65535 / w
                    &&& told == 65535 <==> ev.x >= w
                }
                &&& s.frame(ev)->0[k].1 == 0x36 || s.frame(ev)->0[k].1 == 0x01 ==> {
                    &&& told == (if ev.y < 0 {
                        0
                    } else if ev.y > h {
                        h
                    } else {
                        ev.y as int
                    }) * 65535 / h
                    &&& told == 65535 <==> ev.y >= h
                }
            },
{
    law_scale_spans_the_surface(ev.x as int, ev.x as int, w);
    law_scale_spans_the_surface(ev.y as int, ev.y as int, h);
    assert(ev.surface_width() == w && ev.surface_height() == h);
    let evs = s.frame(ev)->0;
    if s.tracks(ev.code) {
        assert(evs[1] == (EV_ABS, ABS_MT_POSITION_X, ev.target_x()));
        assert(evs[2] == (EV_ABS, ABS_MT_POSITION_Y, ev.target_y()));
    } else {
        assert(evs[2] == (EV_ABS, ABS_MT_POSITION_X, ev.target_x()));
        assert(evs[3] == (EV_ABS, ABS_MT_POSITION_Y, ev.target_y()));
    }
}

/// A finger that was not down, and finds a slot, begins a contact: its frame selects the lowest
/// slot that no finger has, opens it under the next tracking id and tells the place there. The
/// first finger down also drives the single-touch axes and presses the button.
pub proof fn law_a_new_finger_begins_a_contact(s: TouchState, ev: InputEvent, lower: int)
    requires
        s.wf(),
        !(ev.kind is TouchUp),
        ev.flags >= 0x1_0000,
        ev.flags as int % 0x1_0000 != 0,
        s.live.len() < 10,
        forall|i: int| 0 <= i < s.live.len() ==> (#[trigger] s.live[i]).id != ev.code,
    ensures
        s.frame(ev) matches Some(evs) && {
            &&& evs.len() == if s.live.len() == 0 {
                7int
            } else {
                4
            }
            &&& evs[0].0 == 3 && evs[0].1 == 0x2f
            &&& 0 <= evs[0].2 < 10
            &&& forall|i: int| 0 <= i < s.live.len() ==> (#[trigger] s.live[i]).slot != evs[0].2
            &&& 0 <= lower < evs[0].2 ==> exists|i: int|
                0 <= i < s.live.len() && (#[trigger] s.live[i]).slot == lower
            &&& evs[1] == (3u16, 0x39u16, s.next)
            &&& evs[2].0 == 3 && evs[2].1 == 0x35
            &&& evs[3].0 == 3 && evs[3].1 == 0x36
            &&& s.live.len() == 0 ==> evs[4] == (3u16, 0x00u16, evs[2].2) && evs[5] == (
                3u16,
                0x01u16,
                evs[3].2,
            ) && evs[6] == (1u16, 0x14au16, 1i32)
            &&& s.after(ev).live == s.live.push(Contact { id: ev.code, slot: evs[0].2 })
            &&& s.after(ev).next == (s.next + 1) % 0x8000_0000
        },
{
    lemma_free_slot(s, 0);
    law_state_stays_well_formed(s, ev);
    let slot = s.free_slot();
    assert(s.after(ev).live.last().slot == slot);
    assert forall|i: int| 0 <= i < s.live.len() implies (#[trigger] s.live[i]).slot != slot by {
        assert(!s.taken(slot as int));
    }
    if 0 <= lower < slot {
        assert(s.taken(lower));
    }
}

/// A finger that is down stays in its slot and under its tracking id: its frame selects that slot
/// and tells the place, on the single-touch axes too where it is the oldest finger, and nothing
/// else. A repeated touch is such a move.
pub proof fn law_a_known_finger_only_moves(s: TouchState, ev: InputEvent, i: int)
    requires
        s.wf(),
        !(ev.kind is TouchUp),
        ev.flags >= 0x1_0000,
        ev.flags as int % 0x1_0000 != 0,
        0 <= i < s.live.len(),
        s.live[i].id == ev.code,
    ensures
        s.frame(ev) matches Some(evs) && {
            &&& evs.len() == if i == 0 {
                5int
            } else {
                3
            }
            &&& evs[0] == (3u16, 0x2fu16, s.live[i].slot)
            &&& evs[1].0 == 3 && evs[1].1 == 0x35
            &&& evs[2].0 == 3 && evs[2].1 == 0x36
            &&& i == 0 ==> evs[3] == (3u16, 0x00u16, evs[1].2) && evs[4] == (
                3u16,
                0x01u16,
                evs[2].2,
            )
        },
        s.after(ev) == s,
{
    assert(s.tracks(ev.code));
    lemma_index(s, ev.code);
    assert(s.index(ev.code) == i);
}

/// A lift ends the contact in the finger's slot, and releases the button with the last finger. The
/// other fingers keep their order and their slots.
pub proof fn law_a_lift_ends_the_contact(s: TouchState, ev: InputEvent, i: int)
    requires
        s.wf(),
        ev.kind is TouchUp,
        0 <= i < s.live.len(),
        s.live[i].id == ev.code,
    ensures
        s.frame(ev) matches Some(evs) && evs == seq![
            (3u16, 0x2fu16, s.live[i].slot),
            (3u16, 0x39u16, -1i32),
        ] + if s.live.len() == 1 {
            seq![(1u16, 0x14au16, 0i32)]
        } else {
            Seq::empty()
        },
        s.after(ev).live == s.live.remove(i),
        s.after(ev).next == s.next,
{
    assert(s.tracks(ev.code));
    lemma_index(s, ev.code);
    assert(s.index(ev.code) == i);
}

/// What is dropped, and nothing else: a lift of a finger that is not down, a touch without a
/// surface in both directions, and an eleventh finger. What is dropped changes nothing.
pub proof fn law_what_is_dropped(s: TouchState, ev: InputEvent)
    requires
        s.wf(),
    ensures
        s.frame(ev) is None <==> {
            let down = exists|i: int| 0 <= i < s.live.len() && (#[trigger] s.live[i]).id == ev.code;
            if ev.kind is TouchUp {
                !down
            } else {
                ev.flags < 0x1_0000 || ev.flags as int % 0x1_0000 == 0 || !down && s.live.len()
                    == 10
            }
        },
        s.frame(ev) is None ==> s.after(ev) == s,
{
}

/// The reader sees every answered touch and move in the slot of its finger, each axis in
/// proportion to its own side of the surface.
pub proof fn law_reader_sees_the_finger_in_its_place(
    r: Receiver,
    s: TouchState,
    ev: InputEvent,
    w: int,
    h: int,
    i: int,
)
    requires
        s.wf(),
        r.agrees(s),
        1 <= w <= 0xffff,
        1 <= h <= 0xffff,
        ev.flags == w * 0x1_0000 + h,
        !(ev.kind is TouchUp),
        s.frame(ev) is Some,
        0 <= i < s.after(ev).live.len(),
        s.after(ev).live[i].id == ev.code,
    ensures
        r.hears_frame(s.frame(ev)).x[s.after(ev).live[i].slot as int] == (if ev.x < 0 {
            0
        } else if ev.x > w {
            w
        } else {
            ev.x as int
        }) * 65535 / w,
        r.hears_frame(s.frame(ev)).y[s.after(ev).live[i].slot as int] == (if ev.y < 0 {
            0
        } else if ev.y > h {
            h
        } else {
            ev.y as int
        }) * 65535 / h,
{
    law_receiver_agrees(r, s, ev);
    law_state_stays_well_formed(s, ev);
    let t = s.after(ev);
    assert(t.tracks(ev.code));
    lemma_index(t, ev.code);
    assert(t.index(ev.code) == i);
    assert(ev.surface_width() == w && ev.surface_height() == h);
    lemma_scaled_in_range(ev.x as int, w);
    lemma_scaled_in_range(ev.y as int, h);
}

/// The scale is the proportion rounded down: full scale times the sample, clamped to the surface,
/// lies between the result and its successor times the extent. Without an extent all is at the
/// origin.
pub proof fn law_scale_is_the_proportion(v: int, extent: int)
    requires
        0 <= extent,
    ensures
        extent == 0 ==> scaled(v, extent) == 0,
        extent > 0 && 0 <= v <= extent ==> scaled(v, extent) * extent <= v * 65535 < (scaled(
            v,
            extent,
        ) + 1) * extent,
        extent > 0 && v < 0 ==> scaled(v, extent) == 0,
        extent > 0 && v > extent ==> scaled(v, extent) == 65535,
{
    if extent > 0 {
        law_scale_spans_the_surface(v, v, extent);
        if 0 <= v <= extent {
            let q = v * 65535 / extent;
            assert(q * extent <= v * 65535 < (q + 1) * extent) by (nonlinear_arith)
                requires
                    extent > 0,
                    q == v * 65535 / extent,
            ;
        }
    }
}

} // verus!
