//! Evdev events and the byte image of a frame of them.
//!
//! A frame is a run of events closed by one `SYN_REPORT`. The kernel reads it as an array of
//! `struct input_event` records in their x86_64 layout: sixteen bytes of time stamp, which stay
//! zero (the kernel stamps the events itself), the type and the code as little-endian `u16`, and
//! the value as little-endian `i32`.

use vstd::prelude::*;

verus! {

pub const EV_SYN: u16 = 0x00;

pub const EV_KEY: u16 = 0x01;

pub const EV_ABS: u16 = 0x03;

pub const SYN_REPORT: u16 = 0;

pub const ABS_X: u16 = 0x00;

pub const ABS_Y: u16 = 0x01;

pub const ABS_MT_SLOT: u16 = 0x2f;

pub const ABS_MT_POSITION_X: u16 = 0x35;

pub const ABS_MT_POSITION_Y: u16 = 0x36;

pub const ABS_MT_TRACKING_ID: u16 = 0x39;

pub const BTN_TOUCH: u16 = 0x14a;

/// Bytes in one `struct input_event`.
pub const RECORD_LEN: usize = 24;

/// One evdev event: type, code and value.
pub type Ev = (u16, u16, i32);

/// The event that closes a frame.
pub open spec fn syn() -> Ev {
    (EV_SYN, SYN_REPORT, 0i32)
}

/// The two's complement image of `v` in thirty-two bits.
pub open spec fn twos_complement(v: i32) -> int {
    if v < 0 {
        v + 0x1_0000_0000
    } else {
        v as int
    }
}

/// `x` as two little-endian bytes.
pub open spec fn le16(x: int) -> Seq<u8> {
    seq![(x % 256) as u8, (x / 256 % 256) as u8]
}

/// `x` as four little-endian bytes.
pub open spec fn le32(x: int) -> Seq<u8> {
    le16(x % 0x1_0000) + le16(x / 0x1_0000)
}

/// The byte image of one event.
pub open spec fn event_bytes(ev: Ev) -> Seq<u8> {
    Seq::new(16, |i: int| 0u8) + le16(ev.0 as int) + le16(ev.1 as int) + le32(
        twos_complement(ev.2),
    )
}

/// The byte image of a run of events.
pub open spec fn events_bytes(evs: Seq<Ev>) -> Seq<u8>
    decreases evs.len(),
{
    if evs.len() == 0 {
        Seq::empty()
    } else {
        events_bytes(evs.drop_last()) + event_bytes(evs.last())
    }
}

/// The number that two little-endian bytes hold.
pub open spec fn from_le16(s: Seq<u8>) -> int {
    s[0] + 256 * s[1]
}

/// The event that a record holds, whatever its time stamp.
pub open spec fn record_event(s: Seq<u8>) -> Ev {
    let v = from_le16(s.subrange(20, 22)) + 0x1_0000 * from_le16(s.subrange(22, 24));
    (
        from_le16(s.subrange(16, 18)) as u16,
        from_le16(s.subrange(18, 20)) as u16,
        (if v >= 0x8000_0000 {
            v - 0x1_0000_0000
        } else {
            v
        }) as i32,
    )
}

/// Append `x` as two little-endian bytes.
pub fn push_le16(out: &mut Vec<u8>, x: u16)
    ensures
        final(out)@ == old(out)@ + le16(x as int),
{
    out.push((x % 256) as u8);
    out.push((x / 256) as u8);
}

/// Append `v` as four little-endian bytes.
pub fn push_le32(out: &mut Vec<u8>, v: i32)
    ensures
        final(out)@ == old(out)@ + le32(twos_complement(v)),
{
    let image: i64 = if v < 0 {
        v as i64 + 0x1_0000_0000
    } else {
        v as i64
    };
    push_le16(out, (image % 0x1_0000) as u16);
    push_le16(out, (image / 0x1_0000) as u16);
}

fn push_event(out: &mut Vec<u8>, ev: Ev)
    ensures
        final(out)@ == old(out)@ + event_bytes(ev),
{
    let ghost start = out@;
    let mut i: usize = 0;
    while i < 16
        invariant
            i <= 16,
            out@ == start + Seq::new(i as nat, |j: int| 0u8),
        decreases 16 - i,
    {
        out.push(0);
        i += 1;
    }
    push_le16(out, ev.0);
    push_le16(out, ev.1);
    push_le32(out, ev.2);
}

/// The bytes that publish `frame` in a single write: its events and the closing `SYN_REPORT`.
pub fn encode_frame(frame: &[Ev]) -> (out: Vec<u8>)
    ensures
        out@ == events_bytes(frame@.push(syn())),
{
    let mut out: Vec<u8> = Vec::new();
    let mut i: usize = 0;
    while i < frame.len()
        invariant
            i <= frame@.len(),
            out@ == events_bytes(frame@.take(i as int)),
        decreases frame.len() - i,
    {
        push_event(&mut out, frame[i]);
        proof {
            assert(frame@.take(i + 1).drop_last() == frame@.take(i as int));
        }
        i += 1;
    }
    proof {
        assert(frame@.take(i as int) == frame@);
        assert(frame@.push(syn()).drop_last() == frame@);
    }
    push_event(&mut out, (EV_SYN, SYN_REPORT, 0));
    out
}

/// A record gives back the event that it was made of.
pub proof fn law_record_round_trip(ev: Ev)
    ensures
        event_bytes(ev).len() == RECORD_LEN,
        record_event(event_bytes(ev)) == ev,
{
    let s = event_bytes(ev);
    let v = twos_complement(ev.2);
    assert(s.subrange(16, 18) == le16(ev.0 as int));
    assert(s.subrange(18, 20) == le16(ev.1 as int));
    assert(s.subrange(20, 22) == le16(v % 0x1_0000));
    assert(s.subrange(22, 24) == le16(v / 0x1_0000));
}

/// The image of a run of events is one record per event, in order: its length is a whole number
/// of records, and record `k` gives back event `k`.
pub proof fn law_frame_round_trip(evs: Seq<Ev>, k: int)
    requires
        0 <= k < evs.len(),
    ensures
        events_bytes(evs).len() == RECORD_LEN * evs.len(),
        record_event(events_bytes(evs).subrange(RECORD_LEN * k, RECORD_LEN * (k + 1))) == evs[k],
    decreases evs.len(),
{
    law_record_round_trip(evs.last());
    if evs.len() > 1 {
        law_frame_round_trip(
            evs.drop_last(),
            if k < evs.len() - 1 {
                k
            } else {
                0
            },
        );
    }
    let whole = events_bytes(evs);
    let before = events_bytes(evs.drop_last());
    if k < evs.len() - 1 {
        assert(whole.subrange(RECORD_LEN * k, RECORD_LEN * (k + 1)) == before.subrange(
            RECORD_LEN * k,
            RECORD_LEN * (k + 1),
        ));
    } else {
        assert(whole.subrange(RECORD_LEN * k, RECORD_LEN * (k + 1)) == event_bytes(evs.last()));
    }
}

/// Where each field of a record lies: sixteen bytes of zeros, then the type, the code and the
/// value, the least significant byte of each first. A negative value is told as what it lacks to
/// two to the power of 32.
pub proof fn law_record_layout(ev: Ev)
    ensures
        event_bytes(ev).len() == 24,
        forall|i: int| 0 <= i < 16 ==> #[trigger] event_bytes(ev)[i] == 0,
        event_bytes(ev)[16] + 0x100 * event_bytes(ev)[17] == ev.0,
        event_bytes(ev)[18] + 0x100 * event_bytes(ev)[19] == ev.1,
        event_bytes(ev)[20] + 0x100 * event_bytes(ev)[21] + 0x1_0000 * event_bytes(ev)[22]
            + 0x100_0000 * event_bytes(ev)[23] == if ev.2 < 0 {
            0x1_0000_0000 + ev.2
        } else {
            ev.2 as int
        },
{
    let v = twos_complement(ev.2);
    let bytes = event_bytes(ev);
    assert(bytes[16] == (ev.0 as int % 256) as u8);
    assert(bytes[18] == (ev.1 as int % 256) as u8);
    assert(bytes[20] == (v % 0x1_0000 % 256) as u8);
    assert(bytes[22] == (v / 0x1_0000 % 256) as u8);
}

/// A run of events is laid out record behind record, in order.
pub proof fn law_frame_layout(evs: Seq<Ev>, k: int)
    requires
        0 <= k < evs.len(),
    ensures
        events_bytes(evs).len() == 24 * evs.len(),
        forall|i: int| 24 * k <= i < 24 * k + 16 ==> #[trigger] events_bytes(evs)[i] == 0,
        events_bytes(evs)[24 * k + 16] + 0x100 * events_bytes(evs)[24 * k + 17] == evs[k].0,
        events_bytes(evs)[24 * k + 18] + 0x100 * events_bytes(evs)[24 * k + 19] == evs[k].1,
        events_bytes(evs)[24 * k + 20] + 0x100 * events_bytes(evs)[24 * k + 21] + 0x1_0000
            * events_bytes(evs)[24 * k + 22] + 0x100_0000 * events_bytes(evs)[24 * k + 23]
            == if evs[k].2 < 0 {
            0x1_0000_0000 + evs[k].2
        } else {
            evs[k].2 as int
        },
    decreases evs.len(),
{
    let whole = events_bytes(evs);
    let before = events_bytes(evs.drop_last());
    law_record_layout(evs.last());
    if evs.len() > 1 {
        law_frame_layout(
            evs.drop_last(),
            if k < evs.len() - 1 {
                k
            } else {
                0
            },
        );
    }
    assert(before.len() == 24 * (evs.len() - 1));
    if k < evs.len() - 1 {
        assert(forall|i: int| 24 * k <= i < 24 * k + 24 ==> whole[i] == before[i]);
    } else {
        let last = event_bytes(evs.last());
        assert(forall|i: int| 24 * k <= i < 24 * k + 24 ==> whole[i] == last[i - 24 * k]);
    }
}

/// A frame is written as one record for each event and one more, which is all zeros: the report
/// that closes it.
pub proof fn law_a_frame_is_closed_by_one_report(evs: Seq<Ev>)
    ensures
        events_bytes(evs.push(syn())).len() == 24 * evs.len() + 24,
        events_bytes(evs.push(syn())).take(24 * evs.len() as int) == events_bytes(evs),
        forall|i: int|
            24 * evs.len() <= i < 24 * evs.len() + 24 ==> #[trigger] events_bytes(
                evs.push(syn()),
            )[i] == 0,
{
    let all = evs.push(syn());
    assert(all.drop_last() == evs);
    law_frame_layout(all, evs.len() as int);
    law_record_layout(syn());
    let last = event_bytes(syn());
    if evs.len() > 0 {
        law_frame_layout(evs, 0);
    }
    assert(events_bytes(all) == events_bytes(evs) + last);
    assert(last[16] == 0 && last[17] == 0 && last[18] == 0 && last[19] == 0 && last[20] == 0
        && last[21] == 0 && last[22] == 0 && last[23] == 0);
    assert forall|i: int| 24 * evs.len() <= i < 24 * evs.len() + 24 implies #[trigger] events_bytes(
        all,
    )[i] == 0 by {
        assert(events_bytes(all)[i] == last[i - 24 * evs.len()]);
    }
}

} // verus!
