//! What the list of monitors says of niri's report.

use vstd::prelude::*;
use vstd::utf8::encode_utf8;

use crate::double::truncated;
use crate::json::{
    document, keys_differ, law_elements_are_found_by_their_number,
    law_members_are_found_by_their_keys, JsonView,
};
use crate::monitors::{
    all_described, described, listing_error, lists, outputs_args, reported_names, MonitorView,
};
use crate::niri_error::NiriErrorView;
use crate::niri_msg::{MsgErrorView, MsgOutcomeView};
use crate::output_names::law_our_kind_begins_with_pf;
use crate::text::{bytes_before, lossy_text};

verus! {

/// Has the object `fields` no member `key`?
pub open spec fn lacks(fields: Seq<(Seq<char>, JsonView)>, key: Seq<char>) -> bool {
    forall|j: int| 0 <= j < fields.len() ==> (#[trigger] fields[j]).0 != key
}

/// The size and the rate of a monitor are those of the mode that `current_mode` counts out of
/// `modes`, whatever the other modes are: each number without its fraction, and zero where there is
/// none.
pub proof fn law_the_current_mode_is_shown(
    connector: Seq<char>,
    o: Seq<(Seq<char>, JsonView)>,
    at_current: int,
    k: u64,
    double: Option<u64>,
    at_modes: int,
    modes: Seq<JsonView>,
    mode: Seq<(Seq<char>, JsonView)>,
    at: int,
)
    requires
        keys_differ(o),
        0 <= at_current < o.len(),
        o[at_current] == ("current_mode"@, JsonView::Number { unsigned: Some(k), double }),
        0 <= at_modes < o.len(),
        o[at_modes] == ("modes"@, JsonView::List(modes)),
        k < modes.len(),
        modes[k as int] == JsonView::Record(mode),
        keys_differ(mode),
    ensures
        ({
            let m = described(connector, JsonView::Record(o));
            let shown = match mode[at].1 {
                JsonView::Number { double: Some(bits), .. } => truncated(bits, 0, 0xffff_ffff),
                _ => 0,
            };
            let there = 0 <= at < mode.len();
            &&& there && mode[at].0 == "width"@ ==> m.width == shown
            &&& there && mode[at].0 == "height"@ ==> m.height == shown
            &&& there && mode[at].0 == "refresh_rate"@ ==> m.refresh_mhz == shown
            &&& lacks(mode, "width"@) ==> m.width == 0
            &&& lacks(mode, "height"@) ==> m.height == 0
            &&& lacks(mode, "refresh_rate"@) ==> m.refresh_mhz == 0
        }),
{
    law_members_are_found_by_their_keys(o, "current_mode"@, at_current);
    law_members_are_found_by_their_keys(o, "modes"@, at_modes);
    law_elements_are_found_by_their_number(JsonView::List(modes), "modes"@, k as int);
    law_members_are_found_by_their_keys(mode, "width"@, at);
    law_members_are_found_by_their_keys(mode, "height"@, at);
    law_members_are_found_by_their_keys(mode, "refresh_rate"@, at);
}

proof fn lemma_parts_are_well_formed(value: JsonView, i: int)
    requires
        value.well_formed(),
    ensures
        value matches JsonView::List(items) ==> 0 <= i < items.len() ==> items[i].well_formed(),
        value matches JsonView::Record(entries) ==> keys_differ(entries) && (0 <= i < entries.len()
            ==> entries[i].1.well_formed()),
{
    match value {
        JsonView::List(items) => {
            if 0 <= i < items.len() {
                assert(items[i].well_formed());
            }
        },
        JsonView::Record(entries) => {
            if 0 <= i < entries.len() {
                assert(entries[i].1.well_formed());
            }
        },
        _ => {},
    }
}

/// Where the current mode gives its size and its rate in whole numbers, the monitor is listed with
/// exactly these.
pub proof fn law_a_whole_mode_is_shown_exactly(
    connector: Seq<char>,
    o: Seq<(Seq<char>, JsonView)>,
    at: (int, int),
    k: u64,
    double: Option<u64>,
    modes: Seq<JsonView>,
    mode: Seq<(Seq<char>, JsonView)>,
    fields: (int, int, int),
    w: u32,
    h: u32,
    r: u32,
)
    requires
        JsonView::Record(o).well_formed(),
        0 <= at.0 < o.len(),
        o[at.0] == ("current_mode"@, JsonView::Number { unsigned: Some(k), double }),
        0 <= at.1 < o.len(),
        o[at.1] == ("modes"@, JsonView::List(modes)),
        k < modes.len(),
        modes[k as int] == JsonView::Record(mode),
        0 <= fields.0 < mode.len() && 0 <= fields.1 < mode.len() && 0 <= fields.2 < mode.len(),
        mode[fields.0].0 == "width"@ && mode[fields.0].1.unsigned() == Some(w as u64),
        mode[fields.1].0 == "height"@ && mode[fields.1].1.unsigned() == Some(h as u64),
        mode[fields.2].0 == "refresh_rate"@ && mode[fields.2].1.unsigned() == Some(r as u64),
    ensures
        described(connector, JsonView::Record(o)).width == w,
        described(connector, JsonView::Record(o)).height == h,
        described(connector, JsonView::Record(o)).refresh_mhz == r,
{
    lemma_parts_are_well_formed(JsonView::Record(o), at.1);
    lemma_parts_are_well_formed(JsonView::List(modes), k as int);
    lemma_parts_are_well_formed(JsonView::Record(mode), fields.0);
    lemma_parts_are_well_formed(JsonView::Record(mode), fields.1);
    lemma_parts_are_well_formed(JsonView::Record(mode), fields.2);
    law_the_current_mode_is_shown(
        connector,
        o,
        at.0,
        k,
        double,
        at.1,
        modes,
        mode,
        fields.0,
    );
    law_the_current_mode_is_shown(
        connector,
        o,
        at.0,
        k,
        double,
        at.1,
        modes,
        mode,
        fields.1,
    );
    law_the_current_mode_is_shown(
        connector,
        o,
        at.0,
        k,
        double,
        at.1,
        modes,
        mode,
        fields.2,
    );
}

/// A monitor without a current mode has neither size nor rate: where it is not said which mode is
/// current, where there are no modes, or where there is none of that number.
pub proof fn law_without_a_mode_there_is_no_size(
    connector: Seq<char>,
    o: Seq<(Seq<char>, JsonView)>,
    at_current: int,
    at_modes: int,
)
    requires
        keys_differ(o),
        lacks(o, "current_mode"@) || lacks(o, "modes"@) || {
            &&& 0 <= at_current < o.len() && o[at_current].0 == "current_mode"@
            &&& 0 <= at_modes < o.len() && o[at_modes].0 == "modes"@
            &&& match (o[at_current].1, o[at_modes].1) {
                (
                    JsonView::Number { unsigned: Some(k), .. },
                    JsonView::List(modes),
                ) => k >= modes.len() || !(modes[k as int] is Record),
                _ => true,
            }
        },
    ensures
        described(connector, JsonView::Record(o)).width == 0,
        described(connector, JsonView::Record(o)).height == 0,
        described(connector, JsonView::Record(o)).refresh_mhz == 0,
{
    law_members_are_found_by_their_keys(o, "current_mode"@, at_current);
    law_members_are_found_by_their_keys(o, "modes"@, at_modes);
}

/// A monitor is where its logical rectangle is, each coordinate without its fraction, and has the
/// rectangle's scale factor where that is positive and a factor of one otherwise. It is enabled
/// wherever it has a rectangle.
pub proof fn law_the_rectangle_is_the_place(
    connector: Seq<char>,
    o: Seq<(Seq<char>, JsonView)>,
    at_logical: int,
    rect: Seq<(Seq<char>, JsonView)>,
    at: int,
)
    requires
        keys_differ(o),
        0 <= at_logical < o.len(),
        o[at_logical] == ("logical"@, JsonView::Record(rect)),
        keys_differ(rect),
    ensures
        ({
            let m = described(connector, JsonView::Record(o));
            let place = match rect[at].1 {
                JsonView::Number { double: Some(bits), .. } => truncated(
                    bits,
                    -0x8000_0000,
                    0x7fff_ffff,
                ),
                _ => 0,
            };
            let factor = match rect[at].1 {
                JsonView::Number { double: Some(bits), .. } => if 0 < bits
                    <= 0x7ff0_0000_0000_0000 {
                    bits
                } else {
                    0x3ff0_0000_0000_0000
                },
                _ => 0x3ff0_0000_0000_0000,
            };
            let there = 0 <= at < rect.len();
            &&& m.enabled
            &&& there && rect[at].0 == "x"@ ==> m.x == place
            &&& there && rect[at].0 == "y"@ ==> m.y == place
            &&& there && rect[at].0 == "scale"@ ==> m.scale == factor
            &&& lacks(rect, "x"@) ==> m.x == 0
            &&& lacks(rect, "y"@) ==> m.y == 0
            &&& lacks(rect, "scale"@) ==> m.scale == 0x3ff0_0000_0000_0000
        }),
{
    law_members_are_found_by_their_keys(o, "logical"@, at_logical);
    law_members_are_found_by_their_keys(rect, "x"@, at);
    law_members_are_found_by_their_keys(rect, "y"@, at);
    law_members_are_found_by_their_keys(rect, "scale"@, at);
}

/// A monitor without a rectangle, or with a null in place of one, is disabled and lies at the
/// origin at a factor of one. Anything else in its place leaves it enabled.
pub proof fn law_without_a_rectangle_it_is_disabled(
    connector: Seq<char>,
    o: Seq<(Seq<char>, JsonView)>,
    at: int,
)
    requires
        keys_differ(o),
    ensures
        ({
            let m = described(connector, JsonView::Record(o));
            &&& lacks(o, "logical"@) || 0 <= at < o.len() && o[at] == ("logical"@, JsonView::Null)
                ==> !m.enabled && m.x == 0 && m.y == 0 && m.scale == 0x3ff0_0000_0000_0000
            &&& 0 <= at < o.len() && o[at].0 == "logical"@ && !(o[at].1 is Null) ==> m.enabled
            &&& 0 <= at < o.len() && o[at].0 == "logical"@ && !(o[at].1 is Record) ==> m.x == 0
                && m.y == 0 && m.scale == 0x3ff0_0000_0000_0000
        }),
{
    law_members_are_found_by_their_keys(o, "logical"@, at);
}

/// A monitor goes by its connector; its make and its model are the texts under these keys, empty
/// where there is none. No monitor is the primary one.
pub proof fn law_make_and_model_are_told_apart(
    connector: Seq<char>,
    o: Seq<(Seq<char>, JsonView)>,
    at: int,
)
    requires
        keys_differ(o),
    ensures
        ({
            let m = described(connector, JsonView::Record(o));
            &&& m.connector == connector
            &&& !m.primary
            &&& 0 <= at < o.len() && o[at].0 == "make"@ ==> m.make == match o[at].1 {
                JsonView::Text(make) => make,
                _ => Seq::empty(),
            }
            &&& 0 <= at < o.len() && o[at].0 == "model"@ ==> m.model == match o[at].1 {
                JsonView::Text(model) => model,
                _ => Seq::empty(),
            }
            &&& lacks(o, "make"@) ==> m.make == Seq::<char>::empty()
            &&& lacks(o, "model"@) ==> m.model == Seq::<char>::empty()
        }),
{
    law_members_are_found_by_their_keys(o, "make"@, at);
    law_members_are_found_by_their_keys(o, "model"@, at);
}

/// An output of which niri says nothing, or nothing that is an object, is listed as disabled and
/// without size, place or maker.
pub proof fn law_an_unknown_output_keeps_its_name(connector: Seq<char>, o: JsonView)
    requires
        !(o is Record),
    ensures
        described(connector, o) == (MonitorView {
            connector,
            make: Seq::empty(),
            model: Seq::empty(),
            width: 0,
            height: 0,
            refresh_mhz: 0,
            x: 0,
            y: 0,
            scale: 0x3ff0_0000_0000_0000,
            primary: false,
            enabled: false,
            managed: false,
        }),
{
    reveal_strlit("niri");
    assert("niri"@.len() == 4);
}

/// A monitor is ours exactly where niri stamped it virtual and its name begins with `pf-`.
pub proof fn law_managed_is_the_stamp_and_the_name(connector: Seq<char>, o: JsonView)
    ensures
        described(connector, o).managed <==> {
            &&& described(connector, o).make == "niri"@
            &&& described(connector, o).model == "virtual"@
            &&& connector.len() >= 3 && connector[0] == 'p' && connector[1] == 'f' && connector[2]
                == '-'
        },
{
    law_our_kind_begins_with_pf(connector);
}

/// The list goes from left to right, then from top to bottom, then by name: where two names first
/// differ in a byte, the lower one comes first.
pub proof fn law_the_list_goes_by_place_and_name(
    monitors: Seq<MonitorView>,
    report: Seq<(Seq<char>, JsonView)>,
    i: int,
    j: int,
)
    requires
        lists(monitors, report),
        0 <= i < j < monitors.len(),
    ensures
        monitors[i].x <= monitors[j].x,
        monitors[i].x == monitors[j].x ==> monitors[i].y <= monitors[j].y,
        monitors[i].x == monitors[j].x && monitors[i].y == monitors[j].y ==> !bytes_before(
            encode_utf8(monitors[j].connector),
            encode_utf8(monitors[i].connector),
        ),
{
    assert(!crate::monitors::before(monitors[j], monitors[i]));
}

/// The list has one monitor for each entry of the report, as that entry describes it, and no other.
pub proof fn law_every_output_is_listed_once(
    monitors: Seq<MonitorView>,
    report: Seq<(Seq<char>, JsonView)>,
    i: int,
    k: int,
)
    requires
        lists(monitors, report),
    ensures
        monitors.len() == report.len(),
        0 <= k < report.len() ==> monitors.contains(described(report[k].0, report[k].1)),
        0 <= i < monitors.len() ==> exists|n: int|
            0 <= n < report.len() && monitors[i] == described(
                (#[trigger] report[n]).0,
                report[n].1,
            ),
{
    broadcast use vstd::seq_lib::group_to_multiset_ensures;

    let all = all_described(report);
    assert(monitors.len() == monitors.to_multiset().len());
    assert(all.len() == all.to_multiset().len());
    if 0 <= k < report.len() {
        assert(all.contains(all[k]));
        assert(monitors.to_multiset().count(all[k]) > 0);
        assert(monitors.contains(all[k]));
    }
    if 0 <= i < monitors.len() {
        assert(monitors.contains(monitors[i]));
        assert(all.to_multiset().count(monitors[i]) > 0);
        assert(all.contains(monitors[i]));
        let n = choose|n: int| 0 <= n < all.len() && all[n] == monitors[i];
        assert(monitors[i] == described(report[n].0, report[n].1));
    }
}

/// The outputs are asked for with one word. Listing fails where niri does not answer, answers with
/// no document, or with one that is no object; and the names that are known are the object's keys,
/// in order, or none.
pub proof fn law_the_report_is_the_answer(
    stdout: Seq<u8>,
    stderr: Seq<u8>,
    cause: Seq<char>,
    k: int,
)
    ensures
        outputs_args().len() == 1 && outputs_args()[0] == "outputs"@,
        ({
            let outcome = MsgOutcomeView::Exited { success: true, stdout, stderr };
            match document(lossy_text(stdout)) {
                Ok(JsonView::Record(report)) => {
                    &&& listing_error(outcome) is None
                    &&& reported_names(outcome).len() == report.len()
                    &&& 0 <= k < report.len() ==> reported_names(outcome)[k] == report[k].0
                },
                Ok(_) => listing_error(outcome) == Some(NiriErrorView::NotAnObject)
                    && reported_names(outcome).len() == 0,
                Err(why) => listing_error(outcome) matches Some(
                    NiriErrorView::Outputs { error: MsgErrorView::NotJson { args, cause: told } },
                ) && told == why && args == seq!["outputs"@] && reported_names(outcome).len() == 0,
            }
        }),
        listing_error(MsgOutcomeView::Exited { success: false, stdout, stderr }) matches Some(
            NiriErrorView::Outputs { error: MsgErrorView::Refused { args, .. } },
        ) && args == seq!["-j"@, "outputs"@],
        reported_names(MsgOutcomeView::Exited { success: false, stdout, stderr }).len() == 0,
        listing_error(MsgOutcomeView::NotRun { cause }) == Some(
            NiriErrorView::Outputs { error: MsgErrorView::NotRun { cause } },
        ),
        reported_names(MsgOutcomeView::NotRun { cause }).len() == 0,
{
    assert(seq!["-j"@] + outputs_args() == seq!["-j"@, "outputs"@]);
}

} // verus!
