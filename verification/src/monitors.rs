//! The outputs that niri reports, as monitors to pick from.

use vstd::prelude::*;
use vstd::string::*;

use crate::double::{is_positive, positive, to_i32, to_u32, truncated, ONE};
use crate::json::{json_option, keys_differ, Json, JsonView};
use crate::niri_error::{NiriError, NiriErrorView};
use crate::niri_msg::{answered_in_json, json_answer, MsgOutcome, MsgOutcomeView};
use crate::output_names::{is_managed_output, managed_name};
use crate::text::{comes_before, is_text, law_text_order_is_total, text_before, texts};

verus! {

/// One output of the compositor.
#[derive(Debug)]
pub struct PhysicalMonitor {
    pub connector: String,
    /// Who made it and what it is called, as far as niri says.
    pub make: String,
    pub model: String,
    pub width: u32,
    pub height: u32,
    pub refresh_mhz: u32,
    pub x: i32,
    pub y: i32,
    /// The bits of the scale factor, a positive double.
    pub scale: u64,
    pub primary: bool,
    pub enabled: bool,
    /// Did a host of ours create it?
    pub managed: bool,
}

/// What a [`PhysicalMonitor`] holds.
pub struct MonitorView {
    pub connector: Seq<char>,
    pub make: Seq<char>,
    pub model: Seq<char>,
    pub width: u32,
    pub height: u32,
    pub refresh_mhz: u32,
    pub x: i32,
    pub y: i32,
    pub scale: u64,
    pub primary: bool,
    pub enabled: bool,
    pub managed: bool,
}

impl View for PhysicalMonitor {
    type V = MonitorView;

    open spec fn view(&self) -> MonitorView {
        MonitorView {
            connector: self.connector@,
            make: self.make@,
            model: self.model@,
            width: self.width,
            height: self.height,
            refresh_mhz: self.refresh_mhz,
            x: self.x,
            y: self.y,
            scale: self.scale,
            primary: self.primary,
            enabled: self.enabled,
            managed: self.managed,
        }
    }
}

/// The views of a list of monitors.
pub open spec fn monitor_views(monitors: Seq<PhysicalMonitor>) -> Seq<MonitorView> {
    monitors.map_values(|m: PhysicalMonitor| m@)
}

/// The text under `key`, empty where there is none.
pub open spec fn text_or_empty(o: JsonView, key: Seq<char>) -> Seq<char> {
    match o.member(key) {
        Some(value) => match value.text() {
            Some(s) => s,
            None => Seq::empty(),
        },
        None => Seq::empty(),
    }
}

/// The double under `key` of an object, where there is one.
pub open spec fn number(o: Option<JsonView>, key: Seq<char>) -> Option<u64> {
    match o {
        Some(object) => match object.member(key) {
            Some(value) => value.double(),
            None => None,
        },
        None => None,
    }
}

/// The mode that `current_mode` picks out of `modes`. A disabled output has none.
pub open spec fn current_mode(o: JsonView) -> Option<JsonView> {
    match o.member("current_mode"@) {
        Some(value) => match value.unsigned() {
            Some(i) => match o.member("modes"@) {
                Some(modes) => modes.element(i as int),
                None => None,
            },
            None => None,
        },
        None => None,
    }
}

/// The logical rectangle. A disabled output has none.
pub open spec fn logical(o: JsonView) -> Option<JsonView> {
    match o.member("logical"@) {
        Some(JsonView::Null) => None,
        other => other,
    }
}

/// A double as a `u32`; zero where there is none.
pub open spec fn as_u32(number: Option<u64>) -> u32 {
    match number {
        Some(bits) => truncated(bits, 0, u32::MAX as int) as u32,
        None => 0,
    }
}

/// A double as an `i32`; zero where there is none.
pub open spec fn as_i32(number: Option<u64>) -> i32 {
    match number {
        Some(bits) => truncated(bits, i32::MIN as int, i32::MAX as int) as i32,
        None => 0,
    }
}

/// A scale factor; one where there is none, or none that is positive.
pub open spec fn as_scale(number: Option<u64>) -> u64 {
    match number {
        Some(bits) => if positive(bits) {
            bits
        } else {
            ONE
        },
        None => ONE,
    }
}

/// The monitor that niri's report `o` of the output `connector` describes. niri gives refresh
/// rates in thousandths of a hertz and has no primary output. It stamps every virtual output
/// `niri`, `virtual`; the name says which of them are ours and which are the user's own.
pub open spec fn described(connector: Seq<char>, o: JsonView) -> MonitorView {
    let make = text_or_empty(o, "make"@);
    let model = text_or_empty(o, "model"@);
    let mode = current_mode(o);
    let rect = logical(o);
    MonitorView {
        connector,
        make,
        model,
        width: as_u32(number(mode, "width"@)),
        height: as_u32(number(mode, "height"@)),
        refresh_mhz: as_u32(number(mode, "refresh_rate"@)),
        x: as_i32(number(rect, "x"@)),
        y: as_i32(number(rect, "y"@)),
        scale: as_scale(number(rect, "scale"@)),
        primary: false,
        enabled: rect is Some,
        managed: make == "niri"@ && model == "virtual"@ && managed_name(connector),
    }
}

/// The monitors that a report describes, in the report's order.
pub open spec fn all_described(report: Seq<(Seq<char>, JsonView)>) -> Seq<MonitorView> {
    report.map_values(|e: (Seq<char>, JsonView)| described(e.0, e.1))
}

/// Does `a` come before `b`: further left, or as far and higher, or by the connector's name?
pub open spec fn before(a: MonitorView, b: MonitorView) -> bool {
    if a.x != b.x {
        a.x < b.x
    } else if a.y != b.y {
        a.y < b.y
    } else {
        text_before(a.connector, b.connector)
    }
}

pub open spec fn in_order(monitors: Seq<MonitorView>) -> bool {
    forall|i: int, j: int|
        0 <= i < j < monitors.len() ==> !before(#[trigger] monitors[j], #[trigger] monitors[i])
}

/// `monitors` are those of `report`, one for each entry, in order.
pub open spec fn lists(monitors: Seq<MonitorView>, report: Seq<(Seq<char>, JsonView)>) -> bool {
    &&& in_order(monitors)
    &&& monitors.to_multiset() == all_described(report).to_multiset()
}

fn read_text(o: &Json, key: &str) -> (r: String)
    ensures
        r@ == text_or_empty(o@, key@),
{
    match o.member(key) {
        Some(value) => match value.as_text() {
            Some(s) => s.clone(),
            None => String::new(),
        },
        None => String::new(),
    }
}

fn read_number(o: Option<&Json>, key: &str) -> (r: Option<u64>)
    ensures
        r == number(json_option(o), key@),
{
    match o {
        Some(object) => match object.member(key) {
            Some(value) => value.as_double(),
            None => None,
        },
        None => None,
    }
}

fn read_mode(o: &Json) -> (r: Option<&Json>)
    ensures
        json_option(r) == current_mode(o@),
{
    match o.member("current_mode") {
        Some(value) => match value.as_unsigned() {
            Some(i) => match o.member("modes") {
                Some(modes) => modes.element(i),
                None => None,
            },
            None => None,
        },
        None => None,
    }
}

fn read_logical(o: &Json) -> (r: Option<&Json>)
    ensures
        json_option(r) == logical(o@),
{
    match o.member("logical") {
        Some(value) => match value {
            Json::Null => None,
            _ => Some(value),
        },
        None => None,
    }
}

fn u32_or_zero(number: Option<u64>) -> (r: u32)
    ensures
        r == as_u32(number),
{
    match number {
        Some(bits) => to_u32(bits),
        None => 0,
    }
}

fn i32_or_zero(number: Option<u64>) -> (r: i32)
    ensures
        r == as_i32(number),
{
    match number {
        Some(bits) => to_i32(bits),
        None => 0,
    }
}

fn scale_or_one(number: Option<u64>) -> (r: u64)
    ensures
        r == as_scale(number),
{
    match number {
        Some(bits) => if is_positive(bits) {
            bits
        } else {
            ONE
        },
        None => ONE,
    }
}

/// The monitor that niri's report `o` of the output `connector` describes.
pub fn describe_output(connector: &String, o: &Json) -> (m: PhysicalMonitor)
    ensures
        m@ == described(connector@, o@),
{
    let make = read_text(o, "make");
    let model = read_text(o, "model");
    let mode = read_mode(o);
    let rect = read_logical(o);
    let managed: bool = is_text(&make, "niri") && is_text(&model, "virtual") && is_managed_output(
        connector.as_str(),
    );
    PhysicalMonitor {
        connector: connector.clone(),
        make,
        model,
        width: u32_or_zero(read_number(mode, "width")),
        height: u32_or_zero(read_number(mode, "height")),
        refresh_mhz: u32_or_zero(read_number(mode, "refresh_rate")),
        x: i32_or_zero(read_number(rect, "x")),
        y: i32_or_zero(read_number(rect, "y")),
        scale: scale_or_one(read_number(rect, "scale")),
        primary: false,
        enabled: rect.is_some(),
        managed,
    }
}

fn stands_before(a: &PhysicalMonitor, b: &PhysicalMonitor) -> (r: bool)
    ensures
        r == before(a@, b@),
{
    if a.x != b.x {
        a.x < b.x
    } else if a.y != b.y {
        a.y < b.y
    } else {
        comes_before(a.connector.as_str(), b.connector.as_str())
    }
}

/// The order of monitors, like that of their keys, is total.
proof fn lemma_before(a: MonitorView, b: MonitorView, c: MonitorView)
    ensures
        !before(a, a),
        before(a, b) ==> !before(b, a),
        before(a, b) || before(b, a) || a.connector == b.connector,
        before(a, b) && before(b, c) ==> before(a, c),
        !before(b, a) && !before(c, b) ==> !before(c, a),
{
    law_text_order_is_total(a.connector, b.connector, c.connector);
    law_text_order_is_total(b.connector, c.connector, a.connector);
    law_text_order_is_total(c.connector, a.connector, b.connector);
    law_text_order_is_total(c.connector, b.connector, a.connector);
    law_text_order_is_total(a.connector, c.connector, b.connector);
}

/// Put `m` in its place among monitors in order, behind those of equal rank.
fn insert(monitors: &mut Vec<PhysicalMonitor>, m: PhysicalMonitor)
    requires
        in_order(monitor_views(old(monitors)@)),
    ensures
        in_order(monitor_views(final(monitors)@)),
        monitor_views(final(monitors)@).to_multiset() == monitor_views(
            old(monitors)@,
        ).to_multiset().insert(m@),
{
    let ghost views = monitor_views(monitors@);
    let mut i: usize = monitors.len();
    while i > 0 && stands_before(&m, &monitors[i - 1])
        invariant
            i <= monitors@.len(),
            views == monitor_views(monitors@),
            forall|j: int| i <= j < views.len() ==> before(m@, #[trigger] views[j]),
        decreases i,
    {
        i -= 1;
        assert(views[i as int] == monitors@[i as int]@);
    }
    let ghost view = m@;
    let ghost list = monitors@;
    monitors.insert(i, m);
    proof {
        let after = monitor_views(monitors@);
        assert(after == views.insert(i as int, view));
        vstd::seq_lib::to_multiset_insert(views, i as int, view);
        if i > 0 {
            assert(views[i - 1] == list[i - 1]@);
        }
        assert forall|a: int, b: int| 0 <= a < b < after.len() implies !before(
            #[trigger] after[b],
            #[trigger] after[a],
        ) by {
            if a < i && b == i {
                if a < i - 1 {
                    lemma_before(views[a], views[i - 1], view);
                }
            } else if a == i {
                lemma_before(view, views[b - 1], view);
            } else {
                let x = if a < i {
                    a
                } else {
                    a - 1
                };
                let y = if b < i {
                    b
                } else {
                    b - 1
                };
                assert(after[a] == views[x] && after[b] == views[y]);
            }
        }
    }
}

/// The monitors that niri's answer to `outputs` lists. `None` where the answer is no object.
pub fn monitors_in(report: &Json) -> (r: Option<Vec<PhysicalMonitor>>)
    ensures
        match r {
            Some(monitors) => report@ matches JsonView::Record(entries) && lists(
                monitor_views(monitors@),
                entries,
            ),
            None => !(report@ is Record),
        },
{
    match report {
        Json::Record(entries) => {
            let ghost all = report@->Record_0;
            let mut monitors: Vec<PhysicalMonitor> = Vec::new();
            let mut i: usize = 0;
            proof {
                assert(all_described(all).take(0) == Seq::<MonitorView>::empty());
                assert(monitor_views(monitors@) == Seq::<MonitorView>::empty());
            }
            while i < entries.len()
                invariant
                    i <= entries@.len(),
                    all.len() == entries@.len(),
                    forall|j: int|
                        0 <= j < entries@.len() ==> #[trigger] all[j] == (
                            entries@[j].0@,
                            entries@[j].1@,
                        ),
                    in_order(monitor_views(monitors@)),
                    monitor_views(monitors@).to_multiset() == all_described(all).take(
                        i as int,
                    ).to_multiset(),
                decreases entries@.len() - i,
            {
                let m = describe_output(&entries[i].0, &entries[i].1);
                proof {
                    let done = all_described(all).take(i as int);
                    assert(all_described(all)[i as int] == described(all[i as int].0, all[i as int].1));
                    assert(all_described(all).take(i + 1) == done.push(m@));
                    vstd::seq_lib::to_multiset_build(done, m@);
                }
                insert(&mut monitors, m);
                i += 1;
            }
            assert(all_described(all).take(i as int) == all_described(all));
            Some(monitors)
        },
        _ => None,
    }
}

/// The arguments of the request for [`list_monitors`].
pub fn outputs_request() -> (r: Vec<String>)
    ensures
        texts(r@) == outputs_args(),
{
    let mut r: Vec<String> = Vec::new();
    r.push("outputs".to_owned());
    assert(texts(r@) == outputs_args());
    r
}

pub open spec fn outputs_args() -> Seq<Seq<char>> {
    seq!["outputs"@]
}

/// What `list_monitors` fails with, if it does.
pub open spec fn listing_error(outcome: MsgOutcomeView) -> Option<NiriErrorView> {
    match answered_in_json(outputs_args(), outcome) {
        Ok(JsonView::Record(_)) => None,
        Ok(_) => Some(NiriErrorView::NotAnObject),
        Err(error) => Some(NiriErrorView::Outputs { error }),
    }
}

/// Every output niri reports, given how the JSON request [`outputs_request`] came out.
pub fn list_monitors(outcome: &MsgOutcome) -> (r: Result<Vec<PhysicalMonitor>, NiriError>)
    ensures
        match r {
            Ok(monitors) => {
                &&& listing_error(outcome@) is None
                &&& answered_in_json(outputs_args(), outcome@) matches Ok(
                    JsonView::Record(report),
                ) && lists(monitor_views(monitors@), report) && keys_differ(report)
                    && JsonView::Record(report).well_formed()
            },
            Err(error) => listing_error(outcome@) == Some(error@),
        },
{
    match json_answer(&outputs_request(), outcome) {
        Ok(report) => match monitors_in(&report) {
            Some(monitors) => Ok(monitors),
            None => Err(NiriError::NotAnObject),
        },
        Err(error) => Err(NiriError::Outputs { error }),
    }
}

/// The names of the outputs that niri reports, in the report's order. None where the listing
/// fails.
pub open spec fn reported_names(outcome: MsgOutcomeView) -> Seq<Seq<char>> {
    match answered_in_json(outputs_args(), outcome) {
        Ok(JsonView::Record(report)) => report.map_values(|e: (Seq<char>, JsonView)| e.0),
        _ => Seq::empty(),
    }
}

/// The names of the outputs that exist, given how the JSON request [`outputs_request`] came out.
/// None are known where the listing fails: niri itself then refuses a name that an output has.
pub fn existing_names(outcome: &MsgOutcome) -> (r: Vec<String>)
    ensures
        texts(r@) == reported_names(outcome@),
        listing_error(outcome@) is Some ==> r@.len() == 0,
{
    let mut names: Vec<String> = Vec::new();
    match json_answer(&outputs_request(), outcome) {
        Ok(Json::Record(entries)) => {
            let ghost keys = reported_names(outcome@);
            let mut i: usize = 0;
            while i < entries.len()
                invariant
                    i <= entries@.len(),
                    keys.len() == entries@.len(),
                    forall|j: int| 0 <= j < entries@.len() ==> #[trigger] keys[j] == entries@[j].0@,
                    texts(names@) == keys.take(i as int),
                decreases entries@.len() - i,
            {
                let ghost before = names@;
                names.push(entries[i].0.clone());
                assert(texts(names@) == texts(before).push(keys[i as int]));
                assert(keys.take(i + 1) == keys.take(i as int).push(keys[i as int]));
                i += 1;
            }
            assert(keys.take(i as int) == keys);
        },
        _ => {},
    }
    names
}

/// The names that are avoided are those of the monitors that are listed.
pub proof fn law_existing_names_are_the_connectors(
    outcome: MsgOutcomeView,
    monitors: Seq<MonitorView>,
    name: Seq<char>,
)
    requires
        answered_in_json(outputs_args(), outcome) matches Ok(JsonView::Record(report)) && lists(
            monitors,
            report,
        ),
    ensures
        reported_names(outcome).contains(name) <==> exists|i: int|
            0 <= i < monitors.len() && (#[trigger] monitors[i]).connector == name,
{
    broadcast use vstd::seq_lib::group_to_multiset_ensures;

    let report = answered_in_json(outputs_args(), outcome)->Ok_0->Record_0;
    let all = all_described(report);
    let names = reported_names(outcome);
    if names.contains(name) {
        let k = choose|k: int| 0 <= k < names.len() && names[k] == name;
        assert(all[k].connector == name);
        assert(all.contains(all[k]));
        assert(monitors.to_multiset().count(all[k]) > 0);
        assert(monitors.contains(all[k]));
    }
    if exists|i: int| 0 <= i < monitors.len() && (#[trigger] monitors[i]).connector == name {
        let i = choose|i: int| 0 <= i < monitors.len() && (#[trigger] monitors[i]).connector == name;
        assert(monitors.contains(monitors[i]));
        assert(all.to_multiset().count(monitors[i]) > 0);
        assert(all.contains(monitors[i]));
        let k = choose|k: int| 0 <= k < all.len() && all[k] == monitors[i];
        assert(names[k] == name);
    }
}

proof fn lemma_only_order(a: Seq<MonitorView>, b: Seq<MonitorView>)
    requires
        in_order(a),
        in_order(b),
        a.to_multiset() == b.to_multiset(),
        forall|i: int, j: int|
            0 <= i < j < a.len() ==> (#[trigger] a[i]).connector != (#[trigger] a[j]).connector,
    ensures
        a == b,
    decreases a.len(),
{
    broadcast use vstd::seq_lib::group_to_multiset_ensures;

    assert(a.len() == a.to_multiset().len());
    assert(b.len() == b.to_multiset().len());
    if a.len() > 0 {
        let i = choose|i: int| 0 <= i < a.len() && a[i] == b[0];
        assert(a.contains(b[0])) by {
            assert(b.contains(b[0]));
            assert(a.to_multiset().count(b[0]) > 0);
        }
        let j = choose|j: int| 0 <= j < b.len() && b[j] == a[0];
        assert(b.contains(a[0])) by {
            assert(a.contains(a[0]));
            assert(b.to_multiset().count(a[0]) > 0);
        }
        lemma_before(a[0], b[0], a[0]);
        assert(!before(a[i], a[0])) by {
            if i == 0 {
                lemma_before(a[0], a[0], a[0]);
            }
        }
        assert(!before(b[j], b[0])) by {
            if j == 0 {
                lemma_before(b[0], b[0], b[0]);
            }
        }
        assert(a[i].connector == a[0].connector);
        assert(i == 0);
        assert(a.remove(0) == a.drop_first());
        assert(b.remove(0) == b.drop_first());
        let (a1, b1) = (a.drop_first(), b.drop_first());
        assert(a1.to_multiset() == b1.to_multiset());
        assert forall|i: int, j: int| 0 <= i < j < a1.len() implies (#[trigger] a1[i]).connector
            != (#[trigger] a1[j]).connector && !before(a1[j], a1[i]) by {
            assert(a1[i] == a[i + 1] && a1[j] == a[j + 1]);
        }
        assert forall|i: int, j: int| 0 <= i < j < b1.len() implies !before(
            #[trigger] b1[j],
            #[trigger] b1[i],
        ) by {
            assert(b1[i] == b[i + 1] && b1[j] == b[j + 1]);
        }
        lemma_only_order(a1, b1);
        assert(a == seq![a[0]] + a1);
        assert(b == seq![b[0]] + b1);
    }
}

/// A report has one list only: since no connector occurs twice, its order decides every place.
pub proof fn law_listing_is_unique(
    a: Seq<MonitorView>,
    b: Seq<MonitorView>,
    report: Seq<(Seq<char>, JsonView)>,
)
    requires
        keys_differ(report),
        lists(a, report),
        lists(b, report),
    ensures
        a == b,
{
    assert forall|i: int, j: int| 0 <= i < j < a.len() implies (#[trigger] a[i]).connector != (
    #[trigger] a[j]).connector by {
        lemma_connectors_differ(report, a, i, j);
    }
    lemma_only_order(a, b);
}

proof fn lemma_connectors_differ(
    report: Seq<(Seq<char>, JsonView)>,
    a: Seq<MonitorView>,
    i: int,
    j: int,
)
    requires
        keys_differ(report),
        a.to_multiset() == all_described(report).to_multiset(),
        0 <= i < j < a.len(),
    ensures
        a[i].connector != a[j].connector,
{
    broadcast use vstd::seq_lib::group_to_multiset_ensures;

    let all = all_described(report);
    assert(all.contains(a[i])) by {
        assert(a.contains(a[i]));
        assert(all.to_multiset().count(a[i]) > 0);
    }
    let k = choose|k: int| 0 <= k < all.len() && all[k] == a[i];
    // Without that entry, the entry of the other place is still there: it is another one.
    assert(a.remove(i).to_multiset() == all.remove(k).to_multiset());
    assert(a.remove(i)[j - 1] == a[j]);
    assert(a.remove(i).contains(a[j]));
    assert(all.remove(k).to_multiset().count(a[j]) > 0);
    assert(all.remove(k).contains(a[j]));
    let m = choose|m: int| 0 <= m < all.remove(k).len() && all.remove(k)[m] == a[j];
    let n = if m < k {
        m
    } else {
        m + 1
    };
    assert(all[n] == a[j]);
    assert(all[n].connector == report[n].0);
    assert(all[k].connector == report[k].0);
    assert(n != k);
    assert(report[n].0 != report[k].0) by {
        let (first, second) = if n < k {
            (n, k)
        } else {
            (k, n)
        };
        assert(report[first].0 != report[second].0);
    }
}

/// A monitor that counts as ours has our kind of name and niri's stamp: neither an output that the
/// user declared nor niri's own default one does.
pub proof fn law_managed_means_ours(connector: Seq<char>, o: JsonView)
    ensures
        described(connector, o).managed ==> managed_name(connector) && described(connector, o).make
            == "niri"@ && described(connector, o).model == "virtual"@,
        !managed_name(connector) ==> !described(connector, o).managed,
{
}

/// A disabled output keeps its entry, without a place, and every scale factor is positive.
pub proof fn law_disabled_outputs_have_no_place(connector: Seq<char>, o: JsonView)
    ensures
        positive(described(connector, o).scale),
        !described(connector, o).enabled ==> described(connector, o).x == 0 && described(
            connector,
            o,
        ).y == 0 && described(connector, o).scale == ONE,
{
}

/// A size or rate that niri gives as a whole number comes out as that number, or as the greatest
/// that fits.
pub proof fn law_whole_numbers_are_kept(value: JsonView, n: u64)
    requires
        value.well_formed(),
        value.unsigned() == Some(n),
    ensures
        as_u32(value.double()) == if n <= u32::MAX {
            n
        } else {
            u32::MAX as u64
        },
        as_i32(value.double()) == if n <= i32::MAX {
            n
        } else {
            i32::MAX as u64
        },
{
}

/// The model of a monitor has each of its fields, unchanged.
pub proof fn law_monitors_are_modelled_as_held(m: PhysicalMonitor)
    ensures
        m@.connector == m.connector@ && m@.make == m.make@ && m@.model == m.model@,
        m@.width == m.width && m@.height == m.height && m@.refresh_mhz == m.refresh_mhz,
        m@.x == m.x && m@.y == m.y && m@.scale == m.scale,
        m@.primary == m.primary && m@.enabled == m.enabled && m@.managed == m.managed,
{
}

} // verus!
