use punktfunk_linux::cast::{cursor_mode, screen_cast_bus, CastAction, CastEvent, CastThread};
use punktfunk_linux::json::{parse, Json};
use punktfunk_linux::monitors::{
    describe_output, existing_names, list_monitors, monitors_in, outputs_request, PhysicalMonitor,
};
use punktfunk_linux::niri::{
    create_virtual_output, created_name, creation_request, focus_argv, record, removal_request,
    stream_existing_output, CastEnd, CastReply, DisplayOwnership, Mode, NiriDisplay, OutputAction,
    OutputEvent, OutputSession, Removal, Stage,
};
use punktfunk_linux::niri_error::NiriError;
use punktfunk_linux::niri_msg::{
    answer, command_args, json_answer, json_request, MsgError, MsgOutcome,
};
use punktfunk_linux::output_names::{is_managed_output, output_name, OutputNames};

fn strings(items: &[&str]) -> Vec<String> {
    items.iter().map(|s| s.to_string()).collect()
}

fn printed(stdout: &str) -> MsgOutcome {
    MsgOutcome::Exited { success: true, stdout: stdout.as_bytes().to_vec(), stderr: Vec::new() }
}

fn refused(stdout: &[u8], stderr: &[u8]) -> MsgOutcome {
    MsgOutcome::Exited { success: false, stdout: stdout.to_vec(), stderr: stderr.to_vec() }
}

const MODE: Mode = Mode { width: 1920, height: 1080, refresh_hz: 120 };

/// niri spells focus as an ACTION, `msg action focus-monitor <name>`, while every other call is
/// either a top-level subcommand (`create-virtual-output`) or the `output <name> <verb>` shape.
/// Reaching for the familiar `output` noun yields an unrecognized subcommand, and the only symptom
/// would be the bug the call exists to fix: apps opening on the operator's monitor while the
/// stream shows a bare desktop.
#[test]
fn focus_goes_through_the_action_subcommand() {
    assert_eq!(focus_argv("pf-2"), ["action", "focus-monitor", "pf-2"]);
}

/// `pf-` really attributes, unlike sway's blanket `HEADLESS-`: niri's own generated name is
/// `HEADLESS-N` and an operator's `create-virtual` output carries whatever they called it, so
/// neither may be mistaken for ours.
#[test]
fn only_our_own_naming_scheme_counts_as_managed() {
    assert!(is_managed_output("pf-1"));
    assert!(is_managed_output("pf-12"));
    // niri's own default virtual output: virtual, but not ours.
    assert!(!is_managed_output("HEADLESS-1"));
    // An operator's `create-virtual` output, and a physical head.
    assert!(!is_managed_output("ipad"));
    assert!(!is_managed_output("DP-2"));
}

#[test]
fn names_take_the_lowest_free_number() {
    let mut names = OutputNames::new();
    let none = Vec::new();
    assert_eq!(names.take(&none), Some(1));
    assert_eq!(names.take(&none), Some(2));
    assert_eq!(names.take(&none), Some(3));
    names.release(2);
    names.release(7);
    assert_eq!(names.take(&none), Some(2));
    assert_eq!(names.take(&none), Some(4));
    names.release(1);
    names.release(3);
    assert_eq!(names.take(&none), Some(1));
    assert_eq!(names.take(&none), Some(3));
    assert_eq!(output_name(1), "pf-1");
    assert_eq!(output_name(120), "pf-120");
    assert!(is_managed_output(&output_name(u64::MAX)));
}

#[test]
fn names_of_existing_outputs_are_not_taken() {
    let mut names = OutputNames::new();
    let existing = strings(&["pf-1", "DP-2", "pf-3", "pf-03", "xpf-2"]);
    assert_eq!(names.take(&existing), Some(2));
    assert_eq!(names.take(&existing), Some(4));
    assert_eq!(names.take(&Vec::new()), Some(1));
    names.release(4);
    assert_eq!(names.take(&strings(&["pf-1", "pf-2", "pf-3"])), Some(4));
    // Held before, and not any more.
    names.release(2);
    assert_eq!(names.take(&strings(&["pf-1", "pf-3", "pf-4"])), Some(2));
}

#[test]
fn requests_are_led_by_their_words() {
    let args = strings(&["outputs"]);
    assert_eq!(command_args(&args), strings(&["msg", "outputs"]));
    assert_eq!(json_request(&args), strings(&["-j", "outputs"]));
    assert_eq!(outputs_request(), args);
    assert_eq!(removal_request("pf-3"), strings(&["remove-virtual-output", "pf-3"]));
    assert_eq!(
        creation_request("pf-1", MODE),
        strings(&[
            "create-virtual-output",
            "--name",
            "pf-1",
            "--width",
            "1920",
            "--height",
            "1080",
            "--refresh-rate",
            "120"
        ])
    );
}

#[test]
fn creation_keeps_to_what_niri_takes() {
    let least = creation_request("pf-1", Mode { width: 0, height: 0, refresh_hz: 0 });
    assert_eq!((&*least[4], &*least[6], &*least[8]), ("1", "1", "1"));
    let most = creation_request("pf-1", Mode { width: 70000, height: u32::MAX, refresh_hz: u32::MAX });
    assert_eq!((&*most[4], &*most[6], &*most[8]), ("65535", "65535", "4294967295"));
}

#[test]
fn an_answer_is_what_niri_printed() {
    let args = strings(&["version"]);
    assert_eq!(answer(&args, &printed(" 26.04\n")).unwrap(), " 26.04\n");
    let broken =
        MsgOutcome::Exited { success: true, stdout: vec![b'a', 0xff, b'b'], stderr: Vec::new() };
    assert_eq!(answer(&args, &broken).unwrap(), "a\u{fffd}b");
}

#[test]
fn a_refused_request_says_what_niri_said() {
    let args = strings(&["nonsense", "a \"b\""]);
    let error = answer(&args, &refused(b" out \n", b"\terr\xff\n")).unwrap_err();
    assert_eq!(
        error.message(),
        "niri msg [\"nonsense\", \"a \\\"b\\\"\"] failed: outerr\u{fffd}"
    );
    assert!(matches!(error, MsgError::Refused { .. }));
}

#[test]
fn a_run_that_fails_is_reported() {
    let outcome = MsgOutcome::NotRun { cause: "No such file".to_owned() };
    let error = json_answer(&strings(&["outputs"]), &outcome).unwrap_err();
    assert!(matches!(error, MsgError::NotRun { .. }));
    assert_eq!(
        error.message(),
        "run niri msg (is niri installed and NIRI_SOCKET set?): No such file"
    );
}

#[test]
fn json_answers_are_read_and_blamed_on_the_request() {
    let args = strings(&["outputs"]);
    assert!(matches!(json_answer(&args, &printed("null")), Ok(Json::Null)));
    let error = json_answer(&args, &printed("{")).unwrap_err();
    assert!(matches!(error, MsgError::NotJson { .. }));
    assert_eq!(
        error.message(),
        "parse niri msg [\"outputs\"] output: EOF while parsing an object at line 1 column 1"
    );
    let error = json_answer(&args, &refused(b"", b"no")).unwrap_err();
    assert_eq!(error.message(), "niri msg [\"-j\", \"outputs\"] failed: no");
}

#[test]
fn the_created_name_is_read_back() {
    assert_eq!(create_virtual_output("pf-1", MODE, &printed(r#"{"name": "pf-9"}"#)).unwrap(), "pf-9");
    assert_eq!(created_name(&parse(r#"{"name": "pf-9"}"#).unwrap()), Some("pf-9".to_owned()));
    assert_eq!(created_name(&Json::Record(vec![("name".to_owned(), Json::Null)])), None);

    for reply in ["{}", r#"{"name": 3}"#, "[]"] {
        let error = create_virtual_output("pf-1", MODE, &printed(reply)).unwrap_err();
        assert!(matches!(error, NiriError::NoName));
        assert_eq!(error.message(), "create-virtual-output: no `name` in the reply");
    }

    let error =
        create_virtual_output("pf-1", MODE, &refused(b"", b"unrecognized subcommand")).unwrap_err();
    assert!(matches!(error, NiriError::CreateVirtualOutput { .. }));
    assert_eq!(
        error.message(),
        "niri msg create-virtual-output (does this niri have virtual-output support? \
         niri-wm/niri#3800 is unmerged upstream — a stock build has no such subcommand): \
         niri msg [\"-j\", \"create-virtual-output\", \"--name\", \"pf-1\", \"--width\", \"1920\", \
         \"--height\", \"1080\", \"--refresh-rate\", \"120\"] failed: unrecognized subcommand"
    );
}

#[test]
fn a_cast_gives_its_node_or_says_why_not() {
    assert_eq!(record("pf-1", CastReply::Node(42)).unwrap(), 42);
    assert_eq!(
        record("pf-1", CastReply::Failed("no bus".to_owned())).unwrap_err().message(),
        "niri screencast failed: no bus"
    );
    assert_eq!(
        record("pf-1", CastReply::NotSpawned("EAGAIN".to_owned())).unwrap_err().message(),
        "spawn niri screencast thread: EAGAIN"
    );
    assert_eq!(
        record("p\"f", CastReply::TimedOut).unwrap_err().message(),
        "timed out recording the niri output \"p\\\"f\""
    );
    let mirror = stream_existing_output("DP-1", CastReply::Node(7)).unwrap();
    assert_eq!((mirror.node_id, mirror.remote_fd, mirror.cursor_mode), (7, None, None));
    assert!(matches!(
        stream_existing_output("DP-1", CastReply::TimedOut),
        Err(NiriError::CastTimedOut { .. })
    ));
}

const OUTPUTS: &str = r#"{
    "DP-2": {
        "make": "Dell", "model": "U2720Q",
        "modes": [
            {"width": 1280, "height": 720, "refresh_rate": 60000},
            {"width": 3840, "height": 2160, "refresh_rate": 59997}
        ],
        "current_mode": 1,
        "logical": {"x": 1920, "y": 0, "scale": 1.5}
    },
    "pf-1": {
        "make": "niri", "model": "virtual",
        "modes": [{"width": 1920, "height": 1080, "refresh_rate": 120000}],
        "current_mode": 0,
        "logical": {"x": -1920, "y": 0, "scale": 1}
    },
    "ipad": {"make": "niri", "model": "virtual", "modes": [], "current_mode": null, "logical": null},
    "HDMI-A-1": {
        "make": "LG",
        "modes": [{"width": 9e99, "height": -4, "refresh_rate": 59950.9}],
        "current_mode": 0,
        "logical": {"x": 0, "y": -2.9, "scale": 0}
    },
    "eDP-1": {"modes": [], "current_mode": 5, "logical": {"x": 0, "y": -2, "scale": -1.0}}
}"#;

fn connectors(monitors: &[PhysicalMonitor]) -> Vec<&str> {
    monitors.iter().map(|m| m.connector.as_str()).collect()
}

#[test]
fn monitors_are_listed_by_place_and_name() {
    let monitors = list_monitors(&printed(OUTPUTS)).unwrap();
    assert_eq!(connectors(&monitors), ["pf-1", "HDMI-A-1", "eDP-1", "ipad", "DP-2"]);
    let dp = &monitors[4];
    assert_eq!((&*dp.make, &*dp.model), ("Dell", "U2720Q"));
    assert_eq!((dp.width, dp.height, dp.refresh_mhz), (3840, 2160, 59997));
    assert_eq!((dp.x, dp.y, f64::from_bits(dp.scale)), (1920, 0, 1.5));
    assert!(dp.enabled && !dp.primary && !dp.managed);

    let ours = &monitors[0];
    assert_eq!((ours.width, ours.height, ours.refresh_mhz), (1920, 1080, 120000));
    assert_eq!((ours.x, ours.y, f64::from_bits(ours.scale)), (-1920, 0, 1.0));
    assert!(ours.enabled && ours.managed);
}

#[test]
fn disabled_outputs_keep_their_entry() {
    let monitors = list_monitors(&printed(OUTPUTS)).unwrap();
    let ipad = &monitors[3];
    assert!(!ipad.enabled);
    // Virtual, but the user's own.
    assert!(!ipad.managed);
    assert_eq!((ipad.width, ipad.height, ipad.refresh_mhz), (0, 0, 0));
    assert_eq!((ipad.x, ipad.y, f64::from_bits(ipad.scale)), (0, 0, 1.0));
}

#[test]
fn odd_numbers_are_clamped() {
    let monitors = list_monitors(&printed(OUTPUTS)).unwrap();
    let hdmi = &monitors[1];
    assert_eq!((&*hdmi.make, &*hdmi.model), ("LG", ""));
    assert_eq!((hdmi.width, hdmi.height, hdmi.refresh_mhz), (u32::MAX, 0, 59950));
    assert_eq!((hdmi.x, hdmi.y, f64::from_bits(hdmi.scale)), (0, -2, 1.0));
    let edp = &monitors[2];
    assert_eq!((edp.width, f64::from_bits(edp.scale)), (0, 1.0));
    assert!(edp.enabled);
    let wide = parse(
        r#"{"modes": [{"width": 5000000000, "height": 4294967296, "refresh_rate": 4294967295}],
            "current_mode": 0, "logical": {"x": 5000000000, "y": 2147483647, "scale": 1}}"#,
    )
    .unwrap();
    let m = describe_output(&"DP-1".to_owned(), &wide);
    assert_eq!((m.width, m.height, m.refresh_mhz), (u32::MAX, u32::MAX, u32::MAX));
    assert_eq!((m.x, m.y), (i32::MAX, i32::MAX));
}

#[test]
fn only_a_stamped_output_with_our_name_is_managed() {
    let stamp = parse(r#"{"make": "niri", "model": "virtual"}"#).unwrap();
    assert!(describe_output(&"pf-1".to_owned(), &stamp).managed);
    assert!(!describe_output(&"HEADLESS-1".to_owned(), &stamp).managed);
    let head = parse(r#"{"make": "Dell", "model": "virtual"}"#).unwrap();
    assert!(!describe_output(&"pf-1".to_owned(), &head).managed);
    let head = parse(r#"{"make": "niri", "model": "real"}"#).unwrap();
    assert!(!describe_output(&"pf-1".to_owned(), &head).managed);
    assert!(!describe_output(&"pf-1".to_owned(), &Json::Null).managed);
}

#[test]
fn the_existing_names_are_those_of_the_report() {
    let mut names = existing_names(&printed(OUTPUTS));
    names.sort();
    assert_eq!(names, ["DP-2", "HDMI-A-1", "eDP-1", "ipad", "pf-1"]);
    assert_eq!(OutputNames::new().take(&names), Some(2));
    // Nothing is known where the listing fails.
    for outcome in [
        printed("{}"),
        printed("[]"),
        printed("no JSON"),
        refused(b"", b"down"),
        MsgOutcome::NotRun { cause: "no such file".to_owned() },
    ] {
        assert!(existing_names(&outcome).is_empty());
    }
}

#[test]
fn a_list_that_is_none_is_an_error() {
    let error = list_monitors(&printed("[]")).unwrap_err();
    assert!(matches!(error, NiriError::NotAnObject));
    assert_eq!(error.message(), "niri msg outputs: not a JSON object");
    let error = list_monitors(&refused(b"", b"down")).unwrap_err();
    assert!(matches!(error, NiriError::Outputs { .. }));
    assert_eq!(
        error.message(),
        "niri msg outputs: niri msg [\"-j\", \"outputs\"] failed: down"
    );
    assert!(monitors_in(&Json::Null).is_none());
    assert!(monitors_in(&Json::Record(Vec::new())).unwrap().is_empty());
}

/// A session beside the outputs `existing`.
fn session_beside(names: &mut OutputNames, existing: &[&str], hw_cursor: bool) -> OutputSession {
    let mut display = NiriDisplay::new().unwrap();
    assert!(!display.hw_cursor());
    display.set_hw_cursor(hw_cursor);
    assert_eq!(display.hw_cursor(), hw_cursor);
    assert_eq!(display.name(), "niri");
    display.create(names, &strings(existing), MODE).unwrap()
}

fn session(names: &mut OutputNames, hw_cursor: bool) -> OutputSession {
    session_beside(names, &[], hw_cursor)
}

/// The end of a cast on `output` whose handshake failed.
fn ended_cast(output: &str) -> CastEnd {
    let t = CastThread::new(output.to_owned(), false)
        .next(CastEvent::Failed("x".to_owned()))
        .next(CastEvent::Done);
    assert!(matches!(t.action(), CastAction::Exit));
    CastEnd::Finished(t)
}

#[test]
fn an_output_is_created_streamed_and_removed() {
    let mut names = OutputNames::new();
    let s = session(&mut names, true);
    assert_eq!(s.number(), 1);
    match s.action() {
        OutputAction::Create(args) => assert_eq!(args, creation_request("pf-1", MODE)),
        other => panic!("{other:?}"),
    }
    let s = s.next(&mut names, OutputEvent::Answered(printed(r#"{"name": "pf-1"}"#)));
    match s.action() {
        OutputAction::Record { output, hw_cursor, seconds } => {
            assert_eq!((&*output, hw_cursor, seconds), ("pf-1", true, 20))
        }
        other => panic!("{other:?}"),
    }
    let s = s.next(&mut names, OutputEvent::Recorded(CastReply::Node(77)));
    match s.action() {
        OutputAction::Stream(output) => {
            assert_eq!(output.node_id, 77);
            assert_eq!(output.mode, Some((1920, 1080, 120)));
            assert_eq!(output.remote_fd, None);
            assert_eq!(output.ownership, DisplayOwnership::Owned);
        }
        other => panic!("{other:?}"),
    }
    let s = s.next(&mut names, OutputEvent::Released);
    assert!(matches!(s.action(), OutputAction::StopCast));
    let s = s.next(&mut names, OutputEvent::Stopped(ended_cast("pf-1")));
    match s.action() {
        OutputAction::Remove(args) => assert_eq!(args, removal_request("pf-1")),
        other => panic!("{other:?}"),
    }
    assert!(!s.frees_number());
    let s = s.next(&mut names, OutputEvent::Answered(printed("")));
    assert!(matches!(s.action(), OutputAction::Nothing));
    assert!(s.frees_number());
    assert!(matches!(s.into_stage(), Stage::Gone { failure: None, removal: Removal::Done }));
    assert_eq!(session(&mut names, false).number(), 1);
}

#[test]
fn a_failed_recording_takes_the_output_with_it() {
    let mut names = OutputNames::new();
    let s = session(&mut names, false);
    assert!(!s.frees_number());
    let s = s
        .next(&mut names, OutputEvent::Answered(printed(r#"{"name": "HEADLESS-4"}"#)))
        .next(&mut names, OutputEvent::Recorded(CastReply::TimedOut));
    assert!(matches!(s.action(), OutputAction::StopCast));
    let s = s.next(&mut names, OutputEvent::Stopped(ended_cast("HEADLESS-4")));
    match s.action() {
        OutputAction::Remove(args) => assert_eq!(args, removal_request("HEADLESS-4")),
        other => panic!("{other:?}"),
    }
    let s = s.next(&mut names, OutputEvent::Answered(refused(b"", b"gone")));
    assert!(s.frees_number());
    match s.into_stage() {
        Stage::Gone { failure: Some(error), removal: Removal::Failed(why) } => {
            assert_eq!(error.message(), "timed out recording the niri output \"HEADLESS-4\"");
            assert_eq!(
                why.message(),
                "niri msg [\"remove-virtual-output\", \"HEADLESS-4\"] failed: gone"
            );
        }
        other => panic!("{other:?}"),
    }
}

#[test]
fn a_failed_creation_leaves_nothing_to_remove() {
    let mut names = OutputNames::new();
    let s = session(&mut names, false);
    let s = s.next(&mut names, OutputEvent::Answered(refused(b"", b"taken")));
    assert!(matches!(s.action(), OutputAction::Nothing));
    assert!(s.frees_number());
    assert!(matches!(
        s.into_stage(),
        Stage::Gone {
            failure: Some(NiriError::CreateVirtualOutput { .. }),
            removal: Removal::NotNeeded
        }
    ));
    // No output has the name, so the next session gets it.
    let s = session(&mut names, false);
    assert_eq!(s.number(), 1);
    let not_run = MsgOutcome::NotRun { cause: "no such file".to_owned() };
    let s = s.next(&mut names, OutputEvent::Answered(not_run));
    assert!(s.frees_number());
    assert_eq!(session(&mut names, false).number(), 1);
}

#[test]
fn a_number_is_free_as_soon_as_no_output_can_have_it() {
    let mut names = OutputNames::new();
    // Someone else's output has the first name.
    let s = session_beside(&mut names, &["pf-1"], false);
    assert_eq!(s.number(), 2);
    // niri chose a name of its own.
    let s = s.next(&mut names, OutputEvent::Answered(printed(r#"{"name": "HEADLESS-1"}"#)));
    assert!(s.frees_number());
    let other = session_beside(&mut names, &["pf-1", "HEADLESS-1"], false);
    assert_eq!(other.number(), 2);
    // The number is the other session's now, and stays so when this one goes.
    let s = s
        .next(&mut names, OutputEvent::Recorded(CastReply::Node(5)))
        .next(&mut names, OutputEvent::Released)
        .next(&mut names, OutputEvent::Stopped(CastEnd::NoThread))
        .next(&mut names, OutputEvent::Answered(printed("")));
    assert!(matches!(s.action(), OutputAction::Nothing));
    assert_eq!(session_beside(&mut names, &["pf-1"], false).number(), 3);
}

#[test]
fn an_output_is_removed_only_once_its_cast_has_ended() {
    let mut names = OutputNames::new();
    let mut s = session(&mut names, false);
    for event in [
        OutputEvent::Answered(printed(r#"{"name": "pf-1"}"#)),
        OutputEvent::Recorded(CastReply::Node(55)),
        OutputEvent::Released,
    ] {
        s = s.next(&mut names, event);
    }
    let running = cast_after(10).next(CastEvent::Done);
    assert!(matches!(running.action(), CastAction::CheckStop));
    let stopping = cast_after(10).next(CastEvent::OpenerGone);
    for cast in [running, stopping] {
        s = s.next(&mut names, OutputEvent::Stopped(CastEnd::Finished(cast)));
        assert!(matches!(s.action(), OutputAction::StopCast));
    }
    // Nor by the end of a cast on another output.
    s = s.next(&mut names, OutputEvent::Stopped(ended_cast("pf-2")));
    assert!(matches!(s.action(), OutputAction::StopCast));
    let ended = cast_after(10).next(CastEvent::OpenerGone).next(CastEvent::Done);
    s = s.next(&mut names, OutputEvent::Stopped(CastEnd::Finished(ended)));
    assert!(matches!(s.action(), OutputAction::Remove(_)));
}

#[test]
fn an_event_out_of_turn_changes_nothing() {
    let mut names = OutputNames::new();
    let s = session(&mut names, false);
    let s = s
        .next(&mut names, OutputEvent::Released)
        .next(&mut names, OutputEvent::Stopped(CastEnd::NoThread))
        .next(&mut names, OutputEvent::Recorded(CastReply::Node(1)));
    assert!(matches!(s.action(), OutputAction::Create(_)));
    let t = CastThread::new("pf-1".to_owned(), false).next(CastEvent::Node(3));
    assert!(matches!(t.action(), CastAction::BuildRuntime));
}

/// The thread of a cast on `pf-1` after `n` steps of the handshake.
fn cast_after(n: usize) -> CastThread {
    let mut t = CastThread::new("pf-1".to_owned(), true);
    let steps = vec![
        CastEvent::Done,
        CastEvent::Done,
        CastEvent::Done,
        CastEvent::Opened("/session/1".to_owned()),
        CastEvent::Done,
        CastEvent::Opened("/stream/2".to_owned()),
        CastEvent::Done,
        CastEvent::Done,
        CastEvent::Done,
        CastEvent::Node(55),
    ];
    for e in steps.into_iter().take(n) {
        t = t.next(e);
    }
    t
}

#[test]
fn the_handshake_subscribes_before_it_starts() {
    assert_eq!(screen_cast_bus(), "org.gnome.Mutter.ScreenCast");
    assert!(matches!(cast_after(0).action(), CastAction::BuildRuntime));
    assert!(matches!(cast_after(1).action(), CastAction::ConnectBus));
    assert!(matches!(cast_after(2).action(), CastAction::OpenProxy { path, interface }
        if path == "/org/gnome/Mutter/ScreenCast" && interface == "org.gnome.Mutter.ScreenCast"));
    assert!(matches!(cast_after(3).action(), CastAction::CreateSession));
    assert!(matches!(cast_after(4).action(), CastAction::OpenProxy { path, interface }
        if path == "/session/1" && interface == "org.gnome.Mutter.ScreenCast.Session"));
    assert!(matches!(cast_after(5).action(), CastAction::RecordMonitor { output, cursor_mode: 2 }
        if output == "pf-1"));
    assert!(matches!(cast_after(6).action(), CastAction::OpenProxy { path, interface }
        if path == "/stream/2" && interface == "org.gnome.Mutter.ScreenCast.Stream"));
    assert!(matches!(cast_after(7).action(), CastAction::Subscribe));
    assert!(matches!(cast_after(8).action(), CastAction::Start));
    assert!(matches!(cast_after(9).action(), CastAction::AwaitNode { seconds: 10 }));
    assert!(matches!(cast_after(10).action(), CastAction::ReportNode(55)));
    assert_eq!(cast_after(10).output(), "pf-1");
    assert_eq!((cursor_mode(false), cursor_mode(true)), (1, 2));
}

#[test]
fn a_running_cast_parks_until_it_is_to_stop() {
    let mut t = cast_after(10).next(CastEvent::Done);
    for _ in 0..3 {
        assert!(matches!(t.action(), CastAction::CheckStop));
        t = t.next(CastEvent::StopWanted(false));
        assert!(matches!(t.action(), CastAction::Rest { millis: 200 }));
        t = t.next(CastEvent::Done);
    }
    t = t.next(CastEvent::StopWanted(true));
    assert!(matches!(t.action(), CastAction::Stop));
    assert!(matches!(t.next(CastEvent::Failed("late".to_owned())).action(), CastAction::Exit));
    // However long the stop takes, the thread waits for it.
    let t = cast_after(10).next(CastEvent::OpenerGone).next(CastEvent::TimedOut);
    assert!(matches!(t.action(), CastAction::Stop));
}

#[test]
fn only_a_handshake_is_broken_off() {
    for n in 0..10 {
        assert!(cast_after(n).in_handshake());
        let t = cast_after(n).next(CastEvent::BrokenOff);
        assert!(matches!(t.action(), CastAction::Exit));
        assert!(!t.in_handshake());
    }
    // A session whose node is known is stopped first.
    let t = cast_after(10);
    assert!(!t.in_handshake());
    let t = t.next(CastEvent::BrokenOff);
    assert!(matches!(t.action(), CastAction::ReportNode(55)));
    let t = t.next(CastEvent::Done).next(CastEvent::BrokenOff);
    assert!(matches!(t.action(), CastAction::CheckStop));
    // A failure is reported first.
    let t = cast_after(3).next(CastEvent::Failed("x".to_owned())).next(CastEvent::BrokenOff);
    assert!(matches!(t.action(), CastAction::ReportFailure(_)));
}

#[test]
fn a_cast_whose_opener_is_gone_is_stopped_at_once() {
    let t = cast_after(10).next(CastEvent::OpenerGone);
    assert!(matches!(t.action(), CastAction::Stop));
    assert!(matches!(t.next(CastEvent::Done).action(), CastAction::Exit));
}

#[test]
fn a_failed_handshake_is_reported_in_its_own_words() {
    let reasons = [
        "build tokio runtime: x",
        "connect session D-Bus: x",
        "ScreenCast proxy (is niri running, and built with the xdp-gnome-screencast feature?): x",
        "ScreenCast.CreateSession: x",
        "x",
        "Session.RecordMonitor(\"pf-1\"): x",
        "x",
        "subscribe PipeWireStreamAdded: x",
        "ScreenCast.Session.Start: x",
        "PipeWireStreamAdded body: x",
    ];
    for (n, reason) in reasons.iter().enumerate() {
        let t = cast_after(n).next(CastEvent::Failed("x".to_owned()));
        match t.action() {
            CastAction::ReportFailure(text) => assert_eq!(text, *reason),
            other => panic!("{other:?}"),
        }
        assert!(matches!(t.next(CastEvent::Done).action(), CastAction::Exit));
    }
    assert!(matches!(cast_after(9).next(CastEvent::TimedOut).action(), CastAction::ReportFailure(text)
        if text == "PipeWireStreamAdded did not arrive within 10s"));
    let t = cast_after(9).next(CastEvent::SignalsEnded);
    assert!(matches!(t.action(), CastAction::ReportFailure(text)
        if text == "signal stream ended before PipeWireStreamAdded"));
    assert!(matches!(t.next(CastEvent::OpenerGone).action(), CastAction::Exit));
}
