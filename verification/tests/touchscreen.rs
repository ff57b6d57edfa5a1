use punktfunk_linux::contacts::{
    scale, Contact, Contacts, InputEvent, InputKind, ABS_MAX, LIFTED, MAX_CONTACTS,
};
use punktfunk_linux::evdev::{
    encode_frame, Ev, ABS_MT_POSITION_X, ABS_MT_POSITION_Y, ABS_MT_SLOT, ABS_MT_TRACKING_ID, ABS_X,
    ABS_Y, BTN_TOUCH, EV_ABS, EV_KEY, EV_SYN, RECORD_LEN, SYN_REPORT,
};
use punktfunk_linux::touchscreen::{
    Argument, SetupAction, SetupStage, SetupStep, TeardownAction, VirtualTouchscreen,
    INPUT_PROP_DIRECT, UI_ABS_SETUP, UI_DEV_CREATE, UI_DEV_SETUP, UI_SET_EVBIT, UI_SET_KEYBIT, UI_SET_PROPBIT,
};

fn ev(kind: InputKind, id: u32, x: i32, y: i32, w: u32, h: u32) -> InputEvent {
    InputEvent {
        kind,
        _pad: [0; 3],
        code: id,
        x,
        y,
        flags: (w << 16) | h,
    }
}

fn down(id: u32, x: i32, y: i32) -> InputEvent {
    ev(InputKind::TouchDown, id, x, y, 1000, 1000)
}

fn mv(id: u32, x: i32, y: i32) -> InputEvent {
    ev(InputKind::TouchMove, id, x, y, 1000, 1000)
}

fn up(id: u32) -> InputEvent {
    // The wire sends only the id on a lift: no coordinates, no extent.
    ev(InputKind::TouchUp, id, 0, 0, 0, 0)
}

/// A one-finger stroke: the slot opens with a tracking id and `BTN_TOUCH`, moves carry position
/// only, and the lift closes both.
#[test]
fn single_finger_stroke() {
    let mut c = Contacts::default();
    let f = c.frame(&down(7, 500, 250)).unwrap();
    assert_eq!(f[0], (EV_ABS, ABS_MT_SLOT, 0));
    assert_eq!(f[1], (EV_ABS, ABS_MT_TRACKING_ID, 0));
    assert!(f.contains(&(EV_ABS, ABS_MT_POSITION_X, ABS_MAX / 2)));
    assert!(f.contains(&(EV_ABS, ABS_MT_POSITION_Y, ABS_MAX / 4)));
    // The primary finger also drives the single-touch emulation axes.
    assert!(f.contains(&(EV_ABS, ABS_X, ABS_MAX / 2)));
    assert!(f.contains(&(EV_KEY, BTN_TOUCH, 1)));

    let f = c.frame(&mv(7, 1000, 1000)).unwrap();
    assert!(f.contains(&(EV_ABS, ABS_MT_POSITION_X, ABS_MAX)));
    assert!(!f.iter().any(|e| e.1 == ABS_MT_TRACKING_ID));
    assert!(!f.iter().any(|e| e.1 == BTN_TOUCH));

    let f = c.frame(&up(7)).unwrap();
    assert_eq!(f[0], (EV_ABS, ABS_MT_SLOT, 0));
    assert_eq!(f[1], (EV_ABS, ABS_MT_TRACKING_ID, -1));
    assert!(f.contains(&(EV_KEY, BTN_TOUCH, 0)));
    assert!(c.live.is_empty());
}

/// Two fingers get their own slots, and `BTN_TOUCH` belongs to the FIRST down and the LAST up, not
/// to every transition (a pinch would otherwise flap it).
#[test]
fn second_finger_gets_its_own_slot_and_no_btn_touch() {
    let mut c = Contacts::default();
    c.frame(&down(1, 0, 0)).unwrap();
    let f = c.frame(&down(2, 500, 500)).unwrap();
    assert_eq!(f[0], (EV_ABS, ABS_MT_SLOT, 1));
    assert!(!f.iter().any(|e| e.1 == BTN_TOUCH));
    // Only the primary (slot 0) writes the emulation axes.
    assert!(!f.iter().any(|e| e.1 == ABS_X));

    let f = c.frame(&up(1)).unwrap();
    assert!(!f.iter().any(|e| e.1 == BTN_TOUCH)); // finger 2 is still down
    let f = c.frame(&up(2)).unwrap();
    assert!(f.contains(&(EV_KEY, BTN_TOUCH, 0)));
}

/// A lifted slot is reused, but with a FRESH tracking id: that is what tells the compositor this is
/// a new touch rather than a continuing one.
#[test]
fn slot_is_reused_with_a_new_tracking_id() {
    let mut c = Contacts::default();
    c.frame(&down(1, 0, 0)).unwrap();
    c.frame(&up(1)).unwrap();
    let f = c.frame(&down(1, 0, 0)).unwrap();
    assert_eq!(f[0], (EV_ABS, ABS_MT_SLOT, 0));
    assert_eq!(f[1], (EV_ABS, ABS_MT_TRACKING_ID, 1));
}

/// A MOVE whose DOWN never arrived (datagram loss) begins the contact instead of vanishing.
#[test]
fn move_for_an_unknown_finger_self_heals() {
    let mut c = Contacts::default();
    let f = c.frame(&mv(3, 250, 0)).unwrap();
    assert_eq!(f[1], (EV_ABS, ABS_MT_TRACKING_ID, 0));
    assert!(f.contains(&(EV_KEY, BTN_TOUCH, 1)));
    assert_eq!(c.live.len(), 1);
}

/// A lift for a finger we never tracked, and a down with no usable surface, emit nothing.
#[test]
fn nothing_to_send_stays_nothing() {
    let mut c = Contacts::default();
    assert!(c.frame(&up(9)).is_none());
    assert!(c.frame(&ev(InputKind::TouchDown, 1, 5, 5, 0, 0)).is_none());
    assert!(c.live.is_empty());
}

/// Past the slot ceiling the newcomer is dropped, never a live finger, whose slot the compositor is
/// still tracking.
#[test]
fn contacts_beyond_the_ceiling_are_dropped_not_evicted() {
    let mut c = Contacts::default();
    for id in 0..MAX_CONTACTS as u32 {
        assert!(c.frame(&down(id, 0, 0)).is_some());
    }
    assert!(c.frame(&down(99, 0, 0)).is_none());
    assert_eq!(c.live.len(), MAX_CONTACTS);
    assert!(c.live.iter().all(|x| x.id != 99));
}

/// The scale is the wire's own absolute contract: the surface's far edge is the axis maximum, and a
/// sample outside it clamps instead of wrapping.
#[test]
fn scale_spans_the_surface_and_clamps() {
    assert_eq!(scale(0, 1000), 0);
    assert_eq!(scale(1000, 1000), ABS_MAX);
    assert_eq!(scale(-5, 1000), 0);
    assert_eq!(scale(4000, 1000), ABS_MAX);
    assert_eq!(scale(10, 0), 0); // extent guard: never a divide by zero
}

#[test]
fn scale_at_the_extremes() {
    assert_eq!(scale(i32::MIN, 1), 0);
    assert_eq!(scale(i32::MAX, 1), ABS_MAX);
    assert_eq!(scale(i32::MAX, u32::MAX), 32767);
    assert_eq!(scale(333, 1000), 21823);
    // Full scale is reached at the far edge only.
    assert_eq!(scale(999_999, 1_000_000), ABS_MAX - 1);
}

#[test]
fn whole_frames_of_a_two_finger_stroke() {
    let mut c = Contacts::default();
    assert_eq!(
        c.frame(&down(7, 1000, 0)).unwrap(),
        vec![
            (EV_ABS, ABS_MT_SLOT, 0),
            (EV_ABS, ABS_MT_TRACKING_ID, 0),
            (EV_ABS, ABS_MT_POSITION_X, 65535),
            (EV_ABS, ABS_MT_POSITION_Y, 0),
            (EV_ABS, ABS_X, 65535),
            (EV_ABS, ABS_Y, 0),
            (EV_KEY, BTN_TOUCH, 1),
        ]
    );
    assert_eq!(
        c.frame(&down(8, 0, 1000)).unwrap(),
        vec![
            (EV_ABS, ABS_MT_SLOT, 1),
            (EV_ABS, ABS_MT_TRACKING_ID, 1),
            (EV_ABS, ABS_MT_POSITION_X, 0),
            (EV_ABS, ABS_MT_POSITION_Y, 65535),
        ]
    );
    assert_eq!(
        c.frame(&up(7)).unwrap(),
        vec![(EV_ABS, ABS_MT_SLOT, 0), (EV_ABS, ABS_MT_TRACKING_ID, LIFTED)]
    );
    // The finger that is left is the oldest now, and drives the single-touch axes.
    assert_eq!(
        c.frame(&mv(8, 500, 500)).unwrap(),
        vec![
            (EV_ABS, ABS_MT_SLOT, 1),
            (EV_ABS, ABS_MT_POSITION_X, 32767),
            (EV_ABS, ABS_MT_POSITION_Y, 32767),
            (EV_ABS, ABS_X, 32767),
            (EV_ABS, ABS_Y, 32767),
        ]
    );
    assert_eq!(c.live, vec![Contact { id: 8, slot: 1 }]);
    assert_eq!(c.free_slot(), 0);
}

#[test]
fn one_zero_extent_is_enough_to_drop() {
    let mut c = Contacts::default();
    assert!(c.frame(&ev(InputKind::TouchDown, 1, 5, 5, 0, 9)).is_none());
    assert!(c.frame(&ev(InputKind::TouchMove, 1, 5, 5, 9, 0)).is_none());
    assert!(c.frame(&down(1, 5, 5)).is_some());
    assert!(c.frame(&ev(InputKind::TouchMove, 1, 5, 5, 9, 0)).is_none());
    assert_eq!(c.live.len(), 1);
}

#[test]
fn tracking_ids_come_round_without_going_negative() {
    let mut c = Contacts::default();
    c.next_tracking_id = i32::MAX;
    assert_eq!(c.frame(&down(1, 0, 0)).unwrap()[1].2, i32::MAX);
    assert_eq!(c.frame(&down(2, 0, 0)).unwrap()[1].2, 0);
    assert_eq!(c.take_tracking_id(), 1);
    assert_eq!(c.take_tracking_id(), 2);
}

#[test]
fn the_free_slot_is_the_lowest_one_whatever_the_others_are() {
    let mut c = Contacts::default();
    assert_eq!(c.free_slot(), 0);
    for (id, slot) in [(1, 1), (2, 0), (3, 1), (4, 3), (5, 0), (6, -2)] {
        c.live.push(Contact { id, slot });
    }
    assert_eq!(c.free_slot(), 2);
}

#[test]
fn a_lift_undoes_its_touch() {
    let mut c = Contacts::default();
    c.frame(&down(1, 0, 0)).unwrap();
    c.frame(&down(2, 0, 0)).unwrap();
    let before = c.live.clone();
    c.frame(&down(3, 0, 0)).unwrap();
    c.frame(&up(3)).unwrap();
    assert_eq!(c.live, before);
    assert_eq!(c.next_tracking_id, 3);
}

#[test]
fn no_event_evicts_another_finger() {
    let mut c = Contacts::default();
    for id in 0..MAX_CONTACTS as u32 {
        c.frame(&down(id, 0, 0)).unwrap();
    }
    let before = c.live.clone();
    assert!(c.frame(&mv(55, 1, 1)).is_none());
    assert!(c.frame(&up(56)).is_none());
    assert_eq!(c.live, before);
    c.frame(&up(4)).unwrap();
    assert!(before.iter().filter(|x| x.id != 4).all(|x| c.live.contains(x)));
    // The slot that fell free goes to the next finger.
    assert_eq!(c.frame(&down(77, 0, 0)).unwrap()[0], (EV_ABS, ABS_MT_SLOT, 4));
}

#[test]
fn a_move_does_what_a_touch_does_for_a_new_finger() {
    let mut a = Contacts::default();
    let mut b = Contacts::default();
    assert_eq!(a.frame(&down(3, 10, 20)), b.frame(&mv(3, 10, 20)));
    assert_eq!(a.live, b.live);
    assert_eq!(a.next_tracking_id, b.next_tracking_id);
}

/// What a reader of the device has been told: the slots with a contact, and the button.
fn hear(slots: &mut Vec<i32>, touch: &mut bool, frame: &[Ev]) {
    let mut slot = -1;
    for e in frame {
        match (e.0, e.1) {
            (EV_ABS, ABS_MT_SLOT) => slot = e.2,
            (EV_ABS, ABS_MT_TRACKING_ID) => {
                slots.retain(|s| *s != slot);
                if e.2 != LIFTED {
                    slots.push(slot);
                }
            }
            (EV_KEY, BTN_TOUCH) => *touch = e.2 != 0,
            _ => {}
        }
    }
}

#[test]
fn the_reader_believes_what_the_contacts_hold() {
    let mut c = Contacts::default();
    let mut slots: Vec<i32> = Vec::new();
    let mut touch = false;
    let events = [
        down(1, 0, 0),
        down(2, 5, 5),
        up(1),
        mv(3, 9, 9),
        mv(2, 1, 1),
        up(9),
        up(2),
        down(1, 3, 3),
        up(3),
        up(1),
        down(6, 1, 1),
        down(7, 1, 1),
    ];
    for e in events.iter() {
        if let Some(frame) = c.frame(e) {
            hear(&mut slots, &mut touch, &frame);
        }
        let mut held: Vec<i32> = c.live.iter().map(|x| x.slot).collect();
        held.sort();
        slots.sort();
        assert_eq!(slots, held);
        assert_eq!(touch, !held.is_empty());
    }
    let release = c.release().unwrap();
    hear(&mut slots, &mut touch, &release);
    assert!(slots.is_empty());
    assert!(!touch);
}

#[test]
fn release_lifts_each_finger_and_then_the_button() {
    let mut c = Contacts::default();
    assert!(c.release().is_none());
    c.frame(&down(1, 0, 0)).unwrap();
    c.frame(&down(2, 0, 0)).unwrap();
    assert_eq!(
        c.release().unwrap(),
        vec![
            (EV_ABS, ABS_MT_SLOT, 0),
            (EV_ABS, ABS_MT_TRACKING_ID, -1),
            (EV_ABS, ABS_MT_SLOT, 1),
            (EV_ABS, ABS_MT_TRACKING_ID, -1),
            (EV_KEY, BTN_TOUCH, 0),
        ]
    );
}

#[test]
fn a_frame_is_one_record_per_event_and_a_closing_report() {
    let bytes = encode_frame(&[(EV_ABS, ABS_MT_TRACKING_ID, -1), (EV_KEY, BTN_TOUCH, 1)]);
    assert_eq!(bytes.len(), 3 * RECORD_LEN);
    assert_eq!(bytes[..16], [0; 16]);
    assert_eq!(bytes[16..24], [3, 0, 0x39, 0, 0xff, 0xff, 0xff, 0xff]);
    assert_eq!(bytes[24..40], [0; 16]);
    assert_eq!(bytes[40..48], [1, 0, 0x4a, 1, 1, 0, 0, 0]);
    assert_eq!(bytes[48..], [0; 24]);
    assert_eq!((EV_SYN, SYN_REPORT), (0, 0));
    assert_eq!(encode_frame(&[]), vec![0; 24]);
}

#[test]
fn encoded_values_keep_every_byte() {
    let bytes = encode_frame(&[(0x1234, 0xabcd, 0x0102_0304), (0, 0, i32::MIN)]);
    assert_eq!(bytes[16..24], [0x34, 0x12, 0xcd, 0xab, 4, 3, 2, 1]);
    assert_eq!(bytes[40..48], [0, 0, 0, 0, 0, 0, 0, 0x80]);
}

fn ready() -> VirtualTouchscreen {
    let mut setup = VirtualTouchscreen::create();
    while setup.action() != SetupAction::Finish {
        setup = setup.answer(Ok(()));
    }
    match setup.finish() {
        Ok(screen) => screen,
        Err(stage) => panic!("{stage:?}"),
    }
}

#[test]
fn setup_declares_a_touchscreen() {
    let mut setup = VirtualTouchscreen::create();
    assert_eq!(setup.action(), SetupAction::Open);
    setup = setup.answer(Ok(()));
    let mut steps: Vec<SetupStep> = Vec::new();
    while let SetupAction::Issue(step) = setup.action() {
        steps.push(step);
        setup = setup.answer(Ok(()));
    }
    assert_eq!(setup.action(), SetupAction::Finish);
    assert_eq!(
        steps,
        vec![
            SetupStep::EventType(1),
            SetupStep::EventType(3),
            SetupStep::Key(0x14a),
            SetupStep::Property(INPUT_PROP_DIRECT),
            SetupStep::Axis { code: 0, minimum: 0, maximum: 65535 },
            SetupStep::Axis { code: 1, minimum: 0, maximum: 65535 },
            SetupStep::Axis { code: 0x35, minimum: 0, maximum: 65535 },
            SetupStep::Axis { code: 0x36, minimum: 0, maximum: 65535 },
            SetupStep::Axis { code: 0x2f, minimum: 0, maximum: 9 },
            SetupStep::Axis { code: 0x39, minimum: 0, maximum: i32::MAX },
            SetupStep::Identity,
            SetupStep::Create,
        ]
    );
    assert!(setup.finish().is_ok());
}

#[test]
fn setup_steps_are_the_uinput_ioctls() {
    assert_eq!(SetupStep::EventType(3).request(), UI_SET_EVBIT);
    assert_eq!(SetupStep::EventType(3).argument(), Argument::Int(3));
    assert_eq!(SetupStep::Key(BTN_TOUCH).request(), UI_SET_KEYBIT);
    assert_eq!(SetupStep::Key(BTN_TOUCH).argument(), Argument::Int(0x14a));
    assert_eq!(SetupStep::Property(1).request(), UI_SET_PROPBIT);
    assert_eq!(SetupStep::Property(1).argument(), Argument::Int(1));
    assert_eq!(SetupStep::Create.request(), UI_DEV_CREATE);
    assert_eq!(SetupStep::Create.argument(), Argument::Int(0));

    let axis = SetupStep::Axis { code: 0x39, minimum: 0, maximum: i32::MAX };
    assert_eq!(axis.request(), UI_ABS_SETUP);
    let mut image = vec![0x39, 0, 0, 0, 0, 0, 0, 0, 0, 0, 0, 0, 0xff, 0xff, 0xff, 0x7f];
    image.extend([0; 12]);
    assert_eq!(axis.argument(), Argument::Struct(image));

    assert_eq!(SetupStep::Identity.request(), UI_DEV_SETUP);
    let mut image = vec![6, 0, 0x09, 0x12, 0x54, 0x50, 1, 0];
    image.extend(b"Punktfunk Touchscreen");
    image.extend([0; 59]);
    image.extend([0; 4]);
    assert_eq!(image.len(), 92);
    assert_eq!(SetupStep::Identity.argument(), Argument::Struct(image));
}

#[test]
fn a_device_node_that_does_not_open_ends_the_setup() {
    let setup = VirtualTouchscreen::create().answer(Err("Permission denied (os error 13)".to_owned()));
    assert_eq!(setup.action(), SetupAction::GiveUp);
    let setup = setup.answer(Ok(()));
    assert_eq!(setup.action(), SetupAction::GiveUp);
    match setup.finish() {
        Err(SetupStage::Failed(reason)) => assert_eq!(
            reason,
            "open /dev/uinput: Permission denied (os error 13) (install the udev rule granting the \
             'input' group access — see scripts/60-punktfunk.rules — and add the user to the \
             'input' group)"
        ),
        _ => panic!("the setup went on"),
    }
}

#[test]
fn a_step_that_fails_is_named() {
    let names = [
        "UI_SET_EVBIT(EV_KEY)",
        "UI_SET_EVBIT(EV_ABS)",
        "UI_SET_KEYBIT",
        "UI_SET_PROPBIT(DIRECT)",
        "UI_ABS_SETUP",
        "UI_ABS_SETUP",
        "UI_ABS_SETUP",
        "UI_ABS_SETUP",
        "UI_ABS_SETUP",
        "UI_ABS_SETUP",
        "UI_DEV_SETUP",
        "UI_DEV_CREATE",
    ];
    for (i, name) in names.iter().enumerate() {
        let mut setup = VirtualTouchscreen::create();
        for _ in 0..=i {
            setup = setup.answer(Ok(()));
        }
        match setup.answer(Err("no".to_owned())).finish() {
            Err(SetupStage::Failed(reason)) => assert_eq!(reason, format!("{name}: no")),
            _ => panic!("step {i} did not fail"),
        }
    }
}

#[test]
fn there_is_no_touchscreen_before_the_end_of_the_setup() {
    assert!(matches!(VirtualTouchscreen::create().finish(), Err(SetupStage::Opening)));
    let setup = VirtualTouchscreen::create().answer(Ok(())).answer(Ok(()));
    assert!(matches!(setup.finish(), Err(SetupStage::Issuing(1))));
}

#[test]
fn the_touchscreen_writes_whole_frames() {
    let mut screen = ready();
    assert_eq!(screen.apply(&up(1)), None);
    let mut c = Contacts::default();
    for e in [down(1, 0, 0), mv(1, 500, 500), down(2, 7, 7), up(1)].iter() {
        let frame = c.frame(e).unwrap();
        assert_eq!(screen.apply(e), Some(encode_frame(&frame)));
    }
}

#[test]
fn the_device_is_destroyed_after_the_fingers_are_lifted() {
    let destroy = TeardownAction::Destroy { request: 0x5502 };
    assert_eq!(ready().teardown(), vec![destroy]);

    let mut screen = ready();
    screen.apply(&down(7, 0, 0)).unwrap();
    screen.apply(&down(8, 0, 0)).unwrap();
    screen.apply(&down(9, 0, 0)).unwrap();
    screen.apply(&up(8)).unwrap();
    let lift = [
        (EV_ABS, ABS_MT_SLOT, 0),
        (EV_ABS, ABS_MT_TRACKING_ID, -1),
        (EV_ABS, ABS_MT_SLOT, 2),
        (EV_ABS, ABS_MT_TRACKING_ID, -1),
        (EV_KEY, BTN_TOUCH, 0),
    ];
    let destroy = TeardownAction::Destroy { request: 0x5502 };
    assert_eq!(
        screen.teardown(),
        vec![TeardownAction::Write(encode_frame(&lift)), destroy]
    );

    // Once they are all lifted, there is nothing to write.
    let mut screen = ready();
    screen.apply(&down(7, 0, 0)).unwrap();
    screen.apply(&up(7)).unwrap();
    assert_eq!(screen.teardown().len(), 1);
}
