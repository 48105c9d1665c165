use gamepad_backend::ev_code::{EvCode, EvCodeKind};
use gamepad_backend::event::EventType;
use gamepad_backend::gamepad::{
    classify_battery, fingerprint, AxisInfo, BatteryReading, Gamepad, GamepadInfo, PowerInfo,
};
use gamepad_backend::poll::PollState;
use gamepad_backend::session::Gilrs;
use gamepad_backend::snapshot::{AxisReading, Snapshot};

fn axis(bits: u64, value: i32) -> AxisReading {
    AxisReading { bits, value }
}

fn info(name: &str, wireless: bool, axes: u32, buttons: u32) -> GamepadInfo {
    GamepadInfo {
        name: name.to_string(),
        wireless,
        vendor_id: 0x045E,
        product_id: 0x028E,
        has_mapped_gamepad: true,
        has_ff_motor: true,
        axis_count: axes,
        button_count: buttons,
    }
}

#[test]
fn button_diff_press() {
    let old_snap = Snapshot {
        axes: vec![],
        buttons: vec![false, true],
        switches: vec![],
        time: 1,
    };
    let new_snap = Snapshot {
        axes: vec![],
        buttons: vec![true, true],
        switches: vec![],
        time: 2,
    };
    let events = old_snap.events_from_differences(&new_snap);
    assert_eq!(
        events,
        vec![EventType::ButtonPressed(EvCode { kind: EvCodeKind::Button, index: 0 })]
    );
}

#[test]
fn button_diff_release() {
    let old_snap = Snapshot {
        axes: vec![],
        buttons: vec![true],
        switches: vec![],
        time: 1,
    };
    let new_snap = Snapshot {
        axes: vec![],
        buttons: vec![false],
        switches: vec![],
        time: 2,
    };
    let events = old_snap.events_from_differences(&new_snap);
    assert_eq!(
        events,
        vec![EventType::ButtonReleased(EvCode { kind: EvCodeKind::Button, index: 0 })]
    );
}

#[test]
fn axis_diff_exactly_changed_indices() {
    let old_snap = Snapshot {
        axes: vec![axis(10, 100), axis(20, 200), axis(30, 300)],
        buttons: vec![],
        switches: vec![],
        time: 1,
    };
    let new_snap = Snapshot {
        axes: vec![axis(10, 100), axis(21, 250), axis(30, 300)],
        buttons: vec![],
        switches: vec![],
        time: 2,
    };
    let events = old_snap.events_from_differences(&new_snap);
    assert_eq!(
        events,
        vec![EventType::AxisValueChanged(250, EvCode { kind: EvCodeKind::Axis, index: 1 })]
    );
}

#[test]
fn diff_axes_before_buttons_in_index_order() {
    let old_snap = Snapshot {
        axes: vec![axis(1, 0), axis(2, 0)],
        buttons: vec![false, false],
        switches: vec![],
        time: 1,
    };
    let new_snap = Snapshot {
        axes: vec![axis(5, -7), axis(6, 9)],
        buttons: vec![true, true],
        switches: vec![],
        time: 2,
    };
    let events = old_snap.events_from_differences(&new_snap);
    assert_eq!(
        events,
        vec![
            EventType::AxisValueChanged(-7, EvCode { kind: EvCodeKind::Axis, index: 0 }),
            EventType::AxisValueChanged(9, EvCode { kind: EvCodeKind::Axis, index: 1 }),
            EventType::ButtonPressed(EvCode { kind: EvCodeKind::Button, index: 0 }),
            EventType::ButtonPressed(EvCode { kind: EvCodeKind::Button, index: 1 }),
        ]
    );
}

#[test]
fn diff_of_equal_snapshots_is_empty() {
    let old_snap = Snapshot {
        axes: vec![axis(10, 1)],
        buttons: vec![true],
        switches: vec![3],
        time: 1,
    };
    let new_snap = Snapshot {
        axes: vec![axis(10, 1)],
        buttons: vec![true],
        switches: vec![4],
        time: 2,
    };
    let events = old_snap.events_from_differences(&new_snap);
    assert!(events.is_empty());
}

#[test]
fn poll_skips_on_identical_timestamp() {
    let mut state = PollState::new();
    state.ensure_pair(
        0,
        Snapshot { axes: vec![], buttons: vec![false], switches: vec![], time: 5 },
    );
    // Same sample timestamp: no new hardware data, so even a differing
    // button state produces nothing.
    let events = state.advance(
        0,
        Snapshot { axes: vec![], buttons: vec![true], switches: vec![], time: 5 },
    );
    assert!(events.is_empty());
    // A later sample with a new timestamp is diffed against the rotated
    // pair (whose current buttons are now [true]).
    let events = state.advance(
        0,
        Snapshot { axes: vec![], buttons: vec![false], switches: vec![], time: 6 },
    );
    assert_eq!(
        events,
        vec![EventType::ButtonReleased(EvCode { kind: EvCodeKind::Button, index: 0 })]
    );
}

#[test]
fn first_cycle_of_new_controller_emits_nothing() {
    let mut state = PollState::new();
    let fresh = Snapshot {
        axes: vec![axis(42, 7)],
        buttons: vec![true],
        switches: vec![],
        time: 9,
    };
    state.ensure_pair(0, fresh);
    let captured_again = Snapshot {
        axes: vec![axis(42, 7)],
        buttons: vec![true],
        switches: vec![],
        time: 9,
    };
    let events = state.advance(0, captured_again);
    assert!(events.is_empty());
    assert_eq!(state.len(), 1);
}

#[test]
fn ensure_pair_leaves_known_controller_untouched() {
    let mut state = PollState::new();
    let snap = |t: u64| Snapshot { axes: vec![], buttons: vec![false], switches: vec![], time: t };
    state.ensure_pair(0, snap(1));
    state.ensure_pair(0, snap(2));
    assert_eq!(state.len(), 1);
}

#[test]
fn ev_code_packs_kind_high_index_low() {
    assert_eq!(EvCode { kind: EvCodeKind::Button, index: 5 }.into_u32(), 5);
    assert_eq!(EvCode { kind: EvCodeKind::Axis, index: 3 }.into_u32(), 0x0001_0003);
    assert_eq!(EvCode { kind: EvCodeKind::Switch, index: 0xFFFF }.into_u32(), 0x0002_FFFF);
}

#[test]
fn ev_code_round_trips_through_u32() {
    let codes = vec![
        EvCode { kind: EvCodeKind::Button, index: 0 },
        EvCode { kind: EvCodeKind::Button, index: 65535 },
        EvCode { kind: EvCodeKind::Axis, index: 1 },
        EvCode { kind: EvCodeKind::Switch, index: 1234 },
    ];
    for code in codes {
        assert_eq!(EvCode::from_u32(code.into_u32()), Some(code));
    }
    assert_eq!(EvCode::from_u32(0x0003_0000), None);
}

#[test]
fn ev_code_kind_labels() {
    assert_eq!(EvCodeKind::Button.label(), "Button");
    assert_eq!(EvCodeKind::Axis.label(), "Axis");
    assert_eq!(EvCodeKind::Switch.label(), "Switch");
}

#[test]
fn ev_code_display_strings() {
    assert_eq!(EvCode { kind: EvCodeKind::Axis, index: 3 }.display_string(), "Axis(3)");
    assert_eq!(EvCode { kind: EvCodeKind::Button, index: 0 }.display_string(), "Button(0)");
    assert_eq!(EvCode { kind: EvCodeKind::Button, index: 100 }.display_string(), "Button(100)");
    assert_eq!(
        EvCode { kind: EvCodeKind::Switch, index: 65535 }.display_string(),
        "Switch(65535)"
    );
}

#[test]
fn fingerprint_exact_bytes() {
    let fp = fingerprint(false, 0x045E, 0x028E);
    assert_eq!(
        fp,
        [0x03, 0, 0, 0, 0x5E, 0x04, 0, 0, 0x8E, 0x02, 0, 0, 0, 0, 0, 0]
    );
    let fp_wireless = fingerprint(true, 0x054C, 0x09CC);
    assert_eq!(
        fp_wireless,
        [0x05, 0, 0, 0, 0x4C, 0x05, 0, 0, 0xCC, 0x09, 0, 0, 0, 0, 0, 0]
    );
}

#[test]
fn fingerprint_is_deterministic() {
    let a = fingerprint(true, 0x045E, 0x02EA);
    let b = fingerprint(true, 0x045E, 0x02EA);
    assert_eq!(a, b);
}

#[test]
fn fingerprint_matches_uuid_field_convention() {
    // The same derivation through the uuid crate, with the byte-swapped
    // fields the controller-mapping convention uses on this platform.
    let bustype: u32 = 0x03u32.to_be();
    let vendor: u16 = 0x045Eu16.to_be();
    let product: u16 = 0x028Eu16.to_be();
    let version: u16 = 0;
    let reference = uuid::Uuid::from_fields(
        bustype,
        vendor,
        0,
        &[
            (product >> 8) as u8,
            product as u8,
            0,
            0,
            (version >> 8) as u8,
            version as u8,
            0,
            0,
        ],
    );
    let fp = fingerprint(false, 0x045E, 0x028E);
    assert_eq!(&fp, reference.as_bytes());
}

#[test]
fn gamepad_new_builds_descriptor() {
    let pad = Gamepad::new(7, vec![10, 20, 30], info("pad one", false, 2, 3));
    assert_eq!(pad.name(), "pad one");
    assert!(pad.is_connected());
    assert_eq!(pad.uuid(), fingerprint(false, 0x045E, 0x028E));
    assert_eq!(
        pad.axes(),
        &[
            EvCode { kind: EvCodeKind::Axis, index: 0 },
            EvCode { kind: EvCodeKind::Axis, index: 1 },
        ]
    );
    assert_eq!(
        pad.buttons(),
        &[
            EvCode { kind: EvCodeKind::Button, index: 0 },
            EvCode { kind: EvCodeKind::Button, index: 1 },
            EvCode { kind: EvCodeKind::Button, index: 2 },
        ]
    );
    assert!(pad.is_ff_supported());
}

#[test]
fn axis_info_reports_full_signed_range() {
    let pad = Gamepad::new(0, vec![], info("pad", false, 1, 0));
    let code = EvCode { kind: EvCodeKind::Axis, index: 0 };
    assert_eq!(
        pad.axis_info(code),
        Some(AxisInfo { min: -32768, max: 32767, deadzone: None })
    );
}

#[test]
fn power_info_wired_needs_no_query() {
    let pad = Gamepad::new(0, vec![], info("pad", false, 0, 0));
    assert_eq!(pad.power_info(None), PowerInfo::Wired);
    assert_eq!(
        pad.power_info(Some(BatteryReading { status: 1, percent: 40 })),
        PowerInfo::Wired
    );
}

#[test]
fn power_info_wireless_classifies() {
    let pad = Gamepad::new(0, vec![], info("pad", true, 0, 0));
    assert_eq!(pad.power_info(None), PowerInfo::Unknown);
    assert_eq!(
        pad.power_info(Some(BatteryReading { status: 1, percent: 40 })),
        PowerInfo::Discharging(40)
    );
    assert_eq!(
        pad.power_info(Some(BatteryReading { status: 3, percent: 70 })),
        PowerInfo::Charging(70)
    );
    assert_eq!(
        pad.power_info(Some(BatteryReading { status: 3, percent: 100 })),
        PowerInfo::Charged
    );
}

#[test]
fn classify_battery_edge_statuses() {
    assert_eq!(classify_battery(0, 0), PowerInfo::Wired);
    assert_eq!(classify_battery(2, 0), PowerInfo::Charged);
    assert_eq!(classify_battery(1, 100), PowerInfo::Charged);
    assert_eq!(classify_battery(9, 50), PowerInfo::Unknown);
}

#[test]
fn resolver_appends_new_device_with_next_id() {
    let mut session = Gilrs::new(vec![
        Gamepad::new(0, vec![1], info("a", false, 0, 0)),
        Gamepad::new(1, vec![2], info("b", false, 0, 0)),
    ]);
    let ev = session.resolve_event(&vec![3], info("c", false, 0, 0), EventType::Connected, 11);
    assert_eq!(ev.id, 2);
    assert_eq!(ev.event, EventType::Connected);
    assert_eq!(ev.time, 11);
    assert_eq!(session.last_gamepad_hint(), 3);
    assert_eq!(session.gamepad(2).unwrap().name(), "c");
}

#[test]
fn resolver_reuses_descriptor_on_reconnect() {
    let mut session = Gilrs::new(vec![]);
    let nid = vec![7, 8, 9];
    let first = session.resolve_event(&nid, info("pad", false, 1, 1), EventType::Disconnected, 1);
    assert_eq!(first.id, 0);
    assert!(!session.gamepad(0).unwrap().is_connected());
    let second = session.resolve_event(&nid, info("pad", false, 1, 1), EventType::Connected, 2);
    assert_eq!(second.id, 0);
    assert!(session.gamepad(0).unwrap().is_connected());
    assert_eq!(session.last_gamepad_hint(), 1);
}

#[test]
fn resolver_leaves_flag_alone_on_input_events() {
    let mut session = Gilrs::new(vec![Gamepad::new(0, vec![1], info("a", false, 1, 1))]);
    let code = EvCode { kind: EvCodeKind::Button, index: 0 };
    let ev = session.resolve_event(&vec![1], info("a", false, 1, 1), EventType::ButtonPressed(code), 5);
    assert_eq!(ev.id, 0);
    assert!(session.gamepad(0).unwrap().is_connected());
}

#[test]
fn gamepad_lookup_out_of_range_is_none() {
    let session = Gilrs::new(vec![]);
    assert!(session.gamepad(0).is_none());
}

#[test]
fn snapshot_duplicate_copies_contents() {
    let snap = Snapshot {
        axes: vec![axis(3, 4)],
        buttons: vec![true, false],
        switches: vec![1],
        time: 44,
    };
    let copy = snap.duplicate();
    assert_eq!(copy.axes, snap.axes);
    assert_eq!(copy.buttons, snap.buttons);
    assert_eq!(copy.switches, snap.switches);
    assert_eq!(copy.time, snap.time);
}
