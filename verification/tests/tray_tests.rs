use vp_link::cursor::{pick_portal_cursor, DeltaAccumulator, PortalCursor, REL_X, REL_Y};
use vp_link::tray::{icon_name, icon_pixmap, menu_entries, tray_id, MenuEntry, Role, TrayAction};

fn listed(menu: &[MenuEntry]) -> Vec<(String, bool, TrayAction)> {
    menu.iter().map(|e| (e.label.clone(), e.enabled, e.action)).collect()
}

fn entry(label: &str, enabled: bool, action: TrayAction) -> (String, bool, TrayAction) {
    (label.to_string(), enabled, action)
}

#[test]
fn tray_names() {
    assert_eq!(tray_id(Role::Sender), "vp-sndr");
    assert_eq!(tray_id(Role::Receiver), "vp-rcvr");
    assert_eq!(icon_name(), "video-display");
}

#[test]
fn menu_of_a_stopped_receiver() {
    assert_eq!(
        listed(&menu_entries(Role::Receiver, false)),
        vec![
            entry("Service: stopped", false, TrayAction::Nothing),
            entry("Start Receiver", true, TrayAction::Start),
            entry("Open Config", true, TrayAction::OpenConfig),
            entry("Quit", true, TrayAction::Quit),
        ]
    );
}

#[test]
fn menu_of_a_running_receiver() {
    assert_eq!(
        listed(&menu_entries(Role::Receiver, true)),
        vec![
            entry("Service: running", false, TrayAction::Nothing),
            entry("Stop Receiver", true, TrayAction::Stop),
            entry("Open Config", true, TrayAction::OpenConfig),
            entry("Quit", true, TrayAction::Quit),
        ]
    );
}

#[test]
fn menu_of_a_sender() {
    let stopped = listed(&menu_entries(Role::Sender, false));
    assert_eq!(stopped[0], entry("Service: stopped", false, TrayAction::Nothing));
    assert_eq!(stopped[1], entry("Start Sender", true, TrayAction::Start));
    let running = listed(&menu_entries(Role::Sender, true));
    assert_eq!(running[0], entry("Service: running", false, TrayAction::Nothing));
    assert_eq!(running[1], entry("Stop Sender", true, TrayAction::Stop));
    assert_eq!(running.len(), 4);
}

#[test]
fn icon_is_a_red_square() {
    let icon = icon_pixmap();
    assert_eq!(icon.width, 16);
    assert_eq!(icon.height, 16);
    assert_eq!(icon.data.len(), 16 * 16 * 4);
    for px in icon.data.chunks_exact(4) {
        assert_eq!(px, [0xFF, 0xE5, 0x39, 0x35]);
    }
}

#[test]
fn portal_cursor_prefers_metadata() {
    assert_eq!(pick_portal_cursor(true, true), PortalCursor::Metadata);
    assert_eq!(pick_portal_cursor(true, false), PortalCursor::Metadata);
    assert_eq!(pick_portal_cursor(false, true), PortalCursor::Embedded);
    assert_eq!(pick_portal_cursor(false, false), PortalCursor::Hidden);
}

#[test]
fn accumulator_absorbs_relative_motion_events() {
    let mut acc = DeltaAccumulator::new();
    // Type 2 is relative motion; codes 0 and 1 are the two axes.
    acc.absorb(evdev::InputEvent::new(2, 0, 5));
    acc.absorb(evdev::InputEvent::new(2, 1, -3));
    acc.absorb(evdev::InputEvent::new(2, 0, 2));
    assert_eq!(acc, DeltaAccumulator { dx: 7, dy: -3 });
}

#[test]
fn accumulator_ignores_other_events() {
    let mut acc = DeltaAccumulator { dx: 1, dy: 2 };
    // A wheel, a key, an absolute axis, a synchronization mark.
    acc.absorb(evdev::InputEvent::new(2, 8, 1));
    acc.absorb(evdev::InputEvent::new(1, 0, 1));
    acc.absorb(evdev::InputEvent::new(3, 0, 100));
    acc.absorb(evdev::InputEvent::new(0, 0, 0));
    assert_eq!(acc, DeltaAccumulator { dx: 1, dy: 2 });
}

#[test]
fn accumulator_absorbs_motion_by_axis_code() {
    let mut acc = DeltaAccumulator::new();
    acc.absorb_motion(Some((REL_X, 4)));
    acc.absorb_motion(Some((REL_Y, -4)));
    acc.absorb_motion(Some((2, 100)));
    acc.absorb_motion(None);
    assert_eq!(acc, DeltaAccumulator { dx: 4, dy: -4 });
    assert_eq!(REL_X, evdev::RelativeAxisCode::REL_X.0);
    assert_eq!(REL_Y, evdev::RelativeAxisCode::REL_Y.0);
}
