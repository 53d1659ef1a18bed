use fswitcher::mux::Multiplexer;
use fswitcher::mux::MuxAction;
use fswitcher::mux::MuxEvent;
use fswitcher::tracker::KeyState;
use fswitcher::tracker::Notification;

fn focus_message(path: &str) -> MuxEvent {
    MuxEvent::BusMessage {
        interface: "org.a11y.atspi.Event.Focus".to_owned(),
        member: "Focis".to_owned(),
        path: path.to_owned(),
    }
}

fn bindings_of(action: MuxAction) -> (Option<String>, Option<String>) {
    match action {
        MuxAction::BindingsUpdated { primary, secondary } => (primary, secondary),
        _ => panic!("expected a binding update"),
    }
}

#[test]
fn same_focus_message_three_times_walks_the_slots() {
    let mut mux = Multiplexer::new();

    // Both slots empty: the path lands in the secondary slot.
    let first = mux.step(focus_message("/win/7"));
    assert_eq!(bindings_of(first), (None, Some("/win/7".to_owned())));

    // One slot occupied: the path lands in the primary slot.
    let second = mux.step(focus_message("/win/7"));
    assert_eq!(
        bindings_of(second),
        (Some("/win/7".to_owned()), Some("/win/7".to_owned()))
    );

    // Both occupied: the old primary value cascades to the secondary slot.
    let third = mux.step(focus_message("/win/7"));
    assert_eq!(
        bindings_of(third),
        (Some("/win/7".to_owned()), Some("/win/7".to_owned()))
    );
}

#[test]
fn irrelevant_messages_leave_the_table_alone() {
    let mut mux = Multiplexer::new();
    mux.step(focus_message("/a"));
    let action = mux.step(MuxEvent::BusMessage {
        interface: "org.a11y.atspi.Event.Window".to_owned(),
        member: "Deactivate".to_owned(),
        path: "/b".to_owned(),
    });
    assert!(matches!(action, MuxAction::Ignored));
    assert_eq!(mux.bindings.snapshot(), (None, Some("/a".to_owned())));
}

#[test]
fn key_events_notify_but_never_touch_bindings() {
    let mut mux = Multiplexer::new();
    mux.step(focus_message("/a"));
    let action = mux.step(MuxEvent::DeviceKey {
        device_id: 1,
        device_name: "Built-in".to_owned(),
        vendor_id: 0,
        key_code: 29,
        key_state: KeyState::Pressed,
    });
    match action {
        MuxAction::Notify(Notification::Engaged { device_name, .. }) => {
            assert_eq!(device_name, "Built-in")
        }
        _ => panic!("expected an engaged notification"),
    }
    assert_eq!(mux.bindings.snapshot(), (None, Some("/a".to_owned())));
}

#[test]
fn failed_decodes_are_dropped_silently() {
    let mut mux = Multiplexer::new();
    mux.step(focus_message("/a"));
    let action = mux.step(MuxEvent::DecodeFailed);
    assert!(matches!(action, MuxAction::Ignored));
    assert_eq!(mux.bindings.snapshot(), (None, Some("/a".to_owned())));
}

#[test]
fn window_activation_updates_bindings_too() {
    let mut mux = Multiplexer::new();
    let action = mux.step(MuxEvent::BusMessage {
        interface: "org.a11y.atspi.Event.Window".to_owned(),
        member: "activate".to_owned(),
        path: "/app/win1".to_owned(),
    });
    assert_eq!(bindings_of(action), (None, Some("/app/win1".to_owned())));
}
