use frostbyte_term::controller::Message;
use frostbyte_term::poll::{poll_step, KeyTransition, PollInputs, TrayClick};

// The armed sentinel the runtime uses: the user-defined signal's number.
const ARMED: usize = 10;

fn quiet() -> PollInputs {
    PollInputs {
        signal_value: 0,
        hotkey_event: None,
        menu_event: false,
        icon_click: None,
    }
}

#[test]
fn quiet_iteration_emits_nothing() {
    let (msgs, rearm) = poll_step(ARMED, quiet());
    assert_eq!(msgs, vec![]);
    assert!(!rearm);
}

#[test]
fn fired_signal_emits_one_toggle_and_requests_rearm() {
    let inputs = PollInputs {
        signal_value: ARMED,
        ..quiet()
    };
    let (msgs, rearm) = poll_step(ARMED, inputs);
    assert_eq!(msgs, vec![Message::Hotkey]);
    assert!(rearm);
}

#[test]
fn rearmed_flag_cannot_fire_again_until_a_new_signal() {
    // First iteration observes the delivered signal.
    let fired = PollInputs {
        signal_value: ARMED,
        ..quiet()
    };
    let (msgs, rearm) = poll_step(ARMED, fired);
    assert_eq!(msgs, vec![Message::Hotkey]);
    assert!(rearm);

    // Re-arming resets the counter to zero; forcing the loop to look again
    // at the re-armed flag must not produce a second toggle.
    let rearmed = PollInputs {
        signal_value: 0,
        ..quiet()
    };
    let (msgs, rearm) = poll_step(ARMED, rearmed);
    assert_eq!(msgs, vec![]);
    assert!(!rearm);
}

#[test]
fn hotkey_press_toggles_and_release_nudges() {
    let pressed = PollInputs {
        hotkey_event: Some(KeyTransition::Pressed),
        ..quiet()
    };
    let (msgs, _) = poll_step(ARMED, pressed);
    assert_eq!(msgs, vec![Message::Hotkey]);

    let released = PollInputs {
        hotkey_event: Some(KeyTransition::Released),
        ..quiet()
    };
    let (msgs, _) = poll_step(ARMED, released);
    assert_eq!(msgs, vec![Message::Dummy]);
}

#[test]
fn menu_event_requests_shutdown() {
    let inputs = PollInputs {
        menu_event: true,
        ..quiet()
    };
    let (msgs, _) = poll_step(ARMED, inputs);
    assert_eq!(msgs, vec![Message::Shutdown]);
}

#[test]
fn only_primary_button_down_clicks_toggle() {
    let left_down = PollInputs {
        icon_click: Some(TrayClick { left: true, down: true }),
        ..quiet()
    };
    let (msgs, _) = poll_step(ARMED, left_down);
    assert_eq!(msgs, vec![Message::Hotkey]);

    let left_up = PollInputs {
        icon_click: Some(TrayClick { left: true, down: false }),
        ..quiet()
    };
    let (msgs, _) = poll_step(ARMED, left_up);
    assert_eq!(msgs, vec![]);

    let right_down = PollInputs {
        icon_click: Some(TrayClick { left: false, down: true }),
        ..quiet()
    };
    let (msgs, _) = poll_step(ARMED, right_down);
    assert_eq!(msgs, vec![]);
}

#[test]
fn sources_are_emitted_in_the_fixed_order() {
    let everything = PollInputs {
        signal_value: ARMED,
        hotkey_event: Some(KeyTransition::Pressed),
        menu_event: true,
        icon_click: Some(TrayClick { left: true, down: true }),
    };
    let (msgs, rearm) = poll_step(ARMED, everything);
    assert_eq!(
        msgs,
        vec![
            Message::Hotkey,
            Message::Hotkey,
            Message::Shutdown,
            Message::Hotkey
        ]
    );
    assert!(rearm);
}
