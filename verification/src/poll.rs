//! The decision step of the event unification loop.
//!
//! The loop itself lives outside: every fixed interval it reads, without
//! blocking, at most one pending item from each of its four sources — the
//! signal-fallback flag, the global hotkey listener, the tray menu and the
//! tray icon — and hands the observations to `poll_step`. The step decides,
//! in a fixed per-iteration order, which session messages to emit and
//! whether the signal flag must be re-armed (reset to zero and registered
//! anew) before the next iteration.

use vstd::prelude::*;

use crate::controller::Message;

verus! {

/// The transition a global hotkey event reports.
#[derive(Clone, Copy, Debug, PartialEq, Eq, Structural)]
pub enum KeyTransition {
    Pressed,
    Released,
}

/// A tray icon click, reduced to what the loop reads of it.
#[derive(Clone, Copy, Debug, PartialEq, Eq, Structural)]
pub struct TrayClick {
    /// The primary (left) mouse button.
    pub left: bool,
    /// The button-down half of the click.
    pub down: bool,
}

/// One iteration's observations: the current value of the signal flag
/// counter, and at most one drained event per remaining source.
#[derive(Clone, Copy, Debug, PartialEq, Eq, Structural)]
pub struct PollInputs {
    /// The signal flag counter as read this iteration. A delivered signal
    /// sets it to the armed sentinel; re-arming resets it to zero.
    pub signal_value: usize,
    /// One drained global hotkey event, if any was pending.
    pub hotkey_event: Option<KeyTransition>,
    /// Whether a tray menu event was pending (the menu's only entry exits).
    pub menu_event: bool,
    /// One drained tray icon event, if any was pending.
    pub icon_click: Option<TrayClick>,
}

/// Whether the signal flag shows a delivered signal: it reads exactly the
/// armed sentinel. A re-armed flag reads zero, so with a non-zero sentinel
/// the old observation cannot repeat until a new signal arrives.
pub open spec fn spec_signal_fired(value: usize, armed: usize) -> bool {
    value == armed
}

/// The messages the signal source contributes: one toggle per observed
/// delivery, never more.
pub open spec fn spec_signal_msgs(value: usize, armed: usize) -> Seq<Message> {
    if spec_signal_fired(value, armed) {
        seq![Message::Hotkey]
    } else {
        Seq::empty()
    }
}

/// The messages the global hotkey source contributes. A press toggles; a
/// release emits the deliberate no-op that keeps some windowing backends'
/// event loops from stalling.
pub open spec fn spec_hotkey_msgs(ev: Option<KeyTransition>) -> Seq<Message> {
    match ev {
        Some(KeyTransition::Pressed) => seq![Message::Hotkey],
        Some(KeyTransition::Released) => seq![Message::Dummy],
        None => Seq::empty(),
    }
}

/// The messages the tray menu contributes: its only entry requests
/// shutdown.
pub open spec fn spec_menu_msgs(menu_event: bool) -> Seq<Message> {
    if menu_event {
        seq![Message::Shutdown]
    } else {
        Seq::empty()
    }
}

/// The messages the tray icon contributes: a primary-button-down click
/// toggles; anything else is ignored.
pub open spec fn spec_icon_msgs(ev: Option<TrayClick>) -> Seq<Message> {
    match ev {
        Some(c) => if c.left && c.down {
            seq![Message::Hotkey]
        } else {
            Seq::empty()
        },
        None => Seq::empty(),
    }
}

/// Everything one iteration emits, in the fixed source order: signal flag,
/// global hotkey, tray menu, tray icon.
pub open spec fn spec_poll_msgs(armed: usize, inputs: PollInputs) -> Seq<Message> {
    spec_signal_msgs(inputs.signal_value, armed) + spec_hotkey_msgs(inputs.hotkey_event)
        + spec_menu_msgs(inputs.menu_event) + spec_icon_msgs(inputs.icon_click)
}

/// Decide one iteration of the unification loop: the messages to emit, in
/// order, and whether the signal flag must be re-armed before the next
/// iteration. Re-arming is requested exactly when the flag was observed
/// fired, so a delivery is never counted twice.
pub fn poll_step(armed: usize, inputs: PollInputs) -> (r: (Vec<Message>, bool))
    ensures
        r.0@ == spec_poll_msgs(armed, inputs),
        r.1 == spec_signal_fired(inputs.signal_value, armed),
{
    let mut msgs: Vec<Message> = Vec::new();
    let fired = inputs.signal_value == armed;
    if fired {
        msgs.push(Message::Hotkey);
    }
    match inputs.hotkey_event {
        Some(KeyTransition::Pressed) => msgs.push(Message::Hotkey),
        Some(KeyTransition::Released) => msgs.push(Message::Dummy),
        None => {},
    }
    if inputs.menu_event {
        msgs.push(Message::Shutdown);
    }
    match inputs.icon_click {
        Some(c) => {
            if c.left && c.down {
                msgs.push(Message::Hotkey);
            }
        },
        None => {},
    }
    proof {
        assert(msgs@ =~= spec_poll_msgs(armed, inputs));
    }
    (msgs, fired)
}

/// Re-arming closes the race window it is meant to close: once the flag is
/// reset to zero, the old armed sentinel — any non-zero value — cannot be
/// observed again, so no second toggle is emitted for the same delivery.
pub proof fn lemma_rearm_no_double_fire(armed: usize, inputs: PollInputs)
    requires
        armed != 0,
        inputs.signal_value == 0,
    ensures
        !spec_signal_fired(inputs.signal_value, armed),
        spec_poll_msgs(armed, inputs) == spec_hotkey_msgs(inputs.hotkey_event) + spec_menu_msgs(
            inputs.menu_event,
        ) + spec_icon_msgs(inputs.icon_click),
{
    assert(spec_poll_msgs(armed, inputs) =~= spec_hotkey_msgs(inputs.hotkey_event)
        + spec_menu_msgs(inputs.menu_event) + spec_icon_msgs(inputs.icon_click));
}

} // verus!
