//! Hotkey resolution and software key filtering.
//!
//! The resolver picks, once at startup, which physical key combination
//! toggles the overlay. The choice depends only on two observations handed
//! in by the caller: whether the debug environment marker is present, and
//! whether the process runs on a Unix-like windowing platform. Keys and
//! modifiers are modelled as plain values; the caller converts them to and
//! from whatever key types its windowing toolkit uses.

use vstd::prelude::*;

verus! {

/// The closed set of toggle bindings the resolver can select.
#[derive(Clone, Copy, Debug, PartialEq, Eq, Structural)]
pub enum HotkeyMode {
    /// A bare function key: the Unix-like platform default.
    F12,
    /// The same function key with the Alt modifier: the default elsewhere.
    AltF12,
    /// A dedicated key that rarely collides with OS-reserved bindings,
    /// used when the debug marker is present.
    Pause,
}

/// The keys the session logic ever inspects. Everything else a keyboard can
/// produce is `Other`.
#[derive(Clone, Copy, Debug, PartialEq, Eq, Structural)]
pub enum Key {
    F12,
    Pause,
    Character(char),
    Other,
}

/// The modifier keys held during a key press.
#[derive(Clone, Copy, Debug, PartialEq, Eq, Structural)]
pub struct Modifiers {
    pub control: bool,
    pub shift: bool,
    pub alt: bool,
    pub logo: bool,
}

/// No modifier held.
pub open spec fn spec_no_modifiers() -> Modifiers {
    Modifiers { control: false, shift: false, alt: false, logo: false }
}

/// Only the Alt modifier held.
pub open spec fn spec_alt_only() -> Modifiers {
    Modifiers { control: false, shift: false, alt: true, logo: false }
}

/// The binding selected for a given environment: the dedicated key under the
/// debug marker, otherwise the platform default.
pub open spec fn spec_resolve(debug_marker: bool, unix_like: bool) -> HotkeyMode {
    if debug_marker {
        HotkeyMode::Pause
    } else if unix_like {
        HotkeyMode::F12
    } else {
        HotkeyMode::AltF12
    }
}

/// The physical key and exact modifier set a binding stands for.
pub open spec fn spec_binding(mode: HotkeyMode) -> (Key, Modifiers) {
    match mode {
        HotkeyMode::F12 => (Key::F12, spec_no_modifiers()),
        HotkeyMode::AltF12 => (Key::F12, spec_alt_only()),
        HotkeyMode::Pause => (Key::Pause, spec_no_modifiers()),
    }
}

/// The fixed "open new tab" chord recognised by the in-window filter:
/// control+shift together with the upper-case letter key.
pub open spec fn spec_new_tab_chord(key: Key, mods: Modifiers) -> bool {
    key == Key::Character('T') && mods.control && mods.shift
}

/// What the in-window keyboard filter accepts: the new-tab chord, or the
/// resolved toggle binding with exactly its modifier set.
pub open spec fn spec_filter(mode: HotkeyMode, key: Key, mods: Modifiers) -> bool {
    spec_new_tab_chord(key, mods)
        || (key == spec_binding(mode).0 && mods == spec_binding(mode).1)
}

/// Select the toggle binding for this process.
pub fn resolve(debug_marker: bool, unix_like: bool) -> (mode: HotkeyMode)
    ensures
        mode == spec_resolve(debug_marker, unix_like),
{
    if debug_marker {
        HotkeyMode::Pause
    } else if unix_like {
        HotkeyMode::F12
    } else {
        HotkeyMode::AltF12
    }
}

/// The key and modifiers to register with the OS-level global hotkey
/// facility, and to compare window key presses against.
pub fn platform_binding(mode: HotkeyMode) -> (r: (Key, Modifiers))
    ensures
        r == spec_binding(mode),
{
    match mode {
        HotkeyMode::F12 => (
            Key::F12,
            Modifiers { control: false, shift: false, alt: false, logo: false },
        ),
        HotkeyMode::AltF12 => (
            Key::F12,
            Modifiers { control: false, shift: false, alt: true, logo: false },
        ),
        HotkeyMode::Pause => (
            Key::Pause,
            Modifiers { control: false, shift: false, alt: false, logo: false },
        ),
    }
}

/// The predicate handed to each terminal instance so it lets the toggle
/// binding and the new-tab chord pass through instead of consuming them.
pub fn software_filter(mode: HotkeyMode, key: Key, mods: Modifiers) -> (r: bool)
    ensures
        r == spec_filter(mode, key, mods),
{
    if key == Key::Character('T') && mods.control && mods.shift {
        return true;
    }
    let (hk, hm) = platform_binding(mode);
    key == hk && mods == hm
}

/// The resolver is a pure function: two resolutions made from equal
/// (debug-marker, platform) observations select the same binding.
pub proof fn lemma_resolver_deterministic(
    debug1: bool,
    unix1: bool,
    debug2: bool,
    unix2: bool,
)
    requires
        debug1 == debug2,
        unix1 == unix2,
    ensures
        spec_resolve(debug1, unix1) == spec_resolve(debug2, unix2),
{
}

} // verus!
