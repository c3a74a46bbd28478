//! Sound settings: the global mute switch, its shortcut and the label of the
//! mute button.

use vstd::prelude::*;

use crate::input::{contains_key, KeyCode};

verus! {

/// The global mute switch.
#[derive(Clone, Copy, PartialEq, Eq, Structural, Debug)]
pub struct AudioMuted {
    pub muted: bool,
}

impl Default for AudioMuted {
    fn default() -> (m: Self)
        ensures
            !m.muted,
    {
        AudioMuted { muted: false }
    }
}

/// The label of the mute button for a mute state.
pub open spec fn mute_label(muted: bool) -> Seq<char> {
    if muted {
        "静音：开"@
    } else {
        "静音：关"@
    }
}

/// Whether the mute shortcut, Ctrl+M or Ctrl+S, was pressed: a Control key
/// is held and M or S was pressed in this frame.
pub open spec fn mute_shortcut(held: Seq<KeyCode>, just_pressed: Seq<KeyCode>) -> bool {
    &&& (held.contains(KeyCode::ControlLeft) || held.contains(KeyCode::ControlRight))
    &&& (just_pressed.contains(KeyCode::KeyM) || just_pressed.contains(KeyCode::KeyS))
}

/// The mute shortcut fires exactly when a Control key is held and M or S is
/// newly pressed in this frame; keys that stay held from an earlier frame do
/// not fire it again.
pub proof fn lemma_mute_needs_new_press(held: Seq<KeyCode>, just_pressed: Seq<KeyCode>)
    ensures
        mute_shortcut(held, just_pressed) ==> just_pressed.contains(KeyCode::KeyM)
            || just_pressed.contains(KeyCode::KeyS),
        mute_shortcut(held, just_pressed) ==> held.contains(KeyCode::ControlLeft) || held.contains(
            KeyCode::ControlRight,
        ),
        (held.contains(KeyCode::ControlLeft) || held.contains(KeyCode::ControlRight)) && (
        just_pressed.contains(KeyCode::KeyM) || just_pressed.contains(KeyCode::KeyS))
            ==> mute_shortcut(held, just_pressed),
        just_pressed.len() == 0 ==> !mute_shortcut(held, just_pressed),
{
}

/// The label of the mute button.
pub fn mute_button_text(muted: bool) -> (s: String)
    ensures
        s@ == mute_label(muted),
{
    if muted {
        "静音：开".to_owned()
    } else {
        "静音：关".to_owned()
    }
}

/// Flips the mute switch when the mute shortcut was pressed in this frame.
/// `held` are the keys held down and `just_pressed` the keys pressed in this
/// frame. Returns whether the switch flipped.
pub fn toggle_mute(muted: &mut AudioMuted, held: &[KeyCode], just_pressed: &[KeyCode]) -> (toggled:
    bool)
    ensures
        toggled == mute_shortcut(held@, just_pressed@),
        final(muted).muted == (toggled != old(muted).muted),
{
    let ctrl = contains_key(held, KeyCode::ControlLeft) || contains_key(held, KeyCode::ControlRight);
    let pressed = ctrl && (contains_key(just_pressed, KeyCode::KeyM) || contains_key(
        just_pressed,
        KeyCode::KeyS,
    ));
    if !pressed {
        return false;
    }
    muted.muted = !muted.muted;
    true
}

} // verus!
