//! Hotkeys: how a hotkey is shown.

use crate::text::{chars_of, replace_all, replace_chars, string_from_chars};
use vstd::prelude::*;

verus! {

/// A hotkey as it is shown: the names of the modifier keys capitalised.
pub open spec fn hotkey_display(hotkey: Seq<char>) -> Seq<char> {
    replace_all(
        replace_all(
            replace_all(replace_all(hotkey, "cmd"@, "Cmd"@), "ctrl"@, "Ctrl"@),
            "alt"@,
            "Alt"@,
        ),
        "shift"@,
        "Shift"@,
    )
}

/// Writes a hotkey such as `cmd+shift+m` for display, as `Cmd+Shift+m`.
pub fn format_hotkey_for_display(hotkey: &str) -> (shown: String)
    ensures
        shown@ == hotkey_display(hotkey@),
{
    let text = chars_of(hotkey);
    let a = replace_chars(text.as_slice(), chars_of("cmd").as_slice(), chars_of("Cmd").as_slice());
    let b = replace_chars(a.as_slice(), chars_of("ctrl").as_slice(), chars_of("Ctrl").as_slice());
    let c = replace_chars(b.as_slice(), chars_of("alt").as_slice(), chars_of("Alt").as_slice());
    let d = replace_chars(c.as_slice(), chars_of("shift").as_slice(), chars_of("Shift").as_slice());
    string_from_chars(d.as_slice())
}

} // verus!
