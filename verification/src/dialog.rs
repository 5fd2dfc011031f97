//! Dialogs of the system, asked for as AppleScript: the scripts, and what
//! the answers mean.

use crate::text::{
    after_first, chars_of, contains, push_all, push_str, replace_all, replace_chars, rest_after,
    same_text, str_contains, string_from_chars, trim, trim_chars,
};
use vstd::prelude::*;

verus! {

/// A text as it stands between the quotes of a script: each quote with a
/// backslash before it.
pub open spec fn escaped(text: Seq<char>) -> Seq<char> {
    replace_all(text, "\""@, "\\\""@)
}

/// The icon of a kind of dialog: `stop` for `error`, `caution` for
/// `warning`, `note` for everything else.
pub open spec fn dialog_icon_of(kind: Seq<char>) -> Seq<char> {
    if kind == "error"@ {
        "stop"@
    } else if kind == "warning"@ {
        "caution"@
    } else {
        "note"@
    }
}

/// The script that shows a message.
pub open spec fn dialog_script_text(title: Seq<char>, message: Seq<char>, kind: Seq<char>) -> Seq<
    char,
> {
    "display dialog \""@ + escaped(message) + "\" with title \""@ + escaped(title)
        + "\" with icon "@ + dialog_icon_of(kind) + " buttons {\"OK\"} default button \"OK\""@
}

/// The script that asks for a text.
pub open spec fn input_script_text(title: Seq<char>, default_text: Seq<char>) -> Seq<char> {
    "display dialog \""@ + escaped(title) + "\" default answer \""@ + escaped(default_text)
        + "\" with title \"MathImage - User Input\" with icon note buttons {\"Cancel\", \"OK\"} default button \"OK\""@
}

/// The text that the user entered, from what the script printed: what
/// follows the first `text returned:`, trimmed. `None` where the script
/// printed no such mark.
pub open spec fn entered_text(printed: Seq<char>) -> Option<Seq<char>> {
    match after_first(printed, "text returned:"@) {
        Some(rest) => Some(trim(rest)),
        None => None,
    }
}

/// Whether what a failed script printed tells that the user gave up.
pub open spec fn tells_cancel(printed: Seq<char>) -> bool {
    contains(printed, "User canceled"@) || contains(printed, "-128"@)
}

/// Appends `text` as it stands between the quotes of a script.
fn push_escaped(script: &mut Vec<char>, text: &str)
    ensures
        final(script)@ == old(script)@ + escaped(text@),
{
    let chars = chars_of(text);
    let quote = chars_of("\"");
    let escape = chars_of("\\\"");
    let safe = replace_chars(chars.as_slice(), quote.as_slice(), escape.as_slice());
    push_all(script, safe.as_slice());
}

/// The icon of a kind of dialog.
pub fn dialog_icon(kind: &str) -> (icon: String)
    ensures
        icon@ == dialog_icon_of(kind@),
{
    if same_text(kind, "error") {
        "stop".to_string()
    } else if same_text(kind, "warning") {
        "caution".to_string()
    } else {
        "note".to_string()
    }
}

/// The script that shows a message.
pub fn dialog_script(title: &str, message: &str, kind: &str) -> (script: String)
    ensures
        script@ == dialog_script_text(title@, message@, kind@),
{
    let icon = dialog_icon(kind);
    let mut script: Vec<char> = Vec::new();
    push_str(&mut script, "display dialog \"");
    push_escaped(&mut script, message);
    push_str(&mut script, "\" with title \"");
    push_escaped(&mut script, title);
    push_str(&mut script, "\" with icon ");
    push_str(&mut script, icon.as_str());
    push_str(&mut script, " buttons {\"OK\"} default button \"OK\"");
    string_from_chars(script.as_slice())
}

/// The script that asks for a text.
pub fn input_script(title: &str, default_text: &str) -> (script: String)
    ensures
        script@ == input_script_text(title@, default_text@),
{
    let mut script: Vec<char> = Vec::new();
    push_str(&mut script, "display dialog \"");
    push_escaped(&mut script, title);
    push_str(&mut script, "\" default answer \"");
    push_escaped(&mut script, default_text);
    push_str(
        &mut script,
        "\" with title \"MathImage - User Input\" with icon note buttons {\"Cancel\", \"OK\"} default button \"OK\"",
    );
    string_from_chars(script.as_slice())
}

/// The text that the user entered, from what the script printed.
pub fn entered(printed: &str) -> (text: Option<String>)
    ensures
        match text {
            Some(t) => entered_text(printed@) == Some(t@),
            None => entered_text(printed@) is None,
        },
{
    let chars = chars_of(printed);
    let mark = chars_of("text returned:");
    match rest_after(chars.as_slice(), mark.as_slice()) {
        Some(rest) => {
            let trimmed = trim_chars(rest.as_slice());
            Some(string_from_chars(trimmed.as_slice()))
        },
        None => None,
    }
}

/// Whether what a failed script printed tells that the user gave up.
pub fn is_cancel(printed: &str) -> (cancelled: bool)
    ensures
        cancelled == tells_cancel(printed@),
{
    let chars = chars_of(printed);
    str_contains(chars.as_slice(), "User canceled") || str_contains(chars.as_slice(), "-128")
}

} // verus!
