use mathimage::{format_hotkey_for_display, sanitize_error};

#[test]
fn hotkey_modifiers_are_capitalised() {
    assert_eq!(format_hotkey_for_display("cmd+shift+m"), "Cmd+Shift+m");
    assert_eq!(format_hotkey_for_display("ctrl+alt+p"), "Ctrl+Alt+p");
    assert_eq!(format_hotkey_for_display(""), "");
    assert_eq!(format_hotkey_for_display("+"), "+");
}

#[test]
fn error_texts_are_replaced_by_their_category() {
    assert_eq!(sanitize_error("tcp: Connection refused (os error 61)"), "Network connection failed");
    assert_eq!(sanitize_error("operation timeout"), "Network connection failed");
    assert_eq!(sanitize_error("Status: 401 Unauthorized"), "Authentication failed");
    assert_eq!(sanitize_error("Status: 403"), "Authentication failed");
    assert_eq!(sanitize_error("Status: 404 Not Found"), "Service not found");
    assert_eq!(sanitize_error("Status: 502"), "Server error");
    assert_eq!(sanitize_error("something else"), "Request failed");
    assert_eq!(sanitize_error("timeout after 404"), "Network connection failed");
}
