use mathimage::dialog::{dialog_icon, dialog_script, entered, input_script, is_cancel};

#[test]
fn a_message_is_shown_by_a_script() {
    assert_eq!(
        dialog_script("MathImage Error", "he said \"no\"", "error"),
        "display dialog \"he said \\\"no\\\"\" with title \"MathImage Error\" with icon stop buttons {\"OK\"} default button \"OK\""
    );
    assert_eq!(
        dialog_script("a\"b", "m", "info"),
        "display dialog \"m\" with title \"a\\\"b\" with icon note buttons {\"OK\"} default button \"OK\""
    );
    assert_eq!(dialog_icon("error"), "stop");
    assert_eq!(dialog_icon("warning"), "caution");
    assert_eq!(dialog_icon("info"), "note");
    assert_eq!(dialog_icon("other"), "note");
    assert_eq!(dialog_icon(""), "note");
}

#[test]
fn a_text_is_asked_for_by_a_script() {
    assert_eq!(
        input_script("Enter your prompt:", "say \"x\""),
        "display dialog \"Enter your prompt:\" default answer \"say \\\"x\\\"\" with title \"MathImage - User Input\" with icon note buttons {\"Cancel\", \"OK\"} default button \"OK\""
    );
}

#[test]
fn the_entered_text_follows_its_mark() {
    assert_eq!(entered("button returned:OK, text returned:what is this?\n"), Some("what is this?".to_string()));
    assert_eq!(entered("text returned:  \n"), Some(String::new()));
    assert_eq!(entered("text returned:a text returned:b"), Some("a text returned:b".to_string()));
    assert_eq!(entered("button returned:OK"), None);
    assert_eq!(entered(""), None);
}

#[test]
fn a_given_up_dialog_is_told_apart() {
    assert!(is_cancel("execution error: User canceled. (-128)"));
    assert!(is_cancel("error -128"));
    assert!(is_cancel("User canceled"));
    assert!(!is_cancel("execution error: syntax"));
    assert!(!is_cancel(""));
}
