use mathimage::sse::{delta_content_of, read_line, read_payload};
use mathimage::text::chars_of;
use mathimage::{JsonValue, SseEvent, SseParser};

const FRAME: &str = "data: {\"choices\":[{\"delta\":{\"content\":\"ab\"}}]}\n";

fn fed(chunks: &[&[u8]]) -> SseParser {
    let mut parser = SseParser::new();
    for chunk in chunks {
        parser.feed(chunk);
    }
    parser
}

#[test]
fn a_frame_in_one_chunk_gives_its_text() {
    let parser = fed(&[FRAME.as_bytes()]);
    assert_eq!(parser.content(), "ab");
    assert!(!parser.is_done());
}

#[test]
fn a_frame_cut_anywhere_gives_the_same_text() {
    let bytes = FRAME.as_bytes();
    for cut in 0..=bytes.len() {
        let parser = fed(&[&bytes[..cut], &bytes[cut..]]);
        assert_eq!(parser.content(), "ab");
        assert!(!parser.is_done());
    }
}

#[test]
fn a_frame_fed_byte_by_byte_gives_the_same_text() {
    let mut parser = SseParser::new();
    for b in FRAME.as_bytes() {
        parser.feed(&[*b]);
    }
    assert_eq!(parser.content(), "ab");
}

#[test]
fn a_line_counts_only_once_it_is_complete() {
    let mut parser = SseParser::new();
    parser.feed_text("data: {\"choices\":[{\"delta\":{\"content\":\"ab\"}}]}");
    assert_eq!(parser.content(), "");
    parser.feed_text("\n");
    assert_eq!(parser.content(), "ab");
}

#[test]
fn frames_add_up_in_their_order() {
    let mut parser = SseParser::new();
    parser.feed_text("data: {\"choices\":[{\"delta\":{\"content\":\"E = \"}}]}\n\ndata: {\"choices\":[{\"delta\":{\"content\":\"mc^2\"}}]}\n\ndata: [DONE]\n");
    assert_eq!(parser.content(), "E = mc^2");
    assert!(parser.is_done());
}

#[test]
fn nothing_counts_after_the_end_mark() {
    let mut parser = SseParser::new();
    parser.feed_text("data: {\"choices\":[{\"delta\":{\"content\":\"x\"}}]}\ndata: [DONE]\ndata: {\"choices\":[{\"delta\":{\"content\":\"y\"}}]}\n");
    assert_eq!(parser.content(), "x");
    assert!(parser.is_done());
    parser.feed_text("data: {\"choices\":[{\"delta\":{\"content\":\"z\"}}]}\n");
    assert_eq!(parser.content(), "x");
    assert!(parser.is_done());
}

#[test]
fn other_lines_are_passed_over() {
    let mut parser = SseParser::new();
    parser.feed_text(": comment\n\nevent: message\ndata: not json\ndata: {\"choices\":[]}\ndata: {\"choices\":[{\"delta\":{}}]}\ndata: {\"choices\":[{\"delta\":{\"content\":7}}]}\ndata:{\"choices\":[{\"delta\":{\"content\":\"no space\"}}]}\n");
    assert_eq!(parser.content(), "");
    assert!(!parser.is_done());
    parser.feed_text("  data: {\"choices\":[{\"delta\":{\"content\":\"ok\"}}]}\r\n");
    assert_eq!(parser.content(), "ok");
}

#[test]
fn only_the_first_choice_counts() {
    let mut parser = SseParser::new();
    parser.feed_text("data: {\"choices\":[{\"delta\":{\"content\":\"a\"}},{\"delta\":{\"content\":\"b\"}}]}\n");
    assert_eq!(parser.content(), "a");
}

#[test]
fn text_beyond_ascii_is_kept() {
    let frame = "data: {\"choices\":[{\"delta\":{\"content\":\"公式 α\"}}]}\n";
    let parser = fed(&[frame.as_bytes()]);
    assert_eq!(parser.content(), "公式 α");
    let mut parser = SseParser::new();
    parser.feed(&[0xff, b'\n']);
    parser.feed(frame.as_bytes());
    assert_eq!(parser.content(), "公式 α");
}

#[test]
fn bytes_that_are_no_text_become_replacement_characters() {
    let mut parser = SseParser::new();
    parser.feed(b"data: {\"choices\":[{\"delta\":{\"content\":\"a");
    parser.feed(&[0xff]);
    parser.feed(b"b\"}}]}\n");
    assert_eq!(parser.content(), "a\u{fffd}b");
}

#[test]
fn a_line_is_read_as_an_event() {
    assert_eq!(read_line(&chars_of("data: [DONE]")), SseEvent::Done);
    assert_eq!(read_line(&chars_of("\t data: [DONE] \r")), SseEvent::Done);
    assert_eq!(read_line(&chars_of("data: [DONE] x")), SseEvent::Skip);
    assert_eq!(read_line(&chars_of("data:")), SseEvent::Skip);
    assert_eq!(read_line(&chars_of("")), SseEvent::Skip);
    assert_eq!(
        read_line(&chars_of("data: {\"choices\":[{\"delta\":{\"content\":\"\"}}]}")),
        SseEvent::Delta(String::new())
    );
    assert_eq!(
        read_line(&chars_of(FRAME)),
        SseEvent::Delta("ab".to_string())
    );
}

#[test]
fn a_payload_is_read_with_the_document_given() {
    let doc = JsonValue::parse("{\"choices\":[{\"delta\":{\"content\":\"t\"}}]}");
    assert_eq!(read_payload(&chars_of("anything"), doc), SseEvent::Delta("t".to_string()));
    assert_eq!(read_payload(&chars_of("anything"), None), SseEvent::Skip);
    assert_eq!(read_payload(&chars_of("[DONE]"), None), SseEvent::Done);
    assert_eq!(read_payload(&chars_of("{}"), Some(JsonValue::Object(vec![]))), SseEvent::Skip);
}

#[test]
fn the_content_of_a_delta_is_looked_up() {
    let doc = JsonValue::Object(vec![(
        "choices".to_string(),
        JsonValue::Array(vec![JsonValue::Object(vec![(
            "delta".to_string(),
            JsonValue::Object(vec![("content".to_string(), JsonValue::text("hi"))]),
        )])]),
    )]);
    assert_eq!(delta_content_of(&doc), Some(&"hi".to_string()));
    assert_eq!(delta_content_of(&JsonValue::Null), None);
    let no_list = JsonValue::Object(vec![("choices".to_string(), JsonValue::text("x"))]);
    assert_eq!(delta_content_of(&no_list), None);
}
