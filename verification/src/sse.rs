//! The answer stream: lines of server-sent events, fed in chunks that may
//! end anywhere, and the text that the lines add up to.
//!
//! A line that, trimmed, begins with `data: ` carries a payload. The payload
//! `[DONE]` ends the stream: nothing that follows it counts. Any other
//! payload is read as a JSON document, and the string under
//! `choices[0].delta.content`, if there is one, is appended to the text.
//! Every other line is passed over.

use crate::json::{json_document, lemma_item_views, JsonDoc, JsonValue};
use crate::text::{
    chars_of, copy_range, find_char, index_of, lemma_index_of, lemma_index_of_unique, matches_at,
    push_all, same_chars, starts_with, string_from_chars, trim, trim_bounds,
};
use vstd::prelude::*;
use vstd::utf8::{decode_utf8, decode_utf8_split, is_char_boundary, valid_utf8, valid_utf8_split};

verus! {

/// What a line of the stream means.
pub enum LineEvent {
    /// The line adds nothing.
    Skip,
    /// The line ends the stream.
    Done,
    /// The line adds this text.
    Delta(Seq<char>),
}

/// What a line of the stream means.
#[derive(Debug, PartialEq, Eq)]
pub enum SseEvent {
    /// The line adds nothing.
    Skip,
    /// The line ends the stream.
    Done,
    /// The line adds this text.
    Delta(String),
}

impl View for SseEvent {
    type V = LineEvent;

    open spec fn view(&self) -> LineEvent {
        match self {
            SseEvent::Skip => LineEvent::Skip,
            SseEvent::Done => LineEvent::Done,
            SseEvent::Delta(text) => LineEvent::Delta(text@),
        }
    }
}

/// The string under `choices[0].delta.content` of a document.
pub open spec fn delta_content(doc: JsonDoc) -> Option<Seq<char>> {
    match doc.array_at("choices"@) {
        Some(choices) => if choices.len() > 0 {
            match choices[0].member("delta"@) {
                Some(delta) => delta.text_at("content"@),
                None => None,
            }
        } else {
            None
        },
        None => None,
    }
}

/// What a payload means, given the document that it reads as.
pub open spec fn payload_event(payload: Seq<char>, document: Option<JsonDoc>) -> LineEvent {
    if payload == "[DONE]"@ {
        LineEvent::Done
    } else {
        match document {
            Some(doc) => match delta_content(doc) {
                Some(text) => LineEvent::Delta(text),
                None => LineEvent::Skip,
            },
            None => LineEvent::Skip,
        }
    }
}

/// What a line means.
pub open spec fn line_event(line: Seq<char>) -> LineEvent {
    let trimmed = trim(line);
    if starts_with(trimmed, "data: "@) {
        let payload = trimmed.skip(6);
        payload_event(payload, json_document(payload))
    } else {
        LineEvent::Skip
    }
}

/// The string under `choices[0].delta.content` of a document.
pub fn delta_content_of(doc: &JsonValue) -> (found: Option<&String>)
    ensures
        match found {
            Some(text) => delta_content(doc@) == Some(text@),
            None => delta_content(doc@) is None,
        },
{
    match doc.array_at("choices") {
        Some(choices) => {
            proof {
                lemma_item_views(choices@);
            }
            if choices.len() > 0 {
                match choices[0].get("delta") {
                    Some(delta) => delta.text_at("content"),
                    None => None,
                }
            } else {
                None
            }
        },
        None => None,
    }
}

/// What a payload means, given the document that it was read as.
pub fn read_payload(payload: &[char], document: Option<JsonValue>) -> (event: SseEvent)
    ensures
        event@ == payload_event(
            payload@,
            match document {
                Some(doc) => Some(doc@),
                None => None,
            },
        ),
{
    let done = chars_of("[DONE]");
    if same_chars(payload, done.as_slice()) {
        return SseEvent::Done;
    }
    match document {
        Some(doc) => match delta_content_of(&doc) {
            Some(text) => SseEvent::Delta(text.clone()),
            None => SseEvent::Skip,
        },
        None => SseEvent::Skip,
    }
}

/// What a line means.
pub fn read_line(line: &[char]) -> (event: SseEvent)
    ensures
        event@ == line_event(line@),
{
    let (start, end) = trim_bounds(line);
    let trimmed = copy_range(line, start, end);
    let prefix = chars_of("data: ");
    proof {
        reveal_strlit("data: ");
    }
    if !matches_at(trimmed.as_slice(), prefix.as_slice(), 0) {
        return SseEvent::Skip;
    }
    let payload = copy_range(trimmed.as_slice(), 6, trimmed.len());
    let document = if same_chars(payload.as_slice(), chars_of("[DONE]").as_slice()) {
        None
    } else {
        let text = string_from_chars(payload.as_slice());
        JsonValue::parse(text.as_str())
    };
    read_payload(payload.as_slice(), document)
}

/// What a reader of the stream holds: the characters of the line that has
/// not ended yet, the text so far, and whether the stream has ended.
pub struct SseState {
    pub pending: Seq<char>,
    pub content: Seq<char>,
    pub done: bool,
}

impl SseState {
    /// Nothing read yet.
    pub open spec fn start() -> SseState {
        SseState { pending: Seq::empty(), content: Seq::empty(), done: false }
    }

    /// A stream that has ended holds no pending characters, and one that
    /// has not holds no complete line.
    pub open spec fn wf(self) -> bool {
        if self.done {
            self.pending.len() == 0
        } else {
            index_of(self.pending, '\n') == self.pending.len()
        }
    }

    /// The state after every complete line among the pending characters
    /// has been taken, in order, up to the line that ends the stream.
    pub open spec fn drained(self) -> SseState
        decreases self.pending.len(),
    {
        let at = index_of(self.pending, '\n');
        if self.done || at < 0 || at >= self.pending.len() {
            self
        } else {
            let rest = self.pending.skip(at + 1);
            match line_event(self.pending.subrange(0, at)) {
                LineEvent::Done => SseState {
                    pending: Seq::empty(),
                    content: self.content,
                    done: true,
                },
                LineEvent::Delta(text) => (SseState {
                    pending: rest,
                    content: self.content + text,
                    done: false,
                }).drained(),
                LineEvent::Skip => (SseState {
                    pending: rest,
                    content: self.content,
                    done: false,
                }).drained(),
            }
        }
    }

    /// The state after a chunk of text. A stream that has ended takes
    /// nothing more.
    pub open spec fn fed(self, chunk: Seq<char>) -> SseState {
        if self.done {
            self
        } else {
            (SseState { pending: self.pending + chunk, content: self.content, done: false }).drained()
        }
    }

    /// The state after a chunk of bytes, which is read as text on its own.
    pub open spec fn fed_bytes(self, chunk: Seq<u8>) -> SseState {
        self.fed(utf8_lossy(chunk))
    }
}

/// The text that `String::from_utf8_lossy` reads from bytes: the text that
/// the bytes encode, with U+FFFD in place of what is not UTF-8.
pub uninterp spec fn utf8_lossy(bytes: Seq<u8>) -> Seq<char>;

/// `String::from_utf8_lossy`: the text that the bytes encode, with U+FFFD in
/// place of what is not UTF-8. Bytes that are UTF-8 give the text that they
/// encode.
#[verifier::external_body]
fn decode_lossy(bytes: &[u8]) -> (text: String)
    ensures
        text@ == utf8_lossy(bytes@),
        valid_utf8(bytes@) ==> text@ == decode_utf8(bytes@),
{
    String::from_utf8_lossy(bytes).into_owned()
}

/// The first occurrence of a character in a text is its first occurrence
/// in every text that begins with that text.
pub proof fn lemma_index_of_concat(text: Seq<char>, more: Seq<char>, c: char)
    requires
        index_of(text, c) < text.len(),
    ensures
        index_of(text + more, c) == index_of(text, c),
{
    lemma_index_of(text, c);
    let at = index_of(text, c);
    lemma_index_of_unique(text + more, c, at);
}

/// Draining never leaves a complete line behind.
pub proof fn lemma_drained_wf(state: SseState)
    requires
        !state.done,
    ensures
        state.drained().wf(),
    decreases state.pending.len(),
{
    let at = index_of(state.pending, '\n');
    lemma_index_of(state.pending, '\n');
    if at < state.pending.len() {
        let rest = state.pending.skip(at + 1);
        match line_event(state.pending.subrange(0, at)) {
            LineEvent::Done => {},
            LineEvent::Delta(text) => {
                lemma_drained_wf(
                    SseState { pending: rest, content: state.content + text, done: false },
                );
            },
            LineEvent::Skip => {
                lemma_drained_wf(SseState { pending: rest, content: state.content, done: false });
            },
        }
    }
}

/// Draining a state with more characters behind it is draining it first
/// and then, unless the stream has ended, draining what is left with those
/// characters behind it.
pub proof fn lemma_drain_split(state: SseState, more: Seq<char>)
    requires
        !state.done,
    ensures
        (SseState { pending: state.pending + more, content: state.content, done: false }).drained()
            == if state.drained().done {
            state.drained()
        } else {
            (SseState {
                pending: state.drained().pending + more,
                content: state.drained().content,
                done: false,
            }).drained()
        },
    decreases state.pending.len(),
{
    let at = index_of(state.pending, '\n');
    lemma_index_of(state.pending, '\n');
    if at < state.pending.len() {
        lemma_index_of_concat(state.pending, more, '\n');
        let whole = state.pending + more;
        assert(whole.subrange(0, at) =~= state.pending.subrange(0, at));
        assert(whole.skip(at + 1) =~= state.pending.skip(at + 1) + more);
        let rest = state.pending.skip(at + 1);
        match line_event(state.pending.subrange(0, at)) {
            LineEvent::Done => {},
            LineEvent::Delta(text) => {
                lemma_drain_split(
                    SseState { pending: rest, content: state.content + text, done: false },
                    more,
                );
            },
            LineEvent::Skip => {
                lemma_drain_split(
                    SseState { pending: rest, content: state.content, done: false },
                    more,
                );
            },
        }
    }
}

/// However a text is cut in two, feeding the two parts one after the other
/// leaves the same state as feeding the text in one piece.
pub proof fn lemma_feed_split(state: SseState, first: Seq<char>, second: Seq<char>)
    ensures
        state.fed(first).fed(second) == state.fed(first + second),
{
    if !state.done {
        let joined = SseState {
            pending: state.pending + first,
            content: state.content,
            done: false,
        };
        lemma_drain_split(joined, second);
        assert((state.pending + first) + second =~= state.pending + (first + second));
    }
}

/// A well-formed state stays well-formed when it is fed.
pub proof fn lemma_fed_wf(state: SseState, chunk: Seq<char>)
    requires
        state.wf(),
    ensures
        state.fed(chunk).wf(),
{
    if !state.done {
        lemma_drained_wf(
            SseState { pending: state.pending + chunk, content: state.content, done: false },
        );
    }
}

/// However bytes that are UTF-8 are cut in two between two characters,
/// feeding the text of the two parts one after the other leaves the same
/// state as feeding the text of all the bytes in one piece.
pub proof fn lemma_feed_bytes_split(state: SseState, bytes: Seq<u8>, at: int)
    requires
        valid_utf8(bytes),
        is_char_boundary(bytes, at),
        0 <= at <= bytes.len(),
    ensures
        valid_utf8(bytes.subrange(0, at)),
        valid_utf8(bytes.subrange(at, bytes.len() as int)),
        state.fed(decode_utf8(bytes.subrange(0, at))).fed(
            decode_utf8(bytes.subrange(at, bytes.len() as int)),
        ) == state.fed(decode_utf8(bytes)),
{
    decode_utf8_split(bytes, at);
    valid_utf8_split(bytes, at);
    lemma_feed_split(
        state,
        decode_utf8(bytes.subrange(0, at)),
        decode_utf8(bytes.subrange(at, bytes.len() as int)),
    );
}

/// A reader of the answer stream.
#[derive(Debug)]
pub struct SseParser {
    pending: Vec<char>,
    content: Vec<char>,
    done: bool,
}

impl View for SseParser {
    type V = SseState;

    closed spec fn view(&self) -> SseState {
        SseState { pending: self.pending@, content: self.content@, done: self.done }
    }
}

impl SseParser {
    /// A reader that has read nothing yet.
    pub fn new() -> (parser: SseParser)
        ensures
            parser@ == SseState::start(),
            parser@.wf(),
    {
        SseParser { pending: Vec::new(), content: Vec::new(), done: false }
    }

    /// Takes a chunk of text: every line that the chunk completes is read,
    /// in order, up to the line that ends the stream.
    pub fn feed_text(&mut self, chunk: &str)
        ensures
            final(self)@ == old(self)@.fed(chunk@),
            old(self)@.wf() ==> final(self)@.wf(),
    {
        proof {
            if self@.wf() {
                lemma_fed_wf(self@, chunk@);
            }
        }
        if self.done {
            return;
        }
        let text = chars_of(chunk);
        push_all(&mut self.pending, text.as_slice());
        let ghost whole = SseState { pending: self.pending@, content: self.content@, done: false };
        let ghost total = self.pending@;
        let mut start: usize = 0;
        proof {
            assert(total.skip(0) =~= total);
        }
        loop
            invariant
                !self.done,
                self.pending@ == total,
                start <= total.len(),
                whole.drained() == old(self)@.fed(chunk@),
                whole.drained() == (SseState {
                    pending: total.skip(start as int),
                    content: self.content@,
                    done: false,
                }).drained(),
            ensures
                start <= total.len(),
                self.pending@ == total,
                !self.done,
                whole.drained() == (SseState {
                    pending: total.skip(start as int),
                    content: self.content@,
                    done: false,
                }),
            decreases total.len() - start,
        {
            let ghost rest = total.skip(start as int);
            let at = find_char(self.pending.as_slice(), start, '\n');
            proof {
                lemma_index_of(rest, '\n');
            }
            if at >= self.pending.len() {
                break;
            }
            let line = copy_range(self.pending.as_slice(), start, at);
            proof {
                assert(rest.subrange(0, at - start) =~= total.subrange(start as int, at as int));
                assert(rest.skip(at - start + 1) =~= total.skip(at + 1));
            }
            match read_line(line.as_slice()) {
                SseEvent::Done => {
                    self.done = true;
                    self.pending = Vec::new();
                    return;
                },
                SseEvent::Delta(text) => {
                    let more = chars_of(text.as_str());
                    push_all(&mut self.content, more.as_slice());
                },
                SseEvent::Skip => {},
            }
            start = at + 1;
        }
        let tail = copy_range(self.pending.as_slice(), start, self.pending.len());
        self.pending = tail;
    }

    /// Takes a chunk of bytes, which is read as text on its own, with
    /// U+FFFD in place of what is not UTF-8.
    pub fn feed(&mut self, chunk: &[u8])
        ensures
            final(self)@ == old(self)@.fed_bytes(chunk@),
            valid_utf8(chunk@) ==> final(self)@ == old(self)@.fed(decode_utf8(chunk@)),
            old(self)@.wf() ==> final(self)@.wf(),
    {
        let text = decode_lossy(chunk);
        self.feed_text(text.as_str());
    }

    /// Whether the line that ends the stream has been read.
    pub fn is_done(&self) -> (done: bool)
        ensures
            done == self@.done,
    {
        self.done
    }

    /// The text so far.
    pub fn content(&self) -> (text: String)
        ensures
            text@ == self@.content,
    {
        string_from_chars(self.content.as_slice())
    }
}

} // verus!
