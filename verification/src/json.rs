//! JSON documents as trees, with the lookups that the rest of the library
//! makes in them. Text is turned into a tree, and a tree into text, by
//! `serde_json`.

use crate::text::chars_of;
use vstd::prelude::*;

verus! {

/// A JSON document. A number is held as the text that stands for it; a
/// text that has not the form of a number is written as `null`. The
/// members of an object are in their order.
#[derive(Debug, PartialEq, Eq)]
pub enum JsonValue {
    Null,
    Bool(bool),
    Number(String),
    Text(String),
    Array(Vec<JsonValue>),
    Object(Vec<(String, JsonValue)>),
}

/// What a `JsonValue` holds.
pub enum JsonDoc {
    Null,
    Bool(bool),
    Number(Seq<char>),
    Text(Seq<char>),
    Array(Seq<JsonDoc>),
    Object(Seq<(Seq<char>, JsonDoc)>),
}

impl View for JsonValue {
    type V = JsonDoc;

    open spec fn view(&self) -> JsonDoc {
        doc_of(*self)
    }
}

/// What a tree holds.
pub open spec fn doc_of(tree: JsonValue) -> JsonDoc
    decreases tree,
{
    match tree {
        JsonValue::Null => JsonDoc::Null,
        JsonValue::Bool(b) => JsonDoc::Bool(b),
        JsonValue::Number(n) => JsonDoc::Number(n@),
        JsonValue::Text(t) => JsonDoc::Text(t@),
        JsonValue::Array(items) => JsonDoc::Array(item_views(items@)),
        JsonValue::Object(members) => JsonDoc::Object(member_views(members@)),
    }
}

/// What the items of an array hold.
pub open spec fn item_views(items: Seq<JsonValue>) -> Seq<JsonDoc>
    decreases items,
{
    if items.len() == 0 {
        Seq::empty()
    } else {
        item_views(items.drop_last()).push(doc_of(items.last()))
    }
}

/// What the members of an object hold.
pub open spec fn member_views(members: Seq<(String, JsonValue)>) -> Seq<(Seq<char>, JsonDoc)>
    decreases members,
{
    if members.len() == 0 {
        Seq::empty()
    } else {
        member_views(members.drop_last()).push((members.last().0@, doc_of(members.last().1)))
    }
}

/// The items of an array are held one by one, in their order.
pub proof fn lemma_item_views(items: Seq<JsonValue>)
    ensures
        item_views(items).len() == items.len(),
        forall|i: int| 0 <= i < items.len() ==> (#[trigger] item_views(items)[i]) == items[i]@,
    decreases items.len(),
{
    if items.len() > 0 {
        lemma_item_views(items.drop_last());
    }
}

/// The members of an object are held one by one, in their order.
pub proof fn lemma_member_views(members: Seq<(String, JsonValue)>)
    ensures
        member_views(members).len() == members.len(),
        forall|i: int|
            0 <= i < members.len() ==> (#[trigger] member_views(members)[i]) == (
                members[i].0@,
                members[i].1@,
            ),
    decreases members.len(),
{
    if members.len() > 0 {
        lemma_member_views(members.drop_last());
    }
}

/// The index of the first member under `key`, or the number of members if
/// there is none.
pub open spec fn position_of_key(members: Seq<(Seq<char>, JsonDoc)>, key: Seq<char>) -> int
    decreases members.len(),
{
    if members.len() == 0 || members[0].0 == key {
        0
    } else {
        1 + position_of_key(members.skip(1), key)
    }
}

/// An index that holds the key, with no earlier member that has it, is the
/// position of the key.
pub proof fn lemma_position_of_key_unique(
    members: Seq<(Seq<char>, JsonDoc)>,
    key: Seq<char>,
    at: int,
)
    requires
        0 <= at <= members.len(),
        at < members.len() ==> members[at].0 == key,
        forall|i: int| 0 <= i < at ==> members[i].0 != key,
    ensures
        position_of_key(members, key) == at,
    decreases members.len(),
{
    if members.len() > 0 && members[0].0 != key {
        let rest = members.skip(1);
        lemma_position_of_key_unique(rest, key, at - 1);
    }
}

impl JsonDoc {
    /// The first member of an object under `key`. Nothing else has members.
    pub open spec fn member(self, key: Seq<char>) -> Option<JsonDoc> {
        match self {
            JsonDoc::Object(members) => {
                let at = position_of_key(members, key);
                if at < members.len() {
                    Some(members[at].1)
                } else {
                    None
                }
            },
            _ => None,
        }
    }

    /// The characters of a string.
    pub open spec fn as_text(self) -> Option<Seq<char>> {
        match self {
            JsonDoc::Text(t) => Some(t),
            _ => None,
        }
    }

    /// The value of a boolean.
    pub open spec fn as_bool(self) -> Option<bool> {
        match self {
            JsonDoc::Bool(b) => Some(b),
            _ => None,
        }
    }

    /// The items of an array.
    pub open spec fn as_array(self) -> Option<Seq<JsonDoc>> {
        match self {
            JsonDoc::Array(items) => Some(items),
            _ => None,
        }
    }

    /// The characters of the string that is the member under `key`.
    pub open spec fn text_at(self, key: Seq<char>) -> Option<Seq<char>> {
        match self.member(key) {
            Some(value) => value.as_text(),
            None => None,
        }
    }

    /// The value of the boolean that is the member under `key`.
    pub open spec fn bool_at(self, key: Seq<char>) -> Option<bool> {
        match self.member(key) {
            Some(value) => value.as_bool(),
            None => None,
        }
    }

    /// The items of the array that is the member under `key`.
    pub open spec fn array_at(self, key: Seq<char>) -> Option<Seq<JsonDoc>> {
        match self.member(key) {
            Some(value) => value.as_array(),
            None => None,
        }
    }
}

/// A decimal digit.
pub open spec fn is_digit(c: char) -> bool {
    '0' <= c && c <= '9'
}

/// The index behind the digits that stand in `text` from `from` on.
pub open spec fn digits_end(text: Seq<char>, from: int) -> int
    decreases text.len() - from,
{
    if 0 <= from < text.len() && is_digit(text[from]) {
        digits_end(text, from + 1)
    } else {
        from
    }
}

/// The form of a number that is written as it stands: an optional `-`; one
/// to two hundred digits, with no `0` before another digit; then, if
/// anything, a point and at least one digit; then, if anything, `e` or `E`,
/// an optional sign and one or two digits. This is the form of a number in
/// JSON, with bounds that keep its value far within what a number can be.
pub open spec fn is_number_text(text: Seq<char>) -> bool {
    let start = if text.len() > 0 && text[0] == '-' {
        1int
    } else {
        0int
    };
    let whole = digits_end(text, start);
    let has_fraction = whole < text.len() && text[whole] == '.';
    let fraction = if has_fraction {
        digits_end(text, whole + 1)
    } else {
        whole
    };
    let has_exponent = fraction < text.len() && (text[fraction] == 'e' || text[fraction] == 'E');
    let signed = has_exponent && fraction + 1 < text.len() && (text[fraction + 1] == '+'
        || text[fraction + 1] == '-');
    let exponent = if signed {
        fraction + 2
    } else {
        fraction + 1
    };
    let end = if has_exponent {
        digits_end(text, exponent)
    } else {
        fraction
    };
    &&& 0 < whole - start <= 200
    &&& text[start] == '0' ==> whole == start + 1
    &&& has_fraction ==> fraction > whole + 1
    &&& has_exponent ==> 0 < end - exponent <= 2
    &&& end == text.len()
}

/// A document as it is written: a number whose text has not the form of a
/// number is written as `null`, everything else as it stands.
pub open spec fn written(doc: JsonDoc) -> JsonDoc
    decreases doc,
{
    match doc {
        JsonDoc::Number(n) => if is_number_text(n) {
            doc
        } else {
            JsonDoc::Null
        },
        JsonDoc::Array(items) => JsonDoc::Array(written_items(items)),
        JsonDoc::Object(members) => JsonDoc::Object(written_members(members)),
        _ => doc,
    }
}

/// The items of an array as they are written.
pub open spec fn written_items(items: Seq<JsonDoc>) -> Seq<JsonDoc>
    decreases items,
{
    if items.len() == 0 {
        Seq::empty()
    } else {
        written_items(items.drop_last()).push(written(items.last()))
    }
}

/// The members of an object as they are written.
pub open spec fn written_members(members: Seq<(Seq<char>, JsonDoc)>) -> Seq<(Seq<char>, JsonDoc)>
    decreases members,
{
    if members.len() == 0 {
        Seq::empty()
    } else {
        written_members(members.drop_last()).push((members.last().0, written(members.last().1)))
    }
}

/// The items of an array are written one by one, in their order.
pub proof fn lemma_written_items(items: Seq<JsonDoc>)
    ensures
        written_items(items).len() == items.len(),
        forall|i: int| 0 <= i < items.len() ==> (#[trigger] written_items(items)[i]) == written(
            items[i],
        ),
    decreases items.len(),
{
    if items.len() > 0 {
        lemma_written_items(items.drop_last());
    }
}

/// The members of an object are written one by one, in their order, each
/// under its key.
pub proof fn lemma_written_members(members: Seq<(Seq<char>, JsonDoc)>)
    ensures
        written_members(members).len() == members.len(),
        forall|i: int|
            0 <= i < members.len() ==> (#[trigger] written_members(members)[i]) == (
                members[i].0,
                written(members[i].1),
            ),
    decreases members.len(),
{
    if members.len() > 0 {
        lemma_written_members(members.drop_last());
    }
}

/// The index behind the digits that stand in `text` from `from` on.
fn skip_digits(text: &[char], from: usize) -> (end: usize)
    requires
        from <= text@.len(),
    ensures
        end == digits_end(text@, from as int),
        from <= end <= text@.len(),
{
    let mut end: usize = from;
    while end < text.len() && '0' <= text[end] && text[end] <= '9'
        invariant
            from <= end <= text@.len(),
            digits_end(text@, end as int) == digits_end(text@, from as int),
        decreases text@.len() - end,
    {
        end += 1;
    }
    end
}

/// Whether a text has the form of a number that is written as it stands.
pub fn is_number(text: &str) -> (number: bool)
    ensures
        number == is_number_text(text@),
{
    let chars = chars_of(text);
    let text = chars.as_slice();
    let len = text.len();
    let start: usize = if len > 0 && text[0] == '-' {
        1
    } else {
        0
    };
    let whole = skip_digits(text, start);
    if whole == start || whole - start > 200 {
        return false;
    }
    if text[start] == '0' && whole != start + 1 {
        return false;
    }
    let mut at = whole;
    if at < len && text[at] == '.' {
        at = skip_digits(text, whole + 1);
        if at == whole + 1 {
            return false;
        }
    }
    if at < len && (text[at] == 'e' || text[at] == 'E') {
        let exponent: usize = if at + 1 < len && (text[at + 1] == '+' || text[at + 1] == '-') {
            at + 2
        } else {
            at + 1
        };
        at = skip_digits(text, exponent);
        if at == exponent || at - exponent > 2 {
            return false;
        }
    }
    at == len
}

/// The document that a text stands for, as `serde_json` reads it; `None`
/// where the text is not one JSON document.
pub uninterp spec fn json_document(text: Seq<char>) -> Option<JsonDoc>;

/// The text that `serde_json` writes for a document, without white space.
pub uninterp spec fn json_text(doc: JsonDoc) -> Seq<char>;

/// The text that `serde_json` writes for a document, one member or item to
/// the line and indented.
pub uninterp spec fn json_pretty_text(doc: JsonDoc) -> Seq<char>;

/// `serde_json::Value`, of which nothing is known here: a value of it is
/// only moved into a tree or out of one.
#[verifier::external_type_specification]
#[verifier::external_body]
pub struct ExSerdeValue(serde_json::Value);

/// Moves a `serde_json::Value` into a tree, variant by variant. A number
/// becomes the text that its `Display` writes; the members of an object come
/// in the order in which its map holds them.
#[verifier::external_body]
fn tree_from_serde(value: serde_json::Value) -> (tree: JsonValue) {
    match value {
        serde_json::Value::Null => JsonValue::Null,
        serde_json::Value::Bool(b) => JsonValue::Bool(b),
        serde_json::Value::Number(n) => JsonValue::Number(n.to_string()),
        serde_json::Value::String(s) => JsonValue::Text(s),
        serde_json::Value::Array(items) => JsonValue::Array(
            items.into_iter().map(tree_from_serde).collect(),
        ),
        serde_json::Value::Object(members) => JsonValue::Object(
            members.into_iter().map(|(k, v)| (k, tree_from_serde(v))).collect(),
        ),
    }
}

/// Copies a tree into a `serde_json::Value`, variant by variant. The text of
/// a number is read by `serde_json::from_str`, and a text that it does not
/// read becomes `null`; of two members under one key the map keeps the
/// later. What is written goes through `JsonValue::written` first, which
/// leaves no number whose text has not the form of a number.
#[verifier::external_body]
fn tree_to_serde(tree: &JsonValue) -> (value: serde_json::Value) {
    match tree {
        JsonValue::Null => serde_json::Value::Null,
        JsonValue::Bool(b) => serde_json::Value::Bool(*b),
        JsonValue::Number(n) => serde_json::from_str(n)
            .map_or(serde_json::Value::Null, serde_json::Value::Number),
        JsonValue::Text(t) => serde_json::Value::String(t.clone()),
        JsonValue::Array(items) => items.iter().map(tree_to_serde).collect(),
        JsonValue::Object(members) => serde_json::Value::Object(
            members.iter().map(|(k, v)| (k.clone(), tree_to_serde(v))).collect(),
        ),
    }
}

/// `serde_json::from_str` at the type `serde_json::Value`: the document that
/// the text stands for, or `None` where the text is not one JSON document.
#[verifier::external_body]
fn read_document(text: &str) -> (tree: Option<JsonValue>)
    ensures
        match tree {
            Some(t) => json_document(text@) == Some(t@),
            None => json_document(text@) is None,
        },
{
    serde_json::from_str::<serde_json::Value>(text).ok().map(tree_from_serde)
}

/// `serde_json::to_string` on the tree as a `serde_json::Value`.
#[verifier::external_body]
fn write_document(tree: &JsonValue) -> (text: String)
    ensures
        text@ == json_text(tree@),
{
    serde_json::to_string(&tree_to_serde(tree)).unwrap_or_default()
}

/// `serde_json::to_string_pretty` on the tree as a `serde_json::Value`.
#[verifier::external_body]
fn write_document_pretty(tree: &JsonValue) -> (text: String)
    ensures
        text@ == json_pretty_text(tree@),
{
    serde_json::to_string_pretty(&tree_to_serde(tree)).unwrap_or_default()
}

/// Appends a member to the members of an object.
pub fn push_member(members: &mut Vec<(String, JsonValue)>, key: &str, value: JsonValue)
    ensures
        final(members)@.len() == old(members)@.len() + 1,
        member_views(final(members)@) == member_views(old(members)@).push((key@, value@)),
{
    let ghost before = members@;
    members.push((key.to_string(), value));
    proof {
        assert(members@.drop_last() =~= before);
    }
}

/// Appends an item to the items of an array.
pub fn push_item(items: &mut Vec<JsonValue>, value: JsonValue)
    ensures
        final(items)@.len() == old(items)@.len() + 1,
        item_views(final(items)@) == item_views(old(items)@).push(value@),
{
    let ghost before = items@;
    items.push(value);
    proof {
        assert(items@.drop_last() =~= before);
    }
}

impl JsonValue {
    /// An object with these members.
    pub fn object(members: Vec<(String, JsonValue)>) -> (tree: JsonValue)
        ensures
            tree@ == JsonDoc::Object(member_views(members@)),
    {
        JsonValue::Object(members)
    }

    /// An array with these items.
    pub fn array(items: Vec<JsonValue>) -> (tree: JsonValue)
        ensures
            tree@ == JsonDoc::Array(item_views(items@)),
    {
        JsonValue::Array(items)
    }

    /// Reads a text as one JSON document.
    pub fn parse(text: &str) -> (tree: Option<JsonValue>)
        ensures
            match tree {
                Some(t) => json_document(text@) == Some(t@),
                None => json_document(text@) is None,
            },
    {
        read_document(text)
    }

    /// The document as it is written: a number whose text has not the form
    /// of a number becomes `null`, everything else is copied.
    pub fn written(&self) -> (plain: JsonValue)
        ensures
            plain@ == written(self@),
        decreases self,
    {
        match self {
            JsonValue::Null => JsonValue::Null,
            JsonValue::Bool(b) => JsonValue::Bool(*b),
            JsonValue::Number(n) => if is_number(n.as_str()) {
                JsonValue::Number(n.clone())
            } else {
                JsonValue::Null
            },
            JsonValue::Text(t) => JsonValue::Text(t.clone()),
            JsonValue::Array(items) => {
                let mut out: Vec<JsonValue> = Vec::new();
                let mut at: usize = 0;
                while at < items.len()
                    invariant
                        decreases_to!(*self => items@),
                        at <= items@.len(),
                        out@.len() == at,
                        forall|k: int| 0 <= k < at ==> (#[trigger] out@[k])@ == written(items@[k]@),
                    decreases items@.len() - at,
                {
                    let item = items[at].written();
                    out.push(item);
                    at += 1;
                }
                proof {
                    lemma_item_views(items@);
                    lemma_item_views(out@);
                    lemma_written_items(item_views(items@));
                    assert(item_views(out@) =~= written_items(item_views(items@)));
                }
                JsonValue::Array(out)
            },
            JsonValue::Object(members) => {
                let mut out: Vec<(String, JsonValue)> = Vec::new();
                let mut at: usize = 0;
                while at < members.len()
                    invariant
                        decreases_to!(*self => members@),
                        at <= members@.len(),
                        out@.len() == at,
                        forall|k: int|
                            0 <= k < at ==> (#[trigger] out@[k]).0@ == members@[k].0@ && out@[k].1@
                                == written(members@[k].1@),
                    decreases members@.len() - at,
                {
                    let value = members[at].1.written();
                    out.push((members[at].0.clone(), value));
                    at += 1;
                }
                proof {
                    lemma_member_views(members@);
                    lemma_member_views(out@);
                    lemma_written_members(member_views(members@));
                    assert(member_views(out@) =~= written_members(member_views(members@)));
                }
                JsonValue::Object(out)
            },
        }
    }

    /// Writes the document without white space. A number whose text has
    /// not the form of a number is written as `null`.
    pub fn render(&self) -> (text: String)
        ensures
            text@ == json_text(written(self@)),
    {
        write_document(&self.written())
    }

    /// Writes the document one member or item to the line, indented. A
    /// number whose text has not the form of a number is written as `null`.
    pub fn render_pretty(&self) -> (text: String)
        ensures
            text@ == json_pretty_text(written(self@)),
    {
        write_document_pretty(&self.written())
    }

    /// A string.
    pub fn text(value: &str) -> (tree: JsonValue)
        ensures
            tree@ == JsonDoc::Text(value@),
    {
        JsonValue::Text(value.to_string())
    }

    /// The first member of an object under `key`. Nothing else has members.
    pub fn get(&self, key: &str) -> (found: Option<&JsonValue>)
        ensures
            match found {
                Some(value) => self@.member(key@) == Some(value@),
                None => self@.member(key@) is None,
            },
    {
        match self {
            JsonValue::Object(members) => {
                let wanted = key.to_string();
                let mut at: usize = 0;
                while at < members.len() && members[at].0 != wanted
                    invariant
                        at <= members@.len(),
                        wanted@ == key@,
                        forall|i: int| 0 <= i < at ==> members@[i].0@ != key@,
                    decreases members@.len() - at,
                {
                    at += 1;
                }
                proof {
                    lemma_member_views(members@);
                    lemma_position_of_key_unique(member_views(members@), key@, at as int);
                }
                if at < members.len() {
                    Some(&members[at].1)
                } else {
                    None
                }
            },
            _ => None,
        }
    }

    /// The characters of a string.
    pub fn as_str(&self) -> (found: Option<&String>)
        ensures
            match found {
                Some(text) => self@.as_text() == Some(text@),
                None => self@.as_text() is None,
            },
    {
        match self {
            JsonValue::Text(text) => Some(text),
            _ => None,
        }
    }

    /// The value of a boolean.
    pub fn as_bool(&self) -> (found: Option<bool>)
        ensures
            found == self@.as_bool(),
    {
        match self {
            JsonValue::Bool(b) => Some(*b),
            _ => None,
        }
    }

    /// The items of an array.
    pub fn as_array(&self) -> (found: Option<&Vec<JsonValue>>)
        ensures
            match found {
                Some(items) => self@.as_array() == Some(item_views(items@)),
                None => self@.as_array() is None,
            },
    {
        match self {
            JsonValue::Array(items) => {
Some(items)
            },
            _ => None,
        }
    }

    /// The string that is the member under `key`.
    pub fn text_at(&self, key: &str) -> (found: Option<&String>)
        ensures
            match found {
                Some(text) => self@.text_at(key@) == Some(text@),
                None => self@.text_at(key@) is None,
            },
    {
        match self.get(key) {
            Some(value) => value.as_str(),
            None => None,
        }
    }

    /// The boolean that is the member under `key`.
    pub fn bool_at(&self, key: &str) -> (found: Option<bool>)
        ensures
            found == self@.bool_at(key@),
    {
        match self.get(key) {
            Some(value) => value.as_bool(),
            None => None,
        }
    }

    /// The items of the array that is the member under `key`.
    pub fn array_at(&self, key: &str) -> (found: Option<&Vec<JsonValue>>)
        ensures
            match found {
                Some(items) => self@.array_at(key@) == Some(item_views(items@)),
                None => self@.array_at(key@) is None,
            },
    {
        match self.get(key) {
            Some(value) => value.as_array(),
            None => None,
        }
    }
}

} // verus!
