//! The models that a service offers: the request that asks for them, the
//! answer read into a list, and the list as it is kept between runs.

use crate::errors::{category_message, category_of, ErrorCategory};
use crate::json::{
    item_views, json_document, json_pretty_text, lemma_item_views, lemma_written_items, push_item,
    written, written_items, JsonDoc, JsonValue,
};
use crate::profile::{ModelInfo, ModelInfoView};
use crate::text::{join_texts, decimal, push_decimal, push_str, string_from_chars};
use vstd::prelude::*;

verus! {

/// Why the models could not be listed.
#[derive(Debug, PartialEq, Eq)]
pub enum ModelsError {
    /// The key or the endpoint is missing.
    MissingCredentials,
    /// The request did not reach the service. Holds what it failed with.
    Transport(String),
    /// The service answered with this status, which is no success.
    Status(u16),
    /// The body of the answer could not be read.
    Unreadable,
    /// The answer is no JSON document, or holds no list under `data`.
    InvalidFormat,
}

/// What a `ModelsError` holds.
pub enum ModelsErrorView {
    MissingCredentials,
    Transport(Seq<char>),
    Status(u16),
    Unreadable,
    InvalidFormat,
}

impl View for ModelsError {
    type V = ModelsErrorView;

    open spec fn view(&self) -> ModelsErrorView {
        match self {
            ModelsError::MissingCredentials => ModelsErrorView::MissingCredentials,
            ModelsError::Transport(m) => ModelsErrorView::Transport(m@),
            ModelsError::Status(status) => ModelsErrorView::Status(*status),
            ModelsError::Unreadable => ModelsErrorView::Unreadable,
            ModelsError::InvalidFormat => ModelsErrorView::InvalidFormat,
        }
    }
}

impl ModelsErrorView {
    /// The error as it is shown to the user: a failed transport and a
    /// status only by their category.
    pub open spec fn message(self) -> Seq<char> {
        match self {
            ModelsErrorView::MissingCredentials => "API key and base URL are required"@,
            ModelsErrorView::Transport(m) => category_message(category_of(m)),
            ModelsErrorView::Status(status) => category_message(
                category_of("Status: "@ + decimal(status as nat)),
            ),
            ModelsErrorView::Unreadable => "Failed to read response"@,
            ModelsErrorView::InvalidFormat => "Invalid response format"@,
        }
    }
}

impl ModelsError {
    /// The error as it is shown to the user.
    pub fn message(&self) -> (message: String)
        ensures
            message@ == self@.message(),
    {
        match self {
            ModelsError::MissingCredentials => "API key and base URL are required".to_string(),
            ModelsError::Transport(m) => ErrorCategory::of(m.as_str()).message(),
            ModelsError::Status(status) => {
                let mut text: Vec<char> = Vec::new();
                push_str(&mut text, "Status: ");
                push_decimal(&mut text, *status);
                let text = string_from_chars(text.as_slice());
                ErrorCategory::of(text.as_str()).message()
            },
            ModelsError::Unreadable => "Failed to read response".to_string(),
            ModelsError::InvalidFormat => "Invalid response format".to_string(),
        }
    }
}

/// A request for the list of models.
#[derive(Debug, PartialEq, Eq)]
pub struct ModelsRequest {
    /// Where the list is asked for.
    pub url: String,
    /// The value of the `Authorization` header.
    pub authorization: String,
}

/// What a `ModelsRequest` holds.
pub struct ModelsRequestView {
    pub url: Seq<char>,
    pub authorization: Seq<char>,
}

impl View for ModelsRequest {
    type V = ModelsRequestView;

    open spec fn view(&self) -> ModelsRequestView {
        ModelsRequestView { url: self.url@, authorization: self.authorization@ }
    }
}

/// The request for the list of models of an endpoint; `None` where the key
/// or the endpoint is missing.
pub open spec fn models_request_of(base_url: Seq<char>, api_key: Seq<char>) -> Option<
    ModelsRequestView,
> {
    if api_key.len() == 0 || base_url.len() == 0 {
        None
    } else {
        Some(ModelsRequestView { url: base_url + "/models"@, authorization: "Bearer "@ + api_key })
    }
}

/// The model that an entry of the list stands for: an object with the
/// strings `id` and `object`.
pub open spec fn model_of(doc: JsonDoc) -> Option<ModelInfoView> {
    match (doc.text_at("id"@), doc.text_at("object"@)) {
        (Some(id), Some(object)) => Some(ModelInfoView { id, object }),
        _ => None,
    }
}

/// The models among the entries of a list, in their order. An entry that
/// stands for no model is passed over.
pub open spec fn models_in(items: Seq<JsonDoc>) -> Seq<ModelInfoView>
    decreases items.len(),
{
    if items.len() == 0 {
        Seq::empty()
    } else {
        match model_of(items.last()) {
            Some(model) => models_in(items.drop_last()).push(model),
            None => models_in(items.drop_last()),
        }
    }
}

/// The identifiers among the entries of a list, in their order. An entry
/// without the string `id` is passed over.
pub open spec fn ids_in(items: Seq<JsonDoc>) -> Seq<Seq<char>>
    decreases items.len(),
{
    if items.len() == 0 {
        Seq::empty()
    } else {
        match items.last().text_at("id"@) {
            Some(id) => ids_in(items.drop_last()).push(id),
            None => ids_in(items.drop_last()),
        }
    }
}

/// The models that an answer lists under `data`; `None` where the answer is
/// no document or holds no list there.
pub open spec fn listed_models(document: Option<JsonDoc>) -> Option<Seq<ModelInfoView>> {
    match document {
        Some(doc) => match doc.array_at("data"@) {
            Some(items) => Some(models_in(items)),
            None => None,
        },
        None => None,
    }
}

/// The identifiers that an answer lists under `data`; `None` where the
/// answer is no document or holds no list there.
pub open spec fn listed_ids(document: Option<JsonDoc>) -> Option<Seq<Seq<char>>> {
    match document {
        Some(doc) => match doc.array_at("data"@) {
            Some(items) => Some(ids_in(items)),
            None => None,
        },
        None => None,
    }
}

/// What a list of models holds.
pub open spec fn model_views(models: Seq<ModelInfo>) -> Seq<ModelInfoView> {
    models.map_values(|m: ModelInfo| m@)
}

/// What a list of strings holds.
pub open spec fn text_views(texts: Seq<String>) -> Seq<Seq<char>> {
    texts.map_values(|t: String| t@)
}

/// Identifiers as a document: a list of strings.
pub open spec fn ids_doc(ids: Seq<Seq<char>>) -> JsonDoc {
    JsonDoc::Array(Seq::new(ids.len(), |i: int| JsonDoc::Text(ids[i])))
}

/// The strings that the items of a list are, or `None` where one of them is
/// no string.
pub open spec fn texts_of(items: Seq<JsonDoc>) -> Option<Seq<Seq<char>>>
    decreases items.len(),
{
    if items.len() == 0 {
        Some(Seq::empty())
    } else {
        match (texts_of(items.drop_last()), items.last().as_text()) {
            (Some(texts), Some(text)) => Some(texts.push(text)),
            _ => None,
        }
    }
}

/// The identifiers that a kept document stands for: a list of strings.
pub open spec fn ids_of(doc: JsonDoc) -> Option<Seq<Seq<char>>> {
    match doc.as_array() {
        Some(items) => texts_of(items),
        None => None,
    }
}

/// The identifiers that a kept text stands for, given the document that it
/// reads as: the list, or no identifiers at all where there is no text, the
/// text is no document, or the document no list of strings.
pub open spec fn kept_ids(document: Option<JsonDoc>) -> Seq<Seq<char>> {
    match document {
        Some(doc) => match ids_of(doc) {
            Some(ids) => ids,
            None => Seq::empty(),
        },
        None => Seq::empty(),
    }
}

/// Identifiers are read back from their document.
pub proof fn lemma_ids_round_trip(ids: Seq<Seq<char>>)
    ensures
        ids_of(ids_doc(ids)) == Some(ids),
    decreases ids.len(),
{
    let items = ids_doc(ids)->Array_0;
    if ids.len() > 0 {
        assert(items.drop_last() =~= ids_doc(ids.drop_last())->Array_0);
        lemma_ids_round_trip(ids.drop_last());
    }
}

/// The document of a list of identifiers holds no number, and so is
/// written as it stands.
pub proof fn lemma_ids_doc_written(ids: Seq<Seq<char>>)
    ensures
        written(ids_doc(ids)) == ids_doc(ids),
{
    let items = ids_doc(ids)->Array_0;
    lemma_written_items(items);
    assert(written_items(items) =~= items);
}

/// Where the items up to some index are not all strings, the items are not
/// all strings.
pub proof fn lemma_texts_of_prefix(items: Seq<JsonDoc>, upto: int)
    requires
        0 <= upto <= items.len(),
        texts_of(items.take(upto)) is None,
    ensures
        texts_of(items) is None,
    decreases items.len() - upto,
{
    if upto < items.len() {
        assert(items.take(upto + 1).drop_last() =~= items.take(upto));
        lemma_texts_of_prefix(items, upto + 1);
    } else {
        assert(items.take(upto) =~= items);
    }
}

/// The request for the list of models of an endpoint. Refused where the key
/// or the endpoint is missing.
pub fn models_request(base_url: &str, api_key: &str) -> (result: Result<
    ModelsRequest,
    ModelsError,
>)
    ensures
        match result {
            Ok(request) => models_request_of(base_url@, api_key@) == Some(request@),
            Err(e) => models_request_of(base_url@, api_key@) is None && e
                == ModelsError::MissingCredentials,
        },
{
    if api_key.is_empty() || base_url.is_empty() {
        return Err(ModelsError::MissingCredentials);
    }
    Ok(
        ModelsRequest {
            url: join_texts(base_url, "/models"),
            authorization: join_texts("Bearer ", api_key),
        },
    )
}

/// The models among the entries of a list.
pub fn models_among(items: &Vec<JsonValue>) -> (models: Vec<ModelInfo>)
    ensures
        model_views(models@) == models_in(item_views(items@)),
{
    let mut models: Vec<ModelInfo> = Vec::new();
    let mut at: usize = 0;
    proof {
        lemma_item_views(items@);
    }
    while at < items.len()
        invariant
            at <= items@.len(),
            item_views(items@).len() == items@.len(),
            forall|i: int| 0 <= i < items@.len() ==> (#[trigger] item_views(items@)[i])
                == items@[i]@,
            model_views(models@) == models_in(item_views(items@).take(at as int)),
        decreases items@.len() - at,
    {
        proof {
            let docs = item_views(items@);
            assert(docs.take(at + 1).drop_last() =~= docs.take(at as int));
        }
        let entry = &items[at];
        match (entry.text_at("id"), entry.text_at("object")) {
            (Some(id), Some(object)) => {
                let model = ModelInfo { id: id.clone(), object: object.clone() };
                models.push(model);
            },
            _ => {},
        }
        at += 1;
    }
    proof {
        assert(item_views(items@).take(at as int) =~= item_views(items@));
    }
    models
}

/// The identifiers among the entries of a list.
pub fn ids_among(items: &Vec<JsonValue>) -> (ids: Vec<String>)
    ensures
        text_views(ids@) == ids_in(item_views(items@)),
{
    let mut ids: Vec<String> = Vec::new();
    let mut at: usize = 0;
    proof {
        lemma_item_views(items@);
    }
    while at < items.len()
        invariant
            at <= items@.len(),
            item_views(items@).len() == items@.len(),
            forall|i: int| 0 <= i < items@.len() ==> (#[trigger] item_views(items@)[i])
                == items@[i]@,
            text_views(ids@) == ids_in(item_views(items@).take(at as int)),
        decreases items@.len() - at,
    {
        proof {
            let docs = item_views(items@);
            assert(docs.take(at + 1).drop_last() =~= docs.take(at as int));
        }
        match items[at].text_at("id") {
            Some(id) => {
                let id = id.clone();
                ids.push(id);
            },
            None => {},
        }
        at += 1;
    }
    proof {
        assert(item_views(items@).take(at as int) =~= item_views(items@));
    }
    ids
}

/// The models that an answer lists. Refused where the answer is no JSON
/// document or holds no list under `data`.
pub fn models_from_response(text: &str) -> (result: Result<Vec<ModelInfo>, ModelsError>)
    ensures
        match result {
            Ok(models) => listed_models(json_document(text@)) == Some(model_views(models@)),
            Err(e) => listed_models(json_document(text@)) is None && e
                == ModelsError::InvalidFormat,
        },
{
    match JsonValue::parse(text) {
        Some(doc) => match doc.array_at("data") {
            Some(items) => Ok(models_among(items)),
            None => Err(ModelsError::InvalidFormat),
        },
        None => Err(ModelsError::InvalidFormat),
    }
}

/// The identifiers that an answer lists. Refused where the answer is no
/// JSON document or holds no list under `data`.
pub fn model_ids_from_response(text: &str) -> (result: Result<Vec<String>, ModelsError>)
    ensures
        match result {
            Ok(ids) => listed_ids(json_document(text@)) == Some(text_views(ids@)),
            Err(e) => listed_ids(json_document(text@)) is None && e == ModelsError::InvalidFormat,
        },
{
    match JsonValue::parse(text) {
        Some(doc) => match doc.array_at("data") {
            Some(items) => Ok(ids_among(items)),
            None => Err(ModelsError::InvalidFormat),
        },
        None => Err(ModelsError::InvalidFormat),
    }
}

/// Identifiers as a document.
pub fn model_ids_to_json(ids: &Vec<String>) -> (doc: JsonValue)
    ensures
        doc@ == ids_doc(text_views(ids@)),
{
    let mut items: Vec<JsonValue> = Vec::new();
    let mut at: usize = 0;
    while at < ids.len()
        invariant
            at <= ids@.len(),
            item_views(items@) == ids_doc(text_views(ids@).take(at as int))->Array_0,
        decreases ids@.len() - at,
    {
        push_item(&mut items, JsonValue::Text(ids[at].clone()));
        at += 1;
    }
    proof {
        assert(text_views(ids@).take(at as int) =~= text_views(ids@));
    }
    JsonValue::array(items)
}

/// The identifiers that a document stands for.
pub fn model_ids_from_json(doc: &JsonValue) -> (ids: Option<Vec<String>>)
    ensures
        match ids {
            Some(list) => ids_of(doc@) == Some(text_views(list@)),
            None => ids_of(doc@) is None,
        },
{
    let items = match doc.as_array() {
        Some(items) => items,
        None => {
            return None;
        },
    };
    let mut ids: Vec<String> = Vec::new();
    let mut at: usize = 0;
    proof {
        lemma_item_views(items@);
    }
    while at < items.len()
        invariant
            at <= items@.len(),
            doc@.as_array() == Some(item_views(items@)),
            item_views(items@).len() == items@.len(),
            forall|i: int| 0 <= i < items@.len() ==> (#[trigger] item_views(items@)[i])
                == items@[i]@,
            texts_of(item_views(items@).take(at as int)) == Some(text_views(ids@)),
        decreases items@.len() - at,
    {
        let ghost docs = item_views(items@);
        proof {
            assert(docs.take(at + 1).drop_last() =~= docs.take(at as int));
        }
        match items[at].as_str() {
            Some(id) => {
                let id = id.clone();
                ids.push(id);
            },
            None => {
                proof {
                    lemma_texts_of_prefix(docs, at + 1);
                }
                return None;
            },
        }
        at += 1;
    }
    proof {
        assert(item_views(items@).take(at as int) =~= item_views(items@));
    }
    Some(ids)
}

/// The text under which identifiers are kept.
pub fn model_ids_to_document(ids: &Vec<String>) -> (text: String)
    ensures
        text@ == json_pretty_text(ids_doc(text_views(ids@))),
{
    proof {
        lemma_ids_doc_written(text_views(ids@));
    }
    model_ids_to_json(ids).render_pretty()
}

/// The identifiers that a kept text stands for. Where there is no text, or
/// the text stands for no list of identifiers, there are none.
pub fn model_ids_from_document(text: Option<&str>) -> (ids: Vec<String>)
    ensures
        text_views(ids@) == match text {
            Some(t) => kept_ids(json_document(t@)),
            None => Seq::empty(),
        },
{
    let found = match text {
        Some(t) => match JsonValue::parse(t) {
            Some(doc) => model_ids_from_json(&doc),
            None => None,
        },
        None => None,
    };
    match found {
        Some(ids) => ids,
        None => {
            let ids: Vec<String> = Vec::new();
            ids
        },
    }
}

} // verus!
