//! The analysis of an image: what is checked before anything is sent, the
//! request that is sent, and what is decided at each step of sending it and
//! of reading the answer.
//!
//! Sending and receiving are not done here. `Analysis` says at each step
//! what is to be done next, and is told what came of it.

use crate::errors::{category_message, category_of, ErrorCategory};
use crate::json::{
    digits_end, is_number_text, item_views, lemma_written_items, lemma_written_members,
    member_views, push_item, push_member, written, written_items, written_members, JsonDoc,
    JsonValue,
};
use crate::profile::{
    default_prompt, default_prompt_text, text_of, Profile, ProfileConfigUpdateView, ProfileView,
    PromptMode, PromptModeView,
};
use crate::text::{join_texts, decimal, push_decimal, push_str, string_from_chars};
use vstd::prelude::*;

verus! {

/// Why an analysis failed.
#[derive(Debug, PartialEq, Eq)]
pub enum AnalysisError {
    /// The profile has no key or no endpoint.
    MissingCredentials,
    /// The profile has no model.
    MissingModel,
    /// The answer broke off while it was read.
    TransportFailure(String),
    /// No attempt reached the service. Holds what the last attempt failed with.
    AllAttemptsFailed(String),
    /// The service answered with a status that is no success. Holds the
    /// status and the body of the answer.
    HttpStatus(u16, String),
    /// The answer held no text.
    EmptyResponse,
}

/// What an `AnalysisError` holds.
pub enum AnalysisErrorView {
    MissingCredentials,
    MissingModel,
    TransportFailure(Seq<char>),
    AllAttemptsFailed(Seq<char>),
    HttpStatus(u16, Seq<char>),
    EmptyResponse,
}

impl View for AnalysisError {
    type V = AnalysisErrorView;

    open spec fn view(&self) -> AnalysisErrorView {
        match self {
            AnalysisError::MissingCredentials => AnalysisErrorView::MissingCredentials,
            AnalysisError::MissingModel => AnalysisErrorView::MissingModel,
            AnalysisError::TransportFailure(m) => AnalysisErrorView::TransportFailure(m@),
            AnalysisError::AllAttemptsFailed(m) => AnalysisErrorView::AllAttemptsFailed(m@),
            AnalysisError::HttpStatus(status, body) => AnalysisErrorView::HttpStatus(
                *status,
                body@,
            ),
            AnalysisError::EmptyResponse => AnalysisErrorView::EmptyResponse,
        }
    }
}

impl AnalysisErrorView {
    /// The error in words.
    pub open spec fn message(self) -> Seq<char> {
        match self {
            AnalysisErrorView::MissingCredentials => "API key and base URL are required"@,
            AnalysisErrorView::MissingModel => "Please select a model first"@,
            AnalysisErrorView::TransportFailure(m) => "Failed to read chunk: "@ + m,
            AnalysisErrorView::AllAttemptsFailed(m) =>
                "All 3 attempts failed. Last error: Request failed: "@ + m,
            AnalysisErrorView::HttpStatus(status, body) => "Analysis failed with status "@
                + decimal(status as nat) + ": "@ + body,
            AnalysisErrorView::EmptyResponse => "No content received from stream"@,
        }
    }

    /// The category of the error.
    pub open spec fn category(self) -> ErrorCategory {
        category_of(self.message())
    }

    /// What the user is told: what is missing in the profile in words, and
    /// every other error only by its category.
    pub open spec fn shown(self) -> Seq<char> {
        match self {
            AnalysisErrorView::MissingCredentials => self.message(),
            AnalysisErrorView::MissingModel => self.message(),
            _ => category_message(self.category()),
        }
    }
}

impl AnalysisError {
    /// The error in words.
    pub fn message(&self) -> (message: String)
        ensures
            message@ == self@.message(),
    {
        match self {
            AnalysisError::MissingCredentials => "API key and base URL are required".to_string(),
            AnalysisError::MissingModel => "Please select a model first".to_string(),
            AnalysisError::TransportFailure(m) => join_texts("Failed to read chunk: ", m.as_str()),
            AnalysisError::AllAttemptsFailed(m) => join_texts(
                "All 3 attempts failed. Last error: Request failed: ",
                m.as_str(),
            ),
            AnalysisError::HttpStatus(status, body) => {
                let mut text: Vec<char> = Vec::new();
                push_str(&mut text, "Analysis failed with status ");
                push_decimal(&mut text, *status);
                push_str(&mut text, ": ");
                push_str(&mut text, body.as_str());
                string_from_chars(text.as_slice())
            },
            AnalysisError::EmptyResponse => "No content received from stream".to_string(),
        }
    }

    /// The category of the error.
    pub fn category(&self) -> (category: ErrorCategory)
        ensures
            category == self@.category(),
    {
        let message = self.message();
        ErrorCategory::of(message.as_str())
    }

    /// What the user is told: what is missing in the profile in words, and
    /// every other error only by its category.
    pub fn shown(&self) -> (shown: String)
        ensures
            shown@ == self@.shown(),
    {
        match self {
            AnalysisError::MissingCredentials => self.message(),
            AnalysisError::MissingModel => self.message(),
            _ => self.category().message(),
        }
    }
}

/// A request for the analysis of an image.
#[derive(Debug, PartialEq, Eq)]
pub struct AnalysisRequest {
    /// Where the request is posted.
    pub url: String,
    /// The value of the `Authorization` header, where one is sent.
    pub authorization: Option<String>,
    /// The body of the request.
    pub body: JsonValue,
}

/// What an `AnalysisRequest` holds.
pub struct AnalysisRequestView {
    pub url: Seq<char>,
    pub authorization: Option<Seq<char>>,
    pub body: JsonDoc,
}

impl View for AnalysisRequest {
    type V = AnalysisRequestView;

    open spec fn view(&self) -> AnalysisRequestView {
        AnalysisRequestView {
            url: self.url@,
            authorization: text_of(self.authorization),
            body: self.body@,
        }
    }
}

/// What is wrong with a profile before anything is sent: no key or no
/// endpoint, else no model.
pub open spec fn validation_error(profile: ProfileView) -> Option<AnalysisErrorView> {
    if profile.api_config.api_key.len() == 0 || profile.api_config.base_url.len() == 0 {
        Some(AnalysisErrorView::MissingCredentials)
    } else if profile.api_config.model.len() == 0 {
        Some(AnalysisErrorView::MissingModel)
    } else {
        None
    }
}

/// The profile of a fresh configuration lacks nothing but the model: an
/// analysis under it ends with `MissingModel`, and once an update has given
/// it a model, and has left the key and the endpoint as they are, nothing
/// is lacking.
pub proof fn lemma_initial_profile_lacks_model(id: Seq<char>, update: ProfileConfigUpdateView)
    ensures
        validation_error(ProfileView::initial(id)) == Some(AnalysisErrorView::MissingModel),
        ({
            &&& update.model matches Some(model) && model.len() > 0
            &&& update.api_key is None
            &&& update.base_url is None
        }) ==> validation_error(ProfileView::initial(id).updated(update)) is None,
{
    reveal_strlit("ollama");
    reveal_strlit("http://210.126.8.197:11434/v1");
}

/// The prompt of a request: the one given with the request, else the one
/// that the profile holds, else the default prompt.
pub open spec fn resolved_prompt(profile: ProfileView, given: Option<Seq<char>>) -> Seq<char> {
    match given {
        Some(prompt) => prompt,
        None => match profile.prompt_mode {
            PromptModeView::Predefined(prompt) => prompt,
            PromptModeView::UserInput => default_prompt(),
        },
    }
}

/// The part of a message that holds the prompt.
pub open spec fn text_part(prompt: Seq<char>) -> JsonDoc {
    JsonDoc::Object(seq![("type"@, JsonDoc::Text("text"@)), ("text"@, JsonDoc::Text(prompt))])
}

/// The part of a message that refers to the image.
pub open spec fn image_part(image: Seq<char>) -> JsonDoc {
    JsonDoc::Object(
        seq![
            ("type"@, JsonDoc::Text("image_url"@)),
            ("image_url"@, JsonDoc::Object(seq![("url"@, JsonDoc::Text(image))])),
        ],
    )
}

/// The message of the user: the prompt and the image.
pub open spec fn user_message(prompt: Seq<char>, image: Seq<char>) -> JsonDoc {
    JsonDoc::Object(
        seq![
            ("role"@, JsonDoc::Text("user"@)),
            ("content"@, JsonDoc::Array(seq![text_part(prompt), image_part(image)])),
        ],
    )
}

/// The body of a request: one message of the user with the prompt and the
/// image, temperature and top-p both 1, and the answer asked for as a
/// stream.
pub open spec fn chat_request(model: Seq<char>, prompt: Seq<char>, image: Seq<char>) -> JsonDoc {
    JsonDoc::Object(
        seq![
            ("model"@, JsonDoc::Text(model)),
            ("messages"@, JsonDoc::Array(seq![user_message(prompt, image)])),
            ("temperature"@, JsonDoc::Number("1"@)),
            ("top_p"@, JsonDoc::Number("1"@)),
            ("stream"@, JsonDoc::Bool(true)),
        ],
    )
}

/// The body of a request holds no number but `1`, and so is written as it
/// stands.
pub proof fn lemma_chat_request_written(model: Seq<char>, prompt: Seq<char>, image: Seq<char>)
    ensures
        written(chat_request(model, prompt, image)) == chat_request(model, prompt, image),
{
    reveal_strlit("1");
    assert(is_number_text("1"@)) by {
        reveal_with_fuel(digits_end, 3);
    }
    let text = text_part(prompt)->Object_0;
    lemma_written_members(text);
    assert(written_members(text) =~= text);
    let url = seq![("url"@, JsonDoc::Text(image))];
    lemma_written_members(url);
    assert(written_members(url) =~= url);
    let picture = image_part(image)->Object_0;
    lemma_written_members(picture);
    assert(written_members(picture) =~= picture);
    let parts = seq![text_part(prompt), image_part(image)];
    lemma_written_items(parts);
    assert(written_items(parts) =~= parts);
    let message = user_message(prompt, image)->Object_0;
    lemma_written_members(message);
    assert(written_members(message) =~= message);
    let messages = seq![user_message(prompt, image)];
    lemma_written_items(messages);
    assert(written_items(messages) =~= messages);
    let members = chat_request(model, prompt, image)->Object_0;
    lemma_written_members(members);
    assert(written_members(members) =~= members);
}

/// The request for an image under a profile, or what is wrong with the
/// profile.
pub open spec fn request_of(profile: ProfileView, image: Seq<char>, given: Option<Seq<char>>)
    -> Result<AnalysisRequestView, AnalysisErrorView> {
    match validation_error(profile) {
        Some(e) => Err(e),
        None => Ok(
            AnalysisRequestView {
                url: profile.api_config.base_url + "/chat/completions"@,
                authorization: if profile.api_config.api_key.len() > 0 {
                    Some("Bearer "@ + profile.api_config.api_key)
                } else {
                    None
                },
                body: chat_request(
                    profile.api_config.model,
                    resolved_prompt(profile, given),
                    image,
                ),
            },
        ),
    }
}

/// Checks a profile before anything is sent.
pub fn validate(profile: &Profile) -> (result: Result<(), AnalysisError>)
    ensures
        match result {
            Ok(()) => validation_error(profile@) is None,
            Err(e) => validation_error(profile@) == Some(e@),
        },
{
    if profile.api_config.api_key.as_str().is_empty()
        || profile.api_config.base_url.as_str().is_empty() {
        Err(AnalysisError::MissingCredentials)
    } else if profile.api_config.model.as_str().is_empty() {
        Err(AnalysisError::MissingModel)
    } else {
        Ok(())
    }
}

/// The prompt of a request.
pub fn resolve_prompt(profile: &Profile, given: Option<String>) -> (prompt: String)
    ensures
        prompt@ == resolved_prompt(profile@, text_of(given)),
{
    match given {
        Some(prompt) => prompt,
        None => match &profile.prompt_mode {
            PromptMode::Predefined(prompt) => prompt.clone(),
            PromptMode::UserInput => default_prompt_text(),
        },
    }
}

/// The body of a request.
pub fn chat_request_body(model: &str, prompt: &str, image: &str) -> (body: JsonValue)
    ensures
        body@ == chat_request(model@, prompt@, image@),
{
    let mut members: Vec<(String, JsonValue)> = Vec::new();
    push_member(&mut members, "type", JsonValue::text("text"));
    push_member(&mut members, "text", JsonValue::text(prompt));
    assert(member_views(members@) =~= text_part(prompt@)->Object_0);
    let text = JsonValue::object(members);

    let mut members: Vec<(String, JsonValue)> = Vec::new();
    push_member(&mut members, "url", JsonValue::text(image));
    let url = JsonValue::object(members);
    let mut members: Vec<(String, JsonValue)> = Vec::new();
    push_member(&mut members, "type", JsonValue::text("image_url"));
    push_member(&mut members, "image_url", url);
    assert(member_views(members@) =~= image_part(image@)->Object_0);
    let picture = JsonValue::object(members);

    let mut items: Vec<JsonValue> = Vec::new();
    push_item(&mut items, text);
    push_item(&mut items, picture);
    assert(item_views(items@) =~= seq![text_part(prompt@), image_part(image@)]);
    let parts = JsonValue::array(items);

    let mut members: Vec<(String, JsonValue)> = Vec::new();
    push_member(&mut members, "role", JsonValue::text("user"));
    push_member(&mut members, "content", parts);
    assert(member_views(members@) =~= user_message(prompt@, image@)->Object_0);
    let message = JsonValue::object(members);
    let mut items: Vec<JsonValue> = Vec::new();
    push_item(&mut items, message);
    let messages = JsonValue::array(items);

    let mut members: Vec<(String, JsonValue)> = Vec::new();
    push_member(&mut members, "model", JsonValue::text(model));
    push_member(&mut members, "messages", messages);
    push_member(&mut members, "temperature", JsonValue::Number("1".to_string()));
    push_member(&mut members, "top_p", JsonValue::Number("1".to_string()));
    push_member(&mut members, "stream", JsonValue::Bool(true));
    assert(member_views(members@) =~= chat_request(model@, prompt@, image@)->Object_0);
    JsonValue::object(members)
}

/// The request for an image under a profile. Nothing is sent where the
/// profile has no key, no endpoint or no model.
pub fn prepare_request(profile: &Profile, image: &str, given: Option<String>) -> (result: Result<
    AnalysisRequest,
    AnalysisError,
>)
    ensures
        match result {
            Ok(request) => request_of(profile@, image@, text_of(given)) == Ok::<
                AnalysisRequestView,
                AnalysisErrorView,
            >(request@),
            Err(e) => request_of(profile@, image@, text_of(given)) == Err::<
                AnalysisRequestView,
                AnalysisErrorView,
            >(e@),
        },
{
    match validate(profile) {
        Ok(()) => {},
        Err(e) => {
            return Err(e);
        },
    }
    let url = join_texts(profile.api_config.base_url.as_str(), "/chat/completions");
    let authorization = if profile.api_config.api_key.as_str().is_empty() {
        None
    } else {
        Some(join_texts("Bearer ", profile.api_config.api_key.as_str()))
    };
    let prompt = resolve_prompt(profile, given);
    let body = chat_request_body(profile.api_config.model.as_str(), prompt.as_str(), image);
    Ok(AnalysisRequest { url, authorization, body })
}

} // verus!
