use mathimage::analysis::{chat_request_body, prepare_request, resolve_prompt, validate};
use mathimage::pipeline::finish_stream;
use mathimage::{
    analyze, Analysis, AnalysisAction, AnalysisError, AnalysisEvent, Config, ErrorCategory,
    JsonValue, Profile, ProfileConfigUpdate, PromptMode, SseParser,
};

const DEFAULT_PROMPT: &str = "识别公式和文字，返回使用pandoc语法的markdown排版内容。公式请用katex语法包裹，文字内容不要丢失。只返回内容不需要其他解释。";

fn ready() -> Profile {
    let mut profile = Profile::fresh("id".to_string(), "p".to_string());
    profile.api_config.base_url = "http://host/v1".to_string();
    profile.api_config.api_key = "sk".to_string();
    profile.api_config.model = "gpt-4o".to_string();
    profile
}

fn run(events: Vec<AnalysisEvent>) -> (Analysis, Vec<AnalysisAction>) {
    let mut analysis = Analysis::begin();
    let mut actions = vec![analysis.action()];
    for event in events {
        analysis = analysis.advance(event);
        actions.push(analysis.action());
    }
    (analysis, actions)
}

fn sends(actions: &[AnalysisAction]) -> usize {
    let mut count = 0;
    for (i, action) in actions.iter().enumerate() {
        if *action == AnalysisAction::Send && (i == 0 || actions[i - 1] != AnalysisAction::Send) {
            count += 1;
        }
    }
    count
}

#[test]
fn a_profile_without_key_or_endpoint_is_refused() {
    let mut profile = ready();
    profile.api_config.api_key = String::new();
    assert_eq!(validate(&profile), Err(AnalysisError::MissingCredentials));
    let mut profile = ready();
    profile.api_config.base_url = String::new();
    assert_eq!(validate(&profile), Err(AnalysisError::MissingCredentials));
    profile.api_config.model = String::new();
    assert_eq!(validate(&profile), Err(AnalysisError::MissingCredentials));
    assert_eq!(
        prepare_request(&profile, "data:image/png;base64,AAAA", None),
        Err(AnalysisError::MissingCredentials)
    );
}

#[test]
fn a_profile_without_model_is_refused() {
    let mut profile = ready();
    profile.api_config.model = String::new();
    assert_eq!(validate(&profile), Err(AnalysisError::MissingModel));
    assert_eq!(prepare_request(&profile, "img", None), Err(AnalysisError::MissingModel));
    assert_eq!(validate(&ready()), Ok(()));
}

#[test]
fn the_prompt_is_the_given_one_or_the_profile_s() {
    let mut profile = ready();
    assert_eq!(resolve_prompt(&profile, None), DEFAULT_PROMPT);
    profile.prompt_mode = PromptMode::Predefined("read it".to_string());
    assert_eq!(resolve_prompt(&profile, None), "read it");
    assert_eq!(resolve_prompt(&profile, Some("mine".to_string())), "mine");
    profile.prompt_mode = PromptMode::UserInput;
    assert_eq!(resolve_prompt(&profile, None), DEFAULT_PROMPT);
    assert_eq!(resolve_prompt(&profile, Some("typed".to_string())), "typed");
}

#[test]
fn the_request_goes_to_the_completions_endpoint() {
    let mut profile = ready();
    profile.prompt_mode = PromptMode::Predefined("read it".to_string());
    let request = prepare_request(&profile, "data:image/png;base64,AAAA", None).unwrap();
    assert_eq!(request.url, "http://host/v1/chat/completions");
    assert_eq!(request.authorization, Some("Bearer sk".to_string()));
    assert_eq!(
        request.body.render(),
        "{\"messages\":[{\"content\":[{\"text\":\"read it\",\"type\":\"text\"},{\"image_url\":{\"url\":\"data:image/png;base64,AAAA\"},\"type\":\"image_url\"}],\"role\":\"user\"}],\"model\":\"gpt-4o\",\"stream\":true,\"temperature\":1,\"top_p\":1}"
    );
    assert_eq!(request.body, chat_request_body("gpt-4o", "read it", "data:image/png;base64,AAAA"));
}

#[test]
fn the_body_of_a_request_has_its_members_in_order() {
    let body = chat_request_body("m", "p", "i");
    let expected = JsonValue::Object(vec![
        ("model".to_string(), JsonValue::text("m")),
        (
            "messages".to_string(),
            JsonValue::Array(vec![JsonValue::Object(vec![
                ("role".to_string(), JsonValue::text("user")),
                (
                    "content".to_string(),
                    JsonValue::Array(vec![
                        JsonValue::Object(vec![
                            ("type".to_string(), JsonValue::text("text")),
                            ("text".to_string(), JsonValue::text("p")),
                        ]),
                        JsonValue::Object(vec![
                            ("type".to_string(), JsonValue::text("image_url")),
                            (
                                "image_url".to_string(),
                                JsonValue::Object(vec![("url".to_string(), JsonValue::text("i"))]),
                            ),
                        ]),
                    ]),
                ),
            ])]),
        ),
        ("temperature".to_string(), JsonValue::Number("1".to_string())),
        ("top_p".to_string(), JsonValue::Number("1".to_string())),
        ("stream".to_string(), JsonValue::Bool(true)),
    ]);
    assert_eq!(body, expected);
}

#[test]
fn two_failures_and_a_success_take_three_attempts() {
    let (analysis, actions) = run(vec![
        AnalysisEvent::TransportFailed("refused".to_string()),
        AnalysisEvent::DelayElapsed,
        AnalysisEvent::TransportFailed("refused again".to_string()),
        AnalysisEvent::DelayElapsed,
        AnalysisEvent::Responded(200),
        AnalysisEvent::Chunk(b"data: {\"choices\":[{\"delta\":{\"content\":\"ok\"}}]}\n".to_vec()),
        AnalysisEvent::StreamEnded,
    ]);
    assert_eq!(
        actions,
        vec![
            AnalysisAction::Send,
            AnalysisAction::Wait(2),
            AnalysisAction::Send,
            AnalysisAction::Wait(2),
            AnalysisAction::Send,
            AnalysisAction::ReadChunk,
            AnalysisAction::ReadChunk,
            AnalysisAction::Stop,
        ]
    );
    assert_eq!(sends(&actions), 3);
    assert_eq!(analysis.attempts(), 3);
    assert_eq!(analysis.into_result(), Some(Ok("ok".to_string())));
}

#[test]
fn three_failures_end_the_analysis() {
    let (analysis, actions) = run(vec![
        AnalysisEvent::TransportFailed("one".to_string()),
        AnalysisEvent::DelayElapsed,
        AnalysisEvent::TransportFailed("two".to_string()),
        AnalysisEvent::DelayElapsed,
        AnalysisEvent::TransportFailed("three".to_string()),
    ]);
    assert_eq!(
        actions,
        vec![
            AnalysisAction::Send,
            AnalysisAction::Wait(2),
            AnalysisAction::Send,
            AnalysisAction::Wait(2),
            AnalysisAction::Send,
            AnalysisAction::Stop,
        ]
    );
    assert_eq!(analysis.attempts(), 3);
    assert_eq!(
        analysis.into_result(),
        Some(Err(AnalysisError::AllAttemptsFailed("three".to_string())))
    );
}

#[test]
fn nothing_is_sent_a_fourth_time() {
    let mut events = Vec::new();
    for i in 0..10 {
        events.push(AnalysisEvent::TransportFailed(format!("{}", i)));
        events.push(AnalysisEvent::DelayElapsed);
        events.push(AnalysisEvent::Responded(200));
    }
    let (analysis, actions) = run(events);
    assert!(sends(&actions) <= 3);
    assert!(analysis.attempts() <= 3);
}

#[test]
fn a_status_that_is_no_success_is_not_tried_again() {
    let (analysis, actions) = run(vec![
        AnalysisEvent::Responded(401),
        AnalysisEvent::ErrorBody("denied".to_string()),
    ]);
    assert_eq!(
        actions,
        vec![AnalysisAction::Send, AnalysisAction::ReadErrorBody, AnalysisAction::Stop]
    );
    assert_eq!(analysis.attempts(), 1);
    let error = AnalysisError::HttpStatus(401, "denied".to_string());
    assert_eq!(error.message(), "Analysis failed with status 401: denied");
    assert_eq!(error.category(), ErrorCategory::Authentication);
    assert_eq!(analysis.into_result(), Some(Err(error)));
    for status in [199u16, 300, 404, 500] {
        let (analysis, _) = run(vec![AnalysisEvent::Responded(status)]);
        assert_eq!(analysis.action(), AnalysisAction::ReadErrorBody);
    }
    for status in [200u16, 204, 299] {
        let (analysis, _) = run(vec![AnalysisEvent::Responded(status)]);
        assert_eq!(analysis.action(), AnalysisAction::ReadChunk);
    }
}

#[test]
fn a_stream_without_text_is_an_empty_response() {
    let (analysis, _) = run(vec![
        AnalysisEvent::Responded(200),
        AnalysisEvent::Chunk(b"data: [DONE]\n".to_vec()),
        AnalysisEvent::StreamEnded,
    ]);
    assert_eq!(analysis.attempts(), 1);
    assert_eq!(analysis.into_result(), Some(Err(AnalysisError::EmptyResponse)));
    assert_eq!(finish_stream(&SseParser::new()), Err(AnalysisError::EmptyResponse));
}

#[test]
fn a_broken_stream_is_not_tried_again() {
    let (analysis, actions) = run(vec![
        AnalysisEvent::Responded(200),
        AnalysisEvent::Chunk(b"data: {\"choices\":[{\"delta\":{\"content\":\"par".to_vec()),
        AnalysisEvent::ChunkFailed("reset".to_string()),
        AnalysisEvent::DelayElapsed,
    ]);
    assert_eq!(sends(&actions), 1);
    assert_eq!(
        analysis.into_result(),
        Some(Err(AnalysisError::TransportFailure("reset".to_string())))
    );
}

#[test]
fn an_event_out_of_turn_changes_nothing() {
    let (analysis, actions) = run(vec![
        AnalysisEvent::DelayElapsed,
        AnalysisEvent::StreamEnded,
        AnalysisEvent::Chunk(vec![1]),
        AnalysisEvent::ErrorBody("x".to_string()),
        AnalysisEvent::ChunkFailed("x".to_string()),
    ]);
    assert_eq!(actions, vec![AnalysisAction::Send; 6]);
    assert_eq!(analysis.attempts(), 1);
    assert_eq!(analysis.into_result(), None);
    let (analysis, _) = run(vec![
        AnalysisEvent::TransportFailed("a".to_string()),
        AnalysisEvent::TransportFailed("b".to_string()),
        AnalysisEvent::Responded(200),
    ]);
    assert_eq!(analysis.action(), AnalysisAction::Wait(2));
    assert_eq!(analysis.attempts(), 1);
}

#[test]
fn errors_are_put_in_words_and_categories() {
    assert_eq!(AnalysisError::MissingCredentials.message(), "API key and base URL are required");
    assert_eq!(AnalysisError::MissingModel.message(), "Please select a model first");
    assert_eq!(AnalysisError::EmptyResponse.message(), "No content received from stream");
    assert_eq!(
        AnalysisError::AllAttemptsFailed("Connection refused".to_string()).message(),
        "All 3 attempts failed. Last error: Request failed: Connection refused"
    );
    assert_eq!(
        AnalysisError::TransportFailure("eof".to_string()).message(),
        "Failed to read chunk: eof"
    );
    assert_eq!(AnalysisError::HttpStatus(0, String::new()).message(), "Analysis failed with status 0: ");
    assert_eq!(
        AnalysisError::HttpStatus(65535, "b".to_string()).message(),
        "Analysis failed with status 65535: b"
    );
    assert_eq!(
        AnalysisError::AllAttemptsFailed("Connection refused".to_string()).category(),
        ErrorCategory::Network
    );
    assert_eq!(AnalysisError::HttpStatus(404, String::new()).category(), ErrorCategory::NotFound);
    assert_eq!(AnalysisError::HttpStatus(503, String::new()).category(), ErrorCategory::Server);
    assert_eq!(AnalysisError::HttpStatus(418, String::new()).category(), ErrorCategory::Other);
    assert_eq!(AnalysisError::MissingModel.category(), ErrorCategory::Other);
}

#[test]
fn the_default_store_needs_a_model_before_it_can_analyse() {
    let frame = b"data: {\"choices\":[{\"delta\":{\"content\":\"E = mc^2\"}}]}\ndata: [DONE]\n".to_vec();
    let transport = || {
        vec![
            AnalysisEvent::Responded(200),
            AnalysisEvent::Chunk(frame.clone()),
            AnalysisEvent::StreamEnded,
        ]
    };

    let mut config = Config::default();
    assert_eq!(config.profiles.len(), 1);
    let profile = config.get_active_profile().unwrap();
    assert_eq!(profile.name, "默认配置");
    assert_eq!(profile.api_config.model, "");
    assert_eq!(validate(&profile), Err(AnalysisError::MissingModel));
    assert_eq!(
        prepare_request(&profile, "data:image/png;base64,AA", None),
        Err(AnalysisError::MissingModel)
    );
    let outcome = analyze(&profile, "data:image/png;base64,AA", None, transport());
    assert_eq!(outcome.attempts, 0);
    assert_eq!(outcome.result, Some(Err(AnalysisError::MissingModel)));

    let update = ProfileConfigUpdate { model: Some("gpt-4o".to_string()), ..ProfileConfigUpdate::default() };
    assert_eq!(config.update_active_profile_config(update), Ok(()));
    let profile = config.get_active_profile().unwrap();
    let request = prepare_request(&profile, "data:image/png;base64,AA", None).unwrap();
    assert_eq!(request.url, "http://210.126.8.197:11434/v1/chat/completions");
    assert_eq!(request.authorization, Some("Bearer ollama".to_string()));
    assert_eq!(
        request.body,
        chat_request_body("gpt-4o", DEFAULT_PROMPT, "data:image/png;base64,AA")
    );
    let outcome = analyze(&profile, "data:image/png;base64,AA", None, transport());
    assert_eq!(outcome.attempts, 1);
    assert_eq!(outcome.result, Some(Ok("E = mc^2".to_string())));
}

#[test]
fn a_kept_configuration_without_a_model_also_needs_one() {
    let config = Config::load(None);
    let profile = config.get_active_profile().unwrap();
    assert_eq!(validate(&profile), Err(AnalysisError::MissingModel));
    let created = Profile::fresh("id".to_string(), "work".to_string());
    assert_eq!(created.api_config.api_key, "");
    assert_eq!(validate(&created), Err(AnalysisError::MissingCredentials));
}

#[test]
fn an_analysis_is_played_against_a_given_transport() {
    let frame = b"data: {\"choices\":[{\"delta\":{\"content\":\"E = mc^2\"}}]}\n\ndata: [DONE]\n".to_vec();
    let failing = || AnalysisEvent::TransportFailed("Connection refused".to_string());

    let outcome = analyze(
        &ready(),
        "img",
        None,
        vec![
            failing(),
            AnalysisEvent::DelayElapsed,
            failing(),
            AnalysisEvent::DelayElapsed,
            AnalysisEvent::Responded(200),
            AnalysisEvent::Chunk(frame.clone()),
            AnalysisEvent::StreamEnded,
        ],
    );
    assert_eq!(outcome.attempts, 3);
    assert_eq!(outcome.result, Some(Ok("E = mc^2".to_string())));

    let outcome = analyze(
        &ready(),
        "img",
        None,
        vec![failing(), AnalysisEvent::DelayElapsed, failing(), AnalysisEvent::DelayElapsed, failing()],
    );
    assert_eq!(outcome.attempts, 3);
    assert_eq!(
        outcome.result,
        Some(Err(AnalysisError::AllAttemptsFailed("Connection refused".to_string())))
    );

    let outcome = analyze(&ready(), "img", None, vec![failing()]);
    assert_eq!(outcome.attempts, 1);
    assert_eq!(outcome.result, None);

    let mut unready = ready();
    unready.api_config.model = String::new();
    let outcome = analyze(
        &unready,
        "img",
        None,
        vec![AnalysisEvent::Responded(200), AnalysisEvent::Chunk(frame), AnalysisEvent::StreamEnded],
    );
    assert_eq!(outcome.attempts, 0);
    assert_eq!(outcome.result, Some(Err(AnalysisError::MissingModel)));
}
