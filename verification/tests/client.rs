use gettext_translator::languages::iso_to_name;
use gettext_translator::openai::backoff_wait_ms;
use gettext_translator::openai::client_step;
use gettext_translator::openai::strip_quote_pair;
use gettext_translator::openai::AiReponse;
use gettext_translator::openai::AiRequest;
use gettext_translator::openai::AttemptOutcome;
use gettext_translator::openai::ClientAction;
use gettext_translator::openai::ContentLine;
use gettext_translator::openai::ResponseContent;
use gettext_translator::openai::RetryState;
use gettext_translator::openai::MAX_RETRIES;
use gettext_translator::translator::build_translation_instructions;
use gettext_translator::translator::build_translation_prompt;
use gettext_translator::translator::build_catalog_request;

fn backoff_of(action: ClientAction) -> (u32, u64, String) {
    match action {
        ClientAction::Backoff { attempt, wait_ms, error } => (attempt, wait_ms, error),
        _ => panic!("expected a backoff action"),
    }
}

#[test]
fn three_failures_then_success_takes_four_attempts() {
    // attempts: three failed calls with backoff sleeps of 100, 200 and
    // 400 milliseconds, then the fourth call succeeds
    let mut state = RetryState::new();
    let mut waits: Vec<u64> = Vec::new();
    for _ in 0..3 {
        let action = client_step(&mut state, AttemptOutcome::Failure("timeout".to_string()));
        let (_, wait, _) = backoff_of(action);
        waits.push(wait);
    }
    assert_eq!(waits, vec![100, 200, 400]);
    let action = client_step(&mut state, AttemptOutcome::Success("Hello".to_string()));
    match action {
        ClientAction::Done(t) => assert_eq!(t, "Hello"),
        _ => panic!("expected the success payload"),
    }
    assert_eq!(state.failures, 3);
}

#[test]
fn six_failures_exhaust_the_retry_budget() {
    // with a budget of five retries the sixth consecutive failure is
    // fatal, not retried
    assert_eq!(MAX_RETRIES, 5);
    let mut state = RetryState::new();
    for k in 0..5u32 {
        let action = client_step(&mut state, AttemptOutcome::Failure("boom".to_string()));
        let (attempt, wait, error) = backoff_of(action);
        assert_eq!(attempt, k);
        assert_eq!(wait, 100 * (1u64 << k));
        assert_eq!(error, "boom");
    }
    let action = client_step(&mut state, AttemptOutcome::Failure("boom".to_string()));
    assert!(matches!(action, ClientAction::Exhausted));
    assert_eq!(state.failures, 5);
}

#[test]
fn success_on_first_attempt_needs_no_retry() {
    let mut state = RetryState::new();
    let action = client_step(&mut state, AttemptOutcome::Success("Hola".to_string()));
    assert!(matches!(action, ClientAction::Done(_)));
    assert_eq!(state.failures, 0);
}

#[test]
fn backoff_wait_doubles_per_failure() {
    assert_eq!(backoff_wait_ms(0), 100);
    assert_eq!(backoff_wait_ms(1), 200);
    assert_eq!(backoff_wait_ms(2), 400);
    assert_eq!(backoff_wait_ms(3), 800);
    assert_eq!(backoff_wait_ms(4), 1600);
    assert_eq!(backoff_wait_ms(5), 3200);
}

#[test]
fn strip_removes_one_surrounding_quote_pair() {
    assert_eq!(strip_quote_pair("\"Hello\""), "Hello");
    assert_eq!(strip_quote_pair("Hello"), "Hello");
    assert_eq!(strip_quote_pair("\"\""), "");
    assert_eq!(strip_quote_pair("\"\"Hello\"\""), "\"Hello\"");
    assert_eq!(strip_quote_pair("\"Hello"), "\"Hello");
    assert_eq!(strip_quote_pair("Hello\""), "Hello\"");
    assert_eq!(strip_quote_pair("\""), "\"");
    assert_eq!(strip_quote_pair(""), "");
}

#[test]
fn extraction_takes_the_first_content_line_and_strips_quotes() {
    let response = AiReponse {
        output: vec![ResponseContent {
            content: vec![
                ContentLine { text: "\"Bonjour\"".to_string() },
                ContentLine { text: "ignored".to_string() },
            ],
        }],
    };
    assert_eq!(response.extract_translation_result(), "Bonjour");
}

#[test]
fn request_carries_the_fixed_model() {
    let r = AiRequest::new("do this".to_string(), "that text".to_string());
    assert_eq!(r.model, "gpt-4o-mini");
    assert_eq!(r.instructions, "do this");
    assert_eq!(r.input, "that text");
}

#[test]
fn known_codes_map_to_language_names() {
    assert_eq!(iso_to_name("fr"), "French");
    assert_eq!(iso_to_name("es"), "Spanish");
    assert_eq!(iso_to_name("de"), "German");
    assert_eq!(iso_to_name("en"), "English");
    assert_eq!(iso_to_name("zu"), "Zulu");
    assert_eq!(iso_to_name("nb"), "Norwegian Bokm\u{e5}l");
}

#[test]
fn unknown_codes_fall_back_to_english() {
    assert_eq!(iso_to_name("xx"), "English");
    assert_eq!(iso_to_name(""), "English");
    assert_eq!(iso_to_name("fra"), "English");
    assert_eq!(iso_to_name("f"), "English");
}

#[test]
fn catalog_prompt_names_the_language_twice() {
    let p = build_translation_prompt("Hola", "French");
    let expected = format!(
        "Translate this gettext message to {}, preserving placeholders like `%{{...}}`.\n\n\t\tImportant:\n\t\t- If it's already in {}, just return the original text.\n\t\t- Just return the translation, do not add any other text or comments.\n\n\t\tText to translate:\n\t\t\"{}\"",
        "French", "French", "Hola"
    );
    assert_eq!(p, expected);
}

#[test]
fn catalog_instructions_name_the_language() {
    let i = build_translation_instructions("Spanish");
    assert_eq!(
        i,
        "You are a professional translator for gettext messages. You will translate the message to Spanish. You must preserve placeholder, written in the format `%{placeholder}`."
    );
}

#[test]
fn catalog_request_resolves_the_language_code() {
    let r = build_catalog_request("Hello", "es");
    assert_eq!(r.model, "gpt-4o-mini");
    assert_eq!(r.instructions, build_translation_instructions("Spanish"));
    assert_eq!(r.input, build_translation_prompt("Hello", "Spanish"));
}

#[test]
fn unknown_code_request_is_phrased_in_english() {
    let r = build_catalog_request("Hello", "zz");
    assert_eq!(r.instructions, build_translation_instructions("English"));
    assert_eq!(r.input, build_translation_prompt("Hello", "English"));
}
