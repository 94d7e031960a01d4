use gettext_translator::inline::apply_inline_translations;
use gettext_translator::inline::build_translation_prompt;
use gettext_translator::inline::build_translation_request;
use gettext_translator::inline::find_gettext_matches;
use gettext_translator::inline::match_payload;

fn chars(s: &str) -> Vec<char> {
    s.chars().collect()
}

fn text(v: &Vec<char>) -> String {
    v.iter().collect()
}

fn payloads(content: &Vec<char>) -> Vec<String> {
    find_gettext_matches(content)
        .iter()
        .map(|m| text(&match_payload(content, m)))
        .collect()
}

#[test]
fn finds_a_simple_call() {
    let content = chars("gettext(\"Hola\")");
    let ms = find_gettext_matches(&content);
    assert_eq!(ms.len(), 1);
    assert_eq!(ms[0].start, 0);
    assert_eq!(ms[0].end, content.len());
    assert_eq!(text(&match_payload(&content, &ms[0])), "Hola");
}

#[test]
fn translates_inline_payload() {
    let content = chars("gettext(\"Hola\")");
    let ms = find_gettext_matches(&content);
    let (out, changed) = apply_inline_translations(&content, &ms, &vec![chars("Hello")]);
    assert!(changed);
    assert_eq!(text(&out), "gettext(\"Hello\")");
}

#[test]
fn second_scan_of_translated_output_changes_nothing() {
    // once the text is English, a client that echoes English input leaves
    // the content as it was
    let content = chars("gettext(\"Hola\")");
    let ms = find_gettext_matches(&content);
    let (out, changed) = apply_inline_translations(&content, &ms, &vec![chars("Hello")]);
    assert!(changed);
    let ms2 = find_gettext_matches(&out);
    assert_eq!(ms2.len(), 1);
    let echoed = match_payload(&out, &ms2[0]);
    assert_eq!(text(&echoed), "Hello");
    let (out2, changed2) = apply_inline_translations(&out, &ms2, &vec![echoed]);
    assert!(!changed2);
    assert_eq!(text(&out2), text(&out));
}

#[test]
fn whitespace_between_tokens_is_accepted() {
    let content = chars("gettext  ( \t\"Hola\" )");
    assert_eq!(payloads(&content), vec!["Hola".to_string()]);
}

#[test]
fn trailing_arguments_are_accepted() {
    let content = chars("gettext(\"Hola\", count: 3)");
    let ms = find_gettext_matches(&content);
    assert_eq!(ms.len(), 1);
    assert_eq!(ms[0].end, content.len());
    let (out, changed) = apply_inline_translations(&content, &ms, &vec![chars("Hello")]);
    assert!(changed);
    assert_eq!(text(&out), "gettext(\"Hello\", count: 3)");
}

#[test]
fn escaped_quotes_stay_inside_the_payload() {
    let content = chars("gettext(\"He said \\\"hi\\\"\")");
    assert_eq!(payloads(&content), vec!["He said \\\"hi\\\"".to_string()]);
}

#[test]
fn unterminated_literal_does_not_match() {
    let content = chars("gettext(\"Hola");
    assert_eq!(find_gettext_matches(&content).len(), 0);
}

#[test]
fn missing_close_paren_after_comma_does_not_match() {
    let content = chars("gettext(\"Hola\", rest");
    assert_eq!(find_gettext_matches(&content).len(), 0);
}

#[test]
fn call_without_string_argument_does_not_match() {
    let content = chars("gettext(name)");
    assert_eq!(find_gettext_matches(&content).len(), 0);
}

#[test]
fn matches_inside_longer_names_are_found() {
    // the pattern has no word boundary: `dgettext(...)` holds a match
    // starting at its second character
    let content = chars("dgettext(\"Hola\")");
    let ms = find_gettext_matches(&content);
    assert_eq!(ms.len(), 1);
    assert_eq!(ms[0].start, 1);
}

#[test]
fn several_calls_are_found_left_to_right() {
    let content = chars("a gettext(\"uno\") b gettext(\"dos\") c");
    assert_eq!(payloads(&content), vec!["uno".to_string(), "dos".to_string()]);
    let ms = find_gettext_matches(&content);
    let (out, changed) =
        apply_inline_translations(&content, &ms, &vec![chars("one"), chars("two")]);
    assert!(changed);
    assert_eq!(text(&out), "a gettext(\"one\") b gettext(\"two\") c");
}

#[test]
fn only_the_payload_occurrence_is_replaced() {
    // the same text outside the payload range is left alone
    let content = chars("x = gettext(\"abc\"); // abc");
    let ms = find_gettext_matches(&content);
    let (out, changed) = apply_inline_translations(&content, &ms, &vec![chars("xyz")]);
    assert!(changed);
    assert_eq!(text(&out), "x = gettext(\"xyz\"); // abc");
}

#[test]
fn equal_translation_reports_no_change() {
    let content = chars("gettext(\"Hello\")");
    let ms = find_gettext_matches(&content);
    let (out, changed) = apply_inline_translations(&content, &ms, &vec![chars("Hello")]);
    assert!(!changed);
    assert_eq!(text(&out), "gettext(\"Hello\")");
}

#[test]
fn one_changed_payload_among_equal_ones_reports_a_change() {
    let content = chars("gettext(\"a\") gettext(\"b\")");
    let ms = find_gettext_matches(&content);
    let (out, changed) = apply_inline_translations(&content, &ms, &vec![chars("a"), chars("c")]);
    assert!(changed);
    assert_eq!(text(&out), "gettext(\"a\") gettext(\"c\")");
}

#[test]
fn empty_payload_is_matched_and_replaced() {
    let content = chars("gettext(\"\")");
    let ms = find_gettext_matches(&content);
    assert_eq!(ms.len(), 1);
    assert_eq!(text(&match_payload(&content, &ms[0])), "");
    let (out, changed) = apply_inline_translations(&content, &ms, &vec![chars("hi")]);
    assert!(changed);
    assert_eq!(text(&out), "gettext(\"hi\")");
}

#[test]
fn backslash_before_line_break_does_not_match() {
    let content = chars("gettext(\"a\\\nb\")");
    assert_eq!(find_gettext_matches(&content).len(), 0);
}

#[test]
fn inline_prompt_carries_the_input() {
    let p = build_translation_prompt("Hola");
    let expected = format!(
        "Translate this gettext message to English, preserving placeholders like `%{{...}}`.\n\n\t\tImportant:\n\t\t- If it's already in English, just return the original text.\n\t\t- Just return the translation, do not add any other text or comments.\n\n\t\tText to translate:\n\t\t\"{}\"",
        "Hola"
    );
    assert_eq!(p, expected);
}

#[test]
fn inline_request_uses_the_fixed_model_and_instructions() {
    let r = build_translation_request("prompt text".to_string());
    assert_eq!(r.model, "gpt-4o-mini");
    assert_eq!(
        r.instructions,
        "You are a professional translator for gettext messages. You will translate the message to English. You must preserve placeholder, written in the format `%{placeholder}`."
    );
    assert_eq!(r.input, "prompt text");
}
