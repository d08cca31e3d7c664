use auto_gippity::helpers::general::{
    authorization_value, decode_string_list, extend_ai_function, function_printer_message,
    settle_llm_reply, LlmAttempt, LlmStep,
};

fn print_user_input_as_scope(_user_request: &str) -> &'static str {
    "pub fn print_user_input_as_scope(_user_request: &str) { /// Input: Takes in a user request \
     /// Function: Converts user request into a short summarized goal println!(OUTPUT) }"
}

#[test]
fn tests_extending_ai_function() {
    let extended_msg = extend_ai_function(print_user_input_as_scope, "dummy variable");
    assert_eq!(extended_msg.role, "system".to_string());
}

#[test]
fn extended_message_embeds_function_and_input() {
    let msg = extend_ai_function(print_user_input_as_scope, "dummy variable");
    let expected = format!(
        "FUNCTION: {}\n        INSTRUCTION: You are a function printer. You ONLY print the results of functions.\n        Nothing else. No commentary. Here is the input to the function: {}.\n        Print out what the function will return.",
        print_user_input_as_scope("dummy variable"),
        "dummy variable"
    );
    assert_eq!(msg.content, expected);
}

#[test]
fn function_printer_message_exact_text() {
    let msg = function_printer_message("fn f()", "x");
    assert_eq!(msg.role, "system");
    assert_eq!(
        msg.content,
        "FUNCTION: fn f()\n        INSTRUCTION: You are a function printer. You ONLY print the results of functions.\n        Nothing else. No commentary. Here is the input to the function: x.\n        Print out what the function will return."
    );
}

#[test]
fn successful_reply_is_the_answer() {
    match settle_llm_reply(LlmAttempt::First, Some("hello".to_string())) {
        LlmStep::Answer(a) => assert_eq!(a, "hello"),
        _ => panic!("expected an answer"),
    }
    match settle_llm_reply(LlmAttempt::Retry, Some("again".to_string())) {
        LlmStep::Answer(a) => assert_eq!(a, "again"),
        _ => panic!("expected an answer"),
    }
}

#[test]
fn failed_first_call_is_retried_once() {
    assert!(matches!(settle_llm_reply(LlmAttempt::First, None), LlmStep::CallAgain));
    assert!(matches!(settle_llm_reply(LlmAttempt::Retry, None), LlmStep::GiveUp));
}

#[test]
fn authorization_header_is_bearer_key() {
    assert_eq!(authorization_value("sk-123"), "Bearer sk-123");
    assert_eq!(authorization_value(""), "Bearer ");
}

#[test]
fn decodes_a_json_list_of_urls() {
    let urls = decode_string_list(r#"["http://worldtimeapi.org/api/timezone", "https://example.com"]"#);
    assert_eq!(
        urls,
        Some(vec![
            "http://worldtimeapi.org/api/timezone".to_string(),
            "https://example.com".to_string()
        ])
    );
}

#[test]
fn rejects_text_that_is_not_a_list_of_strings() {
    assert_eq!(decode_string_list("not json"), None);
    assert_eq!(decode_string_list("[1, 2]"), None);
    assert_eq!(decode_string_list(r#"{"a": "b"}"#), None);
    assert_eq!(decode_string_list("[]"), Some(vec![]));
}
