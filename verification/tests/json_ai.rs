use ruva::ai::{ai_reply_text, ai_request, reply_text, AiOutcome, AiRequest, ReplyFields, Shell};
use ruva::json::{command_json, shutdown_command_json, tabs_json};
use ruva::tab::Tab;

#[test]
fn tabs_json_matches_serde_json() {
    let tabs = vec![
        Tab { id: "a".into(), url: "https://x/\"q\"".into(), title: "T\n".into(), active: true },
        Tab { id: "b".into(), url: String::new(), title: "New Tab".into(), active: false },
    ];
    let expected: Vec<serde_json::Value> = tabs
        .iter()
        .map(|t| {
            let mut m = serde_json::Map::new();
            m.insert("id".into(), serde_json::Value::String(t.id.clone()));
            m.insert("title".into(), serde_json::Value::String(t.title.clone()));
            m.insert("url".into(), serde_json::Value::String(t.url.clone()));
            m.insert("active".into(), serde_json::Value::Bool(t.active));
            serde_json::Value::Object(m)
        })
        .collect();
    assert_eq!(tabs_json(&tabs), serde_json::to_string(&expected).unwrap());
    assert_eq!(tabs_json(&Vec::new()), "[]");
}

#[test]
fn backend_command_json() {
    assert_eq!(command_json("navigate", "url", "https://a"), "{\"cmd\":\"navigate\",\"url\":\"https://a\"}");
    assert_eq!(command_json("execute_js", "js", "a('b')\n"), "{\"cmd\":\"execute_js\",\"js\":\"a('b')\\n\"}");
    assert_eq!(shutdown_command_json(), "{\"cmd\":\"shutdown\"}");
}

#[test]
fn ai_request_without_key_answers_at_once() {
    match ai_request(Shell::WindowsChromium, "", "m", "p") {
        AiRequest::Answer(t) => assert_eq!(t, "\u{26a0}\u{fe0f} API key not set"),
        AiRequest::Send { .. } => panic!("sent without a key"),
    }
    match ai_request(Shell::Windows, "", "m", "p") {
        AiRequest::Answer(t) => assert!(t.ends_with("add an OpenRouter API key.")),
        AiRequest::Send { .. } => panic!("sent without a key"),
    }
}

#[test]
fn ai_request_body_and_header() {
    match ai_request(Shell::Linux, "sk", "openrouter/free", "hi \"you\"") {
        AiRequest::Send { body, auth } => {
            assert_eq!(auth, "Authorization: Bearer sk");
            assert_eq!(
                body,
                "{\"max_tokens\":256,\"messages\":[{\"content\":\"hi \\\"you\\\"\",\"role\":\"user\"}],\"model\":\"openrouter/free\"}"
            );
        }
        AiRequest::Answer(_) => panic!("key was set"),
    }
}

#[test]
fn reply_text_prefers_content_then_reasoning_then_error() {
    let raw = "{\"choices\":[{\"message\":{\"content\":\"C\",\"reasoning\":\"R\"}}]}".to_string();
    assert_eq!(ai_reply_text(Shell::Linux, AiOutcome::Replied(raw)), "C");
    let raw = "{\"choices\":[{\"message\":{\"reasoning\":\"R\"}}]}".to_string();
    assert_eq!(ai_reply_text(Shell::Linux, AiOutcome::Replied(raw)), "R");
    let raw = "{\"error\":{\"message\":\"bad\"}}".to_string();
    assert_eq!(ai_reply_text(Shell::Windows, AiOutcome::Replied(raw)), "\u{26a0}\u{fe0f} bad");
    let raw = "{}".to_string();
    assert_eq!(ai_reply_text(Shell::Windows, AiOutcome::Replied(raw)), "{}");
    let raw = "not json".to_string();
    assert_eq!(ai_reply_text(Shell::Windows, AiOutcome::Replied(raw)), "not json");
}

#[test]
fn reply_text_from_fields() {
    let f = ReplyFields { content: None, reasoning: None, error: Some("e".into()) };
    assert_eq!(reply_text("raw".into(), Some(f)), "\u{26a0}\u{fe0f} e");
    assert_eq!(reply_text("raw".into(), None), "raw");
}

#[test]
fn failure_texts() {
    assert_eq!(ai_reply_text(Shell::Windows, AiOutcome::Failed("x".into())), "\u{26a0}\u{fe0f} x");
    assert_eq!(ai_reply_text(Shell::Windows, AiOutcome::NotStarted), "\u{26a0}\u{fe0f} Connection error");
    assert!(ai_reply_text(Shell::Linux, AiOutcome::Failed("x".into())).ends_with(": x"));
    assert_eq!(
        ai_reply_text(Shell::Linux, AiOutcome::NotStarted),
        "\u{26a0}\u{fe0f} \u{041e}\u{0448}\u{0438}\u{0431}\u{043a}\u{0430} \u{0441}\u{043e}\u{0435}\u{0434}\u{0438}\u{043d}\u{0435}\u{043d}\u{0438}\u{044f}"
    );
}

#[test]
fn control_characters_are_escaped_as_serde_json_does() {
    let odd = "q\"b\\s/\u{8}\u{9}\u{a}\u{c}\u{d}\u{1}\u{1f}\u{7f}é😀";
    assert_eq!(
        command_json("execute_js", "js", odd),
        format!("{{\"cmd\":\"execute_js\",\"js\":{}}}", serde_json::to_string(odd).unwrap())
    );
    assert_eq!(
        command_json("c", "k", "\u{1}\u{1f}\u{8}"),
        "{\"cmd\":\"c\",\"k\":\"\\u0001\\u001f\\b\"}"
    );
}
