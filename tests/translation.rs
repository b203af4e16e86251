use drama_study_tool::json::{parse_json, JsonValue};
use drama_study_tool::translation::{
    AIInterface, CompletionRequest, TranslationError, EXAMPLE_ANSWER, EXAMPLE_INPUT, MAX_TOKENS,
    SYSTEM_INSTRUCTION,
};

const STUB_ANSWER: &str = r#"{"translation":"I can't find the dictionary","vocabulary":[{"word":"사전","translation":"dictionary"}],"grammar_points":[]}"#;

#[test]
fn empty_input_fails_without_sending() {
    let client = AIInterface::new();
    let r = client.translate(String::new(), |_q: CompletionRequest| -> Result<Vec<String>, String> {
        panic!("no request may be sent for an empty input")
    });
    assert!(matches!(r, Err(TranslationError::EmptyInput)));
}

#[test]
fn stub_answer_is_decoded() {
    let client = AIInterface::new();
    let mut seen: Option<CompletionRequest> = None;
    let r = client.translate("사전을 못 찾아".to_string(), |q: CompletionRequest| {
        seen = Some(q);
        Ok(vec![STUB_ANSWER.to_string()])
    });
    let info = r.ok().unwrap();
    assert_eq!(info.translation, "I can't find the dictionary");
    assert_eq!(info.vocabulary.len(), 1);
    assert_eq!(info.vocabulary[0].word, "사전");
    assert_eq!(info.vocabulary[0].translation, "dictionary");
    assert!(info.grammar_points.is_empty());
    let q = seen.unwrap();
    assert_eq!(q.messages.len(), 4);
    assert_eq!(q.messages[3].role, "user");
    assert_eq!(q.messages[3].content, "사전을 못 찾아");
}

#[test]
fn zero_candidates_is_no_response() {
    let client = AIInterface::new();
    let r = client.translate("안녕".to_string(), |_q: CompletionRequest| Ok(Vec::new()));
    assert!(matches!(r, Err(TranslationError::NoResponse)));
}

#[test]
fn non_json_answer_is_invalid_shape() {
    let client = AIInterface::new();
    let r = client.translate("안녕".to_string(), |_q: CompletionRequest| {
        Ok(vec!["Sorry, I cannot help with that.".to_string()])
    });
    assert!(matches!(r, Err(TranslationError::InvalidResponseShape(_))));
}

#[test]
fn service_failure_is_reported_with_details() {
    let client = AIInterface::new();
    let r = client.translate("안녕".to_string(), |_q: CompletionRequest| Err("503".to_string()));
    match r {
        Err(TranslationError::ServiceFailure(d)) => assert_eq!(d, "503"),
        _ => panic!("expected a service failure"),
    }
}

#[test]
fn only_first_candidate_is_read() {
    let r = AIInterface::interpret_response(Ok(vec![STUB_ANSWER.to_string(), "not json".to_string()]));
    assert!(r.is_ok());
    let r = AIInterface::interpret_response(Ok(vec!["not json".to_string(), STUB_ANSWER.to_string()]));
    assert!(matches!(r, Err(TranslationError::InvalidResponseShape(_))));
}

#[test]
fn wrong_shapes_are_invalid() {
    let cases = [
        r#"{"vocabulary":[],"grammar_points":[]}"#,
        r#"{"translation":3,"vocabulary":[],"grammar_points":[]}"#,
        r#"{"translation":"x","vocabulary":{},"grammar_points":[]}"#,
        r#"{"translation":"x","vocabulary":[{"word":"a"}],"grammar_points":[]}"#,
        r#"{"translation":"x","vocabulary":[],"grammar_points":[{"name":"n","relevant_text":"r"}]}"#,
        r#"["translation"]"#,
        r#"{"translation":"x","vocabulary":[],"grammar_points":[]} trailing"#,
    ];
    for c in cases {
        let r = AIInterface::interpret_response(Ok(vec![c.to_string()]));
        assert!(matches!(r, Err(TranslationError::InvalidResponseShape(_))), "{}", c);
    }
}

#[test]
fn full_answer_keeps_every_part() {
    let r = AIInterface::interpret_response(Ok(vec![EXAMPLE_ANSWER.to_string()]));
    let info = r.ok().unwrap();
    assert_eq!(info.translation, "I can't find the dictionary");
    let words: Vec<&str> = info.vocabulary.iter().map(|v| v.word.as_str()).collect();
    assert_eq!(words, vec!["사전", "못", "찾아"]);
    assert_eq!(info.grammar_points.len(), 2);
    assert_eq!(info.grammar_points[0].name, "Object Marker");
    assert_eq!(info.grammar_points[0].relevant_text, "사전을");
    assert_eq!(info.grammar_points[1].name, "Negative Verb Form");
    assert_eq!(info.grammar_points[1].relevant_text, "못 찾아");
}

#[test]
fn extra_members_are_ignored() {
    let text = r#"{"translation":"hi","note":true,"vocabulary":[{"word":"a","translation":"b","pos":"n"}],"grammar_points":[{"name":"n","relevant_text":"r","description":"d"}]}"#;
    let info = AIInterface::interpret_response(Ok(vec![text.to_string()])).ok().unwrap();
    assert_eq!(info.translation, "hi");
    assert_eq!(info.vocabulary[0].translation, "b");
    assert_eq!(info.grammar_points[0].description, "d");
}

#[test]
fn request_has_fixed_prompt() {
    let q = AIInterface::prepare_request("잘 자").ok().unwrap();
    assert_eq!(q.max_tokens, 2000);
    assert_eq!(MAX_TOKENS, 2000);
    let roles: Vec<&str> = q.messages.iter().map(|m| m.role.as_str()).collect();
    assert_eq!(roles, vec!["system", "user", "assistant", "user"]);
    assert_eq!(q.messages[0].content, SYSTEM_INSTRUCTION);
    assert_eq!(q.messages[1].content, "사전을 못 찾아");
    assert_eq!(q.messages[1].content, EXAMPLE_INPUT);
    assert_eq!(q.messages[2].content, EXAMPLE_ANSWER);
    assert_eq!(q.messages[3].content, "잘 자");
    assert!(matches!(AIInterface::prepare_request(""), Err(TranslationError::EmptyInput)));
}

#[test]
fn example_answer_is_compact_json() {
    let v: serde_json::Value = serde_json::from_str(EXAMPLE_ANSWER).unwrap();
    assert_eq!(v.to_string(), EXAMPLE_ANSWER);
}

#[test]
fn json_reader_builds_tree() {
    match parse_json(r#"{"a":[1,true,null,"s"]}"#) {
        Some(JsonValue::Object(fields)) => {
            assert_eq!(fields.len(), 1);
            assert_eq!(fields[0].0, "a");
            match &fields[0].1 {
                JsonValue::Array(items) => {
                    assert!(matches!(&items[0], JsonValue::Number(n) if n == "1"));
                    assert!(matches!(&items[1], JsonValue::Bool(true)));
                    assert!(matches!(&items[2], JsonValue::Null));
                    assert!(matches!(&items[3], JsonValue::Text(s) if s == "s"));
                }
                _ => panic!("expected an array"),
            }
        }
        _ => panic!("expected an object"),
    }
    assert!(parse_json("{").is_none());
}
