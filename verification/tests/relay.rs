use paraphrase_relay::chat::{build_chat_request, encode_chat_request};
use paraphrase_relay::json::{content_of, extracted_reply, JsonValue};
use paraphrase_relay::relay::{plan_paraphrase, respond_to_outcome, UpstreamOutcome};

#[test]
fn round_trip_prompt_content() {
    let r = build_chat_request("Hello world");
    assert_eq!(r.model, "mistralai/mistral-7b-instruct");
    assert_eq!(r.messages.len(), 2);
    assert_eq!(r.messages[0].role, "system");
    assert_eq!(
        r.messages[0].content,
        "You are a helpful assistant that paraphrases text."
    );
    assert_eq!(r.messages[1].role, "user");
    assert_eq!(r.messages[1].content, "Paraphrase the following: Hello world");
}

#[test]
fn empty_text_is_forwarded() {
    let r = build_chat_request("");
    assert_eq!(r.messages[1].content, "Paraphrase the following: ");
    let plan = plan_paraphrase(Some("key".to_string()), "");
    assert!(plan.is_ok());
}

#[test]
fn missing_credential_rejected_without_call() {
    for text in ["", "x", "Hello world"] {
        match plan_paraphrase(None, text) {
            Err(resp) => {
                assert_eq!(resp.status, 500);
                assert_eq!(resp.body, "OPENROUTER_API_KEY not set");
            }
            Ok(_) => panic!("a call was planned without a credential"),
        }
    }
}

#[test]
fn planned_call_shape() {
    match plan_paraphrase(Some("secret".to_string()), "hi") {
        Ok(call) => {
            assert_eq!(call.url, "https://openrouter.ai/api/v1/chat/completions");
            assert_eq!(call.authorization, "Bearer secret");
            assert_eq!(call.referer, "http://localhost:3000");
            assert_eq!(call.title, "AI Paraphraser");
            assert_eq!(
                call.body,
                "{\"model\":\"mistralai/mistral-7b-instruct\",\"messages\":[{\"role\":\"system\",\"content\":\"You are a helpful assistant that paraphrases text.\"},{\"role\":\"user\",\"content\":\"Paraphrase the following: hi\"}]}"
            );
        }
        Err(_) => panic!("the plan was rejected although the credential was present"),
    }
}

#[test]
fn encoded_body_matches_serde_json() {
    let req = build_chat_request("A \"quoted\" line\nwith\ttabs and \\slashes\\");
    let body = encode_chat_request(&req);
    let v: serde_json::Value = serde_json::from_str(&body).expect("the encoded body is valid JSON");
    assert_eq!(
        v.get("model").and_then(|m| m.as_str()),
        Some("mistralai/mistral-7b-instruct")
    );
    let content = v
        .get("messages")
        .and_then(|m| m.get(1))
        .and_then(|m| m.get("content"))
        .and_then(|c| c.as_str());
    assert_eq!(
        content,
        Some("Paraphrase the following: A \"quoted\" line\nwith\ttabs and \\slashes\\")
    );
}

#[test]
fn control_characters_escaped_exactly() {
    let req = build_chat_request("\u{1}\u{8}\u{c}\r\u{1f}");
    let body = encode_chat_request(&req);
    assert!(body.contains("Paraphrase the following: \\u0001\\b\\f\\r\\u001f"));
    let same = serde_json::to_string(&serde_json::Value::String(
        "\u{1}\u{8}\u{c}\r\u{1f}".to_string(),
    ))
    .expect("serde_json can write a string");
    assert_eq!(same, "\"\\u0001\\b\\f\\r\\u001f\"");
}

#[test]
fn well_formed_reply_forwarded() {
    let body = "{\"choices\":[{\"message\":{\"content\":\"Hi there\"}}]}";
    let r = respond_to_outcome(UpstreamOutcome::Received(body.to_string()));
    assert_eq!(r.status, 200);
    assert_eq!(r.body, "{\"paraphrased\":\"Hi there\"}");
}

#[test]
fn reply_content_is_escaped_in_answer() {
    let body = "{\"choices\":[{\"message\":{\"content\":\"a \\\"b\\\" c\"}}]}";
    let r = respond_to_outcome(UpstreamOutcome::Received(body.to_string()));
    assert_eq!(r.status, 200);
    assert_eq!(r.body, "{\"paraphrased\":\"a \\\"b\\\" c\"}");
}

#[test]
fn missing_content_falls_back() {
    let r = respond_to_outcome(UpstreamOutcome::Received(
        "{\"choices\": [{\"message\": {}}]}".to_string(),
    ));
    assert_eq!(r.status, 200);
    assert_eq!(r.body, "{\"paraphrased\":\"Error extracting response\"}");
}

#[test]
fn non_string_content_falls_back() {
    let r = respond_to_outcome(UpstreamOutcome::Received(
        "{\"choices\":[{\"message\":{\"content\":7}}]}".to_string(),
    ));
    assert_eq!(r.status, 200);
    assert_eq!(r.body, "{\"paraphrased\":\"Error extracting response\"}");
}

#[test]
fn reply_of_wrong_shape_falls_back() {
    for body in ["[1,2]", "null", "{\"choices\":[]}", "{\"choices\":{\"0\":1}}"] {
        let r = respond_to_outcome(UpstreamOutcome::Received(body.to_string()));
        assert_eq!(r.status, 200);
        assert_eq!(r.body, "{\"paraphrased\":\"Error extracting response\"}");
    }
}

#[test]
fn transport_failure_is_500() {
    let r = respond_to_outcome(UpstreamOutcome::SendFailed("connection refused".to_string()));
    assert_eq!(r.status, 500);
    assert_eq!(r.body, "Error sending request: connection refused");
}

#[test]
fn unreadable_reply_is_500() {
    let r = respond_to_outcome(UpstreamOutcome::ReadFailed("connection reset".to_string()));
    assert_eq!(r.status, 500);
    assert_eq!(r.body, "Error parsing response: connection reset");
}

#[test]
fn undecodable_reply_is_500() {
    let r = respond_to_outcome(UpstreamOutcome::Received("not json".to_string()));
    assert_eq!(r.status, 500);
    assert!(r.body.starts_with("Error parsing response: "));
    assert!(r.body.len() > "Error parsing response: ".len());
}

#[test]
fn extraction_reads_first_choice() {
    let first = JsonValue::Object(vec![(
        "message".to_string(),
        JsonValue::Object(vec![(
            "content".to_string(),
            JsonValue::Text("first".to_string()),
        )]),
    )]);
    let second = JsonValue::Object(vec![(
        "message".to_string(),
        JsonValue::Object(vec![(
            "content".to_string(),
            JsonValue::Text("second".to_string()),
        )]),
    )]);
    let doc = JsonValue::Object(vec![(
        "choices".to_string(),
        JsonValue::Array(vec![first, second]),
    )]);
    assert_eq!(content_of(&doc).map(|s| s.as_str()), Some("first"));
    assert_eq!(extracted_reply(&doc), "first");
}

#[test]
fn extraction_ignores_other_fields() {
    let doc = JsonValue::Object(vec![
        ("id".to_string(), JsonValue::Text("abc".to_string())),
        ("created".to_string(), JsonValue::Number),
        (
            "choices".to_string(),
            JsonValue::Array(vec![JsonValue::Object(vec![
                ("index".to_string(), JsonValue::Number),
                (
                    "message".to_string(),
                    JsonValue::Object(vec![
                        ("role".to_string(), JsonValue::Text("assistant".to_string())),
                        ("content".to_string(), JsonValue::Text("the answer".to_string())),
                    ]),
                ),
            ])]),
        ),
    ]);
    assert_eq!(extracted_reply(&doc), "the answer");
}
