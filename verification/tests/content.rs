use chat_rs::json::Json;
use chat_rs::messages::content::{from_model, from_system, from_user, CompleteReasonEnum, Content, RoleEnum};
use chat_rs::metadata::{Metadata, Usage};

fn has_key(m: &Metadata, key: &str) -> bool {
    m.specific.iter().any(|(k, _)| k == key)
}

fn specific_value<'a>(m: &'a Metadata, key: &str) -> Option<&'a Json> {
    m.specific.iter().rev().find(|(k, _)| k == key).map(|(_, v)| v)
}

#[test]
fn content_test_from_user_creates_content_with_correct_role() {
    let content = from_user(vec!["Hello, world!"]);
    assert_eq!(content.role, RoleEnum::User);
}

#[test]
fn content_test_from_user_creates_content_with_correct_complete_reason() {
    let content = from_user(vec!["Hello"]);
    assert_eq!(content.complete_reason, CompleteReasonEnum::NoReason);
}

#[test]
fn content_test_from_user_with_single_prompt() {
    let content = from_user(vec!["Test message"]);
    assert_eq!(content.parts.len(), 1);
    assert_eq!(content.parts.text_response().unwrap().as_str(), "Test message");
}

#[test]
fn content_test_from_user_with_multiple_prompts() {
    let content = from_user(vec!["First", "Second", "Third"]);
    assert_eq!(content.parts.len(), 3);
    let texts: Vec<&str> = content.parts.text_parts().into_iter().map(|t| t.as_str()).collect();
    assert_eq!(texts, vec!["First", "Second", "Third"]);
}

#[test]
fn content_test_from_user_with_empty_prompts() {
    let content = from_user(vec![]);
    assert_eq!(content.parts.len(), 0);
    assert_eq!(content.role, RoleEnum::User);
}

#[test]
fn content_test_from_user_with_empty_string() {
    let content = from_user(vec![""]);
    assert_eq!(content.parts.len(), 1);
    assert_eq!(content.parts.text_response().unwrap().as_str(), "");
}

#[test]
fn content_test_from_user_with_unicode_and_special_chars() {
    let content = from_user(vec!["Hello 🌍!", "Special chars: @#$%", "Unicode: 你好"]);
    assert_eq!(content.parts.len(), 3);
}

#[test]
fn content_test_from_system_creates_content_with_correct_role() {
    let content = from_system(vec!["System instruction"]);
    assert_eq!(content.role, RoleEnum::System);
}

#[test]
fn content_test_from_system_creates_content_with_correct_complete_reason() {
    let content = from_system(vec!["System"]);
    assert_eq!(content.complete_reason, CompleteReasonEnum::NoReason);
}

#[test]
fn content_test_from_system_with_single_prompt() {
    let content = from_system(vec!["You are a helpful assistant"]);
    assert_eq!(content.parts.len(), 1);
    assert_eq!(content.parts.text_response().unwrap().as_str(), "You are a helpful assistant");
}

#[test]
fn content_test_from_system_with_multiple_prompts() {
    let content = from_system(vec!["Rule 1", "Rule 2", "Rule 3"]);
    assert_eq!(content.parts.len(), 3);
}

#[test]
fn content_test_from_system_with_empty_prompts() {
    let content = from_system(vec![]);
    assert_eq!(content.parts.len(), 0);
    assert_eq!(content.role, RoleEnum::System);
}

#[test]
fn content_test_from_system_with_long_text() {
    let long_text = "a".repeat(10000);
    let content = from_system(vec![&long_text]);
    assert_eq!(content.parts.len(), 1);
    assert_eq!(content.parts.text_response().unwrap().as_str().len(), 10000);
}

#[test]
fn content_test_from_model_creates_content_with_correct_role() {
    let content = from_model(vec!["Model response"]);
    assert_eq!(content.role, RoleEnum::Model);
}

#[test]
fn content_test_from_model_creates_content_with_stop_reason() {
    let content = from_model(vec!["Response"]);
    assert_eq!(content.complete_reason, CompleteReasonEnum::Stop);
}

#[test]
fn content_test_from_model_with_single_prompt() {
    let content = from_model(vec!["Here is my response"]);
    assert_eq!(content.parts.len(), 1);
    assert_eq!(content.parts.text_response().unwrap().as_str(), "Here is my response");
}

#[test]
fn content_test_from_model_with_multiple_prompts() {
    let content = from_model(vec!["Part 1", "Part 2"]);
    assert_eq!(content.parts.len(), 2);
}

#[test]
fn content_test_from_model_with_empty_prompts() {
    let content = from_model(vec![]);
    assert_eq!(content.parts.len(), 0);
}

#[test]
fn content_test_content_default() {
    let content = Content::default();
    assert_eq!(content.role, RoleEnum::User);
    assert_eq!(content.complete_reason, CompleteReasonEnum::NoReason);
    assert_eq!(content.parts.len(), 0);
}

#[test]
fn content_test_content_clone() {
    let content1 = from_user(vec!["Test"]);
    let content2 = content1.clone();
    assert_eq!(content1, content2);
}

#[test]
fn content_test_complete_reason_enum_default() {
    let reason = CompleteReasonEnum::default();
    assert_eq!(reason, CompleteReasonEnum::NoReason);
}

#[test]
fn test_complete_reason_enum_default() {
    let reason = CompleteReasonEnum::default();
    assert_eq!(reason, CompleteReasonEnum::NoReason);
}

#[test]
fn test_complete_reason_enum_other_variant() {
    let reason = CompleteReasonEnum::Other("custom_reason".to_string());
    match reason {
        CompleteReasonEnum::Other(s) => assert_eq!(s, "custom_reason"),
        _ => panic!("Expected Other variant"),
    }
}

#[test]
fn content_test_complete_reason_enum_other_variant() {
    let reason = CompleteReasonEnum::Other("custom_reason".to_string());
    match reason {
        CompleteReasonEnum::Other(s) => assert_eq!(s, "custom_reason"),
        _ => panic!("Expected Other variant"),
    }
}

#[test]
fn test_content_total_tokens_with_metadata() {
    let usage = Usage {
        input_tokens: 100,
        output_tokens: 50,
        total_tokens: 150,
        ..Default::default()
    };
    let metadata = Metadata {
        usage,
        ..Default::default()
    };
    let content = Content {
        metadata: Some(metadata),
        ..Default::default()
    };
    assert_eq!(content.total_tokens(), 150);
}

#[test]
fn test_content_total_tokens_without_metadata() {
    let content = Content::default();
    assert_eq!(content.total_tokens(), 0);
}

#[test]
fn test_content_with_id() {
    let content = Content::default().with_id("test-id-456".to_string());
    assert_eq!(content.metadata.as_ref().unwrap().id.as_ref().unwrap(), "test-id-456");
}

#[test]
fn test_content_with_id_string() {
    let id = String::from("string-id-789");
    let content = Content::default().with_id(id);
    assert_eq!(content.metadata.as_ref().unwrap().id.as_ref().unwrap(), "string-id-789");
}

#[test]
fn test_content_with_usage() {
    let usage = Usage {
        input_tokens: 200,
        output_tokens: 100,
        total_tokens: 300,
        ..Default::default()
    };
    let content = Content::default().with_usage(usage.clone());
    assert_eq!(content.metadata.as_ref().unwrap().usage.total_tokens, 300);
    assert_eq!(content.metadata.as_ref().unwrap().usage.input_tokens, 200);
}

#[test]
fn test_content_with_duration() {
    let content = Content::default().with_duration(2500u64);
    assert_eq!(content.metadata.as_ref().unwrap().duration_ms.unwrap(), 2500);
}

#[test]
fn test_content_with_specific() {
    let content = Content::default()
        .with_specific("safety_rating".to_string(), Json::from_str("safe"))
        .with_specific("provider".to_string(), Json::from_str("gemini"));

    let metadata = content.metadata.as_ref().unwrap();
    assert_eq!(metadata.specific.len(), 2);
    assert!(has_key(metadata, "safety_rating"));
    assert!(has_key(metadata, "provider"));
    assert_eq!(specific_value(metadata, "safety_rating").unwrap(), &Json::from_str("safe"));
}

#[test]
fn test_content_chained_metadata_builders() {
    let usage = Usage {
        input_tokens: 50,
        output_tokens: 25,
        total_tokens: 75,
        ..Default::default()
    };

    let content = Content::default()
        .with_id("chain-test".to_string())
        .with_usage(usage)
        .with_duration(1000)
        .with_specific(
            "test_key".to_string(),
            Json::object(vec![("nested".to_string(), Json::from_str("value"))]),
        );

    let metadata = content.metadata.as_ref().unwrap();
    assert_eq!(metadata.id.as_ref().unwrap(), "chain-test");
    assert_eq!(metadata.usage.total_tokens, 75);
    assert_eq!(metadata.duration_ms.unwrap(), 1000);
    assert!(has_key(metadata, "test_key"));
}

#[test]
fn test_content_metadata_preserves_existing_data() {
    let content = Content::default().with_id("first-id".to_string()).with_duration(500);

    let content = content.with_specific("key".to_string(), Json::from_str("value"));

    let metadata = content.metadata.as_ref().unwrap();
    assert_eq!(metadata.id.as_ref().unwrap(), "first-id");
    assert_eq!(metadata.duration_ms.unwrap(), 500);
    assert!(has_key(metadata, "key"));
}

#[test]
fn test_content_with_usage_overwrites() {
    let usage1 = Usage {
        total_tokens: 100,
        ..Default::default()
    };
    let usage2 = Usage {
        total_tokens: 200,
        ..Default::default()
    };

    let content = Content::default().with_usage(usage1).with_usage(usage2);

    assert_eq!(content.metadata.as_ref().unwrap().usage.total_tokens, 200);
}

#[test]
fn test_content_with_specific_complex_json() {
    let complex_json = Json::object(vec![
        (
            "nested".to_string(),
            Json::object(vec![
                ("array".to_string(), Json::array(vec![Json::UInt(1), Json::UInt(2), Json::UInt(3)])),
                ("object".to_string(), Json::object(vec![("key".to_string(), Json::from_str("value"))])),
            ]),
        ),
        ("number".to_string(), Json::UInt(42)),
        ("boolean".to_string(), Json::Bool(true)),
    ]);

    let content = Content::default().with_specific("complex".to_string(), complex_json.clone());

    let metadata = content.metadata.as_ref().unwrap();
    assert_eq!(specific_value(metadata, "complex").unwrap(), &complex_json);
}

#[test]
fn test_content_with_metadata_field() {
    let metadata = Metadata {
        id: Some("direct-metadata".to_string()),
        ..Default::default()
    };

    let content = Content {
        metadata: Some(metadata),
        ..Default::default()
    };

    assert!(content.metadata.is_some());
    assert_eq!(content.metadata.unwrap().id.unwrap(), "direct-metadata");
}

#[test]
fn with_specific_replaces_the_value_of_a_key() {
    let content = Content::default()
        .with_specific("k".to_string(), Json::UInt(1))
        .with_specific("k".to_string(), Json::UInt(2));
    let metadata = content.metadata.as_ref().unwrap();
    assert_eq!(metadata.specific.len(), 1);
    assert_eq!(specific_value(metadata, "k").unwrap(), &Json::UInt(2));
}

#[test]
fn contents_differing_in_reason_are_not_equal() {
    let a = from_model(vec!["x"]);
    let mut b = a.clone();
    b.complete_reason = CompleteReasonEnum::MaxTokens;
    assert_ne!(a, b);
}
