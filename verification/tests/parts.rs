use chat_rs::json::Json;
use chat_rs::messages::file::File;
use chat_rs::messages::parts::{PartEnum, Parts};
use chat_rs::messages::text::Text;
use chat_rs::tools::{FunctionCall, FunctionResponse};

#[test]
fn test_parts_default() {
    let parts = Parts::default();
    assert_eq!(parts.len(), 0);
    assert!(parts.is_empty());
}

#[test]
fn test_parts_push() {
    let mut parts = Parts::default();
    parts.push(PartEnum::from_text("Hello".to_string()));
    assert_eq!(parts.len(), 1);
    assert!(!parts.is_empty());
}

#[test]
fn test_parts_push_chaining() {
    let mut parts = Parts::default();
    parts
        .push(PartEnum::from_text("First".to_string()))
        .push(PartEnum::from_text("Second".to_string()));
    assert_eq!(parts.len(), 2);
}

#[test]
fn test_parts_extend() {
    let mut parts1 = Parts::default();
    parts1.push(PartEnum::from_text("First".to_string()));

    let mut parts2 = Parts::default();
    parts2.push(PartEnum::from_text("Second".to_string()));

    parts1.extend(parts2);
    assert_eq!(parts1.len(), 2);
}

#[test]
fn test_parts_last() {
    let mut parts = Parts::default();
    assert!(parts.last().is_none());

    parts.push(PartEnum::from_text("First".to_string()));
    parts.push(PartEnum::from_text("Second".to_string()));

    let last = parts.last().unwrap();
    assert_eq!(last.text().unwrap().as_str(), "Second");
}

#[test]
fn test_parts_text_response() {
    let mut parts = Parts::default();
    parts.push(PartEnum::from_reasoning("Thinking".to_string()));
    parts.push(PartEnum::from_text("Response".to_string()));

    let text = parts.text_response().unwrap();
    assert_eq!(text.as_str(), "Response");
}

#[test]
fn test_parts_text_response_none() {
    let mut parts = Parts::default();
    parts.push(PartEnum::from_reasoning("Only reasoning".to_string()));

    assert!(parts.text_response().is_none());
}

#[test]
fn test_parts_structured_response() {
    let mut parts = Parts::default();
    let value = Json::object(vec![("key".to_string(), Json::from_str("value"))]);
    parts.push(PartEnum::from_structured(value.clone()));

    let structured = parts.structured_response().unwrap();
    assert_eq!(structured, &value);
}

#[test]
fn test_parts_structured_response_none() {
    let mut parts = Parts::default();
    parts.push(PartEnum::from_text("Text only".to_string()));

    assert!(parts.structured_response().is_none());
}

#[test]
fn test_parts_text_parts_iterator() {
    let mut parts = Parts::default();
    parts.push(PartEnum::from_text("First".to_string()));
    parts.push(PartEnum::from_reasoning("Thinking".to_string()));
    parts.push(PartEnum::from_text("Second".to_string()));

    let texts: Vec<&Text> = parts.text_parts();
    assert_eq!(texts.len(), 2);
    assert_eq!(texts[0].as_str(), "First");
    assert_eq!(texts[1].as_str(), "Second");
}

#[test]
fn test_parts_function_calls_iterator() {
    let mut parts = Parts::default();
    let fc1 = FunctionCall::new("func1".to_string(), Json::object(vec![("arg".to_string(), Json::UInt(1))]));
    let fc2 = FunctionCall::new("func2".to_string(), Json::object(vec![("arg".to_string(), Json::UInt(2))]));

    parts.push(PartEnum::from_function_call(fc1.clone()));
    parts.push(PartEnum::from_text("Text".to_string()));
    parts.push(PartEnum::from_function_call(fc2.clone()));

    let fcs: Vec<&FunctionCall> = parts.function_calls();
    assert_eq!(fcs.len(), 2);
    assert_eq!(fcs[0].name, "func1");
    assert_eq!(fcs[1].name, "func2");
}

#[test]
fn test_parts_function_responses_iterator() {
    let mut parts = Parts::default();
    let fc1 = FunctionCall::new("func1".to_string(), Json::object(vec![]));
    let fr1 = FunctionResponse {
        id: fc1.id.clone(),
        name: "func1".to_string(),
        result: Json::object(vec![("status".to_string(), Json::from_str("ok"))]),
    };

    parts.push(PartEnum::from_function_response(fr1.clone()));
    parts.push(PartEnum::from_text("Text".to_string()));

    let frs: Vec<&FunctionResponse> = parts.function_responses();
    assert_eq!(frs.len(), 1);
    assert_eq!(frs[0].name, "func1");
}

#[test]
fn test_parts_function_response_by_id() {
    let mut parts = Parts::default();
    let fc = FunctionCall::new("test_func".to_string(), Json::object(vec![]));
    let fr = FunctionResponse {
        id: fc.id.clone(),
        name: "test_func".to_string(),
        result: Json::object(vec![("result".to_string(), Json::UInt(42))]),
    };

    parts.push(PartEnum::from_function_response(fr.clone()));

    let found = parts.function_response(fc.id.clone().unwrap().as_str());
    assert!(found.is_some());
    assert_eq!(found.unwrap().name, "test_func");
}

#[test]
fn test_parts_function_response_not_found() {
    let parts = Parts::default();
    let fc = FunctionCall::new("test".to_string(), Json::object(vec![]));

    let other = FunctionCall::new("other".to_string(), Json::object(vec![]));
    let found = parts.function_response(other.id.as_deref().unwrap());
    assert!(found.is_none());
    assert_ne!(fc.id, other.id);
}

#[test]
fn test_part_enum_default() {
    let part = PartEnum::default();
    match part {
        PartEnum::Text(text) => assert_eq!(text.as_str(), ""),
        _ => panic!("Default should be empty text"),
    }
}

#[test]
fn test_part_enum_from_text() {
    let part = PartEnum::from_text("Hello".to_string());
    assert_eq!(part.text().unwrap().as_str(), "Hello");
}

#[test]
fn test_part_enum_from_reasoning() {
    let part = PartEnum::from_reasoning("Thinking...".to_string());
    assert_eq!(part.reasoning().unwrap().as_str(), "Thinking...");
}

#[test]
fn test_part_enum_from_structured() {
    let value = Json::object(vec![(
        "data".to_string(),
        Json::array(vec![Json::UInt(1), Json::UInt(2), Json::UInt(3)]),
    )]);
    let part = PartEnum::from_structured(value.clone());
    assert_eq!(part.structured().unwrap(), value);
}

#[test]
fn test_part_enum_from_function_call() {
    let fc = FunctionCall::new("test".to_string(), Json::object(vec![("arg".to_string(), Json::from_str("value"))]));
    let part = PartEnum::from_function_call(fc.clone());
    assert_eq!(part.function_call().unwrap().name, "test");
}

#[test]
fn test_part_enum_from_function_response() {
    let fc = FunctionCall::new("test".to_string(), Json::object(vec![]));
    let fr = FunctionResponse {
        id: fc.id.clone(),
        name: "test".to_string(),
        result: Json::object(vec![("ok".to_string(), Json::Bool(true))]),
    };
    let part = PartEnum::from_function_response(fr.clone());
    assert_eq!(part.function_response().unwrap().name, "test");
}

#[test]
fn test_part_enum_text_getter() {
    let part = PartEnum::from_text("Test".to_string());
    assert!(part.text().is_some());
    assert!(part.reasoning().is_none());
    assert!(part.structured().is_none());
}

#[test]
fn test_part_enum_reasoning_getter() {
    let part = PartEnum::from_reasoning("Think".to_string());
    assert!(part.reasoning().is_some());
    assert!(part.text().is_none());
}

#[test]
fn test_part_enum_structured_getter() {
    let part = PartEnum::from_structured(Json::object(vec![]));
    assert!(part.structured().is_some());
    assert!(part.text().is_none());
}

#[test]
fn test_part_enum_function_call_getter() {
    let fc = FunctionCall::new("test".to_string(), Json::object(vec![]));
    let part = PartEnum::from_function_call(fc);
    assert!(part.function_call().is_some());
    assert!(part.text().is_none());
}

#[test]
fn test_part_enum_function_response_getter() {
    let fc = FunctionCall::new("test".to_string(), Json::object(vec![]));
    let fr = FunctionResponse {
        id: fc.id,
        name: "test".to_string(),
        result: Json::object(vec![]),
    };
    let part = PartEnum::from_function_response(fr);
    assert!(part.function_response().is_some());
    assert!(part.text().is_none());
}

#[test]
fn test_part_enum_display_text() {
    let part = PartEnum::from_text("Display me".to_string());
    assert_eq!(part.to_string(), "Display me");
}

#[test]
fn test_part_enum_display_reasoning() {
    let part = PartEnum::from_reasoning("Reasoning text".to_string());
    assert_eq!(part.to_string(), "Reasoning text");
}

#[test]
fn test_part_enum_display_structured() {
    let part = PartEnum::from_structured(Json::object(vec![("key".to_string(), Json::from_str("value"))]));
    let display = part.to_string();
    assert!(display.contains("key"));
    assert!(display.contains("value"));
}

#[test]
fn test_part_enum_display_function_call() {
    let fc = FunctionCall::new("my_function".to_string(), Json::object(vec![]));
    let part = PartEnum::from_function_call(fc);
    assert_eq!(part.to_string(), "my_function");
}

#[test]
fn test_part_enum_display_function_response() {
    let fc = FunctionCall::new("response_func".to_string(), Json::object(vec![]));
    let fr = FunctionResponse {
        id: fc.id,
        name: "response_func".to_string(),
        result: Json::object(vec![]),
    };
    let part = PartEnum::from_function_response(fr);
    assert_eq!(part.to_string(), "response_func");
}

#[test]
fn test_part_enum_clone() {
    let part1 = PartEnum::from_text("Clone me".to_string());
    let part2 = part1.clone();
    assert_eq!(part1, part2);
}

#[test]
fn test_parts_with_mixed_types() {
    let mut parts = Parts::default();
    parts.push(PartEnum::from_text("Text".to_string()));
    parts.push(PartEnum::from_reasoning("Reasoning".to_string()));
    parts.push(PartEnum::from_structured(Json::object(vec![("key".to_string(), Json::from_str("value"))])));

    assert_eq!(parts.len(), 3);
    assert_eq!(parts.text_parts().len(), 1);
}

#[test]
fn test_parts_empty_checks() {
    let parts = Parts::default();
    assert!(parts.is_empty());
    assert_eq!(parts.len(), 0);

    let mut parts2 = Parts::default();
    parts2.push(PartEnum::from_text("Not empty".to_string()));
    assert!(!parts2.is_empty());
    assert_eq!(parts2.len(), 1);
}

#[test]
fn test_parts_equality() {
    let mut parts1 = Parts::default();
    parts1.push(PartEnum::from_text("Same".to_string()));

    let mut parts2 = Parts::default();
    parts2.push(PartEnum::from_text("Same".to_string()));

    assert_eq!(parts1, parts2);
}

#[test]
fn test_part_enum_equality() {
    let part1 = PartEnum::from_text("Same".to_string());
    let part2 = PartEnum::from_text("Same".to_string());
    assert_eq!(part1, part2);

    let part3 = PartEnum::from_text("Different".to_string());
    assert_ne!(part1, part3);
}

#[test]
fn structured_part_displays_as_compact_json() {
    let part = PartEnum::from_structured(Json::object(vec![
        ("a".to_string(), Json::UInt(1)),
        ("b".to_string(), Json::array(vec![Json::Bool(true), Json::Null])),
    ]));
    assert_eq!(part.to_string(), "{\"a\":1,\"b\":[true,null]}");
}

#[test]
fn file_parts_display_their_address_or_type() {
    let bytes = PartEnum::from_file(File::from_bytes(vec![1, 2, 3], "image/png".to_string()));
    assert_eq!(bytes.to_string(), "image/png");
    let url = PartEnum::from_file(File::from_url("https://example.com/a.png", Some("image/png")).unwrap());
    assert_eq!(url.to_string(), "https://example.com/a.png Some(MimeType(\"image/png\"))");
    let bare = PartEnum::from_file(File::from_url("https://example.com/a", None).unwrap());
    assert_eq!(bare.to_string(), "https://example.com/a None");
}

#[test]
fn function_response_by_id_finds_the_matching_id() {
    let mut parts = Parts::default();
    parts.push(PartEnum::from_function_response(FunctionResponse {
        id: Some("a".to_string()),
        name: "first".to_string(),
        result: Json::Null,
    }));
    parts.push(PartEnum::from_function_response(FunctionResponse {
        id: Some("b".to_string()),
        name: "second".to_string(),
        result: Json::Null,
    }));
    assert_eq!(parts.function_response("b").unwrap().name, "second");
    assert!(parts.function_response("c").is_none());
}
