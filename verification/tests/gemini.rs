use chat_rs::error::ChatError;
use chat_rs::gemini::client::GeminiBuilder;
use chat_rs::gemini::request::{
    build_contents, build_request_body, build_request_url, build_system_instruction, build_tools_and_config,
    part_to_gemini, sanitize_schema_for_gemini, validate_combinations,
};
use chat_rs::gemini::response::{
    chat_response, counts_fit, gemini_reply,
    parse_reply_text,
    embedding_values, parse_finish_reason, parse_gemini_response, parse_metadata, parse_parts, parse_role, parse_usage,
};
use chat_rs::gemini::tools::{
    CodeExecutionTool, EmbeddingsConfig, EmbeddingsTask, FunctionCallingConfig, GeminiNativeTool, GoogleMapsTool,
    GoogleSearchTool,
};
use chat_rs::json::{to_json_string, Json};
use chat_rs::messages::content::{from_model, from_system, from_user, CompleteReasonEnum, Content, RoleEnum};
use chat_rs::messages::file::File;
use chat_rs::messages::parts::{PartEnum, Parts};
use chat_rs::messages::Messages;
use chat_rs::tools::{FunctionCall, FunctionResponse};

fn obj(fields: Vec<(&str, Json)>) -> Json {
    Json::object(fields.into_iter().map(|(k, v)| (k.to_string(), v)).collect())
}

fn s(t: &str) -> Json {
    Json::from_str(t)
}

fn conversation() -> Messages {
    let mut m = Messages::default();
    m.push(from_system(vec!["be brief"]));
    m.push(from_user(vec!["hi"]));
    m
}

#[test]
fn text_part_becomes_text_object() {
    let p = PartEnum::from_text("hello".to_string());
    assert_eq!(to_json_string(&part_to_gemini(&p)), "{\"text\":\"hello\"}");
}

#[test]
fn function_response_with_non_object_result_is_wrapped() {
    let p = PartEnum::from_function_response(FunctionResponse {
        id: None,
        name: "f".to_string(),
        result: Json::UInt(3),
    });
    assert_eq!(
        to_json_string(&part_to_gemini(&p)),
        "{\"functionResponse\":{\"name\":\"f\",\"response\":{\"content\":3}}}"
    );
}

#[test]
fn bytes_part_is_sent_inline_in_base64() {
    let p = PartEnum::from_file(File::from_bytes(b"hi!".to_vec(), "text/plain".to_string()));
    assert_eq!(
        to_json_string(&part_to_gemini(&p)),
        "{\"inline_data\":{\"data\":\"aGkh\",\"mime_type\":\"text/plain\"}}"
    );
}

#[test]
fn url_part_carries_its_mime_type_when_known() {
    let p = PartEnum::from_file(File::from_url("https://example.com/a.png", Some("image/png")).unwrap());
    assert_eq!(
        to_json_string(&part_to_gemini(&p)),
        "{\"file_data\":{\"file_uri\":\"https://example.com/a.png\",\"mime_type\":\"image/png\"}}"
    );
}

#[test]
fn system_messages_form_the_system_instruction() {
    let sys = build_system_instruction(&conversation()).unwrap();
    assert_eq!(to_json_string(&sys), "{\"parts\":[{\"text\":\"be brief\"}]}");
    assert!(build_system_instruction(&Messages::default()).is_none());
}

#[test]
fn contents_split_function_responses_into_their_own_entry() {
    let mut m = conversation();
    let mut parts = Parts::default();
    parts.push(PartEnum::from_text("calling".to_string()));
    parts.push(PartEnum::from_function_response(FunctionResponse {
        id: None,
        name: "tool".to_string(),
        result: obj(vec![("ok", Json::Bool(true))]),
    }));
    m.push(Content { parts, role: RoleEnum::Model, complete_reason: CompleteReasonEnum::NoReason, metadata: None });
    let contents = build_contents(&m).unwrap();
    assert_eq!(
        to_json_string(&contents),
        "[{\"parts\":[{\"text\":\"hi\"}],\"role\":\"user\"},{\"parts\":[{\"text\":\"calling\"}],\"role\":\"model\"},{\"parts\":[{\"functionResponse\":{\"name\":\"tool\",\"response\":{\"ok\":true}}}],\"role\":\"function\"}]"
    );
    let mut only_system = Messages::default();
    only_system.push(from_system(vec!["x"]));
    assert!(build_contents(&only_system).is_none());
}

#[test]
fn tools_and_config_are_left_out_when_empty() {
    let (tools, config) = build_tools_and_config(None, &Vec::new(), None);
    assert!(tools.is_none());
    assert!(config.is_none());
}

#[test]
fn native_tools_declare_and_configure() {
    let tools = vec![
        GeminiNativeTool::CodeExecution(CodeExecutionTool),
        GeminiNativeTool::GoogleSearch(GoogleSearchTool { dynamic_threshold: Some(Json::Float("0.3".to_string())) }),
        GeminiNativeTool::GoogleMaps(GoogleMapsTool {
            lat_lng: Some((Json::Float("10.0".to_string()), Json::Float("20.0".to_string()))),
            enable_widget: true,
        }),
    ];
    let fc = FunctionCallingConfig { mode: Some("AUTO".to_string()), allowed_function_names: Some(vec!["f".to_string()]) };
    let (list, config) = build_tools_and_config(Some(Json::array(vec![])), &tools, Some(&fc));
    assert_eq!(
        to_json_string(&list.unwrap()),
        "[{\"functionDeclarations\":[]},{\"codeExecution\":{}},{\"googleSearch\":{}},{\"googleMaps\":{\"enableWidget\":true}}]"
    );
    assert_eq!(
        to_json_string(&config.unwrap()),
        "{\"functionCallingConfig\":{\"allowedFunctionNames\":[\"f\"],\"mode\":\"AUTO\"},\"googleSearchRetrieval\":{\"dynamicRetrievalConfig\":{\"dynamicThreshold\":0.3,\"mode\":\"MODE_DYNAMIC\"}},\"retrievalConfig\":{\"latLng\":{\"latitude\":10.0,\"longitude\":20.0}}}"
    );
}

#[test]
fn schema_sanitizing_removes_rejected_keys_at_every_depth() {
    let schema = obj(vec![
        ("$schema", s("http://example")),
        ("title", s("Example")),
        (
            "properties",
            obj(vec![(
                "inner",
                obj(vec![("$id", s("id")), ("definitions", obj(vec![("x", obj(vec![]))])), ("type", s("object"))]),
            )]),
        ),
        ("additionalProperties", Json::Bool(false)),
    ]);
    let clean = sanitize_schema_for_gemini(&schema);
    assert_eq!(to_json_string(&clean), "{\"properties\":{\"inner\":{\"type\":\"object\"}}}");
}

#[test]
fn generation_body_holds_each_present_section() {
    let schema = obj(vec![("type", s("object")), ("title", s("T"))]);
    let body = build_request_body(&conversation(), "gemini-2.0", None, Some(&schema), &Vec::new(), None, None).unwrap();
    assert_eq!(
        to_json_string(&body),
        "{\"contents\":[{\"parts\":[{\"text\":\"hi\"}],\"role\":\"user\"}],\"generationConfig\":{\"responseMimeType\":\"application/json\",\"responseSchema\":{\"type\":\"object\"}},\"system_instruction\":{\"parts\":[{\"text\":\"be brief\"}]}}"
    );
}

#[test]
fn embedding_body_names_the_model_and_task() {
    let config = EmbeddingsConfig { dimensions: Some(8), task: EmbeddingsTask::Clustering };
    let body = build_request_body(&conversation(), "text-embedding:001", None, None, &Vec::new(), None, Some(&config)).unwrap();
    assert_eq!(
        to_json_string(&body),
        "{\"content\":{\"parts\":[{\"text\":\"hi\"}]},\"model\":\"models/text-embedding\",\"output_dimensionality\":8,\"taskType\":\"CLUSTERING\"}"
    );
}

#[test]
fn embedding_errors() {
    let config = EmbeddingsConfig::default();
    match build_request_body(&Messages::default(), "m", None, None, &Vec::new(), None, Some(&config)) {
        Err(ChatError::Provider(m)) => assert_eq!(m, "Sent empty content to embed, expected Text parts"),
        other => panic!("unexpected {:?}", other),
    }
    let mut with_call = Messages::default();
    let mut parts = Parts::default();
    parts.push(PartEnum::from_function_call(FunctionCall::new("f".to_string(), Json::Null)));
    with_call.push(Content { parts, role: RoleEnum::User, complete_reason: CompleteReasonEnum::NoReason, metadata: None });
    match build_request_body(&with_call, "m", None, None, &Vec::new(), None, Some(&config)) {
        Err(ChatError::InvalidResponse(m)) => assert_eq!(m, "Embedding requests require text-like parts only"),
        other => panic!("unexpected {:?}", other),
    }
    let mut empty = Messages::default();
    empty.push(Content::default());
    match build_request_body(&empty, "m", None, None, &Vec::new(), None, Some(&config)) {
        Err(ChatError::InvalidResponse(m)) => assert_eq!(m, "Sent empty content to embed, expected Text parts"),
        other => panic!("unexpected {:?}", other),
    }
}

#[test]
fn request_url_picks_the_method() {
    assert_eq!(
        build_request_url("gemini-2.0", false),
        "https://generativelanguage.googleapis.com/v1beta/models/gemini-2.0:generateContent"
    );
    assert_eq!(
        build_request_url("emb", true),
        "https://generativelanguage.googleapis.com/v1beta/models/emb:embedContent"
    );
}

#[test]
fn combination_warnings() {
    let search = vec![GeminiNativeTool::GoogleSearch(GoogleSearchTool { dynamic_threshold: None })];
    let decl = Json::Null;
    let w = validate_combinations(Some(&decl), Some(&decl), &search);
    assert_eq!(w.len(), 3);
    assert!(w[0].contains("Function Declarations"));
    assert!(validate_combinations(None, None, &search).is_empty());
    assert_eq!(validate_combinations(Some(&decl), Some(&decl), &Vec::new()).len(), 1);
}

fn candidate_response() -> Json {
    obj(vec![
        (
            "candidates",
            Json::array(vec![obj(vec![
                (
                    "content",
                    obj(vec![
                        (
                            "parts",
                            Json::array(vec![
                                obj(vec![("text", s("hello"))]),
                                obj(vec![("functionCall", obj(vec![("name", s("doThing")), ("args", obj(vec![("x", Json::UInt(1))]))]))]),
                                obj(vec![("executableCode", obj(vec![("language", s("PYTHON")), ("code", s("print(1)"))]))]),
                                obj(vec![("codeExecutionResult", obj(vec![("outcome", s("OUTCOME_OK")), ("output", s("1"))]))]),
                            ]),
                        ),
                        ("role", s("model")),
                    ]),
                ),
                ("finishReason", s("STOP")),
            ])]),
        ),
        ("responseId", s("r-1")),
        ("modelVersion", s("gemini-x")),
        (
            "usageMetadata",
            obj(vec![("promptTokenCount", Json::UInt(5)), ("candidatesTokenCount", Json::UInt(7))]),
        ),
    ])
}

#[test]
fn parses_the_first_candidate() {
    let content = parse_gemini_response(&candidate_response()).unwrap();
    assert_eq!(content.role, RoleEnum::Model);
    assert_eq!(content.complete_reason, CompleteReasonEnum::Stop);
    assert_eq!(content.parts.len(), 4);
    assert_eq!(content.parts.0[0].text().unwrap().as_str(), "hello");
    let call = content.parts.0[1].function_call().unwrap();
    assert_eq!(call.name, "doThing");
    assert_eq!(call.id.unwrap().len(), 36);
    assert_eq!(content.parts.0[2].text().unwrap().as_str(), "```python\nprint(1)\n```");
    assert_eq!(content.parts.0[3].text().unwrap().as_str(), "```OUTCOME_OK\n1\n```");
}

#[test]
fn response_errors() {
    match parse_gemini_response(&obj(vec![])) {
        Err(ChatError::InvalidResponse(m)) => assert_eq!(m, "No candidates in response"),
        other => panic!("unexpected {:?}", other),
    }
    let no_content = obj(vec![("candidates", Json::array(vec![obj(vec![])]))]);
    match parse_gemini_response(&no_content) {
        Err(ChatError::InvalidResponse(m)) => assert_eq!(m, "No content in candidate"),
        other => panic!("unexpected {:?}", other),
    }
    let no_name = obj(vec![("parts", Json::array(vec![obj(vec![("functionCall", obj(vec![]))])]))]);
    match parse_parts(&no_name) {
        Err(ChatError::InvalidResponse(m)) => assert_eq!(m, "Missing function call name"),
        other => panic!("unexpected {:?}", other),
    }
    let no_args = obj(vec![("parts", Json::array(vec![obj(vec![("functionCall", obj(vec![("name", s("f"))]))])]))]);
    match parse_parts(&no_args) {
        Err(ChatError::InvalidResponse(m)) => assert_eq!(m, "Missing function call args"),
        other => panic!("unexpected {:?}", other),
    }
}

#[test]
fn roles_and_finish_reasons() {
    assert_eq!(parse_role(&obj(vec![("role", s("user"))])), RoleEnum::User);
    assert_eq!(parse_role(&obj(vec![("role", s("system"))])), RoleEnum::System);
    assert_eq!(parse_role(&obj(vec![("role", s("function"))])), RoleEnum::Model);
    assert_eq!(parse_role(&obj(vec![])), RoleEnum::Model);
    assert_eq!(parse_finish_reason(&obj(vec![("finishReason", s("MAX_TOKENS"))])), CompleteReasonEnum::MaxTokens);
    assert_eq!(
        parse_finish_reason(&obj(vec![("finishReason", s("SAFETY"))])),
        CompleteReasonEnum::ContentFilter
    );
    assert_eq!(parse_finish_reason(&obj(vec![("finishReason", s("RECITATION"))])), CompleteReasonEnum::ContentFilter);
    assert_eq!(parse_finish_reason(&obj(vec![("finishReason", s("OTHER"))])), CompleteReasonEnum::ContentFilter);
    assert_eq!(parse_finish_reason(&obj(vec![("finishReason", s("STOP"))])), CompleteReasonEnum::Stop);
    assert_eq!(parse_finish_reason(&obj(vec![])), CompleteReasonEnum::NoReason);
    assert_eq!(parse_finish_reason(&obj(vec![("finishReason", s("UNKNOWN"))])), CompleteReasonEnum::NoReason);
}

#[test]
fn usage_total_defaults_to_the_sum() {
    let u = parse_usage(&candidate_response());
    assert_eq!(u.input_tokens, 5);
    assert_eq!(u.output_tokens, 7);
    assert_eq!(u.total_tokens, 12);
    let given = obj(vec![(
        "usageMetadata",
        obj(vec![("promptTokenCount", Json::UInt(5)), ("candidatesTokenCount", Json::UInt(7)), ("totalTokenCount", Json::UInt(20))]),
    )]);
    assert_eq!(parse_usage(&given).total_tokens, 20);
    let m = parse_metadata(&candidate_response());
    assert_eq!(m.id.as_deref(), Some("r-1"));
    assert_eq!(m.model_slug.as_deref(), Some("gemini-x"));
    assert_eq!(m.usage.total_tokens, 12);
}

#[test]
fn embedding_responses_are_recognised() {
    let e = obj(vec![("embedding", obj(vec![("values", Json::array(vec![Json::Float("0.1".to_string())]))]))]);
    assert!(embedding_values(&e).is_some());
    assert!(embedding_values(&candidate_response()).is_none());
}

#[test]
fn builder_keeps_settings_and_merges_embedding_settings() {
    let mut b = GeminiBuilder::new();
    b.with_model("custom-model".to_string()).with_api_key("sk-test".to_string());
    b.with_code_execution().with_google_search();
    b.with_embeddings(Some(64));
    b.with_embeddings_task(EmbeddingsTask::SemanticSimilarity);
    let c = b.build(None);
    assert_eq!(c.model_name, "custom-model");
    assert_eq!(c.api_key, "sk-test");
    assert_eq!(c.native_tools.len(), 2);
    let e = c.embeddings_config.unwrap();
    assert_eq!(e.dimensions, Some(64));
    assert!(matches!(e.task, EmbeddingsTask::SemanticSimilarity));
    let mut d = GeminiBuilder::new();
    let c = d.build(Some("env-key".to_string()));
    assert_eq!(c.model_name, "gemini-2.0-flash-exp");
    assert_eq!(c.api_key, "env-key");
    let mut e = GeminiBuilder::new();
    e.with_api_key("own".to_string());
    assert_eq!(e.build(Some("env-key".to_string())).api_key, "own");
}

#[test]
fn model_messages_keep_their_role_in_contents() {
    let mut m = Messages::default();
    m.push(from_model(vec!["answer"]));
    assert_eq!(
        to_json_string(&build_contents(&m).unwrap()),
        "[{\"parts\":[{\"text\":\"answer\"}],\"role\":\"model\"}]"
    );
}

#[test]
fn reply_text_is_read_as_json() {
    let j = parse_reply_text("{\"b\": [1, -2, 0.5, \"x\"], \"a\": null}").unwrap();
    assert_eq!(to_json_string(&j), "{\"a\":null,\"b\":[1,-2,0.5,\"x\"]}");
    assert_eq!(j.get("b").and_then(|b| b.at(1)).map(to_json_string).as_deref(), Some("-2"));
    match parse_reply_text("not json") {
        Err(ChatError::InvalidResponse(m)) => assert!(!m.is_empty() && m != "not json"),
        _ => panic!("expected an invalid-response error"),
    }
}

#[test]
fn gemini_reply_composes_message_and_metadata() {
    let doc = candidate_response();
    assert!(counts_fit(&doc));
    let r = gemini_reply(Ok(doc)).unwrap();
    assert_eq!(r.content.role, RoleEnum::Model);
    let m = r.metadata.unwrap();
    assert_eq!(m.model_slug.as_deref(), Some("gemini-x"));
    assert_eq!((m.usage.input_tokens, m.usage.output_tokens, m.usage.total_tokens), (5, 7, 12));
    let e = match gemini_reply(Err("HTTP status client error (404 Not Found)".to_string())) {
        Err(e) => e,
        Ok(_) => panic!("expected a failure"),
    };
    assert!(matches!(e.err, ChatError::Provider(ref m) if m == "HTTP status client error (404 Not Found)"));
    assert!(e.metadata.is_none());
    let f = match chat_response(&obj(vec![])) {
        Err(f) => f,
        Ok(_) => panic!("expected a failure"),
    };
    assert!(f.metadata.is_some());
    let big = obj(vec![("usageMetadata", obj(vec![("promptTokenCount", Json::UInt(u64::MAX)), ("candidatesTokenCount", Json::UInt(1))]))]);
    assert!(!counts_fit(&big));
}
