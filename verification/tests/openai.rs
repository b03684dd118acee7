use chat_rs::chat::ChatResponse;
use chat_rs::error::ChatError;
use chat_rs::json::{to_json_string, Json};
use chat_rs::messages::content::{from_model, CompleteReasonEnum, Content, RoleEnum};
use chat_rs::messages::from_user;
use chat_rs::messages::file::File;
use chat_rs::messages::parts::{PartEnum, Parts};
use chat_rs::messages::Messages;
use chat_rs::openai::client::OpenAIBuilder;
use chat_rs::options::ChatOptions;
use chat_rs::openai::embedding::{embedding_metadata, OpenAIEmbeddingRequest};
use chat_rs::openai::stream::{event_kind, SseData, SseKind, SsePayload, StreamEvent, StreamState, UsageCounts};
use chat_rs::openai::tools::{
    ImageGenerationTool, ImageOutputFormat, ImageQuality, ImageSize, OpenAINativeTool, SearchContextSizeEnum,
    UserLocation, WebSearchTool,
};
use chat_rs::openai::types::{OpenAIContent, OpenAIPartEnum, OpenAIRole};

#[test]
fn role_names() {
    assert_eq!(OpenAIRole::System.as_str(), "system");
    assert_eq!(OpenAIRole::User.as_str(), "user");
    assert_eq!(OpenAIRole::Assistant.as_str(), "assistant");
    assert_eq!(OpenAIRole::Tool.as_str(), "tool");
}

#[test]
fn roles_map_both_ways() {
    assert_eq!(OpenAIRole::from(&RoleEnum::Model), OpenAIRole::Assistant);
    assert_eq!(RoleEnum::from(&OpenAIRole::Tool), RoleEnum::Model);
    for r in [RoleEnum::User, RoleEnum::System, RoleEnum::Model] {
        assert_eq!(RoleEnum::from(&OpenAIRole::from(&r)), r);
    }
}

#[test]
fn content_survives_the_round_trip() {
    let original = from_model(vec!["a", "b"]);
    let oai = OpenAIContent::from(&original);
    assert_eq!(oai.role, OpenAIRole::Assistant);
    assert_eq!(oai.parts.len(), 2);
    let back = Content::from(oai);
    assert_eq!(back, original);
    let fresh = OpenAIContent::new(OpenAIRole::User, vec![OpenAIPartEnum::Text("x".to_string())]);
    assert_eq!(fresh.complete_reason, CompleteReasonEnum::NoReason);
    let p = PartEnum::from(OpenAIPartEnum::Reasoning("r".to_string()));
    assert_eq!(p.reasoning().unwrap().as_str(), "r");
}

#[test]
fn embedding_request_takes_the_last_message() {
    let mut messages = from_user(vec!["one"]);
    let r = OpenAIEmbeddingRequest::from_core("emb-model", &messages).unwrap();
    assert_eq!(r.model, "emb-model");
    assert_eq!(r.input, Json::from_str("one"));
    let mut parts = Parts::default();
    parts.push(PartEnum::from_text("t".to_string()));
    parts.push(PartEnum::from_file(File::from_bytes(b"hi!".to_vec(), "text/plain".to_string())));
    parts.push(PartEnum::from_file(File::from_url("https://example.com/x", None).unwrap()));
    parts.push(PartEnum::from_structured(Json::Null));
    messages.push(Content { parts, role: RoleEnum::Model, complete_reason: CompleteReasonEnum::NoReason, metadata: None });
    let r = OpenAIEmbeddingRequest::from_core("m", &messages).unwrap();
    assert_eq!(
        to_json_string(&r.input),
        "[\"t\",\"data:text/plain;base64,aGkh\",\"https://example.com/x\"]"
    );
}

#[test]
fn embedding_request_errors() {
    match OpenAIEmbeddingRequest::from_core("m", &Messages::default()) {
        Err(ChatError::InvalidResponse(m)) => assert_eq!(m, "Sent empty content to embed"),
        other => panic!("unexpected {:?}", other.map(|r| r.model)),
    }
    let mut messages = Messages::default();
    let mut parts = Parts::default();
    parts.push(PartEnum::from_structured(Json::Null));
    messages.push(Content { parts, role: RoleEnum::User, complete_reason: CompleteReasonEnum::NoReason, metadata: None });
    assert!(OpenAIEmbeddingRequest::from_core("m", &messages).is_err());
}

#[test]
fn web_search_declaration() {
    let tool = WebSearchTool {
        context_size: Some(SearchContextSizeEnum::High),
        user_location: Some(UserLocation {
            city: Some("Paris".to_string()),
            region: None,
            country: Some("FR".to_string()),
            timezone: None,
        }),
    };
    assert_eq!(tool.tool_key(), "web_search");
    assert_eq!(
        to_json_string(&tool.to_tool_declaration()),
        "{\"type\":\"web_search\",\"web_search\":{\"context_size\":\"High\",\"user_location\":{\"city\":\"Paris\",\"country\":\"FR\",\"region\":null,\"timezone\":null}}}"
    );
    let bare = WebSearchTool { context_size: None, user_location: None };
    assert_eq!(
        to_json_string(&bare.to_tool_declaration()),
        "{\"type\":\"web_search\",\"web_search\":{\"context_size\":null,\"user_location\":null}}"
    );
    assert!(bare.to_tool_config().is_none());
}

#[test]
fn image_generation_declaration() {
    let tool = ImageGenerationTool {
        size: Some(ImageSize::Portrait),
        quality: Some(ImageQuality::High),
        background: None,
        output_format: Some(ImageOutputFormat::Webp),
        n: Some(2),
    };
    assert_eq!(
        to_json_string(&tool.to_tool_declaration()),
        "{\"n\":2,\"output_format\":\"webp\",\"quality\":\"high\",\"size\":\"1024x1536\",\"type\":\"image_generation\"}"
    );
    let plain = OpenAINativeTool::ImageGeneration(ImageGenerationTool::default());
    assert_eq!(plain.tool_key(), "image_generation");
    assert_eq!(to_json_string(&plain.to_tool_declaration()), "{\"type\":\"image_generation\"}");
    assert!(!plain.is_search());
}

#[test]
fn event_kinds() {
    assert_eq!(event_kind("response.created"), SseKind::Created);
    assert_eq!(event_kind("response.output_text.delta"), SseKind::TextDelta);
    assert_eq!(event_kind("response.completed"), SseKind::Completed);
    assert_eq!(event_kind("ping"), SseKind::Other);
}

#[test]
fn stream_state_gathers_a_response() {
    let mut state = StreamState::default();
    let r = state.handle_event(SseData::Decoded(SsePayload::Created { id: Some("resp_1".to_string()) })).unwrap();
    assert!(r.is_none());
    assert_eq!(state.metadata.as_ref().unwrap().id.as_deref(), Some("resp_1"));
    match state.handle_event(SseData::Decoded(SsePayload::TextDelta("Hel".to_string()))).unwrap() {
        Some(StreamEvent::TextChunk(t)) => assert_eq!(t, "Hel"),
        _ => panic!("expected a chunk"),
    }
    match state
        .handle_event(SseData::Decoded(SsePayload::ItemAdded {
            function_call: Some((Some("call_1".to_string()), Some("f".to_string()))),
        }))
        .unwrap()
    {
        Some(StreamEvent::ToolCall(fc)) => {
            assert_eq!(fc.id.as_deref(), Some("call_1"));
            assert_eq!(fc.name, "f");
            assert_eq!(fc.arguments, Json::Null);
        }
        _ => panic!("expected a tool call"),
    }
    state
        .handle_event(SseData::Decoded(SsePayload::FcArgsDelta { item_id: Some("call_1".to_string()), delta: "{}".to_string() }))
        .unwrap();
    assert_eq!(state.fc_args[0].1, "{}");
    let mut parts = Parts::default();
    parts.push(PartEnum::from_text("Hello".to_string()));
    state
        .handle_event(SseData::Decoded(SsePayload::Completed {
            id: Some("resp_1".to_string()),
            model: Some("gpt-4o".to_string()),
            parts,
            has_function_call: false,
            usage: Some(UsageCounts { input_tokens: Some(12), output_tokens: Some(8), total_tokens: Some(20) }),
            status: Some("incomplete".to_string()),
        }))
        .unwrap();
    let response: ChatResponse = state.into_response();
    assert_eq!(response.content.role, RoleEnum::Model);
    assert_eq!(response.content.complete_reason, CompleteReasonEnum::MaxTokens);
    assert_eq!(response.content.parts.len(), 1);
    let meta = response.metadata.unwrap();
    assert_eq!(meta.model_slug.as_deref(), Some("gpt-4o"));
    assert_eq!(meta.usage.input_tokens, 12);
    assert_eq!(meta.usage.output_tokens, 8);
    assert_eq!(meta.usage.total_tokens, 20);
}

#[test]
fn stream_state_errors_and_skips() {
    let mut state = StreamState::default();
    assert!(state.handle_event(SseData::Undecodable(SseKind::Created, "bad".to_string())).unwrap().is_none());
    match state.handle_event(SseData::Undecodable(SseKind::TextDelta, "bad json".to_string())) {
        Err(ChatError::InvalidResponse(m)) => assert_eq!(m, "bad json"),
        _ => panic!("expected an error"),
    }
    assert!(state.handle_event(SseData::Ignored).unwrap().is_none());
    let mut parts = Parts::default();
    parts.push(PartEnum::from_text("x".to_string()));
    state
        .handle_event(SseData::Decoded(SsePayload::Completed {
            id: None,
            model: None,
            parts,
            has_function_call: true,
            usage: None,
            status: Some("completed".to_string()),
        }))
        .unwrap();
    assert_eq!(state.reason, CompleteReasonEnum::ToolCall);
}

#[test]
fn openai_builder_defaults() {
    let c = OpenAIBuilder::new().with_model("gpt-4o".to_string()).build(Some("env".to_string()));
    assert_eq!(c.model_name, "gpt-4o");
    assert_eq!(c.api_key, "env");
    assert_eq!(c.base_url, "https://api.openai.com/v1");
    assert!(c.native_tools.is_empty());
    assert!(c.chain.use_previous_response_id);
    assert!(c.chain.last_response_id.is_none());
    assert!(c.store.is_none());
}

#[test]
fn openai_builder_custom_url_and_completion_settings() {
    let c = OpenAIBuilder::default()
        .with_custom_url("http://localhost:11434/v1///".to_string())
        .with_reasoning_effort("medium")
        .with_web_search(Some(SearchContextSizeEnum::High), None)
        .with_model("llama".to_string())
        .with_api_key("own".to_string())
        .with_store(false)
        .build(Some("env".to_string()));
    assert_eq!(c.base_url, "http://localhost:11434/v1");
    assert_eq!(c.api_key, "own");
    assert_eq!(c.reasoning_effort.as_deref(), Some("medium"));
    assert_eq!(c.native_tools.len(), 1);
    assert_eq!(c.native_tools[0].tool_key(), "web_search");
    assert_eq!(c.store, Some(false));
}

#[test]
fn openai_builder_embeddings_drop_completion_settings() {
    let c = OpenAIBuilder::new()
        .with_store(true)
        .with_embeddings()
        .with_model("text-embedding-3-small".to_string())
        .build(Some("k".to_string()));
    assert!(c.native_tools.is_empty());
    assert!(c.reasoning_effort.is_none());
    assert!(!c.chain.use_previous_response_id);
    assert!(c.store.is_none());
}

#[test]
fn openai_client_requests_follow_the_chain() {
    let mut c = OpenAIBuilder::new()
        .with_web_search(None, None)
        .with_model("gpt-4o".to_string())
        .build(Some("k".to_string()));
    let messages = from_user(vec!["hi"]);
    let first = c.completion_request(&messages, None, None, None);
    assert!(first.previous_response_id.is_none());
    assert_eq!(first.model, "gpt-4o");
    let tools = first.tools.expect("native tool declared");
    assert_eq!(tools.len(), 1);
    assert_eq!(tools[0].get("type").and_then(|t| t.as_str()), Some("web_search"));
    c.record_response_id(Some("resp_1".to_string()));
    let options = ChatOptions { temperature: Some(Json::Float("0.5".to_string())), top_p: None, max_tokens: Some(64) };
    let second = c.stream_request(&messages, None, Some(&options));
    assert_eq!(second.previous_response_id.as_deref(), Some("resp_1"));
    assert_eq!(second.stream, Some(true));
    assert_eq!(second.max_output_tokens, Some(64));
    assert_eq!(second.temperature.as_ref().map(to_json_string).as_deref(), Some("0.5"));
    assert!(second.top_p.is_none());
    assert!(first.temperature.is_none() && first.max_output_tokens.is_none());
}

#[test]
fn openai_client_without_chaining_names_no_previous_response() {
    let mut c = OpenAIBuilder::new()
        .without_previous_response_id()
        .with_model("gpt-4o".to_string())
        .build(Some("k".to_string()));
    c.record_response_id(Some("resp_1".to_string()));
    let r = c.completion_request(&from_user(vec!["hi"]), None, None, None);
    assert!(r.previous_response_id.is_none());
    assert!(r.tools.is_none());
}

#[test]
fn embedding_reply_needs_exactly_one_embedding() {
    let none = embedding_metadata(0, None, None).unwrap_err();
    assert!(matches!(none, ChatError::InvalidResponse(ref m) if m == "No embedding data returned by OpenAI"));
    let two = embedding_metadata(2, None, None).unwrap_err();
    assert!(matches!(two, ChatError::InvalidResponse(ref m) if m == "Expected a single embedding result"));
    let usage = UsageCounts { input_tokens: Some(7), output_tokens: None, total_tokens: Some(7) };
    let m = embedding_metadata(1, Some("text-embedding-3-small".to_string()), Some(usage)).unwrap();
    assert_eq!(m.model_slug.as_deref(), Some("text-embedding-3-small"));
    assert_eq!(m.usage.input_tokens, 7);
    assert_eq!(m.usage.output_tokens, 0);
    assert_eq!(m.usage.total_tokens, 7);
    assert!(m.id.is_none());
}
