use chat_rs::chat::ChatResponse;
use chat_rs::error::ChatError;
use chat_rs::json::Json;
use chat_rs::messages::content::from_model;
use chat_rs::messages::from_user;
use chat_rs::metadata::Metadata;
use chat_rs::transport::ReqwestTransport;
use chat_rs::wire::encoding::make_data_uri;
use chat_rs::wire::endpoint::{base_url_parts, trim_end_slashes};
use chat_rs::wire::http::{
    handle_openai_error, handle_responses_error, OpenAIErrorDetail, OpenAIErrorResponse, Response,
    ResponsesErrorDetail, ResponsesErrorResponse,
};
use chat_rs::wire::responses_request::{ResponsesRequest, ResponsesRequestConfig};
use chat_rs::wire::session::{bearer_header, join_path, ResponseChain};
use chat_rs::openrouter::OpenRouterBuilder;
use chat_rs::wire::client::ResponsesBuilder;

fn response(status: u16, body: &[u8]) -> Response {
    Response { status, headers: vec![], body: body.to_vec() }
}

#[test]
fn test_from_core_without_previous_response_id() {
    let messages = from_user(vec!["hello"]);
    let extra: Vec<Json> = Vec::new();
    let req = ResponsesRequest::from_core(ResponsesRequestConfig {
        model_name: "gpt-4o",
        messages: &messages,
        tool_declarations: None,
        extra_tool_declarations: &extra,
        reasoning_effort: None,
        options: None,
        output_schema: None,
        previous_response_id: None,
        store: None,
    });
    assert!(req.previous_response_id.is_none());
}

#[test]
fn test_from_core_with_previous_response_id() {
    let messages = from_user(vec!["hello"]);
    let extra: Vec<Json> = Vec::new();
    let req = ResponsesRequest::from_core(ResponsesRequestConfig {
        model_name: "gpt-4o",
        messages: &messages,
        tool_declarations: None,
        extra_tool_declarations: &extra,
        reasoning_effort: None,
        options: None,
        output_schema: None,
        previous_response_id: Some("resp_abc".to_string()),
        store: None,
    });
    assert_eq!(req.previous_response_id.as_deref(), Some("resp_abc"));
}

#[test]
fn success_passes_through() {
    let res = handle_openai_error(response(200, b"{}"), None).unwrap();
    assert_eq!(res.status, 200);
}

#[test]
fn rate_limit_maps_to_rate_limited() {
    let f = handle_openai_error(response(429, b"rate limited"), None).unwrap_err();
    assert!(matches!(f.err, ChatError::RateLimited));
}

#[test]
fn server_error_maps_to_provider() {
    let f = handle_openai_error(response(500, b"internal server error"), None).unwrap_err();
    match f.err {
        ChatError::Provider(m) => assert_eq!(m, "HTTP 500 Error: internal server error"),
        other => panic!("unexpected {:?}", other),
    }
}

#[test]
fn error_envelope_is_read() {
    let parsed = OpenAIErrorResponse {
        error: OpenAIErrorDetail { code: None, message: "bad key".to_string(), status: Some("UNAUTHENTICATED".to_string()) },
    };
    let f = handle_openai_error(response(401, b"{}"), Some(parsed)).unwrap_err();
    match f.err {
        ChatError::Provider(m) => assert_eq!(m, "OpenAI API Error[401] (UNAUTHENTICATED): bad key"),
        other => panic!("unexpected {:?}", other),
    }
    let parsed = ResponsesErrorResponse {
        error: ResponsesErrorDetail { code: Some("x1".to_string()), message: "nope".to_string(), status: None },
    };
    let f = handle_responses_error(response(400, b"{}"), Some(parsed)).unwrap_err();
    match f.err {
        ChatError::Provider(m) => assert_eq!(m, "Responses API Error[x1] (UNKNOWN): nope"),
        other => panic!("unexpected {:?}", other),
    }
}

#[test]
fn invalid_utf8_bodies_are_read_lossily() {
    let f = handle_responses_error(response(502, &[0x66, 0xff, 0x6f]), None).unwrap_err();
    match f.err {
        ChatError::Provider(m) => assert_eq!(m, "HTTP 502 Error: f\u{fffd}o"),
        other => panic!("unexpected {:?}", other),
    }
}

#[test]
fn base_urls_split_into_scheme_host_and_path() {
    let b = base_url_parts("https://api.openai.com/v1/").unwrap();
    assert_eq!(b.scheme, "https");
    assert_eq!(b.host, "api.openai.com");
    assert_eq!(b.base_path, "/v1");
    let b = base_url_parts("http://localhost:11434/api//").unwrap();
    assert_eq!(b.host, "localhost:11434");
    assert_eq!(b.base_path, "/api");
    assert!(base_url_parts("not a url").is_none());
    assert!(base_url_parts("data:text/plain,hi").is_none());
}

#[test]
fn trailing_slashes_are_trimmed() {
    assert_eq!(trim_end_slashes("https://x.org/v1///"), "https://x.org/v1");
    assert_eq!(trim_end_slashes("plain"), "plain");
    assert_eq!(trim_end_slashes("///"), "");
}

#[test]
fn paths_and_headers() {
    assert_eq!(join_path("/v1", "responses"), "/v1/responses");
    assert_eq!(bearer_header("test-key"), "Bearer test-key");
}

#[test]
fn response_chain_names_the_last_response() {
    let mut chain = ResponseChain::new(true);
    assert!(chain.previous_response_id().is_none());
    chain.record_response_id(Some("resp_1".to_string()));
    assert_eq!(chain.previous_response_id().as_deref(), Some("resp_1"));
    chain.record_response_id(None);
    assert_eq!(chain.previous_response_id().as_deref(), Some("resp_1"));
    let streamed = ChatResponse {
        content: from_model(vec!["x"]),
        metadata: Some(Metadata { id: Some("resp_2".to_string()), ..Default::default() }),
    };
    chain.on_stream_done(&streamed);
    assert_eq!(chain.previous_response_id().as_deref(), Some("resp_2"));
    let mut off = ResponseChain::new(false);
    off.record_response_id(Some("resp_1".to_string()));
    assert!(off.previous_response_id().is_none());
}

#[test]
fn base64_and_data_uris() {
    assert_eq!(make_data_uri("text/plain", b"hello"), "data:text/plain;base64,aGVsbG8=");
    assert_eq!(make_data_uri("image/png", b"\x00\x01"), "data:image/png;base64,AAE=");
}

#[test]
fn transport_can_be_made() {
    let t = ReqwestTransport::new();
    let _other = ReqwestTransport::from(t.client.clone());
}

#[test]
fn responses_builder_rejects_unparsable_address() {
    assert!(ResponsesBuilder::new().try_with_base_url("not a url").is_none());
    assert!(ResponsesBuilder::new().try_with_base_url("mailto:someone@example.com").is_none());
    assert!(ResponsesBuilder::new().try_with_base_url("https://api.openai.com/v1").is_some());
}

#[test]
fn responses_builder_builds_chained_client() {
    let c = ResponsesBuilder::new()
        .with_model("gpt-4o".to_string())
        .with_api_key("k".to_string())
        .with_base_url("http://localhost:8080/v1//")
        .with_store(true)
        .with_tool_declaration(Json::string("t".to_string()))
        .build();
    assert_eq!(c.model_name, "gpt-4o");
    assert_eq!(c.api_key, "k");
    assert_eq!(c.endpoint.scheme, "http");
    assert_eq!(c.endpoint.host, "localhost:8080");
    assert_eq!(c.endpoint.base_path, "/v1");
    assert!(c.chain.use_previous_response_id);
    assert!(c.chain.last_response_id.is_none());
    assert_eq!(c.store, Some(true));
    assert_eq!(c.extra_tool_declarations.len(), 1);
}

#[test]
fn responses_builder_without_chaining() {
    let c = ResponsesBuilder::default()
        .with_base_url("https://api.openai.com/v1")
        .with_model("m".to_string())
        .with_api_key("k".to_string())
        .without_previous_response_id()
        .with_reasoning_effort("high".to_string())
        .build();
    assert!(!c.chain.use_previous_response_id);
    assert_eq!(c.reasoning_effort.as_deref(), Some("high"));
    assert_eq!(c.endpoint.host, "api.openai.com");
    assert_eq!(c.endpoint.base_path, "/v1");
}

#[test]
fn openrouter_builder_defaults_and_no_chaining() {
    let c = OpenRouterBuilder::new()
        .with_model("openai/gpt-4o".to_string())
        .build(Some("env-key".to_string()));
    assert_eq!(c.api_key, "env-key");
    assert_eq!(c.model_name, "openai/gpt-4o");
    assert_eq!(c.endpoint.scheme, "https");
    assert_eq!(c.endpoint.host, "openrouter.ai");
    assert_eq!(c.endpoint.base_path, "/api/v1");
    assert!(!c.chain.use_previous_response_id);
    assert!(c.store.is_none());
}

#[test]
fn openrouter_builder_prefers_set_key() {
    let c = OpenRouterBuilder::new()
        .with_model("m".to_string())
        .with_api_key("own".to_string())
        .with_reasoning_effort("low".to_string())
        .build(Some("env".to_string()));
    assert_eq!(c.api_key, "own");
    assert_eq!(c.reasoning_effort.as_deref(), Some("low"));
}

#[test]
fn openrouter_builder_refuses_bad_base_url() {
    let b = OpenRouterBuilder::new().with_base_url("no url".to_string()).with_model("m".to_string());
    assert!(b.try_build(Some("k".to_string())).is_none());
    let ok = OpenRouterBuilder::new().with_model("m".to_string()).try_build(Some("k".to_string()));
    assert_eq!(ok.map(|c| c.endpoint.host), Some("openrouter.ai".to_string()));
}

#[test]
fn openrouter_resolve_api_key_takes_the_set_key_once() {
    let mut b = OpenRouterBuilder::new().with_api_key("own".to_string());
    assert_eq!(b.resolve_api_key(Some("env".to_string())).as_deref(), Some("own"));
    assert_eq!(b.resolve_api_key(Some("env".to_string())).as_deref(), Some("env"));
    assert_eq!(b.resolve_api_key(None), None);
}
