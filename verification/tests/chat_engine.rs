use chat_rs::chat::{
    embed_outcome, EmbedOutcome,
    extract_structured_candidate, gather_metadata, CallLoop, ChatResponse, LoopAction, RetryAction, RetryLoop, StreamAction,
    StreamLoop,
};
use chat_rs::error::{ChatError, ChatFailure};
use chat_rs::json::Json;
use chat_rs::messages::content::{from_model, CompleteReasonEnum, Content, RoleEnum};
use chat_rs::messages::from_user;
use chat_rs::messages::parts::{PartEnum, Parts};
use chat_rs::messages::Messages;
use chat_rs::metadata::{Metadata, Usage};
use chat_rs::tools::{FunctionCall, FunctionResponse};

fn model_message(parts: Vec<PartEnum>) -> Content {
    Content { parts: Parts(parts), role: RoleEnum::Model, complete_reason: CompleteReasonEnum::Stop, metadata: None }
}

fn response(parts: Vec<PartEnum>, tokens: usize) -> ChatResponse {
    ChatResponse {
        content: model_message(parts),
        metadata: Some(Metadata {
            usage: Usage { total_tokens: tokens, ..Default::default() },
            ..Default::default()
        }),
    }
}

#[test]
fn text_answer_ends_the_loop_with_the_message() {
    let mut messages = from_user(vec!["hi"]);
    let (mut state, action) = CallLoop::start(None, false);
    assert!(matches!(action, LoopAction::CallModel));
    let action = state.on_model_result(&mut messages, Ok(response(vec![PartEnum::from_text("hello".to_string())], 3)));
    match action {
        LoopAction::Finish(Ok(r)) => {
            assert_eq!(r.content.parts.0[0].text().unwrap().as_str(), "hello");
            assert_eq!(r.metadata.unwrap().usage.total_tokens, 3);
        }
        _ => panic!("expected an answer"),
    }
    assert_eq!(messages.len(), 2);
}

#[test]
fn tool_calls_go_to_the_tools_and_back_to_the_model() {
    let mut messages = from_user(vec!["weather?"]);
    let (mut state, _) = CallLoop::start(Some(3), true);
    let call = FunctionCall::new("weather".to_string(), Json::object(vec![]));
    let action = state.on_model_result(&mut messages, Ok(response(vec![PartEnum::from_function_call(call)], 2)));
    let calls = match action {
        LoopAction::CallTools(calls) => calls,
        _ => panic!("expected tool calls"),
    };
    assert_eq!(calls.len(), 1);
    assert_eq!(calls[0].name, "weather");
    let mut answers = Parts::default();
    answers.push(PartEnum::from_function_response(FunctionResponse {
        id: calls[0].id.clone(),
        name: "weather".to_string(),
        result: Json::from_str("sunny"),
    }));
    let action = state.on_tool_result(&mut messages, Ok(answers));
    assert!(matches!(action, LoopAction::CallModel));
    assert_eq!(messages.len(), 3);
    assert_eq!(messages.last().unwrap().role, RoleEnum::User);
    let action = state.on_model_result(&mut messages, Ok(response(vec![PartEnum::from_text("sunny".to_string())], 4)));
    match action {
        LoopAction::Finish(Ok(r)) => assert_eq!(r.metadata.unwrap().usage.total_tokens, 6),
        _ => panic!("expected an answer"),
    }
}

#[test]
fn running_out_of_steps_is_rate_limited() {
    let mut messages = from_user(vec!["think"]);
    let (mut state, _) = CallLoop::start(Some(1), false);
    let action = state.on_model_result(&mut messages, Ok(response(vec![PartEnum::from_reasoning("hmm".to_string())], 1)));
    match action {
        LoopAction::Finish(Err(f)) => {
            assert!(matches!(f.err, ChatError::RateLimited));
            assert!(f.metadata.is_some());
        }
        _ => panic!("expected the step limit"),
    }
}

#[test]
fn a_message_without_parts_is_an_error() {
    let mut messages = from_user(vec!["x"]);
    let (mut state, _) = CallLoop::start(Some(2), false);
    match state.on_model_result(&mut messages, Ok(response(vec![], 1))) {
        LoopAction::Finish(Err(f)) => match f.err {
            ChatError::InvalidResponse(m) => assert_eq!(m, "Response did not generate any parts"),
            other => panic!("unexpected {:?}", other),
        },
        _ => panic!("expected an error"),
    }
}

#[test]
fn zero_steps_fail_at_once() {
    let (_, action) = CallLoop::start(Some(0), false);
    assert!(matches!(action, LoopAction::Finish(Err(ChatFailure { err: ChatError::RateLimited, metadata: None }))));
}

#[test]
fn a_model_failure_ends_the_loop_as_it_is() {
    let mut messages = from_user(vec!["x"]);
    let (mut state, _) = CallLoop::start(None, false);
    let failure = ChatFailure::from_err(ChatError::Network("down".to_string()));
    match state.on_model_result(&mut messages, Err(failure)) {
        LoopAction::Finish(Err(f)) => assert!(matches!(f.err, ChatError::Network(_))),
        _ => panic!("expected the failure"),
    }
    assert_eq!(messages.len(), 1);
}

#[test]
fn retries_cut_the_conversation_back_and_report_the_last_error() {
    let mut messages = from_user(vec!["q"]);
    let (mut state, action) = RetryLoop::start(Some(2), &messages);
    assert!(matches!(action, RetryAction::Attempt));
    messages.push(from_model(vec!["partial"]));
    let failure = ChatFailure::from_err(ChatError::Provider("bad".to_string()));
    let action = state.on_attempt(&mut messages, Err(failure));
    match &action {
        RetryAction::Retry(idx, f, _) => {
            assert_eq!(*idx, 0);
            assert!(matches!(f.err, ChatError::Provider(_)));
        }
        _ => panic!("expected a retry"),
    }
    let action = state.on_retried(&mut messages);
    assert!(matches!(action, RetryAction::Attempt));
    assert_eq!(messages.len(), 1);
    messages.push(from_model(vec!["again"]));
    let action = state.on_attempt(&mut messages, Ok(response(vec![PartEnum::from_text("ok".to_string())], 1)));
    assert!(matches!(action, RetryAction::Process(_)));
    let action = state.on_processed(&mut messages, Err(ChatError::InvalidResponse("no".to_string())));
    match action {
        RetryAction::Fail(f) => {
            assert!(matches!(f.err, ChatError::InvalidResponse(_)));
            assert!(f.metadata.is_some());
        }
        _ => panic!("expected the final failure"),
    }
    assert_eq!(messages.len(), 1);
}

#[test]
fn processed_answer_succeeds_with_the_gathered_metadata() {
    let mut messages = from_user(vec!["q"]);
    let (mut state, _) = RetryLoop::start(None, &messages);
    let _ = state.on_attempt(&mut messages, Ok(response(vec![PartEnum::from_text("ok".to_string())], 9)));
    match state.on_processed(&mut messages, Ok(())) {
        RetryAction::Succeed(m) => assert_eq!(m.unwrap().usage.total_tokens, 9),
        _ => panic!("expected success"),
    }
}

#[test]
fn zero_retries_fail_as_rate_limited() {
    let messages = Messages::default();
    let (_, action) = RetryLoop::start(Some(0), &messages);
    assert!(matches!(action, RetryAction::Fail(ChatFailure { err: ChatError::RateLimited, metadata: None })));
}

#[test]
fn streaming_loop_finishes_after_a_message_without_tool_calls() {
    let mut messages = from_user(vec!["q"]);
    let (mut state, action) = StreamLoop::start(Some(2), false);
    assert!(matches!(action, StreamAction::StreamModel));
    let action = state.on_stream_end(&mut messages, None);
    assert!(matches!(action, StreamAction::StreamModel));
    let action = state.on_stream_end(&mut messages, Some(response(vec![PartEnum::from_text("a".to_string())], 2)));
    assert!(matches!(action, StreamAction::Finish));
    assert_eq!(messages.len(), 2);
    match state.on_stream_error(ChatError::RateLimited) {
        StreamAction::Fail(f) => assert_eq!(f.metadata.unwrap().usage.total_tokens, 2),
        _ => panic!("expected a failure"),
    }
}

#[test]
fn streaming_loop_ends_when_steps_run_out() {
    let mut messages = from_user(vec!["q"]);
    let (mut state, _) = StreamLoop::start(None, false);
    assert!(matches!(state.on_stream_end(&mut messages, None), StreamAction::End));
}

#[test]
fn gathering_adds_token_counts() {
    let mut so_far: Option<Metadata> = None;
    gather_metadata(&mut so_far, Some(Metadata { usage: Usage { total_tokens: 2, ..Default::default() }, ..Default::default() }));
    gather_metadata(&mut so_far, None);
    gather_metadata(&mut so_far, Some(Metadata { usage: Usage { total_tokens: 3, ..Default::default() }, ..Default::default() }));
    assert_eq!(so_far.unwrap().usage.total_tokens, 5);
}

#[test]
fn structured_candidates() {
    let value = Json::object(vec![("k".to_string(), Json::UInt(1))]);
    let c = model_message(vec![PartEnum::from_structured(value.clone())]);
    assert_eq!(extract_structured_candidate(&c), Some(Ok(value)));
    let t = model_message(vec![PartEnum::from_text("{}".to_string())]);
    assert_eq!(extract_structured_candidate(&t), Some(Err("{}".to_string())));
    let r = model_message(vec![PartEnum::from_reasoning("x".to_string())]);
    assert_eq!(extract_structured_candidate(&r), None);
}

#[test]
fn embed_outcome_takes_the_last_embedding() {
    let meta = Some(Metadata { model_slug: Some("m".to_string()), ..Metadata::default() });
    match embed_outcome(Some(vec![1u8, 2, 3]), &meta) {
        EmbedOutcome::Embedding(e) => assert_eq!(e, 3),
        _ => panic!("expected the last embedding"),
    }
    match embed_outcome::<u8>(None, &meta) {
        EmbedOutcome::Failed { failure, notify_retry } => {
            assert!(notify_retry);
            assert!(matches!(failure.err, ChatError::InvalidResponse(ref m) if m == "Response was not embeddings"));
            assert_eq!(failure.metadata.and_then(|m| m.model_slug).as_deref(), Some("m"));
        }
        _ => panic!("expected a failure"),
    }
    match embed_outcome::<u8>(Some(vec![]), &None) {
        EmbedOutcome::Failed { failure, notify_retry } => {
            assert!(!notify_retry);
            assert!(matches!(failure.err, ChatError::InvalidResponse(ref m) if m == "No parts in response"));
            assert!(failure.metadata.is_none());
        }
        _ => panic!("expected a failure"),
    }
}
