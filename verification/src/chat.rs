use vstd::prelude::*;

use crate::error::{ChatError, ChatErrorView, ChatFailure};
use crate::json::JsonView;
use crate::messages::content::{CompleteReasonEnum, Content, ContentView, ReasonView, RoleEnum};
use crate::messages::parts::{calls_of, PartEnum, PartView, Parts};
use crate::messages::{push_spec, Messages};
use crate::metadata::{Metadata, MetadataView, Usage};
use crate::tools::{FunctionCall, FunctionCallView};

verus! {

/// A model's answer: the message and what the provider reported about it.
pub struct ChatResponse {
    pub metadata: Option<Metadata>,
    pub content: Content,
}

pub open spec fn meta_view(m: Option<Metadata>) -> Option<MetadataView> {
    match m {
        Some(x) => Some(x@),
        None => None,
    }
}

/// What an embedding call comes to: the embedding the reply ends with, or
/// a failure, and whether the retry callback is told of it.
pub enum EmbedOutcome<T> {
    Embedding(T),
    Failed { failure: ChatFailure, notify_retry: bool },
}

/// Decides an embedding call from what the provider answered: the last of
/// its embeddings; "Response was not embeddings" (told to the retry
/// callback) when the reply held none; "No parts in response" when it held
/// an empty list. A failure carries the reply's metadata.
pub fn embed_outcome<T>(embeddings: Option<Vec<T>>, metadata: &Option<Metadata>) -> (r: EmbedOutcome<T>)
    ensures
        match embeddings {
            None => r matches EmbedOutcome::Failed { failure, notify_retry } && notify_retry
                && failure.err@ == ChatErrorView::InvalidResponse("Response was not embeddings"@)
                && meta_view(failure.metadata) == meta_view(*metadata),
            Some(v) => if v@.len() == 0 {
                r matches EmbedOutcome::Failed { failure, notify_retry } && !notify_retry
                    && failure.err@ == ChatErrorView::InvalidResponse("No parts in response"@)
                    && meta_view(failure.metadata) == meta_view(*metadata)
            } else {
                r matches EmbedOutcome::Embedding(e) && e == v@.last()
            },
        },
{
    let meta = match metadata {
        Some(m) => Some(m.clone()),
        None => None,
    };
    match embeddings {
        None => EmbedOutcome::Failed {
            failure: ChatFailure {
                err: ChatError::InvalidResponse("Response was not embeddings".to_owned()),
                metadata: meta,
            },
            notify_retry: true,
        },
        Some(v) => {
            let mut v = v;
            match v.pop() {
                Some(e) => EmbedOutcome::Embedding(e),
                None => EmbedOutcome::Failed {
                    failure: ChatFailure {
                        err: ChatError::InvalidResponse("No parts in response".to_owned()),
                        metadata: meta,
                    },
                    notify_retry: false,
                },
            }
        },
    }
}

/// Metadata that is present is well formed.
pub open spec fn meta_ok(m: Option<Metadata>) -> bool {
    m matches Some(x) ==> x.well_formed()
}

/// The metadata gathered so far with a new report folded in.
pub open spec fn gathered(so_far: Option<MetadataView>, new: Option<MetadataView>) -> Option<MetadataView> {
    match new {
        None => so_far,
        Some(m) => match so_far {
            Some(e) => Some(e.extended(m)),
            None => Some(m),
        },
    }
}

/// Folds a new report into the metadata gathered so far.
pub fn gather_metadata(so_far: &mut Option<Metadata>, new: Option<Metadata>)
    requires
        meta_ok(*old(so_far)),
    ensures
        meta_ok(*final(so_far)),
        meta_view(*final(so_far)) == gathered(meta_view(*old(so_far)), meta_view(new)),
{
    match new {
        None => {},
        Some(m) => {
            let current = so_far.take();
            match current {
                Some(mut existing) => {
                    existing.extend(&m);
                    *so_far = Some(existing);
                },
                None => {
                    let mut fresh = Metadata::default();
                    fresh.extend(&m);
                    proof {
                        crate::metadata::lemma_extended_identity(m@);
                    }
                    *so_far = Some(fresh);
                },
            }
        },
    }
}

/// What the call loop asks its driver to do next.
pub enum LoopAction {
    /// Ask the model for a message on the conversation so far.
    CallModel,
    /// Run these tool calls and report their responses.
    CallTools(Vec<FunctionCall>),
    /// The loop is over, with this outcome.
    Finish(Result<ChatResponse, ChatFailure>),
}

pub enum LoopActionView {
    CallModel,
    CallTools(Seq<FunctionCallView>),
    Answer(ContentView, Option<MetadataView>),
    Fail(ChatErrorView, Option<MetadataView>),
}

impl View for LoopAction {
    type V = LoopActionView;

    open spec fn view(&self) -> LoopActionView {
        match self {
            LoopAction::CallModel => LoopActionView::CallModel,
            LoopAction::CallTools(v) => LoopActionView::CallTools(v@.map_values(|c: FunctionCall| c@)),
            LoopAction::Finish(Ok(r)) => LoopActionView::Answer(r.content@, meta_view(r.metadata)),
            LoopAction::Finish(Err(f)) => LoopActionView::Fail(f.err@, meta_view(f.metadata)),
        }
    }
}

/// The next move after a step that calls for another: the model again while
/// steps are left, else the step limit's error.
pub open spec fn advance_spec(step: u16, max_steps: u16, meta: Option<MetadataView>) -> LoopActionView {
    if step + 1 < max_steps {
        LoopActionView::CallModel
    } else {
        LoopActionView::Fail(ChatErrorView::RateLimited, meta)
    }
}

/// The next move once a message needs no more tool calls: the message is
/// the answer when it ends in text or structured data, a message without
/// parts is an error, and anything else (reasoning, say) calls for another
/// step.
pub open spec fn conclude_spec(content: ContentView, step: u16, max_steps: u16, meta: Option<MetadataView>) -> LoopActionView {
    if content.parts.len() == 0 {
        LoopActionView::Fail(ChatErrorView::InvalidResponse("Response did not generate any parts"@), meta)
    } else if content.parts.last() is Text || content.parts.last() is Structured {
        LoopActionView::Answer(content, meta)
    } else {
        advance_spec(step, max_steps, meta)
    }
}

/// The message that carries tool responses back to the model.
pub open spec fn tool_message(parts: Seq<PartView>) -> ContentView {
    ContentView { parts, role: RoleEnum::User, reason: ReasonView::NoReason, metadata: None }
}

/// Where a chat's call loop stands: the model is asked for a message, the
/// tool calls in it are run and answered, and this goes on until a message
/// ends in an answer or the steps run out.
pub struct CallLoop {
    pub max_steps: u16,
    pub step: u16,
    pub has_tools: bool,
    pub last_metadata: Option<Metadata>,
    pub pending: Option<Content>,
}

impl CallLoop {
    /// The loop is in a step that is allowed, with well formed metadata.
    pub open spec fn inv(&self) -> bool {
        &&& self.step < self.max_steps
        &&& meta_ok(self.last_metadata)
    }

    /// Starts a loop of at most `max_steps` steps (one when not given);
    /// `has_tools` tells whether the chat has tools to call.
    pub fn start(max_steps: Option<u16>, has_tools: bool) -> (r: (CallLoop, LoopAction))
        ensures
            r.0.max_steps == (match max_steps {
                Some(n) => n,
                None => 1,
            }),
            r.0.has_tools == has_tools,
            r.0.max_steps == 0 ==> r.1@ == LoopActionView::Fail(ChatErrorView::RateLimited, None),
            r.0.max_steps > 0 ==> r.1@ is CallModel && r.0.inv() && r.0.step == 0 && r.0.pending is None
                && r.0.last_metadata is None,
    {
        let max = match max_steps {
            Some(n) => n,
            None => 1,
        };
        let state = CallLoop { max_steps: max, step: 0, has_tools, last_metadata: None, pending: None };
        if max == 0 {
            (state, LoopAction::Finish(Err(ChatFailure { metadata: None, err: ChatError::RateLimited })))
        } else {
            (state, LoopAction::CallModel)
        }
    }

    fn advance(&mut self) -> (a: LoopAction)
        requires
            old(self).inv(),
        ensures
            a@ == advance_spec(old(self).step, old(self).max_steps, meta_view(old(self).last_metadata)),
            a@ is CallModel ==> final(self).step == old(self).step + 1 && final(self).inv()
                && final(self).last_metadata == old(self).last_metadata,
            final(self).max_steps == old(self).max_steps,
            final(self).has_tools == old(self).has_tools,
            final(self).pending is None,
    {
        self.pending = None;
        if self.step + 1 < self.max_steps {
            self.step = self.step + 1;
            LoopAction::CallModel
        } else {
            LoopAction::Finish(Err(ChatFailure { metadata: self.last_metadata.take(), err: ChatError::RateLimited }))
        }
    }

    fn conclude(&mut self, content: Content) -> (a: LoopAction)
        requires
            old(self).inv(),
        ensures
            a@ == conclude_spec(content@, old(self).step, old(self).max_steps, meta_view(old(self).last_metadata)),
            a@ is CallModel ==> final(self).step == old(self).step + 1 && final(self).inv()
                && final(self).last_metadata == old(self).last_metadata,
            final(self).max_steps == old(self).max_steps,
            final(self).has_tools == old(self).has_tools,
            final(self).pending is None,
    {
        self.pending = None;
        match content.parts.last() {
            Some(PartEnum::Text(_)) | Some(PartEnum::Structured(_)) => {
                LoopAction::Finish(Ok(ChatResponse { metadata: self.last_metadata.take(), content }))
            },
            Some(_) => self.advance(),
            None => LoopAction::Finish(
                Err(
                    ChatFailure {
                        metadata: self.last_metadata.take(),
                        err: ChatError::InvalidResponse("Response did not generate any parts".to_owned()),
                    },
                ),
            ),
        }
    }

    /// Takes the model's answer to a `CallModel`: a failure ends the loop as
    /// it is; a message is added to the conversation, its metadata gathered,
    /// and then either its tool calls are run or the loop concludes on it.
    pub fn on_model_result(&mut self, messages: &mut Messages, result: Result<ChatResponse, ChatFailure>) -> (a: LoopAction)
        requires
            old(self).inv(),
            old(self).pending is None,
        ensures
            final(self).max_steps == old(self).max_steps,
            final(self).has_tools == old(self).has_tools,
            match result {
                Err(f) => a@ == LoopActionView::Fail(f.err@, meta_view(f.metadata)) && final(messages)@ == old(messages)@,
                Ok(r) => {
                    let meta = gathered(meta_view(old(self).last_metadata), meta_view(r.metadata));
                    let calls = calls_of(r.content@.parts);
                    &&& final(messages)@ == push_spec(old(messages)@, r.content@)
                    &&& (calls.len() > 0 && old(self).has_tools) ==> {
                        &&& a@ == LoopActionView::CallTools(calls)
                        &&& final(self).pending matches Some(c) && c@ == r.content@
                        &&& final(self).step == old(self).step
                        &&& meta_view(final(self).last_metadata) == meta
                        &&& final(self).inv()
                    }
                    &&& !(calls.len() > 0 && old(self).has_tools) ==> a@ == conclude_spec(
                        r.content@,
                        old(self).step,
                        old(self).max_steps,
                        meta,
                    )
                },
            },
            a@ is CallModel ==> final(self).step == old(self).step + 1 && final(self).inv() && final(self).pending is None,
    {
        match result {
            Err(f) => LoopAction::Finish(Err(f)),
            Ok(response) => {
                gather_metadata(&mut self.last_metadata, response.metadata);
                let content = response.content;
                messages.push(content.clone());
                let refs = content.parts.function_calls();
                if refs.len() > 0 && self.has_tools {
                    let mut calls: Vec<FunctionCall> = Vec::new();
                    let mut i: usize = 0;
                    while i < refs.len()
                        invariant
                            i <= refs@.len(),
                            calls@.len() == i,
                            forall|k: int| 0 <= k < i ==> (#[trigger] calls@[k])@ == refs@[k]@,
                        decreases refs@.len() - i,
                    {
                        calls.push(refs[i].clone());
                        i = i + 1;
                    }
                    assert(calls@.map_values(|c: FunctionCall| c@) =~= refs@.map_values(|c: &FunctionCall| c@));
                    self.pending = Some(content);
                    LoopAction::CallTools(calls)
                } else {
                    self.conclude(content)
                }
            },
        }
    }

    /// Takes the responses of the tools to a `CallTools`: when there are
    /// some, they go back to the model in a message of their own and the
    /// loop takes another step; when the tools failed or gave nothing, the
    /// loop concludes on the message that made the calls.
    pub fn on_tool_result(&mut self, messages: &mut Messages, result: Result<Parts, ChatError>) -> (a: LoopAction)
        requires
            old(self).inv(),
            old(self).pending is Some,
        ensures
            final(self).max_steps == old(self).max_steps,
            final(self).has_tools == old(self).has_tools,
            match result {
                Ok(frs) if frs@.len() > 0 => {
                    &&& final(messages)@ == push_spec(old(messages)@, tool_message(frs@))
                    &&& a@ == advance_spec(old(self).step, old(self).max_steps, meta_view(old(self).last_metadata))
                },
                _ => {
                    &&& final(messages)@ == old(messages)@
                    &&& a@ == conclude_spec(
                        old(self).pending->Some_0@,
                        old(self).step,
                        old(self).max_steps,
                        meta_view(old(self).last_metadata),
                    )
                },
            },
            a@ is CallModel ==> final(self).step == old(self).step + 1 && final(self).inv() && final(self).pending is None,
    {
        let content = match self.pending.take() {
            Some(c) => c,
            None => {
                return LoopAction::CallModel;
            },
        };
        match result {
            Ok(frs) => {
                if frs.len() > 0 {
                    let mut tool = Content::default();
                    tool.parts.extend(frs);
                    messages.push(tool);
                    self.advance()
                } else {
                    self.conclude(content)
                }
            },
            Err(_) => self.conclude(content),
        }
    }
}


/// What the retry loop asks its driver to do next.
pub enum RetryAction {
    /// Run the call loop on the conversation.
    Attempt,
    /// Hand the call loop's answer to the processor and report how it went.
    Process(ChatResponse),
    /// Run the retry strategy for attempt `0` that failed with `1`, passing
    /// the metadata gathered so far (`2`), then report back.
    Retry(u16, ChatFailure, Option<Metadata>),
    /// Run the after strategy with this metadata and return the processed
    /// result.
    Succeed(Option<Metadata>),
    /// Give up with this failure.
    Fail(ChatFailure),
}

pub enum RetryActionView {
    Attempt,
    Process(ContentView, Option<MetadataView>),
    Retry(u16, ChatErrorView, Option<MetadataView>, Option<MetadataView>),
    Succeed(Option<MetadataView>),
    Fail(ChatErrorView, Option<MetadataView>),
}

impl View for RetryAction {
    type V = RetryActionView;

    open spec fn view(&self) -> RetryActionView {
        match self {
            RetryAction::Attempt => RetryActionView::Attempt,
            RetryAction::Process(r) => RetryActionView::Process(r.content@, meta_view(r.metadata)),
            RetryAction::Retry(i, f, m) => RetryActionView::Retry(*i, f.err@, meta_view(f.metadata), meta_view(*m)),
            RetryAction::Succeed(m) => RetryActionView::Succeed(meta_view(*m)),
            RetryAction::Fail(f) => RetryActionView::Fail(f.err@, meta_view(f.metadata)),
        }
    }
}

pub open spec fn err_view(e: Option<ChatError>) -> Option<ChatErrorView> {
    match e {
        Some(x) => Some(x@),
        None => None,
    }
}

/// The failure the retry loop ends with: the last error (rate limited when
/// there was none) and the metadata gathered.
pub open spec fn final_failure(last_err: Option<ChatErrorView>, meta: Option<MetadataView>) -> RetryActionView {
    RetryActionView::Fail(
        match last_err {
            Some(e) => e,
            None => ChatErrorView::RateLimited,
        },
        meta,
    )
}

/// The conversation after an attempt: cut back to the length it had before.
pub open spec fn cut_back(s: Seq<ContentView>, len: usize) -> Seq<ContentView> {
    if len <= s.len() {
        s.take(len as int)
    } else {
        s
    }
}

/// Where a chat's retries stand: each attempt runs the call loop and hands
/// its answer to a processor; a failed attempt is reported to the retry
/// strategy (unless it was the last) and the conversation is cut back to
/// what it was before the attempt.
pub struct RetryLoop {
    pub max_retries: u16,
    pub idx: u16,
    pub original_len: usize,
    pub last_err: Option<ChatError>,
    pub last_metadata: Option<Metadata>,
}

impl RetryLoop {
    pub open spec fn inv(&self) -> bool {
        &&& self.idx < self.max_retries
        &&& meta_ok(self.last_metadata)
    }

    /// Starts at most `max_retries` attempts (one when not given).
    pub fn start(max_retries: Option<u16>, messages: &Messages) -> (r: (RetryLoop, RetryAction))
        ensures
            r.0.max_retries == (match max_retries {
                Some(n) => n,
                None => 1,
            }),
            r.0.max_retries == 0 ==> r.1@ == RetryActionView::Fail(ChatErrorView::RateLimited, None),
            r.0.max_retries > 0 ==> {
                &&& r.1@ is Attempt
                &&& r.0.inv()
                &&& r.0.idx == 0
                &&& r.0.original_len == messages@.len()
                &&& r.0.last_err is None
                &&& r.0.last_metadata is None
            },
    {
        let max = match max_retries {
            Some(n) => n,
            None => 1,
        };
        let state = RetryLoop { max_retries: max, idx: 0, original_len: messages.len(), last_err: None, last_metadata: None };
        if max == 0 {
            (state, RetryAction::Fail(ChatFailure { metadata: None, err: ChatError::RateLimited }))
        } else {
            (state, RetryAction::Attempt)
        }
    }

    /// Ends an attempt: the conversation is cut back, and the next attempt
    /// starts while attempts are left.
    pub fn end_attempt(&mut self, messages: &mut Messages) -> (a: RetryAction)
        requires
            old(self).inv(),
        ensures
            final(messages)@ == cut_back(old(messages)@, old(self).original_len),
            final(self).max_retries == old(self).max_retries,
            old(self).idx + 1 < old(self).max_retries ==> {
                &&& a@ is Attempt
                &&& final(self).idx == old(self).idx + 1
                &&& final(self).original_len == final(messages)@.len()
                &&& final(self).last_err == old(self).last_err
                &&& final(self).last_metadata == old(self).last_metadata
                &&& final(self).inv()
            },
            old(self).idx + 1 >= old(self).max_retries ==> a@ == final_failure(
                err_view(old(self).last_err),
                meta_view(old(self).last_metadata),
            ),
    {
        messages.0.truncate(self.original_len);
        proof {
            assert(crate::messages::contents_view(messages.0@) =~= cut_back(old(messages)@, old(self).original_len));
        }
        if self.idx + 1 < self.max_retries {
            self.idx = self.idx + 1;
            self.original_len = messages.len();
            RetryAction::Attempt
        } else {
            let err = match self.last_err.take() {
                Some(e) => e,
                None => ChatError::RateLimited,
            };
            RetryAction::Fail(ChatFailure { metadata: self.last_metadata.take(), err })
        }
    }

    /// Takes the outcome of the call loop: an answer goes to the processor;
    /// a failure is recorded and reported to the retry strategy, or ends the
    /// attempt when it was the last. Metadata is gathered either way.
    pub fn on_attempt(&mut self, messages: &mut Messages, result: Result<ChatResponse, ChatFailure>) -> (a: RetryAction)
        requires
            old(self).inv(),
        ensures
            final(self).max_retries == old(self).max_retries,
            match result {
                Ok(r) => {
                    &&& a@ == RetryActionView::Process(r.content@, meta_view(r.metadata))
                    &&& final(messages)@ == old(messages)@
                    &&& final(self).idx == old(self).idx
                    &&& final(self).original_len == old(self).original_len
                    &&& final(self).last_err == old(self).last_err
                    &&& meta_view(final(self).last_metadata) == gathered(
                        meta_view(old(self).last_metadata),
                        meta_view(r.metadata),
                    )
                    &&& final(self).inv()
                },
                Err(f) => {
                    let meta = gathered(meta_view(old(self).last_metadata), meta_view(f.metadata));
                    &&& old(self).idx + 1 < old(self).max_retries ==> {
                        &&& a@ == RetryActionView::Retry(old(self).idx, f.err@, meta_view(f.metadata), meta)
                        &&& final(messages)@ == old(messages)@
                        &&& final(self).idx == old(self).idx
                        &&& final(self).original_len == old(self).original_len
                        &&& err_view(final(self).last_err) == Some(f.err@)
                        &&& meta_view(final(self).last_metadata) == meta
                        &&& final(self).inv()
                    }
                    &&& old(self).idx + 1 >= old(self).max_retries ==> {
                        &&& a@ == final_failure(Some(f.err@), meta)
                        &&& final(messages)@ == cut_back(old(messages)@, old(self).original_len)
                    }
                },
            },
    {
        match result {
            Ok(response) => {
                let m = match &response.metadata {
                    Some(m) => Some(m.clone()),
                    None => None,
                };
                gather_metadata(&mut self.last_metadata, m);
                RetryAction::Process(response)
            },
            Err(failure) => {
                let m = match &failure.metadata {
                    Some(m) => Some(m.clone()),
                    None => None,
                };
                gather_metadata(&mut self.last_metadata, m);
                self.last_err = Some(failure.err.clone());
                if self.idx + 1 < self.max_retries {
                    let meta = match &self.last_metadata {
                        Some(m) => Some(m.clone()),
                        None => None,
                    };
                    RetryAction::Retry(self.idx, failure, meta)
                } else {
                    self.end_attempt(messages)
                }
            },
        }
    }

    /// Takes the processor's verdict on an answer: success ends the loop
    /// (after the after strategy); an error is recorded and reported to the
    /// retry strategy, or ends the attempt when it was the last.
    pub fn on_processed(&mut self, messages: &mut Messages, outcome: Result<(), ChatError>) -> (a: RetryAction)
        requires
            old(self).inv(),
        ensures
            final(self).max_retries == old(self).max_retries,
            match outcome {
                Ok(()) => a@ == RetryActionView::Succeed(meta_view(old(self).last_metadata))
                    && final(messages)@ == old(messages)@,
                Err(e) => {
                    let meta = meta_view(old(self).last_metadata);
                    &&& old(self).idx + 1 < old(self).max_retries ==> {
                        &&& a@ == RetryActionView::Retry(old(self).idx, e@, meta, meta)
                        &&& final(messages)@ == old(messages)@
                        &&& final(self).idx == old(self).idx
                        &&& final(self).original_len == old(self).original_len
                        &&& err_view(final(self).last_err) == Some(e@)
                        &&& final(self).last_metadata == old(self).last_metadata
                        &&& final(self).inv()
                    }
                    &&& old(self).idx + 1 >= old(self).max_retries ==> {
                        &&& a@ == final_failure(Some(e@), meta)
                        &&& final(messages)@ == cut_back(old(messages)@, old(self).original_len)
                    }
                },
            },
    {
        match outcome {
            Ok(()) => RetryAction::Succeed(self.last_metadata.take()),
            Err(err) => {
                self.last_err = Some(err.clone());
                if self.idx + 1 < self.max_retries {
                    let meta = match &self.last_metadata {
                        Some(m) => Some(m.clone()),
                        None => None,
                    };
                    let meta2 = match &self.last_metadata {
                        Some(m) => Some(m.clone()),
                        None => None,
                    };
                    RetryAction::Retry(self.idx, ChatFailure { err, metadata: meta }, meta2)
                } else {
                    self.end_attempt(messages)
                }
            },
        }
    }

    /// After the retry strategy has run: the attempt ends.
    pub fn on_retried(&mut self, messages: &mut Messages) -> (a: RetryAction)
        requires
            old(self).inv(),
        ensures
            final(messages)@ == cut_back(old(messages)@, old(self).original_len),
            final(self).max_retries == old(self).max_retries,
            old(self).idx + 1 < old(self).max_retries ==> a@ is Attempt && final(self).idx == old(self).idx + 1
                && final(self).original_len == final(messages)@.len() && final(self).inv(),
            old(self).idx + 1 >= old(self).max_retries ==> a@ == final_failure(
                err_view(old(self).last_err),
                meta_view(old(self).last_metadata),
            ),
    {
        self.end_attempt(messages)
    }
}


/// What the streaming loop asks its driver to do next.
pub enum StreamAction {
    /// Open the model's stream, pass its text on, and report how it ended.
    StreamModel,
    /// Run these tool calls and report their responses.
    CallTools(Vec<FunctionCall>),
    /// The turn is over: run the after strategy and end the stream.
    Finish,
    /// End the stream with this failure.
    Fail(ChatFailure),
    /// End the stream: the steps ran out.
    End,
}

pub enum StreamActionView {
    StreamModel,
    CallTools(Seq<FunctionCallView>),
    Finish,
    Fail(ChatErrorView, Option<MetadataView>),
    End,
}

impl View for StreamAction {
    type V = StreamActionView;

    open spec fn view(&self) -> StreamActionView {
        match self {
            StreamAction::StreamModel => StreamActionView::StreamModel,
            StreamAction::CallTools(v) => StreamActionView::CallTools(v@.map_values(|c: FunctionCall| c@)),
            StreamAction::Finish => StreamActionView::Finish,
            StreamAction::Fail(f) => StreamActionView::Fail(f.err@, meta_view(f.metadata)),
            StreamAction::End => StreamActionView::End,
        }
    }
}

/// The next move of the streaming loop after a step that calls for
/// another: stream again while steps are left, else end.
pub open spec fn stream_advance_spec(step: u16, max_steps: u16) -> StreamActionView {
    if step + 1 < max_steps {
        StreamActionView::StreamModel
    } else {
        StreamActionView::End
    }
}

/// Where a chat's streaming loop stands: the model streams a message, the
/// tool calls in it are answered, and this goes on until a message needs no
/// tools or the steps run out.
pub struct StreamLoop {
    pub max_steps: u16,
    pub step: u16,
    pub has_tools: bool,
    pub last_metadata: Option<Metadata>,
}

impl StreamLoop {
    pub open spec fn inv(&self) -> bool {
        &&& self.step < self.max_steps
        &&& meta_ok(self.last_metadata)
    }

    /// Starts a loop of at most `max_steps` steps (one when not given).
    pub fn start(max_steps: Option<u16>, has_tools: bool) -> (r: (StreamLoop, StreamAction))
        ensures
            r.0.max_steps == (match max_steps {
                Some(n) => n,
                None => 1,
            }),
            r.0.has_tools == has_tools,
            r.0.max_steps == 0 ==> r.1@ is End,
            r.0.max_steps > 0 ==> r.1@ is StreamModel && r.0.inv() && r.0.step == 0 && r.0.last_metadata is None,
    {
        let max = match max_steps {
            Some(n) => n,
            None => 1,
        };
        let state = StreamLoop { max_steps: max, step: 0, has_tools, last_metadata: None };
        if max == 0 {
            (state, StreamAction::End)
        } else {
            (state, StreamAction::StreamModel)
        }
    }

    fn advance(&mut self) -> (a: StreamAction)
        requires
            old(self).inv(),
        ensures
            a@ == stream_advance_spec(old(self).step, old(self).max_steps),
            a@ is StreamModel ==> final(self).step == old(self).step + 1 && final(self).inv(),
            !(a@ is StreamModel) ==> final(self).step == old(self).step,
            final(self).max_steps == old(self).max_steps,
            final(self).has_tools == old(self).has_tools,
            final(self).last_metadata == old(self).last_metadata,
    {
        if self.step + 1 < self.max_steps {
            self.step = self.step + 1;
            StreamAction::StreamModel
        } else {
            StreamAction::End
        }
    }

    /// The model's stream failed to open or gave an error: the stream ends
    /// with that error and the metadata gathered so far.
    pub fn on_stream_error(&self, err: ChatError) -> (a: StreamAction)
        requires
            self.inv(),
        ensures
            a@ == StreamActionView::Fail(err@, meta_view(self.last_metadata)),
    {
        let meta = match &self.last_metadata {
            Some(m) => Some(m.clone()),
            None => None,
        };
        StreamAction::Fail(ChatFailure { err, metadata: meta })
    }

    /// The model's stream ended, with its final response if it sent one.
    /// Without one the loop takes another step. With one, the message is
    /// added and its metadata gathered; then its tool calls are run, or the
    /// turn is over.
    pub fn on_stream_end(&mut self, messages: &mut Messages, response: Option<ChatResponse>) -> (a: StreamAction)
        requires
            old(self).inv(),
        ensures
            final(self).max_steps == old(self).max_steps,
            final(self).has_tools == old(self).has_tools,
            match response {
                None => a@ == stream_advance_spec(old(self).step, old(self).max_steps) && final(messages)@ == old(
                    messages,
                )@,
                Some(r) => {
                    let calls = calls_of(r.content@.parts);
                    &&& final(messages)@ == push_spec(old(messages)@, r.content@)
                    &&& meta_view(final(self).last_metadata) == gathered(
                        meta_view(old(self).last_metadata),
                        meta_view(r.metadata),
                    )
                    &&& (calls.len() > 0 && old(self).has_tools) ==> a@ == StreamActionView::CallTools(calls)
                    &&& !(calls.len() > 0 && old(self).has_tools) ==> a@ is Finish
                },
            },
            a@ is StreamModel ==> final(self).step == old(self).step + 1,
            final(self).inv(),
    {
        match response {
            None => self.advance(),
            Some(r) => {
                gather_metadata(&mut self.last_metadata, r.metadata);
                let content = r.content;
                messages.push(content.clone());
                let refs = content.parts.function_calls();
                if refs.len() > 0 && self.has_tools {
                    let mut calls: Vec<FunctionCall> = Vec::new();
                    let mut i: usize = 0;
                    while i < refs.len()
                        invariant
                            i <= refs@.len(),
                            calls@.len() == i,
                            forall|k: int| 0 <= k < i ==> (#[trigger] calls@[k])@ == refs@[k]@,
                        decreases refs@.len() - i,
                    {
                        calls.push(refs[i].clone());
                        i = i + 1;
                    }
                    assert(calls@.map_values(|c: FunctionCall| c@) =~= refs@.map_values(|c: &FunctionCall| c@));
                    StreamAction::CallTools(calls)
                } else {
                    StreamAction::Finish
                }
            },
        }
    }

    /// Takes the responses of the tools: when there are some, they go back
    /// to the model in a message of their own and the loop takes another
    /// step; otherwise the turn is over.
    pub fn on_tool_result(&mut self, messages: &mut Messages, result: Result<Parts, ChatError>) -> (a: StreamAction)
        requires
            old(self).inv(),
        ensures
            final(self).max_steps == old(self).max_steps,
            final(self).has_tools == old(self).has_tools,
            final(self).last_metadata == old(self).last_metadata,
            match result {
                Ok(frs) if frs@.len() > 0 => {
                    &&& final(messages)@ == push_spec(old(messages)@, tool_message(frs@))
                    &&& a@ == stream_advance_spec(old(self).step, old(self).max_steps)
                },
                _ => final(messages)@ == old(messages)@ && a@ is Finish,
            },
            a@ is StreamModel ==> final(self).step == old(self).step + 1,
            final(self).inv(),
    {
        match result {
            Ok(frs) => {
                if frs.len() > 0 {
                    let mut tool = Content::default();
                    tool.parts.extend(frs);
                    messages.push(tool);
                    self.advance()
                } else {
                    StreamAction::Finish
                }
            },
            Err(_) => StreamAction::Finish,
        }
    }
}

/// What the structured parser reads from an answer: its last part when that
/// is structured data (`Ok`) or text to be parsed as JSON (`Err`).
pub open spec fn structured_candidate_spec(content: ContentView) -> Option<Result<JsonView, Seq<char>>> {
    if content.parts.len() == 0 {
        None
    } else {
        match content.parts.last() {
            PartView::Structured(v) => Some(Ok(v)),
            PartView::Text(t) => Some(Err(t)),
            _ => None,
        }
    }
}

/// What a structured answer is read from: the last part when it is
/// structured data, or its text when it is text (which the caller parses as
/// JSON); nothing otherwise.
pub fn extract_structured_candidate(content: &Content) -> (r: Option<Result<crate::json::Json, String>>)
    ensures
        match structured_candidate_spec(content@) {
            Some(Ok(v)) => r matches Some(Ok(j)) && j@ == v,
            Some(Err(t)) => r matches Some(Err(s)) && s@ == t,
            None => r is None,
        },
{
    match content.parts.last() {
        Some(PartEnum::Structured(v)) => Some(Ok(v.clone())),
        Some(PartEnum::Text(t)) => Some(Err(t.text.clone())),
        _ => None,
    }
}


/// The call loop answers with a message exactly when the message has parts
/// and its last part is text or structured data.
pub proof fn lemma_answer_iff_final_part(content: ContentView, step: u16, max_steps: u16, meta: Option<MetadataView>)
    ensures
        conclude_spec(content, step, max_steps, meta) is Answer <==> (content.parts.len() > 0 && (content.parts.last() is Text
            || content.parts.last() is Structured)),
        conclude_spec(content, step, max_steps, meta) is Answer ==> conclude_spec(content, step, max_steps, meta)
            == LoopActionView::Answer(content, meta),
{
}

/// The call loop asks the model again only while steps are left: whatever
/// the message, the next step is within the limit.
pub proof fn lemma_steps_bounded(content: ContentView, step: u16, max_steps: u16, meta: Option<MetadataView>)
    ensures
        conclude_spec(content, step, max_steps, meta) is CallModel ==> step + 1 < max_steps,
        advance_spec(step, max_steps, meta) is CallModel ==> step + 1 < max_steps,
        stream_advance_spec(step, max_steps) is StreamModel ==> step + 1 < max_steps,
{
}

/// When the steps run out, the call loop fails with the rate-limit error and
/// the metadata gathered so far.
pub proof fn lemma_steps_exhausted(step: u16, max_steps: u16, meta: Option<MetadataView>)
    requires
        step + 1 >= max_steps,
    ensures
        advance_spec(step, max_steps, meta) == LoopActionView::Fail(ChatErrorView::RateLimited, meta),
{
}

/// Gathering no report keeps what was gathered; gathering into nothing gives
/// the report itself.
pub proof fn lemma_gathered_identity(so_far: Option<MetadataView>, new: MetadataView)
    ensures
        gathered(so_far, None) == so_far,
        gathered(None, Some(new)) == Some(new),
{
}

/// Cutting the conversation back to its length before an attempt undoes
/// whatever the attempt appended.
pub proof fn lemma_cut_back_undoes_appends(before: Seq<ContentView>, added: Seq<ContentView>)
    requires
        before.len() <= usize::MAX,
    ensures
        cut_back(before + added, before.len() as usize) == before,
{
    assert((before + added).take(before.len() as int) =~= before);
}

} // verus!
