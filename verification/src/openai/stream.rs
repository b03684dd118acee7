use vstd::prelude::*;

use crate::chat::{meta_view, ChatResponse};
use crate::error::{ChatError, ChatErrorView};
use crate::json::{Json, JsonView};
use crate::messages::content::{CompleteReasonEnum, Content, ContentView, ReasonView, RoleEnum};
use crate::messages::file::str_eq;
use crate::messages::parts::{PartView, Parts};
use crate::metadata::{opt_str, Metadata, MetadataView, Usage};
use crate::tools::{clone_opt_string, FunctionCall, FunctionCallView};

verus! {

/// What a stream hands its reader.
pub enum StreamEvent {
    TextChunk(String),
    ReasoningChunk(String),
    ToolCall(FunctionCall),
    Done(ChatResponse),
}

/// The kinds of server-sent events of the Responses API that the stream
/// reads.
#[derive(Clone, Copy, Debug, PartialEq, Eq, Structural)]
pub enum SseKind {
    Created,
    ItemAdded,
    TextDelta,
    ReasoningDelta,
    FcArgsDelta,
    Completed,
    Other,
}

/// The kind of an event type name.
pub open spec fn kind_of(event_type: Seq<char>) -> SseKind {
    if event_type == "response.created"@ {
        SseKind::Created
    } else if event_type == "response.output_item.added"@ {
        SseKind::ItemAdded
    } else if event_type == "response.output_text.delta"@ {
        SseKind::TextDelta
    } else if event_type == "response.reasoning_summary_text.delta"@ {
        SseKind::ReasoningDelta
    } else if event_type == "response.function_call_arguments.delta"@ {
        SseKind::FcArgsDelta
    } else if event_type == "response.completed"@ {
        SseKind::Completed
    } else {
        SseKind::Other
    }
}

pub fn event_kind(event_type: &str) -> (k: SseKind)
    ensures
        k == kind_of(event_type@),
{
    if str_eq(event_type, "response.created") {
        SseKind::Created
    } else if str_eq(event_type, "response.output_item.added") {
        SseKind::ItemAdded
    } else if str_eq(event_type, "response.output_text.delta") {
        SseKind::TextDelta
    } else if str_eq(event_type, "response.reasoning_summary_text.delta") {
        SseKind::ReasoningDelta
    } else if str_eq(event_type, "response.function_call_arguments.delta") {
        SseKind::FcArgsDelta
    } else if str_eq(event_type, "response.completed") {
        SseKind::Completed
    } else {
        SseKind::Other
    }
}

/// Token counts of a completed response: input, output and total, each as
/// far as it was reported.
pub struct UsageCounts {
    pub input_tokens: Option<usize>,
    pub output_tokens: Option<usize>,
    pub total_tokens: Option<usize>,
}

/// The data of an event, decoded.
pub enum SsePayload {
    /// `response.created`, with the response's id.
    Created { id: Option<String> },
    /// `response.output_item.added`; for a function call item, its call id
    /// and name.
    ItemAdded { function_call: Option<(Option<String>, Option<String>)> },
    TextDelta(String),
    ReasoningDelta(String),
    FcArgsDelta { item_id: Option<String>, delta: String },
    /// `response.completed`, with the response's id, model, the parts of its
    /// output (and whether a function call is among them), usage and status.
    Completed {
        id: Option<String>,
        model: Option<String>,
        parts: Parts,
        has_function_call: bool,
        usage: Option<UsageCounts>,
        status: Option<String>,
    },
}

/// An event as the driver hands it over.
pub enum SseData {
    Decoded(SsePayload),
    /// The data of an event of this kind did not decode; the decoder's message.
    Undecodable(SseKind, String),
    /// An event the stream does not read.
    Ignored,
}

/// The state of a response stream: the parts, metadata and stop reason of
/// the response, and the arguments gathered for each function call.
pub struct StreamState {
    pub parts: Parts,
    pub metadata: Option<Metadata>,
    pub reason: CompleteReasonEnum,
    pub fc_args: Vec<(String, String)>,
}

pub open spec fn args_view(v: Seq<(String, String)>) -> Seq<(Seq<char>, Seq<char>)> {
    v.map_values(|e: (String, String)| (e.0@, e.1@))
}

pub open spec fn count_of(o: Option<usize>) -> usize {
    match o {
        Some(n) => n,
        None => 0,
    }
}

/// The usage a completed response reports.
pub open spec fn usage_from(u: Option<UsageCounts>) -> Usage {
    match u {
        Some(c) => Usage {
            input_tokens: count_of(c.input_tokens),
            output_tokens: count_of(c.output_tokens),
            total_tokens: count_of(c.total_tokens),
            ..Usage::zero()
        },
        None => Usage::zero(),
    }
}

/// The usage that reported counts give: each count reported, zero for the
/// others.
pub fn usage_of(u: &Option<UsageCounts>) -> (r: Usage)
    ensures
        r == usage_from(*u),
{
    match u {
        Some(c) => Usage {
            input_tokens: match c.input_tokens {
                Some(n) => n,
                None => 0,
            },
            output_tokens: match c.output_tokens {
                Some(n) => n,
                None => 0,
            },
            total_tokens: match c.total_tokens {
                Some(n) => n,
                None => 0,
            },
            reasoning_tokens: 0,
            cache_creation_input_tokens: 0,
            cache_read_input_tokens: 0,
        },
        None => Usage::default(),
    }
}

/// Why a completed response stopped: for tool calls when it made some, else
/// by its status.
pub open spec fn completed_reason(has_function_call: bool, status: Option<Seq<char>>) -> ReasonView {
    if has_function_call {
        ReasonView::ToolCall
    } else {
        match status {
            Some(s) => if s == "completed"@ {
                ReasonView::Stop
            } else if s == "incomplete"@ {
                ReasonView::MaxTokens
            } else {
                ReasonView::Other(s)
            },
            None => ReasonView::NoReason,
        }
    }
}

impl Default for StreamState {
    fn default() -> (s: Self)
        ensures
            s.parts@ == Seq::<PartView>::empty(),
            s.metadata is None,
            s.reason@ == ReasonView::NoReason,
            s.fc_args@.len() == 0,
    {
        StreamState { parts: Parts::default(), metadata: None, reason: CompleteReasonEnum::NoReason, fc_args: Vec::new() }
    }
}

fn opt_or_empty(o: &Option<String>) -> (r: String)
    ensures
        r@ == match *o {
            Some(t) => t@,
            None => Seq::<char>::empty(),
        },
{
    match o {
        Some(t) => t.clone(),
        None => String::new(),
    }
}

impl StreamState {
    fn on_created(&mut self, id: Option<String>) -> (r: Result<Option<StreamEvent>, ChatError>)
        ensures
            r matches Ok(None),
            meta_view(final(self).metadata) == Some(MetadataView { id: opt_str(id), ..MetadataView::empty() }),
            final(self).metadata matches Some(m) && m.well_formed(),
            final(self).parts@ == old(self).parts@,
            final(self).reason@ == old(self).reason@,
            final(self).fc_args@ == old(self).fc_args@,
    {
        let mut m = Metadata::default();
        m.id = id;
        self.metadata = Some(m);
        Ok(None)
    }

    fn on_item_added(&mut self, function_call: Option<(Option<String>, Option<String>)>) -> (r: Result<Option<StreamEvent>, ChatError>)
        ensures
            final(self).parts@ == old(self).parts@,
            final(self).reason@ == old(self).reason@,
            final(self).metadata == old(self).metadata,
            match function_call {
                Some((call_id, name)) => {
                    let key = match call_id {
                        Some(c) => c@,
                        None => Seq::<char>::empty(),
                    };
                    &&& r matches Ok(Some(StreamEvent::ToolCall(fc))) && fc@ == (FunctionCallView {
                        id: opt_str(call_id),
                        name: match name {
                            Some(n) => n@,
                            None => Seq::<char>::empty(),
                        },
                        arguments: JsonView::Null,
                    })
                    &&& args_view(final(self).fc_args@) == set_arg(args_view(old(self).fc_args@), key, Seq::empty())
                },
                None => r matches Ok(None) && final(self).fc_args@ == old(self).fc_args@,
            },
    {
        match function_call {
            Some((call_id, name)) => {
                let key = opt_or_empty(&call_id);
                set_arg_exec(&mut self.fc_args, key, String::new());
                let fc = FunctionCall { id: clone_opt_string(&call_id), name: opt_or_empty(&name), arguments: Json::Null };
                Ok(Some(StreamEvent::ToolCall(fc)))
            },
            None => Ok(None),
        }
    }

    fn on_fc_args_delta(&mut self, item_id: Option<String>, delta: String) -> (r: Result<Option<StreamEvent>, ChatError>)
        ensures
            r matches Ok(None),
            final(self).parts@ == old(self).parts@,
            final(self).reason@ == old(self).reason@,
            final(self).metadata == old(self).metadata,
            args_view(final(self).fc_args@) == append_arg(
                args_view(old(self).fc_args@),
                match item_id {
                    Some(i) => i@,
                    None => Seq::<char>::empty(),
                },
                delta@,
            ),
    {
        let key = opt_or_empty(&item_id);
        let ghost before = args_view(self.fc_args@);
        let n = self.fc_args.len();
        let mut i: usize = 0;
        while i < n
            invariant
                i <= n,
                n == self.fc_args@.len(),
                before == args_view(self.fc_args@),
                forall|k: int| 0 <= k < i ==> before[k].0 != key@,
                self.parts == old(self).parts,
                self.fc_args@ == old(self).fc_args@,
                key@ == match item_id {
                    Some(x) => x@,
                    None => Seq::<char>::empty(),
                },
                self.reason == old(self).reason,
                self.metadata == old(self).metadata,
            decreases n - i,
        {
            if str_eq(self.fc_args[i].0.as_str(), key.as_str()) {
                let (k, v) = self.fc_args.remove(i);
                let joined = v.concat(delta.as_str());
                self.fc_args.insert(i, (k, joined));
                proof {
                    lemma_first_index(before, key@, i as int);
                    assert(before[i as int].0 == key@);
                }
                assert(args_view(self.fc_args@) =~= before.update(i as int, (key@, before[i as int].1 + delta@)));
                assert(append_arg(before, key@, delta@) == before.update(i as int, (key@, before[i as int].1 + delta@)));
                return Ok(None);
            }
            i = i + 1;
        }
        proof {
            lemma_no_index(before, key@);
        }
        if n > 0 {
            let (k, v) = self.fc_args.pop().unwrap();
            let joined = v.concat(delta.as_str());
            self.fc_args.push((k, joined));
            assert(args_view(self.fc_args@) =~= before.update(n - 1, (before[n - 1].0, before[n - 1].1 + delta@)));
        }
        Ok(None)
    }

    fn on_completed(
        &mut self,
        id: Option<String>,
        model: Option<String>,
        parts: Parts,
        has_function_call: bool,
        usage: Option<UsageCounts>,
        status: Option<String>,
    ) -> (r: Result<Option<StreamEvent>, ChatError>)
        ensures
            r matches Ok(None),
            final(self).parts@ == old(self).parts@ + parts@,
            final(self).reason@ == completed_reason(has_function_call, opt_str(status)),
            meta_view(final(self).metadata) == Some(
                MetadataView { id: opt_str(id), model_slug: opt_str(model), usage: usage_from(usage), ..MetadataView::empty() },
            ),
            final(self).metadata matches Some(m) && m.well_formed(),
            final(self).fc_args@ == old(self).fc_args@,
    {
        self.parts.extend(parts);
        self.reason = if has_function_call {
            CompleteReasonEnum::ToolCall
        } else {
            match status {
                Some(s) => {
                    if str_eq(s.as_str(), "completed") {
                        CompleteReasonEnum::Stop
                    } else if str_eq(s.as_str(), "incomplete") {
                        CompleteReasonEnum::MaxTokens
                    } else {
                        CompleteReasonEnum::Other(s)
                    }
                },
                None => CompleteReasonEnum::NoReason,
            }
        };
        let mut m = Metadata::default();
        m.id = id;
        m.model_slug = model;
        m.usage = usage_of(&usage);
        self.metadata = Some(m);
        Ok(None)
    }

    /// Takes one event of the stream: decoded data updates the response or
    /// yields a chunk or tool call for the reader; data that does not decode
    /// is an error, but for `response.created`, which is then skipped.
    pub fn handle_event(&mut self, data: SseData) -> (r: Result<Option<StreamEvent>, ChatError>)
        ensures
            match data {
                SseData::Ignored => r matches Ok(None) && *final(self) == *old(self),
                SseData::Undecodable(kind, msg) => *final(self) == *old(self) && if kind == SseKind::Created {
                    r matches Ok(None)
                } else {
                    r matches Err(e) && e@ == ChatErrorView::InvalidResponse(msg@)
                },
                SseData::Decoded(SsePayload::TextDelta(d)) => r matches Ok(Some(StreamEvent::TextChunk(t))) && t == d
                    && *final(self) == *old(self),
                SseData::Decoded(SsePayload::ReasoningDelta(d)) => r matches Ok(Some(StreamEvent::ReasoningChunk(t))) && t
                    == d && *final(self) == *old(self),
                SseData::Decoded(SsePayload::Created { id }) => r matches Ok(None) && meta_view(final(self).metadata)
                    == Some(MetadataView { id: opt_str(id), ..MetadataView::empty() }) && final(self).parts@
                    == old(self).parts@,
                SseData::Decoded(SsePayload::Completed { id, model, parts, has_function_call, usage, status }) => {
                    &&& r matches Ok(None)
                    &&& final(self).parts@ == old(self).parts@ + parts@
                    &&& final(self).reason@ == completed_reason(has_function_call, opt_str(status))
                    &&& meta_view(final(self).metadata) == Some(
                        MetadataView {
                            id: opt_str(id),
                            model_slug: opt_str(model),
                            usage: usage_from(usage),
                            ..MetadataView::empty()
                        },
                    )
                },
                SseData::Decoded(SsePayload::ItemAdded { function_call }) => {
                    &&& final(self).parts@ == old(self).parts@
                    &&& (function_call is None ==> r matches Ok(None))
                    &&& (function_call matches Some((call_id, name)) ==> r matches Ok(Some(StreamEvent::ToolCall(fc)))
                        && fc@ == (FunctionCallView {
                        id: opt_str(call_id),
                        name: match name {
                            Some(n) => n@,
                            None => Seq::<char>::empty(),
                        },
                        arguments: JsonView::Null,
                    }))
                },
                SseData::Decoded(SsePayload::FcArgsDelta { item_id, delta }) => r matches Ok(None) && final(self).parts@
                    == old(self).parts@ && final(self).metadata == old(self).metadata,
            },
    {
        match data {
            SseData::Ignored => Ok(None),
            SseData::Undecodable(kind, msg) => {
                if kind == SseKind::Created {
                    Ok(None)
                } else {
                    Err(ChatError::InvalidResponse(msg))
                }
            },
            SseData::Decoded(SsePayload::Created { id }) => self.on_created(id),
            SseData::Decoded(SsePayload::ItemAdded { function_call }) => self.on_item_added(function_call),
            SseData::Decoded(SsePayload::TextDelta(d)) => Ok(Some(StreamEvent::TextChunk(d))),
            SseData::Decoded(SsePayload::ReasoningDelta(d)) => Ok(Some(StreamEvent::ReasoningChunk(d))),
            SseData::Decoded(SsePayload::FcArgsDelta { item_id, delta }) => self.on_fc_args_delta(item_id, delta),
            SseData::Decoded(SsePayload::Completed { id, model, parts, has_function_call, usage, status }) => {
                self.on_completed(id, model, parts, has_function_call, usage, status)
            },
        }
    }

    /// The response the stream made: a model message with the gathered parts
    /// and stop reason, and the metadata.
    pub fn into_response(self) -> (r: ChatResponse)
        ensures
            r.content@ == (ContentView {
                parts: self.parts@,
                role: RoleEnum::Model,
                reason: self.reason@,
                metadata: None,
            }),
            meta_view(r.metadata) == meta_view(self.metadata),
    {
        ChatResponse {
            content: Content { role: RoleEnum::Model, parts: self.parts, complete_reason: self.reason, metadata: None },
            metadata: self.metadata,
        }
    }
}

/// The first position of `key` among the accumulators.
pub open spec fn first_index(args: Seq<(Seq<char>, Seq<char>)>, key: Seq<char>) -> int {
    choose|i: int| 0 <= i < args.len() && args[i].0 == key && forall|j: int| 0 <= j < i ==> args[j].0 != key
}

/// The accumulators with `key`'s set to `value`: replaced where the key is,
/// else added.
pub open spec fn set_arg(args: Seq<(Seq<char>, Seq<char>)>, key: Seq<char>, value: Seq<char>) -> Seq<(Seq<char>, Seq<char>)> {
    if exists|i: int| 0 <= i < args.len() && args[i].0 == key {
        let i = first_index(args, key);
        args.update(i, (key, value))
    } else {
        args.push((key, value))
    }
}

/// The accumulators with `delta` appended to `key`'s, or, when there is none
/// for `key`, to the most recent one (the text leaves open which one that
/// is); unchanged when there are none.
pub open spec fn append_arg(args: Seq<(Seq<char>, Seq<char>)>, key: Seq<char>, delta: Seq<char>) -> Seq<(Seq<char>, Seq<char>)> {
    if exists|i: int| 0 <= i < args.len() && args[i].0 == key {
        let i = first_index(args, key);
        args.update(i, (key, args[i].1 + delta))
    } else if args.len() > 0 {
        args.update(args.len() - 1, (args.last().0, args.last().1 + delta))
    } else {
        args
    }
}

proof fn lemma_first_index(args: Seq<(Seq<char>, Seq<char>)>, key: Seq<char>, i: int)
    requires
        0 <= i < args.len(),
        args[i].0 == key,
        forall|j: int| 0 <= j < i ==> args[j].0 != key,
    ensures
        first_index(args, key) == i,
{
    let k = first_index(args, key);
    assert(0 <= k < args.len() && args[k].0 == key && forall|j: int| 0 <= j < k ==> args[j].0 != key);
    if k < i {
        assert(args[k].0 != key);
    }
    if k > i {
        assert(args[i].0 != key);
    }
}

proof fn lemma_no_index(args: Seq<(Seq<char>, Seq<char>)>, key: Seq<char>)
    requires
        forall|j: int| 0 <= j < args.len() ==> args[j].0 != key,
    ensures
        !(exists|i: int| 0 <= i < args.len() && args[i].0 == key),
{
}

fn set_arg_exec(args: &mut Vec<(String, String)>, key: String, value: String)
    ensures
        args_view(final(args)@) == set_arg(args_view(old(args)@), key@, value@),
{
    let ghost before = args_view(args@);
    let n = args.len();
    let mut i: usize = 0;
    while i < n
        invariant
            i <= n,
            n == args@.len(),
            args@ == old(args)@,
            before == args_view(args@),
            forall|k: int| 0 <= k < i ==> before[k].0 != key@,
        decreases n - i,
    {
        if str_eq(args[i].0.as_str(), key.as_str()) {
            proof {
                lemma_first_index(before, key@, i as int);
                assert(before[i as int].0 == key@);
            }
            let ghost kv = key@;
            let ghost vv = value@;
            args.set(i, (key, value));
            assert(args_view(args@) =~= before.update(i as int, (kv, vv)));
            return;
        }
        i = i + 1;
    }
    proof {
        lemma_no_index(before, key@);
    }
    let ghost kv = key@;
    let ghost vv = value@;
    args.push((key, value));
    assert(args_view(args@) =~= before.push((kv, vv)));
}

/// Why a completed stream stopped: for tool calls whenever its output holds
/// a function call; otherwise `Stop` exactly when the status is
/// `"completed"`, `MaxTokens` exactly when it is `"incomplete"`, and no
/// reason without a status.
pub proof fn lemma_completed_reason_by_status(has_function_call: bool, status: Option<Seq<char>>)
    ensures
        has_function_call ==> completed_reason(has_function_call, status) == ReasonView::ToolCall,
        !has_function_call ==> (completed_reason(has_function_call, status) == ReasonView::Stop <==> status == Some(
            "completed"@,
        )),
        !has_function_call ==> (completed_reason(has_function_call, status) == ReasonView::MaxTokens <==> status
            == Some("incomplete"@)),
        !has_function_call && status is None ==> completed_reason(has_function_call, status) == ReasonView::NoReason,
{
    reveal_strlit("completed");
    reveal_strlit("incomplete");
    assert("completed"@ != "incomplete"@) by {
        assert("completed"@[0] != "incomplete"@[0]);
    }
}

} // verus!
