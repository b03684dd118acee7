use vstd::prelude::*;

use crate::json::Json;
use crate::messages::file::str_eq;
use crate::metadata::{Metadata, MetadataView, Usage};
use crate::messages::parts::{PartEnum, PartView, Parts};

verus! {

/// Who a message is from.
#[derive(Clone, Copy, Debug, PartialEq, Eq, Structural)]
pub enum RoleEnum {
    User,
    System,
    Model,
}

impl Default for RoleEnum {
    fn default() -> (r: Self)
        ensures
            r == RoleEnum::User,
    {
        RoleEnum::User
    }
}

/// Why the model stopped.
#[derive(Debug)]
pub enum CompleteReasonEnum {
    ToolCall,
    Stop,
    MaxTokens,
    /// The provider withheld or cut the answer (safety, recitation and the
    /// like).
    ContentFilter,
    NoReason,
    Other(String),
}

pub enum ReasonView {
    ToolCall,
    Stop,
    MaxTokens,
    ContentFilter,
    NoReason,
    Other(Seq<char>),
}

impl View for CompleteReasonEnum {
    type V = ReasonView;

    open spec fn view(&self) -> ReasonView {
        match self {
            CompleteReasonEnum::ToolCall => ReasonView::ToolCall,
            CompleteReasonEnum::Stop => ReasonView::Stop,
            CompleteReasonEnum::MaxTokens => ReasonView::MaxTokens,
            CompleteReasonEnum::ContentFilter => ReasonView::ContentFilter,
            CompleteReasonEnum::NoReason => ReasonView::NoReason,
            CompleteReasonEnum::Other(s) => ReasonView::Other(s@),
        }
    }
}

impl Default for CompleteReasonEnum {
    fn default() -> (r: Self)
        ensures
            r@ == ReasonView::NoReason,
    {
        CompleteReasonEnum::NoReason
    }
}

impl Clone for CompleteReasonEnum {
    fn clone(&self) -> (r: Self)
        ensures
            r@ == self@,
    {
        match self {
            CompleteReasonEnum::ToolCall => CompleteReasonEnum::ToolCall,
            CompleteReasonEnum::Stop => CompleteReasonEnum::Stop,
            CompleteReasonEnum::MaxTokens => CompleteReasonEnum::MaxTokens,
            CompleteReasonEnum::ContentFilter => CompleteReasonEnum::ContentFilter,
            CompleteReasonEnum::NoReason => CompleteReasonEnum::NoReason,
            CompleteReasonEnum::Other(s) => CompleteReasonEnum::Other(s.clone()),
        }
    }
}

impl PartialEq for CompleteReasonEnum {
    fn eq(&self, other: &Self) -> (r: bool) {
        match (self, other) {
            (CompleteReasonEnum::ToolCall, CompleteReasonEnum::ToolCall) => true,
            (CompleteReasonEnum::Stop, CompleteReasonEnum::Stop) => true,
            (CompleteReasonEnum::MaxTokens, CompleteReasonEnum::MaxTokens) => true,
            (CompleteReasonEnum::ContentFilter, CompleteReasonEnum::ContentFilter) => true,
            (CompleteReasonEnum::NoReason, CompleteReasonEnum::NoReason) => true,
            (CompleteReasonEnum::Other(a), CompleteReasonEnum::Other(b)) => str_eq(a.as_str(), b.as_str()),
            _ => false,
        }
    }
}

impl vstd::std_specs::cmp::PartialEqSpecImpl for CompleteReasonEnum {
    open spec fn obeys_eq_spec() -> bool {
        true
    }

    open spec fn eq_spec(&self, other: &Self) -> bool {
        self@ == other@
    }
}

/// One message: its parts, who it is from, why the model stopped, and what
/// the provider reported about it.
#[derive(Debug)]
pub struct Content {
    pub parts: Parts,
    pub role: RoleEnum,
    pub complete_reason: CompleteReasonEnum,
    pub metadata: Option<Metadata>,
}

pub struct ContentView {
    pub parts: Seq<PartView>,
    pub role: RoleEnum,
    pub reason: ReasonView,
    pub metadata: Option<MetadataView>,
}

impl View for Content {
    type V = ContentView;

    open spec fn view(&self) -> ContentView {
        ContentView {
            parts: self.parts@,
            role: self.role,
            reason: self.complete_reason@,
            metadata: match self.metadata {
                Some(m) => Some(m@),
                None => None,
            },
        }
    }
}

impl Default for Content {
    fn default() -> (c: Self)
        ensures
            c@ == (ContentView {
                parts: Seq::empty(),
                role: RoleEnum::User,
                reason: ReasonView::NoReason,
                metadata: None,
            }),
    {
        Content {
            parts: Parts::default(),
            role: RoleEnum::User,
            complete_reason: CompleteReasonEnum::NoReason,
            metadata: None,
        }
    }
}

impl Clone for Content {
    fn clone(&self) -> (c: Self)
        ensures
            c@ == self@,
            c.role == self.role,
            (self.metadata matches Some(m) && m.well_formed()) ==> (c.metadata matches Some(n) && n.well_formed()),
    {
        Content {
            parts: self.parts.clone(),
            role: self.role,
            complete_reason: self.complete_reason.clone(),
            metadata: match &self.metadata {
                Some(m) => Some(m.clone()),
                None => None,
            },
        }
    }
}

/// The metadata a builder writes into: the content's own, or empty.
pub open spec fn current_meta(m: Option<MetadataView>) -> MetadataView {
    match m {
        Some(v) => v,
        None => MetadataView::empty(),
    }
}

impl Content {
    /// The metadata, if any, has no key twice in its provider-specific data.
    pub open spec fn well_formed(&self) -> bool {
        self.metadata matches Some(m) ==> m.well_formed()
    }

    /// The total tokens recorded for this message, zero without metadata.
    pub fn total_tokens(&self) -> (n: usize)
        ensures
            n == match self.metadata {
                Some(m) => m.usage.total_tokens,
                None => 0,
            },
    {
        match &self.metadata {
            Some(m) => m.usage.total_tokens,
            None => 0,
        }
    }

    fn take_metadata(&mut self) -> (m: Metadata)
        requires
            old(self).well_formed(),
        ensures
            m.well_formed(),
            m@ == current_meta(old(self)@.metadata),
            final(self).metadata is None,
            final(self).parts == old(self).parts,
            final(self).role == old(self).role,
            final(self).complete_reason == old(self).complete_reason,
    {
        match self.metadata.take() {
            Some(m) => m,
            None => Metadata::default(),
        }
    }

    pub fn with_id(self, id: String) -> (c: Self)
        requires
            self.well_formed(),
        ensures
            c.well_formed(),
            c@ == (ContentView {
                metadata: Some(MetadataView { id: Some(id@), ..current_meta(self@.metadata) }),
                ..self@
            }),
    {
        let mut this = self;
        let mut m = this.take_metadata();
        m.id = Some(id);
        this.metadata = Some(m);
        this
    }

    pub fn with_usage(self, usage: Usage) -> (c: Self)
        requires
            self.well_formed(),
        ensures
            c.well_formed(),
            c@ == (ContentView {
                metadata: Some(MetadataView { usage, ..current_meta(self@.metadata) }),
                ..self@
            }),
    {
        let mut this = self;
        let mut m = this.take_metadata();
        m.usage = usage;
        this.metadata = Some(m);
        this
    }

    pub fn with_duration(self, duration_ms: u64) -> (c: Self)
        requires
            self.well_formed(),
        ensures
            c.well_formed(),
            c@ == (ContentView {
                metadata: Some(MetadataView { duration_ms: Some(duration_ms), ..current_meta(self@.metadata) }),
                ..self@
            }),
    {
        let mut this = self;
        let mut m = this.take_metadata();
        m.duration_ms = Some(duration_ms);
        this.metadata = Some(m);
        this
    }

    pub fn with_specific(self, key: String, value: Json) -> (c: Self)
        requires
            self.well_formed(),
        ensures
            c.well_formed(),
            c@ == (ContentView {
                metadata: Some(MetadataView {
                    specific: current_meta(self@.metadata).specific.insert(key@, value@),
                    ..current_meta(self@.metadata)
                }),
                ..self@
            }),
    {
        let mut this = self;
        let mut m = this.take_metadata();
        m.insert_specific(key, value);
        this.metadata = Some(m);
        this
    }
}

/// The text parts made of `prompts`, in order.
pub open spec fn prompt_parts(prompts: Seq<&str>) -> Seq<PartView> {
    prompts.map_values(|p: &str| PartView::Text(p@))
}

fn parts_from_prompts(prompts: Vec<&str>) -> (p: Parts)
    ensures
        p@ == prompt_parts(prompts@),
{
    let mut parts = Parts::default();
    let mut i: usize = 0;
    while i < prompts.len()
        invariant
            i <= prompts@.len(),
            parts@ == prompt_parts(prompts@.take(i as int)),
        decreases prompts@.len() - i,
    {
        parts.push(PartEnum::from_text(prompts[i].to_owned()));
        proof {
            assert(prompt_parts(prompts@.take(i + 1)) =~= prompt_parts(prompts@.take(i as int)).push(
                PartView::Text(prompts@[i as int]@),
            ));
        }
        i = i + 1;
    }
    proof {
        assert(prompts@.take(prompts@.len() as int) =~= prompts@);
    }
    parts
}

/// Creates a Content with the user role from the provided prompt strings.
pub fn from_user(prompts: Vec<&str>) -> (c: Content)
    ensures
        c.well_formed(),
        c@ == from_user_spec(prompts@),
{
    Content {
        parts: parts_from_prompts(prompts),
        role: RoleEnum::User,
        complete_reason: CompleteReasonEnum::NoReason,
        metadata: None,
    }
}

/// Constructs a `Content` with the system role from the provided prompt strings.
pub fn from_system(prompts: Vec<&str>) -> (c: Content)
    ensures
        c.well_formed(),
        c@ == from_system_spec(prompts@),
{
    Content {
        parts: parts_from_prompts(prompts),
        role: RoleEnum::System,
        complete_reason: CompleteReasonEnum::NoReason,
        metadata: None,
    }
}

/// Constructs a Content with the Model role from model-generated prompt
/// strings; the model is taken to have stopped of its own accord.
pub fn from_model(prompts: Vec<&str>) -> (c: Content)
    ensures
        c.well_formed(),
        c@ == from_model_spec(prompts@),
{
    Content {
        parts: parts_from_prompts(prompts),
        role: RoleEnum::Model,
        complete_reason: CompleteReasonEnum::Stop,
        metadata: None,
    }
}

pub open spec fn from_user_spec(prompts: Seq<&str>) -> ContentView {
    ContentView {
        parts: prompt_parts(prompts),
        role: RoleEnum::User,
        reason: ReasonView::NoReason,
        metadata: None,
    }
}

pub open spec fn from_system_spec(prompts: Seq<&str>) -> ContentView {
    ContentView {
        parts: prompt_parts(prompts),
        role: RoleEnum::System,
        reason: ReasonView::NoReason,
        metadata: None,
    }
}

pub open spec fn from_model_spec(prompts: Seq<&str>) -> ContentView {
    ContentView {
        parts: prompt_parts(prompts),
        role: RoleEnum::Model,
        reason: ReasonView::Stop,
        metadata: None,
    }
}

} // verus!
