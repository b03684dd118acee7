use vstd::prelude::*;

use crate::json::Json;
use crate::messages::content::{CompleteReasonEnum, Content, ContentView, ReasonView, RoleEnum};
use crate::messages::file::File;
use crate::messages::parts::{parts_view, PartEnum, PartView, Parts};
use crate::messages::text::Text;
use crate::tools::{FunctionCall, FunctionResponse};

verus! {

/// The roles of OpenAI's wire format.
#[derive(Clone, Copy, Debug, PartialEq, Eq, Structural)]
pub enum OpenAIRole {
    System,
    User,
    Assistant,
    Tool,
}

/// The wire name of an OpenAI role.
pub open spec fn openai_role_name(r: OpenAIRole) -> Seq<char> {
    match r {
        OpenAIRole::System => "system"@,
        OpenAIRole::User => "user"@,
        OpenAIRole::Assistant => "assistant"@,
        OpenAIRole::Tool => "tool"@,
    }
}

/// The OpenAI role of a message's role: the model is the assistant.
pub open spec fn to_openai_role(r: RoleEnum) -> OpenAIRole {
    match r {
        RoleEnum::System => OpenAIRole::System,
        RoleEnum::User => OpenAIRole::User,
        RoleEnum::Model => OpenAIRole::Assistant,
    }
}

/// The message role of an OpenAI role: the assistant and tools are the model.
pub open spec fn from_openai_role(r: OpenAIRole) -> RoleEnum {
    match r {
        OpenAIRole::System => RoleEnum::System,
        OpenAIRole::User => RoleEnum::User,
        OpenAIRole::Assistant | OpenAIRole::Tool => RoleEnum::Model,
    }
}

impl OpenAIRole {
    /// The role's wire name.
    pub fn as_str(&self) -> (s: &'static str)
        ensures
            s@ == openai_role_name(*self),
    {
        match self {
            OpenAIRole::System => "system",
            OpenAIRole::User => "user",
            OpenAIRole::Assistant => "assistant",
            OpenAIRole::Tool => "tool",
        }
    }

    pub fn from(role: &RoleEnum) -> (r: OpenAIRole)
        ensures
            r == to_openai_role(*role),
    {
        match role {
            RoleEnum::System => OpenAIRole::System,
            RoleEnum::User => OpenAIRole::User,
            RoleEnum::Model => OpenAIRole::Assistant,
        }
    }
}

impl RoleEnum {
    pub fn from(role: &OpenAIRole) -> (r: RoleEnum)
        ensures
            r == from_openai_role(*role),
    {
        match role {
            OpenAIRole::System => RoleEnum::System,
            OpenAIRole::User => RoleEnum::User,
            OpenAIRole::Assistant | OpenAIRole::Tool => RoleEnum::Model,
        }
    }
}

/// One part of a message in OpenAI's form.
pub enum OpenAIPartEnum {
    Text(String),
    Reasoning(String),
    FunctionCall(FunctionCall),
    FunctionResponse(FunctionResponse),
    File(File),
    Structured(Json),
}

impl View for OpenAIPartEnum {
    type V = PartView;

    open spec fn view(&self) -> PartView {
        match self {
            OpenAIPartEnum::Text(t) => PartView::Text(t@),
            OpenAIPartEnum::Reasoning(t) => PartView::Reasoning(t@),
            OpenAIPartEnum::FunctionCall(fc) => PartView::FunctionCall(fc@),
            OpenAIPartEnum::FunctionResponse(fr) => PartView::FunctionResponse(fr@),
            OpenAIPartEnum::File(f) => PartView::File(f@),
            OpenAIPartEnum::Structured(v) => PartView::Structured(v@),
        }
    }
}

impl OpenAIPartEnum {
    /// A part in OpenAI's form; the same part.
    pub fn from(part: &PartEnum) -> (p: OpenAIPartEnum)
        ensures
            p@ == part@,
    {
        match part {
            PartEnum::Text(t) => OpenAIPartEnum::Text(t.text.clone()),
            PartEnum::Reasoning(r) => OpenAIPartEnum::Reasoning(r.text.clone()),
            PartEnum::FunctionCall(fc) => OpenAIPartEnum::FunctionCall(fc.clone()),
            PartEnum::FunctionResponse(fr) => OpenAIPartEnum::FunctionResponse(fr.clone()),
            PartEnum::File(f) => OpenAIPartEnum::File(f.clone()),
            PartEnum::Structured(v) => OpenAIPartEnum::Structured(v.clone()),
        }
    }
}

impl PartEnum {
    /// A part from OpenAI's form; the same part.
    pub fn from(part: OpenAIPartEnum) -> (p: PartEnum)
        ensures
            p@ == part@,
    {
        match part {
            OpenAIPartEnum::Text(t) => PartEnum::Text(Text::new(t)),
            OpenAIPartEnum::Reasoning(r) => PartEnum::Reasoning(Text::new(r)),
            OpenAIPartEnum::FunctionCall(fc) => PartEnum::FunctionCall(fc),
            OpenAIPartEnum::FunctionResponse(fr) => PartEnum::FunctionResponse(fr),
            OpenAIPartEnum::File(f) => PartEnum::File(f),
            OpenAIPartEnum::Structured(v) => PartEnum::Structured(v),
        }
    }
}

/// One message in OpenAI's form.
pub struct OpenAIContent {
    pub role: OpenAIRole,
    pub parts: Vec<OpenAIPartEnum>,
    pub complete_reason: CompleteReasonEnum,
}

pub open spec fn openai_parts_view(v: Seq<OpenAIPartEnum>) -> Seq<PartView> {
    v.map_values(|p: OpenAIPartEnum| p@)
}

impl OpenAIContent {
    /// A message of `role` with `parts` and no stop reason.
    pub fn new(role: OpenAIRole, parts: Vec<OpenAIPartEnum>) -> (c: OpenAIContent)
        ensures
            c.role == role,
            c.parts == parts,
            c.complete_reason@ == ReasonView::NoReason,
    {
        OpenAIContent { role, parts, complete_reason: CompleteReasonEnum::NoReason }
    }

    /// A message in OpenAI's form: its role mapped, its parts and stop
    /// reason kept.
    pub fn from(content: &Content) -> (c: OpenAIContent)
        ensures
            c.role == to_openai_role(content.role),
            openai_parts_view(c.parts@) == content@.parts,
            c.complete_reason@ == content.complete_reason@,
    {
        let mut parts: Vec<OpenAIPartEnum> = Vec::new();
        let ps = &content.parts.0;
        let mut i: usize = 0;
        while i < ps.len()
            invariant
                i <= ps@.len(),
                openai_parts_view(parts@) == parts_view(ps@).take(i as int),
            decreases ps@.len() - i,
        {
            let ghost before = parts@;
            parts.push(OpenAIPartEnum::from(&ps[i]));
            proof {
                assert(openai_parts_view(parts@) =~= openai_parts_view(before).push(ps@[i as int]@));
                assert(parts_view(ps@).take(i + 1) =~= parts_view(ps@).take(i as int).push(ps@[i as int]@));
            }
            i = i + 1;
        }
        assert(parts_view(ps@).take(ps@.len() as int) =~= content@.parts);
        OpenAIContent { role: OpenAIRole::from(&content.role), parts, complete_reason: content.complete_reason.clone() }
    }
}

impl Content {
    /// A message from OpenAI's form: its role mapped, its parts and stop
    /// reason kept, no metadata.
    pub fn from(oai: OpenAIContent) -> (c: Content)
        ensures
            c@ == (ContentView {
                parts: openai_parts_view(oai.parts@),
                role: from_openai_role(oai.role),
                reason: oai.complete_reason@,
                metadata: None,
            }),
    {
        let role = RoleEnum::from(&oai.role);
        let ghost pv = openai_parts_view(oai.parts@);
        let mut source = oai.parts;
        let mut rev: Vec<PartEnum> = Vec::new();
        let n = source.len();
        while source.len() > 0
            invariant
                source@.len() + rev@.len() == n,
                n == pv.len(),
                forall|k: int| 0 <= k < source@.len() ==> (#[trigger] source@[k])@ == pv[k],
                forall|k: int| 0 <= k < rev@.len() ==> (#[trigger] rev@[k])@ == pv[n - 1 - k],
            decreases source@.len(),
        {
            let p = source.pop().unwrap();
            rev.push(PartEnum::from(p));
        }
        let mut parts: Vec<PartEnum> = Vec::new();
        while rev.len() > 0
            invariant
                rev@.len() + parts@.len() == n,
                n == pv.len(),
                forall|k: int| 0 <= k < rev@.len() ==> (#[trigger] rev@[k])@ == pv[n - 1 - k],
                forall|k: int| 0 <= k < parts@.len() ==> (#[trigger] parts@[k])@ == pv[k],
            decreases rev@.len(),
        {
            let p = rev.pop().unwrap();
            parts.push(p);
        }
        let c = Content { parts: Parts(parts), role, complete_reason: oai.complete_reason, metadata: None };
        assert(c@.parts =~= pv);
        c
    }
}


/// A message's role survives the trip to OpenAI's form and back.
pub proof fn lemma_role_round_trip(r: RoleEnum)
    ensures
        from_openai_role(to_openai_role(r)) == r,
{
}

/// The assistant and the tool role both come back as the model.
pub proof fn lemma_assistant_and_tool_are_model()
    ensures
        from_openai_role(OpenAIRole::Assistant) == RoleEnum::Model,
        from_openai_role(OpenAIRole::Tool) == RoleEnum::Model,
{
}

} // verus!
