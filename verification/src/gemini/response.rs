use vstd::prelude::*;

use crate::chars::{push_str, string_from_chars};
use crate::chat::ChatResponse;
use crate::error::{ChatError, ChatErrorView, ChatFailure};
use crate::json::{jat, jget, json_parse, jstr, serde_parse_text, Json, JsonView};
use crate::messages::content::{CompleteReasonEnum, Content, ContentView, ReasonView, RoleEnum};
use crate::messages::file::{lowercase, str_eq, to_lowercase};
use crate::messages::parts::{PartEnum, PartView, Parts};
use crate::messages::text::Text;
use crate::metadata::{Metadata, MetadataView, Usage};
use crate::tools::{FunctionCall, FunctionCallView};

verus! {

/// A fenced block of text: three backticks and `label`, then `body`.
pub open spec fn fence(label: Seq<char>, body: Seq<char>) -> Seq<char> {
    "```"@ + label + "\n"@ + body + "\n```"@
}

pub open spec fn str_or(v: Option<JsonView>, default: Seq<char>) -> Seq<char> {
    match jstr(v) {
        Some(t) => t,
        None => default,
    }
}

/// The text part for an item's executed code, if it has one.
pub open spec fn code_part(item: JsonView) -> Seq<PartView> {
    match jget(item, "executableCode"@) {
        Some(e) => seq![PartView::Text(fence(
            lowercase(str_or(jget(e, "language"@), "code"@)),
            str_or(jget(e, "code"@), Seq::empty()),
        ))],
        None => Seq::empty(),
    }
}

/// The text part for an item's code execution result, if it has one.
pub open spec fn result_part(item: JsonView) -> Seq<PartView> {
    match jget(item, "codeExecutionResult"@) {
        Some(r) => seq![PartView::Text(fence(
            str_or(jget(r, "outcome"@), "result"@),
            str_or(jget(r, "output"@), Seq::empty()),
        ))],
        None => Seq::empty(),
    }
}

/// The parts one item of a Gemini `parts` array stands for: its text, its
/// function call, its executed code and its code result, in that order. A
/// function call without a textual name or an object of arguments is an
/// error. Function calls carry no id here: the parser gives each a fresh one.
pub open spec fn item_parts(item: JsonView) -> Result<Seq<PartView>, ChatErrorView> {
    let text = match jstr(jget(item, "text"@)) {
        Some(t) => seq![PartView::Text(t)],
        None => Seq::empty(),
    };
    match jget(item, "functionCall"@) {
        Some(fc) => match jstr(jget(fc, "name"@)) {
            None => Err(ChatErrorView::InvalidResponse("Missing function call name"@)),
            Some(name) => match jget(fc, "args"@) {
                Some(JsonView::Object(args)) => Ok(
                    text.push(PartView::FunctionCall(FunctionCallView { id: None, name, arguments: JsonView::Object(args) }))
                        + code_part(item) + result_part(item),
                ),
                _ => Err(ChatErrorView::InvalidResponse("Missing function call args"@)),
            },
        },
        None => Ok(text + code_part(item) + result_part(item)),
    }
}

/// The parts of a list of items, or the error of the first item that has one.
pub open spec fn items_parts(items: Seq<JsonView>) -> Result<Seq<PartView>, ChatErrorView>
    decreases items.len(),
{
    if items.len() == 0 {
        Ok(Seq::empty())
    } else {
        match items_parts(items.drop_last()) {
            Err(e) => Err(e),
            Ok(ps) => match item_parts(items.last()) {
                Err(e) => Err(e),
                Ok(q) => Ok(ps + q),
            },
        }
    }
}

/// The parts of a Gemini content object: those of its `parts` array, if it
/// has one.
pub open spec fn content_parts(content: JsonView) -> Result<Seq<PartView>, ChatErrorView> {
    match jget(content, "parts"@) {
        Some(JsonView::Array(items)) => items_parts(items),
        _ => Ok(Seq::empty()),
    }
}

/// A part with the id of a function call taken away.
pub open spec fn without_id(p: PartView) -> PartView {
    match p {
        PartView::FunctionCall(fc) => PartView::FunctionCall(FunctionCallView { id: None, ..fc }),
        _ => p,
    }
}

/// `actual` is `expected` with a fresh id on each function call.
pub open spec fn with_fresh_ids(actual: Seq<PartView>, expected: Seq<PartView>) -> bool {
    &&& actual.len() == expected.len()
    &&& forall|i: int| 0 <= i < actual.len() ==> without_id(#[trigger] actual[i]) == expected[i]
    &&& forall|i: int|
        0 <= i < actual.len() && (#[trigger] actual[i]) is FunctionCall ==> (actual[i]->FunctionCall_0.id matches Some(id)
            && id.len() == 36)
}

fn fenced(label: &str, body: &str) -> (r: String)
    ensures
        r@ == fence(label@, body@),
{
    let mut out: Vec<char> = Vec::new();
    push_str(&mut out, "```");
    push_str(&mut out, label);
    push_str(&mut out, "\n");
    push_str(&mut out, body);
    push_str(&mut out, "\n```");
    let r = string_from_chars(&out);
    assert(r@ =~= fence(label@, body@));
    r
}

fn str_member<'a>(j: &'a Json, key: &str, default: &'a str) -> (r: &'a str)
    ensures
        r@ == str_or(jget(j@, key@), default@),
{
    match j.get(key) {
        Some(v) => match v.as_str() {
            Some(t) => t,
            None => default,
        },
        None => default,
    }
}

fn push_part(
    parts: &mut Vec<PartEnum>,
    p: PartEnum,
    Ghost(n): Ghost<int>,
    Ghost(q): Ghost<Seq<PartView>>,
    Ghost(b): Ghost<PartView>,
)
    requires
        0 <= n <= old(parts)@.len(),
        with_fresh_ids(crate::messages::parts::parts_view(old(parts)@).skip(n), q),
        without_id(p@) == b,
        p@ is FunctionCall ==> (p@->FunctionCall_0.id matches Some(id) && id.len() == 36),
    ensures
        final(parts)@.len() == old(parts)@.len() + 1,
        final(parts)@.subrange(0, n) == old(parts)@.subrange(0, n),
        with_fresh_ids(crate::messages::parts::parts_view(final(parts)@).skip(n), q.push(b)),
{
    let ghost before = crate::messages::parts::parts_view(parts@).skip(n);
    parts.push(p);
    let ghost after = crate::messages::parts::parts_view(parts@).skip(n);
    assert(after =~= before.push(p@));
    assert(parts@.subrange(0, n) =~= old(parts)@.subrange(0, n));
    assert forall|i: int| 0 <= i < after.len() implies without_id(#[trigger] after[i]) == q.push(b)[i] by {
        if i < before.len() {
            assert(after[i] == before[i]);
        }
    }
}

/// The parts one item of a Gemini `parts` array stands for, appended to
/// `parts`.
fn parse_item(item: &Json, parts: &mut Vec<PartEnum>) -> (r: Result<(), ChatError>)
    ensures
        match item_parts(item@) {
            Err(e) => r matches Err(x) && x@ == e,
            Ok(q) => r is Ok && final(parts)@.len() >= old(parts)@.len() && with_fresh_ids(
                crate::messages::parts::parts_view(final(parts)@).skip(old(parts)@.len() as int),
                q,
            ) && final(parts)@.subrange(0, old(parts)@.len() as int) == old(parts)@,
        },
{
    let ghost start = parts@;
    let ghost n = start.len() as int;
    let ghost mut q: Seq<PartView> = Seq::empty();
    assert(crate::messages::parts::parts_view(parts@).skip(n) =~= Seq::<PartView>::empty());
    match item.get("text") {
        Some(v) => match v.as_str() {
            Some(t) => {
                push_part(parts, PartEnum::Text(Text::from_str(t)), Ghost(n), Ghost(q), Ghost(PartView::Text(t@)));
                proof {
                    q = q.push(PartView::Text(t@));
                }
            },
            None => {},
        },
        None => {},
    }
    match item.get("functionCall") {
        Some(fc) => {
            let name = match fc.get("name") {
                Some(v) => match v.as_str() {
                    Some(t) => t,
                    None => {
                        return Err(ChatError::InvalidResponse("Missing function call name".to_owned()));
                    },
                },
                None => {
                    return Err(ChatError::InvalidResponse("Missing function call name".to_owned()));
                },
            };
            let args = match fc.get("args") {
                Some(v) => {
                    if v.is_object() {
                        v.clone()
                    } else {
                        return Err(ChatError::InvalidResponse("Missing function call args".to_owned()));
                    }
                },
                None => {
                    return Err(ChatError::InvalidResponse("Missing function call args".to_owned()));
                },
            };
            let call = FunctionCall::new(name.to_owned(), args);
            let ghost b = PartView::FunctionCall(FunctionCallView { id: None, name: name@, arguments: args@ });
            push_part(parts, PartEnum::FunctionCall(call), Ghost(n), Ghost(q), Ghost(b));
            proof {
                q = q.push(b);
            }
        },
        None => {},
    }
    match item.get("executableCode") {
        Some(exec) => {
            let language = to_lowercase(str_member(exec, "language", "code"));
            let code = str_member(exec, "code", "");
            let text = fenced(language.as_str(), code);
            let ghost b = PartView::Text(text@);
            push_part(parts, PartEnum::Text(Text::new(text)), Ghost(n), Ghost(q), Ghost(b));
            proof {
                reveal_strlit("");
                assert(q.push(b) =~= q + code_part(item@));
                q = q.push(b);
            }
        },
        None => {},
    }
    match item.get("codeExecutionResult") {
        Some(res) => {
            let status = str_member(res, "outcome", "result");
            let output = str_member(res, "output", "");
            let text = fenced(status, output);
            let ghost b = PartView::Text(text@);
            push_part(parts, PartEnum::Text(Text::new(text)), Ghost(n), Ghost(q), Ghost(b));
            proof {
                reveal_strlit("");
                assert(q.push(b) =~= q + result_part(item@));
                q = q.push(b);
            }
        },
        None => {},
    }
    proof {
        assert(item_parts(item@) =~= Ok::<Seq<PartView>, ChatErrorView>(q));
        assert(parts@.subrange(0, n) =~= start);
    }
    Ok(())
}


proof fn lemma_items_err(s: Seq<JsonView>, k: int)
    requires
        0 <= k <= s.len(),
        items_parts(s.take(k)) is Err,
    ensures
        items_parts(s) == items_parts(s.take(k)),
    decreases s.len(),
{
    if k == s.len() {
        assert(s.take(k) =~= s);
    } else {
        assert(s.drop_last().take(k) =~= s.take(k));
        lemma_items_err(s.drop_last(), k);
    }
}

proof fn lemma_fresh_concat(before: Seq<PartEnum>, after: Seq<PartEnum>, q: Seq<PartView>, q2: Seq<PartView>)
    requires
        before.len() <= after.len(),
        after.subrange(0, before.len() as int) == before,
        with_fresh_ids(crate::messages::parts::parts_view(before), q),
        with_fresh_ids(crate::messages::parts::parts_view(after).skip(before.len() as int), q2),
    ensures
        with_fresh_ids(crate::messages::parts::parts_view(after), q + q2),
{
    let n = before.len() as int;
    let a = crate::messages::parts::parts_view(after);
    let b = crate::messages::parts::parts_view(before);
    let t = a.skip(n);
    assert forall|i: int| 0 <= i < a.len() implies without_id(#[trigger] a[i]) == (q + q2)[i]
        && (a[i] is FunctionCall ==> (a[i]->FunctionCall_0.id matches Some(id) && id.len() == 36)) by {
        if i < n {
            assert(after[i] == after.subrange(0, n)[i]);
            assert(a[i] == b[i]);
        } else {
            assert(a[i] == t[i - n]);
        }
    }
}

/// Parses the `parts` array of a Gemini content object.
pub fn parse_parts(content_json: &Json) -> (r: Result<Parts, ChatError>)
    ensures
        match content_parts(content_json@) {
            Err(e) => r matches Err(x) && x@ == e,
            Ok(q) => r matches Ok(ps) && with_fresh_ids(ps@, q),
        },
{
    let mut parts: Vec<PartEnum> = Vec::new();
    match content_json.get("parts") {
        Some(v) => match v.as_array() {
            Some(items) => {
                let ghost iv = crate::json::items_view(items@);
                let ghost mut q: Seq<PartView> = Seq::empty();
                assert(crate::messages::parts::parts_view(parts@) =~= Seq::<PartView>::empty());
                assert(iv.take(0) =~= Seq::<JsonView>::empty());
                let mut i: usize = 0;
                while i < items.len()
                    invariant
                        i <= items@.len(),
                        iv == crate::json::items_view(items@),
                        content_parts(content_json@) == items_parts(iv),
                        items_parts(iv.take(i as int)) == Ok::<Seq<PartView>, ChatErrorView>(q),
                        with_fresh_ids(crate::messages::parts::parts_view(parts@), q),
                    decreases items@.len() - i,
                {
                    let ghost before = parts@;
                    let res = parse_item(&items[i], &mut parts);
                    proof {
                        assert(iv.take(i + 1).drop_last() =~= iv.take(i as int));
                        assert(iv.take(i + 1).last() == iv[i as int]);
                    }
                    match res {
                        Ok(()) => {
                            proof {
                                let q2 = item_parts(iv[i as int])->Ok_0;
                                lemma_fresh_concat(before, parts@, q, q2);
                                q = q + q2;
                            }
                        },
                        Err(e) => {
                            proof {
                                assert(items_parts(iv.take(i + 1)) == Err::<Seq<PartView>, ChatErrorView>(e@));
                                lemma_items_err(iv, i + 1);
                            }
                            return Err(e);
                        },
                    }
                    i = i + 1;
                }
                assert(iv.take(items@.len() as int) =~= iv);
            },
            None => {},
        },
        None => {},
    }
    let ps = Parts(parts);
    assert(ps@ =~= crate::messages::parts::parts_view(ps.0@));
    Ok(ps)
}

/// The role a Gemini content object names; the model when it names none
/// that is known.
pub open spec fn role_of(content: JsonView) -> RoleEnum {
    let r = str_or(jget(content, "role"@), "model"@);
    if r == "user"@ {
        RoleEnum::User
    } else if r == "system"@ {
        RoleEnum::System
    } else {
        RoleEnum::Model
    }
}

/// Reads the role of a Gemini content object.
pub fn parse_role(content_json: &Json) -> (r: RoleEnum)
    ensures
        r == role_of(content_json@),
{
    let role = str_member(content_json, "role", "model");
    if str_eq(role, "user") {
        RoleEnum::User
    } else if str_eq(role, "system") {
        RoleEnum::System
    } else {
        RoleEnum::Model
    }
}

/// Why a Gemini candidate stopped, from its `finishReason`.
pub open spec fn finish_reason_of(candidate: JsonView) -> ReasonView {
    let f = str_or(jget(candidate, "finishReason"@), Seq::empty());
    if f == "STOP"@ {
        ReasonView::Stop
    } else if f == "MAX_TOKENS"@ {
        ReasonView::MaxTokens
    } else if f == "SAFETY"@ || f == "RECITATION"@ || f == "OTHER"@ {
        ReasonView::ContentFilter
    } else {
        ReasonView::NoReason
    }
}

/// Reads why a Gemini candidate stopped: `STOP` and `MAX_TOKENS` as such,
/// `SAFETY`, `RECITATION` and `OTHER` as a content filter, anything else
/// (or nothing) as no reason.
pub fn parse_finish_reason(candidate: &Json) -> (r: CompleteReasonEnum)
    ensures
        r@ == finish_reason_of(candidate@),
{
    proof {
        reveal_strlit("");
        assert(""@ =~= Seq::<char>::empty());
    }
    let f = str_member(candidate, "finishReason", "");
    if str_eq(f, "STOP") {
        CompleteReasonEnum::Stop
    } else if str_eq(f, "MAX_TOKENS") {
        CompleteReasonEnum::MaxTokens
    } else if str_eq(f, "SAFETY") || str_eq(f, "RECITATION") || str_eq(f, "OTHER") {
        CompleteReasonEnum::ContentFilter
    } else {
        CompleteReasonEnum::NoReason
    }
}

/// The first candidate of a Gemini response.
pub open spec fn first_candidate(json: JsonView) -> Option<JsonView> {
    match jget(json, "candidates"@) {
        Some(c) => jat(c, 0),
        None => None,
    }
}

/// What a Gemini response with candidates says, parts aside: the error it
/// gives, or the role and stop reason of its first candidate.
pub open spec fn candidate_reply(json: JsonView) -> Result<(Seq<PartView>, RoleEnum, ReasonView), ChatErrorView> {
    match first_candidate(json) {
        None => Err(ChatErrorView::InvalidResponse("No candidates in response"@)),
        Some(c) => match jget(c, "content"@) {
            None => Err(ChatErrorView::InvalidResponse("No content in candidate"@)),
            Some(content) => match content_parts(content) {
                Err(e) => Err(e),
                Ok(ps) => Ok((ps, role_of(content), finish_reason_of(c))),
            },
        },
    }
}

/// The embedding values of a Gemini embedding response, when it is one.
pub fn embedding_values(json: &Json) -> (r: Option<&Json>)
    ensures
        match jget(json@, "embedding"@) {
            Some(e) => match jget(e, "values"@) {
                Some(v) => r matches Some(x) && x@ == v,
                None => r is None,
            },
            None => r is None,
        },
{
    match json.get("embedding") {
        Some(e) => e.get("values"),
        None => None,
    }
}

/// Parses the first candidate of a Gemini content generation response into
/// a message. (An embedding response, which `embedding_values` recognises,
/// carries numbers in place of candidates.)
pub fn parse_gemini_response(json: &Json) -> (r: Result<Content, ChatError>)
    ensures
        match candidate_reply(json@) {
            Err(e) => r matches Err(x) && x@ == e,
            Ok((ps, role, reason)) => r matches Ok(c) && with_fresh_ids(c@.parts, ps) && c.role == role
                && c@.reason == reason && c.metadata is None,
        },
{
    let candidate = match json.get("candidates") {
        Some(c) => match c.at(0) {
            Some(x) => x,
            None => {
                return Err(ChatError::InvalidResponse("No candidates in response".to_owned()));
            },
        },
        None => {
            return Err(ChatError::InvalidResponse("No candidates in response".to_owned()));
        },
    };
    let content_json = match candidate.get("content") {
        Some(c) => c,
        None => {
            return Err(ChatError::InvalidResponse("No content in candidate".to_owned()));
        },
    };
    let parts = match parse_parts(content_json) {
        Ok(p) => p,
        Err(e) => {
            return Err(e);
        },
    };
    let role = parse_role(content_json);
    let complete_reason = parse_finish_reason(candidate);
    Ok(Content { parts, role, complete_reason, metadata: None })
}


/// A token count of a response's `usageMetadata`, when it is an unsigned
/// integer.
pub open spec fn usage_count(body: JsonView, key: Seq<char>) -> Option<u64> {
    match jget(body, "usageMetadata"@) {
        Some(u) => match jget(u, key) {
            Some(JsonView::UInt(n)) => Some(n),
            _ => None,
        },
        None => None,
    }
}

pub open spec fn count_or(o: Option<u64>, default: int) -> int {
    match o {
        Some(n) => n as int,
        None => default,
    }
}

pub open spec fn prompt_count(body: JsonView) -> int {
    count_or(usage_count(body, "promptTokenCount"@), 0)
}

pub open spec fn candidates_count(body: JsonView) -> int {
    count_or(usage_count(body, "candidatesTokenCount"@), 0)
}

/// The total a response reports, or the sum of its two counts.
pub open spec fn total_count(body: JsonView) -> int {
    count_or(usage_count(body, "totalTokenCount"@), prompt_count(body) + candidates_count(body))
}

fn count_member(body: &Json, key: &str) -> (r: Option<u64>)
    ensures
        r == usage_count(body@, key@),
{
    match body.get("usageMetadata") {
        Some(u) => match u.get(key) {
            Some(v) => v.as_u64(),
            None => None,
        },
        None => None,
    }
}

/// The token counts of a Gemini response: the prompt and candidate counts (0
/// when missing) and the total, which defaults to their sum.
pub fn parse_usage(body: &Json) -> (u: Usage)
    requires
        prompt_count(body@) + candidates_count(body@) <= u64::MAX,
    ensures
        u.input_tokens == prompt_count(body@) as usize,
        u.output_tokens == candidates_count(body@) as usize,
        u.total_tokens == total_count(body@) as usize,
        u.reasoning_tokens == 0,
        u.cache_creation_input_tokens == 0,
        u.cache_read_input_tokens == 0,
{
    let input: u64 = match count_member(body, "promptTokenCount") {
        Some(n) => n,
        None => 0,
    };
    let output: u64 = match count_member(body, "candidatesTokenCount") {
        Some(n) => n,
        None => 0,
    };
    let total: u64 = match count_member(body, "totalTokenCount") {
        Some(n) => n,
        None => input + output,
    };
    Usage {
        input_tokens: input as usize,
        output_tokens: output as usize,
        total_tokens: total as usize,
        reasoning_tokens: 0,
        cache_creation_input_tokens: 0,
        cache_read_input_tokens: 0,
    }
}

pub open spec fn str_member_of(body: JsonView, key: Seq<char>) -> Option<Seq<char>> {
    jstr(jget(body, key))
}

fn opt_string_member(body: &Json, key: &str) -> (r: Option<String>)
    ensures
        crate::metadata::opt_str(r) == str_member_of(body@, key@),
{
    match body.get(key) {
        Some(v) => match v.as_str() {
            Some(t) => Some(t.to_owned()),
            None => None,
        },
        None => None,
    }
}

/// What a Gemini response reports about itself: its id, its model version
/// and its token counts.
pub fn parse_metadata(body: &Json) -> (m: Metadata)
    requires
        prompt_count(body@) + candidates_count(body@) <= u64::MAX,
    ensures
        m@ == (MetadataView {
            id: str_member_of(body@, "responseId"@),
            model_slug: str_member_of(body@, "modelVersion"@),
            usage: m.usage,
            ..MetadataView::empty()
        }),
        m.usage.input_tokens == prompt_count(body@) as usize,
        m.usage.output_tokens == candidates_count(body@) as usize,
        m.usage.total_tokens == total_count(body@) as usize,
        m.usage.reasoning_tokens == 0,
        m.usage.cache_creation_input_tokens == 0,
        m.usage.cache_read_input_tokens == 0,
        crate::metadata::keys_distinct(m.specific@),
{
    let m = Metadata {
        id: opt_string_member(body, "responseId"),
        model_slug: opt_string_member(body, "modelVersion"),
        system_fingerprint: None,
        usage: parse_usage(body),
        duration_ms: None,
        specific: Vec::new(),
        created_at: None,
    };
    assert(crate::metadata::specific_map(m.specific@) =~= Map::<Seq<char>, JsonView>::empty());
    m
}

/// The document a reply's text holds; an invalid-response error with the
/// parser's message when the text is no JSON.
pub fn parse_reply_text(text: &str) -> (r: Result<Json, ChatError>)
    ensures
        match json_parse(text@) {
            Ok(v) => r matches Ok(j) && j@ == v,
            Err(e) => r matches Err(x) && x@ == ChatErrorView::InvalidResponse(e),
        },
{
    match serde_parse_text(text) {
        Ok(j) => Ok(j),
        Err(m) => Err(ChatError::InvalidResponse(m)),
    }
}

/// Whether `m` is the metadata `parse_metadata` reads from `body`.
pub open spec fn is_reply_metadata(m: Metadata, body: JsonView) -> bool {
    &&& m@ == (MetadataView {
        id: str_member_of(body, "responseId"@),
        model_slug: str_member_of(body, "modelVersion"@),
        usage: m.usage,
        ..MetadataView::empty()
    })
    &&& m.usage.input_tokens == prompt_count(body) as usize
    &&& m.usage.output_tokens == candidates_count(body) as usize
    &&& m.usage.total_tokens == total_count(body) as usize
    &&& m.usage.reasoning_tokens == 0
    &&& m.usage.cache_creation_input_tokens == 0
    &&& m.usage.cache_read_input_tokens == 0
}

/// The chat response a Gemini reply document makes: the message of its
/// first candidate with the reply's metadata; when the reply holds no
/// message, the error with that metadata.
pub fn chat_response(json: &Json) -> (r: Result<ChatResponse, ChatFailure>)
    requires
        prompt_count(json@) + candidates_count(json@) <= u64::MAX,
    ensures
        match candidate_reply(json@) {
            Err(e) => r matches Err(f) && f.err@ == e && (f.metadata matches Some(m) && is_reply_metadata(m, json@)),
            Ok((ps, role, reason)) => r matches Ok(resp) && with_fresh_ids(resp.content@.parts, ps)
                && resp.content.role == role && resp.content@.reason == reason && resp.content.metadata is None
                && (resp.metadata matches Some(m) && is_reply_metadata(m, json@)),
        },
{
    match parse_gemini_response(json) {
        Ok(content) => Ok(ChatResponse { content, metadata: Some(parse_metadata(json)) }),
        Err(err) => Err(ChatFailure { err, metadata: Some(parse_metadata(json)) }),
    }
}

/// Whether a reply's prompt and candidate token counts add up within
/// `u64` (what reading its usage needs).
pub fn counts_fit(body: &Json) -> (b: bool)
    ensures
        b == (prompt_count(body@) + candidates_count(body@) <= u64::MAX),
{
    let input: u64 = match count_member(body, "promptTokenCount") {
        Some(n) => n,
        None => 0,
    };
    let output: u64 = match count_member(body, "candidatesTokenCount") {
        Some(n) => n,
        None => 0,
    };
    input <= u64::MAX - output
}

/// What a Gemini exchange answers: a provider error with the transport's
/// message (`Err(status_error)`) when the reply had an error status, with no
/// metadata; else the chat response of the reply document.
pub fn gemini_reply(reply: Result<Json, String>) -> (r: Result<ChatResponse, ChatFailure>)
    requires
        reply matches Ok(doc) ==> prompt_count(doc@) + candidates_count(doc@) <= u64::MAX,
    ensures
        match reply {
            Err(status_error) => r matches Err(f) && f.err@ == ChatErrorView::Provider(status_error@)
                && f.metadata is None,
            Ok(doc) => match candidate_reply(doc@) {
                Err(e) => r matches Err(f) && f.err@ == e && (f.metadata matches Some(m) && is_reply_metadata(m, doc@)),
                Ok((ps, role, reason)) => r matches Ok(resp) && with_fresh_ids(resp.content@.parts, ps)
                    && resp.content.role == role && resp.content@.reason == reason && resp.content.metadata is None
                    && (resp.metadata matches Some(m) && is_reply_metadata(m, doc@)),
            },
        },
{
    match reply {
        Err(status_error) => Err(ChatFailure::from_err(ChatError::Provider(status_error))),
        Ok(json) => chat_response(&json),
    }
}

} // verus!
