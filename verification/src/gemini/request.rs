use vstd::prelude::*;

use crate::error::{ChatError, ChatErrorView};
use crate::gemini::tools::{EmbeddingsConfig, EmbeddingsTask, FunctionCallingConfig, GeminiNativeTool, NativeToolView, strings_view};
use crate::json::{fields_view, items_view, Json, JsonView};
use crate::messages::content::{Content, ContentView, RoleEnum};
use crate::messages::file::{File, FileView};
use crate::messages::parts::{PartEnum, PartView};
use crate::messages::{contents_view, Messages};
use crate::chars::{chars_of, push_str, string_from_chars};
use crate::wire::encoding::{base64_encode, base64_standard};
use crate::wire::responses::{obj, push_view, s};
use crate::wire::responses_request::{opt_view, set_member};

verus! {

/// A part as Gemini takes it.
pub open spec fn gemini_part(p: PartView) -> JsonView {
    match p {
        PartView::Text(t) => obj(seq![("text"@, s(t))]),
        PartView::Reasoning(t) => obj(seq![("text"@, s(t))]),
        PartView::FunctionCall(fc) => obj(seq![(
            "functionCall"@,
            obj(seq![("name"@, s(fc.name)), ("args"@, fc.arguments)]),
        )]),
        PartView::FunctionResponse(fr) => obj(seq![(
            "functionResponse"@,
            obj(seq![
                ("name"@, s(fr.name)),
                ("response"@, if fr.result is Object { fr.result } else { obj(seq![("content"@, fr.result)]) }),
            ]),
        )]),
        PartView::File(FileView::Url { url, mimetype }) => obj(seq![(
            "file_data"@,
            obj(seq![("file_uri"@, s(url))] + match mimetype {
                Some(m) => seq![("mime_type"@, s(m))],
                None => Seq::empty(),
            }),
        )]),
        PartView::File(FileView::Bytes { mime, bytes }) => obj(seq![(
            "inline_data"@,
            obj(seq![("mime_type"@, s(mime)), ("data"@, s(base64_standard(bytes)))]),
        )]),
        PartView::Structured(_) => obj(seq![("text"@, s(Seq::empty()))]),
    }
}

/// The role name Gemini uses for a message.
pub open spec fn gemini_role(r: RoleEnum) -> Seq<char> {
    match r {
        RoleEnum::Model => "model"@,
        _ => "user"@,
    }
}

/// The parts of `ps` that are (or are not) function responses, in Gemini's form.
pub open spec fn gemini_parts_where(ps: Seq<PartView>, responses: bool) -> Seq<JsonView>
    decreases ps.len(),
{
    if ps.len() == 0 {
        Seq::empty()
    } else if (ps.last() is FunctionResponse) == responses {
        gemini_parts_where(ps.drop_last(), responses).push(gemini_part(ps.last()))
    } else {
        gemini_parts_where(ps.drop_last(), responses)
    }
}

pub open spec fn all_gemini_parts(ps: Seq<PartView>) -> Seq<JsonView> {
    ps.map_values(|p: PartView| gemini_part(p))
}

/// The parts of all system messages, in Gemini's form.
pub open spec fn system_parts(cs: Seq<ContentView>) -> Seq<JsonView>
    decreases cs.len(),
{
    if cs.len() == 0 {
        Seq::empty()
    } else if cs.last().role == RoleEnum::System {
        system_parts(cs.drop_last()) + all_gemini_parts(cs.last().parts)
    } else {
        system_parts(cs.drop_last())
    }
}

/// The `system_instruction` of a request, when there are system parts.
pub open spec fn system_instruction(cs: Seq<ContentView>) -> Option<JsonView> {
    if system_parts(cs).len() == 0 {
        None
    } else {
        Some(obj(seq![("parts"@, JsonView::Array(system_parts(cs)))]))
    }
}

/// The entries of one non-system message: its other parts under its role,
/// then its function responses under the role `function`.
pub open spec fn content_entries(c: ContentView) -> Seq<JsonView> {
    let others = gemini_parts_where(c.parts, false);
    let responses = gemini_parts_where(c.parts, true);
    (if others.len() > 0 {
        seq![obj(seq![("role"@, s(gemini_role(c.role))), ("parts"@, JsonView::Array(others))])]
    } else {
        Seq::empty()
    }) + (if responses.len() > 0 {
        seq![obj(seq![("role"@, s("function"@)), ("parts"@, JsonView::Array(responses))])]
    } else {
        Seq::empty()
    })
}

/// The entries of all non-system messages, in order.
pub open spec fn gemini_contents(cs: Seq<ContentView>) -> Seq<JsonView>
    decreases cs.len(),
{
    if cs.len() == 0 {
        Seq::empty()
    } else if cs.last().role == RoleEnum::System {
        gemini_contents(cs.drop_last())
    } else {
        gemini_contents(cs.drop_last()) + content_entries(cs.last())
    }
}

fn kv(k: &str, v: Json) -> (p: (String, Json))
    ensures
        p.0@ == k@,
        p.1 == v,
{
    (k.to_owned(), v)
}

/// Converts a part into the JSON shape the Gemini API expects.
pub fn part_to_gemini(part: &PartEnum) -> (j: Json)
    ensures
        j@ == gemini_part(part@),
{
    match part {
        PartEnum::Text(t) | PartEnum::Reasoning(t) => {
            let j = Json::object(vec![kv("text", Json::string(t.text.clone()))]);
            assert(j@->Object_0 =~= gemini_part(part@)->Object_0);
            j
        },
        PartEnum::FunctionCall(fc) => {
            let inner = Json::object(vec![kv("name", Json::string(fc.name.clone())), kv("args", fc.arguments.clone())]);
            let ghost iv = inner@;
            let j = Json::object(vec![kv("functionCall", inner)]);
            assert(iv->Object_0 =~= gemini_part(part@)->Object_0[0].1->Object_0);
            assert(j@->Object_0 =~= gemini_part(part@)->Object_0);
            j
        },
        PartEnum::FunctionResponse(fr) => {
            let response = if fr.result.is_object() {
                fr.result.clone()
            } else {
                let r = Json::object(vec![kv("content", fr.result.clone())]);
                assert(r@->Object_0 =~= seq![("content"@, fr.result@)]);
                r
            };
            let inner = Json::object(vec![kv("name", Json::string(fr.name.clone())), kv("response", response)]);
            let ghost iv = inner@;
            let j = Json::object(vec![kv("functionResponse", inner)]);
            assert(iv->Object_0 =~= gemini_part(part@)->Object_0[0].1->Object_0);
            assert(j@->Object_0 =~= gemini_part(part@)->Object_0);
            j
        },
        PartEnum::File(File::Url(u)) => {
            let mut data: Vec<(String, Json)> = vec![kv("file_uri", Json::string(u.url.clone()))];
            match &u.mimetype {
                Some(m) => {
                    data.push(kv("mime_type", Json::string(m.0.clone())));
                },
                None => {},
            }
            let inner = Json::object(data);
            let ghost iv = inner@;
            let j = Json::object(vec![kv("file_data", inner)]);
            assert(iv->Object_0 =~= gemini_part(part@)->Object_0[0].1->Object_0);
            assert(j@->Object_0 =~= gemini_part(part@)->Object_0);
            j
        },
        PartEnum::File(File::Bytes(raw)) => {
            let data = base64_encode(raw.bytes.as_slice());
            let inner = Json::object(vec![kv("mime_type", Json::string(raw.mimetype.0.clone())), kv("data", Json::string(data))]);
            let ghost iv = inner@;
            let j = Json::object(vec![kv("inline_data", inner)]);
            assert(iv->Object_0 =~= gemini_part(part@)->Object_0[0].1->Object_0);
            assert(j@->Object_0 =~= gemini_part(part@)->Object_0);
            j
        },
        PartEnum::Structured(_) => {
            let j = Json::object(vec![kv("text", Json::string(String::new()))]);
            assert(j@->Object_0 =~= gemini_part(part@)->Object_0);
            j
        },
    }
}

/// A message with the given parts in Gemini's form: `{"role", "parts"}`.
pub fn content_to_gemini_with_parts(content: &Content, parts: Vec<Json>) -> (j: Json)
    ensures
        j@ == obj(seq![("role"@, s(gemini_role(content.role))), ("parts"@, JsonView::Array(items_view(parts@)))]),
{
    let role = match content.role {
        RoleEnum::User => "user",
        RoleEnum::Model => "model",
        RoleEnum::System => "user",
    };
    let j = Json::object(vec![kv("role", Json::from_str(role)), kv("parts", Json::array(parts))]);
    assert(j@->Object_0 =~= seq![("role"@, s(gemini_role(content.role))), ("parts"@, JsonView::Array(items_view(parts@)))]);
    j
}

/// The system instruction of a request: the parts of all system messages.
pub fn build_system_instruction(messages: &Messages) -> (r: Option<Json>)
    ensures
        match system_instruction(messages@) {
            Some(v) => r matches Some(j) && j@ == v,
            None => r is None,
        },
{
    let ghost cv = messages@;
    let mut sys: Vec<Json> = Vec::new();
    let n = messages.0.len();
    let mut k: usize = 0;
    while k < n
        invariant
            k <= n,
            n == messages.0@.len(),
            cv == messages@,
            items_view(sys@) == system_parts(cv.take(k as int)),
        decreases n - k,
    {
        proof {
            assert(cv.take(k + 1).drop_last() =~= cv.take(k as int));
        }
        let content = &messages.0[k];
        if content.role == RoleEnum::System {
            let ps = &content.parts.0;
            let ghost pv = cv[k as int].parts;
            let ghost before = items_view(sys@);
            assert(pv =~= crate::messages::parts::parts_view(ps@));
            let mut i: usize = 0;
            while i < ps.len()
                invariant
                    i <= ps@.len(),
                    pv == crate::messages::parts::parts_view(ps@),
                    items_view(sys@) == before + all_gemini_parts(pv.take(i as int)),
                decreases ps@.len() - i,
            {
                push_view(&mut sys, part_to_gemini(&ps[i]));
                proof {
                    assert(all_gemini_parts(pv.take(i + 1)) =~= all_gemini_parts(pv.take(i as int)).push(gemini_part(pv[i as int])));
                }
                i = i + 1;
            }
            assert(pv.take(ps@.len() as int) =~= pv);
        }
        k = k + 1;
    }
    assert(cv.take(n as int) =~= cv);
    if sys.len() == 0 {
        None
    } else {
        let j = Json::object(vec![kv("parts", Json::array(sys))]);
        assert(j@->Object_0 =~= system_instruction(messages@)->Some_0->Object_0);
        Some(j)
    }
}

/// The Gemini entries of one message.
fn content_entries_of(content: &Content, out: &mut Vec<Json>)
    ensures
        items_view(final(out)@) == items_view(old(out)@) + content_entries(content@),
{
    let ps = &content.parts.0;
    let ghost pv = content@.parts;
    assert(pv =~= crate::messages::parts::parts_view(ps@));
    let mut others: Vec<Json> = Vec::new();
    let mut responses: Vec<Json> = Vec::new();
    let mut i: usize = 0;
    while i < ps.len()
        invariant
            i <= ps@.len(),
            pv == crate::messages::parts::parts_view(ps@),
            items_view(others@) == gemini_parts_where(pv.take(i as int), false),
            items_view(responses@) == gemini_parts_where(pv.take(i as int), true),
        decreases ps@.len() - i,
    {
        proof {
            assert(pv.take(i + 1).drop_last() =~= pv.take(i as int));
        }
        let j = part_to_gemini(&ps[i]);
        match &ps[i] {
            PartEnum::FunctionResponse(_) => push_view(&mut responses, j),
            _ => push_view(&mut others, j),
        }
        i = i + 1;
    }
    assert(pv.take(ps@.len() as int) =~= pv);
    let ghost start = items_view(out@);
    if others.len() > 0 {
        push_view(out, content_to_gemini_with_parts(content, others));
    }
    let ghost mid = items_view(out@);
    if responses.len() > 0 {
        let j = Json::object(vec![kv("role", Json::from_str("function")), kv("parts", Json::array(responses))]);
        assert(j@->Object_0 =~= seq![("role"@, s("function"@)), ("parts"@, JsonView::Array(gemini_parts_where(pv, true)))]);
        push_view(out, j);
    }
    assert(items_view(out@) =~= start + content_entries(content@));
}

/// The contents of a request: the non-system messages in Gemini's form, or
/// nothing when there are none.
pub fn build_contents(messages: &Messages) -> (r: Option<Json>)
    ensures
        gemini_contents(messages@).len() == 0 ==> r is None,
        gemini_contents(messages@).len() > 0 ==> (r matches Some(j) && j@ == JsonView::Array(gemini_contents(messages@))),
{
    let ghost cv = messages@;
    let mut contents: Vec<Json> = Vec::new();
    let n = messages.0.len();
    let mut k: usize = 0;
    while k < n
        invariant
            k <= n,
            n == messages.0@.len(),
            cv == messages@,
            items_view(contents@) == gemini_contents(cv.take(k as int)),
        decreases n - k,
    {
        proof {
            assert(cv.take(k + 1).drop_last() =~= cv.take(k as int));
        }
        let content = &messages.0[k];
        if content.role != RoleEnum::System {
            content_entries_of(content, &mut contents);
        }
        k = k + 1;
    }
    assert(cv.take(n as int) =~= cv);
    if contents.len() == 0 {
        None
    } else {
        Some(Json::array(contents))
    }
}

/// The native tools' declarations, in order.
pub open spec fn native_decls(ts: Seq<NativeToolView>) -> Seq<JsonView> {
    ts.map_values(|t: NativeToolView| t.declaration())
}

/// The native tools' configuration entries, each set in turn.
pub open spec fn native_config(ts: Seq<NativeToolView>) -> Seq<(Seq<char>, JsonView)>
    decreases ts.len(),
{
    if ts.len() == 0 {
        Seq::empty()
    } else {
        match ts.last().config() {
            Some((k, v)) => set_member(native_config(ts.drop_last()), k, v),
            None => native_config(ts.drop_last()),
        }
    }
}

/// The `tools` list: the function declarations, then the native tools.
pub open spec fn tools_list(custom: Option<JsonView>, ts: Seq<NativeToolView>) -> Seq<JsonView> {
    (match custom {
        Some(d) => seq![obj(seq![("functionDeclarations"@, d)])],
        None => Seq::empty(),
    }) + native_decls(ts)
}

/// The members of the `toolConfig` object.
pub open spec fn tool_config_members(ts: Seq<NativeToolView>, fc: Option<FunctionCallingConfig>) -> Seq<(Seq<char>, JsonView)> {
    let m = native_config(ts);
    match fc {
        Some(c) => if c.members().len() > 0 {
            set_member(m, "functionCallingConfig"@, obj(c.members()))
        } else {
            m
        },
        None => m,
    }
}

pub open spec fn tools_view(ts: Seq<GeminiNativeTool>) -> Seq<NativeToolView> {
    ts.map_values(|t: GeminiNativeTool| t@)
}

/// Sets `key` to `value` in an object's members.
pub fn set_field(fields: &mut Vec<(String, Json)>, key: String, value: Json)
    ensures
        fields_view(final(fields)@) == set_member(fields_view(old(fields)@), key@, value@),
{
    let ghost fv = fields_view(fields@);
    let n = fields.len();
    let mut i: usize = 0;
    while i < n
        invariant
            i <= n,
            n == fields@.len(),
            fv == fields_view(fields@),
            fields@ == old(fields)@,
            forall|k: int| 0 <= k < i ==> fv[k].0 != key@,
        decreases n - i,
    {
        if crate::messages::file::str_eq(fields[i].0.as_str(), key.as_str()) {
            proof {
                lemma_set_member_replace(fv, i as int, key@, value@);
            }
            fields.set(i, (key, value));
            assert(fields_view(fields@) =~= fv.update(i as int, (key@, value@)));
            return;
        }
        i = i + 1;
    }
    proof {
        lemma_set_member_append(fv, key@, value@);
    }
    fields.push((key, value));
    assert(fields_view(fields@) =~= fv.push((key@, value@)));
}

proof fn lemma_set_member_replace(fields: Seq<(Seq<char>, JsonView)>, i: int, key: Seq<char>, v: JsonView)
    requires
        0 <= i < fields.len(),
        fields[i].0 == key,
        forall|k: int| 0 <= k < i ==> fields[k].0 != key,
    ensures
        set_member(fields, key, v) == fields.update(i, (key, v)),
    decreases i,
{
    if i > 0 {
        let d = fields.drop_first();
        assert forall|k: int| 0 <= k < i - 1 implies d[k].0 != key by {
            assert(fields[k + 1].0 != key);
        }
        lemma_set_member_replace(d, i - 1, key, v);
        assert(seq![fields[0]] + d.update(i - 1, (key, v)) =~= fields.update(i, (key, v)));
    }
}

proof fn lemma_set_member_append(fields: Seq<(Seq<char>, JsonView)>, key: Seq<char>, v: JsonView)
    requires
        forall|k: int| 0 <= k < fields.len() ==> fields[k].0 != key,
    ensures
        set_member(fields, key, v) == fields.push((key, v)),
    decreases fields.len(),
{
    if fields.len() > 0 {
        let d = fields.drop_first();
        assert forall|k: int| 0 <= k < d.len() implies d[k].0 != key by {
            assert(fields[k + 1].0 != key);
        }
        lemma_set_member_append(d, key, v);
        assert(seq![fields[0]] + d.push((key, v)) =~= fields.push((key, v)));
    } else {
        assert(seq![(key, v)] =~= fields.push((key, v)));
    }
}

fn function_config_members(fc: &FunctionCallingConfig) -> (r: Vec<(String, Json)>)
    ensures
        fields_view(r@) == fc.members(),
{
    let mut m: Vec<(String, Json)> = Vec::new();
    match &fc.mode {
        Some(mode) => {
            m.push(kv("mode", Json::string(mode.clone())));
        },
        None => {},
    }
    match &fc.allowed_function_names {
        Some(names) => {
            let mut items: Vec<Json> = Vec::new();
            let mut i: usize = 0;
            while i < names.len()
                invariant
                    i <= names@.len(),
                    items_view(items@) =~= strings_view(names@).take(i as int),
                decreases names@.len() - i,
            {
                push_view(&mut items, Json::string(names[i].clone()));
                i = i + 1;
            }
            assert(strings_view(names@).take(names@.len() as int) =~= strings_view(names@));
            m.push(kv("allowedFunctionNames", Json::array(items)));
        },
        None => {},
    }
    assert(fields_view(m@) =~= fc.members());
    m
}

/// The `tools` list and `toolConfig` object of a request, each left out when
/// empty. `custom_tools` are the function declarations of the chat's tools.
pub fn build_tools_and_config(
    custom_tools: Option<Json>,
    native_tools: &Vec<GeminiNativeTool>,
    function_config: Option<&FunctionCallingConfig>,
) -> (r: (Option<Json>, Option<Json>))
    ensures
        ({
            let list = tools_list(opt_view(custom_tools), tools_view(native_tools@));
            &&& list.len() == 0 ==> r.0 is None
            &&& list.len() > 0 ==> (r.0 matches Some(j) && j@ == JsonView::Array(list))
        }),
        ({
            let members = tool_config_members(
                tools_view(native_tools@),
                match function_config {
                    Some(c) => Some(*c),
                    None => None,
                },
            );
            &&& members.len() == 0 ==> r.1 is None
            &&& members.len() > 0 ==> (r.1 matches Some(j) && j@ == JsonView::Object(members))
        }),
{
    let ghost tv = tools_view(native_tools@);
    let mut tools: Vec<Json> = Vec::new();
    let mut config: Vec<(String, Json)> = Vec::new();
    let ghost custom_view = opt_view(custom_tools);
    match custom_tools {
        Some(d) => {
            let j = Json::object(vec![kv("functionDeclarations", d)]);
            assert(j@->Object_0 =~= seq![("functionDeclarations"@, d@)]);
            push_view(&mut tools, j);
        },
        None => {},
    }
    let ghost head = items_view(tools@);
    assert(head =~= tools_list(custom_view, Seq::empty()));
    let mut i: usize = 0;
    while i < native_tools.len()
        invariant
            i <= native_tools@.len(),
            tv == tools_view(native_tools@),
            items_view(tools@) == head + native_decls(tv.take(i as int)),
            fields_view(config@) == native_config(tv.take(i as int)),
        decreases native_tools@.len() - i,
    {
        let tool = &native_tools[i];
        proof {
            assert(tv.take(i + 1).drop_last() =~= tv.take(i as int));
            assert(native_decls(tv.take(i + 1)) =~= native_decls(tv.take(i as int)).push(tool@.declaration()));
        }
        push_view(&mut tools, tool.to_tool_declaration());
        match tool.to_tool_config() {
            Some((k, v)) => {
                set_field(&mut config, k, v);
            },
            None => {},
        }
        i = i + 1;
    }
    assert(tv.take(native_tools@.len() as int) =~= tv);
    assert(items_view(tools@) =~= tools_list(custom_view, tv));
    match function_config {
        Some(fc) => {
            let m = function_config_members(fc);
            if m.len() > 0 {
                set_field(&mut config, "functionCallingConfig".to_owned(), Json::object(m));
            }
        },
        None => {},
    }
    let final_tools = if tools.len() == 0 {
        None
    } else {
        Some(Json::array(tools))
    };
    let final_config = if config.len() == 0 {
        None
    } else {
        Some(Json::object(config))
    };
    (final_tools, final_config)
}

/// Object keys that Gemini rejects in a response schema.
pub open spec fn banned_schema_key(k: Seq<char>) -> bool {
    k == "$schema"@ || k == "title"@ || k == "$id"@ || k == "additionalProperties"@ || k == "definitions"@
}

/// A schema with the keys Gemini rejects removed, at every depth.
pub open spec fn sanitize(v: JsonView) -> JsonView
    decreases v,
{
    match v {
        JsonView::Object(fields) => JsonView::Object(sanitize_fields(fields)),
        JsonView::Array(items) => JsonView::Array(sanitize_items(items)),
        _ => v,
    }
}

pub open spec fn sanitize_fields(fields: Seq<(Seq<char>, JsonView)>) -> Seq<(Seq<char>, JsonView)>
    decreases fields,
{
    if fields.len() == 0 {
        Seq::empty()
    } else {
        proof {
            assert(decreases_to!(fields => fields.subrange(0, fields.len() - 1)));
            assert(decreases_to!(fields => fields[fields.len() - 1]));
        }
        let rest = sanitize_fields(fields.subrange(0, fields.len() - 1));
        let (k, x) = fields[fields.len() - 1];
        if banned_schema_key(k) {
            rest
        } else {
            rest.push((k, sanitize(x)))
        }
    }
}

pub open spec fn sanitize_items(items: Seq<JsonView>) -> Seq<JsonView>
    decreases items,
{
    if items.len() == 0 {
        Seq::empty()
    } else {
        proof {
            assert(decreases_to!(items => items.subrange(0, items.len() - 1)));
        }
        sanitize_items(items.subrange(0, items.len() - 1)).push(sanitize(items[items.len() - 1]))
    }
}

fn is_banned_key(k: &str) -> (b: bool)
    ensures
        b == banned_schema_key(k@),
{
    crate::messages::file::str_eq(k, "$schema") || crate::messages::file::str_eq(k, "title")
        || crate::messages::file::str_eq(k, "$id") || crate::messages::file::str_eq(k, "additionalProperties")
        || crate::messages::file::str_eq(k, "definitions")
}

/// Removes the keys that Gemini does not accept from a JSON schema, at every
/// depth.
pub fn sanitize_schema_for_gemini(schema: &Json) -> (r: Json)
    ensures
        r@ == sanitize(schema@),
    decreases schema,
{
    match schema {
        Json::Object(fields) => {
            let ghost fv = schema@->Object_0;
            assert(fv =~= fields_view(fields@));
            let mut out: Vec<(String, Json)> = Vec::new();
            let mut i: usize = 0;
            while i < fields.len()
                invariant
                    i <= fields@.len(),
                    *schema == Json::Object(*fields),
                    fv == fields_view(fields@),
                    fields_view(out@) == sanitize_fields(fv.take(i as int)),
                decreases fields@.len() - i,
            {
                proof {
                    assert(fv.take(i + 1).subrange(0, i as int) =~= fv.take(i as int));
                }
                if !is_banned_key(fields[i].0.as_str()) {
                    proof {
                        assert(decreases_to!(*schema => (*schema)->Object_0));
                        assert(decreases_to!(*fields => fields@));
                        assert(decreases_to!(fields@ => fields@[i as int]));
                        assert(decreases_to!(fields@[i as int] => fields@[i as int].1));
                    }
                    let v = sanitize_schema_for_gemini(&fields[i].1);
                    let ghost prev = out@;
                    out.push((fields[i].0.clone(), v));
                    assert(fields_view(out@) =~= fields_view(prev).push((fv[i as int].0, sanitize(fv[i as int].1))));
                }
                i = i + 1;
            }
            assert(fv.take(fields@.len() as int) =~= fv);
            Json::object(out)
        },
        Json::Array(items) => {
            let ghost iv = schema@->Array_0;
            assert(iv =~= items_view(items@));
            let mut out: Vec<Json> = Vec::new();
            let mut i: usize = 0;
            while i < items.len()
                invariant
                    i <= items@.len(),
                    *schema == Json::Array(*items),
                    iv == items_view(items@),
                    items_view(out@) == sanitize_items(iv.take(i as int)),
                decreases items@.len() - i,
            {
                proof {
                    assert(iv.take(i + 1).subrange(0, i as int) =~= iv.take(i as int));
                    assert(decreases_to!(*schema => (*schema)->Array_0));
                    assert(decreases_to!(*items => items@));
                    assert(decreases_to!(items@ => items@[i as int]));
                }
                let v = sanitize_schema_for_gemini(&items[i]);
                push_view(&mut out, v);
                i = i + 1;
            }
            assert(iv.take(items@.len() as int) =~= iv);
            Json::array(out)
        },
        _ => schema.clone(),
    }
}


/// The model name up to its first `:`.
pub open spec fn before_colon(name: Seq<char>) -> Seq<char>
    decreases name.len(),
{
    if name.len() == 0 {
        name
    } else if name[0] == ':' {
        Seq::empty()
    } else {
        seq![name[0]] + before_colon(name.drop_first())
    }
}

proof fn lemma_before_colon(name: Seq<char>, i: int)
    requires
        0 <= i <= name.len(),
        forall|j: int| 0 <= j < i ==> name[j] != ':',
        i == name.len() || name[i] == ':',
    ensures
        before_colon(name) == name.take(i),
    decreases i,
{
    if i == 0 {
        assert(name.take(0) =~= Seq::<char>::empty());
        if name.len() == 0 {
            assert(name =~= Seq::<char>::empty());
        }
    } else {
        let d = name.drop_first();
        assert forall|j: int| 0 <= j < i - 1 implies d[j] != ':' by {
            assert(name[j + 1] != ':');
        }
        lemma_before_colon(d, i - 1);
        assert(seq![name[0]] + d.take(i - 1) =~= name.take(i));
    }
}

/// The model an embedding request names: `models/` and the model name up to
/// its first `:`.
pub open spec fn model_path(name: Seq<char>) -> Seq<char> {
    "models/"@ + before_colon(name)
}

fn model_path_of(name: &str) -> (r: String)
    ensures
        r@ == model_path(name@),
{
    let cs = chars_of(name);
    let mut i: usize = 0;
    while i < cs.len() && cs[i] != ':'
        invariant
            i <= cs@.len(),
            cs@ == name@,
            forall|j: int| 0 <= j < i ==> cs@[j] != ':',
        decreases cs@.len() - i,
    {
        i = i + 1;
    }
    proof {
        lemma_before_colon(name@, i as int);
    }
    let mut out: Vec<char> = Vec::new();
    push_str(&mut out, "models/");
    let mut k: usize = 0;
    while k < i
        invariant
            k <= i <= cs@.len(),
            out@ == "models/"@ + cs@.take(k as int),
        decreases i - k,
    {
        out.push(cs[k]);
        proof {
            assert(cs@.take(k + 1) =~= cs@.take(k as int).push(cs@[k as int]));
        }
        k = k + 1;
    }
    string_from_chars(&out)
}

/// Parts an embedding request can carry: text and reasoning.
pub open spec fn text_like(p: PartView) -> bool {
    p is Text || p is Reasoning
}

/// Why an embedding request for these messages cannot be made, if it cannot.
pub open spec fn embed_error(cs: Seq<ContentView>) -> Option<ChatErrorView> {
    if cs.len() == 0 {
        Some(ChatErrorView::Provider("Sent empty content to embed, expected Text parts"@))
    } else if exists|i: int| 0 <= i < cs.last().parts.len() && !text_like(#[trigger] cs.last().parts[i]) {
        Some(ChatErrorView::InvalidResponse("Embedding requests require text-like parts only"@))
    } else if cs.last().parts.len() == 0 {
        Some(ChatErrorView::InvalidResponse("Sent empty content to embed, expected Text parts"@))
    } else {
        None
    }
}

/// The `taskType` member of an embedding request, for the tasks that set one.
pub open spec fn task_members(t: EmbeddingsTask) -> Seq<(Seq<char>, JsonView)> {
    match t {
        EmbeddingsTask::SemanticSimilarity => seq![("taskType"@, s("SEMANTIC_SIMILARITY"@))],
        EmbeddingsTask::Clustering => seq![("taskType"@, s("CLUSTERING"@))],
        _ => Seq::empty(),
    }
}

/// The body of an embedding request for the parts `ps`.
pub open spec fn embed_body(model: Seq<char>, ps: Seq<PartView>, config: EmbeddingsConfig) -> JsonView {
    obj(
        seq![
            ("model"@, s(model_path(model))),
            ("content"@, obj(seq![("parts"@, JsonView::Array(all_gemini_parts(ps)))])),
        ] + task_members(config.task) + match config.dimensions {
            Some(d) => seq![("output_dimensionality"@, JsonView::UInt(d as u64))],
            None => Seq::empty(),
        },
    )
}

/// The body of a content generation request.
pub open spec fn generate_body(
    cs: Seq<ContentView>,
    custom: Option<JsonView>,
    schema: Option<JsonView>,
    tools: Seq<NativeToolView>,
    fc: Option<FunctionCallingConfig>,
) -> JsonView {
    let list = tools_list(custom, tools);
    let config = tool_config_members(tools, fc);
    obj(
        (match schema {
            Some(sc) => seq![(
                "generationConfig"@,
                obj(seq![("responseMimeType"@, s("application/json"@)), ("responseSchema"@, sanitize(sc))]),
            )],
            None => Seq::empty(),
        }) + (match system_instruction(cs) {
            Some(v) => seq![("system_instruction"@, v)],
            None => Seq::empty(),
        }) + (if gemini_contents(cs).len() > 0 {
            seq![("contents"@, JsonView::Array(gemini_contents(cs)))]
        } else {
            Seq::empty()
        }) + (if list.len() > 0 {
            seq![("tools"@, JsonView::Array(list))]
        } else {
            Seq::empty()
        }) + (if config.len() > 0 {
            seq![("toolConfig"@, JsonView::Object(config))]
        } else {
            Seq::empty()
        }),
    )
}

pub open spec fn opt_config(o: Option<&FunctionCallingConfig>) -> Option<FunctionCallingConfig> {
    match o {
        Some(c) => Some(*c),
        None => None,
    }
}

/// The body of a Gemini request: an embedding request when an embeddings
/// configuration is given, else a content generation request.
pub open spec fn request_body(
    cs: Seq<ContentView>,
    model: Seq<char>,
    custom: Option<JsonView>,
    schema: Option<JsonView>,
    tools: Seq<NativeToolView>,
    fc: Option<FunctionCallingConfig>,
    embeddings: Option<EmbeddingsConfig>,
) -> Result<JsonView, ChatErrorView> {
    match embeddings {
        Some(c) => match embed_error(cs) {
            Some(e) => Err(e),
            None => Ok(embed_body(model, cs.last().parts, c)),
        },
        None => Ok(generate_body(cs, custom, schema, tools, fc)),
    }
}

fn embed_request_body(messages: &Messages, model_name: &str, config: &EmbeddingsConfig) -> (r: Result<Json, ChatError>)
    ensures
        match embed_error(messages@) {
            Some(e) => r matches Err(x) && x@ == e,
            None => r matches Ok(j) && j@ == embed_body(model_name@, messages@.last().parts, *config),
        },
{
    let model = model_path_of(model_name);
    let content = match messages.last() {
        Some(c) => c,
        None => {
            return Err(ChatError::Provider("Sent empty content to embed, expected Text parts".to_owned()));
        },
    };
    let ps = &content.parts.0;
    let ghost pv = content@.parts;
    assert(pv =~= crate::messages::parts::parts_view(ps@));
    let mut parts: Vec<Json> = Vec::new();
    let mut i: usize = 0;
    while i < ps.len()
        invariant
            i <= ps@.len(),
            pv == crate::messages::parts::parts_view(ps@),
            messages@.len() > 0,
            pv == messages@.last().parts,
            forall|j: int| 0 <= j < i ==> text_like(#[trigger] pv[j]),
            items_view(parts@) == all_gemini_parts(pv.take(i as int)),
        decreases ps@.len() - i,
    {
        match &ps[i] {
            PartEnum::Text(_) | PartEnum::Reasoning(_) => {
                push_view(&mut parts, part_to_gemini(&ps[i]));
                proof {
                    assert(all_gemini_parts(pv.take(i + 1)) =~= all_gemini_parts(pv.take(i as int)).push(gemini_part(pv[i as int])));
                }
            },
            _ => {
                assert(!text_like(messages@.last().parts[i as int]));
                return Err(ChatError::InvalidResponse("Embedding requests require text-like parts only".to_owned()));
            },
        }
        i = i + 1;
    }
    assert(pv.take(ps@.len() as int) =~= pv);
    if parts.len() == 0 {
        return Err(ChatError::InvalidResponse("Sent empty content to embed, expected Text parts".to_owned()));
    }
    let ghost pj = items_view(parts@);
    let mut fields: Vec<(String, Json)> = Vec::new();
    fields.push(kv("model", Json::string(model)));
    let inner = Json::object(vec![kv("parts", Json::array(parts))]);
    assert(inner@ == obj(seq![("parts"@, JsonView::Array(pj))])) by {
        assert(inner@->Object_0 =~= seq![("parts"@, JsonView::Array(pj))]);
    }
    fields.push(kv("content", inner));
    let ghost head = fields_view(fields@);
    match config.task {
        EmbeddingsTask::SemanticSimilarity => {
            fields.push(kv("taskType", Json::from_str("SEMANTIC_SIMILARITY")));
        },
        EmbeddingsTask::Clustering => {
            fields.push(kv("taskType", Json::from_str("CLUSTERING")));
        },
        _ => {},
    }
    assert(fields_view(fields@) =~= head + task_members(config.task));
    let ghost mid = fields_view(fields@);
    match config.dimensions {
        Some(d) => {
            fields.push(kv("output_dimensionality", Json::UInt(d as u64)));
        },
        None => {},
    }
    let j = Json::object(fields);
    assert(j@->Object_0 =~= embed_body(model_name@, pv, *config)->Object_0);
    Ok(j)
}

/// Assembles the body of a Gemini request.
///
/// With an embeddings configuration the body asks for an embedding of the
/// last message, whose parts must all be text; otherwise it carries the
/// response schema (cleaned of keys Gemini rejects), the system instruction,
/// the other messages, the tools and their configuration, each left out
/// when there is nothing to send. `custom_tools` are the function
/// declarations of the chat's tools, `structured_output` the response
/// schema.
pub fn build_request_body(
    messages: &Messages,
    model_name: &str,
    custom_tools: Option<Json>,
    structured_output: Option<&Json>,
    native_tools: &Vec<GeminiNativeTool>,
    function_config: Option<&FunctionCallingConfig>,
    embeddings_config: Option<&EmbeddingsConfig>,
) -> (r: Result<Json, ChatError>)
    ensures
        match request_body(
            messages@,
            model_name@,
            opt_view(custom_tools),
            match structured_output {
                Some(j) => Some(j@),
                None => None,
            },
            tools_view(native_tools@),
            opt_config(function_config),
            match embeddings_config {
                Some(c) => Some(*c),
                None => None,
            },
        ) {
            Ok(v) => r matches Ok(j) && j@ == v,
            Err(e) => r matches Err(x) && x@ == e,
        },
{
    match embeddings_config {
        Some(config) => {
            return embed_request_body(messages, model_name, config);
        },
        None => {},
    }
    let ghost cv = messages@;
    let ghost custom = opt_view(custom_tools);
    let mut fields: Vec<(String, Json)> = Vec::new();
    match structured_output {
        Some(schema) => {
            let clean = sanitize_schema_for_gemini(schema);
            let ghost cl = clean@;
            let g = Json::object(vec![kv("responseMimeType", Json::from_str("application/json")), kv("responseSchema", clean)]);
            assert(g@->Object_0 =~= seq![("responseMimeType"@, s("application/json"@)), ("responseSchema"@, cl)]);
            fields.push(kv("generationConfig", g));
        },
        None => {},
    }
    let ghost f1 = fields_view(fields@);
    let ghost schema_view = match structured_output {
        Some(j) => Some(j@),
        None => None,
    };
    assert(f1 =~= match schema_view {
        Some(sc) => seq![(
            "generationConfig"@,
            obj(seq![("responseMimeType"@, s("application/json"@)), ("responseSchema"@, sanitize(sc))]),
        )],
        None => Seq::<(Seq<char>, JsonView)>::empty(),
    });
    match build_system_instruction(messages) {
        Some(sys) => {
            fields.push(kv("system_instruction", sys));
        },
        None => {},
    }
    let ghost f2 = fields_view(fields@);
    assert(f2 =~= f1 + match system_instruction(cv) {
        Some(v) => seq![("system_instruction"@, v)],
        None => Seq::empty(),
    });
    match build_contents(messages) {
        Some(c) => {
            fields.push(kv("contents", c));
        },
        None => {},
    }
    let ghost f3 = fields_view(fields@);
    assert(f3 =~= f2 + if gemini_contents(cv).len() > 0 {
        seq![("contents"@, JsonView::Array(gemini_contents(cv)))]
    } else {
        Seq::empty()
    });
    let (tools_json, config_json) = build_tools_and_config(custom_tools, native_tools, function_config);
    match tools_json {
        Some(t) => {
            fields.push(kv("tools", t));
        },
        None => {},
    }
    let ghost f4 = fields_view(fields@);
    let ghost list = tools_list(custom, tools_view(native_tools@));
    assert(f4 =~= f3 + if list.len() > 0 {
        seq![("tools"@, JsonView::Array(list))]
    } else {
        Seq::empty()
    });
    match config_json {
        Some(c) => {
            fields.push(kv("toolConfig", c));
        },
        None => {},
    }
    let ghost members = tool_config_members(tools_view(native_tools@), opt_config(function_config));
    assert(fields_view(fields@) =~= f4 + if members.len() > 0 {
        seq![("toolConfig"@, JsonView::Object(members))]
    } else {
        Seq::empty()
    });
    let j = Json::object(fields);
    assert(j@ == generate_body(cv, custom, schema_view, tools_view(native_tools@), opt_config(function_config)));
    Ok(j)
}


/// The warnings that a request combining these features draws, in order:
/// search with function declarations, search with a response schema, and
/// function declarations with a response schema.
pub open spec fn combination_warnings(has_search: bool, has_functions: bool, has_schema: bool) -> Seq<Seq<char>> {
    (if has_search && has_functions {
        seq!["WARNING: Google Search is generally not compatible with Function Declarations in the same request."@]
    } else {
        Seq::empty()
    }) + (if has_search && has_schema {
        seq!["WARNING: Google Search is generally not compatible with Structured Parsers (JSON Schema) in the same request."@]
    } else {
        Seq::empty()
    }) + (if has_functions && has_schema {
        seq!["WARNING: Structured Parsers (JSON Schema) are not valid combined with Function Declarations."@]
    } else {
        Seq::empty()
    })
}

/// Whether one of the native tools is a search tool.
pub open spec fn has_search_tool(tools: Seq<NativeToolView>) -> bool {
    exists|i: int| 0 <= i < tools.len() && (#[trigger] tools[i]) is GoogleSearch
}

/// The warnings for feature combinations that Gemini handles poorly; the
/// caller shows them.
pub fn validate_combinations(
    custom_tools: Option<&Json>,
    structured_output: Option<&Json>,
    native_tools: &Vec<GeminiNativeTool>,
) -> (w: Vec<String>)
    ensures
        w@.map_values(|x: String| x@) == combination_warnings(
            has_search_tool(tools_view(native_tools@)),
            custom_tools is Some,
            structured_output is Some,
        ),
{
    let ghost tv = tools_view(native_tools@);
    let mut has_search = false;
    let mut i: usize = 0;
    while i < native_tools.len()
        invariant
            i <= native_tools@.len(),
            tv == tools_view(native_tools@),
            has_search == exists|j: int| 0 <= j < i && (#[trigger] tv[j]) is GoogleSearch,
        decreases native_tools@.len() - i,
    {
        if native_tools[i].is_search() {
            has_search = true;
        }
        assert(tv[i as int] == native_tools@[i as int]@);
        i = i + 1;
    }
    let has_functions = custom_tools.is_some();
    let has_schema = structured_output.is_some();
    let mut w: Vec<String> = Vec::new();
    if has_search && has_functions {
        w.push("WARNING: Google Search is generally not compatible with Function Declarations in the same request.".to_owned());
    }
    if has_search && has_schema {
        w.push("WARNING: Google Search is generally not compatible with Structured Parsers (JSON Schema) in the same request.".to_owned());
    }
    if has_functions && has_schema {
        w.push("WARNING: Structured Parsers (JSON Schema) are not valid combined with Function Declarations.".to_owned());
    }
    assert(w@.map_values(|x: String| x@) =~= combination_warnings(has_search, has_functions, has_schema));
    w
}

/// The address a Gemini request goes to: the model's `embedContent` method
/// for embeddings, else its `generateContent` method.
pub open spec fn request_url(model: Seq<char>, embeddings: bool) -> Seq<char> {
    "https://generativelanguage.googleapis.com/v1beta/models/"@ + model + if embeddings {
        ":embedContent"@
    } else {
        ":generateContent"@
    }
}

pub fn build_request_url(model_name: &str, embeddings: bool) -> (u: String)
    ensures
        u@ == request_url(model_name@, embeddings),
{
    let mut out: Vec<char> = Vec::new();
    push_str(&mut out, "https://generativelanguage.googleapis.com/v1beta/models/");
    push_str(&mut out, model_name);
    if embeddings {
        push_str(&mut out, ":embedContent");
    } else {
        push_str(&mut out, ":generateContent");
    }
    string_from_chars(&out)
}

} // verus!
