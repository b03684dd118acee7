use vstd::prelude::*;

use crate::json::{items_view, Json, JsonView};
use crate::options::{clone_opt_json, opt_json, ChatOptions};
use crate::messages::content::{ContentView, RoleEnum};
use crate::messages::parts::{texts_of, PartEnum, PartView};
use crate::messages::{contents_view, Messages};
use crate::wire::responses::{content_items, content_to_input_items, contents_items, obj, output_item, push_view, s};

verus! {

/// The reasoning settings sent with a request.
pub struct ReasoningConfig {
    pub effort: String,
    pub summary: String,
}

/// A request to the Responses API. Temperature and top-p are JSON number
/// documents (see `ChatOptions`).
pub struct ResponsesRequest {
    pub model: String,
    pub input: Option<Vec<Json>>,
    pub instructions: Option<String>,
    pub temperature: Option<Json>,
    pub top_p: Option<Json>,
    pub max_output_tokens: Option<u32>,
    pub reasoning: Option<ReasoningConfig>,
    pub tools: Option<Vec<Json>>,
    pub text: Option<Json>,
    pub stream: Option<bool>,
    pub previous_response_id: Option<String>,
    pub store: Option<bool>,
}

/// What a request is built from.
pub struct ResponsesRequestConfig<'a> {
    pub model_name: &'a str,
    pub messages: &'a Messages,
    /// The function declarations of the chat's tools, as a JSON array.
    pub tool_declarations: Option<Json>,
    /// Provider-specific tool declarations, sent as they are.
    pub extra_tool_declarations: &'a Vec<Json>,
    pub reasoning_effort: Option<String>,
    /// The sampling settings of the chat.
    pub options: Option<&'a ChatOptions>,
    /// The JSON schema the answer must follow.
    pub output_schema: Option<Json>,
    pub previous_response_id: Option<String>,
    pub store: Option<bool>,
}

/// The position of the last message from the model, or -1.
pub open spec fn last_model_index(cs: Seq<ContentView>) -> int
    decreases cs.len(),
{
    if cs.len() == 0 {
        -1
    } else if cs.last().role == RoleEnum::Model {
        cs.len() - 1
    } else {
        last_model_index(cs.drop_last())
    }
}

/// The `function_call_output` items of a message's tool answers.
pub open spec fn outputs_of(ps: Seq<PartView>) -> Seq<JsonView>
    decreases ps.len(),
{
    if ps.len() == 0 {
        Seq::empty()
    } else {
        match ps.last() {
            PartView::FunctionResponse(fr) => outputs_of(ps.drop_last()).push(output_item(fr)),
            _ => outputs_of(ps.drop_last()),
        }
    }
}

/// The texts of the system messages, in order.
pub open spec fn system_texts(cs: Seq<ContentView>) -> Seq<Seq<char>>
    decreases cs.len(),
{
    if cs.len() == 0 {
        Seq::empty()
    } else if cs.last().role == RoleEnum::System {
        system_texts(cs.drop_last()) + texts_of(cs.last().parts)
    } else {
        system_texts(cs.drop_last())
    }
}

/// The messages other than system messages, in order.
pub open spec fn non_system(cs: Seq<ContentView>) -> Seq<ContentView>
    decreases cs.len(),
{
    if cs.len() == 0 {
        Seq::empty()
    } else if cs.last().role == RoleEnum::System {
        non_system(cs.drop_last())
    } else {
        non_system(cs.drop_last()).push(cs.last())
    }
}

/// Texts joined by line breaks.
pub open spec fn join_lines(ts: Seq<Seq<char>>) -> Seq<char>
    decreases ts.len(),
{
    if ts.len() == 0 {
        Seq::empty()
    } else if ts.len() == 1 {
        ts[0]
    } else {
        join_lines(ts.drop_last()) + "\n"@ + ts.last()
    }
}

/// The input items of a request. Continuing from an earlier response, only
/// the tool answers in the last model message and the messages after it are
/// sent; otherwise every message but the system ones.
pub open spec fn request_input(cs: Seq<ContentView>, continuing: bool) -> Seq<JsonView> {
    if continuing {
        let b = last_model_index(cs);
        (if b >= 0 { outputs_of(cs[b].parts) } else { Seq::empty() }) + contents_items(cs.subrange(b + 1, cs.len() as int))
    } else {
        contents_items(non_system(cs))
    }
}

/// The instructions of a fresh request: the system texts, one per line.
pub open spec fn request_instructions(cs: Seq<ContentView>, continuing: bool) -> Option<Seq<char>> {
    if continuing || system_texts(cs).len() == 0 {
        None
    } else {
        Some(join_lines(system_texts(cs)))
    }
}

/// The members of an object with `key` set to `v`: the first member of that
/// name takes the value, or the member is added at the end.
pub open spec fn set_member(fields: Seq<(Seq<char>, JsonView)>, key: Seq<char>, v: JsonView) -> Seq<(Seq<char>, JsonView)>
    decreases fields.len(),
{
    if fields.len() == 0 {
        seq![(key, v)]
    } else if fields[0].0 == key {
        fields.update(0, (key, v))
    } else {
        seq![fields[0]] + set_member(fields.drop_first(), key, v)
    }
}

/// A function declaration marked as such: `"type": "function"` is set on it
/// (a `null` becomes an object with only that member).
pub open spec fn as_function_decl(f: JsonView) -> JsonView {
    match f {
        JsonView::Object(fields) => JsonView::Object(set_member(fields, "type"@, s("function"@))),
        _ => obj(seq![("type"@, s("function"@))]),
    }
}

/// A document that a member can be set on.
pub open spec fn settable(f: JsonView) -> bool {
    f is Object || f is Null
}

/// The tools of a request: the function declarations (when they are an
/// array), then the provider-specific declarations; none when both are empty.
pub open spec fn request_tools(decls: Option<JsonView>, extra: Seq<JsonView>) -> Option<Seq<JsonView>> {
    let funcs = match decls {
        Some(JsonView::Array(fs)) => fs.map_values(|f: JsonView| as_function_decl(f)),
        _ => Seq::empty(),
    };
    if funcs.len() + extra.len() == 0 {
        None
    } else {
        Some(funcs + extra)
    }
}

/// The `text` setting asking for output that follows `schema`.
pub open spec fn text_format(schema: JsonView) -> JsonView {
    obj(seq![(
        "format"@,
        obj(seq![
            ("type"@, s("json_schema"@)),
            ("name"@, s("structured_output"@)),
            ("strict"@, JsonView::Bool(false)),
            ("schema"@, schema),
        ]),
    )])
}

pub open spec fn opt_view(o: Option<Json>) -> Option<JsonView> {
    match o {
        Some(j) => Some(j@),
        None => None,
    }
}

pub open spec fn opt_items(o: Option<Vec<Json>>) -> Option<Seq<JsonView>> {
    match o {
        Some(v) => Some(items_view(v@)),
        None => None,
    }
}

/// Function declarations that can each be marked as functions.
pub open spec fn decls_settable(d: Option<JsonView>) -> bool {
    d matches Some(JsonView::Array(fs)) ==> forall|i: int| 0 <= i < fs.len() ==> settable(#[trigger] fs[i])
}

fn set_type_function(f: &Json) -> (r: Json)
    requires
        settable(f@),
    ensures
        r@ == as_function_decl(f@),
{
    match f {
        Json::Object(fields) => {
            let ghost fv = f@->Object_0;
            let mut out: Vec<(String, Json)> = Vec::new();
            let n = fields.len();
            let mut i: usize = 0;
            let mut done = false;
            assert(fv =~= crate::json::fields_view(fields@));
            while i < n
                invariant
                    n == fields@.len(),
                    fv == crate::json::fields_view(fields@),
                    i <= n,
                    !done ==> crate::json::fields_view(out@) =~= fv.take(i as int),
                    !done ==> forall|k: int| 0 <= k < i ==> fv[k].0 != "type"@,
                    done ==> crate::json::fields_view(out@) + fv.skip(i as int) == set_member(fv, "type"@, s("function"@)),
                decreases n - i,
            {
                let key = fields[i].0.clone();
                let value = fields[i].1.clone();
                if !done && crate::messages::file::str_eq(key.as_str(), "type") {
                    proof {
                        lemma_set_member_at(fv, i as int, "type"@, s("function"@));
                    }
                    out.push((key, Json::from_str("function")));
                    proof {
                        assert(crate::json::fields_view(out@) + fv.skip(i + 1) =~= fv.take(i as int) + seq![("type"@, s("function"@))] + fv.skip(i + 1));
                    }
                    done = true;
                } else {
                    out.push((key, value));
                    proof {
                        if done {
                            assert(crate::json::fields_view(out@) + fv.skip(i + 1) =~= crate::json::fields_view(old_out_view(out@)) + fv.skip(i as int));
                        }
                    }
                }
                i = i + 1;
            }
            if !done {
                out.push(("type".to_owned(), Json::from_str("function")));
                proof {
                    lemma_set_member_absent(fv, "type"@, s("function"@));
                    assert(fv.take(n as int) =~= fv);
                }
            } else {
                proof {
                    assert(fv.skip(n as int) =~= Seq::<(Seq<char>, JsonView)>::empty());
                }
            }
            let r = Json::object(out);
            assert(crate::json::fields_view(out@) =~= set_member(fv, "type"@, s("function"@)));
            r
        },
        _ => {
            let r = Json::object(vec![("type".to_owned(), Json::from_str("function"))]);
            assert(r@->Object_0 =~= as_function_decl(f@)->Object_0);
            r
        },
    }
}

pub open spec fn old_out_view(v: Seq<(String, Json)>) -> Seq<(String, Json)> {
    v.drop_last()
}

proof fn lemma_set_member_at(fields: Seq<(Seq<char>, JsonView)>, i: int, key: Seq<char>, v: JsonView)
    requires
        0 <= i < fields.len(),
        fields[i].0 == key,
        forall|k: int| 0 <= k < i ==> fields[k].0 != key,
    ensures
        set_member(fields, key, v) == fields.take(i) + seq![(key, v)] + fields.skip(i + 1),
    decreases i,
{
    if i == 0 {
        assert(fields.update(0, (key, v)) =~= fields.take(0) + seq![(key, v)] + fields.skip(1));
    } else {
        let d = fields.drop_first();
        assert forall|k: int| 0 <= k < i - 1 implies d[k].0 != key by {
            assert(fields[k + 1].0 != key);
        }
        lemma_set_member_at(d, i - 1, key, v);
        assert(seq![fields[0]] + (d.take(i - 1) + seq![(key, v)] + d.skip(i)) =~= fields.take(i) + seq![(key, v)] + fields.skip(i + 1));
    }
}

proof fn lemma_set_member_absent(fields: Seq<(Seq<char>, JsonView)>, key: Seq<char>, v: JsonView)
    requires
        forall|k: int| 0 <= k < fields.len() ==> fields[k].0 != key,
    ensures
        set_member(fields, key, v) == fields.push((key, v)),
    decreases fields.len(),
{
    if fields.len() > 0 {
        let d = fields.drop_first();
        assert forall|k: int| 0 <= k < d.len() implies d[k].0 != key by {
            assert(fields[k + 1].0 != key);
        }
        lemma_set_member_absent(d, key, v);
        assert(seq![fields[0]] + d.push((key, v)) =~= fields.push((key, v)));
    } else {
        assert(seq![(key, v)] =~= fields.push((key, v)));
    }
}

/// The function declarations marked as functions, then the extra ones.
fn build_tools(decls: &Option<Json>, extra: &Vec<Json>) -> (r: Option<Vec<Json>>)
    requires
        decls_settable(opt_view(*decls)),
    ensures
        opt_items(r) == request_tools(opt_view(*decls), items_view(extra@)),
{
    let mut list: Vec<Json> = Vec::new();
    let ghost funcs: Seq<JsonView> = match opt_view(*decls) {
        Some(JsonView::Array(fs)) => fs.map_values(|f: JsonView| as_function_decl(f)),
        _ => Seq::empty(),
    };
    match decls {
        Some(Json::Array(fs)) => {
            let ghost fv = items_view(fs@);
            assert(fv =~= opt_view(*decls)->Some_0->Array_0);
            let mut i: usize = 0;
            while i < fs.len()
                invariant
                    i <= fs@.len(),
                    fv == items_view(fs@),
                    forall|k: int| 0 <= k < fv.len() ==> settable(#[trigger] fv[k]),
                    items_view(list@) =~= fv.take(i as int).map_values(|f: JsonView| as_function_decl(f)),
                decreases fs@.len() - i,
            {
                assert(settable(fv[i as int]));
                let d = set_type_function(&fs[i]);
                list.push(d);
                proof {
                    assert(fv.take(i + 1).map_values(|f: JsonView| as_function_decl(f)) =~= fv.take(i as int).map_values(
                        |f: JsonView| as_function_decl(f),
                    ).push(as_function_decl(fv[i as int])));
                }
                i = i + 1;
            }
            assert(fv.take(fs@.len() as int) =~= fv);
            assert(items_view(list@) =~= funcs);
        },
        _ => {
            assert(items_view(list@) =~= funcs);
        },
    }
    let ghost before = items_view(list@);
    let mut j: usize = 0;
    while j < extra.len()
        invariant
            j <= extra@.len(),
            items_view(list@) =~= before + items_view(extra@).take(j as int),
        decreases extra@.len() - j,
    {
        push_view(&mut list, extra[j].clone());
        proof {
            assert(items_view(extra@).take(j + 1) =~= items_view(extra@).take(j as int).push(extra@[j as int]@));
        }
        j = j + 1;
    }
    assert(items_view(extra@).take(extra@.len() as int) =~= items_view(extra@));
    if list.len() == 0 {
        None
    } else {
        Some(list)
    }
}

fn text_format_of(schema: Json) -> (j: Json)
    ensures
        j@ == text_format(schema@),
{
    let inner = Json::object(vec![
        ("type".to_owned(), Json::from_str("json_schema")),
        ("name".to_owned(), Json::from_str("structured_output")),
        ("strict".to_owned(), Json::Bool(false)),
        ("schema".to_owned(), schema),
    ]);
    let ghost iv = inner@;
    let j = Json::object(vec![("format".to_owned(), inner)]);
    assert(iv->Object_0 =~= text_format(schema@)->Object_0[0].1->Object_0);
    assert(j@->Object_0 =~= text_format(schema@)->Object_0);
    j
}

/// Texts joined by line breaks.
fn join_with_newlines(ts: &Vec<String>) -> (r: String)
    ensures
        r@ == join_lines(ts@.map_values(|t: String| t@)),
{
    let ghost tv = ts@.map_values(|t: String| t@);
    let mut out = String::new();
    let mut i: usize = 0;
    while i < ts.len()
        invariant
            i <= ts@.len(),
            tv == ts@.map_values(|t: String| t@),
            out@ == join_lines(tv.take(i as int)),
        decreases ts@.len() - i,
    {
        proof {
            assert(tv.take(i + 1).drop_last() =~= tv.take(i as int));
        }
        if i == 0 {
            out = ts[0].clone();
        } else {
            out = out.concat("\n").concat(ts[i].as_str());
        }
        i = i + 1;
    }
    assert(tv.take(ts@.len() as int) =~= tv);
    out
}

/// The input items when continuing from an earlier response.
fn continuing_input(cs: &Vec<crate::messages::content::Content>) -> (items: Vec<Json>)
    ensures
        items_view(items@) == request_input(contents_view(cs@), true),
{
    let ghost cv = contents_view(cs@);
    let n = cs.len();
    let mut b: usize = n;
    let mut found = false;
    assert(cv.take(n as int) =~= cv);
    while b > 0
        invariant_except_break
            !found,
        invariant
            b <= n,
            n == cs@.len(),
            cv == contents_view(cs@),
            last_model_index(cv) == last_model_index(cv.take(b as int)),
        ensures
            found ==> b > 0 && last_model_index(cv) == b - 1,
            !found ==> b == 0,
        decreases b,
    {
        proof {
            assert(cv.take(b as int).drop_last() =~= cv.take(b - 1));
        }
        if cs[b - 1].role == RoleEnum::Model {
            found = true;
            assert(cv.take(b as int).last() == cv[b - 1]);
            break;
        }
        b = b - 1;
    }
    let mut items: Vec<Json> = Vec::new();
    let start: usize;
    if found {
        let idx = b - 1;
        assert(last_model_index(cv) == idx as int);
        let ps = &cs[idx].parts.0;
        let ghost pv = cv[idx as int].parts;
        assert(pv =~= crate::messages::parts::parts_view(ps@));
        let mut i: usize = 0;
        while i < ps.len()
            invariant
                i <= ps@.len(),
                pv == crate::messages::parts::parts_view(ps@),
                items_view(items@) == outputs_of(pv.take(i as int)),
            decreases ps@.len() - i,
        {
            proof {
                assert(pv.take(i + 1).drop_last() =~= pv.take(i as int));
            }
            match &ps[i] {
                PartEnum::FunctionResponse(fr) => {
                    let item = crate::wire::responses::output_item_of(fr);
                    items.push(item);
                    assert(items_view(items@) =~= outputs_of(pv.take(i as int)).push(item@));
                },
                _ => {},
            }
            i = i + 1;
        }
        assert(pv.take(ps@.len() as int) =~= pv);
        start = b;
    } else {
        assert(cv.take(0) =~= Seq::<ContentView>::empty());
        assert(last_model_index(cv) == -1);
        assert(items_view(items@) =~= Seq::<JsonView>::empty());
        start = 0;
    }
    let ghost head = items_view(items@);
    let mut k: usize = start;
    while k < n
        invariant
            start <= k <= n,
            n == cs@.len(),
            cv == contents_view(cs@),
            items_view(items@) == head + contents_items(cv.subrange(start as int, k as int)),
        decreases n - k,
    {
        content_to_input_items(&cs[k], &mut items);
        proof {
            assert(cv.subrange(start as int, k + 1).drop_last() =~= cv.subrange(start as int, k as int));
        }
        k = k + 1;
    }
    items
}

/// The input items and instructions of a fresh request.
fn fresh_input(cs: &Vec<crate::messages::content::Content>) -> (r: (Vec<Json>, Vec<String>))
    ensures
        items_view(r.0@) == request_input(contents_view(cs@), false),
        r.1@.map_values(|t: String| t@) == system_texts(contents_view(cs@)),
{
    let ghost cv = contents_view(cs@);
    let mut items: Vec<Json> = Vec::new();
    let mut instructions: Vec<String> = Vec::new();
    let n = cs.len();
    let mut k: usize = 0;
    while k < n
        invariant
            k <= n,
            n == cs@.len(),
            cv == contents_view(cs@),
            items_view(items@) == contents_items(non_system(cv.take(k as int))),
            instructions@.map_values(|t: String| t@) == system_texts(cv.take(k as int)),
        decreases n - k,
    {
        proof {
            assert(cv.take(k + 1).drop_last() =~= cv.take(k as int));
        }
        let content = &cs[k];
        if content.role == RoleEnum::System {
            let ps = &content.parts.0;
            let ghost pv = cv[k as int].parts;
            let ghost before = instructions@.map_values(|t: String| t@);
            assert(pv =~= crate::messages::parts::parts_view(ps@));
            let mut i: usize = 0;
            while i < ps.len()
                invariant
                    i <= ps@.len(),
                    pv == crate::messages::parts::parts_view(ps@),
                    instructions@.map_values(|t: String| t@) == before + texts_of(pv.take(i as int)),
                decreases ps@.len() - i,
            {
                proof {
                    assert(pv.take(i + 1).drop_last() =~= pv.take(i as int));
                }
                match &ps[i] {
                    PartEnum::Text(t) => {
                        let ghost prev = instructions@;
                        instructions.push(t.text.clone());
                        assert(instructions@.map_values(|t: String| t@) =~= prev.map_values(|t: String| t@).push(t@));
                        assert(instructions@.map_values(|t: String| t@) =~= before + texts_of(pv.take(i as int)).push(
                            t@,
                        ));
                    },
                    _ => {},
                }
                i = i + 1;
            }
            assert(pv.take(ps@.len() as int) =~= pv);
            assert(non_system(cv.take(k + 1)) == non_system(cv.take(k as int)));
        } else {
            content_to_input_items(content, &mut items);
            proof {
                let x = non_system(cv.take(k as int));
                assert(non_system(cv.take(k + 1)) == x.push(cv[k as int]));
                assert(x.push(cv[k as int]).drop_last() =~= x);
            }
        }
        k = k + 1;
    }
    assert(cv.take(n as int) =~= cv);
    (items, instructions)
}

impl ResponsesRequest {
    /// Builds the request for `config`.
    pub fn from_core(config: ResponsesRequestConfig<'_>) -> (r: ResponsesRequest)
        requires
            decls_settable(opt_view(config.tool_declarations)),
        ensures
            r.model@ == config.model_name@,
            r.reasoning matches Some(rc) ==> rc.summary@ == "auto"@,
            match config.reasoning_effort {
                Some(e) => r.reasoning matches Some(rc) && rc.effort == e,
                None => r.reasoning is None,
            },
            r.store == config.store,
            match config.options {
                Some(o) => r.max_output_tokens == o.max_tokens && opt_json(r.temperature) == opt_json(o.temperature)
                    && opt_json(r.top_p) == opt_json(o.top_p),
                None => r.max_output_tokens is None && r.temperature is None && r.top_p is None,
            },
            opt_view(r.text) == match config.output_schema {
                Some(schema) => Some(text_format(schema@)),
                None => None,
            },
            opt_items(r.tools) == request_tools(opt_view(config.tool_declarations), items_view(config.extra_tool_declarations@)),
            r.stream is None,
            r.previous_response_id == config.previous_response_id,
            opt_items(r.input) == Some(request_input(config.messages@, config.previous_response_id is Some)),
            (match r.instructions {
                Some(t) => Some(t@),
                None => None,
            }) == request_instructions(config.messages@, config.previous_response_id is Some),
    {
        let reasoning = match config.reasoning_effort {
            Some(effort) => Some(ReasoningConfig { effort, summary: "auto".to_owned() }),
            None => None,
        };
        let text = match config.output_schema {
            Some(schema) => Some(text_format_of(schema)),
            None => None,
        };
        let tools = build_tools(&config.tool_declarations, config.extra_tool_declarations);
        let cs = &config.messages.0;
        let continuing = config.previous_response_id.is_some();
        let (input, instructions) = if continuing {
            (continuing_input(cs), None)
        } else {
            let (items, texts) = fresh_input(cs);
            if texts.len() == 0 {
                (items, None)
            } else {
                (items, Some(join_with_newlines(&texts)))
            }
        };
        let (temperature, top_p, max_output_tokens) = match config.options {
            Some(o) => (clone_opt_json(&o.temperature), clone_opt_json(&o.top_p), o.max_tokens),
            None => (None, None, None),
        };
        ResponsesRequest {
            model: config.model_name.to_owned(),
            input: Some(input),
            instructions,
            temperature,
            top_p,
            max_output_tokens,
            reasoning,
            tools,
            text,
            stream: None,
            previous_response_id: config.previous_response_id,
            store: config.store,
        }
    }
}

} // verus!
