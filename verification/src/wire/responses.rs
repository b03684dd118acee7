use vstd::prelude::*;

use crate::json::{items_view, jget, json_text, to_json_string, Json, JsonView};
use crate::messages::content::{Content, ContentView, RoleEnum};
use crate::messages::file::{str_eq, File, FileView};
use crate::messages::parts::{PartEnum, PartView};
use crate::messages::{Messages, contents_view};
use crate::tools::{FunctionCallView, FunctionResponseView};
use crate::wire::encoding::{data_uri, make_data_uri};

verus! {

/// The file extension used for a MIME type when a file is sent by its bytes.
pub open spec fn mime_ext(mime: Seq<char>) -> Seq<char> {
    if mime == "application/pdf"@ {
        "pdf"@
    } else if mime == "application/json"@ {
        "json"@
    } else if mime == "application/zip"@ {
        "zip"@
    } else if mime == "application/msword"@ {
        "doc"@
    } else if mime == "application/vnd.openxmlformats-officedocument.wordprocessingml.document"@ {
        "docx"@
    } else if mime == "application/vnd.ms-excel"@ {
        "xls"@
    } else if mime == "application/vnd.openxmlformats-officedocument.spreadsheetml.sheet"@ {
        "xlsx"@
    } else if mime == "text/plain"@ {
        "txt"@
    } else if mime == "text/csv"@ {
        "csv"@
    } else if mime == "text/html"@ {
        "html"@
    } else if mime == "text/markdown"@ {
        "md"@
    } else {
        "bin"@
    }
}

pub fn mime_to_ext(mime: &str) -> (e: &'static str)
    ensures
        e@ == mime_ext(mime@),
{
    proof {
        reveal_strlit("application/pdf");
        reveal_strlit("application/json");
        reveal_strlit("application/zip");
        reveal_strlit("application/msword");
        reveal_strlit("application/vnd.openxmlformats-officedocument.wordprocessingml.document");
        reveal_strlit("application/vnd.ms-excel");
        reveal_strlit("application/vnd.openxmlformats-officedocument.spreadsheetml.sheet");
        reveal_strlit("text/plain");
        reveal_strlit("text/csv");
        reveal_strlit("text/html");
        reveal_strlit("text/markdown");
    }
    if str_eq(mime, "application/pdf") {
        "pdf"
    } else if str_eq(mime, "application/json") {
        "json"
    } else if str_eq(mime, "application/zip") {
        "zip"
    } else if str_eq(mime, "application/msword") {
        "doc"
    } else if str_eq(mime, "application/vnd.openxmlformats-officedocument.wordprocessingml.document") {
        "docx"
    } else if str_eq(mime, "application/vnd.ms-excel") {
        "xls"
    } else if str_eq(mime, "application/vnd.openxmlformats-officedocument.spreadsheetml.sheet") {
        "xlsx"
    } else if str_eq(mime, "text/plain") {
        "txt"
    } else if str_eq(mime, "text/csv") {
        "csv"
    } else if str_eq(mime, "text/html") {
        "html"
    } else if str_eq(mime, "text/markdown") {
        "md"
    } else {
        "bin"
    }
}

/// A MIME type of an image: it starts with `image/`.
pub open spec fn is_image_mime(m: Seq<char>) -> bool {
    m.len() >= 6 && m.subrange(0, 6) == "image/"@
}

pub fn mime_is_image(m: &str) -> (b: bool)
    ensures
        b == is_image_mime(m@),
{
    proof {
        reveal_strlit("image/");
    }
    let n = m.unicode_len();
    if n < 6 {
        return false;
    }
    let head = m.substring_char(0, 6);
    str_eq(head, "image/")
}

pub open spec fn obj(fields: Seq<(Seq<char>, JsonView)>) -> JsonView {
    JsonView::Object(fields)
}

pub open spec fn s(t: Seq<char>) -> JsonView {
    JsonView::Str(t)
}

/// The wire name of a role.
pub open spec fn role_name(r: RoleEnum) -> Seq<char> {
    match r {
        RoleEnum::User => "user"@,
        RoleEnum::Model => "assistant"@,
        RoleEnum::System => "system"@,
    }
}

/// The text a tool result is sent as: a string as it is, anything else as
/// its JSON text.
pub open spec fn output_text(r: JsonView) -> Seq<char> {
    match r {
        JsonView::Str(t) => t,
        _ => json_text(r),
    }
}

pub open spec fn id_or_empty(id: Option<Seq<char>>) -> Seq<char> {
    match id {
        Some(i) => i,
        None => Seq::empty(),
    }
}

/// The `function_call_output` item for a tool's answer.
pub open spec fn output_item(fr: FunctionResponseView) -> JsonView {
    obj(seq![
        ("type"@, s("function_call_output"@)),
        ("call_id"@, s(id_or_empty(fr.id))),
        ("output"@, s(output_text(fr.result))),
    ])
}

/// The `function_call` item for a tool call.
pub open spec fn call_item(fc: FunctionCallView) -> JsonView {
    obj(seq![
        ("type"@, s("function_call"@)),
        ("call_id"@, s(id_or_empty(fc.id))),
        ("name"@, s(fc.name)),
        ("arguments"@, s(json_text(fc.arguments))),
    ])
}

/// The item a part adds to the input list by itself (tool calls and answers).
pub open spec fn side_item(p: PartView) -> Option<JsonView> {
    match p {
        PartView::FunctionCall(fc) => Some(call_item(fc)),
        PartView::FunctionResponse(fr) => Some(output_item(fr)),
        _ => None,
    }
}

/// The entry a file adds to a message's content.
pub open spec fn file_entry(f: FileView) -> JsonView {
    match f {
        FileView::Url { url, mimetype } => {
            if mimetype matches Some(m) && is_image_mime(m) {
                obj(seq![("type"@, s("input_image"@)), ("image_url"@, s(url))])
            } else {
                obj(seq![("type"@, s("input_file"@)), ("file_url"@, s(url))])
            }
        },
        FileView::Bytes { mime, bytes } => {
            if is_image_mime(mime) {
                obj(seq![("type"@, s("input_image"@)), ("image_url"@, s(data_uri(mime, bytes)))])
            } else {
                obj(seq![
                    ("type"@, s("input_file"@)),
                    ("filename"@, s("file."@ + mime_ext(mime))),
                    ("file_data"@, s(data_uri(mime, bytes))),
                ])
            }
        },
    }
}

/// The entry a part adds to its message's content.
pub open spec fn message_entry(assistant: bool, p: PartView) -> Option<JsonView> {
    match p {
        PartView::Text(t) => Some(obj(seq![
            ("type"@, s(if assistant { "output_text"@ } else { "input_text"@ })),
            ("text"@, s(t)),
        ])),
        PartView::Reasoning(t) => Some(obj(seq![("type"@, s("input_text"@)), ("text"@, s(t))])),
        PartView::File(f) => Some(file_entry(f)),
        _ => None,
    }
}

pub open spec fn side_items(ps: Seq<PartView>) -> Seq<JsonView>
    decreases ps.len(),
{
    if ps.len() == 0 {
        Seq::empty()
    } else {
        match side_item(ps.last()) {
            Some(i) => side_items(ps.drop_last()).push(i),
            None => side_items(ps.drop_last()),
        }
    }
}

pub open spec fn message_entries(assistant: bool, ps: Seq<PartView>) -> Seq<JsonView>
    decreases ps.len(),
{
    if ps.len() == 0 {
        Seq::empty()
    } else {
        match message_entry(assistant, ps.last()) {
            Some(i) => message_entries(assistant, ps.drop_last()).push(i),
            None => message_entries(assistant, ps.drop_last()),
        }
    }
}

/// The input items for one message: its tool calls and answers, then the
/// message itself when it has content.
pub open spec fn content_items(c: ContentView) -> Seq<JsonView> {
    let entries = message_entries(c.role == RoleEnum::Model, c.parts);
    side_items(c.parts) + if entries.len() > 0 {
        seq![obj(seq![("role"@, s(role_name(c.role))), ("content"@, JsonView::Array(entries))])]
    } else {
        Seq::empty()
    }
}

/// The input items of several messages, in order.
pub open spec fn contents_items(cs: Seq<ContentView>) -> Seq<JsonView>
    decreases cs.len(),
{
    if cs.len() == 0 {
        Seq::empty()
    } else {
        contents_items(cs.drop_last()) + content_items(cs.last())
    }
}

pub(crate) fn push_view(items: &mut Vec<Json>, j: Json)
    ensures
        items_view(final(items)@) == items_view(old(items)@).push(j@),
{
    items.push(j);
    assert(items_view(items@) =~= items_view(old(items)@).push(j@));
}

fn kv(k: &str, v: Json) -> (p: (String, Json))
    ensures
        p.0@ == k@,
        p.1 == v,
{
    (k.to_owned(), v)
}

pub(crate) fn output_item_of(fr: &crate::tools::FunctionResponse) -> (j: Json)
    ensures
        j@ == output_item(fr@),
{
    let output = match &fr.result {
        Json::Str(t) => t.clone(),
        other => to_json_string(other),
    };
    let id = match &fr.id {
        Some(i) => i.clone(),
        None => String::new(),
    };
    let j = Json::object(vec![
        kv("type", Json::from_str("function_call_output")),
        kv("call_id", Json::string(id)),
        kv("output", Json::string(output)),
    ]);
    proof {
        reveal_strlit("type");
    }
    assert(j@ == output_item(fr@)) by {
        assert(j@->Object_0 =~= output_item(fr@)->Object_0);
    }
    j
}

fn call_item_of(fc: &crate::tools::FunctionCall) -> (j: Json)
    ensures
        j@ == call_item(fc@),
{
    let id = match &fc.id {
        Some(i) => i.clone(),
        None => String::new(),
    };
    let j = Json::object(vec![
        kv("type", Json::from_str("function_call")),
        kv("call_id", Json::string(id)),
        kv("name", Json::string(fc.name.clone())),
        kv("arguments", Json::string(to_json_string(&fc.arguments))),
    ]);
    assert(j@ == call_item(fc@)) by {
        assert(j@->Object_0 =~= call_item(fc@)->Object_0);
    }
    j
}

fn file_entry_of(f: &File) -> (j: Json)
    ensures
        j@ == file_entry(f@),
{
    match f {
        File::Url(u) => {
            let image = match &u.mimetype {
                Some(m) => mime_is_image(m.as_str()),
                None => false,
            };
            if image {
                let j = Json::object(vec![
                    kv("type", Json::from_str("input_image")),
                    kv("image_url", Json::string(u.url.clone())),
                ]);
                assert(j@->Object_0 =~= file_entry(f@)->Object_0);
                j
            } else {
                let j = Json::object(vec![
                    kv("type", Json::from_str("input_file")),
                    kv("file_url", Json::string(u.url.clone())),
                ]);
                assert(j@->Object_0 =~= file_entry(f@)->Object_0);
                j
            }
        },
        File::Bytes(r) => {
            let mime = r.mimetype.as_str();
            let uri = make_data_uri(mime, r.bytes.as_slice());
            if mime_is_image(mime) {
                let j = Json::object(vec![
                    kv("type", Json::from_str("input_image")),
                    kv("image_url", Json::string(uri)),
                ]);
                assert(j@->Object_0 =~= file_entry(f@)->Object_0);
                j
            } else {
                let filename = "file.".to_owned().concat(mime_to_ext(mime));
                let j = Json::object(vec![
                    kv("type", Json::from_str("input_file")),
                    kv("filename", Json::string(filename)),
                    kv("file_data", Json::string(uri)),
                ]);
                assert(j@->Object_0 =~= file_entry(f@)->Object_0);
                j
            }
        },
    }
}

fn message_entry_of(assistant: bool, p: &PartEnum) -> (r: Option<Json>)
    ensures
        match message_entry(assistant, p@) {
            Some(e) => r matches Some(j) && j@ == e,
            None => r is None,
        },
{
    match p {
        PartEnum::Text(t) => {
            let ty = if assistant { "output_text" } else { "input_text" };
            let j = Json::object(vec![kv("type", Json::from_str(ty)), kv("text", Json::string(t.text.clone()))]);
            assert(j@->Object_0 =~= message_entry(assistant, p@)->Some_0->Object_0);
            Some(j)
        },
        PartEnum::Reasoning(t) => {
            let j = Json::object(vec![kv("type", Json::from_str("input_text")), kv("text", Json::string(t.text.clone()))]);
            assert(j@->Object_0 =~= message_entry(assistant, p@)->Some_0->Object_0);
            Some(j)
        },
        PartEnum::File(f) => Some(file_entry_of(f)),
        _ => None,
    }
}

/// Appends the input items of one message.
pub fn content_to_input_items(content: &Content, items: &mut Vec<Json>)
    ensures
        items_view(final(items)@) == items_view(old(items)@) + content_items(content@),
{
    let assistant = content.role == RoleEnum::Model;
    let role = match content.role {
        RoleEnum::User => "user",
        RoleEnum::Model => "assistant",
        RoleEnum::System => "system",
    };
    let ghost ps = content@.parts;
    let ghost start = items_view(items@);
    let mut message_parts: Vec<Json> = Vec::new();
    let n = content.parts.0.len();
    let mut i: usize = 0;
    while i < n
        invariant
            n == content.parts.0@.len(),
            ps == content@.parts,
            i <= n,
            items_view(items@) == start + side_items(ps.take(i as int)),
            items_view(message_parts@) == message_entries(assistant, ps.take(i as int)),
        decreases n - i,
    {
        let part = &content.parts.0[i];
        proof {
            assert(ps.take(i + 1).drop_last() =~= ps.take(i as int));
            assert(ps.take(i + 1).last() == part@);
        }
        match part {
            PartEnum::FunctionCall(fc) => {
                push_view(items, call_item_of(fc));
            },
            PartEnum::FunctionResponse(fr) => {
                push_view(items, output_item_of(fr));
            },
            _ => {},
        }
        match message_entry_of(assistant, part) {
            Some(e) => {
                push_view(&mut message_parts, e);
            },
            None => {},
        }
        i = i + 1;
    }
    proof {
        assert(ps.take(n as int) =~= ps);
    }
    if message_parts.len() > 0 {
        let entry = Json::object(vec![kv("role", Json::from_str(role)), kv("content", Json::array(message_parts))]);
        proof {
            let e = obj(seq![("role"@, s(role_name(content@.role))), ("content"@, JsonView::Array(message_entries(assistant, ps)))]);
            assert(entry@->Object_0 =~= e->Object_0);
        }
        push_view(items, entry);
    }
    assert(items_view(items@) =~= start + content_items(content@));
}

/// A message with content goes on the wire as its last input item, an
/// object whose `role` is `"user"` for the user, `"assistant"` for the
/// model and `"system"` for the system, and whose `content` is the
/// message's entries.
pub proof fn lemma_message_item_role(c: ContentView)
    requires
        message_entries(c.role == RoleEnum::Model, c.parts).len() > 0,
    ensures
        content_items(c).len() > 0,
        c.role == RoleEnum::User ==> jget(content_items(c).last(), "role"@) == Some(JsonView::Str("user"@)),
        c.role == RoleEnum::Model ==> jget(content_items(c).last(), "role"@) == Some(JsonView::Str("assistant"@)),
        c.role == RoleEnum::System ==> jget(content_items(c).last(), "role"@) == Some(JsonView::Str("system"@)),
        jget(content_items(c).last(), "content"@) == Some(
            JsonView::Array(message_entries(c.role == RoleEnum::Model, c.parts)),
        ),
{
    reveal_strlit("role");
    reveal_strlit("content");
    let entries = message_entries(c.role == RoleEnum::Model, c.parts);
    let item = obj(seq![("role"@, s(role_name(c.role))), ("content"@, JsonView::Array(entries))]);
    assert(content_items(c) == side_items(c.parts) + seq![item]);
    assert(content_items(c).last() == item);
    let fields = seq![("role"@, s(role_name(c.role))), ("content"@, JsonView::Array(entries))];
    assert(fields.drop_first() =~= seq![("content"@, JsonView::Array(entries))]);
    assert("content"@ != "role"@) by {
        assert("content"@[0] != "role"@[0]);
    }
    assert(crate::json::lookup(fields.drop_first(), "content"@) == Some(JsonView::Array(entries)));
    assert(crate::json::lookup(fields, "content"@) == crate::json::lookup(fields.drop_first(), "content"@));
}

} // verus!
