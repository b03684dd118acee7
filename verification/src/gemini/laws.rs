use vstd::prelude::*;

use crate::gemini::request::{banned_schema_key, before_colon, gemini_parts_where, sanitize, sanitize_fields, sanitize_items};
use crate::messages::parts::PartView;
use crate::json::{jget, JsonView};
use crate::gemini::request::gemini_part;
use crate::tools::FunctionCallView;

verus! {

/// No object at any depth of the document has a key that Gemini rejects.
pub open spec fn free_of_banned(v: JsonView) -> bool
    decreases v,
{
    match v {
        JsonView::Object(fields) => free_fields(fields),
        JsonView::Array(items) => free_items(items),
        _ => true,
    }
}

pub open spec fn free_fields(fields: Seq<(Seq<char>, JsonView)>) -> bool
    decreases fields,
{
    if fields.len() == 0 {
        true
    } else {
        proof {
            assert(decreases_to!(fields => fields.subrange(0, fields.len() - 1)));
            assert(decreases_to!(fields => fields[fields.len() - 1]));
        }
        let (k, x) = fields[fields.len() - 1];
        free_fields(fields.subrange(0, fields.len() - 1)) && !banned_schema_key(k) && free_of_banned(x)
    }
}

pub open spec fn free_items(items: Seq<JsonView>) -> bool
    decreases items,
{
    if items.len() == 0 {
        true
    } else {
        proof {
            assert(decreases_to!(items => items.subrange(0, items.len() - 1)));
        }
        free_items(items.subrange(0, items.len() - 1)) && free_of_banned(items[items.len() - 1])
    }
}

/// A sanitized schema has none of the keys Gemini rejects, at any depth.
pub proof fn lemma_sanitized_is_free(v: JsonView)
    ensures
        free_of_banned(sanitize(v)),
    decreases v,
{
    match v {
        JsonView::Object(fields) => {
            assert(decreases_to!(v => fields));
            lemma_sanitized_fields_free(fields);
        },
        JsonView::Array(items) => {
            assert(decreases_to!(v => items));
            lemma_sanitized_items_free(items);
        },
        _ => {},
    }
}

proof fn lemma_sanitized_fields_free(fields: Seq<(Seq<char>, JsonView)>)
    ensures
        free_fields(sanitize_fields(fields)),
    decreases fields,
{
    if fields.len() > 0 {
        let prefix = fields.subrange(0, fields.len() - 1);
        assert(decreases_to!(fields => prefix));
        assert(decreases_to!(fields => fields[fields.len() - 1]));
        lemma_sanitized_fields_free(prefix);
        let (k, x) = fields[fields.len() - 1];
        let rest = sanitize_fields(prefix);
        if !banned_schema_key(k) {
            lemma_sanitized_is_free(x);
            let out = rest.push((k, sanitize(x)));
            assert(out.subrange(0, out.len() - 1) =~= rest);
        }
    }
}

proof fn lemma_sanitized_items_free(items: Seq<JsonView>)
    ensures
        free_items(sanitize_items(items)),
    decreases items,
{
    if items.len() > 0 {
        let prefix = items.subrange(0, items.len() - 1);
        assert(decreases_to!(items => prefix));
        lemma_sanitized_items_free(prefix);
        lemma_sanitized_is_free(items[items.len() - 1]);
        let out = sanitize_items(prefix).push(sanitize(items[items.len() - 1]));
        assert(out.subrange(0, out.len() - 1) =~= sanitize_items(prefix));
    }
}

/// Sanitizing a schema that has none of the rejected keys leaves it as it is.
pub proof fn lemma_sanitize_keeps_free(v: JsonView)
    requires
        free_of_banned(v),
    ensures
        sanitize(v) == v,
    decreases v,
{
    match v {
        JsonView::Object(fields) => {
            assert(decreases_to!(v => fields));
            lemma_sanitize_keeps_free_fields(fields);
        },
        JsonView::Array(items) => {
            assert(decreases_to!(v => items));
            lemma_sanitize_keeps_free_items(items);
        },
        _ => {},
    }
}

proof fn lemma_sanitize_keeps_free_fields(fields: Seq<(Seq<char>, JsonView)>)
    requires
        free_fields(fields),
    ensures
        sanitize_fields(fields) == fields,
    decreases fields,
{
    if fields.len() > 0 {
        let prefix = fields.subrange(0, fields.len() - 1);
        assert(decreases_to!(fields => prefix));
        assert(decreases_to!(fields => fields[fields.len() - 1]));
        lemma_sanitize_keeps_free_fields(prefix);
        let (k, x) = fields[fields.len() - 1];
        lemma_sanitize_keeps_free(x);
        assert(prefix.push((k, x)) =~= fields);
    }
}

proof fn lemma_sanitize_keeps_free_items(items: Seq<JsonView>)
    requires
        free_items(items),
    ensures
        sanitize_items(items) == items,
    decreases items,
{
    if items.len() > 0 {
        let prefix = items.subrange(0, items.len() - 1);
        assert(decreases_to!(items => prefix));
        lemma_sanitize_keeps_free_items(prefix);
        lemma_sanitize_keeps_free(items[items.len() - 1]);
        assert(prefix.push(items[items.len() - 1]) =~= items);
    }
}

/// Sanitizing twice is sanitizing once.
pub proof fn lemma_sanitize_idempotent(v: JsonView)
    ensures
        sanitize(sanitize(v)) == sanitize(v),
{
    lemma_sanitized_is_free(v);
    lemma_sanitize_keeps_free(sanitize(v));
}

/// The model name of an embedding request is a prefix of the configured
/// name with no `:` in it.
pub proof fn lemma_before_colon_prefix(name: Seq<char>)
    ensures
        before_colon(name).len() <= name.len(),
        before_colon(name) == name.take(before_colon(name).len() as int),
        forall|i: int| 0 <= i < before_colon(name).len() ==> before_colon(name)[i] != ':',
    decreases name.len(),
{
    if name.len() > 0 && name[0] != ':' {
        lemma_before_colon_prefix(name.drop_first());
        let r = before_colon(name.drop_first());
        assert(seq![name[0]] + r =~= name.take(r.len() as int + 1)) by {
            assert(r =~= name.drop_first().take(r.len() as int));
        }
        assert forall|i: int| 0 <= i < r.len() + 1 implies (seq![name[0]] + r)[i] != ':' by {
            if i > 0 {
                assert((seq![name[0]] + r)[i] == r[i - 1]);
            }
        }
    } else if name.len() > 0 {
        assert(name.take(0) =~= Seq::<char>::empty());
    } else {
        assert(name.take(0) =~= name);
    }
}


/// Every part of a message goes into exactly one of its two entries: the
/// function responses into the `function` entry, all others into the entry
/// of the message's role.
pub proof fn lemma_parts_split(ps: Seq<PartView>)
    ensures
        gemini_parts_where(ps, false).len() + gemini_parts_where(ps, true).len() == ps.len(),
    decreases ps.len(),
{
    if ps.len() > 0 {
        lemma_parts_split(ps.drop_last());
    }
}

/// A function call goes to Gemini as a `functionCall` member whose `name`
/// is the call's name and whose `args` are the call's arguments, as they
/// are.
pub proof fn lemma_function_call_part_carries_call(fc: FunctionCallView)
    ensures
        jget(gemini_part(PartView::FunctionCall(fc)), "functionCall"@) matches Some(inner) && jget(inner, "name"@)
            == Some(JsonView::Str(fc.name)) && jget(inner, "args"@) == Some(fc.arguments),
{
    reveal_strlit("functionCall");
    reveal_strlit("name");
    reveal_strlit("args");
    assert("name"@ != "args"@) by {
        assert("name"@[0] != "args"@[0]);
    }
    let fields = seq![("name"@, JsonView::Str(fc.name)), ("args"@, fc.arguments)];
    assert(fields.drop_first() =~= seq![("args"@, fc.arguments)]);
    assert(crate::json::lookup(fields.drop_first(), "args"@) == Some(fc.arguments));
    assert(crate::json::lookup(fields, "args"@) == crate::json::lookup(fields.drop_first(), "args"@));
    assert(crate::json::lookup(fields, "name"@) == Some(JsonView::Str(fc.name)));
    let outer = seq![("functionCall"@, JsonView::Object(fields))];
    assert(crate::json::lookup(outer, "functionCall"@) == Some(JsonView::Object(fields)));
    assert(gemini_part(PartView::FunctionCall(fc)) == JsonView::Object(outer));
}

} // verus!
