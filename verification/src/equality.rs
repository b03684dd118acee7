use vstd::prelude::*;

use crate::json::{fields_view, items_view, Json, JsonView};
use crate::messages::content::Content;
use crate::messages::file::{str_eq, File};
use crate::messages::parts::{parts_view, PartEnum, Parts};
use crate::metadata::{opt_str, specific_map, Metadata};
use vstd::std_specs::cmp::PartialEqSpecImpl;

verus! {

/// Whether two JSON documents are the same document.
pub fn json_eq(a: &Json, b: &Json) -> (r: bool)
    ensures
        r == (a@ == b@),
    decreases a,
{
    match (a, b) {
        (Json::Null, Json::Null) => true,
        (Json::Bool(x), Json::Bool(y)) => *x == *y,
        (Json::UInt(x), Json::UInt(y)) => *x == *y,
        (Json::Int(x), Json::Int(y)) => *x == *y,
        (Json::Float(x), Json::Float(y)) => str_eq(x.as_str(), y.as_str()),
        (Json::Str(x), Json::Str(y)) => str_eq(x.as_str(), y.as_str()),
        (Json::Array(xs), Json::Array(ys)) => {
            let ghost av = a@->Array_0;
            let ghost bv = b@->Array_0;
            assert(av =~= items_view(xs@));
            assert(bv =~= items_view(ys@));
            if xs.len() != ys.len() {
                return false;
            }
            let mut i: usize = 0;
            while i < xs.len()
                invariant
                    i <= xs@.len(),
                    xs@.len() == ys@.len(),
                    *a == Json::Array(*xs),
                    *b == Json::Array(*ys),
                    av == a@->Array_0,
                    bv == b@->Array_0,
                    av == items_view(xs@),
                    bv == items_view(ys@),
                    forall|k: int| 0 <= k < i ==> av[k] == bv[k],
                decreases xs@.len() - i,
            {
                proof {
                    assert(decreases_to!(*a => (*a)->Array_0));
                    assert(decreases_to!(*xs => xs@));
                    assert(decreases_to!(xs@ => xs@[i as int]));
                }
                if !json_eq(&xs[i], &ys[i]) {
                    assert(av[i as int] != bv[i as int]);
                    return false;
                }
                i = i + 1;
            }
            assert(av =~= bv);
            true
        },
        (Json::Object(xs), Json::Object(ys)) => {
            let ghost av = a@->Object_0;
            let ghost bv = b@->Object_0;
            assert(av =~= fields_view(xs@));
            assert(bv =~= fields_view(ys@));
            if xs.len() != ys.len() {
                return false;
            }
            let mut i: usize = 0;
            while i < xs.len()
                invariant
                    i <= xs@.len(),
                    xs@.len() == ys@.len(),
                    *a == Json::Object(*xs),
                    *b == Json::Object(*ys),
                    av == a@->Object_0,
                    bv == b@->Object_0,
                    av == fields_view(xs@),
                    bv == fields_view(ys@),
                    forall|k: int| 0 <= k < i ==> av[k] == bv[k],
                decreases xs@.len() - i,
            {
                if !str_eq(xs[i].0.as_str(), ys[i].0.as_str()) {
                    assert(av[i as int].0 != bv[i as int].0);
                    return false;
                }
                proof {
                    assert(decreases_to!(*a => (*a)->Object_0));
                    assert(decreases_to!(*xs => xs@));
                    assert(decreases_to!(xs@ => xs@[i as int]));
                    assert(decreases_to!(xs@[i as int] => xs@[i as int].1));
                }
                if !json_eq(&xs[i].1, &ys[i].1) {
                    assert(av[i as int].1 != bv[i as int].1);
                    return false;
                }
                i = i + 1;
            }
            assert(av =~= bv);
            true
        },
        _ => false,
    }
}

impl PartialEq for Json {
    fn eq(&self, other: &Json) -> (r: bool) {
        json_eq(self, other)
    }
}

impl PartialEqSpecImpl for Json {
    open spec fn obeys_eq_spec() -> bool {
        true
    }

    open spec fn eq_spec(&self, other: &Json) -> bool {
        self@ == other@
    }
}

fn opt_string_eq(a: &Option<String>, b: &Option<String>) -> (r: bool)
    ensures
        r == (opt_str(*a) == opt_str(*b)),
{
    match (a, b) {
        (Some(x), Some(y)) => str_eq(x.as_str(), y.as_str()),
        (None, None) => true,
        _ => false,
    }
}

fn bytes_eq(a: &Vec<u8>, b: &Vec<u8>) -> (r: bool)
    ensures
        r == (a@ == b@),
{
    if a.len() != b.len() {
        return false;
    }
    let mut i: usize = 0;
    while i < a.len()
        invariant
            i <= a@.len(),
            a@.len() == b@.len(),
            forall|k: int| 0 <= k < i ==> a@[k] == b@[k],
        decreases a@.len() - i,
    {
        if a[i] != b[i] {
            return false;
        }
        i = i + 1;
    }
    assert(a@ =~= b@);
    true
}

/// Whether two parts are the same part.
pub fn part_eq(a: &PartEnum, b: &PartEnum) -> (r: bool)
    ensures
        r == (a@ == b@),
{
    match (a, b) {
        (PartEnum::Text(x), PartEnum::Text(y)) => str_eq(x.text.as_str(), y.text.as_str()),
        (PartEnum::Reasoning(x), PartEnum::Reasoning(y)) => str_eq(x.text.as_str(), y.text.as_str()),
        (PartEnum::FunctionCall(x), PartEnum::FunctionCall(y)) => opt_string_eq(&x.id, &y.id) && str_eq(
            x.name.as_str(),
            y.name.as_str(),
        ) && json_eq(&x.arguments, &y.arguments),
        (PartEnum::FunctionResponse(x), PartEnum::FunctionResponse(y)) => opt_string_eq(&x.id, &y.id) && str_eq(
            x.name.as_str(),
            y.name.as_str(),
        ) && json_eq(&x.result, &y.result),
        (PartEnum::Structured(x), PartEnum::Structured(y)) => json_eq(x, y),
        (PartEnum::File(File::Url(x)), PartEnum::File(File::Url(y))) => {
            str_eq(x.url.as_str(), y.url.as_str()) && match (&x.mimetype, &y.mimetype) {
                (Some(m), Some(n)) => str_eq(m.0.as_str(), n.0.as_str()),
                (None, None) => true,
                _ => false,
            }
        },
        (PartEnum::File(File::Bytes(x)), PartEnum::File(File::Bytes(y))) => {
            str_eq(x.mimetype.0.as_str(), y.mimetype.0.as_str()) && bytes_eq(&x.bytes, &y.bytes)
        },
        _ => false,
    }
}

impl PartialEq for PartEnum {
    fn eq(&self, other: &PartEnum) -> (r: bool) {
        part_eq(self, other)
    }
}

impl PartialEqSpecImpl for PartEnum {
    open spec fn obeys_eq_spec() -> bool {
        true
    }

    open spec fn eq_spec(&self, other: &PartEnum) -> bool {
        self@ == other@
    }
}

/// Whether two lists of parts hold the same parts in the same order.
pub fn parts_eq(a: &Parts, b: &Parts) -> (r: bool)
    ensures
        r == (a@ == b@),
{
    assert(a@.len() == a.0@.len() && b@.len() == b.0@.len());
    if a.0.len() != b.0.len() {
        return false;
    }
    let mut i: usize = 0;
    while i < a.0.len()
        invariant
            i <= a.0@.len(),
            a.0@.len() == b.0@.len(),
            forall|k: int| 0 <= k < i ==> a@[k] == b@[k],
        decreases a.0@.len() - i,
    {
        if !part_eq(&a.0[i], &b.0[i]) {
            assert(a@[i as int] != b@[i as int]);
            return false;
        }
        i = i + 1;
    }
    assert(a@ =~= b@);
    true
}

impl PartialEq for Parts {
    fn eq(&self, other: &Parts) -> (r: bool) {
        parts_eq(self, other)
    }
}

impl PartialEqSpecImpl for Parts {
    open spec fn obeys_eq_spec() -> bool {
        true
    }

    open spec fn eq_spec(&self, other: &Parts) -> bool {
        self@ == other@
    }
}


proof fn lemma_specific_step(entries: Seq<(String, Json)>, i: int, key: Seq<char>)
    requires
        0 < i <= entries.len(),
    ensures
        entries[i - 1].0@ != key ==> (specific_map(entries.take(i)).dom().contains(key) == specific_map(
            entries.take(i - 1),
        ).dom().contains(key) && specific_map(entries.take(i))[key] == specific_map(entries.take(i - 1))[key]),
        entries[i - 1].0@ == key ==> specific_map(entries.take(i)).dom().contains(key) && specific_map(
            entries.take(i),
        )[key] == entries[i - 1].1@,
{
    assert(entries.take(i).drop_last() =~= entries.take(i - 1));
}

/// The value of `key` in provider-specific entries: that of its last entry.
fn specific_get<'a>(entries: &'a Vec<(String, Json)>, key: &str) -> (r: Option<&'a Json>)
    ensures
        match r {
            Some(v) => specific_map(entries@).dom().contains(key@) && specific_map(entries@)[key@] == v@,
            None => !specific_map(entries@).dom().contains(key@),
        },
{
    let ghost e = entries@;
    assert(e.take(e.len() as int) =~= e);
    let mut i: usize = entries.len();
    while i > 0
        invariant
            i <= e.len(),
            e == entries@,
            specific_map(e.take(i as int)).dom().contains(key@) == specific_map(e).dom().contains(key@),
            specific_map(e).dom().contains(key@) ==> specific_map(e.take(i as int))[key@] == specific_map(e)[key@],
        decreases i,
    {
        proof {
            lemma_specific_step(e, i as int, key@);
        }
        if str_eq(entries[i - 1].0.as_str(), key) {
            return Some(&entries[i - 1].1);
        }
        i = i - 1;
    }
    assert(e.take(0) =~= Seq::<(String, Json)>::empty());
    None
}

proof fn lemma_specific_keys(entries: Seq<(String, Json)>, k: Seq<char>)
    ensures
        specific_map(entries).dom().contains(k) <==> exists|i: int| 0 <= i < entries.len() && entries[i].0@ == k,
    decreases entries.len(),
{
    if entries.len() > 0 {
        let d = entries.drop_last();
        lemma_specific_keys(d, k);
        if exists|i: int| 0 <= i < d.len() && d[i].0@ == k {
            let i = choose|i: int| 0 <= i < d.len() && d[i].0@ == k;
            assert(entries[i].0@ == k);
        }
        if exists|i: int| 0 <= i < entries.len() && entries[i].0@ == k {
            let i = choose|i: int| 0 <= i < entries.len() && entries[i].0@ == k;
            if i < entries.len() - 1 {
                assert(d[i].0@ == k);
            }
        }
    }
}

/// Whether two sets of provider-specific entries map the same keys to the
/// same values.
fn specific_eq(a: &Vec<(String, Json)>, b: &Vec<(String, Json)>) -> (r: bool)
    ensures
        r == (specific_map(a@) == specific_map(b@)),
{
    let ghost am = specific_map(a@);
    let ghost bm = specific_map(b@);
    let mut i: usize = 0;
    while i < a.len()
        invariant
            i <= a@.len(),
            am == specific_map(a@),
            bm == specific_map(b@),
            forall|k: int| 0 <= k < i ==> bm.dom().contains(#[trigger] a@[k].0@) && bm[a@[k].0@] == am[a@[k].0@],
        decreases a@.len() - i,
    {
        proof {
            lemma_specific_keys(a@, a@[i as int].0@);
        }
        let va = specific_get(a, a[i].0.as_str());
        match specific_get(b, a[i].0.as_str()) {
            Some(vb) => {
                match va {
                    Some(x) => {
                        if !json_eq(x, vb) {
                            return false;
                        }
                    },
                    None => {
                        return false;
                    },
                }
            },
            None => {
                return false;
            },
        }
        i = i + 1;
    }
    let mut j: usize = 0;
    while j < b.len()
        invariant
            j <= b@.len(),
            am == specific_map(a@),
            bm == specific_map(b@),
            forall|k: int| 0 <= k < a@.len() ==> bm.dom().contains(#[trigger] a@[k].0@) && bm[a@[k].0@] == am[a@[k].0@],
            forall|k: int| 0 <= k < j ==> am.dom().contains(#[trigger] b@[k].0@),
        decreases b@.len() - j,
    {
        proof {
            lemma_specific_keys(b@, b@[j as int].0@);
        }
        match specific_get(a, b[j].0.as_str()) {
            Some(_) => {},
            None => {
                return false;
            },
        }
        j = j + 1;
    }
    proof {
        assert forall|k: Seq<char>| #[trigger] am.dom().contains(k) implies bm.dom().contains(k) && bm[k] == am[k] by {
            lemma_specific_keys(a@, k);
            let i = choose|i: int| 0 <= i < a@.len() && a@[i].0@ == k;
            assert(bm.dom().contains(a@[i].0@));
        }
        assert forall|k: Seq<char>| #[trigger] bm.dom().contains(k) implies am.dom().contains(k) by {
            lemma_specific_keys(b@, k);
            let i = choose|i: int| 0 <= i < b@.len() && b@[i].0@ == k;
            assert(am.dom().contains(b@[i].0@));
        }
        assert(am.dom() =~= bm.dom());
        assert(am =~= bm);
    }
    true
}

/// Whether two metadata reports say the same.
pub fn metadata_eq(a: &Metadata, b: &Metadata) -> (r: bool)
    ensures
        r == (a@ == b@),
{
    opt_string_eq(&a.id, &b.id) && opt_string_eq(&a.model_slug, &b.model_slug) && opt_string_eq(
        &a.system_fingerprint,
        &b.system_fingerprint,
    ) && a.usage == b.usage && a.duration_ms == b.duration_ms && a.created_at == b.created_at && specific_eq(
        &a.specific,
        &b.specific,
    )
}

impl PartialEq for Metadata {
    fn eq(&self, other: &Metadata) -> (r: bool) {
        metadata_eq(self, other)
    }
}

impl PartialEqSpecImpl for Metadata {
    open spec fn obeys_eq_spec() -> bool {
        true
    }

    open spec fn eq_spec(&self, other: &Metadata) -> bool {
        self@ == other@
    }
}

/// Whether two messages are the same message.
pub fn content_eq(a: &Content, b: &Content) -> (r: bool)
    ensures
        r == (a@ == b@),
{
    parts_eq(&a.parts, &b.parts) && a.role == b.role && a.complete_reason == b.complete_reason && match (
        &a.metadata,
        &b.metadata,
    ) {
        (Some(x), Some(y)) => metadata_eq(x, y),
        (None, None) => true,
        _ => false,
    }
}

impl PartialEq for Content {
    fn eq(&self, other: &Content) -> (r: bool) {
        content_eq(self, other)
    }
}

impl PartialEqSpecImpl for Content {
    open spec fn obeys_eq_spec() -> bool {
        true
    }

    open spec fn eq_spec(&self, other: &Content) -> bool {
        self@ == other@
    }
}

} // verus!
