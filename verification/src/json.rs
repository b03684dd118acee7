use vstd::prelude::*;


verus! {

/// A JSON document. Numbers are kept as an unsigned integer, a negative
/// integer, or (for any other number) the decimal text they were written in.
#[derive(Debug)]
pub enum Json {
    Null,
    Bool(bool),
    UInt(u64),
    Int(i64),
    Float(String),
    Str(String),
    Array(Vec<Json>),
    Object(Vec<(String, Json)>),
}

/// The mathematical value of a JSON document: strings as character sequences.
pub enum JsonView {
    Null,
    Bool(bool),
    UInt(u64),
    Int(i64),
    Float(Seq<char>),
    Str(Seq<char>),
    Array(Seq<JsonView>),
    Object(Seq<(Seq<char>, JsonView)>),
}

impl Json {
    pub open spec fn jv(self) -> JsonView
        decreases self,
    {
        match self {
            Json::Null => JsonView::Null,
            Json::Bool(b) => JsonView::Bool(b),
            Json::UInt(n) => JsonView::UInt(n),
            Json::Int(n) => JsonView::Int(n),
            Json::Float(s) => JsonView::Float(s@),
            Json::Str(s) => JsonView::Str(s@),
            Json::Array(items) => JsonView::Array(
                Seq::new(
                    items@.len(),
                    |i: int|
                        if 0 <= i < items@.len() {
                            items@[i].jv()
                        } else {
                            JsonView::Null
                        },
                ),
            ),
            Json::Object(fields) => JsonView::Object(
                Seq::new(
                    fields@.len(),
                    |i: int|
                        if 0 <= i < fields@.len() {
                            (fields@[i].0@, fields@[i].1.jv())
                        } else {
                            (Seq::empty(), JsonView::Null)
                        },
                ),
            ),
        }
    }
}

impl View for Json {
    type V = JsonView;

    open spec fn view(&self) -> JsonView {
        self.jv()
    }
}

impl Clone for Json {
    fn clone(&self) -> (r: Self)
        ensures
            r@ == self@,
        decreases self,
    {
        match self {
            Json::Null => Json::Null,
            Json::Bool(b) => Json::Bool(*b),
            Json::UInt(n) => Json::UInt(*n),
            Json::Int(n) => Json::Int(*n),
            Json::Float(s) => Json::Float(s.clone()),
            Json::Str(s) => Json::Str(s.clone()),
            Json::Array(items) => {
                let mut out: Vec<Json> = Vec::new();
                let mut i: usize = 0;
                while i < items.len()
                    invariant
                        i <= items@.len(),
                        *self == Json::Array(*items),
                        out@.len() == i,
                        forall|k: int| 0 <= k < i ==> (#[trigger] out@[k])@ == items@[k]@,
                    decreases items@.len() - i,
                {
                    proof {
                        assert(decreases_to!(*self => (*self)->Array_0));
                        assert(decreases_to!(*items => items@));
                        assert(decreases_to!(items@ => items@[i as int]));
                        assert(decreases_to!(*self => items@[i as int]));
                    }
                    let item = items[i].clone();
                    out.push(item);
                    i = i + 1;
                }
                let r = Json::Array(out);
                assert(r@ =~= self@) by {
                    if let JsonView::Array(a) = r@ {
                        if let JsonView::Array(b) = self@ {
                            assert(a =~= b);
                        }
                    }
                }
                r
            },
            Json::Object(fields) => {
                let mut out: Vec<(String, Json)> = Vec::new();
                let mut i: usize = 0;
                while i < fields.len()
                    invariant
                        i <= fields@.len(),
                        *self == Json::Object(*fields),
                        out@.len() == i,
                        forall|k: int| 0 <= k < i ==> (#[trigger] out@[k]).0@ == fields@[k].0@ && out@[k].1@ == fields@[k].1@,
                    decreases fields@.len() - i,
                {
                    let key = fields[i].0.clone();
                    proof {
                        assert(decreases_to!(*self => (*self)->Object_0));
                        assert(decreases_to!(*fields => fields@));
                        assert(decreases_to!(fields@ => fields@[i as int]));
                        assert(decreases_to!(fields@[i as int] => fields@[i as int].1));
                        assert(decreases_to!(*self => fields@[i as int].1));
                    }
                    let value = fields[i].1.clone();
                    out.push((key, value));
                    i = i + 1;
                }
                let r = Json::Object(out);
                assert(r@ =~= self@) by {
                    if let JsonView::Object(a) = r@ {
                        if let JsonView::Object(b) = self@ {
                            assert(a =~= b);
                        }
                    }
                }
                r
            },
        }
    }
}

/// A `serde_json` document.
#[verifier::external_type_specification]
#[verifier::external_body]
pub struct ExValue(serde_json::Value);

/// The document as a `serde_json` value, one value for one: numbers kept
/// as the integer or decimal text they hold (a text that is no number
/// becomes `null`), object members in their order.
#[verifier::external_body]
fn to_serde_value(v: &Json) -> serde_json::Value {
    match v {
        Json::Null => serde_json::Value::Null,
        Json::Bool(b) => serde_json::Value::Bool(*b),
        Json::UInt(n) => serde_json::Value::from(*n),
        Json::Int(n) => serde_json::Value::from(*n),
        Json::Float(t) => t.parse::<serde_json::Number>().map(serde_json::Value::Number).unwrap_or(serde_json::Value::Null),
        Json::Str(s) => serde_json::Value::String(s.clone()),
        Json::Array(items) => serde_json::Value::Array(items.iter().map(to_serde_value).collect()),
        Json::Object(fields) => serde_json::Value::Object(fields.iter().map(|(k, x)| (k.clone(), to_serde_value(x))).collect()),
    }
}

/// The compact JSON text `serde_json` writes for a document.
pub uninterp spec fn json_text(v: JsonView) -> Seq<char>;

/// Writes `v` with `serde_json`'s compact writer (the `Display` of
/// `serde_json::Value`, which cannot fail). The text is named `json_text`;
/// the contract says nothing more of it.
#[verifier::external_body]
fn serde_compact_text(v: &Json) -> (s: String)
    ensures
        s@ == json_text(v@),
{
    to_serde_value(v).to_string()
}

/// The document a `serde_json` value holds, one value for one: integers
/// that fit as `UInt` or `Int`, other numbers as their decimal text.
#[verifier::external_body]
fn from_serde_value(v: &serde_json::Value) -> Json {
    match v {
        serde_json::Value::Null => Json::Null,
        serde_json::Value::Bool(b) => Json::Bool(*b),
        serde_json::Value::Number(n) => n.as_u64().map(Json::UInt).or(n.as_i64().map(Json::Int)).unwrap_or(Json::Float(n.to_string())),
        serde_json::Value::String(s) => Json::Str(s.clone()),
        serde_json::Value::Array(items) => Json::Array(items.iter().map(from_serde_value).collect()),
        serde_json::Value::Object(m) => Json::Object(m.iter().map(|(k, x)| (k.clone(), from_serde_value(x))).collect()),
    }
}

/// What `serde_json` reads from a text: the document, or its error message.
pub uninterp spec fn json_parse(text: Seq<char>) -> Result<JsonView, Seq<char>>;

/// Reads a JSON text with `serde_json::from_str`; the outcome is named
/// `json_parse`, and the contract says nothing more of it.
#[verifier::external_body]
pub(crate) fn serde_parse_text(text: &str) -> (r: Result<Json, String>)
    ensures
        match json_parse(text@) {
            Ok(v) => r matches Ok(j) && j@ == v,
            Err(e) => r matches Err(m) && m@ == e,
        },
{
    match serde_json::from_str::<serde_json::Value>(text) {
        Ok(v) => Ok(from_serde_value(&v)),
        Err(e) => Err(e.to_string()),
    }
}

/// The compact JSON text of `v`, as `serde_json` writes it.
pub fn to_json_string(v: &Json) -> (s: String)
    ensures
        s@ == json_text(v@),
{
    serde_compact_text(v)
}

pub open spec fn items_view(v: Seq<Json>) -> Seq<JsonView> {
    Seq::new(v.len(), |i: int| v[i]@)
}

pub open spec fn fields_view(f: Seq<(String, Json)>) -> Seq<(Seq<char>, JsonView)> {
    Seq::new(f.len(), |i: int| (f[i].0@, f[i].1@))
}

/// The value of the first member named `key`.
pub open spec fn lookup(fields: Seq<(Seq<char>, JsonView)>, key: Seq<char>) -> Option<JsonView>
    decreases fields.len(),
{
    if fields.len() == 0 {
        None
    } else if fields[0].0 == key {
        Some(fields[0].1)
    } else {
        lookup(fields.drop_first(), key)
    }
}

/// The member `key` of an object; nothing for other documents.
pub open spec fn jget(v: JsonView, key: Seq<char>) -> Option<JsonView> {
    match v {
        JsonView::Object(fields) => lookup(fields, key),
        _ => None,
    }
}

/// The element at `i` of an array; nothing for other documents.
pub open spec fn jat(v: JsonView, i: int) -> Option<JsonView> {
    match v {
        JsonView::Array(items) => if 0 <= i < items.len() { Some(items[i]) } else { None },
        _ => None,
    }
}

pub open spec fn jstr(v: Option<JsonView>) -> Option<Seq<char>> {
    match v {
        Some(JsonView::Str(s)) => Some(s),
        _ => None,
    }
}

impl Json {
    pub fn object(fields: Vec<(String, Json)>) -> (j: Json)
        ensures
            j@ == JsonView::Object(fields_view(fields@)),
    {
        let j = Json::Object(fields);
        assert(j@->Object_0 =~= fields_view(fields@));
        j
    }

    pub fn array(items: Vec<Json>) -> (j: Json)
        ensures
            j@ == JsonView::Array(items_view(items@)),
    {
        let j = Json::Array(items);
        assert(j@->Array_0 =~= items_view(items@));
        j
    }

    pub fn string(s: String) -> (j: Json)
        ensures
            j@ == JsonView::Str(s@),
    {
        Json::Str(s)
    }

    pub fn from_str(s: &str) -> (j: Json)
        ensures
            j@ == JsonView::Str(s@),
    {
        Json::Str(s.to_owned())
    }

    /// The member `key` of an object.
    pub fn get(&self, key: &str) -> (r: Option<&Json>)
        ensures
            match jget(self@, key@) {
                Some(v) => r matches Some(x) && x@ == v,
                None => r is None,
            },
    {
        match self {
            Json::Object(fields) => {
                let ghost fv = self@->Object_0;
                assert(fv =~= fields_view(fields@));
                let mut i: usize = 0;
                assert(fv.subrange(0, fv.len() as int) =~= fv);
                while i < fields.len()
                    invariant
                        i <= fields@.len(),
                        fv == fields_view(fields@),
                        jget(self@, key@) == lookup(fv, key@),
                        lookup(fv, key@) == lookup(fv.subrange(i as int, fv.len() as int), key@),
                    decreases fields@.len() - i,
                {
                    let ghost rest = fv.subrange(i as int, fv.len() as int);
                    if crate::messages::file::str_eq(fields[i].0.as_str(), key) {
                        assert(rest[0] == fv[i as int]);
                        return Some(&fields[i].1);
                    }
                    proof {
                        assert(rest.drop_first() =~= fv.subrange(i + 1, fv.len() as int));
                    }
                    i = i + 1;
                }
                None
            },
            _ => None,
        }
    }

    /// The element at `i` of an array.
    pub fn at(&self, i: usize) -> (r: Option<&Json>)
        ensures
            match jat(self@, i as int) {
                Some(v) => r matches Some(x) && x@ == v,
                None => r is None,
            },
    {
        match self {
            Json::Array(items) => {
                if i < items.len() {
                    Some(&items[i])
                } else {
                    None
                }
            },
            _ => None,
        }
    }

    pub fn as_str(&self) -> (r: Option<&str>)
        ensures
            match self@ {
                JsonView::Str(s) => r matches Some(x) && x@ == s,
                _ => r is None,
            },
    {
        match self {
            Json::Str(s) => Some(s.as_str()),
            _ => None,
        }
    }

    /// The value as an unsigned integer, when it is one.
    pub fn as_u64(&self) -> (r: Option<u64>)
        ensures
            match self@ {
                JsonView::UInt(n) => r == Some(n),
                _ => r is None,
            },
    {
        match self {
            Json::UInt(n) => Some(*n),
            _ => None,
        }
    }

    pub fn as_array(&self) -> (r: Option<&Vec<Json>>)
        ensures
            match self@ {
                JsonView::Array(items) => r matches Some(x) && items_view(x@) == items,
                _ => r is None,
            },
    {
        match self {
            Json::Array(items) => {
                assert(self@->Array_0 =~= items_view(items@));
                Some(items)
            },
            _ => None,
        }
    }

    pub fn is_object(&self) -> (b: bool)
        ensures
            b == (self@ is Object),
    {
        match self {
            Json::Object(_) => true,
            _ => false,
        }
    }

    pub fn is_string(&self) -> (b: bool)
        ensures
            b == (self@ is Str),
    {
        match self {
            Json::Str(_) => true,
            _ => false,
        }
    }
}

} // verus!
