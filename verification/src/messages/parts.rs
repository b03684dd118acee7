use vstd::prelude::*;

use crate::json::{Json, JsonView};
use crate::messages::file::{File, FileView};
use crate::messages::text::Text;
use crate::tools::{FunctionCall, FunctionCallView, FunctionResponse, FunctionResponseView};

verus! {

/// One part of a message.
#[derive(Debug)]
pub enum PartEnum {
    Reasoning(Text),
    Text(Text),
    FunctionCall(FunctionCall),
    FunctionResponse(FunctionResponse),
    Structured(Json),
    File(File),
}

pub enum PartView {
    Reasoning(Seq<char>),
    Text(Seq<char>),
    FunctionCall(FunctionCallView),
    FunctionResponse(FunctionResponseView),
    Structured(JsonView),
    File(FileView),
}

impl View for PartEnum {
    type V = PartView;

    open spec fn view(&self) -> PartView {
        match self {
            PartEnum::Reasoning(t) => PartView::Reasoning(t@),
            PartEnum::Text(t) => PartView::Text(t@),
            PartEnum::FunctionCall(fc) => PartView::FunctionCall(fc@),
            PartEnum::FunctionResponse(fr) => PartView::FunctionResponse(fr@),
            PartEnum::Structured(v) => PartView::Structured(v@),
            PartEnum::File(f) => PartView::File(f@),
        }
    }
}

impl Clone for PartEnum {
    fn clone(&self) -> (p: Self)
        ensures
            p@ == self@,
    {
        match self {
            PartEnum::Reasoning(t) => PartEnum::Reasoning(t.clone()),
            PartEnum::Text(t) => PartEnum::Text(t.clone()),
            PartEnum::FunctionCall(fc) => PartEnum::FunctionCall(fc.clone()),
            PartEnum::FunctionResponse(fr) => PartEnum::FunctionResponse(fr.clone()),
            PartEnum::Structured(v) => PartEnum::Structured(v.clone()),
            PartEnum::File(f) => PartEnum::File(f.clone()),
        }
    }
}

impl Default for PartEnum {
    fn default() -> (p: Self)
        ensures
            p@ == PartView::Text(Seq::empty()),
    {
        PartEnum::Text(Text::default())
    }
}

impl PartEnum {
    pub fn function_call(&self) -> (r: Option<FunctionCall>)
        ensures
            match self@ {
                PartView::FunctionCall(fc) => r matches Some(c) && c@ == fc,
                _ => r is None,
            },
    {
        match self {
            PartEnum::FunctionCall(fc) => Some(fc.clone()),
            _ => None,
        }
    }

    pub fn function_response(&self) -> (r: Option<FunctionResponse>)
        ensures
            match self@ {
                PartView::FunctionResponse(fr) => r matches Some(c) && c@ == fr,
                _ => r is None,
            },
    {
        match self {
            PartEnum::FunctionResponse(fr) => Some(fr.clone()),
            _ => None,
        }
    }

    pub fn text(&self) -> (r: Option<Text>)
        ensures
            match self@ {
                PartView::Text(t) => r matches Some(c) && c@ == t,
                _ => r is None,
            },
    {
        match self {
            PartEnum::Text(t) => Some(t.clone()),
            _ => None,
        }
    }

    pub fn reasoning(&self) -> (r: Option<Text>)
        ensures
            match self@ {
                PartView::Reasoning(t) => r matches Some(c) && c@ == t,
                _ => r is None,
            },
    {
        match self {
            PartEnum::Reasoning(t) => Some(t.clone()),
            _ => None,
        }
    }

    pub fn structured(&self) -> (r: Option<Json>)
        ensures
            match self@ {
                PartView::Structured(v) => r matches Some(c) && c@ == v,
                _ => r is None,
            },
    {
        match self {
            PartEnum::Structured(v) => Some(v.clone()),
            _ => None,
        }
    }

    pub fn file(&self) -> (r: Option<File>)
        ensures
            match self@ {
                PartView::File(f) => r matches Some(c) && c@ == f,
                _ => r is None,
            },
    {
        match self {
            PartEnum::File(f) => Some(f.clone()),
            _ => None,
        }
    }

    pub fn from_reasoning(s: String) -> (p: PartEnum)
        ensures
            p@ == PartView::Reasoning(s@),
    {
        PartEnum::Reasoning(Text::new(s))
    }

    pub fn from_text(s: String) -> (p: PartEnum)
        ensures
            p@ == PartView::Text(s@),
    {
        PartEnum::Text(Text::new(s))
    }

    pub fn from_function_call(fc: FunctionCall) -> (p: PartEnum)
        ensures
            p@ == PartView::FunctionCall(fc@),
    {
        PartEnum::FunctionCall(fc)
    }

    pub fn from_function_response(fr: FunctionResponse) -> (p: PartEnum)
        ensures
            p@ == PartView::FunctionResponse(fr@),
    {
        PartEnum::FunctionResponse(fr)
    }

    pub fn from_structured(value: Json) -> (p: PartEnum)
        ensures
            p@ == PartView::Structured(value@),
    {
        PartEnum::Structured(value)
    }

    pub fn from_file(file: File) -> (p: PartEnum)
        ensures
            p@ == PartView::File(file@),
    {
        PartEnum::File(file)
    }
}

/// The parts of one message, in order.
#[derive(Debug)]
pub struct Parts(pub Vec<PartEnum>);

pub open spec fn parts_view(v: Seq<PartEnum>) -> Seq<PartView> {
    v.map_values(|p: PartEnum| p@)
}

impl View for Parts {
    type V = Seq<PartView>;

    open spec fn view(&self) -> Seq<PartView> {
        parts_view(self.0@)
    }
}

/// The texts of the text parts, in order.
pub open spec fn texts_of(s: Seq<PartView>) -> Seq<Seq<char>>
    decreases s.len(),
{
    if s.len() == 0 {
        Seq::empty()
    } else {
        let rest = texts_of(s.drop_last());
        match s.last() {
            PartView::Text(t) => rest.push(t),
            _ => rest,
        }
    }
}

/// The structured values, in order.
pub open spec fn structured_of(s: Seq<PartView>) -> Seq<JsonView>
    decreases s.len(),
{
    if s.len() == 0 {
        Seq::empty()
    } else {
        let rest = structured_of(s.drop_last());
        match s.last() {
            PartView::Structured(v) => rest.push(v),
            _ => rest,
        }
    }
}

/// The function calls, in order.
pub open spec fn calls_of(s: Seq<PartView>) -> Seq<FunctionCallView>
    decreases s.len(),
{
    if s.len() == 0 {
        Seq::empty()
    } else {
        let rest = calls_of(s.drop_last());
        match s.last() {
            PartView::FunctionCall(fc) => rest.push(fc),
            _ => rest,
        }
    }
}

/// The function responses, in order.
pub open spec fn responses_of(s: Seq<PartView>) -> Seq<FunctionResponseView>
    decreases s.len(),
{
    if s.len() == 0 {
        Seq::empty()
    } else {
        let rest = responses_of(s.drop_last());
        match s.last() {
            PartView::FunctionResponse(fr) => rest.push(fr),
            _ => rest,
        }
    }
}

/// The function responses that carry the id `id`, in order.
pub open spec fn responses_with_id(s: Seq<PartView>, id: Seq<char>) -> Seq<FunctionResponseView>
    decreases s.len(),
{
    if s.len() == 0 {
        Seq::empty()
    } else {
        let rest = responses_with_id(s.drop_last(), id);
        match s.last() {
            PartView::FunctionResponse(fr) => if fr.id == Some(id) {
                rest.push(fr)
            } else {
                rest
            },
            _ => rest,
        }
    }
}

impl Default for Parts {
    fn default() -> (p: Self)
        ensures
            p@ == Seq::<PartView>::empty(),
    {
        Parts(Vec::new())
    }
}

impl Clone for Parts {
    fn clone(&self) -> (p: Self)
        ensures
            p@ == self@,
    {
        let mut out: Vec<PartEnum> = Vec::new();
        let mut i: usize = 0;
        while i < self.0.len()
            invariant
                i <= self.0@.len(),
                out@.len() == i,
                forall|k: int| 0 <= k < i ==> (#[trigger] out@[k])@ == self.0@[k]@,
            decreases self.0@.len() - i,
        {
            out.push(self.0[i].clone());
            i = i + 1;
        }
        let p = Parts(out);
        assert(p@ =~= self@);
        p
    }
}

impl Parts {
    pub fn text_response(&self) -> (r: Option<&Text>)
        ensures
            texts_of(self@).len() == 0 ==> r is None,
            texts_of(self@).len() > 0 ==> (r matches Some(t) && t@ == texts_of(self@)[0]),
    {
        let n = self.0.len();
        let mut i: usize = 0;
        while i < n
            invariant
                n == self.0@.len(),
                i <= n,
                texts_of(self@.take(i as int)).len() == 0,
            decreases n - i,
        {
            proof {
                assert(self@.take(i + 1).drop_last() =~= self@.take(i as int));
            }
            match &self.0[i] {
                PartEnum::Text(t) => {
                    proof {
                        lemma_texts_of_prefix(self@, i as int + 1);
                    }
                    return Some(t);
                },
                _ => {},
            }
            i = i + 1;
        }
        proof {
            assert(self@.take(n as int) =~= self@);
        }
        None
    }

    /// The number of parts.
    pub fn len(&self) -> (n: usize)
        ensures
            n == self@.len(),
    {
        self.0.len()
    }

    pub fn is_empty(&self) -> (b: bool)
        ensures
            b == (self@.len() == 0),
    {
        self.0.len() == 0
    }

    pub fn structured_response(&self) -> (r: Option<&Json>)
        ensures
            structured_of(self@).len() == 0 ==> r is None,
            structured_of(self@).len() > 0 ==> (r matches Some(v) && v@ == structured_of(self@)[0]),
    {
        let n = self.0.len();
        let mut i: usize = 0;
        while i < n
            invariant
                n == self.0@.len(),
                i <= n,
                structured_of(self@.take(i as int)).len() == 0,
            decreases n - i,
        {
            proof {
                assert(self@.take(i + 1).drop_last() =~= self@.take(i as int));
            }
            match &self.0[i] {
                PartEnum::Structured(v) => {
                    proof {
                        lemma_structured_of_prefix(self@, i as int + 1);
                    }
                    return Some(v);
                },
                _ => {},
            }
            i = i + 1;
        }
        proof {
            assert(self@.take(n as int) =~= self@);
        }
        None
    }

    pub fn push(&mut self, part: PartEnum) -> (r: &mut Self)
        ensures
            r@ == old(self)@.push(part@),
            final(self)@ == final(r)@,
    {
        self.0.push(part);
        proof {
            assert(parts_view(self.0@) =~= parts_view(old(self).0@).push(part@));
        }
        self
    }

    pub fn extend(&mut self, parts: Parts) -> (r: &mut Self)
        ensures
            r@ == old(self)@ + parts@,
            final(self)@ == final(r)@,
    {
        let mut v = parts.0;
        self.0.append(&mut v);
        proof {
            assert(parts_view(self.0@) =~= parts_view(old(self).0@) + parts_view(parts.0@));
        }
        self
    }

    pub fn last(&self) -> (r: Option<&PartEnum>)
        ensures
            self@.len() == 0 ==> r is None,
            self@.len() > 0 ==> (r matches Some(p) && p@ == self@.last()),
    {
        let n = self.0.len();
        if n == 0 {
            None
        } else {
            Some(&self.0[n - 1])
        }
    }

    /// The text parts, in order.
    pub fn text_parts(&self) -> (r: Vec<&Text>)
        ensures
            r@.map_values(|t: &Text| t@) == texts_of(self@),
    {
        let mut out: Vec<&Text> = Vec::new();
        let n = self.0.len();
        let mut i: usize = 0;
        while i < n
            invariant
                n == self.0@.len(),
                i <= n,
                out@.map_values(|t: &Text| t@) == texts_of(self@.take(i as int)),
            decreases n - i,
        {
            proof {
                assert(self@.take(i + 1).drop_last() =~= self@.take(i as int));
            }
            match &self.0[i] {
                PartEnum::Text(t) => {
                    out.push(t);
                    proof {
                        assert(out@.map_values(|t: &Text| t@) =~= texts_of(self@.take(i as int)).push(t@));
                    }
                },
                _ => {},
            }
            i = i + 1;
        }
        proof {
            assert(self@.take(n as int) =~= self@);
        }
        out
    }

    /// The function calls, in order.
    pub fn function_calls(&self) -> (r: Vec<&FunctionCall>)
        ensures
            r@.map_values(|c: &FunctionCall| c@) == calls_of(self@),
    {
        let mut out: Vec<&FunctionCall> = Vec::new();
        let n = self.0.len();
        let mut i: usize = 0;
        while i < n
            invariant
                n == self.0@.len(),
                i <= n,
                out@.map_values(|c: &FunctionCall| c@) == calls_of(self@.take(i as int)),
            decreases n - i,
        {
            proof {
                assert(self@.take(i + 1).drop_last() =~= self@.take(i as int));
            }
            match &self.0[i] {
                PartEnum::FunctionCall(fc) => {
                    out.push(fc);
                    proof {
                        assert(out@.map_values(|c: &FunctionCall| c@) =~= calls_of(self@.take(i as int)).push(fc@));
                    }
                },
                _ => {},
            }
            i = i + 1;
        }
        proof {
            assert(self@.take(n as int) =~= self@);
        }
        out
    }

    /// The function responses, in order.
    pub fn function_responses(&self) -> (r: Vec<&FunctionResponse>)
        ensures
            r@.map_values(|c: &FunctionResponse| c@) == responses_of(self@),
    {
        let mut out: Vec<&FunctionResponse> = Vec::new();
        let n = self.0.len();
        let mut i: usize = 0;
        while i < n
            invariant
                n == self.0@.len(),
                i <= n,
                out@.map_values(|c: &FunctionResponse| c@) == responses_of(self@.take(i as int)),
            decreases n - i,
        {
            proof {
                assert(self@.take(i + 1).drop_last() =~= self@.take(i as int));
            }
            match &self.0[i] {
                PartEnum::FunctionResponse(fr) => {
                    out.push(fr);
                    proof {
                        assert(out@.map_values(|c: &FunctionResponse| c@) =~= responses_of(self@.take(i as int)).push(fr@));
                    }
                },
                _ => {},
            }
            i = i + 1;
        }
        proof {
            assert(self@.take(n as int) =~= self@);
        }
        out
    }

    /// The first function response that carries the id `id`.
    pub fn function_response(&self, id: &str) -> (r: Option<&FunctionResponse>)
        ensures
            responses_with_id(self@, id@).len() == 0 ==> r is None,
            responses_with_id(self@, id@).len() > 0 ==> (r matches Some(fr) && fr@ == responses_with_id(self@, id@)[0]),
    {
        let n = self.0.len();
        let mut i: usize = 0;
        while i < n
            invariant
                n == self.0@.len(),
                i <= n,
                responses_with_id(self@.take(i as int), id@).len() == 0,
            decreases n - i,
        {
            proof {
                assert(self@.take(i + 1).drop_last() =~= self@.take(i as int));
            }
            match &self.0[i] {
                PartEnum::FunctionResponse(fr) => {
                    let matches = match &fr.id {
                        Some(fid) => fid.as_str().to_owned() == id.to_owned(),
                        None => false,
                    };
                    if matches {
                        proof {
                            lemma_responses_with_id_prefix(self@, id@, i as int + 1);
                        }
                        return Some(fr);
                    }
                },
                _ => {},
            }
            i = i + 1;
        }
        proof {
            assert(self@.take(n as int) =~= self@);
        }
        None
    }
}

/// The first text of a sequence is the first text of any prefix that has one.
pub proof fn lemma_texts_of_prefix(s: Seq<PartView>, k: int)
    requires
        0 <= k <= s.len(),
        texts_of(s.take(k)).len() > 0,
    ensures
        texts_of(s).len() > 0,
        texts_of(s)[0] == texts_of(s.take(k))[0],
    decreases s.len(),
{
    if k < s.len() {
        assert(s.drop_last().take(k) =~= s.take(k));
        lemma_texts_of_prefix(s.drop_last(), k);
    } else {
        assert(s.take(k) =~= s);
    }
}

/// The first structured value of a sequence is that of any prefix that has one.
pub proof fn lemma_structured_of_prefix(s: Seq<PartView>, k: int)
    requires
        0 <= k <= s.len(),
        structured_of(s.take(k)).len() > 0,
    ensures
        structured_of(s).len() > 0,
        structured_of(s)[0] == structured_of(s.take(k))[0],
    decreases s.len(),
{
    if k < s.len() {
        assert(s.drop_last().take(k) =~= s.take(k));
        lemma_structured_of_prefix(s.drop_last(), k);
    } else {
        assert(s.take(k) =~= s);
    }
}

/// The first response with an id is that of any prefix that has one.
pub proof fn lemma_responses_with_id_prefix(s: Seq<PartView>, id: Seq<char>, k: int)
    requires
        0 <= k <= s.len(),
        responses_with_id(s.take(k), id).len() > 0,
    ensures
        responses_with_id(s, id).len() > 0,
        responses_with_id(s, id)[0] == responses_with_id(s.take(k), id)[0],
    decreases s.len(),
{
    if k < s.len() {
        assert(s.drop_last().take(k) =~= s.take(k));
        lemma_responses_with_id_prefix(s.drop_last(), id, k);
    } else {
        assert(s.take(k) =~= s);
    }
}


/// The text `{:?}` gives for a string: the string quoted, with the characters
/// Rust escapes in debug output escaped.
pub uninterp spec fn str_debug(s: Seq<char>) -> Seq<char>;

/// Wraps the `Debug` formatting of `str`; its result is named `str_debug`.
#[verifier::external_body]
fn debug_text(s: &str) -> (r: String)
    ensures
        r@ == str_debug(s@),
{
    format!("{:?}", s)
}

/// How a part displays: text as it is, structured data as compact JSON,
/// calls and responses by their function's name, a file by its address and
/// MIME type or by its MIME type.
pub open spec fn part_text(p: PartView) -> Seq<char> {
    match p {
        PartView::Structured(v) => crate::json::json_text(v),
        PartView::Reasoning(t) => t,
        PartView::Text(t) => t,
        PartView::FunctionCall(fc) => fc.name,
        PartView::FunctionResponse(fr) => fr.name,
        PartView::File(FileView::Url { url, mimetype }) => url + " "@ + match mimetype {
            Some(m) => "Some(MimeType("@ + str_debug(m) + "))"@,
            None => "None"@,
        },
        PartView::File(FileView::Bytes { mime, .. }) => mime,
    }
}

impl PartEnum {
    /// The part as it displays.
    pub fn to_string(&self) -> (s: String)
        ensures
            s@ == part_text(self@),
    {
        match self {
            PartEnum::Structured(v) => crate::json::to_json_string(v),
            PartEnum::Reasoning(t) => t.text.clone(),
            PartEnum::Text(t) => t.text.clone(),
            PartEnum::FunctionCall(fc) => fc.name.clone(),
            PartEnum::FunctionResponse(fr) => fr.name.clone(),
            PartEnum::File(File::Url(u)) => {
                let mime = match &u.mimetype {
                    Some(m) => "Some(MimeType(".to_owned().concat(debug_text(m.0.as_str()).as_str()).concat("))"),
                    None => "None".to_owned(),
                };
                u.url.clone().concat(" ").concat(mime.as_str())
            },
            PartEnum::File(File::Bytes(raw)) => raw.mimetype.0.clone(),
        }
    }
}

} // verus!
