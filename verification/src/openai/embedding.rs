use vstd::prelude::*;

use crate::error::{ChatError, ChatErrorView};
use crate::json::{items_view, Json, JsonView};
use crate::messages::content::ContentView;
use crate::messages::file::{File, FileView};
use crate::messages::parts::{parts_view, PartEnum, PartView};
use crate::messages::Messages;
use crate::metadata::{opt_str, Metadata, MetadataView};
use crate::openai::stream::{usage_from, usage_of, UsageCounts};
use crate::wire::encoding::{data_uri, make_data_uri};
use crate::wire::responses::push_view;

verus! {

/// An OpenAI embedding request: the model and what to embed.
pub struct OpenAIEmbeddingRequest {
    pub model: String,
    pub input: Json,
}

/// What a part contributes to the input of an embedding request: its text,
/// or the address of a file (a data URI for bytes); other parts contribute
/// nothing.
pub open spec fn embed_input(p: PartView) -> Option<Seq<char>> {
    match p {
        PartView::Text(t) => Some(t),
        PartView::Reasoning(t) => Some(t),
        PartView::File(FileView::Bytes { mime, bytes }) => Some(data_uri(mime, bytes)),
        PartView::File(FileView::Url { url, .. }) => Some(url),
        _ => None,
    }
}

/// The inputs of a list of parts, in order.
pub open spec fn embed_inputs(ps: Seq<PartView>) -> Seq<Seq<char>>
    decreases ps.len(),
{
    if ps.len() == 0 {
        Seq::empty()
    } else {
        match embed_input(ps.last()) {
            Some(t) => embed_inputs(ps.drop_last()).push(t),
            None => embed_inputs(ps.drop_last()),
        }
    }
}

pub open spec fn str_items(ts: Seq<Seq<char>>) -> Seq<JsonView> {
    ts.map_values(|t: Seq<char>| JsonView::Str(t))
}

/// The embedding request for a conversation: the inputs of its last
/// message, one text alone or several as an array; an error when there is
/// no message or nothing in it to embed.
pub open spec fn embedding_request(cs: Seq<ContentView>) -> Result<JsonView, ChatErrorView> {
    if cs.len() == 0 {
        Err(ChatErrorView::InvalidResponse("Sent empty content to embed"@))
    } else {
        let inputs = embed_inputs(cs.last().parts);
        if inputs.len() == 0 {
            Err(ChatErrorView::InvalidResponse("Sent empty content to embed"@))
        } else if inputs.len() == 1 {
            Ok(JsonView::Str(inputs[0]))
        } else {
            Ok(JsonView::Array(str_items(inputs)))
        }
    }
}

impl OpenAIEmbeddingRequest {
    /// The request that embeds the last message of `messages` with
    /// `model_name`.
    pub fn from_core(model_name: &str, messages: &Messages) -> (r: Result<OpenAIEmbeddingRequest, ChatError>)
        ensures
            match embedding_request(messages@) {
                Ok(v) => r matches Ok(req) && req.model@ == model_name@ && req.input@ == v,
                Err(e) => r matches Err(x) && x@ == e,
            },
    {
        let last = match messages.last() {
            Some(c) => c,
            None => {
                return Err(ChatError::InvalidResponse("Sent empty content to embed".to_owned()));
            },
        };
        let ps = &last.parts.0;
        let ghost pv = last@.parts;
        assert(pv =~= parts_view(ps@));
        let mut inputs: Vec<Json> = Vec::new();
        let mut i: usize = 0;
        while i < ps.len()
            invariant
                i <= ps@.len(),
                pv == parts_view(ps@),
                items_view(inputs@) == str_items(embed_inputs(pv.take(i as int))),
            decreases ps@.len() - i,
        {
            proof {
                assert(pv.take(i + 1).drop_last() =~= pv.take(i as int));
            }
            let ghost before = embed_inputs(pv.take(i as int));
            match &ps[i] {
                PartEnum::Text(t) | PartEnum::Reasoning(t) => {
                    push_view(&mut inputs, Json::string(t.text.clone()));
                    assert(str_items(before.push(t@)) =~= str_items(before).push(JsonView::Str(t@)));
                },
                PartEnum::File(File::Bytes(raw)) => {
                    let uri = make_data_uri(raw.mimetype.as_str(), raw.bytes.as_slice());
                    let ghost u = uri@;
                    push_view(&mut inputs, Json::string(uri));
                    assert(str_items(before.push(u)) =~= str_items(before).push(JsonView::Str(u)));
                },
                PartEnum::File(File::Url(url)) => {
                    push_view(&mut inputs, Json::string(url.url.clone()));
                    assert(str_items(before.push(url.url@)) =~= str_items(before).push(JsonView::Str(url.url@)));
                },
                _ => {},
            }
            i = i + 1;
        }
        assert(pv.take(ps@.len() as int) =~= pv);
        if inputs.len() == 0 {
            return Err(ChatError::InvalidResponse("Sent empty content to embed".to_owned()));
        }
        let ghost ei = embed_inputs(pv);
        assert(items_view(inputs@)[0] == str_items(ei)[0]);
        let input = if inputs.len() == 1 {
            inputs.pop().unwrap()
        } else {
            Json::array(inputs)
        };
        Ok(OpenAIEmbeddingRequest { model: model_name.to_owned(), input })
    }
}

/// What an embedding reply with `count` embeddings reports: an error unless
/// it holds exactly one, else its model and usage.
pub fn embedding_metadata(count: usize, model: Option<String>, usage: Option<UsageCounts>) -> (r: Result<
    Metadata,
    ChatError,
>)
    ensures
        count == 0 ==> (r matches Err(e) && e@ == ChatErrorView::InvalidResponse(
            "No embedding data returned by OpenAI"@,
        )),
        count > 1 ==> (r matches Err(e) && e@ == ChatErrorView::InvalidResponse("Expected a single embedding result"@)),
        count == 1 ==> (r matches Ok(m) && m@ == (MetadataView {
            model_slug: opt_str(model),
            usage: usage_from(usage),
            ..MetadataView::empty()
        })),
{
    if count == 0 {
        return Err(ChatError::InvalidResponse("No embedding data returned by OpenAI".to_owned()));
    }
    if count > 1 {
        return Err(ChatError::InvalidResponse("Expected a single embedding result".to_owned()));
    }
    let mut m = Metadata::default();
    m.model_slug = model;
    m.usage = usage_of(&usage);
    Ok(m)
}

} // verus!
