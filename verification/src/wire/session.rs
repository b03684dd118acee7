use vstd::prelude::*;

use crate::chars::{push_str, string_from_chars};
use crate::chat::ChatResponse;
use crate::metadata::opt_str;
use crate::tools::clone_opt_string;

verus! {

/// How a Responses API client chains its requests: when chaining is on, each
/// request names the id of the last response it got.
pub struct ResponseChain {
    pub use_previous_response_id: bool,
    pub last_response_id: Option<String>,
}

/// The id the next request of a chain names: the last response's, when
/// chaining is on.
pub open spec fn chained_id(c: ResponseChain) -> Option<Seq<char>> {
    if c.use_previous_response_id {
        opt_str(c.last_response_id)
    } else {
        None
    }
}

impl ResponseChain {
    /// A chain that has seen no response yet.
    pub fn new(use_previous_response_id: bool) -> (c: ResponseChain)
        ensures
            c.use_previous_response_id == use_previous_response_id,
            c.last_response_id is None,
    {
        ResponseChain { use_previous_response_id, last_response_id: None }
    }

    /// The id the next request names: the last response's, when chaining is
    /// on.
    pub fn previous_response_id(&self) -> (r: Option<String>)
        ensures
            opt_str(r) == chained_id(*self),
    {
        if self.use_previous_response_id {
            clone_opt_string(&self.last_response_id)
        } else {
            None
        }
    }

    /// Records the id of a completed response, when chaining is on and the
    /// response has one.
    pub fn record_response_id(&mut self, id: Option<String>)
        ensures
            final(self).use_previous_response_id == old(self).use_previous_response_id,
            opt_str(final(self).last_response_id) == if old(self).use_previous_response_id && id is Some {
                opt_str(id)
            } else {
                opt_str(old(self).last_response_id)
            },
    {
        if self.use_previous_response_id {
            match id {
                Some(i) => {
                    self.last_response_id = Some(i);
                },
                None => {},
            }
        }
    }

    /// Records the id of a streamed response from its metadata.
    pub fn on_stream_done(&mut self, response: &ChatResponse)
        ensures
            final(self).use_previous_response_id == old(self).use_previous_response_id,
            opt_str(final(self).last_response_id) == if old(self).use_previous_response_id && (response.metadata is Some
                && response.metadata->Some_0.id is Some) {
                opt_str(response.metadata->Some_0.id)
            } else {
                opt_str(old(self).last_response_id)
            },
    {
        if self.use_previous_response_id {
            match &response.metadata {
                Some(m) => match &m.id {
                    Some(id) => {
                        self.last_response_id = Some(id.clone());
                    },
                    None => {},
                },
                None => {},
            }
        }
    }
}

/// What a chain names after recording a response id: that id when chaining
/// is on, and nothing ever when it is off, whatever was recorded.
pub proof fn lemma_recorded_id_is_named(before: ResponseChain, after: ResponseChain, id: Seq<char>)
    requires
        after.use_previous_response_id == before.use_previous_response_id,
        opt_str(after.last_response_id) == if before.use_previous_response_id {
            Some(id)
        } else {
            opt_str(before.last_response_id)
        },
    ensures
        before.use_previous_response_id ==> chained_id(after) == Some(id),
        !before.use_previous_response_id ==> chained_id(after) is None,
{
}

/// The path of an endpoint under a base path: the base, `/` and the name.
pub open spec fn endpoint_path(base: Seq<char>, name: Seq<char>) -> Seq<char> {
    base + "/"@ + name
}

pub fn join_path(base: &str, name: &str) -> (p: String)
    ensures
        p@ == endpoint_path(base@, name@),
{
    let mut out: Vec<char> = Vec::new();
    push_str(&mut out, base);
    push_str(&mut out, "/");
    push_str(&mut out, name);
    string_from_chars(&out)
}

/// The `Authorization` header value for an API key.
pub open spec fn bearer(key: Seq<char>) -> Seq<char> {
    "Bearer "@ + key
}

pub fn bearer_header(key: &str) -> (h: String)
    ensures
        h@ == bearer(key@),
{
    let mut out: Vec<char> = Vec::new();
    push_str(&mut out, "Bearer ");
    push_str(&mut out, key);
    string_from_chars(&out)
}

} // verus!
