use vstd::prelude::*;

use crate::json::{Json, JsonView};

verus! {

/// Sampling settings of a request. Temperature and top-p are numbers that
/// the library carries as JSON number documents, as they go on the wire.
pub struct ChatOptions {
    pub temperature: Option<Json>,
    pub top_p: Option<Json>,
    pub max_tokens: Option<u32>,
}

/// The view of an optional JSON document.
pub open spec fn opt_json(o: Option<Json>) -> Option<JsonView> {
    match o {
        Some(j) => Some(j@),
        None => None,
    }
}

impl Default for ChatOptions {
    fn default() -> (o: Self)
        ensures
            o.temperature is None,
            o.top_p is None,
            o.max_tokens is None,
    {
        ChatOptions { temperature: None, top_p: None, max_tokens: None }
    }
}

/// A copy of an optional JSON document.
pub fn clone_opt_json(o: &Option<Json>) -> (r: Option<Json>)
    ensures
        opt_json(r) == opt_json(*o),
{
    match o {
        Some(j) => Some(j.clone()),
        None => None,
    }
}

} // verus!
