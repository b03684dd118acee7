use vstd::prelude::*;

use crate::json::{Json, JsonView};
use crate::metadata::opt_str;

verus! {

/// A call of a tool that the model asked for.
#[derive(Debug)]
pub struct FunctionCall {
    pub id: Option<String>,
    pub name: String,
    pub arguments: Json,
}

/// The answer of a tool to a call.
#[derive(Debug)]
pub struct FunctionResponse {
    pub id: Option<String>,
    pub name: String,
    pub result: Json,
}

pub struct FunctionCallView {
    pub id: Option<Seq<char>>,
    pub name: Seq<char>,
    pub arguments: JsonView,
}

pub struct FunctionResponseView {
    pub id: Option<Seq<char>>,
    pub name: Seq<char>,
    pub result: JsonView,
}

impl View for FunctionCall {
    type V = FunctionCallView;

    open spec fn view(&self) -> FunctionCallView {
        FunctionCallView { id: opt_str(self.id), name: self.name@, arguments: self.arguments@ }
    }
}

impl View for FunctionResponse {
    type V = FunctionResponseView;

    open spec fn view(&self) -> FunctionResponseView {
        FunctionResponseView { id: opt_str(self.id), name: self.name@, result: self.result@ }
    }
}

/// Wraps `tools_rs::CallId::new`: a fresh random (version 4 UUID) call id in
/// its hyphenated text form, which is 36 characters long. Which id comes out
/// is left open.
#[verifier::external_body]
fn fresh_call_id() -> (id: String)
    ensures
        id@.len() == 36,
{
    String::from(tools_rs::CallId::new())
}

pub fn clone_opt_string(o: &Option<String>) -> (r: Option<String>)
    ensures
        r == *o,
{
    match o {
        Some(s) => Some(s.clone()),
        None => None,
    }
}

impl FunctionCall {
    /// A call of `name` with `arguments` under a fresh id.
    pub fn new(name: String, arguments: Json) -> (fc: FunctionCall)
        ensures
            fc.name == name,
            fc.arguments == arguments,
            fc.id matches Some(id) && id@.len() == 36,
    {
        FunctionCall { id: Some(fresh_call_id()), name, arguments }
    }
}

impl Clone for FunctionCall {
    fn clone(&self) -> (r: Self)
        ensures
            r@ == self@,
    {
        FunctionCall {
            id: clone_opt_string(&self.id),
            name: self.name.clone(),
            arguments: self.arguments.clone(),
        }
    }
}

impl Clone for FunctionResponse {
    fn clone(&self) -> (r: Self)
        ensures
            r@ == self@,
    {
        FunctionResponse {
            id: clone_opt_string(&self.id),
            name: self.name.clone(),
            result: self.result.clone(),
        }
    }
}

} // verus!
