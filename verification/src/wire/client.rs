use vstd::prelude::*;

use core::marker::PhantomData;

use crate::json::{items_view, Json, JsonView};
use crate::metadata::opt_str;
use crate::wire::endpoint::{base_url_parts, base_url_spec, BaseUrl};
use crate::wire::session::ResponseChain;

verus! {

/// The settings of a Responses API client.
pub struct ResponsesClient {
    pub model_name: String,
    pub api_key: String,
    pub endpoint: BaseUrl,
    /// Tool declarations sent with every request, as they are.
    pub extra_tool_declarations: Vec<Json>,
    pub reasoning_effort: Option<String>,
    pub chain: ResponseChain,
    pub store: Option<bool>,
}

/// Builder state: no model chosen yet.
pub struct WithoutModel;

/// Builder state: a model is chosen.
pub struct WithModel;

/// Builder state: no base URL given yet.
pub struct WithoutUrl;

/// Builder state: a base URL is given.
pub struct WithUrl;

/// What a Responses builder holds, whatever its state.
pub struct ResponsesSettings {
    pub model_name: Option<Seq<char>>,
    pub api_key: Option<Seq<char>>,
    pub scheme: Seq<char>,
    pub host: Seq<char>,
    pub base_path: Seq<char>,
    pub extra_tool_declarations: Seq<JsonView>,
    pub reasoning_effort: Option<Seq<char>>,
    pub use_previous_response_id: bool,
    pub store: Option<bool>,
}

/// Collects the settings of a Responses API client. `M` says whether a
/// model is chosen and `U` whether a base URL is given: only a builder with
/// both builds.
pub struct ResponsesBuilder<M, U> {
    pub model_name: Option<String>,
    pub api_key: Option<String>,
    pub scheme: String,
    pub host: String,
    pub base_path: String,
    pub extra_tool_declarations: Vec<Json>,
    pub reasoning_effort: Option<String>,
    pub use_previous_response_id: bool,
    pub store: Option<bool>,
    pub state: PhantomData<(M, U)>,
}

impl<M, U> View for ResponsesBuilder<M, U> {
    type V = ResponsesSettings;

    open spec fn view(&self) -> ResponsesSettings {
        ResponsesSettings {
            model_name: opt_str(self.model_name),
            api_key: opt_str(self.api_key),
            scheme: self.scheme@,
            host: self.host@,
            base_path: self.base_path@,
            extra_tool_declarations: items_view(self.extra_tool_declarations@),
            reasoning_effort: opt_str(self.reasoning_effort),
            use_previous_response_id: self.use_previous_response_id,
            store: self.store,
        }
    }
}

/// The settings of a new Responses builder: nothing chosen, no address,
/// requests chained.
pub open spec fn fresh_responses_settings() -> ResponsesSettings {
    ResponsesSettings {
        model_name: None,
        api_key: None,
        scheme: Seq::empty(),
        host: Seq::empty(),
        base_path: Seq::empty(),
        extra_tool_declarations: Seq::empty(),
        reasoning_effort: None,
        use_previous_response_id: true,
        store: None,
    }
}

impl ResponsesBuilder<WithoutModel, WithoutUrl> {
    /// A builder with nothing set; requests are chained by default.
    pub fn new() -> (b: ResponsesBuilder<WithoutModel, WithoutUrl>)
        ensures
            b@ == fresh_responses_settings(),
    {
        let b = ResponsesBuilder {
            model_name: None,
            api_key: None,
            scheme: String::new(),
            host: String::new(),
            base_path: String::new(),
            extra_tool_declarations: Vec::new(),
            reasoning_effort: None,
            use_previous_response_id: true,
            store: None,
            state: PhantomData,
        };
        proof {
            assert(b@.extra_tool_declarations =~= Seq::empty());
        }
        b
    }
}

impl Default for ResponsesBuilder<WithoutModel, WithoutUrl> {
    fn default() -> (b: Self)
        ensures
            b@ == fresh_responses_settings(),
    {
        ResponsesBuilder::new()
    }
}

impl<M, U> ResponsesBuilder<M, U> {
    pub fn with_api_key(self, api_key: String) -> (b: ResponsesBuilder<M, U>)
        ensures
            b@ == (ResponsesSettings { api_key: Some(api_key@), ..self@ }),
    {
        ResponsesBuilder { api_key: Some(api_key), ..self }
    }

    pub fn with_reasoning_effort(self, effort: String) -> (b: ResponsesBuilder<M, U>)
        ensures
            b@ == (ResponsesSettings { reasoning_effort: Some(effort@), ..self@ }),
    {
        ResponsesBuilder { reasoning_effort: Some(effort), ..self }
    }

    /// Stops naming the previous response in requests.
    pub fn without_previous_response_id(self) -> (b: ResponsesBuilder<M, U>)
        ensures
            b@ == (ResponsesSettings { use_previous_response_id: false, ..self@ }),
    {
        ResponsesBuilder { use_previous_response_id: false, ..self }
    }

    pub fn with_store(self, store: bool) -> (b: ResponsesBuilder<M, U>)
        ensures
            b@ == (ResponsesSettings { store: Some(store), ..self@ }),
    {
        ResponsesBuilder { store: Some(store), ..self }
    }

    /// Adds a tool declaration sent with every request.
    pub fn with_tool_declaration(self, declaration: Json) -> (b: ResponsesBuilder<M, U>)
        ensures
            b@ == (ResponsesSettings {
                extra_tool_declarations: self@.extra_tool_declarations.push(declaration@),
                ..self@
            }),
    {
        let mut this = self;
        this.extra_tool_declarations.push(declaration);
        proof {
            assert(items_view(this.extra_tool_declarations@) =~= self@.extra_tool_declarations.push(
                declaration@,
            ));
        }
        this
    }

    /// Adds tool declarations sent with every request, in order.
    pub fn with_tool_declarations(self, declarations: Vec<Json>) -> (b: ResponsesBuilder<M, U>)
        ensures
            b@ == (ResponsesSettings {
                extra_tool_declarations: self@.extra_tool_declarations + items_view(declarations@),
                ..self@
            }),
    {
        let mut this = self;
        let mut more = declarations;
        this.extra_tool_declarations.append(&mut more);
        proof {
            assert(items_view(this.extra_tool_declarations@) =~= self@.extra_tool_declarations
                + items_view(declarations@));
        }
        this
    }
}

impl<U> ResponsesBuilder<WithoutModel, U> {
    pub fn with_model(self, model: String) -> (b: ResponsesBuilder<WithModel, U>)
        ensures
            b@ == (ResponsesSettings { model_name: Some(model@), ..self@ }),
    {
        ResponsesBuilder {
            model_name: Some(model),
            api_key: self.api_key,
            scheme: self.scheme,
            host: self.host,
            base_path: self.base_path,
            extra_tool_declarations: self.extra_tool_declarations,
            reasoning_effort: self.reasoning_effort,
            use_previous_response_id: self.use_previous_response_id,
            store: self.store,
            state: PhantomData,
        }
    }
}

impl<M> ResponsesBuilder<M, WithoutUrl> {
    /// Points the client at `url`, which must parse and name a host: its
    /// scheme, its host (with the port when given) and its path without
    /// trailing `/`.
    pub fn with_base_url(self, url: &str) -> (b: ResponsesBuilder<M, WithUrl>)
        requires
            base_url_spec(url@) is Some,
        ensures
            base_url_spec(url@) == Some((b@.scheme, b@.host, b@.base_path)),
            b@ == (ResponsesSettings { scheme: b@.scheme, host: b@.host, base_path: b@.base_path, ..self@ }),
    {
        let e = match base_url_parts(url) {
            Some(e) => e,
            // The requirement rules this branch out.
            None => BaseUrl { scheme: String::new(), host: String::new(), base_path: String::new() },
        };
        ResponsesBuilder {
            model_name: self.model_name,
            api_key: self.api_key,
            scheme: e.scheme,
            host: e.host,
            base_path: e.base_path,
            extra_tool_declarations: self.extra_tool_declarations,
            reasoning_effort: self.reasoning_effort,
            use_previous_response_id: self.use_previous_response_id,
            store: self.store,
            state: PhantomData,
        }
    }

    /// Points the client at `url` when it parses and names a host (see
    /// `with_base_url`); nothing otherwise.
    pub fn try_with_base_url(self, url: &str) -> (r: Option<ResponsesBuilder<M, WithUrl>>)
        ensures
            r is Some <==> base_url_spec(url@) is Some,
            r matches Some(b) ==> base_url_spec(url@) == Some((b@.scheme, b@.host, b@.base_path)) && b@ == (
            ResponsesSettings { scheme: b@.scheme, host: b@.host, base_path: b@.base_path, ..self@ }),
    {
        if base_url_parts(url).is_some() {
            Some(self.with_base_url(url))
        } else {
            None
        }
    }
}

impl ResponsesBuilder<WithModel, WithUrl> {
    /// The client, with every setting of the builder and no response seen
    /// yet.
    pub fn build(self) -> (c: ResponsesClient)
        requires
            self.api_key is Some,
            self.model_name is Some,
        ensures
            Some(c.api_key@) == self@.api_key,
            Some(c.model_name@) == self@.model_name,
            c.endpoint.scheme@ == self@.scheme,
            c.endpoint.host@ == self@.host,
            c.endpoint.base_path@ == self@.base_path,
            c.extra_tool_declarations == self.extra_tool_declarations,
            c.reasoning_effort == self.reasoning_effort,
            c.chain.use_previous_response_id == self.use_previous_response_id,
            c.chain.last_response_id is None,
            c.store == self.store,
    {
        let api_key = match self.api_key {
            Some(k) => k,
            None => String::new(),
        };
        let model_name = match self.model_name {
            Some(m) => m,
            None => String::new(),
        };
        ResponsesClient {
            model_name,
            api_key,
            endpoint: BaseUrl { scheme: self.scheme, host: self.host, base_path: self.base_path },
            extra_tool_declarations: self.extra_tool_declarations,
            reasoning_effort: self.reasoning_effort,
            chain: ResponseChain::new(self.use_previous_response_id),
            store: self.store,
        }
    }
}

} // verus!
