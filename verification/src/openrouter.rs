use vstd::prelude::*;

use core::marker::PhantomData;

use crate::metadata::opt_str;
use crate::wire::client::{ResponsesBuilder, ResponsesClient};
use crate::wire::endpoint::{base_url_parts, base_url_spec};

verus! {

/// The address OpenRouter's API is at by default.
pub open spec fn default_openrouter_url() -> Seq<char> {
    "https://openrouter.ai/api/v1"@
}

/// Builder state: no model chosen yet.
pub struct WithoutModel;

/// Builder state: a model is chosen.
pub struct WithModel;

/// Builder state: the client speaks the Responses API.
pub struct Responses;

/// Collects the settings of an OpenRouter client, which speaks the
/// Responses API without chaining requests. `M` says whether a model is
/// chosen.
pub struct OpenRouterBuilder<M> {
    pub model: Option<String>,
    pub api_key: Option<String>,
    pub base_url: String,
    pub reasoning_effort: Option<String>,
    pub state: PhantomData<(M, Responses)>,
}

/// What an OpenRouter builder holds, whatever its state.
pub struct OpenRouterSettings {
    pub model: Option<Seq<char>>,
    pub api_key: Option<Seq<char>>,
    pub base_url: Seq<char>,
    pub reasoning_effort: Option<Seq<char>>,
}

impl<M> View for OpenRouterBuilder<M> {
    type V = OpenRouterSettings;

    open spec fn view(&self) -> OpenRouterSettings {
        OpenRouterSettings {
            model: opt_str(self.model),
            api_key: opt_str(self.api_key),
            base_url: self.base_url@,
            reasoning_effort: opt_str(self.reasoning_effort),
        }
    }
}

/// The key a build uses: the one set on the builder, else the one the
/// environment offers.
pub open spec fn resolved_key(set: Option<Seq<char>>, env: Option<Seq<char>>) -> Option<Seq<char>> {
    match set {
        Some(k) => Some(k),
        None => env,
    }
}

impl OpenRouterBuilder<WithoutModel> {
    pub fn new() -> (b: OpenRouterBuilder<WithoutModel>)
        ensures
            b@ == (OpenRouterSettings {
                model: None,
                api_key: None,
                base_url: default_openrouter_url(),
                reasoning_effort: None,
            }),
    {
        OpenRouterBuilder {
            model: None,
            api_key: None,
            base_url: "https://openrouter.ai/api/v1".to_owned(),
            reasoning_effort: None,
            state: PhantomData,
        }
    }
}

impl Default for OpenRouterBuilder<WithoutModel> {
    fn default() -> (b: Self)
        ensures
            b@ == (OpenRouterSettings {
                model: None,
                api_key: None,
                base_url: default_openrouter_url(),
                reasoning_effort: None,
            }),
    {
        OpenRouterBuilder::new()
    }
}

impl<M> OpenRouterBuilder<M> {
    /// Sets the key; without one, the build takes the environment's.
    pub fn with_api_key(self, api_key: String) -> (b: OpenRouterBuilder<M>)
        ensures
            b@ == (OpenRouterSettings { api_key: Some(api_key@), ..self@ }),
    {
        OpenRouterBuilder { api_key: Some(api_key), ..self }
    }

    pub fn with_base_url(self, url: String) -> (b: OpenRouterBuilder<M>)
        ensures
            b@ == (OpenRouterSettings { base_url: url@, ..self@ }),
    {
        OpenRouterBuilder { base_url: url, ..self }
    }

    /// Sets the reasoning effort of reasoning models.
    pub fn with_reasoning_effort(self, effort: String) -> (b: OpenRouterBuilder<M>)
        ensures
            b@ == (OpenRouterSettings { reasoning_effort: Some(effort@), ..self@ }),
    {
        OpenRouterBuilder { reasoning_effort: Some(effort), ..self }
    }

    /// The key to use: the one set, else `env_api_key`, the one the
    /// environment offers. The builder keeps no key afterwards.
    pub fn resolve_api_key(&mut self, env_api_key: Option<String>) -> (k: Option<String>)
        ensures
            opt_str(k) == resolved_key(old(self)@.api_key, opt_str(env_api_key)),
            final(self)@ == (OpenRouterSettings { api_key: None, ..old(self)@ }),
    {
        match self.api_key.take() {
            Some(k) => Some(k),
            None => env_api_key,
        }
    }
}

impl OpenRouterBuilder<WithoutModel> {
    /// Selects the model, by its vendor-prefixed slug.
    pub fn with_model(self, model: String) -> (b: OpenRouterBuilder<WithModel>)
        ensures
            b@ == (OpenRouterSettings { model: Some(model@), ..self@ }),
    {
        OpenRouterBuilder {
            model: Some(model),
            api_key: self.api_key,
            base_url: self.base_url,
            reasoning_effort: self.reasoning_effort,
            state: PhantomData,
        }
    }
}

impl OpenRouterBuilder<WithModel> {
    /// The Responses API client: at the base URL, which must parse and name
    /// a host, with the model and the key, not chaining requests.
    pub fn build(self, env_api_key: Option<String>) -> (c: ResponsesClient)
        requires
            self.model is Some,
            self.api_key is Some || env_api_key is Some,
            base_url_spec(self.base_url@) is Some,
        ensures
            Some(c.model_name@) == self@.model,
            Some(c.api_key@) == resolved_key(self@.api_key, opt_str(env_api_key)),
            !c.chain.use_previous_response_id,
            c.chain.last_response_id is None,
            opt_str(c.reasoning_effort) == self@.reasoning_effort,
            c.extra_tool_declarations@.len() == 0,
            c.store is None,
            base_url_spec(self.base_url@) == Some((c.endpoint.scheme@, c.endpoint.host@, c.endpoint.base_path@)),
    {
        let mut this = self;
        let api_key = match this.resolve_api_key(env_api_key) {
            Some(k) => k,
            None => String::new(),
        };
        let model = match this.model {
            Some(m) => m,
            None => String::new(),
        };
        let rb = ResponsesBuilder::new().with_base_url(this.base_url.as_str());
        let mut rb = rb.with_model(model).with_api_key(api_key).without_previous_response_id();
        match this.reasoning_effort {
            Some(e) => {
                rb = rb.with_reasoning_effort(e);
            },
            None => {},
        }
        proof {
            assert(rb.extra_tool_declarations@.len() == rb@.extra_tool_declarations.len());
        }
        rb.build()
    }

    /// The client `build` makes, when the base URL parses and names a host;
    /// nothing otherwise.
    pub fn try_build(self, env_api_key: Option<String>) -> (r: Option<ResponsesClient>)
        requires
            self.model is Some,
            self.api_key is Some || env_api_key is Some,
        ensures
            r is Some <==> base_url_spec(self.base_url@) is Some,
            r matches Some(c) ==> {
                &&& Some(c.model_name@) == self@.model
                &&& Some(c.api_key@) == resolved_key(self@.api_key, opt_str(env_api_key))
                &&& !c.chain.use_previous_response_id
                &&& c.chain.last_response_id is None
                &&& opt_str(c.reasoning_effort) == self@.reasoning_effort
                &&& c.extra_tool_declarations@.len() == 0
                &&& c.store is None
                &&& base_url_spec(self.base_url@) == Some(
                    (c.endpoint.scheme@, c.endpoint.host@, c.endpoint.base_path@),
                )
            },
    {
        if base_url_parts(self.base_url.as_str()).is_some() {
            Some(self.build(env_api_key))
        } else {
            None
        }
    }
}

} // verus!
