use vstd::prelude::*;

use core::marker::PhantomData;

use crate::chat::ChatResponse;
use crate::json::{items_view, Json, JsonView};
use crate::messages::{contents_view, Messages};
use crate::metadata::opt_str;
use crate::options::{opt_json, ChatOptions};
use crate::openai::tools::{OpenAINativeTool, SearchContextSizeEnum, UserLocation, WebSearchTool};
use crate::openrouter::resolved_key;
use crate::tools::clone_opt_string;
use crate::wire::endpoint::{trim_end_slashes, trim_trailing_slashes};
use crate::wire::responses_request::{
    decls_settable, opt_items, opt_view, request_input, request_instructions, request_tools, text_format,
    ResponsesRequest, ResponsesRequestConfig,
};
use crate::wire::session::{chained_id, ResponseChain};

verus! {

/// The address OpenAI's API is at by default.
pub open spec fn default_openai_url() -> Seq<char> {
    "https://api.openai.com/v1"@
}

/// Builder state: no model chosen yet.
pub struct WithoutModel;

/// Builder state: a model is chosen.
pub struct WithModel;

/// Builder state: requests go to OpenAI's own address.
pub struct BaseEndpoint;

/// Builder state: requests go to an address of the caller's.
pub struct CustomEndpoint;

/// Builder state: neither completion nor embedding settings made yet.
pub struct BaseConfig;

/// Builder state: the client is for completions.
pub struct CompletionConfig;

/// Builder state: the client is for embeddings.
pub struct EmbeddingConfig;

/// The settings of an OpenAI client.
pub struct OpenAIClient {
    pub model_name: String,
    pub api_key: String,
    pub base_url: String,
    pub native_tools: Vec<OpenAINativeTool>,
    pub reasoning_effort: Option<String>,
    pub chain: ResponseChain,
    pub store: Option<bool>,
}

/// The declarations of native tools, in order.
pub open spec fn native_declarations(tools: Seq<OpenAINativeTool>) -> Seq<JsonView> {
    tools.map_values(|t: OpenAINativeTool| t.declaration())
}

impl OpenAIClient {
    /// The declarations of the client's native tools, in order.
    pub fn native_tool_declarations(&self) -> (v: Vec<Json>)
        ensures
            items_view(v@) == native_declarations(self.native_tools@),
    {
        let mut out: Vec<Json> = Vec::new();
        let n = self.native_tools.len();
        let mut i: usize = 0;
        while i < n
            invariant
                i <= n,
                n == self.native_tools@.len(),
                items_view(out@) == native_declarations(self.native_tools@.take(i as int)),
            decreases n - i,
        {
            let d = self.native_tools[i].to_tool_declaration();
            let ghost before = out@;
            proof {
                assert(items_view(before).len() == before.len());
                assert(native_declarations(self.native_tools@.take(i as int)).len() == i);
            }
            out.push(d);
            proof {
                let want = native_declarations(self.native_tools@.take(i + 1));
                assert forall|j: int| 0 <= j < i + 1 implies #[trigger] items_view(out@)[j] == want[j] by {
                    if j < i {
                        assert(items_view(before)[j] == native_declarations(self.native_tools@.take(i as int))[j]);
                        assert(out@[j] == before[j]);
                    } else {
                        assert(out@[j] == d);
                        assert(self.native_tools@.take(i + 1)[j] == self.native_tools@[i as int]);
                    }
                }
                assert(items_view(out@) =~= want);
            }
            i = i + 1;
        }
        proof {
            assert(self.native_tools@.take(n as int) =~= self.native_tools@);
        }
        out
    }

    /// The Responses API request a completion sends: the client's model,
    /// reasoning effort and storing choice, its native tools after the
    /// chat's function declarations, and, when chaining, the id of the last
    /// response (so that only the new turn goes as input).
    pub fn completion_request(
        &self,
        messages: &Messages,
        tool_declarations: Option<Json>,
        options: Option<&ChatOptions>,
        output_schema: Option<Json>,
    ) -> (r: ResponsesRequest)
        requires
            decls_settable(opt_view(tool_declarations)),
        ensures
            r.model@ == self.model_name@,
            opt_str(r.previous_response_id) == chained_id(self.chain),
            opt_items(r.tools) == request_tools(opt_view(tool_declarations), native_declarations(self.native_tools@)),
            match self.reasoning_effort {
                Some(e) => r.reasoning matches Some(rc) && rc.effort == e && rc.summary@ == "auto"@,
                None => r.reasoning is None,
            },
            r.store == self.store,
            match options {
                Some(o) => r.max_output_tokens == o.max_tokens && opt_json(r.temperature) == opt_json(o.temperature)
                    && opt_json(r.top_p) == opt_json(o.top_p),
                None => r.max_output_tokens is None && r.temperature is None && r.top_p is None,
            },
            opt_view(r.text) == match output_schema {
                Some(schema) => Some(text_format(schema@)),
                None => None,
            },
            r.stream is None,
            opt_items(r.input) == Some(request_input(contents_view(messages.0@), chained_id(self.chain) is Some)),
            opt_str(r.instructions) == request_instructions(contents_view(messages.0@), chained_id(self.chain) is Some),
    {
        let extra = self.native_tool_declarations();
        let previous_response_id = self.chain.previous_response_id();
        ResponsesRequest::from_core(
            ResponsesRequestConfig {
                model_name: self.model_name.as_str(),
                messages,
                tool_declarations,
                extra_tool_declarations: &extra,
                reasoning_effort: clone_opt_string(&self.reasoning_effort),
                options,
                output_schema,
                previous_response_id,
                store: self.store,
            },
        )
    }

    /// The request a stream sends: that of a completion without a required
    /// output shape, asking for a stream.
    pub fn stream_request(&self, messages: &Messages, tool_declarations: Option<Json>, options: Option<&ChatOptions>) -> (r:
        ResponsesRequest)
        requires
            decls_settable(opt_view(tool_declarations)),
        ensures
            r.model@ == self.model_name@,
            opt_str(r.previous_response_id) == chained_id(self.chain),
            opt_items(r.tools) == request_tools(opt_view(tool_declarations), native_declarations(self.native_tools@)),
            match self.reasoning_effort {
                Some(e) => r.reasoning matches Some(rc) && rc.effort == e && rc.summary@ == "auto"@,
                None => r.reasoning is None,
            },
            r.store == self.store,
            match options {
                Some(o) => r.max_output_tokens == o.max_tokens && opt_json(r.temperature) == opt_json(o.temperature)
                    && opt_json(r.top_p) == opt_json(o.top_p),
                None => r.max_output_tokens is None && r.temperature is None && r.top_p is None,
            },
            r.text is None,
            r.stream == Some(true),
            opt_items(r.input) == Some(request_input(contents_view(messages.0@), chained_id(self.chain) is Some)),
            opt_str(r.instructions) == request_instructions(contents_view(messages.0@), chained_id(self.chain) is Some),
    {
        let mut r = self.completion_request(messages, tool_declarations, options, None);
        r.stream = Some(true);
        r
    }

    /// Records the id of a completed response, when chaining is on and the
    /// response has one.
    pub fn record_response_id(&mut self, id: Option<String>)
        ensures
            final(self).chain.use_previous_response_id == old(self).chain.use_previous_response_id,
            opt_str(final(self).chain.last_response_id) == if old(self).chain.use_previous_response_id && id is Some {
                opt_str(id)
            } else {
                opt_str(old(self).chain.last_response_id)
            },
            final(self).model_name == old(self).model_name,
            final(self).api_key == old(self).api_key,
            final(self).base_url == old(self).base_url,
            final(self).native_tools == old(self).native_tools,
            final(self).reasoning_effort == old(self).reasoning_effort,
            final(self).store == old(self).store,
    {
        self.chain.record_response_id(id);
    }

    /// Records the id of a streamed response from its metadata, when
    /// chaining is on.
    pub fn on_stream_done(&mut self, response: &ChatResponse)
        ensures
            final(self).chain.use_previous_response_id == old(self).chain.use_previous_response_id,
            opt_str(final(self).chain.last_response_id) == if old(self).chain.use_previous_response_id && (
            response.metadata is Some && response.metadata->Some_0.id is Some) {
                opt_str(response.metadata->Some_0.id)
            } else {
                opt_str(old(self).chain.last_response_id)
            },
            final(self).model_name == old(self).model_name,
            final(self).api_key == old(self).api_key,
            final(self).base_url == old(self).base_url,
            final(self).native_tools == old(self).native_tools,
            final(self).reasoning_effort == old(self).reasoning_effort,
            final(self).store == old(self).store,
    {
        self.chain.on_stream_done(response);
    }
}

/// What an OpenAI builder holds, whatever its state.
pub struct OpenAISettings {
    pub model_name: Option<Seq<char>>,
    pub api_key: Option<Seq<char>>,
    pub base_url: Seq<char>,
    pub native_tools: Seq<OpenAINativeTool>,
    pub reasoning_effort: Option<Seq<char>>,
    pub use_previous_response_id: bool,
    pub store: Option<bool>,
}

/// Collects the settings of an OpenAI client. `M` says whether a model is
/// chosen, `U` whether the address is OpenAI's own or a custom one, and `C`
/// whether the client is set up for completions, for embeddings or not yet.
pub struct OpenAIBuilder<M, U, C> {
    pub model_name: Option<String>,
    pub api_key: Option<String>,
    pub base_url: String,
    pub native_tools: Vec<OpenAINativeTool>,
    pub reasoning_effort: Option<String>,
    pub use_previous_response_id: bool,
    pub store: Option<bool>,
    pub state: PhantomData<(M, U, C)>,
}

impl<M, U, C> View for OpenAIBuilder<M, U, C> {
    type V = OpenAISettings;

    open spec fn view(&self) -> OpenAISettings {
        OpenAISettings {
            model_name: opt_str(self.model_name),
            api_key: opt_str(self.api_key),
            base_url: self.base_url@,
            native_tools: self.native_tools@,
            reasoning_effort: opt_str(self.reasoning_effort),
            use_previous_response_id: self.use_previous_response_id,
            store: self.store,
        }
    }
}

/// The settings of a new OpenAI builder: OpenAI's address, requests
/// chained, nothing else set.
pub open spec fn fresh_openai_settings() -> OpenAISettings {
    OpenAISettings {
        model_name: None,
        api_key: None,
        base_url: default_openai_url(),
        native_tools: Seq::empty(),
        reasoning_effort: None,
        use_previous_response_id: true,
        store: None,
    }
}

/// The settings once the builder is set up for embeddings: the model, key
/// and address stay; tools, reasoning effort, chaining and storing go.
pub open spec fn embedding_settings(s: OpenAISettings) -> OpenAISettings {
    OpenAISettings {
        native_tools: Seq::empty(),
        reasoning_effort: None,
        use_previous_response_id: false,
        store: None,
        ..s
    }
}

/// The web search tool with the given context size and user location.
pub open spec fn web_search(
    context_size: Option<SearchContextSizeEnum>,
    user_location: Option<UserLocation>,
) -> OpenAINativeTool {
    OpenAINativeTool::WebSearch(WebSearchTool { context_size, user_location })
}

impl OpenAIBuilder<WithoutModel, BaseEndpoint, BaseConfig> {
    pub fn new() -> (b: OpenAIBuilder<WithoutModel, BaseEndpoint, BaseConfig>)
        ensures
            b@ == fresh_openai_settings(),
    {
        let b = OpenAIBuilder {
            model_name: None,
            api_key: None,
            base_url: "https://api.openai.com/v1".to_owned(),
            native_tools: Vec::new(),
            reasoning_effort: None,
            use_previous_response_id: true,
            store: None,
            state: PhantomData,
        };
        proof {
            assert(b@.native_tools =~= Seq::empty());
        }
        b
    }
}

impl Default for OpenAIBuilder<WithoutModel, BaseEndpoint, BaseConfig> {
    fn default() -> (b: Self)
        ensures
            b@ == fresh_openai_settings(),
    {
        OpenAIBuilder::new()
    }
}

impl<U, C> OpenAIBuilder<WithoutModel, U, C> {
    pub fn with_model(self, model_name: String) -> (b: OpenAIBuilder<WithModel, U, C>)
        ensures
            b@ == (OpenAISettings { model_name: Some(model_name@), ..self@ }),
    {
        OpenAIBuilder {
            model_name: Some(model_name),
            api_key: self.api_key,
            base_url: self.base_url,
            native_tools: self.native_tools,
            reasoning_effort: self.reasoning_effort,
            use_previous_response_id: self.use_previous_response_id,
            store: self.store,
            state: PhantomData,
        }
    }
}

impl<M, U, C> OpenAIBuilder<M, U, C> {
    /// Stops naming the previous response in requests.
    pub fn without_previous_response_id(self) -> (b: OpenAIBuilder<M, U, C>)
        ensures
            b@ == (OpenAISettings { use_previous_response_id: false, ..self@ }),
    {
        OpenAIBuilder { use_previous_response_id: false, ..self }
    }

    /// Sets the key; without one, the build takes the environment's.
    pub fn with_api_key(self, api_key: String) -> (b: OpenAIBuilder<M, U, C>)
        ensures
            b@ == (OpenAISettings { api_key: Some(api_key@), ..self@ }),
    {
        OpenAIBuilder { api_key: Some(api_key), ..self }
    }

    pub fn with_store(self, store: bool) -> (b: OpenAIBuilder<M, U, C>)
        ensures
            b@ == (OpenAISettings { store: Some(store), ..self@ }),
    {
        OpenAIBuilder { store: Some(store), ..self }
    }
}

impl<M, C> OpenAIBuilder<M, BaseEndpoint, C> {
    /// Sends requests to `base_url`, without its trailing `/`, in place of
    /// OpenAI's own address.
    pub fn with_custom_url(self, base_url: String) -> (b: OpenAIBuilder<M, CustomEndpoint, C>)
        ensures
            b@ == (OpenAISettings { base_url: trim_trailing_slashes(base_url@), ..self@ }),
    {
        OpenAIBuilder {
            model_name: self.model_name,
            api_key: self.api_key,
            base_url: trim_end_slashes(base_url.as_str()),
            native_tools: self.native_tools,
            reasoning_effort: self.reasoning_effort,
            use_previous_response_id: self.use_previous_response_id,
            store: self.store,
            state: PhantomData,
        }
    }
}

impl<M, U> OpenAIBuilder<M, U, BaseConfig> {
    /// The same settings, now for completions.
    fn into_completion(self) -> (b: OpenAIBuilder<M, U, CompletionConfig>)
        ensures
            b@ == self@,
    {
        OpenAIBuilder {
            model_name: self.model_name,
            api_key: self.api_key,
            base_url: self.base_url,
            native_tools: self.native_tools,
            reasoning_effort: self.reasoning_effort,
            use_previous_response_id: self.use_previous_response_id,
            store: self.store,
            state: PhantomData,
        }
    }

    /// The settings for embeddings: tools, reasoning effort, chaining and
    /// storing are dropped.
    fn into_embedding(self) -> (b: OpenAIBuilder<M, U, EmbeddingConfig>)
        ensures
            b@ == embedding_settings(self@),
    {
        let b = OpenAIBuilder {
            model_name: self.model_name,
            api_key: self.api_key,
            base_url: self.base_url,
            native_tools: Vec::new(),
            reasoning_effort: None,
            use_previous_response_id: false,
            store: None,
            state: PhantomData,
        };
        proof {
            assert(b@.native_tools =~= Seq::empty());
        }
        b
    }

    /// Sets the builder up for embeddings.
    pub fn with_embeddings(self) -> (b: OpenAIBuilder<M, U, EmbeddingConfig>)
        ensures
            b@ == embedding_settings(self@),
    {
        self.into_embedding()
    }

    /// Sets the reasoning effort of reasoning models, which makes the
    /// client one for completions.
    pub fn with_reasoning_effort(self, effort: &str) -> (b: OpenAIBuilder<M, U, CompletionConfig>)
        ensures
            b@ == (OpenAISettings { reasoning_effort: Some(effort@), ..self@ }),
    {
        self.into_completion().with_reasoning_effort(effort)
    }

    /// Adds OpenAI's web search tool, which makes the client one for
    /// completions.
    pub fn with_web_search(
        self,
        context_size: Option<SearchContextSizeEnum>,
        user_location: Option<UserLocation>,
    ) -> (b: OpenAIBuilder<M, U, CompletionConfig>)
        ensures
            b@ == (OpenAISettings {
                native_tools: self@.native_tools.push(web_search(context_size, user_location)),
                ..self@
            }),
    {
        self.into_completion().with_web_search(context_size, user_location)
    }
}

impl<M, U> OpenAIBuilder<M, U, CompletionConfig> {
    /// Sets the reasoning effort of reasoning models. Custom endpoints
    /// (such as a local server) may refuse requests that carry it.
    pub fn with_reasoning_effort(self, effort: &str) -> (b: OpenAIBuilder<M, U, CompletionConfig>)
        ensures
            b@ == (OpenAISettings { reasoning_effort: Some(effort@), ..self@ }),
    {
        OpenAIBuilder { reasoning_effort: Some(effort.to_owned()), ..self }
    }

    /// Adds OpenAI's web search tool. Custom endpoints may refuse requests
    /// that carry it.
    pub fn with_web_search(
        self,
        context_size: Option<SearchContextSizeEnum>,
        user_location: Option<UserLocation>,
    ) -> (b: OpenAIBuilder<M, U, CompletionConfig>)
        ensures
            b@ == (OpenAISettings {
                native_tools: self@.native_tools.push(web_search(context_size, user_location)),
                ..self@
            }),
    {
        let mut this = self;
        this.native_tools.push(OpenAINativeTool::WebSearch(WebSearchTool { context_size, user_location }));
        this
    }
}

impl<U, C> OpenAIBuilder<WithModel, U, C> {
    /// The client, with every setting of the builder and no response seen
    /// yet; the key is the one set, else `env_api_key`, the one the
    /// environment offers.
    pub fn build(self, env_api_key: Option<String>) -> (c: OpenAIClient)
        requires
            self.model_name is Some,
            self.api_key is Some || env_api_key is Some,
        ensures
            Some(c.model_name@) == self@.model_name,
            Some(c.api_key@) == resolved_key(self@.api_key, opt_str(env_api_key)),
            c.base_url@ == self@.base_url,
            c.native_tools@ == self@.native_tools,
            opt_str(c.reasoning_effort) == self@.reasoning_effort,
            c.chain.use_previous_response_id == self.use_previous_response_id,
            c.chain.last_response_id is None,
            c.store == self.store,
    {
        let api_key = match self.api_key {
            Some(k) => k,
            None => match env_api_key {
                Some(k) => k,
                None => String::new(),
            },
        };
        let model_name = match self.model_name {
            Some(m) => m,
            None => String::new(),
        };
        OpenAIClient {
            model_name,
            api_key,
            base_url: self.base_url,
            native_tools: self.native_tools,
            reasoning_effort: self.reasoning_effort,
            chain: ResponseChain::new(self.use_previous_response_id),
            store: self.store,
        }
    }
}

} // verus!
