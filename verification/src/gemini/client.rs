use vstd::prelude::*;

use crate::gemini::tools::{
    CodeExecutionTool, EmbeddingsConfig, EmbeddingsTask, FunctionCallingConfig, GeminiNativeTool, GoogleMapsTool,
    GoogleSearchTool, NativeToolView,
};
use crate::gemini::request::tools_view;
use crate::json::{Json, JsonView};
use crate::metadata::opt_str;
use crate::tools::clone_opt_string;

verus! {

/// The settings of a Gemini client: model, key, native tools, how functions
/// may be called, and embedding settings when it embeds.
pub struct GeminiClient {
    pub model_name: String,
    pub api_key: String,
    pub native_tools: Vec<GeminiNativeTool>,
    pub function_config: Option<FunctionCallingConfig>,
    pub embeddings_config: Option<EmbeddingsConfig>,
}

impl GeminiClient {
    /// A client for `model_name` with the key `api_key` and nothing else set.
    pub fn new(model_name: &str, api_key: String) -> (c: GeminiClient)
        ensures
            c.model_name@ == model_name@,
            c.api_key == api_key,
            c.native_tools@.len() == 0,
            c.function_config is None,
            c.embeddings_config is None,
    {
        GeminiClient {
            model_name: model_name.to_owned(),
            api_key,
            native_tools: Vec::new(),
            function_config: None,
            embeddings_config: None,
        }
    }
}

/// Collects the settings of a Gemini client.
pub struct GeminiBuilder {
    pub model_name: Option<String>,
    pub api_key: Option<String>,
    pub native_tools: Vec<GeminiNativeTool>,
    pub function_config: Option<FunctionCallingConfig>,
    pub embeddings_config: Option<EmbeddingsConfig>,
}

impl Default for GeminiBuilder {
    fn default() -> (b: Self)
        ensures
            b.model_name is None,
            b.api_key is None,
            b.native_tools@.len() == 0,
            b.function_config is None,
            b.embeddings_config is None,
    {
        GeminiBuilder::new()
    }
}

/// The model a client uses when none is set.
pub open spec fn default_gemini_model() -> Seq<char> {
    "gemini-2.0-flash-exp"@
}

impl GeminiBuilder {
    /// A builder with nothing set.
    pub fn new() -> (b: GeminiBuilder)
        ensures
            b.model_name is None,
            b.api_key is None,
            b.native_tools@.len() == 0,
            b.function_config is None,
            b.embeddings_config is None,
    {
        GeminiBuilder {
            model_name: None,
            api_key: None,
            native_tools: Vec::new(),
            function_config: None,
            embeddings_config: None,
        }
    }

    pub fn with_model(&mut self, model_name: String) -> (r: &mut Self)
        ensures
            r.model_name == Some(model_name),
            r.api_key == old(self).api_key,
            r.native_tools@ == old(self).native_tools@,
            r.function_config == old(self).function_config,
            r.embeddings_config == old(self).embeddings_config,
            *final(r) == *final(self),
    {
        self.model_name = Some(model_name);
        self
    }

    pub fn with_api_key(&mut self, api_key: String) -> (r: &mut Self)
        ensures
            r.api_key == Some(api_key),
            r.model_name == old(self).model_name,
            r.native_tools@ == old(self).native_tools@,
            r.function_config == old(self).function_config,
            r.embeddings_config == old(self).embeddings_config,
            *final(r) == *final(self),
    {
        self.api_key = Some(api_key);
        self
    }

    fn add_tool(&mut self, tool: GeminiNativeTool) -> (r: &mut Self)
        ensures
            r.native_tools@ == old(self).native_tools@.push(tool),
            r.model_name == old(self).model_name,
            r.api_key == old(self).api_key,
            r.function_config == old(self).function_config,
            r.embeddings_config == old(self).embeddings_config,
            *final(r) == *final(self),
    {
        self.native_tools.push(tool);
        self
    }

    /// Adds the code execution tool.
    pub fn with_code_execution(&mut self) -> (r: &mut Self)
        ensures
            tools_view(r.native_tools@) == tools_view(old(self).native_tools@).push(NativeToolView::CodeExecution),
            r.model_name == old(self).model_name,
            r.api_key == old(self).api_key,
            r.function_config == old(self).function_config,
            r.embeddings_config == old(self).embeddings_config,
            *final(r) == *final(self),
    {
        let r = self.add_tool(GeminiNativeTool::CodeExecution(CodeExecutionTool));
        assert(tools_view(r.native_tools@) =~= tools_view(old(self).native_tools@).push(NativeToolView::CodeExecution));
        r
    }

    /// Adds Google Search with no dynamic threshold.
    pub fn with_google_search(&mut self) -> (r: &mut Self)
        ensures
            tools_view(r.native_tools@) == tools_view(old(self).native_tools@).push(
                NativeToolView::GoogleSearch { dynamic_threshold: None },
            ),
            r.model_name == old(self).model_name,
            r.api_key == old(self).api_key,
            r.function_config == old(self).function_config,
            r.embeddings_config == old(self).embeddings_config,
            *final(r) == *final(self),
    {
        let r = self.add_tool(GeminiNativeTool::GoogleSearch(GoogleSearchTool { dynamic_threshold: None }));
        assert(tools_view(r.native_tools@) =~= tools_view(old(self).native_tools@).push(
            NativeToolView::GoogleSearch { dynamic_threshold: None },
        ));
        r
    }

    /// Adds Google Search with a dynamic retrieval threshold (a JSON
    /// number).
    pub fn with_google_search_threshold(&mut self, threshold: Json) -> (r: &mut Self)
        ensures
            tools_view(r.native_tools@) == tools_view(old(self).native_tools@).push(
                NativeToolView::GoogleSearch { dynamic_threshold: Some(threshold@) },
            ),
            r.model_name == old(self).model_name,
            r.api_key == old(self).api_key,
            r.function_config == old(self).function_config,
            r.embeddings_config == old(self).embeddings_config,
            *final(r) == *final(self),
    {
        let ghost tv = threshold@;
        let r = self.add_tool(GeminiNativeTool::GoogleSearch(GoogleSearchTool { dynamic_threshold: Some(threshold) }));
        assert(tools_view(r.native_tools@) =~= tools_view(old(self).native_tools@).push(
            NativeToolView::GoogleSearch { dynamic_threshold: Some(tv) },
        ));
        r
    }

    /// Adds Google Maps, centred on `lat_lng` (latitude and longitude as JSON
    /// numbers) when given, with the map widget when `widget`.
    pub fn with_google_maps(&mut self, lat_lng: Option<(Json, Json)>, widget: bool) -> (r: &mut Self)
        ensures
            tools_view(r.native_tools@) == tools_view(old(self).native_tools@).push(
                NativeToolView::GoogleMaps {
                    lat_lng: match lat_lng {
                        Some((a, b)) => Some((a@, b@)),
                        None => None,
                    },
                    enable_widget: widget,
                },
            ),
            r.model_name == old(self).model_name,
            r.api_key == old(self).api_key,
            r.function_config == old(self).function_config,
            r.embeddings_config == old(self).embeddings_config,
            *final(r) == *final(self),
    {
        let tool = GeminiNativeTool::GoogleMaps(GoogleMapsTool { lat_lng, enable_widget: widget });
        let ghost tv = tool@;
        let r = self.add_tool(tool);
        assert(tools_view(r.native_tools@) =~= tools_view(old(self).native_tools@).push(tv));
        r
    }

    /// Sets how functions may be called: `mode` ("AUTO", "ANY" or "NONE") and
    /// the names allowed.
    pub fn with_function_calling_mode(&mut self, mode: &str, allowed: Option<Vec<String>>) -> (r: &mut Self)
        ensures
            r.function_config matches Some(c) && opt_str(c.mode) == Some(mode@) && c.allowed_function_names
                == allowed,
            r.model_name == old(self).model_name,
            r.api_key == old(self).api_key,
            r.native_tools@ == old(self).native_tools@,
            r.embeddings_config == old(self).embeddings_config,
            *final(r) == *final(self),
    {
        self.function_config = Some(FunctionCallingConfig { mode: Some(mode.to_owned()), allowed_function_names: allowed });
        self
    }

    /// Makes the client embed, with `dimensions` output dimensions when
    /// given; the task stays as it was set (the default task otherwise).
    pub fn with_embeddings(&mut self, dimensions: Option<usize>) -> (r: &mut Self)
        ensures
            r.embeddings_config matches Some(c) && c.dimensions == dimensions && c.task == match old(
                self,
            ).embeddings_config {
                Some(o) => o.task,
                None => EmbeddingsTask::Embed,
            },
            r.model_name == old(self).model_name,
            r.api_key == old(self).api_key,
            r.native_tools@ == old(self).native_tools@,
            r.function_config == old(self).function_config,
            *final(r) == *final(self),
    {
        let task = match &self.embeddings_config {
            Some(c) => c.task.clone(),
            None => EmbeddingsTask::default(),
        };
        self.embeddings_config = Some(EmbeddingsConfig { dimensions, task });
        self
    }

    /// Makes the client embed for `task`; the dimensions stay as they were
    /// set (none otherwise).
    pub fn with_embeddings_task(&mut self, task: EmbeddingsTask) -> (r: &mut Self)
        ensures
            r.embeddings_config matches Some(c) && c.task == task && c.dimensions == match old(
                self,
            ).embeddings_config {
                Some(o) => o.dimensions,
                None => None,
            },
            r.model_name == old(self).model_name,
            r.api_key == old(self).api_key,
            r.native_tools@ == old(self).native_tools@,
            r.function_config == old(self).function_config,
            *final(r) == *final(self),
    {
        let dimensions = match &self.embeddings_config {
            Some(c) => c.dimensions,
            None => None,
        };
        self.embeddings_config = Some(EmbeddingsConfig { dimensions, task });
        self
    }

    /// The client these settings make: the model set (the default model
    /// otherwise) and the key set, else `env_api_key`, the key the
    /// environment offers.
    pub fn build(&mut self, env_api_key: Option<String>) -> (client: GeminiClient)
        requires
            old(self).api_key is Some || env_api_key is Some,
        ensures
            client.model_name@ == match old(self).model_name {
                Some(m) => m@,
                None => default_gemini_model(),
            },
            client.api_key@ == match old(self).api_key {
                Some(k) => k@,
                None => env_api_key->Some_0@,
            },
            tools_view(client.native_tools@) == tools_view(old(self).native_tools@),
            config_view(client.function_config) == config_view(old(self).function_config),
            client.embeddings_config == old(self).embeddings_config,
            *final(self) == *old(self),
    {
        let api_key = match &self.api_key {
            Some(k) => k.clone(),
            None => match env_api_key {
                Some(k) => k,
                None => String::new(),
            },
        };
        let model_name = match &self.model_name {
            Some(m) => m.clone(),
            None => "gemini-2.0-flash-exp".to_owned(),
        };
        let mut tools: Vec<GeminiNativeTool> = Vec::new();
        let mut i: usize = 0;
        while i < self.native_tools.len()
            invariant
                i <= self.native_tools@.len(),
                tools@.len() == i,
                forall|k: int| 0 <= k < i ==> (#[trigger] tools@[k])@ == self.native_tools@[k]@,
            decreases self.native_tools@.len() - i,
        {
            tools.push(self.native_tools[i].clone());
            i = i + 1;
        }
        assert(tools_view(tools@) =~= tools_view(self.native_tools@));
        let function_config = match &self.function_config {
            Some(f) => Some(FunctionCallingConfig {
                mode: clone_opt_string(&f.mode),
                allowed_function_names: clone_names(&f.allowed_function_names),
            }),
            None => None,
        };
        let embeddings_config = match &self.embeddings_config {
            Some(e) => Some(EmbeddingsConfig { dimensions: e.dimensions, task: e.task.clone() }),
            None => None,
        };
        GeminiClient { model_name, api_key, native_tools: tools, function_config, embeddings_config }
    }
}

pub open spec fn names_view(o: Option<Vec<String>>) -> Option<Seq<Seq<char>>> {
    match o {
        Some(v) => Some(v@.map_values(|x: String| x@)),
        None => None,
    }
}

/// What a function calling configuration says: its mode and allowed names.
pub open spec fn config_view(o: Option<FunctionCallingConfig>) -> Option<(Option<Seq<char>>, Option<Seq<Seq<char>>>)> {
    match o {
        Some(c) => Some((opt_str(c.mode), names_view(c.allowed_function_names))),
        None => None,
    }
}

fn clone_names(names: &Option<Vec<String>>) -> (r: Option<Vec<String>>)
    ensures
        names_view(r) == names_view(*names),
{
    match names {
        Some(v) => {
            let mut out: Vec<String> = Vec::new();
            let mut i: usize = 0;
            while i < v.len()
                invariant
                    i <= v@.len(),
                    out@.map_values(|x: String| x@) == v@.take(i as int).map_values(|x: String| x@),
                decreases v@.len() - i,
            {
                let c = v[i].clone();
                let ghost prev = out@;
                out.push(c);
                assert(v@.take(i + 1) =~= v@.take(i as int).push(v@[i as int]));
                assert(out@ =~= prev.push(c));
                assert(out@.map_values(|x: String| x@) =~= prev.map_values(|x: String| x@).push(c@));
                assert(v@.take(i + 1).map_values(|x: String| x@) =~= v@.take(i as int).map_values(|x: String| x@).push(
                    v@[i as int]@,
                ));
                i = i + 1;
            }
            assert(v@.take(v@.len() as int) =~= v@);
            Some(out)
        },
        None => None,
    }
}

} // verus!
