use vstd::prelude::*;

use crate::json::{items_view, Json, JsonView};
use crate::wire::responses::{obj, s};

verus! {

/// Code execution, a native Gemini tool.
pub struct CodeExecutionTool;

/// Google Search, a native Gemini tool, with an optional dynamic retrieval
/// threshold (a JSON number).
pub struct GoogleSearchTool {
    pub dynamic_threshold: Option<Json>,
}

/// Google Maps, a native Gemini tool, with an optional position (latitude
/// and longitude as JSON numbers) and an optional map widget.
pub struct GoogleMapsTool {
    pub lat_lng: Option<(Json, Json)>,
    pub enable_widget: bool,
}

/// The native tools Gemini offers.
pub enum GeminiNativeTool {
    CodeExecution(CodeExecutionTool),
    GoogleSearch(GoogleSearchTool),
    GoogleMaps(GoogleMapsTool),
}

pub enum NativeToolView {
    CodeExecution,
    GoogleSearch { dynamic_threshold: Option<JsonView> },
    GoogleMaps { lat_lng: Option<(JsonView, JsonView)>, enable_widget: bool },
}

impl View for GeminiNativeTool {
    type V = NativeToolView;

    open spec fn view(&self) -> NativeToolView {
        match self {
            GeminiNativeTool::CodeExecution(_) => NativeToolView::CodeExecution,
            GeminiNativeTool::GoogleSearch(t) => NativeToolView::GoogleSearch {
                dynamic_threshold: match t.dynamic_threshold {
                    Some(j) => Some(j@),
                    None => None,
                },
            },
            GeminiNativeTool::GoogleMaps(t) => NativeToolView::GoogleMaps {
                lat_lng: match t.lat_lng {
                    Some((a, b)) => Some((a@, b@)),
                    None => None,
                },
                enable_widget: t.enable_widget,
            },
        }
    }
}

impl NativeToolView {
    pub open spec fn key(self) -> Seq<char> {
        match self {
            NativeToolView::CodeExecution => "codeExecution"@,
            NativeToolView::GoogleSearch { .. } => "googleSearch"@,
            NativeToolView::GoogleMaps { .. } => "googleMaps"@,
        }
    }

    /// The tool's entry in the request's `tools` list.
    pub open spec fn declaration(self) -> JsonView {
        match self {
            NativeToolView::CodeExecution => obj(seq![("codeExecution"@, obj(Seq::empty()))]),
            NativeToolView::GoogleSearch { .. } => obj(seq![("googleSearch"@, obj(Seq::empty()))]),
            NativeToolView::GoogleMaps { enable_widget, .. } => obj(seq![(
                "googleMaps"@,
                obj(if enable_widget { seq![("enableWidget"@, JsonView::Bool(true))] } else { Seq::empty() }),
            )]),
        }
    }

    /// The tool's entry in the request's `toolConfig`, if it has one.
    pub open spec fn config(self) -> Option<(Seq<char>, JsonView)> {
        match self {
            NativeToolView::CodeExecution => None,
            NativeToolView::GoogleSearch { dynamic_threshold } => match dynamic_threshold {
                Some(t) => Some((
                    "googleSearchRetrieval"@,
                    obj(seq![(
                        "dynamicRetrievalConfig"@,
                        obj(seq![("mode"@, s("MODE_DYNAMIC"@)), ("dynamicThreshold"@, t)]),
                    )]),
                )),
                None => None,
            },
            NativeToolView::GoogleMaps { lat_lng, .. } => match lat_lng {
                Some((lat, lng)) => Some((
                    "retrievalConfig"@,
                    obj(seq![("latLng"@, obj(seq![("latitude"@, lat), ("longitude"@, lng)]))]),
                )),
                None => None,
            },
        }
    }
}

impl GeminiNativeTool {
    /// The tool's stable identifier key.
    pub fn tool_key(&self) -> (k: &'static str)
        ensures
            k@ == self@.key(),
    {
        match self {
            GeminiNativeTool::CodeExecution(_) => "codeExecution",
            GeminiNativeTool::GoogleSearch(_) => "googleSearch",
            GeminiNativeTool::GoogleMaps(_) => "googleMaps",
        }
    }

    /// Whether the tool is a search tool.
    pub fn is_search(&self) -> (b: bool)
        ensures
            b == (self@ is GoogleSearch),
    {
        match self {
            GeminiNativeTool::GoogleSearch(_) => true,
            _ => false,
        }
    }

    pub fn to_tool_declaration(&self) -> (j: Json)
        ensures
            j@ == self@.declaration(),
    {
        match self {
            GeminiNativeTool::CodeExecution(_) => {
                let inner = Json::object(Vec::new());
                assert(inner@->Object_0 =~= Seq::<(Seq<char>, JsonView)>::empty());
                let j = Json::object(vec![("codeExecution".to_owned(), inner)]);
                assert(j@->Object_0 =~= self@.declaration()->Object_0);
                j
            },
            GeminiNativeTool::GoogleSearch(_) => {
                let inner = Json::object(Vec::new());
                assert(inner@->Object_0 =~= Seq::<(Seq<char>, JsonView)>::empty());
                let j = Json::object(vec![("googleSearch".to_owned(), inner)]);
                assert(j@->Object_0 =~= self@.declaration()->Object_0);
                j
            },
            GeminiNativeTool::GoogleMaps(t) => {
                let mut def: Vec<(String, Json)> = Vec::new();
                if t.enable_widget {
                    def.push(("enableWidget".to_owned(), Json::Bool(true)));
                }
                let inner = Json::object(def);
                let ghost iv = inner@;
                let j = Json::object(vec![("googleMaps".to_owned(), inner)]);
                assert(iv->Object_0 =~= self@.declaration()->Object_0[0].1->Object_0);
                assert(j@->Object_0 =~= self@.declaration()->Object_0);
                j
            },
        }
    }

    pub fn to_tool_config(&self) -> (r: Option<(String, Json)>)
        ensures
            match self@.config() {
                Some((k, v)) => r matches Some(p) && p.0@ == k && p.1@ == v,
                None => r is None,
            },
    {
        match self {
            GeminiNativeTool::CodeExecution(_) => None,
            GeminiNativeTool::GoogleSearch(t) => match &t.dynamic_threshold {
                Some(th) => {
                    let inner = Json::object(vec![
                        ("mode".to_owned(), Json::from_str("MODE_DYNAMIC")),
                        ("dynamicThreshold".to_owned(), th.clone()),
                    ]);
                    let ghost iv = inner@;
                    let v = Json::object(vec![("dynamicRetrievalConfig".to_owned(), inner)]);
                    let ghost want = self@.config()->Some_0.1;
                    assert(iv->Object_0 =~= want->Object_0[0].1->Object_0);
                    assert(v@->Object_0 =~= want->Object_0);
                    Some(("googleSearchRetrieval".to_owned(), v))
                },
                None => None,
            },
            GeminiNativeTool::GoogleMaps(t) => match &t.lat_lng {
                Some((lat, lng)) => {
                    let inner = Json::object(vec![
                        ("latitude".to_owned(), lat.clone()),
                        ("longitude".to_owned(), lng.clone()),
                    ]);
                    let ghost iv = inner@;
                    let v = Json::object(vec![("latLng".to_owned(), inner)]);
                    let ghost want = self@.config()->Some_0.1;
                    assert(iv->Object_0 =~= want->Object_0[0].1->Object_0);
                    assert(v@->Object_0 =~= want->Object_0);
                    Some(("retrievalConfig".to_owned(), v))
                },
                None => None,
            },
        }
    }
}

impl Clone for GeminiNativeTool {
    fn clone(&self) -> (t: Self)
        ensures
            t@ == self@,
    {
        match self {
            GeminiNativeTool::CodeExecution(_) => GeminiNativeTool::CodeExecution(CodeExecutionTool),
            GeminiNativeTool::GoogleSearch(t) => GeminiNativeTool::GoogleSearch(GoogleSearchTool {
                dynamic_threshold: match &t.dynamic_threshold {
                    Some(j) => Some(j.clone()),
                    None => None,
                },
            }),
            GeminiNativeTool::GoogleMaps(t) => GeminiNativeTool::GoogleMaps(GoogleMapsTool {
                lat_lng: match &t.lat_lng {
                    Some((a, b)) => Some((a.clone(), b.clone())),
                    None => None,
                },
                enable_widget: t.enable_widget,
            }),
        }
    }
}

/// How the model may call functions: a mode ("AUTO", "ANY", "NONE") and an
/// optional list of allowed function names.
pub struct FunctionCallingConfig {
    pub mode: Option<String>,
    pub allowed_function_names: Option<Vec<String>>,
}

/// The task an embedding is made for.
pub enum EmbeddingsTask {
    SemanticSimilarity,
    Classification,
    Clustering,
    RetrievalDocument,
    RetrievalQuery,
    Embed,
}

impl Default for EmbeddingsTask {
    fn default() -> (t: Self)
        ensures
            t is Embed,
    {
        EmbeddingsTask::Embed
    }
}

impl Clone for EmbeddingsTask {
    fn clone(&self) -> (t: Self)
        ensures
            t == *self,
    {
        match self {
            EmbeddingsTask::SemanticSimilarity => EmbeddingsTask::SemanticSimilarity,
            EmbeddingsTask::Classification => EmbeddingsTask::Classification,
            EmbeddingsTask::Clustering => EmbeddingsTask::Clustering,
            EmbeddingsTask::RetrievalDocument => EmbeddingsTask::RetrievalDocument,
            EmbeddingsTask::RetrievalQuery => EmbeddingsTask::RetrievalQuery,
            EmbeddingsTask::Embed => EmbeddingsTask::Embed,
        }
    }
}

/// Settings of an embedding request.
pub struct EmbeddingsConfig {
    pub dimensions: Option<usize>,
    pub task: EmbeddingsTask,
}

impl Default for EmbeddingsConfig {
    fn default() -> (c: Self)
        ensures
            c.dimensions is None,
            c.task is Embed,
    {
        EmbeddingsConfig { dimensions: None, task: EmbeddingsTask::Embed }
    }
}

pub open spec fn strings_view(v: Seq<String>) -> Seq<JsonView> {
    Seq::new(v.len(), |i: int| JsonView::Str(v[i]@))
}

impl FunctionCallingConfig {
    /// The members of the `functionCallingConfig` entry.
    pub open spec fn members(self) -> Seq<(Seq<char>, JsonView)> {
        (match self.mode {
            Some(m) => seq![("mode"@, s(m@))],
            None => Seq::empty(),
        }) + (match self.allowed_function_names {
            Some(names) => seq![("allowedFunctionNames"@, JsonView::Array(strings_view(names@)))],
            None => Seq::empty(),
        })
    }
}

} // verus!
