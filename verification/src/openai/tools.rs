use vstd::prelude::*;

use crate::json::{Json, JsonView};
use crate::wire::responses::{obj, s};

verus! {

/// How much context a web search gathers.
pub enum SearchContextSizeEnum {
    Low,
    High,
    Medium,
}

/// Where the user is, as far as they tell.
pub struct UserLocation {
    pub city: Option<String>,
    pub region: Option<String>,
    pub country: Option<String>,
    pub timezone: Option<String>,
}

/// OpenAI's web search tool.
pub struct WebSearchTool {
    pub context_size: Option<SearchContextSizeEnum>,
    pub user_location: Option<UserLocation>,
}

pub open spec fn context_size_name(c: SearchContextSizeEnum) -> Seq<char> {
    match c {
        SearchContextSizeEnum::Low => "Low"@,
        SearchContextSizeEnum::High => "High"@,
        SearchContextSizeEnum::Medium => "Medium"@,
    }
}

pub open spec fn opt_text(o: Option<String>) -> JsonView {
    match o {
        Some(t) => s(t@),
        None => JsonView::Null,
    }
}

pub open spec fn location_json(l: UserLocation) -> JsonView {
    obj(
        seq![
            ("city"@, opt_text(l.city)),
            ("region"@, opt_text(l.region)),
            ("country"@, opt_text(l.country)),
            ("timezone"@, opt_text(l.timezone)),
        ],
    )
}

impl WebSearchTool {
    /// The tool's declaration: its type, and its context size and user
    /// location (null when not given).
    pub open spec fn declaration(self) -> JsonView {
        obj(
            seq![
                ("type"@, s("web_search"@)),
                (
                    "web_search"@,
                    obj(
                        seq![
                            ("context_size"@, match self.context_size {
                                Some(c) => s(context_size_name(c)),
                                None => JsonView::Null,
                            }),
                            ("user_location"@, match self.user_location {
                                Some(l) => location_json(l),
                                None => JsonView::Null,
                            }),
                        ],
                    ),
                ),
            ],
        )
    }

    pub fn tool_key(&self) -> (k: &'static str)
        ensures
            k@ == "web_search"@,
    {
        "web_search"
    }

    pub fn to_tool_declaration(&self) -> (j: Json)
        ensures
            j@ == self.declaration(),
    {
        let cs = match &self.context_size {
            Some(SearchContextSizeEnum::Low) => Json::from_str("Low"),
            Some(SearchContextSizeEnum::High) => Json::from_str("High"),
            Some(SearchContextSizeEnum::Medium) => Json::from_str("Medium"),
            None => Json::Null,
        };
        let loc = match &self.user_location {
            Some(l) => {
                let j = Json::object(
                    vec![
                        ("city".to_owned(), opt_string_json(&l.city)),
                        ("region".to_owned(), opt_string_json(&l.region)),
                        ("country".to_owned(), opt_string_json(&l.country)),
                        ("timezone".to_owned(), opt_string_json(&l.timezone)),
                    ],
                );
                assert(j@->Object_0 =~= location_json(*l)->Object_0);
                j
            },
            None => Json::Null,
        };
        let ghost csv = cs@;
        let ghost locv = loc@;
        let inner = Json::object(vec![("context_size".to_owned(), cs), ("user_location".to_owned(), loc)]);
        assert(inner@->Object_0 =~= seq![("context_size"@, csv), ("user_location"@, locv)]);
        let ghost iv = inner@;
        assert(iv->Object_0 =~= self.declaration()->Object_0[1].1->Object_0);
        let j = Json::object(vec![("type".to_owned(), Json::from_str("web_search")), ("web_search".to_owned(), inner)]);
        assert(j@->Object_0 =~= self.declaration()->Object_0);
        j
    }

    /// Web search needs no tool configuration.
    pub fn to_tool_config(&self) -> (r: Option<(String, Json)>)
        ensures
            r is None,
    {
        None
    }
}

fn opt_string_json(o: &Option<String>) -> (j: Json)
    ensures
        j@ == opt_text(*o),
{
    match o {
        Some(t) => Json::string(t.clone()),
        None => Json::Null,
    }
}

/// The size of generated images.
pub enum ImageSize {
    Square,
    Portrait,
    Landscape,
    Auto,
}

pub enum ImageQuality {
    Low,
    Medium,
    High,
    Auto,
}

pub enum ImageBackground {
    Transparent,
    Opaque,
    Auto,
}

pub enum ImageOutputFormat {
    Png,
    Jpeg,
    Webp,
}

pub open spec fn size_name(v: ImageSize) -> Seq<char> {
    match v {
        ImageSize::Square => "1024x1024"@,
        ImageSize::Portrait => "1024x1536"@,
        ImageSize::Landscape => "1536x1024"@,
        ImageSize::Auto => "auto"@,
    }
}

pub open spec fn quality_name(v: ImageQuality) -> Seq<char> {
    match v {
        ImageQuality::Low => "low"@,
        ImageQuality::Medium => "medium"@,
        ImageQuality::High => "high"@,
        ImageQuality::Auto => "auto"@,
    }
}

pub open spec fn background_name(v: ImageBackground) -> Seq<char> {
    match v {
        ImageBackground::Transparent => "transparent"@,
        ImageBackground::Opaque => "opaque"@,
        ImageBackground::Auto => "auto"@,
    }
}

pub open spec fn format_name(v: ImageOutputFormat) -> Seq<char> {
    match v {
        ImageOutputFormat::Png => "png"@,
        ImageOutputFormat::Jpeg => "jpeg"@,
        ImageOutputFormat::Webp => "webp"@,
    }
}

/// OpenAI's image generation tool, with its optional settings.
pub struct ImageGenerationTool {
    pub size: Option<ImageSize>,
    pub quality: Option<ImageQuality>,
    pub background: Option<ImageBackground>,
    pub output_format: Option<ImageOutputFormat>,
    pub n: Option<u32>,
}

impl Default for ImageGenerationTool {
    fn default() -> (t: Self)
        ensures
            t.size is None,
            t.quality is None,
            t.background is None,
            t.output_format is None,
            t.n is None,
    {
        ImageGenerationTool { size: None, quality: None, background: None, output_format: None, n: None }
    }
}

pub open spec fn member_if<T>(o: Option<T>, key: Seq<char>, value: spec_fn(T) -> JsonView) -> Seq<(Seq<char>, JsonView)> {
    match o {
        Some(x) => seq![(key, value(x))],
        None => Seq::empty(),
    }
}

impl ImageGenerationTool {
    /// The tool's declaration: its type and each setting that is given.
    pub open spec fn declaration(self) -> JsonView {
        obj(
            seq![("type"@, s("image_generation"@))]
                + member_if(self.size, "size"@, |v: ImageSize| s(size_name(v)))
                + member_if(self.quality, "quality"@, |v: ImageQuality| s(quality_name(v)))
                + member_if(self.background, "background"@, |v: ImageBackground| s(background_name(v)))
                + member_if(self.output_format, "output_format"@, |v: ImageOutputFormat| s(format_name(v)))
                + member_if(self.n, "n"@, |v: u32| JsonView::UInt(v as u64)),
        )
    }

    pub fn tool_key(&self) -> (k: &'static str)
        ensures
            k@ == "image_generation"@,
    {
        "image_generation"
    }

    pub fn to_tool_declaration(&self) -> (j: Json)
        ensures
            j@ == self.declaration(),
    {
        let mut m: Vec<(String, Json)> = vec![("type".to_owned(), Json::from_str("image_generation"))];
        let ghost m0 = crate::json::fields_view(m@);
        assert(m0 =~= seq![("type"@, s("image_generation"@))]);
        match &self.size {
            Some(v) => {
                let t = match v {
                    ImageSize::Square => "1024x1024",
                    ImageSize::Portrait => "1024x1536",
                    ImageSize::Landscape => "1536x1024",
                    ImageSize::Auto => "auto",
                };
                m.push(("size".to_owned(), Json::from_str(t)));
            },
            None => {},
        }
        let ghost m1 = crate::json::fields_view(m@);
        assert(m1 =~= m0 + member_if(self.size, "size"@, |v: ImageSize| s(size_name(v))));
        match &self.quality {
            Some(v) => {
                let t = match v {
                    ImageQuality::Low => "low",
                    ImageQuality::Medium => "medium",
                    ImageQuality::High => "high",
                    ImageQuality::Auto => "auto",
                };
                m.push(("quality".to_owned(), Json::from_str(t)));
            },
            None => {},
        }
        let ghost m2 = crate::json::fields_view(m@);
        assert(m2 =~= m1 + member_if(self.quality, "quality"@, |v: ImageQuality| s(quality_name(v))));
        match &self.background {
            Some(v) => {
                let t = match v {
                    ImageBackground::Transparent => "transparent",
                    ImageBackground::Opaque => "opaque",
                    ImageBackground::Auto => "auto",
                };
                m.push(("background".to_owned(), Json::from_str(t)));
            },
            None => {},
        }
        let ghost m3 = crate::json::fields_view(m@);
        assert(m3 =~= m2 + member_if(self.background, "background"@, |v: ImageBackground| s(background_name(v))));
        match &self.output_format {
            Some(v) => {
                let t = match v {
                    ImageOutputFormat::Png => "png",
                    ImageOutputFormat::Jpeg => "jpeg",
                    ImageOutputFormat::Webp => "webp",
                };
                m.push(("output_format".to_owned(), Json::from_str(t)));
            },
            None => {},
        }
        let ghost m4 = crate::json::fields_view(m@);
        assert(m4 =~= m3 + member_if(self.output_format, "output_format"@, |v: ImageOutputFormat| s(format_name(v))));
        match self.n {
            Some(n) => {
                m.push(("n".to_owned(), Json::UInt(n as u64)));
            },
            None => {},
        }
        assert(crate::json::fields_view(m@) =~= m4 + member_if(self.n, "n"@, |v: u32| JsonView::UInt(v as u64)));
        Json::object(m)
    }

    /// Image generation needs no tool configuration.
    pub fn to_tool_config(&self) -> (r: Option<(String, Json)>)
        ensures
            r is None,
    {
        None
    }
}

/// The native tools of OpenAI.
pub enum OpenAINativeTool {
    WebSearch(WebSearchTool),
    ImageGeneration(ImageGenerationTool),
}

impl OpenAINativeTool {
    pub open spec fn declaration(self) -> JsonView {
        match self {
            OpenAINativeTool::WebSearch(t) => t.declaration(),
            OpenAINativeTool::ImageGeneration(t) => t.declaration(),
        }
    }

    pub fn tool_key(&self) -> (k: &'static str)
        ensures
            k@ == match self {
                OpenAINativeTool::WebSearch(_) => "web_search"@,
                OpenAINativeTool::ImageGeneration(_) => "image_generation"@,
            },
    {
        match self {
            OpenAINativeTool::WebSearch(t) => t.tool_key(),
            OpenAINativeTool::ImageGeneration(t) => t.tool_key(),
        }
    }

    /// OpenAI's native tools are no search tools in the Gemini sense.
    pub fn is_search(&self) -> (b: bool)
        ensures
            !b,
    {
        false
    }

    pub fn to_tool_declaration(&self) -> (j: Json)
        ensures
            j@ == self.declaration(),
    {
        match self {
            OpenAINativeTool::WebSearch(t) => t.to_tool_declaration(),
            OpenAINativeTool::ImageGeneration(t) => t.to_tool_declaration(),
        }
    }

    pub fn to_tool_config(&self) -> (r: Option<(String, Json)>)
        ensures
            r is None,
    {
        None
    }
}

} // verus!
