use vstd::prelude::*;

verus! {

/// The parts of a parsed URL that the library reads.
pub struct UrlParts {
    /// The URL as it serializes.
    pub serialized: String,
    pub scheme: String,
    pub host: Option<String>,
    pub port: Option<u16>,
    pub path: String,
}

pub struct UrlPartsView {
    pub serialized: Seq<char>,
    pub scheme: Seq<char>,
    pub host: Option<Seq<char>>,
    pub port: Option<u16>,
    pub path: Seq<char>,
}

impl View for UrlParts {
    type V = UrlPartsView;

    open spec fn view(&self) -> UrlPartsView {
        UrlPartsView {
            serialized: self.serialized@,
            scheme: self.scheme@,
            host: match self.host {
                Some(h) => Some(h@),
                None => None,
            },
            port: self.port,
            path: self.path@,
        }
    }
}

/// What `url::Url::parse` makes of a text: the parsed URL's parts, or the
/// text of the parse error.
pub uninterp spec fn url_parse(s: Seq<char>) -> Result<UrlPartsView, Seq<char>>;

/// Wraps `url::Url::parse`, reading the parsed URL's serialization, scheme,
/// host, explicit port and path, or the error's text. The result is whatever
/// the `url` crate makes of `s`, named `url_parse`.
#[verifier::external_body]
pub(crate) fn parse_url(s: &str) -> (r: Result<UrlParts, String>)
    ensures
        match r {
            Ok(p) => url_parse(s@) == Ok::<UrlPartsView, Seq<char>>(p@),
            Err(e) => url_parse(s@) == Err::<UrlPartsView, Seq<char>>(e@),
        },
{
    match url::Url::parse(s) {
        Ok(u) => Ok(UrlParts {
            serialized: u.as_str().to_string(),
            scheme: u.scheme().to_string(),
            host: match u.host_str() {
                Some(h) => Some(h.to_string()),
                None => None,
            },
            port: u.port(),
            path: u.path().to_string(),
        }),
        Err(e) => Err(e.to_string()),
    }
}

} // verus!
