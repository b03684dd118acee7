use vstd::prelude::*;

use crate::urls::{parse_url, url_parse, UrlPartsView};

verus! {

/// A MIME type such as `image/png`.
#[derive(Debug)]
pub struct MimeType(pub String);

impl MimeType {
    pub fn from(s: String) -> (m: MimeType)
        ensures
            m.0 == s,
    {
        MimeType(s)
    }

    pub fn as_str(&self) -> (s: &str)
        ensures
            s@ == self.0@,
    {
        self.0.as_str()
    }

    /// The MIME type's text.
    pub fn to_string(&self) -> (s: String)
        ensures
            s@ == self.0@,
    {
        self.0.clone()
    }
}

impl Clone for MimeType {
    fn clone(&self) -> (m: Self)
        ensures
            m == *self,
    {
        MimeType(self.0.clone())
    }
}

/// Bytes of a file with their MIME type.
#[derive(Debug)]
pub struct RawData {
    pub mimetype: MimeType,
    pub bytes: Vec<u8>,
}

impl RawData {
    pub fn from(raw: Vec<u8>, mimetype: String) -> (d: RawData)
        ensures
            d.bytes == raw,
            d.mimetype.0 == mimetype,
    {
        RawData { bytes: raw, mimetype: MimeType(mimetype) }
    }
}

/// A file by URL, with an optional MIME type. The URL is kept in the form
/// the URL parser serializes it to.
#[derive(Debug)]
pub struct UrlData {
    pub url: String,
    pub mimetype: Option<MimeType>,
}

/// Why a file could not be made.
#[derive(Debug)]
pub enum FileError {
    /// The URL did not parse; the parser's message.
    InvalidUrl(String),
}

pub enum FileView {
    Url { url: Seq<char>, mimetype: Option<Seq<char>> },
    Bytes { mime: Seq<char>, bytes: Seq<u8> },
}

pub open spec fn opt_mime(m: Option<MimeType>) -> Option<Seq<char>> {
    match m {
        Some(t) => Some(t.0@),
        None => None,
    }
}

impl View for UrlData {
    type V = (Seq<char>, Option<Seq<char>>);

    open spec fn view(&self) -> (Seq<char>, Option<Seq<char>>) {
        (self.url@, opt_mime(self.mimetype))
    }
}

impl UrlData {
    /// Parses `s` as a URL and makes a `UrlData` with no MIME type.
    pub fn from_str(s: &str) -> (r: Result<UrlData, FileError>)
        ensures
            match url_parse(s@) {
                Ok(p) => r matches Ok(d) && d@ == (p.serialized, None::<Seq<char>>),
                Err(e) => r matches Err(FileError::InvalidUrl(m)) && m@ == e,
            },
    {
        match parse_url(s) {
            Ok(p) => Ok(UrlData { url: p.serialized, mimetype: None }),
            Err(e) => Err(FileError::InvalidUrl(e)),
        }
    }

    /// Parses `url` and makes a `UrlData` with the given MIME type.
    pub fn from(url: &str, mimetype: String) -> (r: Result<UrlData, FileError>)
        ensures
            match url_parse(url@) {
                Ok(p) => r matches Ok(d) && d@ == (p.serialized, Some(mimetype@)),
                Err(e) => r matches Err(FileError::InvalidUrl(m)) && m@ == e,
            },
    {
        match parse_url(url) {
            Ok(p) => Ok(UrlData { url: p.serialized, mimetype: Some(MimeType(mimetype)) }),
            Err(e) => Err(FileError::InvalidUrl(e)),
        }
    }

    /// Sets the MIME type.
    pub fn with_mimetype(&mut self, mimetype: MimeType)
        ensures
            final(self).url == old(self).url,
            final(self).mimetype == Some(mimetype),
    {
        self.mimetype = Some(mimetype);
    }
}

/// A file attached to a message: by URL or by its bytes.
#[derive(Debug)]
pub enum File {
    Url(UrlData),
    Bytes(RawData),
}

impl View for File {
    type V = FileView;

    open spec fn view(&self) -> FileView {
        match self {
            File::Url(u) => FileView::Url { url: u.url@, mimetype: opt_mime(u.mimetype) },
            File::Bytes(r) => FileView::Bytes { mime: r.mimetype.0@, bytes: r.bytes@ },
        }
    }
}

impl Clone for File {
    fn clone(&self) -> (f: Self)
        ensures
            f@ == self@,
    {
        match self {
            File::Url(u) => File::Url(UrlData {
                url: u.url.clone(),
                mimetype: match &u.mimetype {
                    Some(m) => Some(m.clone()),
                    None => None,
                },
            }),
            File::Bytes(r) => File::Bytes(RawData { mimetype: r.mimetype.clone(), bytes: r.bytes.clone() }),
        }
    }
}

/// The MIME type guessed from a file extension (compared in lower case).
pub open spec fn mime_for_lowercase_extension(ext: Seq<char>) -> Seq<char> {
    if ext == "png"@ {
        "image/png"@
    } else if ext == "jpg"@ || ext == "jpeg"@ {
        "image/jpeg"@
    } else if ext == "webp"@ {
        "image/webp"@
    } else if ext == "gif"@ {
        "image/gif"@
    } else if ext == "bmp"@ {
        "image/bmp"@
    } else {
        "application/octet-stream"@
    }
}

/// The lower-case form of a text, as `str::to_lowercase` gives it.
pub uninterp spec fn lowercase(s: Seq<char>) -> Seq<char>;

/// Wraps `str::to_lowercase`; its result is named `lowercase`.
#[verifier::external_body]
pub(crate) fn to_lowercase(s: &str) -> (r: String)
    ensures
        r@ == lowercase(s@),
{
    s.to_lowercase()
}

/// Whether two texts are equal.
pub fn str_eq(a: &str, b: &str) -> (r: bool)
    ensures
        r == (a@ == b@),
{
    a.to_owned() == b.to_owned()
}

impl File {
    pub fn from_bytes(bytes: Vec<u8>, mimetype: String) -> (f: File)
        ensures
            f@ == (FileView::Bytes { mime: mimetype@, bytes: bytes@ }),
    {
        File::Bytes(RawData::from(bytes, mimetype))
    }

    /// The MIME type for a file with extension `ext` (none when the path has
    /// no extension that is valid text).
    pub fn mimetype_for_extension(ext: Option<&str>) -> (m: String)
        ensures
            m@ == mime_for_lowercase_extension(match ext {
                Some(e) => lowercase(e@),
                None => lowercase(""@),
            }),
    {
        let lower = match ext {
            Some(e) => to_lowercase(e),
            None => to_lowercase(""),
        };
        let l = lower.as_str();
        proof {
            reveal_strlit("png");
            reveal_strlit("jpg");
            reveal_strlit("jpeg");
            reveal_strlit("webp");
            reveal_strlit("gif");
            reveal_strlit("bmp");
        }
        if str_eq(l, "png") {
            "image/png".to_owned()
        } else if str_eq(l, "jpg") || str_eq(l, "jpeg") {
            "image/jpeg".to_owned()
        } else if str_eq(l, "webp") {
            "image/webp".to_owned()
        } else if str_eq(l, "gif") {
            "image/gif".to_owned()
        } else if str_eq(l, "bmp") {
            "image/bmp".to_owned()
        } else {
            "application/octet-stream".to_owned()
        }
    }

    /// A file read from a path: its bytes, with the given MIME type or, when
    /// none is given, the one guessed from the path's extension.
    pub fn from_path_bytes(bytes: Vec<u8>, extension: Option<&str>, mimetype: Option<String>) -> (f: File)
        ensures
            f@ == (FileView::Bytes {
                mime: match mimetype {
                    Some(m) => m@,
                    None => mime_for_lowercase_extension(match extension {
                        Some(e) => lowercase(e@),
                        None => lowercase(""@),
                    }),
                },
                bytes: bytes@,
            }),
    {
        let m = match mimetype {
            Some(m) => m,
            None => File::mimetype_for_extension(extension),
        };
        File::from_bytes(bytes, m)
    }

    /// A file by URL, with the MIME type when one is given.
    pub fn from_url(url: &str, mimetype: Option<&str>) -> (r: Result<File, FileError>)
        ensures
            match url_parse(url@) {
                Ok(p) => r matches Ok(f) && f@ == (FileView::Url {
                    url: p.serialized,
                    mimetype: match mimetype {
                        Some(m) => Some(m@),
                        None => None,
                    },
                }),
                Err(e) => r matches Err(FileError::InvalidUrl(m)) && m@ == e,
            },
    {
        let u = match mimetype {
            Some(m) => UrlData::from(url, m.to_owned()),
            None => UrlData::from_str(url),
        };
        match u {
            Ok(d) => Ok(File::Url(d)),
            Err(e) => Err(e),
        }
    }
}

} // verus!
