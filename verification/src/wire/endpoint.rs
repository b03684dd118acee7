use vstd::prelude::*;

use crate::chars::{chars_of, push_str, string_from_chars};
use crate::decimal::{decimal, u16_to_string};
use crate::urls::{parse_url, url_parse, UrlPartsView};

verus! {

/// The text with every trailing `/` removed.
pub open spec fn trim_trailing_slashes(s: Seq<char>) -> Seq<char>
    decreases s.len(),
{
    if s.len() > 0 && s.last() == '/' {
        trim_trailing_slashes(s.drop_last())
    } else {
        s
    }
}

proof fn lemma_trim_at(s: Seq<char>, n: int)
    requires
        0 <= n <= s.len(),
        forall|j: int| n <= j < s.len() ==> s[j] == '/',
        n == 0 || s[n - 1] != '/',
    ensures
        trim_trailing_slashes(s) == s.take(n),
    decreases s.len(),
{
    if n == s.len() {
        assert(s.take(n) =~= s);
    } else {
        assert(s.drop_last().take(n) =~= s.take(n));
        lemma_trim_at(s.drop_last(), n);
    }
}

/// Removes every trailing `/` of `s`.
pub fn trim_end_slashes(s: &str) -> (r: String)
    ensures
        r@ == trim_trailing_slashes(s@),
{
    let cs = chars_of(s);
    let mut n: usize = cs.len();
    while n > 0 && cs[n - 1] == '/'
        invariant
            n <= cs@.len(),
            cs@ == s@,
            forall|j: int| n <= j < cs@.len() ==> cs@[j] == '/',
        decreases n,
    {
        n = n - 1;
    }
    proof {
        lemma_trim_at(s@, n as int);
    }
    let mut out: Vec<char> = Vec::new();
    let mut k: usize = 0;
    while k < n
        invariant
            k <= n <= cs@.len(),
            out@ == cs@.take(k as int),
        decreases n - k,
    {
        out.push(cs[k]);
        proof {
            assert(cs@.take(k + 1) =~= cs@.take(k as int).push(cs@[k as int]));
        }
        k = k + 1;
    }
    string_from_chars(&out)
}

/// Where requests to an API go: the scheme, the host (with the port when the
/// URL names one) and the base path.
pub struct BaseUrl {
    pub scheme: String,
    pub host: String,
    pub base_path: String,
}

/// The endpoint of a parsed URL: its scheme, its host with `:` and the port
/// when it has an explicit port, and its path without trailing `/`; nothing
/// when it has no host.
pub open spec fn endpoint_of(p: UrlPartsView) -> Option<(Seq<char>, Seq<char>, Seq<char>)> {
    match p.host {
        None => None,
        Some(h) => Some((
            p.scheme,
            h + match p.port {
                Some(n) => ":"@ + decimal(n as nat),
                None => Seq::empty(),
            },
            trim_trailing_slashes(p.path),
        )),
    }
}

/// The endpoint of a base URL: what `endpoint_of` gives for its parse, and
/// nothing when it does not parse.
pub open spec fn base_url_spec(url: Seq<char>) -> Option<(Seq<char>, Seq<char>, Seq<char>)> {
    match url_parse(url) {
        Ok(p) => endpoint_of(p),
        Err(_) => None,
    }
}

/// Splits a base URL into where requests go; nothing when the URL does not
/// parse or has no host.
pub fn base_url_parts(url: &str) -> (r: Option<BaseUrl>)
    ensures
        match base_url_spec(url@) {
            Some((scheme, host, path)) => r matches Some(b) && b.scheme@ == scheme && b.host@ == host
                && b.base_path@ == path,
            None => r is None,
        },
{
    let parsed = match parse_url(url) {
        Ok(p) => p,
        Err(_) => {
            return None;
        },
    };
    let host = match &parsed.host {
        Some(h) => h,
        None => {
            return None;
        },
    };
    let mut out: Vec<char> = Vec::new();
    push_str(&mut out, host.as_str());
    match parsed.port {
        Some(port) => {
            push_str(&mut out, ":");
            let digits = u16_to_string(port);
            push_str(&mut out, digits.as_str());
        },
        None => {},
    }
    let host_port = string_from_chars(&out);
    proof {
        let p = parsed@;
        assert(host_port@ =~= endpoint_of(p)->Some_0.1);
    }
    Some(BaseUrl { scheme: parsed.scheme.clone(), host: host_port, base_path: trim_end_slashes(parsed.path.as_str()) })
}


/// Trimming keeps a prefix of the text, removes only `/`, leaves no `/` at
/// the end, and trimming again changes nothing.
pub proof fn lemma_trim_trailing_slashes(s: Seq<char>)
    ensures
        trim_trailing_slashes(s).len() <= s.len(),
        trim_trailing_slashes(s) == s.take(trim_trailing_slashes(s).len() as int),
        forall|i: int| trim_trailing_slashes(s).len() <= i < s.len() ==> s[i] == '/',
        trim_trailing_slashes(s).len() == 0 || trim_trailing_slashes(s).last() != '/',
        trim_trailing_slashes(trim_trailing_slashes(s)) == trim_trailing_slashes(s),
    decreases s.len(),
{
    if s.len() > 0 && s.last() == '/' {
        lemma_trim_trailing_slashes(s.drop_last());
        let t = trim_trailing_slashes(s.drop_last());
        assert(s.drop_last().take(t.len() as int) =~= s.take(t.len() as int));
        assert forall|i: int| t.len() <= i < s.len() implies s[i] == '/' by {
            if i < s.len() - 1 {
                assert(s.drop_last()[i] == '/');
            }
        }
    } else {
        assert(s.take(s.len() as int) =~= s);
    }
}

} // verus!
