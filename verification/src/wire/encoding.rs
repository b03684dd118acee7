use base64::Engine;
use vstd::prelude::*;

verus! {

/// The standard (RFC 4648, padded) base64 text of some bytes.
pub uninterp spec fn base64_standard(bytes: Seq<u8>) -> Seq<char>;

/// Wraps `base64::engine::general_purpose::STANDARD.encode`; its result is
/// named `base64_standard`. Every output has four characters for each started
/// group of three bytes.
#[verifier::external_body]
pub(crate) fn base64_encode(bytes: &[u8]) -> (s: String)
    ensures
        s@ == base64_standard(bytes@),
        s@.len() == (bytes@.len() + 2) / 3 * 4,
{
    base64::engine::general_purpose::STANDARD.encode(bytes)
}

/// `data:{mime};base64,{data}`
pub open spec fn data_uri(mime: Seq<char>, bytes: Seq<u8>) -> Seq<char> {
    "data:"@ + mime + ";base64,"@ + base64_standard(bytes)
}

pub fn make_data_uri(mime: &str, bytes: &[u8]) -> (s: String)
    ensures
        s@ == data_uri(mime@, bytes@),
{
    "data:".to_owned().concat(mime).concat(";base64,").concat(base64_encode(bytes).as_str())
}

} // verus!
