//! Bytes as text, by the `base64` crate.
use base64::Engine;
use vstd::prelude::*;

verus! {

/// What the standard base64 alphabet, with padding, makes of some bytes.
pub uninterp spec fn base64_standard(bytes: Seq<u8>) -> Seq<char>;

/// Whether the length of the encoding of so many bytes can be computed: four
/// characters for every three bytes, and four more, fit a `usize`.
pub open spec fn encodable(len: nat) -> bool {
    len / 3 * 4 + 4 <= usize::MAX
}

/// Calls `Engine::encode` on `general_purpose::STANDARD`. The result is
/// named. The call panics where the length of the result does not fit a
/// `usize`, so such an input is left out.
#[verifier::external_body]
pub(crate) fn encode_standard(bytes: &Vec<u8>) -> (r: String)
    requires
        encodable(bytes@.len()),
    ensures
        r@ == base64_standard(bytes@),
{
    base64::engine::general_purpose::STANDARD.encode(bytes)
}

/// Some bytes in base64, or `None` where there are too many of them for the
/// length of the result to fit a `usize`.
pub fn encode(bytes: &Vec<u8>) -> (r: Option<String>)
    ensures
        r is Some == encodable(bytes@.len()),
        r is Some ==> r->0@ == base64_standard(bytes@),
{
    if bytes.len() / 3 <= (usize::MAX - 4) / 4 {
        Some(encode_standard(bytes))
    } else {
        None
    }
}

} // verus!
