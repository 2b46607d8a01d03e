//! Lossy text previews of received bytes.

use vstd::prelude::*;
use vstd::slice::slice_subrange;

verus! {

/// The text that lossy UTF-8 decoding gives for a byte sequence: valid
/// sequences decode as themselves, each invalid one becomes U+FFFD.
pub uninterp spec fn lossy_text(bytes: Seq<u8>) -> Seq<char>;

/// Relies on `String::from_utf8_lossy`: its result depends on the bytes alone.
#[verifier::external_body]
fn decode_lossy(bytes: &[u8]) -> (r: String)
    ensures
        r@ == lossy_text(bytes@),
{
    String::from_utf8_lossy(bytes).into_owned()
}

/// The text preview of the first `len` bytes of a read buffer.
pub fn preview(buf: &[u8], len: usize) -> (r: String)
    requires
        len <= buf@.len(),
    ensures
        r@ == lossy_text(buf@.subrange(0, len as int)),
{
    decode_lossy(slice_subrange(buf, 0, len))
}

/// Decoding is a function of the bytes: the same bytes, decoded again, give
/// the same preview.
pub proof fn preview_is_deterministic(a: Seq<u8>, b: Seq<u8>)
    requires
        a == b,
    ensures
        lossy_text(a) == lossy_text(b),
{
}

} // verus!
