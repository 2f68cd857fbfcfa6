use vstd::prelude::*;

verus! {

/// The text that lossy UTF-8 decoding yields for a byte sequence:
/// well-formed UTF-8 passes through unchanged and each ill-formed sequence
/// is replaced by the replacement character. The mapping depends on the
/// bytes alone; it is named here rather than spelled out, and
/// `String::from_utf8_lossy` computes it.
pub uninterp spec fn lossy_utf8(bytes: Seq<u8>) -> Seq<char>;

/// Relies on `String::from_utf8_lossy`: total over arbitrary bytes — no
/// payload is ever rejected — and a function of the bytes alone.
#[verifier::external_body]
pub(crate) fn decode_lossy(bytes: &[u8]) -> (text: String)
    ensures
        text@ == lossy_utf8(bytes@),
{
    String::from_utf8_lossy(bytes).into_owned()
}

} // verus!
