use vstd::prelude::*;

verus! {

/// The byte preview put into diagnostics is clipped to 30 KB so that its
/// size is bounded whatever the payload size.
pub const PREVIEW_LIMIT: usize = 30720;

/// What `String::from_utf8_lossy` returns for given bytes; a function of the
/// bytes alone.
pub uninterp spec fn lossy_utf8(bytes: Seq<u8>) -> Seq<char>;

/// Relies on String::from_utf8_lossy: decodes bytes as UTF-8, replacing
/// invalid sequences; the result depends on the bytes alone.
#[verifier::external_body]
fn utf8_lossy(bytes: &[u8]) -> (r: String)
    ensures
        r@ == lossy_utf8(bytes@),
{
    String::from_utf8_lossy(bytes).into_owned()
}

/// A bounded textual representation of a body for diagnostics: the bytes,
/// clipped to the preview limit, decoded as UTF-8 with lossy replacement.
pub fn text_repr(bytes: &[u8]) -> (r: String)
    ensures
        bytes@.len() <= PREVIEW_LIMIT ==> r@ == lossy_utf8(bytes@),
        bytes@.len() > PREVIEW_LIMIT ==> r@ == lossy_utf8(bytes@.take(PREVIEW_LIMIT as int)),
{
    if bytes.len() > PREVIEW_LIMIT {
        let clipped: &[u8] = &bytes[0..PREVIEW_LIMIT];
        proof {
            assert(clipped@ =~= bytes@.take(PREVIEW_LIMIT as int));
        }
        utf8_lossy(clipped)
    } else {
        utf8_lossy(bytes)
    }
}

} // verus!
