//! Small helpers.

use vstd::prelude::*;

verus! {

/// By how much `len` exceeds `max`: `Ok` where it does not, and the excess where
/// it does.
pub fn check_overflow(len: usize, max: usize) -> (r: Result<(), usize>)
    ensures
        r == if len > max {
            Err::<(), usize>((len - max) as usize)
        } else {
            Ok::<(), usize>(())
        },
{
    if len > max {
        Err(len - max)
    } else {
        Ok(())
    }
}

/// The base64 text of `data`, in the standard alphabet and with padding.
pub uninterp spec fn base64_standard(data: Seq<u8>) -> Seq<char>;

/// Whether the base64 text of `len` bytes has a length that fits a `usize`.
pub open spec fn base64_fits(len: nat) -> bool {
    len / 3 * 4 + 4 <= usize::MAX
}

/// Calls `Engine::encode` of the crate `base64` on its engine `STANDARD`. The
/// result is the base64 text of `data` in the standard alphabet, padded with `=`.
/// The call panics where the length of that text does not fit a `usize`, so such
/// data is not admitted.
#[verifier::external_body]
fn base64_encode(data: &Vec<u8>) -> (r: String)
    requires
        base64_fits(data@.len()),
    ensures
        r@ == base64_standard(data@),
{
    base64::Engine::encode(&base64::engine::general_purpose::STANDARD, data)
}

/// Whether `data` is short enough to be encoded: every `Vec` that fits into
/// memory is.
pub fn can_encode_image(data: &Vec<u8>) -> (r: bool)
    ensures
        r == base64_fits(data@.len()),
{
    data.len() / 3 <= (usize::MAX - 4) / 4
}

/// The data address of an image whose base64 text is `encoded`:
/// `data:image/png;base64,` followed by the text.
pub fn image_address(encoded: &str) -> (r: String)
    ensures
        r@ == "data:image/png;base64,"@ + encoded@,
{
    String::from_str("data:image/png;base64,").concat(encoded)
}

/// The image `data` as a data address: `data:image/png;base64,` followed by the
/// base64 text of the data.
pub fn encode_image(data: &Vec<u8>) -> (r: String)
    requires
        base64_fits(data@.len()),
    ensures
        r@ == "data:image/png;base64,"@ + base64_standard(data@),
{
    let encoded = base64_encode(data);
    image_address(encoded.as_str())
}

} // verus!
