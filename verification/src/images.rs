//! Images as the host takes them: a data URL with the bytes in base64.

use base64::Engine;
use vstd::prelude::*;
use vstd::string::StringExecFns;

verus! {

/// The standard base64 text of `bytes`, with padding, as the `base64`
/// crate writes it.
pub uninterp spec fn base64_standard(bytes: Seq<u8>) -> Seq<char>;

/// The text that stands before the base64 of a PNG in a data URL.
pub open spec fn png_prefix() -> Seq<char> {
    "data:image/png;base64,"@
}

/// Calls `Engine::encode` of the `base64` crate on its `STANDARD` engine.
/// The contract names the text that it returns. The call fails only where
/// the length of the output does not fit a `usize`, which no vector's
/// length reaches.
#[verifier::external_body]
fn encode_standard(bytes: &Vec<u8>) -> (r: String)
    ensures
        r@ == base64_standard(bytes@),
{
    base64::engine::general_purpose::STANDARD.encode(bytes)
}

/// Puts base64 text behind the prefix of a PNG data URL.
pub fn png_data_url(encoded: &str) -> (r: String)
    ensures
        r@ == png_prefix() + encoded@,
{
    let mut out = String::from_str("data:image/png;base64,");
    out.append(encoded);
    out
}

/// The data URL of a PNG image; nothing where there is no image.
pub fn image_to_base64(img: Option<Vec<u8>>) -> (r: Option<String>)
    ensures
        match img {
            Some(bytes) => r.is_some() && r.unwrap()@ == png_prefix() + base64_standard(bytes@),
            None => r.is_none(),
        },
{
    match img {
        Some(bytes) => {
            let encoded = encode_standard(&bytes);
            Some(png_data_url(encoded.as_str()))
        },
        None => None,
    }
}

} // verus!
