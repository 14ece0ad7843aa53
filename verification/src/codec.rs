//! Encoding strategies and the byte-to-text encoders behind them.
//!
//! A file is stored as standard base64 of its bytes; a file routed to the
//! image strategy gets a data-URI form whose media type is read off the
//! file's leading magic bytes.

use vstd::prelude::*;
use vstd::string::StringExecFns;
use vstd::utf8::valid_utf8;

verus! {

/// How a file's bytes become the text stored in the lookup table.
#[derive(Clone, Copy, Debug, PartialEq, Eq, Structural)]
pub enum Strategy {
    Image,
    Text,
}

/// The media types the image encoder recognises, each by its magic bytes.
#[derive(Clone, Copy, Debug, PartialEq, Eq, Structural)]
pub enum ImageKind {
    Jpeg,
    Png,
    Gif,
}

/// Standard base64 (RFC 4648 alphabet, padded) of a byte sequence, as
/// `base64::encode` produces it.
pub uninterp spec fn b64_of(bytes: Seq<u8>) -> Seq<char>;

/// The image kind that the leading four bytes announce, if any.
pub open spec fn spec_image_kind(bytes: Seq<u8>) -> Option<ImageKind> {
    if bytes.len() >= 4 {
        if bytes[0] == 0xffu8 && bytes[1] == 0xd8u8 && bytes[2] == 0xffu8 && bytes[3] == 0xe0u8 {
            Some(ImageKind::Jpeg)
        } else if bytes[0] == 0x89u8 && bytes[1] == 0x50u8 && bytes[2] == 0x4eu8 && bytes[3]
            == 0x47u8 {
            Some(ImageKind::Png)
        } else if bytes[0] == 0x47u8 && bytes[1] == 0x49u8 && bytes[2] == 0x46u8 && bytes[3]
            == 0x38u8 {
            Some(ImageKind::Gif)
        } else {
            None
        }
    } else {
        None
    }
}

/// The data-URI prefix put in front of an image's base64 payload.
pub open spec fn image_prefix(k: ImageKind) -> Seq<char> {
    match k {
        ImageKind::Jpeg => "data:image/jpeg;base64,"@,
        ImageKind::Png => "data:image/png;base64,"@,
        ImageKind::Gif => "data:image/gif;base64,"@,
    }
}

pub open spec fn opt_string_view(s: Option<String>) -> Option<Seq<char>> {
    match s {
        Some(t) => Some(t@),
        None => None,
    }
}

/// A "png" extension selects the image strategy; everything else is text.
pub open spec fn spec_strategy(extension: Option<Seq<char>>) -> Strategy {
    match extension {
        Some(e) => if e == "png"@ {
            Strategy::Image
        } else {
            Strategy::Text
        },
        None => Strategy::Text,
    }
}

/// Whether the bytes can be encoded at all under the strategy: text must be
/// valid UTF-8, an image must carry a known magic number.
pub open spec fn spec_encodable(strategy: Strategy, bytes: Seq<u8>) -> bool {
    match strategy {
        Strategy::Text => valid_utf8(bytes),
        Strategy::Image => spec_image_kind(bytes) is Some,
    }
}

/// The encoded content: base64 of the bytes, with a data-URI prefix in front
/// for an image. None exactly where the strategy rejects the bytes.
pub open spec fn spec_content(strategy: Strategy, bytes: Seq<u8>) -> Option<Seq<char>> {
    match strategy {
        Strategy::Text => if valid_utf8(bytes) {
            Some(b64_of(bytes))
        } else {
            None
        },
        Strategy::Image => match spec_image_kind(bytes) {
            Some(k) => Some(image_prefix(k) + b64_of(bytes)),
            None => None,
        },
    }
}

/// Relies on `base64::encode`: standard-alphabet, padded base64 of the bytes.
#[verifier::external_body]
pub(crate) fn encode_base64(bytes: &Vec<u8>) -> (r: String)
    ensures
        r@ == b64_of(bytes@),
{
    base64::encode(bytes)
}

/// Relies on `base64::decode`: it inverts `base64::encode` (same standard
/// alphabet and padding), returning the bytes the text was encoded from.
#[verifier::external_body]
pub(crate) fn decode_base64(content: &str) -> (r: Option<Vec<u8>>)
    ensures
        forall|b: Seq<u8>|
            content@ == #[trigger] b64_of(b) ==> r is Some && r->Some_0@ == b,
{
    match base64::decode(content) {
        Ok(v) => Some(v),
        Err(_) => None,
    }
}

/// Relies on `image_base64::from_base64`: it drops everything through the
/// first comma and base64-decodes the rest (standard alphabet, padded), so on
/// a data URI built from an image prefix and a base64 payload it returns the
/// bytes the payload was encoded from.
#[verifier::external_body]
pub(crate) fn decode_image_data(content: String) -> (r: Vec<u8>)
    requires
        exists|k: ImageKind, b: Seq<u8>|
            #![trigger image_prefix(k), b64_of(b)]
            content@ == image_prefix(k) + b64_of(b),
    ensures
        forall|k: ImageKind, b: Seq<u8>|
            #![trigger image_prefix(k), b64_of(b)]
            content@ == image_prefix(k) + b64_of(b) ==> r@ == b,
{
    image_base64::from_base64(content)
}

/// Relies on `core::str::from_utf8`: it returns Ok exactly on valid UTF-8.
#[verifier::external_body]
pub(crate) fn is_valid_text(bytes: &Vec<u8>) -> (r: bool)
    ensures
        r == valid_utf8(bytes@),
{
    match core::str::from_utf8(bytes.as_slice()) {
        Ok(_) => true,
        Err(_) => false,
    }
}

/// Relies on str's `PartialEq`: two strings are equal exactly when their
/// character sequences are.
#[verifier::external_body]
pub(crate) fn str_eq(a: &str, b: &str) -> (r: bool)
    ensures
        r == (a@ == b@),
{
    a == b
}

/// Picks the encoding strategy from the file's extension.
pub fn strategy_of(extension: &Option<String>) -> (r: Strategy)
    ensures
        r == spec_strategy(opt_string_view(*extension)),
{
    match extension {
        Some(e) => if str_eq(e.as_str(), "png") {
            Strategy::Image
        } else {
            Strategy::Text
        },
        None => Strategy::Text,
    }
}

/// Reads the image kind off the bytes' magic number.
pub fn image_kind_of(bytes: &Vec<u8>) -> (r: Option<ImageKind>)
    ensures
        r == spec_image_kind(bytes@),
{
    if bytes.len() >= 4 {
        let b0 = bytes[0];
        let b1 = bytes[1];
        let b2 = bytes[2];
        let b3 = bytes[3];
        if b0 == 0xff && b1 == 0xd8 && b2 == 0xff && b3 == 0xe0 {
            Some(ImageKind::Jpeg)
        } else if b0 == 0x89 && b1 == 0x50 && b2 == 0x4e && b3 == 0x47 {
            Some(ImageKind::Png)
        } else if b0 == 0x47 && b1 == 0x49 && b2 == 0x46 && b3 == 0x38 {
            Some(ImageKind::Gif)
        } else {
            None
        }
    } else {
        None
    }
}

fn image_prefix_str(k: ImageKind) -> (r: &'static str)
    ensures
        r@ == image_prefix(k),
{
    match k {
        ImageKind::Jpeg => "data:image/jpeg;base64,",
        ImageKind::Png => "data:image/png;base64,",
        ImageKind::Gif => "data:image/gif;base64,",
    }
}

/// Encodes a file's bytes under the strategy; None exactly where the bytes
/// cannot be encoded (text that is not UTF-8, an image of no known kind).
pub fn encode_content(strategy: Strategy, bytes: &Vec<u8>) -> (r: Option<String>)
    ensures
        r is Some <==> spec_encodable(strategy, bytes@),
        (r matches Some(s) ==> Some(s@) == spec_content(strategy, bytes@)),
{
    match strategy {
        Strategy::Text => {
            if is_valid_text(bytes) {
                Some(encode_base64(bytes))
            } else {
                None
            }
        },
        Strategy::Image => {
            match image_kind_of(bytes) {
                Some(k) => {
                    let mut content = image_prefix_str(k).to_owned();
                    let payload = encode_base64(bytes);
                    content.append(payload.as_str());
                    Some(content)
                },
                None => None,
            }
        },
    }
}

/// Decodes an encoded content back to the bytes it was made from; it is the
/// inverse of `encode_content` (`roundtrip_content` packages the two for
/// callers that hold the raw bytes).
pub fn decode_content(strategy: Strategy, content: &str) -> (r: Vec<u8>)
    requires
        exists|b: Seq<u8>| Some(content@) == #[trigger] spec_content(strategy, b),
    ensures
        forall|b: Seq<u8>| Some(content@) == #[trigger] spec_content(strategy, b) ==> r@ == b,
{
    proof {
        let b0 = choose|b: Seq<u8>| Some(content@) == #[trigger] spec_content(strategy, b);
        assert(spec_content(strategy, b0) is Some);
    }
    match strategy {
        Strategy::Text => {
            let decoded = decode_base64(content);
            decoded.unwrap()
        },
        Strategy::Image => {
            proof {
                let b0 = choose|b: Seq<u8>| Some(content@) == #[trigger] spec_content(
                    strategy,
                    b,
                );
                let k0 = spec_image_kind(b0)->Some_0;
                assert(content@ == image_prefix(k0) + b64_of(b0));
            }
            decode_image_data(content.to_owned())
        },
    }
}

/// Round trip: content encoded from a file's bytes decodes back to exactly
/// those bytes, under either strategy; None exactly where the bytes cannot
/// be encoded at all.
pub fn roundtrip_content(strategy: Strategy, bytes: &Vec<u8>) -> (r: Option<Vec<u8>>)
    ensures
        r is Some <==> spec_encodable(strategy, bytes@),
        (r matches Some(v) ==> v@ == bytes@),
{
    match encode_content(strategy, bytes) {
        Some(content) => {
            proof {
                assert(Some(content@) == spec_content(strategy, bytes@));
            }
            let v = decode_content(strategy, content.as_str());
            Some(v)
        },
        None => None,
    }
}

} // verus!
