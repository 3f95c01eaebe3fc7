//! Packing response bytes for transport: compression and text encoding.

use vstd::prelude::*;

verus! {

/// The xz stream that `xz2::read::XzEncoder` at level 9 makes of the bytes.
pub uninterp spec fn xz_stream(data: Seq<u8>) -> Seq<u8>;

/// The text that the standard base64 engine of `base64` makes of the bytes.
pub uninterp spec fn base64_standard(data: Seq<u8>) -> Seq<char>;

/// The bytes are few enough for their base64 text to have a length that the
/// machine can count.
pub open spec fn encodable(len: nat) -> bool {
    len / 3 * 4 + 4 <= usize::MAX
}

/// Reads an `xz2::read::XzEncoder` at level 9 over the bytes to its end with
/// `std::io::Read::read_to_end`: always the compressed stream. The encoder's
/// `read` returns no error on input from a slice, so the read to the end has
/// none to pass on. An error of the encoder itself does not come back
/// either: `read` unwraps it, and it arises only where memory runs out.
#[verifier::external_body]
fn xz_encode(data: &[u8]) -> (r: Option<Vec<u8>>)
    ensures
        r is Some,
        r matches Some(c) ==> c@ == xz_stream(data@),
{
    let mut c: Vec<u8> = Vec::new();
    let mut compressed = xz2::read::XzEncoder::new(data, 9);
    match std::io::Read::read_to_end(&mut compressed, &mut c) {
        Ok(_) => Some(c),
        Err(_) => None,
    }
}

/// Calls `base64::Engine::encode` on `base64::engine::general_purpose::STANDARD`:
/// the base64 text of the bytes. The engine panics where the length of the
/// text overflows, which `requires` leaves out.
#[verifier::external_body]
fn base64_encode(data: &[u8]) -> (r: String)
    requires
        encodable(data@.len()),
    ensures
        r@ == base64_standard(data@),
{
    base64::Engine::encode(&base64::engine::general_purpose::STANDARD, data)
}

/// Compresses the bytes: always the xz stream of the bytes.
pub fn compress(data: &[u8]) -> (r: Option<Vec<u8>>)
    ensures
        crate::text::opt_bytes(r) == Some(xz_stream(data@)),
{
    xz_encode(data)
}

/// The base64 text of the bytes. `None` where the bytes are too many for
/// the text's length to be counted.
pub fn encode_text(data: &[u8]) -> (r: Option<String>)
    ensures
        r is Some <==> encodable(data@.len()),
        r matches Some(s) ==> s@ == base64_standard(data@),
{
    if data.len() / 3 <= (usize::MAX - 4) / 4 {
        Some(base64_encode(data))
    } else {
        None
    }
}

/// Compresses the bytes and encodes the compressed stream as base64 text.
/// `None` where, and only where, the stream is too long for the length of
/// its text to be counted.
pub fn compress_and_encode(image: &[u8]) -> (r: Option<String>)
    ensures
        crate::text::opt_text(r) == packed_text(Some(xz_stream(image@))),
        r is Some <==> encodable(xz_stream(image@).len()),
{
    encode_compressed(compress(image))
}

/// The text that stands for what compression gave: the base64 text of the
/// stream, and none where there is no stream or the stream is too long for
/// its text's length to be counted.
pub open spec fn packed_text(compressed: Option<Seq<u8>>) -> Option<Seq<char>> {
    match compressed {
        Some(c) => if encodable(c.len()) {
            Some(base64_standard(c))
        } else {
            None
        },
        None => None,
    }
}

/// Encodes what compression gave as base64 text: the step of
/// `compress_and_encode` that follows the compression.
pub fn encode_compressed(compressed: Option<Vec<u8>>) -> (r: Option<String>)
    ensures
        crate::text::opt_text(r) == packed_text(crate::text::opt_bytes(compressed)),
{
    match compressed {
        Some(c) => encode_text(c.as_slice()),
        None => None,
    }
}

} // verus!
