//! The compression envelope: a serialized response may travel as the
//! compressed bytes of itself, where that is shorter.

use crate::networking::{stripped, Connection};
use crate::responses::{Response, ResponseView};
use vstd::prelude::*;

verus! {

/// The level at which responses are compressed.
pub const COMPRESSION_LEVEL: i32 = 5;

/// What `zstd::stream::encode_all` makes of `data` at `level`; `None` where it fails.
pub uninterp spec fn zstd_encoded(data: Seq<u8>, level: i32) -> Option<Seq<u8>>;

/// What `zstd::stream::decode_all` makes of `data`; `None` where it fails.
pub uninterp spec fn zstd_decoded(data: Seq<u8>) -> Option<Seq<u8>>;

/// The bytes of an optional byte vector.
pub open spec fn bytes_of(b: Option<Vec<u8>>) -> Option<Seq<u8>> {
    match b {
        Some(v) => Some(v@),
        None => None,
    }
}

/// `zstd::stream::encode_all`: the bytes of `data` compressed into one zstd
/// frame at the given level. The contract names the result, which is the same
/// for the same arguments, and says that decompression gives `data` back:
/// zstd is a lossless compression, as the library that the crate binds
/// documents it.
#[verifier::external_body]
fn encode_all(data: &Vec<u8>, level: i32) -> (r: Option<Vec<u8>>)
    ensures
        bytes_of(r) == zstd_encoded(data@, level),
        r matches Some(c) ==> zstd_decoded(c@) == Some(data@),
{
    zstd::stream::encode_all(data.as_slice(), level).ok()
}

/// `zstd::stream::decode_all`: the bytes that the zstd frames in `data`
/// hold. The contract only names the result; it is the same for the same
/// argument.
#[verifier::external_body]
fn decode_all(data: &Vec<u8>) -> (r: Option<Vec<u8>>)
    ensures
        bytes_of(r) == zstd_decoded(data@),
{
    zstd::stream::decode_all(data.as_slice()).ok()
}

/// Compression pays off where the compressed form has fewer bits.
pub open spec fn pays_off(plain: Seq<u8>, packed: Seq<u8>) -> bool {
    packed.len() * 8 < plain.len() * 8
}

/// The envelope that a serialized response is sent in: `Compressed` around
/// the compressed bytes where compression worked and pays off, none otherwise.
pub open spec fn envelope(plain: Seq<u8>, packed: Option<Seq<u8>>) -> Option<ResponseView> {
    match packed {
        Some(c) => if pays_off(plain, c) {
            Some(ResponseView::Compressed { data: c })
        } else {
            None
        },
        None => None,
    }
}

/// The bytes that a client decodes in place of a `Compressed` response:
/// what the compressed bytes hold, without zero bytes at the end.
pub open spec fn payload_of(decoded: Option<Seq<u8>>) -> Option<Seq<u8>> {
    match decoded {
        Some(b) => Some(stripped(b)),
        None => None,
    }
}

/// What a client makes of a decoded response.
#[derive(Debug, PartialEq, Eq)]
pub enum Unwrapped {
    /// The response itself: it was not wrapped.
    Direct(Response),
    /// The serialized response that was wrapped, to be decoded once more.
    Packed(Vec<u8>),
    /// A wrapped response whose bytes do not decompress.
    Corrupt,
}

/// What `Unwrapped` says.
pub enum UnwrappedView {
    Direct(ResponseView),
    Packed(Seq<u8>),
    Corrupt,
}

impl View for Unwrapped {
    type V = UnwrappedView;

    open spec fn view(&self) -> UnwrappedView {
        match self {
            Unwrapped::Direct(r) => UnwrappedView::Direct(r@),
            Unwrapped::Packed(b) => UnwrappedView::Packed(b@),
            Unwrapped::Corrupt => UnwrappedView::Corrupt,
        }
    }
}

/// Unwrapping: a `Compressed` response gives way to the bytes it holds,
/// every other response stands for itself.
pub open spec fn opened(resp: ResponseView) -> UnwrappedView {
    match resp {
        ResponseView::Compressed { data } => match payload_of(zstd_decoded(data)) {
            Some(b) => UnwrappedView::Packed(b),
            None => UnwrappedView::Corrupt,
        },
        _ => UnwrappedView::Direct(resp),
    }
}

/// The envelope for the serialized response `plain`, whose compressed form
/// is `packed`.
pub fn wrap(plain: &Vec<u8>, packed: Option<Vec<u8>>) -> (r: Option<Response>)
    ensures
        match r {
            Some(resp) => envelope(plain@, bytes_of(packed)) == Some(resp@),
            None => envelope(plain@, bytes_of(packed)) is None,
        },
{
    match packed {
        Some(c) => {
            if c.len() < plain.len() {
                Some(Response::Compressed { data: c })
            } else {
                None
            }
        },
        None => None,
    }
}

/// The envelope for the serialized response `plain`, if compression pays
/// off. A client that unwraps the envelope has `plain` again, without the
/// zero bytes at its end: the response reads the same with or without
/// wrapping.
pub fn compress(plain: &Vec<u8>) -> (r: Option<Response>)
    ensures
        match r {
            Some(resp) => envelope(plain@, zstd_encoded(plain@, COMPRESSION_LEVEL)) == Some(resp@),
            None => envelope(plain@, zstd_encoded(plain@, COMPRESSION_LEVEL)) is None,
        },
        r matches Some(resp) ==> opened(resp@) == UnwrappedView::Packed(stripped(plain@)),
{
    wrap(plain, encode_all(plain, COMPRESSION_LEVEL))
}

/// The bytes to decode, given what decompression returned.
pub fn payload(decoded: Option<Vec<u8>>) -> (r: Option<Vec<u8>>)
    ensures
        bytes_of(r) == payload_of(bytes_of(decoded)),
{
    match decoded {
        Some(b) => Some(Connection::remove_last_zeros(b)),
        None => None,
    }
}

/// What a client makes of a decoded response: a `Compressed` one is
/// decompressed, once.
pub fn unwrap_response(resp: Response) -> (r: Unwrapped)
    ensures
        r@ == opened(resp@),
{
    match resp {
        Response::Compressed { data } => match payload(decode_all(&data)) {
            Some(b) => Unwrapped::Packed(b),
            None => Unwrapped::Corrupt,
        },
        other => Unwrapped::Direct(other),
    }
}

} // verus!
