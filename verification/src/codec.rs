//! Trusted boundary to the zstd streaming compressor.
//!
//! The encoder is opaque to verification. Its state is modeled by two
//! uninterpreted names: `fed_bytes`, the sequence of raw bytes fed so far,
//! and `fed_level`, the compression level it was created with. The finished
//! frame is named by `frame_bytes`, a function of the level and the fed
//! bytes alone: every encoder built here uses the codec's default parameters
//! and an empty dictionary, and the codec is deterministic over those.

use vstd::prelude::*;

verus! {

/// One streaming zstd compressor writing into an in-memory sink.
///
/// Held opaquely: verification sees it only through `fed_bytes` and
/// `fed_level` and the contracts of the functions below.
#[verifier::external_body]
pub struct RawEncoder {
    enc: zstd::stream::write::Encoder<'static, Vec<u8>>,
}

#[verifier::external_type_specification]
#[verifier::external_body]
pub struct ExIoError(std::io::Error);

/// The raw bytes fed to a streaming encoder so far, in order.
pub uninterp spec fn fed_bytes(enc: RawEncoder) -> Seq<u8>;

/// The compression level a streaming encoder was created with.
pub uninterp spec fn fed_level(enc: RawEncoder) -> int;

/// The complete compressed frame the codec produces, at the given level,
/// for the given payload.
pub uninterp spec fn frame_bytes(level: int, data: Seq<u8>) -> Seq<u8>;

/// Relies on `zstd::stream::write::Encoder::new`: builds a fresh streaming
/// compressor at the requested level (out-of-range levels are clamped by the
/// codec), with default parameters, no dictionary, and no bytes fed yet.
#[verifier::external_body]
pub(crate) fn encoder_new(level: i32) -> (r: Result<RawEncoder, std::io::Error>)
    ensures
        r matches Ok(enc) ==> fed_bytes(enc) == Seq::<u8>::empty() && fed_level(enc)
            == level as int,
{
    match zstd::stream::write::Encoder::new(Vec::new(), level) {
        Ok(enc) => Ok(RawEncoder { enc }),
        Err(e) => Err(e),
    }
}

/// Relies on `std::io::Write::write_all` on the encoder: on success the whole
/// buffer has been consumed by the compressor, appended to the bytes fed so
/// far; on failure the encoder's state is unspecified.
#[verifier::external_body]
pub(crate) fn encoder_write(enc: &mut RawEncoder, buf: &[u8]) -> (r: Result<(), std::io::Error>)
    ensures
        r matches Ok(_) ==> fed_bytes(*final(enc)) == fed_bytes(*old(enc)) + buf@ && fed_level(
            *final(enc),
        ) == fed_level(*old(enc)),
{
    std::io::Write::write_all(&mut enc.enc, buf)
}

/// Relies on `zstd::stream::write::Encoder::finish`: ends the stream, flushes
/// all buffered output and the frame epilogue into the sink, and returns the
/// sink. The frame is a function of the level and the bytes fed, and of
/// nothing else.
#[verifier::external_body]
pub(crate) fn encoder_finish(enc: RawEncoder) -> (r: Result<Vec<u8>, std::io::Error>)
    ensures
        r matches Ok(out) ==> out@ == frame_bytes(fed_level(enc), fed_bytes(enc)),
{
    enc.enc.finish()
}

} // verus!
