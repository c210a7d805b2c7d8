//! The frame codec: zstd-with-dictionary decompression of firehose frames.
//!
//! The decoder is pre-seeded once with the dictionary and reused across
//! frames; a caller that shares one codec across tasks must serialize
//! access, since the decoder holds mutable internal state.
use vstd::prelude::*;

verus! {

/// Frames larger than this after decompression are rejected.
pub const MAX_FRAME_BYTES: usize = 409600;

#[verifier::external_type_specification]
#[verifier::external_body]
pub struct ExDecompressor<'a>(zstd::bulk::Decompressor<'a>);

/// What zstd decompression under a dictionary yields for a frame: the
/// whole decompressed payload, or nothing when the frame is not a valid
/// zstd block for that dictionary. A function of the two byte strings
/// alone.
pub uninterp spec fn inflate_of(dict: Seq<u8>, frame: Seq<u8>) -> Option<Seq<u8>>;

/// Why a frame was dropped.
#[derive(Debug, PartialEq, Eq, Structural)]
pub enum CodecError {
    /// The payload is corrupt, was compressed under another dictionary, or
    /// inflates past the frame bound.
    BadFrame,
}

/// A zstd decoder seeded with a fixed dictionary, reused across frames.
///
/// The decoder is built from `dict` by the one constructor and never
/// reseeded, so the decoder's dictionary is always the `dict` held beside
/// it; the contract of `raw_inflate` rests on that.
pub struct FrameCodec {
    dict: Vec<u8>,
    dec: zstd::bulk::Decompressor<'static>,
}

impl FrameCodec {
    /// The dictionary this codec was seeded with.
    pub closed spec fn dict(&self) -> Seq<u8> {
        self.dict@
    }

    /// Relies on zstd's `bulk::Decompressor::with_dictionary`: the decoder
    /// it returns is seeded with exactly the given dictionary; an error
    /// leaves no codec. Construction fails only when zstd cannot set up a
    /// decompression context for the dictionary, so no success is promised:
    /// a refused dictionary is a fatal startup condition for the caller.
    #[verifier::external_body]
    pub fn new(dict: Vec<u8>) -> (r: Option<FrameCodec>)
        ensures
            r matches Some(c) ==> c.dict() == dict@,
    {
        match zstd::bulk::Decompressor::with_dictionary(dict.as_slice()) {
            Ok(dec) => Some(FrameCodec { dict, dec }),
            Err(_) => None,
        }
    }

    /// Relies on zstd's `bulk::Decompressor::decompress`: what it returns
    /// is a function of the decoder's dictionary (held beside it in this
    /// struct) and the frame alone. The destination capacity is exactly
    /// `MAX_FRAME_BYTES` on every call, and the call fails only when the
    /// frame is invalid for the dictionary or the payload would exceed
    /// that capacity — so it succeeds whenever the frame inflates within
    /// the bound.
    #[verifier::external_body]
    fn raw_inflate(&mut self, frame: &Vec<u8>) -> (r: Option<Vec<u8>>)
        ensures
            final(self).dict() == old(self).dict(),
            r matches Some(out) ==> inflate_of(old(self).dict(), frame@) == Some(out@)
                && out@.len() <= MAX_FRAME_BYTES,
            r is None ==> !(inflate_of(old(self).dict(), frame@) matches Some(o) && o.len()
                <= MAX_FRAME_BYTES),
    {
        match self.dec.decompress(frame.as_slice(), MAX_FRAME_BYTES) {
            Ok(out) => Some(out),
            Err(_) => None,
        }
    }

    /// Decode one websocket payload: inflate it through the dictionary when
    /// the stream is compressed, hand it back unchanged otherwise. Every
    /// frame that inflates under the dictionary within the frame bound is
    /// decoded; one that does not is dropped as `BadFrame`, never a panic.
    pub fn decode_frame(&mut self, frame: Vec<u8>, compressed: bool) -> (r: Result<
        Vec<u8>,
        CodecError,
    >)
        ensures
            final(self).dict() == old(self).dict(),
            !compressed ==> (r matches Ok(out) && out@ == frame@),
            compressed ==> match r {
                Ok(out) => inflate_of(old(self).dict(), frame@) == Some(out@) && out@.len()
                    <= MAX_FRAME_BYTES,
                Err(e) => e == CodecError::BadFrame && !(inflate_of(old(self).dict(), frame@)
                    matches Some(o) && o.len() <= MAX_FRAME_BYTES),
            },
            compressed ==> match inflate_of(old(self).dict(), frame@) {
                Some(o) => o.len() <= MAX_FRAME_BYTES ==> (r matches Ok(out) && out@ == o),
                None => r is Err,
            },
    {
        if compressed {
            match self.raw_inflate(&frame) {
                Some(out) => Ok(out),
                None => Err(CodecError::BadFrame),
            }
        } else {
            Ok(frame)
        }
    }
}

} // verus!
