//! The encode/decode contract shared by every PLDM message.

use vstd::prelude::*;
use crate::wire::write_to_prefix;

verus! {

#[derive(Debug, Clone, Copy, PartialEq, Eq, Structural)]
pub enum PldmCodecError {
    BufferTooShort,
    Unsupported,
    InvalidData,
}

/// What an encoder that writes `bytes` does to a buffer: on success it
/// reports `bytes.len()` and the buffer starts with `bytes`, the rest as it
/// was; when the buffer is too short it reports `BufferTooShort` and leaves
/// the buffer untouched.
pub open spec fn encoded(
    before: Seq<u8>,
    after: Seq<u8>,
    bytes: Seq<u8>,
    r: Result<usize, PldmCodecError>,
) -> bool {
    match r {
        Ok(n) => n == bytes.len() && bytes.len() <= before.len() && after == bytes + before.skip(
            n as int,
        ),
        Err(e) => e == PldmCodecError::BufferTooShort && before.len() < bytes.len() && after
            == before,
    }
}

/// Writes `bytes` to the front of `buffer`, as `encoded` describes.
pub fn put(bytes: &Vec<u8>, buffer: &mut [u8]) -> (r: Result<usize, PldmCodecError>)
    ensures
        encoded(old(buffer)@, final(buffer)@, bytes@, r),
{
    if write_to_prefix(bytes.as_slice(), buffer) {
        Ok(bytes.len())
    } else {
        Err(PldmCodecError::BufferTooShort)
    }
}

/// Encoding and decoding of a PLDM message that owns all of its data.
///
/// `encodable` holds of the values that can be encoded, `encoding` is the exact byte image of a value and `decoding` the exact
/// outcome of decoding a byte sequence; `encode` and `decode` implement them.
pub trait PldmCodec: Sized {
    /// Values that `encode` accepts.
    spec fn encodable(&self) -> bool;

    spec fn encoding(&self) -> Seq<u8>;

    spec fn decoding(bytes: Seq<u8>) -> Result<Self, PldmCodecError>;

    fn encode(&self, buffer: &mut [u8]) -> (r: Result<usize, PldmCodecError>)
        requires
            self.encodable(),
        ensures
            encoded(old(buffer)@, final(buffer)@, self.encoding(), r),
    ;

    fn decode(buffer: &[u8]) -> (r: Result<Self, PldmCodecError>)
        ensures
            r == Self::decoding(buffer@),
    ;
}

/// Encoding and decoding of a PLDM message that borrows part of its data
/// from the buffer it was decoded from. Each implementation states what its
/// `encode` and `decode` do.
/// A message whose encoding always has the same length.
pub trait FixedLength: PldmCodec {
    /// The length of every encoding.
    spec fn encoded_len() -> nat;

    /// Every encoding has the fixed length and decodes back to the message,
    /// whatever follows it; decoding fails with `BufferTooShort` exactly on
    /// buffers shorter than that length.
    proof fn lemma_fixed_length(m: Self, rest: Seq<u8>, b: Seq<u8>)
        ensures
            m.encoding().len() == Self::encoded_len(),
            Self::decoding(m.encoding() + rest) == Ok::<Self, PldmCodecError>(m),
            Self::decoding(b) == Err::<Self, PldmCodecError>(PldmCodecError::BufferTooShort) <==> b.len()
                < Self::encoded_len(),
    ;
}

pub trait PldmCodecWithLifetime<'a>: Sized {
    fn encode(&self, buffer: &mut [u8]) -> (r: Result<usize, PldmCodecError>);

    fn decode(buffer: &'a [u8]) -> (r: Result<Self, PldmCodecError>);
}

} // verus!
