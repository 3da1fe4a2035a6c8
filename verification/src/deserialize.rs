//! Decoding: a byte buffer is checked and split into header and body.

use crate::endian::{i64_from_le, read_array, u128_from_le, u16_from_le, u32_from_le};
use crate::message::{MessageHeader, PacketProtocol, StatusFlags};
use vstd::prelude::*;

verus! {

/// Why a buffer was not accepted as a message.
#[derive(Clone, Copy, PartialEq, Eq, Structural, Debug)]
pub enum DecodeError {
    /// The buffer has fewer than 48 bytes, so it holds no header.
    TooShort,
    /// The header's `body_size` is not the number of bytes that follow it.
    BodySizeMismatch,
}

impl DecodeError {
    /// The text that stands for `self`.
    pub open spec fn message_text(self) -> Seq<char> {
        match self {
            DecodeError::TooShort => "Received data is too short to contain a header"@,
            DecodeError::BodySizeMismatch => "Body size mismatch"@,
        }
    }

    /// A description of the error for a human reader.
    pub fn message(&self) -> (r: &'static str)
        ensures
            r@ == self.message_text(),
    {
        match self {
            DecodeError::TooShort => "Received data is too short to contain a header",
            DecodeError::BodySizeMismatch => "Body size mismatch",
        }
    }
}

impl MessageHeader {
    /// Reads a header from the first 48 bytes of `bytes`.
    pub(crate) fn read_from(bytes: &[u8]) -> (r: Self)
        requires
            bytes@.len() >= 48,
        ensures
            r == Self::from_wire(bytes@.subrange(0, 48)),
    {
        let ghost s = bytes@.subrange(0, 48);
        let project_id = u128_from_le(read_array::<16>(bytes, 0));
        let time = i64_from_le(read_array::<8>(bytes, 16));
        let interval_ms = u32_from_le(read_array::<4>(bytes, 24));
        let mask_white_ratio = u32_from_le(read_array::<4>(bytes, 28));
        let device_id = u32_from_le(read_array::<4>(bytes, 32));
        let codec = read_array::<4>(bytes, 36);
        let body_size = u32_from_le(read_array::<4>(bytes, 40));
        let state = StatusFlags(u16_from_le(read_array::<2>(bytes, 44)));
        let version = bytes[46];
        let mask_index = bytes[47];
        proof {
            broadcast use vstd::array::axiom_array_ext_equal;

            assert(bytes@.subrange(0, 16) =~= s.subrange(0, 16));
            assert(bytes@.subrange(16, 24) =~= s.subrange(16, 24));
            assert(bytes@.subrange(24, 28) =~= s.subrange(24, 28));
            assert(bytes@.subrange(28, 32) =~= s.subrange(28, 32));
            assert(bytes@.subrange(32, 36) =~= s.subrange(32, 36));
            assert(bytes@.subrange(40, 44) =~= s.subrange(40, 44));
            assert(bytes@.subrange(44, 46) =~= s.subrange(44, 46));
            assert(codec =~= Self::from_wire(s).codec);
        }
        MessageHeader {
            project_id,
            time,
            interval_ms,
            mask_white_ratio,
            device_id,
            codec,
            body_size,
            state,
            version,
            mask_index,
        }
    }
}

impl PacketProtocol {
    /// What a buffer decodes to.
    ///
    /// A buffer shorter than a header is `TooShort`. Otherwise its first 48
    /// bytes are read as the header and the rest is the body; where the
    /// header's `body_size` is not exactly the body's length, the buffer is a
    /// `BodySizeMismatch`.
    pub open spec fn parse(bytes: Seq<u8>) -> Result<(MessageHeader, Seq<u8>), DecodeError> {
        if bytes.len() < 48 {
            Err(DecodeError::TooShort)
        } else {
            let header = MessageHeader::from_wire(bytes.subrange(0, 48));
            let body = bytes.subrange(48, bytes.len() as int);
            if header.body_size != body.len() {
                Err(DecodeError::BodySizeMismatch)
            } else {
                Ok((header, body))
            }
        }
    }

    /// A decoding result with the body taken by its contents.
    pub open spec fn outcome(r: Result<(MessageHeader, &[u8]), DecodeError>) -> Result<
        (MessageHeader, Seq<u8>),
        DecodeError,
    > {
        match r {
            Ok((header, body)) => Ok((header, body@)),
            Err(e) => Err(e),
        }
    }

    /// Decodes a message: checks the buffer's shape and returns the header
    /// it starts with and the body that follows, the body as a view into
    /// `bytes`.
    ///
    /// The header is read field by field into a value of its own, so the
    /// buffer may sit at any address.
    pub fn deserialize(bytes: &[u8]) -> (r: Result<(MessageHeader, &[u8]), DecodeError>)
        ensures
            Self::outcome(r) == Self::parse(bytes@),
    {
        if bytes.len() < MessageHeader::SIZE {
            return Err(DecodeError::TooShort);
        }
        let (_, body) = bytes.split_at(MessageHeader::SIZE);
        let header = MessageHeader::read_from(bytes);
        if header.body_size as u64 != body.len() as u64 {
            return Err(DecodeError::BodySizeMismatch);
        }
        Ok((header, body))
    }
}

} // verus!
