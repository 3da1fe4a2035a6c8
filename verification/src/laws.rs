//! What holds between encoding and decoding.

use crate::deserialize::DecodeError;
use crate::endian::{
    from_twos_complement, le_bytes, le_value, lemma_le_bytes_len, lemma_le_bytes_of_value,
    lemma_le_value_bound, lemma_le_value_of_bytes, lemma_pow256_values,
    lemma_twos_complement_inverse, lemma_twos_complement_round_trip, to_twos_complement,
};
use crate::message::{MessageHeader, PacketProtocol};
use vstd::prelude::*;

verus! {

/// Reading a header's wire form gives the header back, field for field.
pub proof fn lemma_header_round_trip(header: MessageHeader)
    ensures
        header.wire_bytes().len() == 48,
        MessageHeader::from_wire(header.wire_bytes()) == header,
{
    broadcast use vstd::array::axiom_array_ext_equal;

    let s = header.wire_bytes();
    let time = to_twos_complement(header.time as int, 8);
    header.lemma_wire_bytes_len();
    lemma_pow256_values();
    lemma_le_bytes_len(header.project_id as nat, 16);
    lemma_le_bytes_len(time, 8);
    lemma_le_bytes_len(header.interval_ms as nat, 4);
    lemma_le_bytes_len(header.mask_white_ratio as nat, 4);
    lemma_le_bytes_len(header.device_id as nat, 4);
    lemma_le_bytes_len(header.body_size as nat, 4);
    lemma_le_bytes_len(header.state.0 as nat, 2);
    lemma_twos_complement_round_trip(header.time as int, 8);
    lemma_le_value_of_bytes(header.project_id as nat, 16);
    lemma_le_value_of_bytes(time, 8);
    lemma_le_value_of_bytes(header.interval_ms as nat, 4);
    lemma_le_value_of_bytes(header.mask_white_ratio as nat, 4);
    lemma_le_value_of_bytes(header.device_id as nat, 4);
    lemma_le_value_of_bytes(header.body_size as nat, 4);
    lemma_le_value_of_bytes(header.state.0 as nat, 2);
    assert(s.subrange(0, 16) =~= le_bytes(header.project_id as nat, 16));
    assert(s.subrange(16, 24) =~= le_bytes(time, 8));
    assert(s.subrange(24, 28) =~= le_bytes(header.interval_ms as nat, 4));
    assert(s.subrange(28, 32) =~= le_bytes(header.mask_white_ratio as nat, 4));
    assert(s.subrange(32, 36) =~= le_bytes(header.device_id as nat, 4));
    assert(s.subrange(36, 40) =~= header.codec@);
    assert(s.subrange(40, 44) =~= le_bytes(header.body_size as nat, 4));
    assert(s.subrange(44, 46) =~= le_bytes(header.state.0 as nat, 2));
    let read = MessageHeader::from_wire(s);
    assert(read.codec =~= header.codec);
}

/// Writing the header that 48 bytes stand for gives those bytes back: every
/// byte of a header's wire form belongs to one of its fields.
pub proof fn lemma_wire_round_trip(s: Seq<u8>)
    requires
        s.len() == 48,
    ensures
        MessageHeader::from_wire(s).wire_bytes() == s,
{
    let header = MessageHeader::from_wire(s);
    lemma_pow256_values();
    lemma_le_value_bound(s.subrange(0, 16));
    lemma_le_value_bound(s.subrange(16, 24));
    lemma_le_value_bound(s.subrange(24, 28));
    lemma_le_value_bound(s.subrange(28, 32));
    lemma_le_value_bound(s.subrange(32, 36));
    lemma_le_value_bound(s.subrange(40, 44));
    lemma_le_value_bound(s.subrange(44, 46));
    lemma_twos_complement_inverse(le_value(s.subrange(16, 24)), 8);
    lemma_le_bytes_of_value(s.subrange(0, 16));
    lemma_le_bytes_of_value(s.subrange(16, 24));
    lemma_le_bytes_of_value(s.subrange(24, 28));
    lemma_le_bytes_of_value(s.subrange(28, 32));
    lemma_le_bytes_of_value(s.subrange(32, 36));
    lemma_le_bytes_of_value(s.subrange(40, 44));
    lemma_le_bytes_of_value(s.subrange(44, 46));
    assert(header.codec@ =~= s.subrange(36, 40));
    assert(header.wire_bytes() =~= s);
}

/// Round trip: a message encoded from a header and a body whose length the
/// header declares decodes to that header and that body.
pub proof fn lemma_parse_frame(header: MessageHeader, body: Seq<u8>)
    requires
        header.body_size == body.len(),
    ensures
        PacketProtocol::parse(PacketProtocol::frame(header, body)) == Ok::<
            (MessageHeader, Seq<u8>),
            DecodeError,
        >((header, body)),
{
    let bytes = PacketProtocol::frame(header, body);
    lemma_header_round_trip(header);
    assert(bytes.subrange(0, 48) =~= header.wire_bytes());
    assert(bytes.subrange(48, bytes.len() as int) =~= body);
}

/// A buffer that decodes is the encoding of what it decodes to, and its
/// header declares the body's length.
pub proof fn lemma_frame_parsed(bytes: Seq<u8>, header: MessageHeader, body: Seq<u8>)
    requires
        PacketProtocol::parse(bytes) == Ok::<(MessageHeader, Seq<u8>), DecodeError>(
            (header, body),
        ),
    ensures
        PacketProtocol::frame(header, body) == bytes,
        header.body_size == body.len(),
        bytes.len() == 48 + body.len(),
{
    lemma_wire_round_trip(bytes.subrange(0, 48));
    assert(PacketProtocol::frame(header, body) =~= bytes);
}

/// Decoding depends on nothing but the buffer's contents: two results
/// that are both what one buffer decodes to are equal, header and body or
/// error.
pub proof fn lemma_decode_repeatable(
    bytes: Seq<u8>,
    first: Result<(MessageHeader, &[u8]), DecodeError>,
    second: Result<(MessageHeader, &[u8]), DecodeError>,
)
    requires
        PacketProtocol::outcome(first) == PacketProtocol::parse(bytes),
        PacketProtocol::outcome(second) == PacketProtocol::parse(bytes),
    ensures
        PacketProtocol::outcome(first) == PacketProtocol::outcome(second),
        first is Ok <==> second is Ok,
        first matches Ok((h1, b1)) ==> second matches Ok((h2, b2)) && h1 == h2 && b1@ == b2@,
        first matches Err(e1) ==> second matches Err(e2) && e1 == e2,
{
}

/// The length boundary: a buffer is too short exactly when it has fewer
/// than 48 bytes, whatever they are; and 48 bytes whose header declares an
/// empty body decode to that header and no body.
pub proof fn lemma_parse_length_boundary(bytes: Seq<u8>)
    ensures
        bytes.len() < 48 <==> PacketProtocol::parse(bytes) == Err::<
            (MessageHeader, Seq<u8>),
            DecodeError,
        >(DecodeError::TooShort),
        bytes.len() == 48 && MessageHeader::from_wire(bytes).body_size == 0
            ==> PacketProtocol::parse(bytes) == Ok::<(MessageHeader, Seq<u8>), DecodeError>(
            (MessageHeader::from_wire(bytes), Seq::<u8>::empty()),
        ),
{
    if bytes.len() == 48 {
        assert(bytes.subrange(0, 48) =~= bytes);
        assert(bytes.subrange(48, 48) =~= Seq::<u8>::empty());
    }
}

/// The size check is exact: a buffer that holds a header is a mismatch
/// exactly when the number its bytes 40 to 43 spell, little-endian, is not
/// the count of bytes after the header; one byte short is enough.
pub proof fn lemma_parse_size_mismatch(bytes: Seq<u8>)
    ensures
        PacketProtocol::parse(bytes) == Err::<(MessageHeader, Seq<u8>), DecodeError>(
            DecodeError::BodySizeMismatch,
        ) <==> bytes.len() >= 48 && le_value(bytes.subrange(40, 44)) != bytes.len() - 48,
{
    if bytes.len() >= 48 {
        lemma_pow256_values();
        lemma_le_value_bound(bytes.subrange(40, 44));
        assert(bytes.subrange(0, 48).subrange(40, 44) =~= bytes.subrange(40, 44));
    }
}

} // verus!
