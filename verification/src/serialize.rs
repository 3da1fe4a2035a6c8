//! Encoding: a header and a body become one byte buffer.

use crate::endian::{
    i64_to_le, lemma_le_bytes_len, to_twos_complement, u128_to_le, u16_to_le, u32_to_le,
};
use crate::message::{MessageHeader, PacketProtocol};
use vstd::prelude::*;

verus! {

impl MessageHeader {
    /// The wire form of a header is 48 bytes long.
    pub proof fn lemma_wire_bytes_len(self)
        ensures
            self.wire_bytes().len() == 48,
    {
        lemma_le_bytes_len(self.project_id as nat, 16);
        lemma_le_bytes_len(to_twos_complement(self.time as int, 8), 8);
        lemma_le_bytes_len(self.interval_ms as nat, 4);
        lemma_le_bytes_len(self.mask_white_ratio as nat, 4);
        lemma_le_bytes_len(self.device_id as nat, 4);
        lemma_le_bytes_len(self.body_size as nat, 4);
        lemma_le_bytes_len(self.state.0 as nat, 2);
    }

    /// Appends the 48 bytes of the header's wire form to `out`.
    pub fn write_to(&self, out: &mut Vec<u8>)
        ensures
            final(out)@ == old(out)@ + self.wire_bytes(),
    {
        out.extend_from_slice(&u128_to_le(self.project_id));
        out.extend_from_slice(&i64_to_le(self.time));
        out.extend_from_slice(&u32_to_le(self.interval_ms));
        out.extend_from_slice(&u32_to_le(self.mask_white_ratio));
        out.extend_from_slice(&u32_to_le(self.device_id));
        out.extend_from_slice(&self.codec);
        out.extend_from_slice(&u32_to_le(self.body_size));
        out.extend_from_slice(&u16_to_le(self.state.0));
        out.push(self.version);
        out.push(self.mask_index);
        assert(out@ =~= old(out)@ + self.wire_bytes());
    }
}

impl PacketProtocol {
    /// The message that carries `header` and `body`: the header's wire form,
    /// then the body as it is.
    pub open spec fn frame(header: MessageHeader, body: Seq<u8>) -> Seq<u8> {
        header.wire_bytes() + body
    }

    /// Encodes a message: the 48 header bytes followed by the body, with
    /// nothing added or changed.
    ///
    /// The header's `body_size` is written as it stands; that it is the
    /// body's length is the caller's business.
    pub fn serialize(header: &MessageHeader, body: &[u8]) -> (packet: Vec<u8>)
        ensures
            packet@ == Self::frame(*header, body@),
            packet@.len() == 48 + body@.len(),
    {
        let mut packet: Vec<u8> = match MessageHeader::SIZE.checked_add(body.len()) {
            Some(total) => Vec::with_capacity(total),
            None => Vec::new(),
        };
        header.write_to(&mut packet);
        packet.extend_from_slice(body);
        proof {
            header.lemma_wire_bytes_len();
            assert(packet@ =~= Self::frame(*header, body@));
        }
        packet
    }
}

} // verus!
