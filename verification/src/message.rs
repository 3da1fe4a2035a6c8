//! The header record and the status bitset it carries.

use crate::endian::{from_twos_complement, le_bytes, le_value, to_twos_complement};
use crate::hex::{hex_literal, hex_string};
use crate::CURRENT_PROTOCOL_VERSION;
use vstd::prelude::*;
use vstd::std_specs::cmp::PartialEqSpecImpl;
use vstd::std_specs::ops::{BitAndSpecImpl, BitOrSpec, BitOrSpecImpl};
use vstd::string::*;

verus! {

/// Namespace for the framing operations.
pub struct PacketProtocol;

/// The role a packet plays in an exchange.
pub enum PacketType {
    Request,
    Response,
    Notification,
}

/// A 16-bit set of device and session status bits.
///
/// Bits 0 to 14 are named; bit 15 is reserved. Two values are equal when
/// their sixteen bits are.
#[derive(Clone, Copy, PartialEq, Eq, Structural, Debug)]
pub struct StatusFlags(pub u16);

impl StatusFlags {
    /// Bit 0.
    pub const CATCH_MOVE: u16 = 0x0001;

    /// Bit 1.
    pub const SILENCE: u16 = 0x0002;

    /// Bit 2.
    pub const REST_SENSING: u16 = 0x0004;

    /// Bit 3.
    pub const AWAKE_SENSING: u16 = 0x0008;

    /// Bit 4.
    pub const START_DEVICE: u16 = 0x0010;

    /// Bit 5.
    pub const REST_PUSH: u16 = 0x0020;

    /// Bit 6.
    pub const ORDER_PASS: u16 = 0x0040;

    /// Bit 7.
    pub const ORDER_ERROR: u16 = 0x0080;

    /// Bit 8.
    pub const TRANSE_EDGE: u16 = 0x0100;

    /// Bit 9.
    pub const TRANSE_DIFF: u16 = 0x0200;

    /// Bit 10.
    pub const TRANSE_CON: u16 = 0x0400;

    /// Bit 11.
    pub const TRY_RESTART: u16 = 0x0800;

    /// Bit 12.
    pub const UNWORK_CAMERA: u16 = 0x1000;

    /// Bit 13.
    pub const DISCONNECT: u16 = 0x2000;

    /// Bit 14.
    pub const CONNECT: u16 = 0x4000;

    /// Every named bit.
    pub const KNOWN: u16 = 0x7fff;

    /// The flag `CATCH_MOVE` alone.
    pub fn catch_move() -> (r: Self)
        ensures
            r.0 == Self::CATCH_MOVE,
    {
        StatusFlags(Self::CATCH_MOVE)
    }

    /// The flag `SILENCE` alone.
    pub fn silence() -> (r: Self)
        ensures
            r.0 == Self::SILENCE,
    {
        StatusFlags(Self::SILENCE)
    }

    /// The flag `REST_SENSING` alone.
    pub fn rest_sensing() -> (r: Self)
        ensures
            r.0 == Self::REST_SENSING,
    {
        StatusFlags(Self::REST_SENSING)
    }

    /// The flag `AWAKE_SENSING` alone.
    pub fn awake_sensing() -> (r: Self)
        ensures
            r.0 == Self::AWAKE_SENSING,
    {
        StatusFlags(Self::AWAKE_SENSING)
    }

    /// The flag `START_DEVICE` alone.
    pub fn start_device() -> (r: Self)
        ensures
            r.0 == Self::START_DEVICE,
    {
        StatusFlags(Self::START_DEVICE)
    }

    /// The flag `REST_PUSH` alone.
    pub fn rest_push() -> (r: Self)
        ensures
            r.0 == Self::REST_PUSH,
    {
        StatusFlags(Self::REST_PUSH)
    }

    /// The flag `ORDER_PASS` alone.
    pub fn order_pass() -> (r: Self)
        ensures
            r.0 == Self::ORDER_PASS,
    {
        StatusFlags(Self::ORDER_PASS)
    }

    /// The flag `ORDER_ERROR` alone.
    pub fn order_error() -> (r: Self)
        ensures
            r.0 == Self::ORDER_ERROR,
    {
        StatusFlags(Self::ORDER_ERROR)
    }

    /// The flag `TRANSE_EDGE` alone.
    pub fn transe_edge() -> (r: Self)
        ensures
            r.0 == Self::TRANSE_EDGE,
    {
        StatusFlags(Self::TRANSE_EDGE)
    }

    /// The flag `TRANSE_DIFF` alone.
    pub fn transe_diff() -> (r: Self)
        ensures
            r.0 == Self::TRANSE_DIFF,
    {
        StatusFlags(Self::TRANSE_DIFF)
    }

    /// The flag `TRANSE_CON` alone.
    pub fn transe_con() -> (r: Self)
        ensures
            r.0 == Self::TRANSE_CON,
    {
        StatusFlags(Self::TRANSE_CON)
    }

    /// The flag `TRY_RESTART` alone.
    pub fn try_restart() -> (r: Self)
        ensures
            r.0 == Self::TRY_RESTART,
    {
        StatusFlags(Self::TRY_RESTART)
    }

    /// The flag `UNWORK_CAMERA` alone.
    pub fn unwork_camera() -> (r: Self)
        ensures
            r.0 == Self::UNWORK_CAMERA,
    {
        StatusFlags(Self::UNWORK_CAMERA)
    }

    /// The flag `DISCONNECT` alone.
    pub fn disconnect() -> (r: Self)
        ensures
            r.0 == Self::DISCONNECT,
    {
        StatusFlags(Self::DISCONNECT)
    }

    /// The flag `CONNECT` alone.
    pub fn connect() -> (r: Self)
        ensures
            r.0 == Self::CONNECT,
    {
        StatusFlags(Self::CONNECT)
    }

    /// Whether `self` is one of the fifteen named single flags.
    pub open spec fn is_named_flag(self) -> bool {
        ||| self.0 == Self::CATCH_MOVE
        ||| self.0 == Self::SILENCE
        ||| self.0 == Self::REST_SENSING
        ||| self.0 == Self::AWAKE_SENSING
        ||| self.0 == Self::START_DEVICE
        ||| self.0 == Self::REST_PUSH
        ||| self.0 == Self::ORDER_PASS
        ||| self.0 == Self::ORDER_ERROR
        ||| self.0 == Self::TRANSE_EDGE
        ||| self.0 == Self::TRANSE_DIFF
        ||| self.0 == Self::TRANSE_CON
        ||| self.0 == Self::TRY_RESTART
        ||| self.0 == Self::UNWORK_CAMERA
        ||| self.0 == Self::DISCONNECT
        ||| self.0 == Self::CONNECT
    }

    /// Whether `self` is a flag that a second flag may be combined onto.
    pub open spec fn is_combination_root(self) -> bool {
        ||| self.0 == Self::CATCH_MOVE
        ||| self.0 == Self::SILENCE
    }

    /// Whether `self` is a flag that may be combined onto a root flag.
    pub open spec fn is_combination_target(self) -> bool {
        ||| self.0 == Self::TRANSE_EDGE
        ||| self.0 == Self::TRANSE_DIFF
        ||| self.0 == Self::TRANSE_CON
        ||| self.0 == Self::ORDER_PASS
        ||| self.0 == Self::ORDER_ERROR
    }

    /// The flag table keeps its combinations apart from its single flags: no
    /// named flag has the value of a root flag combined with a target flag.
    pub proof fn lemma_named_flags_avoid_combinations(flag: Self, root: Self, target: Self)
        requires
            flag.is_named_flag(),
            root.is_combination_root(),
            target.is_combination_target(),
        ensures
            flag != BitOrSpec::bitor_spec(root, target),
    {
        let f: u16 = flag.0;
        let r: u16 = root.0;
        let t: u16 = target.0;
        assert(f != r | t) by (bit_vector)
            requires
                f == 0x0001 || f == 0x0002 || f == 0x0004 || f == 0x0008 || f == 0x0010 || f
                    == 0x0020 || f == 0x0040 || f == 0x0080 || f == 0x0100 || f == 0x0200 || f
                    == 0x0400 || f == 0x0800 || f == 0x1000 || f == 0x2000 || f == 0x4000,
                r == 0x0001 || r == 0x0002,
                t == 0x0100 || t == 0x0200 || t == 0x0400 || t == 0x0040 || t == 0x0080,
        ;
    }

    /// The named flags are the single bits 0 to 14, in the order of their
    /// names, and `KNOWN` is all of them together.
    pub proof fn lemma_flag_table_bits()
        ensures
            Self::CATCH_MOVE == 1u16 << 0nat,
            Self::SILENCE == 1u16 << 1nat,
            Self::REST_SENSING == 1u16 << 2nat,
            Self::AWAKE_SENSING == 1u16 << 3nat,
            Self::START_DEVICE == 1u16 << 4nat,
            Self::REST_PUSH == 1u16 << 5nat,
            Self::ORDER_PASS == 1u16 << 6nat,
            Self::ORDER_ERROR == 1u16 << 7nat,
            Self::TRANSE_EDGE == 1u16 << 8nat,
            Self::TRANSE_DIFF == 1u16 << 9nat,
            Self::TRANSE_CON == 1u16 << 10nat,
            Self::TRY_RESTART == 1u16 << 11nat,
            Self::UNWORK_CAMERA == 1u16 << 12nat,
            Self::DISCONNECT == 1u16 << 13nat,
            Self::CONNECT == 1u16 << 14nat,
            Self::KNOWN == 0x0001u16 | 0x0002 | 0x0004 | 0x0008 | 0x0010 | 0x0020 | 0x0040
                | 0x0080 | 0x0100 | 0x0200 | 0x0400 | 0x0800 | 0x1000 | 0x2000 | 0x4000,
    {
        assert(0x0001u16 == 1u16 << 0u16) by (bit_vector);
        assert(0x0002u16 == 1u16 << 1u16) by (bit_vector);
        assert(0x0004u16 == 1u16 << 2u16) by (bit_vector);
        assert(0x0008u16 == 1u16 << 3u16) by (bit_vector);
        assert(0x0010u16 == 1u16 << 4u16) by (bit_vector);
        assert(0x0020u16 == 1u16 << 5u16) by (bit_vector);
        assert(0x0040u16 == 1u16 << 6u16) by (bit_vector);
        assert(0x0080u16 == 1u16 << 7u16) by (bit_vector);
        assert(0x0100u16 == 1u16 << 8u16) by (bit_vector);
        assert(0x0200u16 == 1u16 << 9u16) by (bit_vector);
        assert(0x0400u16 == 1u16 << 10u16) by (bit_vector);
        assert(0x0800u16 == 1u16 << 11u16) by (bit_vector);
        assert(0x1000u16 == 1u16 << 12u16) by (bit_vector);
        assert(0x2000u16 == 1u16 << 13u16) by (bit_vector);
        assert(0x4000u16 == 1u16 << 14u16) by (bit_vector);
        assert(0x7fffu16 == 0x0001u16 | 0x0002 | 0x0004 | 0x0008 | 0x0010 | 0x0020 | 0x0040
            | 0x0080 | 0x0100 | 0x0200 | 0x0400 | 0x0800 | 0x1000 | 0x2000 | 0x4000)
            by (bit_vector);
    }

    /// Whether bit `bit` of `self` is set.
    pub open spec fn has_bit(self, bit: nat) -> bool {
        self.0 & (1u16 << bit) != 0
    }

    /// The name of bit `bit`, for `bit < 15`.
    pub open spec fn bit_name(bit: nat) -> Seq<char> {
        if bit == 0 {
            "CATCH_MOVE"@
        } else if bit == 1 {
            "SILENCE"@
        } else if bit == 2 {
            "REST_SENSING"@
        } else if bit == 3 {
            "AWAKE_SENSING"@
        } else if bit == 4 {
            "START_DEVICE"@
        } else if bit == 5 {
            "REST_PUSH"@
        } else if bit == 6 {
            "ORDER_PASS"@
        } else if bit == 7 {
            "ORDER_ERROR"@
        } else if bit == 8 {
            "TRANSE_EDGE"@
        } else if bit == 9 {
            "TRANSE_DIFF"@
        } else if bit == 10 {
            "TRANSE_CON"@
        } else if bit == 11 {
            "TRY_RESTART"@
        } else if bit == 12 {
            "UNWORK_CAMERA"@
        } else if bit == 13 {
            "DISCONNECT"@
        } else {
            "CONNECT"@
        }
    }

    /// The names of the bits of `self` that are set among bits `0..n`, lowest
    /// bit first.
    pub open spec fn names_below(self, n: nat) -> Seq<Seq<char>>
        decreases n,
    {
        if n == 0 {
            Seq::empty()
        } else if self.has_bit((n - 1) as nat) {
            self.names_below((n - 1) as nat).push(Self::bit_name((n - 1) as nat))
        } else {
            self.names_below((n - 1) as nat)
        }
    }

    /// `parts` with `" | "` between neighbours.
    pub open spec fn piped(parts: Seq<Seq<char>>) -> Seq<char>
        decreases parts.len(),
    {
        if parts.len() == 0 {
            Seq::empty()
        } else if parts.len() == 1 {
            parts[0]
        } else {
            Self::piped(parts.drop_last()) + " | "@ + parts.last()
        }
    }

    /// The text that stands for `self`.
    ///
    /// With no named bit set it is the whole value in hexadecimal. Otherwise
    /// it is the names of the set bits joined by `" | "`, followed, where the
    /// reserved bit is set too, by `" | "` and that bit in hexadecimal.
    /// Either form stands between `StatusFlags(` and `)`.
    pub open spec fn debug_text(self) -> Seq<char> {
        let names = self.names_below(15);
        let rest = self.0 & !Self::KNOWN;
        if names.len() == 0 {
            "StatusFlags("@ + hex_literal(self.0 as nat) + ")"@
        } else if rest != 0 {
            "StatusFlags("@ + Self::piped(names) + " | "@ + hex_literal(rest as nat) + ")"@
        } else {
            "StatusFlags("@ + Self::piped(names) + ")"@
        }
    }

    /// The name of bit `bit`.
    fn name_of_bit(bit: u8) -> (r: &'static str)
        requires
            bit < 15,
        ensures
            r@ == Self::bit_name(bit as nat),
    {
        match bit {
            0 => "CATCH_MOVE",
            1 => "SILENCE",
            2 => "REST_SENSING",
            3 => "AWAKE_SENSING",
            4 => "START_DEVICE",
            5 => "REST_PUSH",
            6 => "ORDER_PASS",
            7 => "ORDER_ERROR",
            8 => "TRANSE_EDGE",
            9 => "TRANSE_DIFF",
            10 => "TRANSE_CON",
            11 => "TRY_RESTART",
            12 => "UNWORK_CAMERA",
            13 => "DISCONNECT",
            _ => "CONNECT",
        }
    }

    /// Renders the flags for a human reader.
    pub fn to_debug_string(&self) -> (r: String)
        ensures
            r@ == self.debug_text(),
    {
        let mut joined = String::new();
        let mut count: usize = 0;
        let mut bit: u8 = 0;
        while bit < 15
            invariant
                bit <= 15,
                count == self.names_below(bit as nat).len(),
                count <= bit,
                joined@ == Self::piped(self.names_below(bit as nat)),
            decreases 15 - bit,
        {
            if self.0 & (1u16 << bit) != 0 {
                let ghost before = self.names_below(bit as nat);
                if count > 0 {
                    joined.append(" | ");
                }
                joined.append(Self::name_of_bit(bit));
                count += 1;
                proof {
                    let after = self.names_below((bit + 1) as nat);
                    assert(after == before.push(Self::bit_name(bit as nat)));
                    assert(after.drop_last() =~= before);
                    assert(joined@ =~= Self::piped(after));
                }
            }
            bit += 1;
        }
        let rest = self.0 & !Self::KNOWN;
        let mut out = String::from_str("StatusFlags(");
        if count == 0 {
            out.append(hex_string(self.0).as_str());
        } else {
            out.append(joined.as_str());
            if rest != 0 {
                out.append(" | ");
                out.append(hex_string(rest).as_str());
            }
        }
        out.append(")");
        assert(out@ =~= self.debug_text());
        out
    }

    /// The raw sixteen bits.
    pub fn as_u16(self) -> (r: u16)
        ensures
            r == self.0,
    {
        self.0
    }
}

impl core::ops::BitOr for StatusFlags {
    type Output = Self;

    /// Every bit that is set in either operand.
    fn bitor(self, rhs: Self) -> (r: Self) {
        StatusFlags(self.0 | rhs.0)
    }
}

impl BitOrSpecImpl for StatusFlags {
    open spec fn obeys_bitor_spec() -> bool {
        true
    }

    open spec fn bitor_req(self, rhs: Self) -> bool {
        true
    }

    open spec fn bitor_spec(self, rhs: Self) -> Self {
        StatusFlags(self.0 | rhs.0)
    }
}

impl core::ops::BitAnd for StatusFlags {
    type Output = Self;

    /// Every bit that is set in both operands.
    fn bitand(self, rhs: Self) -> (r: Self) {
        StatusFlags(self.0 & rhs.0)
    }
}

impl BitAndSpecImpl for StatusFlags {
    open spec fn obeys_bitand_spec() -> bool {
        true
    }

    open spec fn bitand_req(self, rhs: Self) -> bool {
        true
    }

    open spec fn bitand_spec(self, rhs: Self) -> Self {
        StatusFlags(self.0 & rhs.0)
    }
}

/// The fixed 48-byte record that precedes every message body.
///
/// On the wire the fields follow one another without padding, each
/// multi-byte integer in little-endian order:
///
/// | offset | size | field |
/// |---|---|---|
/// | 0 | 16 | `project_id` |
/// | 16 | 8 | `time` |
/// | 24 | 4 | `interval_ms` |
/// | 28 | 4 | `mask_white_ratio` |
/// | 32 | 4 | `device_id` |
/// | 36 | 4 | `codec` |
/// | 40 | 4 | `body_size` |
/// | 44 | 2 | `state` |
/// | 46 | 1 | `version` |
/// | 47 | 1 | `mask_index` |
#[derive(Clone, Copy, Eq, Debug)]
pub struct MessageHeader {
    /// The project or tenant that owns the message.
    pub project_id: u128,
    /// Timestamp, in a unit of the caller's choosing.
    pub time: i64,
    /// The device's sampling or reporting interval, in milliseconds.
    pub interval_ms: u32,
    /// The share of the detection mask that is white, as the bit pattern of
    /// an IEEE-754 single-precision number.
    pub mask_white_ratio: u32,
    /// The reporting device.
    pub device_id: u32,
    /// Four raw bytes that name the body's encoding.
    pub codec: [u8; 4],
    /// The exact length of the body, in bytes.
    pub body_size: u32,
    /// Device and session status.
    pub state: StatusFlags,
    /// Protocol version.
    pub version: u8,
    /// Which detection mask `mask_white_ratio` was measured on.
    pub mask_index: u8,
}

impl MessageHeader {
    /// Number of bytes a header takes on the wire.
    pub const SIZE: usize = 48;

    /// The 48 bytes that stand for `self` on the wire.
    pub open spec fn wire_bytes(self) -> Seq<u8> {
        le_bytes(self.project_id as nat, 16) + le_bytes(to_twos_complement(self.time as int, 8), 8)
            + le_bytes(self.interval_ms as nat, 4) + le_bytes(self.mask_white_ratio as nat, 4)
            + le_bytes(self.device_id as nat, 4) + self.codec@ + le_bytes(
            self.body_size as nat,
            4,
        ) + le_bytes(self.state.0 as nat, 2) + seq![self.version] + seq![self.mask_index]
    }

    /// The header that the 48 bytes `s` stand for.
    pub open spec fn from_wire(s: Seq<u8>) -> MessageHeader {
        MessageHeader {
            project_id: le_value(s.subrange(0, 16)) as u128,
            time: from_twos_complement(le_value(s.subrange(16, 24)), 8) as i64,
            interval_ms: le_value(s.subrange(24, 28)) as u32,
            mask_white_ratio: le_value(s.subrange(28, 32)) as u32,
            device_id: le_value(s.subrange(32, 36)) as u32,
            codec: [s[36], s[37], s[38], s[39]],
            body_size: le_value(s.subrange(40, 44)) as u32,
            state: StatusFlags(le_value(s.subrange(44, 46)) as u16),
            version: s[46],
            mask_index: s[47],
        }
    }

    /// Builds a header from its fields and stamps it with the current
    /// protocol version.
    pub fn new(
        project_id: u128,
        device_id: u32,
        time: i64,
        state: StatusFlags,
        mask_index: u8,
        mask_white_ratio: u32,
        interval_ms: u32,
        codec: [u8; 4],
        body_size: u32,
    ) -> (r: Self)
        ensures
            r == (MessageHeader {
                project_id,
                time,
                interval_ms,
                mask_white_ratio,
                device_id,
                codec,
                body_size,
                state,
                version: CURRENT_PROTOCOL_VERSION,
                mask_index,
            }),
    {
        MessageHeader {
            version: CURRENT_PROTOCOL_VERSION,
            project_id,
            device_id,
            time,
            state,
            interval_ms,
            mask_white_ratio,
            codec,
            mask_index,
            body_size,
        }
    }
}

impl PartialEq for MessageHeader {
    /// Field-wise equality.
    fn eq(&self, other: &Self) -> (r: bool) {
        proof {
            broadcast use vstd::array::axiom_array_ext_equal;

            assert(self.codec =~= other.codec <==> self.codec == other.codec);
        }
        self.project_id == other.project_id && self.time == other.time && self.interval_ms
            == other.interval_ms && self.mask_white_ratio == other.mask_white_ratio
            && self.device_id == other.device_id && self.codec[0] == other.codec[0]
            && self.codec[1] == other.codec[1] && self.codec[2] == other.codec[2] && self.codec[3]
            == other.codec[3] && self.body_size == other.body_size && self.state.0 == other.state.0
            && self.version == other.version && self.mask_index == other.mask_index
    }
}

impl PartialEqSpecImpl for MessageHeader {
    open spec fn obeys_eq_spec() -> bool {
        true
    }

    open spec fn eq_spec(&self, other: &Self) -> bool {
        *self == *other
    }
}

} // verus!
