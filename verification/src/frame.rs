//! The command-frame encoder: a pure, total function from a logical
//! (port, offset) pair to the 4-byte frame that addresses one register word.

use vstd::prelude::*;

verus! {

/// Fixed first byte of every command frame: the chip's "register read"
/// command code, carried regardless of port and offset.
pub const READ_OPCODE: u8 = 0b100;

/// Byte-enable mask with all four lane-enable bits (bits 2..=5) set: this
/// protocol only ever reads full 4-byte words, so every frame requests all
/// four reply bytes.
pub const BYTE_ENABLE_ALL: u8 = 0b1111 << 2;

/// Size in bytes of one port's register bank.
pub const PORT_SIZE: u16 = 0x200;

/// One of the four logical register banks exposed by the switch.
#[derive(Clone, Copy, Debug, PartialEq, Eq, Structural)]
pub enum Port {
    Port0,
    Port1,
    Port2,
    Port3,
}

/// Port-select sub-field A, carried in byte 1 of the frame. On its own it is
/// deliberately non-injective: it only separates {Port0, Port1} from
/// {Port2, Port3}. The pair (A, B) identifies the port.
pub open spec fn spec_sub_field_a(port: Port) -> u8 {
    match port {
        Port::Port0 => 0,
        Port::Port1 => 0,
        Port::Port2 => 1,
        Port::Port3 => 1,
    }
}

/// Port-select sub-field B, carried in bit 7 of byte 2 of the frame. On its
/// own it only separates {Port0, Port2} from {Port1, Port3}.
pub open spec fn spec_sub_field_b(port: Port) -> u8 {
    match port {
        Port::Port0 => 0,
        Port::Port1 => 1,
        Port::Port2 => 0,
        Port::Port3 => 1,
    }
}

/// Byte 2 of the frame: sub-field B in bit 7, the all-lanes byte-enable mask
/// in bits 2..=5, and the top 6 bits of the offset in the remaining low bits.
/// For offsets below [`PORT_SIZE`] the offset part is always zero, but the
/// shift is part of the wire format and is kept exactly.
pub open spec fn spec_byte2(port: Port, offset: u16) -> u8 {
    (spec_sub_field_b(port) << 7) | BYTE_ENABLE_ALL | ((offset >> 10) as u8)
}

/// Byte 3 of the frame: the offset's word index, i.e. bits 2..=9 of the
/// offset. The low 2 bits are dropped because reads are word-aligned.
pub open spec fn spec_byte3(offset: u16) -> u8 {
    (offset >> 2) as u8
}

/// The full 4-byte command frame addressing one register word.
pub open spec fn spec_frame(port: Port, offset: u16) -> Seq<u8> {
    seq![READ_OPCODE, spec_sub_field_a(port), spec_byte2(port, offset), spec_byte3(offset)]
}

/// Encodes a logical (port, byte-offset) pair as the 4-byte command frame the
/// chip's I2C slave interface expects. Total over all offsets: offsets that
/// are not word-aligned or not below [`PORT_SIZE`] are encoded bit-exactly
/// all the same, as the wire format prescribes.
pub fn encode(port: Port, offset: u16) -> (frame: [u8; 4])
    ensures
        frame@ == spec_frame(port, offset),
{
    let sub_a: u8 = match port {
        Port::Port0 => 0,
        Port::Port1 => 0,
        Port::Port2 => 1,
        Port::Port3 => 1,
    };
    let sub_b: u8 = match port {
        Port::Port0 => 0,
        Port::Port1 => 1,
        Port::Port2 => 0,
        Port::Port3 => 1,
    };
    let byte2: u8 = (sub_b << 7) | BYTE_ENABLE_ALL | ((offset >> 10) as u8);
    let byte3: u8 = #[verifier::truncate] ((offset >> 2) as u8);
    let frame: [u8; 4] = [READ_OPCODE, sub_a, byte2, byte3];
    proof {
        assert(frame@ =~= spec_frame(port, offset));
    }
    frame
}

/// Sub-field A as read back from byte 1 of a frame: its low bit.
pub open spec fn spec_read_sub_field_a(byte1: u8) -> u8 {
    byte1 & 1
}

/// Sub-field B as read back from byte 2 of a frame: its high bit.
pub open spec fn spec_read_sub_field_b(byte2: u8) -> u8 {
    byte2 >> 7
}

/// The port selected by the (A, B) pair carried in bytes 1 and 2 of a frame:
/// (0,0) is Port0, (0,1) Port1, (1,0) Port2, (1,1) Port3.
pub open spec fn spec_decoded_port(byte1: u8, byte2: u8) -> Port {
    if spec_read_sub_field_a(byte1) == 0 {
        if spec_read_sub_field_b(byte2) == 0 {
            Port::Port0
        } else {
            Port::Port1
        }
    } else {
        if spec_read_sub_field_b(byte2) == 0 {
            Port::Port2
        } else {
            Port::Port3
        }
    }
}

/// The byte offset reconstructed from bytes 2 and 3 of a frame: the low 2
/// bits of byte 2 are the offset's top bits, byte 3 its word index.
pub open spec fn spec_decoded_offset(byte2: u8, byte3: u8) -> u16 {
    (((byte2 & 0b11) as u16) << 10) | ((byte3 as u16) << 2)
}

/// Reads the port a frame addresses back out of its port-select sub-fields.
pub fn decode_port(frame: &[u8; 4]) -> (port: Port)
    ensures
        port == spec_decoded_port(frame@[1], frame@[2]),
{
    let sub_a: u8 = frame[1] & 1;
    let sub_b: u8 = frame[2] >> 7;
    if sub_a == 0 {
        if sub_b == 0 {
            Port::Port0
        } else {
            Port::Port1
        }
    } else {
        if sub_b == 0 {
            Port::Port2
        } else {
            Port::Port3
        }
    }
}

/// Reads the byte offset a frame addresses back out of bytes 2 and 3.
pub fn decode_offset(frame: &[u8; 4]) -> (offset: u16)
    ensures
        offset == spec_decoded_offset(frame@[2], frame@[3]),
{
    (((frame[2] & 0b11) as u16) << 10) | ((frame[3] as u16) << 2)
}

/// The three fields of byte 2 occupy disjoint bits: the high bit is exactly
/// sub-field B, bits 2..=5 are exactly the byte-enable mask, and the low two
/// bits are the low two bits of the offset's top part.
proof fn lemma_byte2_fields(b: u8, x: u8)
    by (bit_vector)
    requires
        b == 0 || b == 1,
        x < 64,
    ensures
        ((b << 7) | (0b1111u8 << 2) | x) >> 7 == b,
        ((b << 7) | (0b1111u8 << 2) | x) & (0b1111u8 << 2) == 0b1111u8 << 2,
        ((b << 7) | (0b1111u8 << 2) | x) & 0b11 == x & 0b11,
{
}

/// Law: encoding is a pure, total function — two frames built from the same
/// (port, offset) pair are byte-identical.
pub proof fn lemma_encode_deterministic(port: Port, offset: u16, f1: [u8; 4], f2: [u8; 4])
    requires
        f1@ == spec_frame(port, offset),
        f2@ == spec_frame(port, offset),
    ensures
        f1@ == f2@,
{
}

/// Law: byte 0 of every frame is the fixed read opcode, independent of port
/// and offset.
pub proof fn lemma_fixed_read_opcode(port: Port, offset: u16)
    ensures
        spec_frame(port, offset)[0] == READ_OPCODE,
{
}

/// Law: byte 2 of every frame has all four lane-enable bits set, independent
/// of port and offset.
pub proof fn lemma_byte_enable_always_all(port: Port, offset: u16)
    ensures
        spec_frame(port, offset)[2] & BYTE_ENABLE_ALL == BYTE_ENABLE_ALL,
{
    let b = spec_sub_field_b(port);
    let x = (offset >> 10) as u8;
    assert(b == 0 || b == 1);
    assert(((offset >> 10) as u8) < 64) by (bit_vector);
    lemma_byte2_fields(b, x);
}

/// Law: the port-selector pair (sub-field A, sub-field B) carried in bytes 1
/// and 2 of a frame uniquely recovers the encoded port; since this holds for
/// each of the four variants, no two ports collide.
pub proof fn lemma_port_selector_round_trip(port: Port, offset: u16)
    ensures
        spec_decoded_port(spec_frame(port, offset)[1], spec_frame(port, offset)[2]) == port,
{
    let a = spec_sub_field_a(port);
    let b = spec_sub_field_b(port);
    let x = (offset >> 10) as u8;
    assert(a == 0 || a == 1);
    assert(b == 0 || b == 1);
    assert(((offset >> 10) as u8) < 64) by (bit_vector);
    lemma_byte2_fields(b, x);
    assert(0u8 & 1 == 0) by (bit_vector);
    assert(1u8 & 1 == 1) by (bit_vector);
}

/// Law: for any 4-byte-aligned offset below [`PORT_SIZE`], the offset
/// reconstructed from bytes 2 and 3 of the frame equals the offset that was
/// encoded.
pub proof fn lemma_offset_round_trip(port: Port, offset: u16)
    requires
        offset < PORT_SIZE,
        offset % 4 == 0,
    ensures
        spec_decoded_offset(spec_frame(port, offset)[2], spec_frame(port, offset)[3]) == offset,
{
    let b = spec_sub_field_b(port);
    assert(b == 0 || b == 1);
    assert(((((((b << 7) | (0b1111u8 << 2) | ((offset >> 10) as u8)) & 0b11) as u16) << 10) | ((((
    offset >> 2) as u8) as u16) << 2)) == offset) by (bit_vector)
        requires
            b == 0 || b == 1,
            offset < 0x200,
            offset % 4 == 0,
    ;
}

} // verus!
