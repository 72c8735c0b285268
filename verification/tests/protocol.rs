use pi7c9xg404::frame::{
    decode_offset, decode_port, encode, Port, BYTE_ENABLE_ALL, PORT_SIZE, READ_OPCODE,
};
use pi7c9xg404::sweep::{all_ports, port_frames, port_offsets, read_outcome, WriteFaultPolicy};

const ALL_PORTS: [Port; 4] = [Port::Port0, Port::Port1, Port::Port2, Port::Port3];

#[test]
fn encode_port0_offset_zero() {
    let frame = encode(Port::Port0, 0x0);
    assert_eq!(frame, [0b100, 0b0, 0b1111 << 2, 0x00]);
}

#[test]
fn encode_port3_offset_four() {
    let frame = encode(Port::Port3, 0x4);
    assert_eq!(frame[0], 0b100);
    assert_eq!(frame[1], 0b1);
    assert_eq!(frame[2], (0b1 << 7) | (0b1111 << 2));
    assert_eq!(frame[3], 0x01);
}

#[test]
fn encode_port1_last_offset() {
    let frame = encode(Port::Port1, 0x1FC);
    assert_eq!(frame[3], 0x7F);
    assert_eq!(frame[2] & 0b11, ((0x1FCu16 >> 10) & 0b11) as u8);
    assert_eq!(frame[2] & 0b11, 0);
    assert_eq!(frame[1], 0b0);
    assert_eq!(frame[2], (0b1 << 7) | (0b1111 << 2));
}

#[test]
fn encode_is_deterministic() {
    for port in ALL_PORTS {
        for offset in (0..PORT_SIZE).step_by(4) {
            assert_eq!(encode(port, offset), encode(port, offset));
        }
    }
}

#[test]
fn read_opcode_is_fixed() {
    for port in ALL_PORTS {
        for offset in (0..PORT_SIZE).step_by(4) {
            assert_eq!(encode(port, offset)[0], READ_OPCODE);
            assert_eq!(READ_OPCODE, 0b100);
        }
    }
}

#[test]
fn byte_enable_is_always_all_lanes() {
    for port in ALL_PORTS {
        for offset in (0..PORT_SIZE).step_by(4) {
            let frame = encode(port, offset);
            assert_eq!(frame[2] & BYTE_ENABLE_ALL, BYTE_ENABLE_ALL);
            assert_eq!(BYTE_ENABLE_ALL, 0b1111 << 2);
        }
    }
}

#[test]
fn port_selector_round_trips() {
    for port in ALL_PORTS {
        for offset in [0x0, 0x4, 0x100, 0x1FC] {
            assert_eq!(decode_port(&encode(port, offset)), port);
        }
    }
}

#[test]
fn port_selector_pairs_are_distinct() {
    // Each sub-field alone is non-injective, but the (A, B) pairs of the
    // four ports must not collide.
    let mut pairs = Vec::new();
    for port in ALL_PORTS {
        let frame = encode(port, 0x0);
        pairs.push((frame[1] & 1, frame[2] >> 7));
    }
    for i in 0..4 {
        for j in 0..4 {
            if i != j {
                assert_ne!(pairs[i], pairs[j]);
            }
        }
    }
}

#[test]
fn offset_round_trips() {
    for port in ALL_PORTS {
        for offset in (0..PORT_SIZE).step_by(4) {
            assert_eq!(decode_offset(&encode(port, offset)), offset);
        }
    }
}

#[test]
fn port_offsets_sweep_the_whole_bank() {
    let offsets = port_offsets();
    assert_eq!(offsets.len(), 128);
    assert_eq!(offsets[0], 0x0);
    assert_eq!(offsets[127], 0x1FC);
    for (i, &offset) in offsets.iter().enumerate() {
        assert_eq!(offset, 4 * i as u16);
        assert_eq!(offset % 4, 0);
        assert!(offset < PORT_SIZE);
        if i > 0 {
            assert!(offsets[i - 1] < offset);
        }
    }
    for wanted in (0..PORT_SIZE).step_by(4) {
        assert!(offsets.contains(&wanted));
    }
}

#[test]
fn all_ports_in_fixed_order() {
    assert_eq!(
        all_ports(),
        vec![Port::Port0, Port::Port1, Port::Port2, Port::Port3]
    );
}

#[test]
fn port_frames_pair_offsets_with_frames() {
    for port in [Port::Port0, Port::Port2] {
        let plan = port_frames(port);
        assert_eq!(plan.len(), 128);
        for (i, &(offset, frame)) in plan.iter().enumerate() {
            assert_eq!(offset, 4 * i as u16);
            assert_eq!(frame, encode(port, offset));
        }
    }
}

#[test]
fn read_outcome_passes_reply_through_on_success() {
    let reply = [0xDE, 0xAD, 0xBE, 0xEF];
    assert_eq!(
        read_outcome(WriteFaultPolicy::Strict, true, reply),
        Some(reply)
    );
    assert_eq!(
        read_outcome(WriteFaultPolicy::Lenient, true, reply),
        Some(reply)
    );
}

#[test]
fn read_outcome_on_write_fault_follows_policy() {
    // A write fault aborts the read under the strict policy; the lenient
    // policy instead hands back the reply buffer unchanged even though the
    // chip's address latch was never validly set.
    let reply = [0x01, 0x02, 0x03, 0x04];
    assert_eq!(read_outcome(WriteFaultPolicy::Strict, false, reply), None);
    assert_eq!(
        read_outcome(WriteFaultPolicy::Lenient, false, reply),
        Some(reply)
    );
}
