//! The register-sweep plan: which offsets a full-bank dump reads and in what
//! order, which ports a full-chip dump visits, and the policy for a
//! write-phase fault inside one read transaction.

use vstd::prelude::*;
use crate::frame::{encode, spec_frame, Port, PORT_SIZE};

verus! {

/// The 4-byte-aligned register offsets of one port bank, in ascending order:
/// 0, 4, 8, ... up to but excluding [`PORT_SIZE`].
pub fn port_offsets() -> (offsets: Vec<u16>)
    ensures
        offsets@.len() == 128,
        forall|i: int| 0 <= i < 128 ==> offsets@[i] == 4 * i,
{
    let mut offsets: Vec<u16> = Vec::new();
    let mut reg: u16 = 0;
    while reg < PORT_SIZE / 4
        invariant
            reg <= 128,
            offsets@.len() == reg as int,
            forall|i: int| 0 <= i < reg as int ==> offsets@[i] == 4 * i,
        decreases 128 - reg as int,
    {
        offsets.push(reg * 4);
        reg = reg + 1;
    }
    offsets
}

/// The full read plan for one port: every aligned offset of the bank in
/// ascending order, each paired with the command frame that addresses it.
pub fn port_frames(port: Port) -> (plan: Vec<(u16, [u8; 4])>)
    ensures
        plan@.len() == 128,
        forall|i: int| 0 <= i < 128 ==> (#[trigger] plan@[i]).0 == 4 * i,
        forall|i: int| 0 <= i < 128 ==> (#[trigger] plan@[i]).1@ == spec_frame(
            port,
            (4 * i) as u16,
        ),
{
    let mut plan: Vec<(u16, [u8; 4])> = Vec::new();
    let mut reg: u16 = 0;
    while reg < PORT_SIZE / 4
        invariant
            reg <= 128,
            plan@.len() == reg as int,
            forall|i: int| 0 <= i < reg as int ==> (#[trigger] plan@[i]).0 == 4 * i,
            forall|i: int| 0 <= i < reg as int ==> (#[trigger] plan@[i]).1@ == spec_frame(
                port,
                (4 * i) as u16,
            ),
        decreases 128 - reg as int,
    {
        let offset: u16 = reg * 4;
        let frame = encode(port, offset);
        plan.push((offset, frame));
        reg = reg + 1;
    }
    plan
}

/// The four ports in the fixed order a full-chip dump visits them.
pub fn all_ports() -> (ports: Vec<Port>)
    ensures
        ports@ == seq![Port::Port0, Port::Port1, Port::Port2, Port::Port3],
{
    let mut ports: Vec<Port> = Vec::new();
    ports.push(Port::Port0);
    ports.push(Port::Port1);
    ports.push(Port::Port2);
    ports.push(Port::Port3);
    proof {
        assert(ports@ =~= seq![Port::Port0, Port::Port1, Port::Port2, Port::Port3]);
    }
    ports
}

/// Law: a sweep plan with entry `i` at offset `4 * i` visits exactly 128
/// offsets in strictly ascending order, each a multiple of 4 below
/// [`PORT_SIZE`], and covers every aligned offset of the bank with no gaps
/// (and, being strictly ascending, no duplicates).
pub proof fn lemma_sweep_covers_bank(offsets: Seq<u16>)
    requires
        offsets.len() == 128,
        forall|i: int| 0 <= i < 128 ==> offsets[i] == 4 * i,
    ensures
        forall|i: int, j: int| 0 <= i < j < 128 ==> offsets[i] < offsets[j],
        forall|i: int| 0 <= i < 128 ==> offsets[i] % 4 == 0 && offsets[i] < PORT_SIZE,
        forall|o: u16| o < PORT_SIZE && o % 4 == 0 ==> offsets.contains(o),
{
    assert forall|o: u16| o < PORT_SIZE && o % 4 == 0 implies offsets.contains(o) by {
        let i = o as int / 4;
        assert(offsets[i] == 4 * i);
        assert(4 * (o as int / 4) == o as int);
        assert(offsets[i] == o);
    }
}

/// What a register read does when the write phase of its bus transaction
/// faults: the chip's internal address latch may then never have been set,
/// so the reply buffer the read phase leaves behind is suspect.
#[derive(Clone, Copy, Debug, PartialEq, Eq, Structural)]
pub enum WriteFaultPolicy {
    /// Propagate the fault: the read fails.
    Strict,
    /// Tolerate the fault: log it and return whatever the reply buffer
    /// holds, even though it was never validly addressed.
    Lenient,
}

/// Decides what one register read returns, given whether the write phase of
/// its transaction succeeded and the reply buffer the read phase left
/// behind. A successful write always yields the reply; a write fault yields
/// nothing under [`WriteFaultPolicy::Strict`] and the unvalidated reply
/// under [`WriteFaultPolicy::Lenient`].
pub fn read_outcome(policy: WriteFaultPolicy, write_ok: bool, reply: [u8; 4]) -> (out: Option<
    [u8; 4],
>)
    ensures
        write_ok ==> out == Some(reply),
        !write_ok && policy == WriteFaultPolicy::Strict ==> out is None,
        !write_ok && policy == WriteFaultPolicy::Lenient ==> out == Some(reply),
{
    if write_ok {
        Some(reply)
    } else {
        match policy {
            WriteFaultPolicy::Strict => None,
            WriteFaultPolicy::Lenient => Some(reply),
        }
    }
}

} // verus!
