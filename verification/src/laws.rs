//! The laws the core obeys, each proved once and for all: the hardwired zero
//! register, register write-then-read consistency, single-slot port overwrite
//! and drain, purity of decoding, the branch-delay invariant, and the
//! numeric meaning of the halving opcodes.

use vstd::prelude::*;
use crate::bits::as_signed;
use crate::bits::lemma_asr1_signed;
use crate::bits::spec_asr1;
use crate::decode::Decode;
use crate::decode::spec_decode;
use crate::machine::CpuState;
use crate::machine::Port;
use crate::machine::spec_alu;
use crate::machine::spec_port_read;
use crate::machine::spec_port_write;
use crate::machine::spec_read_mem;
use crate::machine::spec_read_reg;
use crate::machine::spec_step;
use crate::machine::spec_write_mem;
use crate::machine::spec_write_reg;
use crate::machine::wrap8;

verus! {

/// Decoding is a pure function of the fetched word alone: two machines whose
/// fetch latches hold the same word step to the same decode latch, whatever
/// their registers, memory, ports or program counters hold.
pub proof fn lemma_decode_ignores_machine_state(s1: CpuState, s2: CpuState)
    requires
        s1.fetch == s2.fetch,
        s1.fetch is Some,
    ensures
        spec_step(s1).decode == spec_step(s2).decode,
{
}

/// The hardwired zero register: a write to index 0 is discarded, and index 0
/// always reads as 0, whatever was written before.
pub proof fn lemma_zero_register(regs: Seq<u8>, b: u8)
    ensures
        spec_write_reg(regs, 0, b) == regs,
        spec_read_reg(regs, 0) == 0,
{
}

/// Write-then-read consistency: after writing byte `b` to register `r` in
/// 1..=7, reading `r` yields `b`.
pub proof fn lemma_write_then_read(regs: Seq<u8>, r: u8, b: u8)
    requires
        1 <= r <= 7,
        regs.len() == 7,
    ensures
        spec_read_reg(spec_write_reg(regs, r, b), r) == b,
{
}

/// Single-slot overwrite, inbound: after two host writes to the same port
/// only the second byte remains, and a core-side read of the port's data
/// address (2p) returns it. (A host write fills the inbound slot; `port_read`
/// drains the outbound slot, the opposite direction of the same channel.)
pub proof fn lemma_port_write_overwrites(ports: Seq<Port>, p: int, a: u8, b: u8, ram: Seq<u8>)
    requires
        0 <= p < 2,
        ports.len() == 2,
    ensures
        spec_port_write(spec_port_write(ports, p, a), p, b)[p].in_data == Some(b),
        spec_read_mem(ram, spec_port_write(spec_port_write(ports, p, a), p, b), (2 * p) as u8).0
            == b,
{
}

/// Single-slot overwrite, outbound: after the running program stores twice to
/// the same port's data register (address 2p + 1) only the second byte
/// remains, and the host's `port_read` returns exactly it.
pub proof fn lemma_port_out_overwrites(ram: Seq<u8>, ports: Seq<Port>, p: int, a: u8, b: u8)
    requires
        0 <= p < 2,
        ports.len() == 2,
    ensures
        ({
            let addr = (2 * p + 1) as u8;
            let once = spec_write_mem(ram, ports, addr, a);
            let twice = spec_write_mem(once.0, once.1, addr, b);
            spec_port_read(twice.1, p).0 == Some(b)
        }),
{
}

/// Port drain: a host read of an empty outbound slot returns nothing and
/// leaves the ports exactly as they were.
pub proof fn lemma_port_read_empty(ports: Seq<Port>, p: int)
    requires
        0 <= p < ports.len(),
        ports[p].out_data is None,
    ensures
        spec_port_read(ports, p).0 is None,
        spec_port_read(ports, p).1 == ports,
{
    assert(spec_port_read(ports, p).1 =~= ports);
}

/// Branch-delay invariant: when a jump-absolute is the descriptor executing
/// this cycle, the transfer resolves now, yet the two instructions already in
/// flight are not discarded. The latched word `w1` (fetched from the slot
/// after the jump) still enters decode and is the descriptor executed next
/// cycle; the word at the current program counter is still fetched and is the
/// descriptor executed the cycle after; only then is the word at the transfer
/// target fetched.
pub proof fn lemma_branch_delay(s: CpuState, d: Decode, w1: u16)
    requires
        s.decode == Some(d),
        d.op == 5,
        s.fetch == Some(w1),
        spec_decode(w1).op != 4,
    ensures
        spec_step(s).pc == spec_read_reg(s.regs, d.r2),
        spec_step(s).decode == Some(spec_decode(w1)),
        spec_step(s).fetch == Some(s.rom[s.pc as int]),
        spec_step(spec_step(s)).decode == Some(spec_decode(s.rom[s.pc as int])),
        spec_step(spec_step(s)).fetch == Some(s.rom[spec_read_reg(s.regs, d.r2) as int]),
{
}

/// add-then-halve: opcode 0xC is the arithmetic (sign-preserving) halve of
/// the wrapped sum — read as two's-complement numbers it divides the sum by
/// two, rounding toward negative infinity.
pub proof fn lemma_add_then_halve(v1: u8, v2: u8)
    ensures
        spec_alu(0xC, v1, v2, 0, 0) == spec_asr1(wrap8(v1 + v2)),
        as_signed(spec_alu(0xC, v1, v2, 0, 0)) == as_signed(wrap8(v1 + v2)) / 2,
{
    lemma_asr1_signed(wrap8(v1 + v2));
}

} // verus!
