//! Mathematical model of the core: the abstract machine state, the register
//! file, the memory-and-port bus, the execute stage and the one-cycle
//! transition `spec_step`. The executable core in `cpu` is proved to follow
//! this model exactly.

use vstd::prelude::*;
use crate::bits::spec_asr1;
use crate::decode::Decode;
use crate::decode::spec_decode;

verus! {

/// One duplex I/O channel: at most one pending outbound byte and at most one
/// pending inbound byte. Both slots are single-slot, overwrite-on-write and
/// consume-on-read.
#[derive(Debug, Clone, Copy)]
pub struct Port {
    /// Byte the running program has written for the host to collect.
    pub out_data: Option<u8>,
    /// Byte the host has written for the running program to read.
    pub in_data: Option<u8>,
}

/// The abstract state of the core: what one `step` call advances.
#[verifier::ext_equal]
pub struct CpuState {
    /// The seven general-purpose registers; index 0 is the hardwired zero
    /// register and has no cell here.
    pub regs: Seq<u8>,
    /// Program counter into the 256-word instruction memory.
    pub pc: u8,
    /// The 16 data-memory cells, mapped at addresses 0xF0..=0xFF.
    pub ram: Seq<u8>,
    /// The two I/O ports, mapped at addresses 0..4.
    pub ports: Seq<Port>,
    /// The read-only instruction memory.
    pub rom: Seq<u16>,
    /// Fetch latch: the instruction word read last cycle, absent before the
    /// first cycle.
    pub fetch: Option<u16>,
    /// Decode latch: the descriptor decoded last cycle, absent before the
    /// second cycle.
    pub decode: Option<Decode>,
}

/// What the execute stage does to a state: register, memory and port effects
/// plus the pending program-counter update.
#[verifier::ext_equal]
pub struct ExecEffect {
    pub regs: Seq<u8>,
    pub ram: Seq<u8>,
    pub ports: Seq<Port>,
    /// Pending program-counter change: an increment, or an absolute value if
    /// `set_pc` holds.
    pub pc_inc: u8,
    /// A jump-absolute fired: assign `pc_inc` instead of adding it.
    pub set_pc: bool,
}

/// Truncate to 8 bits: all datapath arithmetic wraps modulo 256.
pub open spec fn wrap8(x: int) -> u8 {
    (x % 256) as u8
}

/// Register read: the index is taken modulo 8 (masked to its low 3 bits);
/// index 0 always reads 0.
pub open spec fn spec_read_reg(regs: Seq<u8>, r: u8) -> u8 {
    let i = (r % 8) as int;
    if i == 0 {
        0
    } else {
        regs[i - 1]
    }
}

/// Register write: the index is taken modulo 8 (masked to its low 3 bits);
/// a write to index 0 is discarded.
pub open spec fn spec_write_reg(regs: Seq<u8>, r: u8, d: u8) -> Seq<u8> {
    let i = (r % 8) as int;
    if i == 0 {
        regs
    } else {
        regs.update(i - 1, d)
    }
}

/// The status byte of a port: bit 1 set when the inbound slot holds a value,
/// bit 0 set when the outbound slot is empty (ready for a new outbound write).
pub open spec fn spec_port_status(port: Port) -> u8 {
    if port.in_data is Some {
        if port.out_data is None {
            3u8
        } else {
            2u8
        }
    } else {
        if port.out_data is None {
            1u8
        } else {
            0u8
        }
    }
}

/// Host-side write: unconditionally set port `p`'s inbound slot.
pub open spec fn spec_port_write(ports: Seq<Port>, p: int, d: u8) -> Seq<Port> {
    ports.update(p, Port { out_data: ports[p].out_data, in_data: Some(d) })
}

/// Host-side read: take and clear port `p`'s outbound slot, returning the
/// taken value (if any) and the ports afterwards.
pub open spec fn spec_port_read(ports: Seq<Port>, p: int) -> (Option<u8>, Seq<Port>) {
    (ports[p].out_data, ports.update(p, Port { out_data: None, in_data: ports[p].in_data }))
}

/// Bus read at an 8-bit address: the value read and the ports afterwards.
/// Addresses 0..4 are the I/O window (even: consume the inbound slot, or 0
/// if empty; odd: the status byte); 4..0xF0 is unmapped and reads 0;
/// 0xF0..0x100 is data memory.
pub open spec fn spec_read_mem(ram: Seq<u8>, ports: Seq<Port>, a: u8) -> (u8, Seq<Port>) {
    if a < 4 {
        let p = (a / 2) as int;
        if a % 2 == 0 {
            match ports[p].in_data {
                Some(v) => (
                    v,
                    ports.update(p, Port { out_data: ports[p].out_data, in_data: None }),
                ),
                None => (0, ports),
            }
        } else {
            (spec_port_status(ports[p]), ports)
        }
    } else if a < 0xF0 {
        (0, ports)
    } else {
        (ram[a - 0xF0], ports)
    }
}

/// Bus write at an 8-bit address: the memory and ports afterwards. An odd
/// address in the I/O window sets the port's outbound slot (overwriting any
/// unread byte); an even one is unmapped for writes, as is 4..0xF0;
/// 0xF0..0x100 writes the data-memory cell.
pub open spec fn spec_write_mem(ram: Seq<u8>, ports: Seq<Port>, a: u8, d: u8) -> (
    Seq<u8>,
    Seq<Port>,
) {
    if a < 4 {
        let p = (a / 2) as int;
        if a % 2 == 0 {
            (ram, ports)
        } else {
            (ram, ports.update(p, Port { out_data: Some(d), in_data: ports[p].in_data }))
        }
    } else if a < 0xF0 {
        (ram, ports)
    } else {
        (ram.update(a - 0xF0, d), ports)
    }
}

/// The pure ALU result for the opcodes that produce one; `loaded` is the byte
/// a load opcode (0 or 2) read from the bus. Stores and control-flow opcodes
/// leave the result at 0 (it is never written back for them).
pub open spec fn spec_alu(op: u8, v1: u8, v2: u8, imm: u8, loaded: u8) -> u8 {
    if op == 0x0 || op == 0x2 {
        loaded
    } else if op == 0x8 {
        wrap8(v1 + v2)
    } else if op == 0x9 {
        !(v1 | v2)
    } else if op == 0xA {
        wrap8(v1 + imm)
    } else if op == 0xB {
        !(v1 | imm)
    } else if op == 0xC {
        spec_asr1(wrap8(v1 + v2))
    } else if op == 0xD {
        spec_asr1(!(v1 | v2))
    } else if op == 0xE {
        spec_asr1(wrap8(v1 + imm))
    } else if op == 0xF {
        spec_asr1(!(v1 | imm))
    } else {
        0
    }
}

/// The execute stage on one descriptor: reads its operands, performs the
/// opcode's data and memory effects, gates the write-back on the descriptor's
/// write flag, and leaves the program-counter update pending. The reserved
/// opcode 4 is excluded by `step_enabled`.
pub open spec fn spec_exec(regs: Seq<u8>, ram: Seq<u8>, ports: Seq<Port>, d: Decode) -> ExecEffect
    recommends
        d.op < 16,
        d.op != 4,
{
    let v1 = if d.read_r1 {
        spec_read_reg(regs, d.r1)
    } else {
        0u8
    };
    let v2 = spec_read_reg(regs, d.r2);
    let loaded_ports = if d.op == 0x0 {
        spec_read_mem(ram, ports, v2)
    } else if d.op == 0x2 {
        spec_read_mem(ram, ports, wrap8(v2 + d.imm))
    } else {
        (0u8, ports)
    };
    let ram_ports = if d.op == 0x1 {
        spec_write_mem(ram, ports, v2, v1)
    } else if d.op == 0x3 {
        spec_write_mem(ram, ports, wrap8(v2 + d.imm), v1)
    } else {
        (ram, loaded_ports.1)
    };
    let result = spec_alu(d.op, v1, v2, d.imm, loaded_ports.0);
    ExecEffect {
        regs: if d.write {
            spec_write_reg(regs, d.r1, result)
        } else {
            regs
        },
        ram: ram_ports.0,
        ports: ram_ports.1,
        pc_inc: if d.op == 0x5 {
            v2
        } else if d.op == 0x6 {
            if v1 < 128 {
                d.imm
            } else {
                1u8
            }
        } else if d.op == 0x7 {
            d.imm
        } else {
            1u8
        },
        set_pc: d.op == 0x5,
    }
}

/// The execute stage when no descriptor is latched: no effect, default
/// program-counter increment.
pub open spec fn spec_exec_effect(s: CpuState) -> ExecEffect {
    match s.decode {
        Some(d) => spec_exec(s.regs, s.ram, s.ports, d),
        None => ExecEffect { regs: s.regs, ram: s.ram, ports: s.ports, pc_inc: 1, set_pc: false },
    }
}

/// `step` may run: the latched descriptor, if any, holds a 4-bit opcode other
/// than the reserved opcode 4, whose execution is fatal by design.
pub open spec fn step_enabled(s: CpuState) -> bool {
    s.decode matches Some(d) ==> d.op < 16 && d.op != 4
}

/// One clock cycle. In order: execute the latched descriptor (if any), decode
/// the latched fetch word (if any) into a new decode latch, fetch the word at
/// the current program counter, then apply the pending program-counter update
/// (an absolute assignment if a jump-absolute fired, otherwise an addition
/// modulo 256). When no fetch word is latched yet the decode latch is left
/// exactly as it was.
pub open spec fn spec_step(s: CpuState) -> CpuState
    recommends
        step_enabled(s),
        s.rom.len() == 256,
{
    let e = spec_exec_effect(s);
    CpuState {
        regs: e.regs,
        pc: if e.set_pc {
            e.pc_inc
        } else {
            wrap8(s.pc + e.pc_inc)
        },
        ram: e.ram,
        ports: e.ports,
        rom: s.rom,
        fetch: Some(s.rom[s.pc as int]),
        decode: match s.fetch {
            Some(w) => Some(spec_decode(w)),
            None => s.decode,
        },
    }
}

/// The state right after construction: everything zero or empty, the given
/// instruction memory attached.
pub open spec fn spec_init(rom: Seq<u16>) -> CpuState {
    CpuState {
        regs: Seq::new(7, |i: int| 0u8),
        pc: 0,
        ram: Seq::new(16, |i: int| 0u8),
        ports: Seq::new(2, |i: int| Port { out_data: None, in_data: None }),
        rom: rom,
        fetch: None,
        decode: None,
    }
}

} // verus!
