//! The executable core: the pipelined machine itself, proved to follow the
//! abstract model in `machine` cycle for cycle.

use vstd::prelude::*;
use crate::decode::Decode;
use crate::decode::decode;
use crate::bits::asr1;
use crate::machine::CpuState;
use crate::machine::Port;
use crate::machine::spec_init;
use crate::machine::spec_port_read;
use crate::machine::spec_port_write;
use crate::machine::spec_read_mem;
use crate::machine::spec_read_reg;
use crate::machine::spec_write_mem;
use crate::machine::spec_write_reg;
use crate::machine::spec_exec;
use crate::machine::spec_step;
use crate::machine::step_enabled;

verus! {

/// The core: register file, program counter, data memory, two I/O ports, the
/// borrowed instruction memory, and the two pipeline latches.
pub struct Chonkpu<'a> {
    pub regs: [u8; 7],
    pub pc: u8,
    pub ram: [u8; 16],
    pub rom: &'a [u16; 256],
    pub ports: [Port; 2],
    /// Fetch latch: absent only before the first cycle.
    pub fetch_stage: Option<u16>,
    /// Decode latch: absent only before the second cycle.
    pub decode_stage: Option<Decode>,
}

impl<'a> View for Chonkpu<'a> {
    type V = CpuState;

    open spec fn view(&self) -> CpuState {
        CpuState {
            regs: self.regs@,
            pc: self.pc,
            ram: self.ram@,
            ports: self.ports@,
            rom: self.rom@,
            fetch: self.fetch_stage,
            decode: self.decode_stage,
        }
    }
}

impl<'a> Chonkpu<'a> {
    /// A fresh core over the given instruction memory: registers, program
    /// counter, memory and ports all zero or empty.
    pub fn new(rom: &'a [u16; 256]) -> (c: Chonkpu<'a>)
        ensures
            c@ == spec_init(rom@),
    {
        let c = Chonkpu {
            regs: [0; 7],
            pc: 0,
            ram: [0; 16],
            rom,
            ports: [Port { out_data: None, in_data: None }; 2],
            fetch_stage: None,
            decode_stage: None,
        };
        proof {
            assert(c@.regs =~= spec_init(rom@).regs);
            assert(c@.ram =~= spec_init(rom@).ram);
            assert(c@.ports =~= spec_init(rom@).ports);
            assert(c@ =~= spec_init(rom@));
        }
        c
    }

    /// One clock cycle: execute the latched descriptor (if any), decode the
    /// latched fetch word (if any) into the decode latch, fetch the word at
    /// the current program counter, then apply the pending program-counter
    /// update. A control transfer resolving here does not discard the two
    /// instructions already in flight. The reserved opcode 4 must not be in
    /// the decode latch: executing it is fatal by design.
    pub fn step(&mut self)
        requires
            step_enabled(old(self)@),
        ensures
            final(self)@ == spec_step(old(self)@),
    {
        let ghost s0 = self@;
        let mut pc_inc: u8 = 1;
        let mut set_pc = false;
        if let Some(dec) = self.decode_stage {
            let inc_set = self.exec_stage(dec);
            pc_inc = inc_set.0;
            set_pc = inc_set.1;
        }
        if let Some(w) = self.fetch_stage {
            self.decode_stage = Some(decode(w));
        }
        self.fetch_stage = Some(self.rom[self.pc as usize]);
        if !set_pc {
            self.pc = self.pc.wrapping_add(pc_inc);
        } else {
            self.pc = pc_inc;
        }
        proof {
            assert(self@ =~= spec_step(s0));
        }
    }

    /// The execute stage of one cycle: apply the latched descriptor's
    /// register, memory and port effects, and hand back the pending
    /// program-counter update (increment, and whether a jump-absolute made it
    /// an absolute assignment).
    #[verifier::rlimit(40)]
    fn exec_stage(&mut self, dec: Decode) -> (r: (u8, bool))
        requires
            dec.op < 16,
            dec.op != 4,
        ensures
            ({
                let e = spec_exec(old(self)@.regs, old(self)@.ram, old(self)@.ports, dec);
                &&& final(self)@ == (CpuState {
                    regs: e.regs,
                    ram: e.ram,
                    ports: e.ports,
                    ..old(self)@
                })
                &&& r.0 == e.pc_inc
                &&& r.1 == e.set_pc
            }),
    {
        let ghost s0 = self@;
        let mut pc_inc: u8 = 1;
        let mut set_pc = false;
        let v1 = if dec.read_r1 {
            self.read_reg(dec.r1)
        } else {
            0
        };
        let v2 = self.read_reg(dec.r2);
        let mut result: u8 = 0;
        match dec.op {
            0x0 => {
                result = self.read_mem(v2);
            },
            0x1 => {
                self.write_mem(v2, v1);
            },
            0x2 => {
                result = self.read_mem(v2.wrapping_add(dec.imm));
            },
            0x3 => {
                self.write_mem(v2.wrapping_add(dec.imm), v1);
            },
            0x5 => {
                pc_inc = v2;
                set_pc = true;
            },
            0x6 => {
                proof {
                    assert((v1 & 0x80 == 0) == (v1 < 128)) by (bit_vector);
                }
                if v1 & 0x80 == 0 {
                    pc_inc = dec.imm;
                }
            },
            0x7 => {
                pc_inc = dec.imm;
            },
            0x8 => {
                result = v1.wrapping_add(v2);
            },
            0x9 => {
                result = !(v1 | v2);
            },
            0xA => {
                result = v1.wrapping_add(dec.imm);
            },
            0xB => {
                result = !(v1 | dec.imm);
            },
            0xC => {
                result = asr1(v1.wrapping_add(v2));
            },
            0xD => {
                result = asr1(!(v1 | v2));
            },
            0xE => {
                result = asr1(v1.wrapping_add(dec.imm));
            },
            0xF => {
                result = asr1(!(v1 | dec.imm));
            },
            // opcode 4 is reserved and the caller's contract excludes it
            _ => {},
        }
        if dec.write {
            self.write_reg(dec.r1, result);
        }
        proof {
            let e = spec_exec(s0.regs, s0.ram, s0.ports, dec);
            assert(self@ =~= (CpuState { regs: e.regs, ram: e.ram, ports: e.ports, ..s0 }));
            assert(pc_inc == e.pc_inc);
            assert(set_pc == e.set_pc);
        }
        (pc_inc, set_pc)
    }

    /// Read a register; the index is masked to 3 bits and index 0 always
    /// reads as 0.
    pub fn read_reg(&self, r: u8) -> (b: u8)
        ensures
            b == spec_read_reg(self@.regs, r),
    {
        proof {
            assert(r & 7 == r % 8) by (bit_vector);
        }
        let i: u8 = r & 7;
        if i == 0 {
            0
        } else {
            self.regs[(i - 1) as usize]
        }
    }

    /// Write a register; the index is masked to 3 bits and a write to index 0
    /// is silently discarded.
    pub fn write_reg(&mut self, r: u8, d: u8)
        ensures
            final(self)@ == (CpuState {
                regs: spec_write_reg(old(self)@.regs, r, d),
                ..old(self)@
            }),
    {
        proof {
            assert(r & 7 == r % 8) by (bit_vector);
        }
        let i: u8 = r & 7;
        if i != 0 {
            self.regs[(i - 1) as usize] = d;
        }
        proof {
            assert(self@ =~= (CpuState {
                regs: spec_write_reg(old(self)@.regs, r, d),
                ..old(self)@
            }));
        }
    }

    /// Bus read (the load opcodes): I/O window below 4, data memory from
    /// 0xF0, 0 for the unmapped range between.
    pub fn read_mem(&mut self, a: u8) -> (b: u8)
        ensures
            b == spec_read_mem(old(self)@.ram, old(self)@.ports, a).0,
            final(self)@ == (CpuState {
                ports: spec_read_mem(old(self)@.ram, old(self)@.ports, a).1,
                ..old(self)@
            }),
    {
        proof {
            assert(a >> 1 == a / 2 && (a & 1 == 0) == (a % 2 == 0)) by (bit_vector);
        }
        let b: u8 = if a < 4 {
            let p: usize = (a >> 1) as usize;
            let port = self.ports[p];
            if a & 1 == 0 {
                match port.in_data {
                    Some(v) => {
                        self.ports[p] = Port { out_data: port.out_data, in_data: None };
                        v
                    },
                    None => 0,
                }
            } else {
                if port.in_data.is_some() {
                    if port.out_data.is_none() {
                        3
                    } else {
                        2
                    }
                } else {
                    if port.out_data.is_none() {
                        1
                    } else {
                        0
                    }
                }
            }
        } else if a < 0xF0 {
            0
        } else {
            self.ram[(a - 0xF0) as usize]
        };
        proof {
            assert(self@ =~= (CpuState {
                ports: spec_read_mem(old(self)@.ram, old(self)@.ports, a).1,
                ..old(self)@
            }));
        }
        b
    }

    /// Bus write (the store opcodes): an odd address below 4 sets that port's
    /// outbound slot, data memory from 0xF0 is written, everything else is
    /// unmapped for writes and left unchanged.
    pub fn write_mem(&mut self, a: u8, d: u8)
        ensures
            final(self)@ == (CpuState {
                ram: spec_write_mem(old(self)@.ram, old(self)@.ports, a, d).0,
                ports: spec_write_mem(old(self)@.ram, old(self)@.ports, a, d).1,
                ..old(self)@
            }),
    {
        proof {
            assert(a >> 1 == a / 2 && (a & 1 == 0) == (a % 2 == 0)) by (bit_vector);
        }
        if a < 4 {
            let p: usize = (a >> 1) as usize;
            if a & 1 != 0 {
                let port = self.ports[p];
                self.ports[p] = Port { out_data: Some(d), in_data: port.in_data };
            }
        } else if a >= 0xF0 {
            self.ram[(a - 0xF0) as usize] = d;
        }
        proof {
            assert(self@ =~= (CpuState {
                ram: spec_write_mem(old(self)@.ram, old(self)@.ports, a, d).0,
                ports: spec_write_mem(old(self)@.ram, old(self)@.ports, a, d).1,
                ..old(self)@
            }));
        }
    }

    /// True iff port `p`'s inbound slot is empty, so a host write will not
    /// overwrite a byte the core has not yet consumed.
    pub fn port_writable(&self, p: usize) -> (r: bool)
        requires
            p < 2,
        ensures
            r == (self@.ports[p as int].in_data is None),
    {
        self.ports[p].in_data.is_none()
    }

    /// True iff port `p`'s outbound slot holds a byte the host has not yet
    /// collected.
    pub fn port_readable(&self, p: usize) -> (r: bool)
        requires
            p < 2,
        ensures
            r == (self@.ports[p as int].out_data is Some),
    {
        self.ports[p].out_data.is_some()
    }

    /// Host-side write: unconditionally set port `p`'s inbound slot,
    /// overwriting any unread byte.
    pub fn port_write(&mut self, p: usize, d: u8)
        requires
            p < 2,
        ensures
            final(self)@ == (CpuState {
                ports: spec_port_write(old(self)@.ports, p as int, d),
                ..old(self)@
            }),
    {
        let port = self.ports[p];
        self.ports[p] = Port { out_data: port.out_data, in_data: Some(d) };
        proof {
            assert(self@ =~= (CpuState {
                ports: spec_port_write(old(self)@.ports, p as int, d),
                ..old(self)@
            }));
        }
    }

    /// Host-side read: take and clear port `p`'s outbound slot, returning the
    /// byte if one was pending.
    pub fn port_read(&mut self, p: usize) -> (r: Option<u8>)
        requires
            p < 2,
        ensures
            r == spec_port_read(old(self)@.ports, p as int).0,
            final(self)@ == (CpuState {
                ports: spec_port_read(old(self)@.ports, p as int).1,
                ..old(self)@
            }),
    {
        let port = self.ports[p];
        self.ports[p] = Port { out_data: None, in_data: port.in_data };
        proof {
            assert(self@ =~= (CpuState {
                ports: spec_port_read(old(self)@.ports, p as int).1,
                ..old(self)@
            }));
        }
        port.out_data
    }
}

} // verus!
