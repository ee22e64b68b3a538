//! Instruction decoder: turns a fetched 16-bit word into an operand-addressing
//! descriptor. Decoding reads only the word, never a register, and is total.

use vstd::prelude::*;
use crate::bits::spec_sign_extend4;
use crate::bits::sign_extend4;

verus! {

/// Operand-addressing descriptor produced by the decoder and consumed by the
/// execute stage one cycle later.
#[derive(Debug, Clone, Copy)]
pub struct Decode {
    /// First operand register index (field A of the word).
    pub r1: u8,
    /// Second operand register index; forced to 15 (register 7 after masking)
    /// for immediate forms.
    pub r2: u8,
    /// Sign-extended 4-bit immediate; 0 for register forms.
    pub imm: u8,
    /// Whether the execute stage reads the first operand register; when false
    /// the read is redirected to the hardwired zero register.
    pub read_r1: bool,
    /// Whether the execute stage writes its result back to register `r1`.
    pub write: bool,
    /// The 4-bit opcode (low nibble of the word's top byte).
    pub op: u8,
}

/// The opcode: the word's second-highest nibble — only the low 4 bits of the
/// top byte are meaningful.
pub open spec fn op_of(w: u16) -> u8 {
    ((w / 256) % 16) as u8
}

/// Field A: the word's second-lowest nibble (bits 4..8).
pub open spec fn field_a_of(w: u16) -> u8 {
    ((w / 16) % 16) as u8
}

/// Field B: the word's lowest nibble.
pub open spec fn field_b_of(w: u16) -> u8 {
    (w % 16) as u8
}

/// What any 16-bit instruction word decodes to. Opcode bit 1 selects the
/// second operand's addressing: clear means field B names a register, set
/// means the second register slot is forced to 15 and field B is the
/// sign-extended immediate. Opcodes whose low 3 bits are 7 do not read the
/// first operand register; stores and control-flow opcodes (1, 3, 4, 5, 6, 7)
/// never write a result back.
pub open spec fn spec_decode(w: u16) -> Decode {
    let op = op_of(w);
    let a = field_a_of(w);
    let b = field_b_of(w);
    Decode {
        r1: a,
        r2: if op & 2 == 0 {
            b
        } else {
            15
        },
        imm: if op & 2 == 0 {
            0
        } else {
            spec_sign_extend4(b)
        },
        read_r1: op & 7 != 7,
        write: !(op == 1 || op == 3 || op == 4 || op == 5 || op == 6 || op == 7),
        op: op,
    }
}

pub fn decode(w: u16) -> (d: Decode)
    ensures
        d == spec_decode(w),
{
    proof {
        assert(((w >> 8) & 0xF) < 16 && ((w >> 8) & 0xF) as u8 == ((w / 256) % 16) as u8)
            by (bit_vector);
        assert(((w >> 4) & 0xF) < 16 && ((w >> 4) & 0xF) as u8 == ((w / 16) % 16) as u8)
            by (bit_vector);
        assert((w & 0xF) < 16 && (w & 0xF) as u8 == (w % 16) as u8) by (bit_vector);
    }
    let op: u8 = ((w >> 8) & 0xF) as u8;
    let a: u8 = ((w >> 4) & 0xF) as u8;
    let b: u8 = (w & 0xF) as u8;
    Decode {
        r1: a,
        r2: if op & 2 == 0 {
            b
        } else {
            15
        },
        imm: if op & 2 == 0 {
            0
        } else {
            sign_extend4(b)
        },
        read_r1: op & 7 != 7,
        write: !(op == 1 || op == 3 || op == 4 || op == 5 || op == 6 || op == 7),
        op,
    }
}

} // verus!
