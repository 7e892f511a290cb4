//! Instruction decoding: a raw 16-bit word split into its fields.
//!
//! CHIP-8 instructions are 16 bits long, stored big-endian in memory.
//! - `nnn`: the lowest 12 bits (an address)
//! - `n`: the lowest 4 bits (a nibble)
//! - `x`: the lower 4 bits of the high byte
//! - `y`: the upper 4 bits of the low byte
//! - `kk`: the low byte
//! - `itype`: the high nibble, selecting the instruction family

use vstd::prelude::*;

verus! {

/// A decoded, immutable view of one fetched 16-bit instruction word.
pub struct Instruction {
    pub itype: u8,
    pub n: u8,
    pub x: u8,
    pub y: u8,
    pub kk: u8,
    pub nnn: u16,
    pub raw: u16,
}

impl Instruction {
    /// Every field is within the range its width allows.
    pub open spec fn wf(self) -> bool {
        self.itype < 16 && self.n < 16 && self.x < 16 && self.y < 16
            && self.nnn < 0x1000
    }

    /// Decoding is pure and total: every 16-bit word yields some field
    /// assignment, by fixed bit masking. Whether the opcode is recognized
    /// is decided later, by the execution engine.
    pub fn decode(data: u16) -> (r: Instruction)
        ensures
            r.wf(),
            r.raw == data,
            r.itype == (data >> 12) & 0xF,
            r.n == data & 0xF,
            r.x == (data >> 8) & 0xF,
            r.y == (data >> 4) & 0xF,
            r.kk == data & 0xFF,
            r.nnn == data & 0xFFF,
            r.itype == data / 0x1000,
            r.n == data % 16,
            r.x == (data / 0x100) % 16,
            r.y == (data / 16) % 16,
            r.kk == data % 256,
            r.nnn == data % 0x1000,
    {
        let r = Instruction {
            itype: ((data & 0xF000) >> 12) as u8,
            n: (data & 0x000F) as u8,
            x: ((data & 0x0F00) >> 8) as u8,
            y: ((data & 0x00F0) >> 4) as u8,
            kk: (data & 0x00FF) as u8,
            nnn: (data & 0x0FFF),
            raw: data,
        };
        proof {
            assert((((data & 0xF000) >> 12) as u8) == ((data >> 12) & 0xF)) by (bit_vector);
            assert((((data & 0xF000) >> 12) as u8) < 16) by (bit_vector);
            assert(((data & 0x000F) as u8) == (data & 0xF)) by (bit_vector);
            assert(((data & 0x000F) as u8) < 16) by (bit_vector);
            assert((((data & 0x0F00) >> 8) as u8) == ((data >> 8) & 0xF)) by (bit_vector);
            assert((((data & 0x0F00) >> 8) as u8) < 16) by (bit_vector);
            assert((((data & 0x00F0) >> 4) as u8) == ((data >> 4) & 0xF)) by (bit_vector);
            assert((((data & 0x00F0) >> 4) as u8) < 16) by (bit_vector);
            assert(((data & 0x00FF) as u8) == (data & 0xFF)) by (bit_vector);
            assert((data & 0x0FFF) < 0x1000) by (bit_vector);
            assert(((data & 0xF000) >> 12) == data / 0x1000) by (bit_vector);
            assert((data & 0x000F) == data % 16) by (bit_vector);
            assert(((data & 0x0F00) >> 8) == (data / 0x100) % 16) by (bit_vector);
            assert(((data & 0x00F0) >> 4) == (data / 16) % 16) by (bit_vector);
            assert((data & 0x00FF) == data % 256) by (bit_vector);
            assert((data & 0x0FFF) == data % 0x1000) by (bit_vector);
        }
        r
    }

    /// The instruction family (the high nibble).
    pub fn itype(&self) -> (r: u8)
        ensures
            r == self.itype,
    {
        self.itype
    }

    /// The lowest 4 bits.
    pub fn n(&self) -> (r: u8)
        ensures
            r == self.n,
    {
        self.n
    }

    /// The lower 4 bits of the high byte.
    pub fn x(&self) -> (r: u8)
        ensures
            r == self.x,
    {
        self.x
    }

    /// The upper 4 bits of the low byte.
    pub fn y(&self) -> (r: u8)
        ensures
            r == self.y,
    {
        self.y
    }

    /// The low byte.
    pub fn kk(&self) -> (r: u8)
        ensures
            r == self.kk,
    {
        self.kk
    }

    /// The lowest 12 bits.
    pub fn nnn(&self) -> (r: u16)
        ensures
            r == self.nnn,
    {
        self.nnn
    }
}

} // verus!
