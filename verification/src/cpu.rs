//! The execution engine: registers, program counter, timers, and the
//! opcode handlers that mutate machine state per the CHIP-8 instruction
//! set. Opcode families dispatch on the high nibble; sub-opcodes that match
//! no documented case fail with `UnknownOpcode`, never a silent no-op.

use crate::instruction::Instruction;
use crate::memory::EmuError;
use crate::memory::Memory;
use crate::memory::mem_eq;
use rand::Rng;
use vstd::prelude::*;

verus! {

/// One logical key state per cycle: one of the 16 hexadecimal keys, no key,
/// or a request to quit supplied by the input collaborator.
#[allow(non_camel_case_types)]
#[derive(Clone, Copy, Debug, PartialEq, Eq, Structural)]
pub enum Key {
    ZERO,
    ONE,
    TWO,
    THREE,
    FOUR,
    FIVE,
    SIX,
    SEVEN,
    EIGHT,
    NINE,
    A,
    B,
    C,
    D,
    E,
    F,
    NONE,
    QUIT,
}

impl Key {
    /// The key code: 0-15 for the hexadecimal keys, 16 for no key,
    /// 17 for quit.
    pub open spec fn value(self) -> u8 {
        match self {
            Key::ZERO => 0,
            Key::ONE => 1,
            Key::TWO => 2,
            Key::THREE => 3,
            Key::FOUR => 4,
            Key::FIVE => 5,
            Key::SIX => 6,
            Key::SEVEN => 7,
            Key::EIGHT => 8,
            Key::NINE => 9,
            Key::A => 10,
            Key::B => 11,
            Key::C => 12,
            Key::D => 13,
            Key::E => 14,
            Key::F => 15,
            Key::NONE => 16,
            Key::QUIT => 17,
        }
    }

    pub fn as_u8(&self) -> (r: u8)
        ensures
            r == self.value(),
    {
        match self {
            Key::ZERO => 0,
            Key::ONE => 1,
            Key::TWO => 2,
            Key::THREE => 3,
            Key::FOUR => 4,
            Key::FIVE => 5,
            Key::SIX => 6,
            Key::SEVEN => 7,
            Key::EIGHT => 8,
            Key::NINE => 9,
            Key::A => 10,
            Key::B => 11,
            Key::C => 12,
            Key::D => 13,
            Key::E => 14,
            Key::F => 15,
            Key::NONE => 16,
            Key::QUIT => 17,
        }
    }
}

/// Single-shot side-effect flags: set by execute, consumed and cleared by
/// the driving loop. The key state is supplied by the driver before each
/// execute call.
pub struct Flags {
    pub draw: bool,
    pub clear: bool,
    pub sound: bool,
    pub key: Key,
}

/// Field-by-field equality of two flag records.
pub open spec fn flags_eq(a: Flags, b: Flags) -> bool {
    b.draw == a.draw && b.clear == a.clear && b.sound == a.sound && b.key == a.key
}

/// The CPU: two 60Hz timers, the index register I, the program counter,
/// and the 16 general-purpose 8-bit registers V0-VF. VF doubles as the
/// carry/borrow/collision flag and is written last by every opcode that
/// defines flag semantics.
pub struct CPU {
    pub dt: u8,
    pub st: u8,
    pub i: u16,
    pub pc: u16,
    pub reg: Vec<u8>,
}

/// 8-bit wraparound of one addition, subtraction, or doubling
/// (valid for -256 <= v <= 511).
pub open spec fn wrap8(v: int) -> u8 {
    if v > 255 {
        (v - 256) as u8
    } else if v < 0 {
        (v + 256) as u8
    } else {
        v as u8
    }
}

/// 16-bit wraparound of one addition or subtraction
/// (valid for -65536 <= v <= 131071).
pub open spec fn wrap16(v: int) -> u16 {
    if v > 0xFFFF {
        (v - 0x10000) as u16
    } else if v < 0 {
        (v + 0x10000) as u16
    } else {
        v as u16
    }
}

/// CPU states equal except possibly the program counter.
pub open spec fn eq_except_pc(a: CPU, b: CPU) -> bool {
    b.dt == a.dt && b.st == a.st && b.i == a.i && b.reg@ == a.reg@
}

/// CPU states equal except possibly the general registers.
pub open spec fn eq_except_reg(a: CPU, b: CPU) -> bool {
    b.dt == a.dt && b.st == a.st && b.i == a.i && b.pc == a.pc
}

/// CPU states equal except possibly the index register I.
pub open spec fn eq_except_i(a: CPU, b: CPU) -> bool {
    b.dt == a.dt && b.st == a.st && b.pc == a.pc && b.reg@ == a.reg@
}

/// CPU states equal except possibly the delay timer.
pub open spec fn eq_except_dt(a: CPU, b: CPU) -> bool {
    b.st == a.st && b.i == a.i && b.pc == a.pc && b.reg@ == a.reg@
}

/// CPU states equal except possibly the sound timer.
pub open spec fn eq_except_st(a: CPU, b: CPU) -> bool {
    b.dt == a.dt && b.i == a.i && b.pc == a.pc && b.reg@ == a.reg@
}

/// Fully equal CPU states.
pub open spec fn cpu_eq(a: CPU, b: CPU) -> bool {
    eq_except_pc(a, b) && b.pc == a.pc
}

/// 00E0 clears the video buffer and raises the clear flag; 00EE pops the
/// stack into PC (underflow fails); any other low byte is unknown.
pub open spec fn op0_post(
    pre: CPU,
    post: CPU,
    mpre: Memory,
    mpost: Memory,
    fpre: Flags,
    fpost: Flags,
    instr: Instruction,
    r: Result<(), EmuError>,
) -> bool {
    if instr.kk == 0xE0 {
        &&& r == Ok::<(), EmuError>(())
        &&& cpu_eq(pre, post)
        &&& mpost.ram@ == mpre.ram@
        &&& mpost.stack@ == mpre.stack@
        &&& mpost.rom_location == mpre.rom_location
        &&& mpost.vram@.len() == mpre.vram@.len()
        &&& (forall|j: int| 0 <= j < 2048 ==> mpost.vram@[j] == 0)
        &&& fpost.clear == true
        &&& fpost.draw == fpre.draw && fpost.sound == fpre.sound && fpost.key == fpre.key
    } else if instr.kk == 0xEE {
        &&& flags_eq(fpre, fpost)
        &&& if mpre.stack@.len() == 0 {
            r == Err::<(), EmuError>(EmuError::StackUnderflow) && cpu_eq(pre, post) && mem_eq(
                mpre,
                mpost,
            )
        } else {
            &&& r == Ok::<(), EmuError>(())
            &&& eq_except_pc(pre, post)
            &&& post.pc == mpre.stack@.last()
            &&& mpost.stack@ == mpre.stack@.drop_last()
            &&& mpost.ram@ == mpre.ram@
            &&& mpost.vram@ == mpre.vram@
            &&& mpost.rom_location == mpre.rom_location
        }
    } else {
        &&& r == Err::<(), EmuError>(EmuError::UnknownOpcode { raw_word: instr.raw, pc: pre.pc })
        &&& cpu_eq(pre, post)
        &&& mem_eq(mpre, mpost)
        &&& flags_eq(fpre, fpost)
    }
}

/// 1nnn jumps: PC is set to nnn exactly.
pub open spec fn op1_post(pre: CPU, post: CPU, instr: Instruction, r: Result<(), EmuError>) -> bool {
    r == Ok::<(), EmuError>(()) && post.pc == instr.nnn && eq_except_pc(pre, post)
}

/// 2nnn calls: the current PC is pushed (overflow fails), then PC = nnn.
pub open spec fn op2_post(
    pre: CPU,
    post: CPU,
    mpre: Memory,
    mpost: Memory,
    instr: Instruction,
    r: Result<(), EmuError>,
) -> bool {
    if mpre.stack@.len() == 16 {
        r == Err::<(), EmuError>(EmuError::StackOverflow) && cpu_eq(pre, post) && mem_eq(
            mpre,
            mpost,
        )
    } else {
        &&& r == Ok::<(), EmuError>(())
        &&& mpost.stack@ == mpre.stack@.push(pre.pc)
        &&& mpost.ram@ == mpre.ram@
        &&& mpost.vram@ == mpre.vram@
        &&& mpost.rom_location == mpre.rom_location
        &&& post.pc == instr.nnn
        &&& eq_except_pc(pre, post)
    }
}

/// 3xkk skips the next instruction (PC advances 2 more) when Vx == kk.
pub open spec fn op3_post(pre: CPU, post: CPU, instr: Instruction, r: Result<(), EmuError>) -> bool {
    &&& r == Ok::<(), EmuError>(())
    &&& eq_except_pc(pre, post)
    &&& post.pc == if pre.reg@[instr.x as int] == instr.kk {
        wrap16(pre.pc + 2)
    } else {
        pre.pc
    }
}

/// 4xkk skips when Vx != kk.
pub open spec fn op4_post(pre: CPU, post: CPU, instr: Instruction, r: Result<(), EmuError>) -> bool {
    &&& r == Ok::<(), EmuError>(())
    &&& eq_except_pc(pre, post)
    &&& post.pc == if pre.reg@[instr.x as int] != instr.kk {
        wrap16(pre.pc + 2)
    } else {
        pre.pc
    }
}

/// 5xy0 skips when Vx == Vy; the family has no other variant, so n != 0
/// fails with `UnknownOpcode`.
pub open spec fn op5_post(pre: CPU, post: CPU, instr: Instruction, r: Result<(), EmuError>) -> bool {
    if instr.n != 0 {
        r == Err::<(), EmuError>(EmuError::UnknownOpcode { raw_word: instr.raw, pc: pre.pc })
            && cpu_eq(pre, post)
    } else {
        &&& r == Ok::<(), EmuError>(())
        &&& eq_except_pc(pre, post)
        &&& post.pc == if pre.reg@[instr.x as int] == pre.reg@[instr.y as int] {
            wrap16(pre.pc + 2)
        } else {
            pre.pc
        }
    }
}

/// 6xkk loads: Vx = kk.
pub open spec fn op6_post(pre: CPU, post: CPU, instr: Instruction, r: Result<(), EmuError>) -> bool {
    &&& r == Ok::<(), EmuError>(())
    &&& eq_except_reg(pre, post)
    &&& post.reg@ == pre.reg@.update(instr.x as int, instr.kk)
}

/// 7xkk adds with 8-bit wraparound and no carry flag.
pub open spec fn op7_post(pre: CPU, post: CPU, instr: Instruction, r: Result<(), EmuError>) -> bool {
    &&& r == Ok::<(), EmuError>(())
    &&& eq_except_reg(pre, post)
    &&& post.reg@ == pre.reg@.update(instr.x as int, wrap8(pre.reg@[instr.x as int] + instr.kk))
}

/// The 8xyN register-to-register family. Operands are read before any
/// write; where a flag is defined, Vx is written first and VF last, so the
/// flag survives even when x = F.
pub open spec fn op8_post(pre: CPU, post: CPU, instr: Instruction, r: Result<(), EmuError>) -> bool {
    let x = instr.x as int;
    let vx = pre.reg@[x];
    let vy = pre.reg@[instr.y as int];
    &&& eq_except_reg(pre, post)
    &&& if instr.n == 0x0 {
        r == Ok::<(), EmuError>(()) && post.reg@ == pre.reg@.update(x, vy)
    } else if instr.n == 0x1 {
        r == Ok::<(), EmuError>(()) && post.reg@ == pre.reg@.update(x, vx | vy)
    } else if instr.n == 0x2 {
        r == Ok::<(), EmuError>(()) && post.reg@ == pre.reg@.update(x, vx & vy)
    } else if instr.n == 0x3 {
        r == Ok::<(), EmuError>(()) && post.reg@ == pre.reg@.update(x, vx ^ vy)
    } else if instr.n == 0x4 {
        r == Ok::<(), EmuError>(()) && post.reg@ == pre.reg@.update(x, wrap8(vx + vy)).update(
            15,
            if vx + vy > 255 {
                1u8
            } else {
                0u8
            },
        )
    } else if instr.n == 0x5 {
        r == Ok::<(), EmuError>(()) && post.reg@ == pre.reg@.update(x, wrap8(vx - vy)).update(
            15,
            if vx > vy {
                1u8
            } else {
                0u8
            },
        )
    } else if instr.n == 0x6 {
        r == Ok::<(), EmuError>(()) && post.reg@ == pre.reg@.update(x, vx / 2).update(
            15,
            (vx % 2) as u8,
        )
    } else if instr.n == 0x7 {
        r == Ok::<(), EmuError>(()) && post.reg@ == pre.reg@.update(x, wrap8(vy - vx)).update(
            15,
            if vy > vx {
                1u8
            } else {
                0u8
            },
        )
    } else if instr.n == 0xE {
        r == Ok::<(), EmuError>(()) && post.reg@ == pre.reg@.update(x, wrap8(vx * 2)).update(
            15,
            if vx >= 0x80 {
                1u8
            } else {
                0u8
            },
        )
    } else {
        r == Err::<(), EmuError>(EmuError::UnknownOpcode { raw_word: instr.raw, pc: pre.pc })
            && post.reg@ == pre.reg@
    }
}

/// 9xy0 skips when Vx != Vy; n != 0 fails with `UnknownOpcode`.
pub open spec fn op9_post(pre: CPU, post: CPU, instr: Instruction, r: Result<(), EmuError>) -> bool {
    if instr.n != 0 {
        r == Err::<(), EmuError>(EmuError::UnknownOpcode { raw_word: instr.raw, pc: pre.pc })
            && cpu_eq(pre, post)
    } else {
        &&& r == Ok::<(), EmuError>(())
        &&& eq_except_pc(pre, post)
        &&& post.pc == if pre.reg@[instr.x as int] != pre.reg@[instr.y as int] {
            wrap16(pre.pc + 2)
        } else {
            pre.pc
        }
    }
}

/// Annn loads the index register: I = nnn.
pub open spec fn op_a_post(pre: CPU, post: CPU, instr: Instruction, r: Result<(), EmuError>) -> bool {
    r == Ok::<(), EmuError>(()) && eq_except_i(pre, post) && post.i == instr.nnn
}

/// Bnnn jumps to nnn + V0.
pub open spec fn op_b_post(pre: CPU, post: CPU, instr: Instruction, r: Result<(), EmuError>) -> bool {
    r == Ok::<(), EmuError>(()) && eq_except_pc(pre, post) && post.pc == instr.nnn + pre.reg@[0]
}

/// Cxkk: Vx = (some byte) AND kk. The byte comes from the host's random
/// source; only the masking is promised.
pub open spec fn op_c_post(pre: CPU, post: CPU, instr: Instruction, r: Result<(), EmuError>) -> bool {
    &&& r == Ok::<(), EmuError>(())
    &&& eq_except_reg(pre, post)
    &&& exists|rb: u8| post.reg@ == pre.reg@.update(instr.x as int, rb & instr.kk)
}

/// Whether the key state names a key that is currently pressed with code
/// equal to Vx. With no key down (or a quit request) nothing is pressed,
/// whatever Vx holds — Vx is an ordinary byte a ROM may load with any
/// value, sentinel codes included.
pub open spec fn key_matches(f: Flags, vx: u8) -> bool {
    f.key.value() < 16 && vx == f.key.value()
}

/// Ex9E skips when the key with the value of Vx is currently pressed; ExA1
/// when it is not (no key down counts as not pressed); any other low byte
/// is unknown. The flags (key state included) are only read.
pub open spec fn op_e_post(
    pre: CPU,
    post: CPU,
    fpre: Flags,
    fpost: Flags,
    instr: Instruction,
    r: Result<(), EmuError>,
) -> bool {
    &&& flags_eq(fpre, fpost)
    &&& if instr.kk == 0x9E {
        &&& r == Ok::<(), EmuError>(())
        &&& eq_except_pc(pre, post)
        &&& post.pc == if key_matches(fpre, pre.reg@[instr.x as int]) {
            wrap16(pre.pc + 2)
        } else {
            pre.pc
        }
    } else if instr.kk == 0xA1 {
        &&& r == Ok::<(), EmuError>(())
        &&& eq_except_pc(pre, post)
        &&& post.pc == if !key_matches(fpre, pre.reg@[instr.x as int]) {
            wrap16(pre.pc + 2)
        } else {
            pre.pc
        }
    } else {
        r == Err::<(), EmuError>(EmuError::UnknownOpcode { raw_word: instr.raw, pc: pre.pc })
            && cpu_eq(pre, post)
    }
}

/// The FxNN family: timers, key wait, index arithmetic, font addressing,
/// BCD, and the register/memory block transfers.
pub open spec fn op_f_post(
    pre: CPU,
    post: CPU,
    mpre: Memory,
    mpost: Memory,
    fpre: Flags,
    fpost: Flags,
    instr: Instruction,
    r: Result<(), EmuError>,
) -> bool {
    let x = instr.x as int;
    let vx = pre.reg@[x];
    let i = pre.i as int;
    &&& flags_eq(fpre, fpost)
    &&& if instr.kk == 0x07 {
        // Vx = DT
        r == Ok::<(), EmuError>(()) && mem_eq(mpre, mpost) && eq_except_reg(pre, post)
            && post.reg@ == pre.reg@.update(x, pre.dt)
    } else if instr.kk == 0x0A {
        // key wait: busy-poll by rewinding PC when no key is down
        &&& r == Ok::<(), EmuError>(())
        &&& mem_eq(mpre, mpost)
        &&& if fpre.key.value() < 16 {
            eq_except_reg(pre, post) && post.reg@ == pre.reg@.update(x, fpre.key.value())
        } else {
            eq_except_pc(pre, post) && post.pc == wrap16(pre.pc - 2)
        }
    } else if instr.kk == 0x15 {
        // DT = Vx
        r == Ok::<(), EmuError>(()) && mem_eq(mpre, mpost) && eq_except_dt(pre, post)
            && post.dt == vx
    } else if instr.kk == 0x18 {
        // ST = Vx
        r == Ok::<(), EmuError>(()) && mem_eq(mpre, mpost) && eq_except_st(pre, post)
            && post.st == vx
    } else if instr.kk == 0x1E {
        // I = I + Vx, 16-bit wraparound, no flag
        r == Ok::<(), EmuError>(()) && mem_eq(mpre, mpost) && eq_except_i(pre, post)
            && post.i == wrap16(i + vx)
    } else if instr.kk == 0x29 {
        // I = font address of digit Vx (five bytes per glyph from 0x000)
        r == Ok::<(), EmuError>(()) && mem_eq(mpre, mpost) && eq_except_i(pre, post)
            && post.i == 5 * vx
    } else if instr.kk == 0x33 {
        // BCD of Vx at I, I+1, I+2 (hundreds, tens, ones)
        if i + 2 > 0xFFF {
            r == (Err::<(), EmuError>(EmuError::OutOfBounds { address: (i + 2) as usize }))
                && cpu_eq(pre, post) && mem_eq(mpre, mpost)
        } else {
            &&& r == Ok::<(), EmuError>(())
            &&& cpu_eq(pre, post)
            &&& mpost.ram@ == mpre.ram@.update(i + 2, vx % 10).update(
                i + 1,
                ((vx / 10) % 10) as u8,
            ).update(i, vx / 100)
            &&& mpost.vram@ == mpre.vram@
            &&& mpost.stack@ == mpre.stack@
            &&& mpost.rom_location == mpre.rom_location
        }
    } else if instr.kk == 0x55 {
        // store V0..Vx at I..I+x
        if i + x > 0xFFF {
            r == (Err::<(), EmuError>(EmuError::OutOfBounds {
                address: if i > 0xFFF {
                    i as usize
                } else {
                    0x1000
                },
            })) && cpu_eq(pre, post) && mem_eq(mpre, mpost)
        } else {
            &&& r == Ok::<(), EmuError>(())
            &&& cpu_eq(pre, post)
            &&& mpost.ram@.len() == mpre.ram@.len()
            &&& (forall|t: int| i <= t <= i + x ==> mpost.ram@[t] == pre.reg@[t - i])
            &&& (forall|t: int|
                0 <= t < 4096 && !(i <= t <= i + x) ==> mpost.ram@[t] == mpre.ram@[t])
            &&& mpost.vram@ == mpre.vram@
            &&& mpost.stack@ == mpre.stack@
            &&& mpost.rom_location == mpre.rom_location
        }
    } else if instr.kk == 0x65 {
        // load V0..Vx from I..I+x
        if i + x > 0xFFF {
            r == (Err::<(), EmuError>(EmuError::OutOfBounds {
                address: if i > 0xFFF {
                    i as usize
                } else {
                    0x1000
                },
            })) && cpu_eq(pre, post) && mem_eq(mpre, mpost)
        } else {
            &&& r == Ok::<(), EmuError>(())
            &&& mem_eq(mpre, mpost)
            &&& eq_except_reg(pre, post)
            &&& post.reg@.len() == pre.reg@.len()
            &&& (forall|t: int| 0 <= t <= x ==> post.reg@[t] == mpre.ram@[i + t])
            &&& (forall|t: int| x < t < 16 ==> post.reg@[t] == pre.reg@[t])
        }
    } else {
        r == Err::<(), EmuError>(EmuError::UnknownOpcode { raw_word: instr.raw, pc: pre.pc })
            && cpu_eq(pre, post) && mem_eq(mpre, mpost)
    }
}

/// Index of pixel (x, y) in the row-major video buffer.
pub open spec fn vram_index(x: int, y: int) -> int {
    y * 64 + x
}

/// Whether bit k of a sprite row byte is set, counting from the most
/// significant (leftmost pixel) down.
pub open spec fn sprite_bit(byte: u8, k: int) -> bool {
    (byte >> ((7 - k) as u8)) & 1 == 1
}

/// XOR one sprite bit onto column (x0 + k) % 64 of line y; the second
/// component reports a pixel turned from set to unset.
pub open spec fn blit_bit(v: Seq<u8>, x0: int, y: int, byte: u8, k: int) -> (Seq<u8>, bool) {
    if sprite_bit(byte, k) {
        let idx = vram_index((x0 + k) % 64, y);
        (v.update(idx, if v[idx] == 1 { 0u8 } else { 1u8 }), v[idx] == 1)
    } else {
        (v, false)
    }
}

/// XOR bits k..8 of one sprite row onto line y, leftmost bit first.
pub open spec fn blit_row_from(v: Seq<u8>, x0: int, y: int, byte: u8, k: int) -> (Seq<u8>, bool)
    decreases 8 - k,
{
    if k < 0 || k >= 8 {
        (v, false)
    } else {
        let step = blit_bit(v, x0, y, byte, k);
        let rest = blit_row_from(step.0, x0, y, byte, k + 1);
        (rest.0, step.1 || rest.1)
    }
}

/// XOR sprite rows row..n onto the buffer; row r is read from ram[i + r]
/// and lands on line (y0 + r) % 32.
pub open spec fn blit_rows_from(
    v: Seq<u8>,
    ram: Seq<u8>,
    i: int,
    x0: int,
    y0: int,
    row: int,
    n: int,
) -> (Seq<u8>, bool)
    decreases n - row,
{
    if row < 0 || row >= n {
        (v, false)
    } else {
        let step = blit_row_from(v, x0, (y0 + row) % 32, ram[i + row], 0);
        let rest = blit_rows_from(step.0, ram, i, x0, y0, row + 1, n);
        (rest.0, step.1 || rest.1)
    }
}

/// The full n-row sprite XOR blit at (x0, y0), with its collision flag:
/// true exactly when some pixel went from set to unset.
pub open spec fn blit_sprite(v: Seq<u8>, ram: Seq<u8>, i: int, x0: int, y0: int, n: int) -> (
    Seq<u8>,
    bool,
) {
    blit_rows_from(v, ram, i, x0, y0, 0, n)
}

/// Dxyn reads the n-byte sprite at I..I+n (out-of-range rows fail before
/// anything is drawn), XORs it onto the video buffer at (Vx, Vy) with
/// coordinate wraparound, sets VF to the collision flag, and raises the
/// draw flag.
pub open spec fn op_d_post(
    pre: CPU,
    post: CPU,
    mpre: Memory,
    mpost: Memory,
    fpre: Flags,
    fpost: Flags,
    instr: Instruction,
    r: Result<(), EmuError>,
) -> bool {
    let i = pre.i as int;
    let n = instr.n as int;
    let x0 = pre.reg@[instr.x as int] as int;
    let y0 = pre.reg@[instr.y as int] as int;
    if n > 0 && i + n > 0x1000 {
        r == (Err::<(), EmuError>(EmuError::OutOfBounds {
            address: if i > 0xFFF {
                i as usize
            } else {
                0x1000
            },
        })) && cpu_eq(pre, post) && mem_eq(mpre, mpost) && flags_eq(fpre, fpost)
    } else {
        &&& r == Ok::<(), EmuError>(())
        &&& eq_except_reg(pre, post)
        &&& post.reg@ == pre.reg@.update(
            15,
            if blit_sprite(mpre.vram@, mpre.ram@, i, x0, y0, n).1 {
                1u8
            } else {
                0u8
            },
        )
        &&& mpost.vram@ == blit_sprite(mpre.vram@, mpre.ram@, i, x0, y0, n).0
        &&& mpost.ram@ == mpre.ram@
        &&& mpost.stack@ == mpre.stack@
        &&& mpost.rom_location == mpre.rom_location
        &&& fpost.draw == true
        &&& fpost.clear == fpre.clear && fpost.sound == fpre.sound && fpost.key == fpre.key
    }
}

/// One instruction step, as guaranteed by `execute`: dispatch on the family
/// nibble to that family's postcondition; families that take no memory or
/// flags leave them untouched.
pub open spec fn step_post(
    pre: CPU,
    post: CPU,
    mpre: Memory,
    mpost: Memory,
    fpre: Flags,
    fpost: Flags,
    instr: Instruction,
    r: Result<(), EmuError>,
) -> bool {
    &&& (instr.itype == 0x0 ==> op0_post(pre, post, mpre, mpost, fpre, fpost, instr, r))
    &&& (instr.itype == 0x1 ==> op1_post(pre, post, instr, r) && mem_eq(mpre, mpost) && flags_eq(
        fpre,
        fpost,
    ))
    &&& (instr.itype == 0x2 ==> op2_post(pre, post, mpre, mpost, instr, r) && flags_eq(
        fpre,
        fpost,
    ))
    &&& (instr.itype == 0x3 ==> op3_post(pre, post, instr, r) && mem_eq(mpre, mpost) && flags_eq(
        fpre,
        fpost,
    ))
    &&& (instr.itype == 0x4 ==> op4_post(pre, post, instr, r) && mem_eq(mpre, mpost) && flags_eq(
        fpre,
        fpost,
    ))
    &&& (instr.itype == 0x5 ==> op5_post(pre, post, instr, r) && mem_eq(mpre, mpost) && flags_eq(
        fpre,
        fpost,
    ))
    &&& (instr.itype == 0x6 ==> op6_post(pre, post, instr, r) && mem_eq(mpre, mpost) && flags_eq(
        fpre,
        fpost,
    ))
    &&& (instr.itype == 0x7 ==> op7_post(pre, post, instr, r) && mem_eq(mpre, mpost) && flags_eq(
        fpre,
        fpost,
    ))
    &&& (instr.itype == 0x8 ==> op8_post(pre, post, instr, r) && mem_eq(mpre, mpost) && flags_eq(
        fpre,
        fpost,
    ))
    &&& (instr.itype == 0x9 ==> op9_post(pre, post, instr, r) && mem_eq(mpre, mpost) && flags_eq(
        fpre,
        fpost,
    ))
    &&& (instr.itype == 0xA ==> op_a_post(pre, post, instr, r) && mem_eq(mpre, mpost) && flags_eq(
        fpre,
        fpost,
    ))
    &&& (instr.itype == 0xB ==> op_b_post(pre, post, instr, r) && mem_eq(mpre, mpost) && flags_eq(
        fpre,
        fpost,
    ))
    &&& (instr.itype == 0xC ==> op_c_post(pre, post, instr, r) && mem_eq(mpre, mpost) && flags_eq(
        fpre,
        fpost,
    ))
    &&& (instr.itype == 0xD ==> op_d_post(pre, post, mpre, mpost, fpre, fpost, instr, r))
    &&& (instr.itype == 0xE ==> op_e_post(pre, post, fpre, fpost, instr, r) && mem_eq(
        mpre,
        mpost,
    ))
    &&& (instr.itype == 0xF ==> op_f_post(pre, post, mpre, mpost, fpre, fpost, instr, r))
}

/// Whether a decoded instruction matches a documented opcode of the
/// instruction set: the sub-selector of its family names a case of the ISA
/// table.
pub open spec fn documented(instr: Instruction) -> bool {
    if instr.itype == 0x0 {
        instr.kk == 0xE0 || instr.kk == 0xEE
    } else if instr.itype == 0x5 || instr.itype == 0x9 {
        instr.n == 0
    } else if instr.itype == 0x8 {
        instr.n <= 0x7 || instr.n == 0xE
    } else if instr.itype == 0xE {
        instr.kk == 0x9E || instr.kk == 0xA1
    } else if instr.itype == 0xF {
        instr.kk == 0x07 || instr.kk == 0x0A || instr.kk == 0x15 || instr.kk == 0x18 || instr.kk
            == 0x1E || instr.kk == 0x29 || instr.kk == 0x33 || instr.kk == 0x55 || instr.kk == 0x65
    } else {
        true
    }
}

/// Law: a step refuses exactly the undocumented opcodes. Whatever `execute`
/// guarantees of a step, the result is the `UnknownOpcode` error (carrying
/// the raw word and the pre-step PC) if and only if the instruction matches
/// no documented case; a documented opcode never yields it, and an
/// undocumented one is never a silent no-op.
pub proof fn lemma_unknown_opcode_iff_undocumented(
    pre: CPU,
    post: CPU,
    mpre: Memory,
    mpost: Memory,
    fpre: Flags,
    fpost: Flags,
    instr: Instruction,
    r: Result<(), EmuError>,
)
    requires
        instr.wf(),
        step_post(pre, post, mpre, mpost, fpre, fpost, instr, r),
    ensures
        (r == Err::<(), EmuError>(EmuError::UnknownOpcode { raw_word: instr.raw, pc: pre.pc }))
            <==> !documented(instr),
        !documented(instr) ==> cpu_eq(pre, post) && mem_eq(mpre, mpost) && flags_eq(fpre, fpost),
{
}

/// Law: a 3xkk skip adds exactly 2 to the already-incremented PC when
/// Vx == kk, and 0 otherwise. The contract words the skip with 16-bit
/// wraparound, so the bound on PC is the one machine limit needed: when
/// the incremented PC still fits a u16, the addition is plain.
pub proof fn lemma_skip_adds_exactly_two(
    pre: CPU,
    post: CPU,
    instr: Instruction,
    r: Result<(), EmuError>,
)
    requires
        op3_post(pre, post, instr, r),
        pre.pc + 2 <= 0xFFFF,
    ensures
        post.pc == pre.pc + if pre.reg@[instr.x as int] == instr.kk {
            2int
        } else {
            0int
        },
{
}

/// Relies on `rand::thread_rng` and `rand::Rng::gen::<u8>`: one byte drawn
/// from the thread-local generator. Nothing is promised of its value.
#[verifier::external_body]
fn random_byte() -> u8 {
    rand::thread_rng().gen::<u8>()
}

impl CPU {
    /// The 16 general registers are always present.
    pub open spec fn wf(self) -> bool {
        self.reg@.len() == 16
    }

    /// A fresh CPU: PC at the first program address 0x200, both timers
    /// loaded, index register and all general registers zero.
    pub fn init() -> (r: CPU)
        ensures
            r.wf(),
            r.dt == 60,
            r.st == 60,
            r.i == 0,
            r.pc == 0x200,
            forall|j: int| 0 <= j < 16 ==> r.reg@[j] == 0,
    {
        let mut reg: Vec<u8> = Vec::new();
        while reg.len() < 16
            invariant
                reg@.len() <= 16,
                forall|j: int| 0 <= j < reg@.len() ==> reg@[j] == 0,
            decreases 16 - reg@.len(),
        {
            reg.push(0);
        }
        CPU { dt: 60, st: 60, i: 0, pc: 0x200, reg }
    }

    /// Fetch step: return the address held by PC and advance PC by two,
    /// unconditionally, before the opcode is interpreted. Jump, call and
    /// skip opcodes override PC afterward.
    pub fn register_pc(&mut self) -> (loc: u16)
        requires
            old(self).wf(),
        ensures
            final(self).wf(),
            loc == old(self).pc,
            final(self).pc == wrap16(old(self).pc + 2),
            eq_except_pc(*old(self), *final(self)),
    {
        let loc = self.pc;
        self.pc = self.pc.wrapping_add(2);
        loc
    }

    /// One 60Hz tick: each timer decrements by exactly 1 and floors at 0.
    /// Invoked by the driver at a fixed cadence, decoupled from
    /// instruction throughput.
    pub fn tick_timers(&mut self)
        requires
            old(self).wf(),
        ensures
            final(self).wf(),
            final(self).dt == if old(self).dt > 0 { (old(self).dt - 1) as u8 } else { 0u8 },
            final(self).st == if old(self).st > 0 { (old(self).st - 1) as u8 } else { 0u8 },
            final(self).i == old(self).i,
            final(self).pc == old(self).pc,
            final(self).reg@ == old(self).reg@,
    {
        if self.dt > 0 {
            self.dt = self.dt - 1;
        }
        if self.st > 0 {
            self.st = self.st - 1;
        }
    }

    /// 00E0 / 00EE.
    pub fn opcode_0(&mut self, instr: Instruction, flags: &mut Flags, mem: &mut Memory) -> (r:
        Result<(), EmuError>)
        requires
            old(self).wf(),
            old(mem).wf(),
            instr.wf(),
        ensures
            final(self).wf(),
            final(mem).wf(),
            op0_post(
                *old(self),
                *final(self),
                *old(mem),
                *final(mem),
                *old(flags),
                *final(flags),
                instr,
                r,
            ),
    {
        match instr.kk() {
            0xE0 => {
                mem.clear_vram();
                flags.clear = true;
                Ok(())
            },
            0xEE => {
                match mem.pop_stack() {
                    Ok(addr) => {
                        self.pc = addr;
                        Ok(())
                    },
                    Err(e) => Err(e),
                }
            },
            _ => Err(EmuError::UnknownOpcode { raw_word: instr.raw, pc: self.pc }),
        }
    }

    /// 1nnn.
    pub fn opcode_1(&mut self, instr: Instruction) -> (r: Result<(), EmuError>)
        requires
            old(self).wf(),
            instr.wf(),
        ensures
            final(self).wf(),
            op1_post(*old(self), *final(self), instr, r),
    {
        self.pc = instr.nnn();
        Ok(())
    }

    /// 2nnn.
    pub fn opcode_2(&mut self, instr: Instruction, mem: &mut Memory) -> (r: Result<(), EmuError>)
        requires
            old(self).wf(),
            old(mem).wf(),
            instr.wf(),
        ensures
            final(self).wf(),
            final(mem).wf(),
            op2_post(*old(self), *final(self), *old(mem), *final(mem), instr, r),
    {
        match mem.push_stack(self.pc) {
            Ok(()) => {
                self.pc = instr.nnn();
                Ok(())
            },
            Err(e) => Err(e),
        }
    }

    /// 3xkk.
    pub fn opcode_3(&mut self, instr: Instruction) -> (r: Result<(), EmuError>)
        requires
            old(self).wf(),
            instr.wf(),
        ensures
            final(self).wf(),
            op3_post(*old(self), *final(self), instr, r),
    {
        if self.reg[instr.x() as usize] == instr.kk() {
            self.pc = self.pc.wrapping_add(2);
        }
        Ok(())
    }

    /// 4xkk.
    pub fn opcode_4(&mut self, instr: Instruction) -> (r: Result<(), EmuError>)
        requires
            old(self).wf(),
            instr.wf(),
        ensures
            final(self).wf(),
            op4_post(*old(self), *final(self), instr, r),
    {
        if self.reg[instr.x() as usize] != instr.kk() {
            self.pc = self.pc.wrapping_add(2);
        }
        Ok(())
    }

    /// 5xy0.
    pub fn opcode_5(&mut self, instr: Instruction) -> (r: Result<(), EmuError>)
        requires
            old(self).wf(),
            instr.wf(),
        ensures
            final(self).wf(),
            op5_post(*old(self), *final(self), instr, r),
    {
        if instr.n() != 0 {
            return Err(EmuError::UnknownOpcode { raw_word: instr.raw, pc: self.pc });
        }
        if self.reg[instr.x() as usize] == self.reg[instr.y() as usize] {
            self.pc = self.pc.wrapping_add(2);
        }
        Ok(())
    }

    /// 6xkk.
    pub fn opcode_6(&mut self, instr: Instruction) -> (r: Result<(), EmuError>)
        requires
            old(self).wf(),
            instr.wf(),
        ensures
            final(self).wf(),
            op6_post(*old(self), *final(self), instr, r),
    {
        self.reg.set(instr.x() as usize, instr.kk());
        Ok(())
    }

    /// 7xkk.
    pub fn opcode_7(&mut self, instr: Instruction) -> (r: Result<(), EmuError>)
        requires
            old(self).wf(),
            instr.wf(),
        ensures
            final(self).wf(),
            op7_post(*old(self), *final(self), instr, r),
    {
        let x = instr.x() as usize;
        let vx = self.reg[x];
        self.reg.set(x, vx.wrapping_add(instr.kk()));
        Ok(())
    }

    /// 8xy0 through 8xy7 and 8xyE.
    pub fn opcode_8(&mut self, instr: Instruction) -> (r: Result<(), EmuError>)
        requires
            old(self).wf(),
            instr.wf(),
        ensures
            final(self).wf(),
            op8_post(*old(self), *final(self), instr, r),
    {
        let x = instr.x() as usize;
        let vx = self.reg[x];
        let vy = self.reg[instr.y() as usize];
        match instr.n() {
            0x0 => {
                self.reg.set(x, vy);
                Ok(())
            },
            0x1 => {
                self.reg.set(x, vx | vy);
                Ok(())
            },
            0x2 => {
                self.reg.set(x, vx & vy);
                Ok(())
            },
            0x3 => {
                self.reg.set(x, vx ^ vy);
                Ok(())
            },
            0x4 => {
                let sum: u16 = vx as u16 + vy as u16;
                self.reg.set(x, (sum % 256) as u8);
                self.reg.set(15, if sum > 255 { 1 } else { 0 });
                Ok(())
            },
            0x5 => {
                self.reg.set(x, vx.wrapping_sub(vy));
                self.reg.set(15, if vx > vy { 1 } else { 0 });
                Ok(())
            },
            0x6 => {
                self.reg.set(x, vx / 2);
                self.reg.set(15, vx % 2);
                Ok(())
            },
            0x7 => {
                self.reg.set(x, vy.wrapping_sub(vx));
                self.reg.set(15, if vy > vx { 1 } else { 0 });
                Ok(())
            },
            0xE => {
                self.reg.set(x, vx.wrapping_mul(2));
                self.reg.set(15, if vx >= 0x80 { 1 } else { 0 });
                Ok(())
            },
            _ => Err(EmuError::UnknownOpcode { raw_word: instr.raw, pc: self.pc }),
        }
    }

    /// 9xy0.
    pub fn opcode_9(&mut self, instr: Instruction) -> (r: Result<(), EmuError>)
        requires
            old(self).wf(),
            instr.wf(),
        ensures
            final(self).wf(),
            op9_post(*old(self), *final(self), instr, r),
    {
        if instr.n() != 0 {
            return Err(EmuError::UnknownOpcode { raw_word: instr.raw, pc: self.pc });
        }
        if self.reg[instr.x() as usize] != self.reg[instr.y() as usize] {
            self.pc = self.pc.wrapping_add(2);
        }
        Ok(())
    }

    /// Annn.
    #[allow(non_snake_case)]
    pub fn opcode_A(&mut self, instr: Instruction) -> (r: Result<(), EmuError>)
        requires
            old(self).wf(),
            instr.wf(),
        ensures
            final(self).wf(),
            op_a_post(*old(self), *final(self), instr, r),
    {
        self.i = instr.nnn();
        Ok(())
    }

    /// Bnnn.
    #[allow(non_snake_case)]
    pub fn opcode_B(&mut self, instr: Instruction) -> (r: Result<(), EmuError>)
        requires
            old(self).wf(),
            instr.wf(),
        ensures
            final(self).wf(),
            op_b_post(*old(self), *final(self), instr, r),
    {
        self.pc = instr.nnn() + (self.reg[0] as u16);
        Ok(())
    }

    /// Cxkk.
    #[allow(non_snake_case)]
    pub fn opcode_C(&mut self, instr: Instruction) -> (r: Result<(), EmuError>)
        requires
            old(self).wf(),
            instr.wf(),
        ensures
            final(self).wf(),
            op_c_post(*old(self), *final(self), instr, r),
    {
        let rnd_num = random_byte();
        self.reg.set(instr.x() as usize, rnd_num & instr.kk());
        Ok(())
    }

    /// Dxyn.
    #[allow(non_snake_case)]
    pub fn opcode_D(&mut self, instr: Instruction, flags: &mut Flags, mem: &mut Memory) -> (r:
        Result<(), EmuError>)
        requires
            old(self).wf(),
            old(mem).wf(),
            instr.wf(),
        ensures
            final(self).wf(),
            final(mem).wf(),
            op_d_post(
                *old(self),
                *final(self),
                *old(mem),
                *final(mem),
                *old(flags),
                *final(flags),
                instr,
                r,
            ),
    {
        let n = instr.n() as usize;
        let i0 = self.i as usize;
        if n > 0 && i0 + n > 0x1000 {
            let address: usize = if i0 > 0xFFF {
                i0
            } else {
                0x1000
            };
            return Err(EmuError::OutOfBounds { address });
        }
        let x0 = self.reg[instr.x() as usize];
        let y0 = self.reg[instr.y() as usize];
        let ghost gvram = old(mem).vram@;
        let ghost gram = old(mem).ram@;
        let ghost gi = i0 as int;
        let ghost gx = x0 as int;
        let ghost gy = y0 as int;
        let ghost gn = n as int;
        let mut collision = false;
        let mut row: usize = 0;
        while row < n
            invariant
                old(self).wf(),
                *self == *old(self),
                row <= n,
                n < 16,
                n > 0 ==> i0 + n <= 0x1000,
                i0 == old(self).i,
                x0 < 256,
                y0 < 256,
                gi == i0 as int,
                gx == x0 as int,
                gy == y0 as int,
                gn == n as int,
                gram == old(mem).ram@,
                old(mem).wf(),
                mem.wf(),
                mem.ram@ == gram,
                mem.stack@ == old(mem).stack@,
                mem.rom_location == old(mem).rom_location,
                blit_sprite(gvram, gram, gi, gx, gy, gn).0 == blit_rows_from(
                    mem.vram@,
                    gram,
                    gi,
                    gx,
                    gy,
                    row as int,
                    gn,
                ).0,
                blit_sprite(gvram, gram, gi, gx, gy, gn).1 == (collision || blit_rows_from(
                    mem.vram@,
                    gram,
                    gi,
                    gx,
                    gy,
                    row as int,
                    gn,
                ).1),
            decreases n - row,
        {
            let byte = match mem.read_byte((i0 + row) as u16) {
                Ok(b) => b,
                Err(e) => {
                    return Err(e);
                },
            };
            let yline = (y0 as usize + row) % 32;
            let ghost vrow = mem.vram@;
            let ghost c0 = collision;
            let ghost gyl = yline as int;
            proof {
                assert(gyl == (gy + row as int) % 32);
                assert(blit_rows_from(vrow, gram, gi, gx, gy, row as int, gn) == (
                    blit_rows_from(
                        blit_row_from(vrow, gx, gyl, byte, 0).0,
                        gram,
                        gi,
                        gx,
                        gy,
                        row as int + 1,
                        gn,
                    ).0,
                    blit_row_from(vrow, gx, gyl, byte, 0).1 || blit_rows_from(
                        blit_row_from(vrow, gx, gyl, byte, 0).0,
                        gram,
                        gi,
                        gx,
                        gy,
                        row as int + 1,
                        gn,
                    ).1,
                ));
            }
            let mut k: usize = 0;
            while k < 8
                invariant
                    old(self).wf(),
                    *self == *old(self),
                    k <= 8,
                    row < n,
                    n < 16,
                    i0 + n <= 0x1000,
                    x0 < 256,
                    y0 < 256,
                    yline < 32,
                    gyl == yline as int,
                    gi == i0 as int,
                    gx == x0 as int,
                    gy == y0 as int,
                    gn == n as int,
                    gram == old(mem).ram@,
                    byte == gram[gi + row as int],
                    old(mem).wf(),
                    mem.wf(),
                    mem.ram@ == gram,
                    mem.stack@ == old(mem).stack@,
                    mem.rom_location == old(mem).rom_location,
                    blit_row_from(vrow, gx, gyl, byte, 0).0 == blit_row_from(
                        mem.vram@,
                        gx,
                        gyl,
                        byte,
                        k as int,
                    ).0,
                    (c0 || blit_row_from(vrow, gx, gyl, byte, 0).1) == (collision
                        || blit_row_from(mem.vram@, gx, gyl, byte, k as int).1),
                    blit_sprite(gvram, gram, gi, gx, gy, gn).0 == blit_rows_from(
                        blit_row_from(vrow, gx, gyl, byte, 0).0,
                        gram,
                        gi,
                        gx,
                        gy,
                        row as int + 1,
                        gn,
                    ).0,
                    blit_sprite(gvram, gram, gi, gx, gy, gn).1 == (c0 || blit_row_from(
                        vrow,
                        gx,
                        gyl,
                        byte,
                        0,
                    ).1 || blit_rows_from(
                        blit_row_from(vrow, gx, gyl, byte, 0).0,
                        gram,
                        gi,
                        gx,
                        gy,
                        row as int + 1,
                        gn,
                    ).1),
                decreases 8 - k,
            {
                let sh: u8 = (7 - k) as u8;
                if (byte >> sh) & 1 == 1 {
                    let px = ((x0 as usize + k) % 64) as u8;
                    proof {
                        assert(px as int == (gx + k as int) % 64);
                        assert(sprite_bit(byte, k as int));
                    }
                    if mem.xor_pixel(px, yline as u8) {
                        collision = true;
                    }
                } else {
                    proof {
                        assert(!sprite_bit(byte, k as int));
                    }
                }
                k = k + 1;
            }
            row = row + 1;
        }
        self.reg.set(15, if collision { 1 } else { 0 });
        flags.draw = true;
        Ok(())
    }

    /// Ex9E / ExA1.
    #[allow(non_snake_case)]
    pub fn opcode_E(&mut self, instr: Instruction, flags: &mut Flags) -> (r: Result<(), EmuError>)
        requires
            old(self).wf(),
            instr.wf(),
        ensures
            final(self).wf(),
            op_e_post(*old(self), *final(self), *old(flags), *final(flags), instr, r),
    {
        let key = flags.key.as_u8();
        match instr.kk() {
            0x9E => {
                if key < 16 && self.reg[instr.x() as usize] == key {
                    self.pc = self.pc.wrapping_add(2);
                }
                Ok(())
            },
            0xA1 => {
                if !(key < 16 && self.reg[instr.x() as usize] == key) {
                    self.pc = self.pc.wrapping_add(2);
                }
                Ok(())
            },
            _ => Err(EmuError::UnknownOpcode { raw_word: instr.raw, pc: self.pc }),
        }
    }

    /// Fx07 through Fx65.
    #[allow(non_snake_case)]
    pub fn opcode_F(&mut self, instr: Instruction, mem: &mut Memory, flags: &mut Flags) -> (r:
        Result<(), EmuError>)
        requires
            old(self).wf(),
            old(mem).wf(),
            instr.wf(),
        ensures
            final(self).wf(),
            final(mem).wf(),
            op_f_post(
                *old(self),
                *final(self),
                *old(mem),
                *final(mem),
                *old(flags),
                *final(flags),
                instr,
                r,
            ),
    {
        let key = flags.key.as_u8();
        let x = instr.x() as usize;
        match instr.kk() {
            0x07 => {
                let dt = self.dt;
                self.reg.set(x, dt);
                Ok(())
            },
            0x0A => {
                if key < 16 {
                    self.reg.set(x, key);
                } else {
                    self.pc = self.pc.wrapping_sub(2);
                }
                Ok(())
            },
            0x15 => {
                self.dt = self.reg[x];
                Ok(())
            },
            0x18 => {
                self.st = self.reg[x];
                Ok(())
            },
            0x1E => {
                self.i = self.i.wrapping_add(self.reg[x] as u16);
                Ok(())
            },
            0x29 => {
                self.i = (self.reg[x] as u16) * 5;
                Ok(())
            },
            0x33 => {
                let vx = self.reg[x];
                let i0 = self.i as usize;
                if i0 + 2 > 0xFFF {
                    return Err(EmuError::OutOfBounds { address: i0 + 2 });
                }
                match mem.write_byte((i0 + 2) as u16, vx % 10) {
                    Err(e) => return Err(e),
                    Ok(()) => {},
                }
                match mem.write_byte((i0 + 1) as u16, (vx / 10) % 10) {
                    Err(e) => return Err(e),
                    Ok(()) => {},
                }
                match mem.write_byte(i0 as u16, vx / 100) {
                    Err(e) => return Err(e),
                    Ok(()) => {},
                }
                Ok(())
            },
            0x55 => {
                let i0 = self.i as usize;
                if i0 + x > 0xFFF {
                    let address: usize = if i0 > 0xFFF {
                        i0
                    } else {
                        0x1000
                    };
                    return Err(EmuError::OutOfBounds { address });
                }
                let mut j: usize = 0;
                while j <= x
                    invariant
                        old(self).wf(),
                        x < 16,
                        j <= x + 1,
                        i0 + x <= 0xFFF,
                        i0 == old(self).i,
                        *self == *old(self),
                        old(mem).wf(),
                        mem.ram@.len() == 4096,
                        forall|t: int| i0 <= t < i0 + j ==> mem.ram@[t] == old(self).reg@[t - i0],
                        forall|t: int|
                            0 <= t < 4096 && !(i0 <= t < i0 + j) ==> mem.ram@[t] == old(
                                mem,
                            ).ram@[t],
                        mem.vram@ == old(mem).vram@,
                        mem.stack@ == old(mem).stack@,
                        mem.rom_location == old(mem).rom_location,
                        mem.wf(),
                    decreases x + 1 - j,
                {
                    let b = self.reg[j];
                    match mem.write_byte((i0 + j) as u16, b) {
                        Err(e) => return Err(e),
                        Ok(()) => {},
                    }
                    j = j + 1;
                }
                Ok(())
            },
            0x65 => {
                let i0 = self.i as usize;
                if i0 + x > 0xFFF {
                    let address: usize = if i0 > 0xFFF {
                        i0
                    } else {
                        0x1000
                    };
                    return Err(EmuError::OutOfBounds { address });
                }
                let mut j: usize = 0;
                while j <= x
                    invariant
                        old(self).wf(),
                        self.wf(),
                        x < 16,
                        j <= x + 1,
                        i0 + x <= 0xFFF,
                        i0 == old(self).i,
                        self.dt == old(self).dt,
                        self.st == old(self).st,
                        self.i == old(self).i,
                        self.pc == old(self).pc,
                        forall|t: int| 0 <= t < j ==> self.reg@[t] == mem.ram@[i0 + t],
                        forall|t: int| j <= t < 16 ==> self.reg@[t] == old(self).reg@[t],
                        old(mem).wf(),
                        mem_eq(*old(mem), *mem),
                        mem.wf(),
                    decreases x + 1 - j,
                {
                    let b = match mem.read_byte((i0 + j) as u16) {
                        Err(e) => return Err(e),
                        Ok(v) => v,
                    };
                    self.reg.set(j, b);
                    j = j + 1;
                }
                Ok(())
            },
            _ => Err(EmuError::UnknownOpcode { raw_word: instr.raw, pc: self.pc }),
        }
    }

    /// Execute one decoded instruction: dispatch on the family nibble. The
    /// effect of each family is pinned by its `op.._post` predicate; the
    /// flags and the memory are untouched by families that do not use them.
    pub fn execute(&mut self, instr: Instruction, flags: &mut Flags, mem: &mut Memory) -> (r:
        Result<(), EmuError>)
        requires
            old(self).wf(),
            old(mem).wf(),
            instr.wf(),
        ensures
            final(self).wf(),
            final(mem).wf(),
            step_post(
                *old(self),
                *final(self),
                *old(mem),
                *final(mem),
                *old(flags),
                *final(flags),
                instr,
                r,
            ),
    {
        match instr.itype() {
            0x0 => self.opcode_0(instr, flags, mem),
            0x1 => self.opcode_1(instr),
            0x2 => self.opcode_2(instr, mem),
            0x3 => self.opcode_3(instr),
            0x4 => self.opcode_4(instr),
            0x5 => self.opcode_5(instr),
            0x6 => self.opcode_6(instr),
            0x7 => self.opcode_7(instr),
            0x8 => self.opcode_8(instr),
            0x9 => self.opcode_9(instr),
            0xA => self.opcode_A(instr),
            0xB => self.opcode_B(instr),
            0xC => self.opcode_C(instr),
            0xD => self.opcode_D(instr, flags, mem),
            0xE => self.opcode_E(instr, flags),
            0xF => self.opcode_F(instr, mem, flags),
            _ => Err(EmuError::UnknownOpcode { raw_word: instr.raw, pc: self.pc }),
        }
    }
}

} // verus!
