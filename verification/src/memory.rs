//! The memory subsystem: 4096 bytes of addressable RAM, the 16-entry call
//! stack, and the 64x32 monochrome video buffer.
//!
//! Layout invariant: addresses 0x000-0x1FF are reserved; the font sprite
//! table for hex digits 0-F occupies bytes 0..80 and is loaded once at
//! initialization. ROM bytes are loaded starting at 0x200. Any access at or
//! beyond 0x1000 is out of bounds and fails.

use vstd::prelude::*;

verus! {

/// The failures the engine and the memory subsystem can report. The core
/// never recovers from these; they propagate to the driving loop unchanged.
#[derive(Clone, Copy, Debug, PartialEq, Eq, Structural)]
pub enum EmuError {
    /// A memory access touched an address at or beyond 0x1000.
    OutOfBounds { address: usize },
    /// A call was made with 16 return addresses already stacked.
    StackOverflow,
    /// A return was executed with no return address stacked.
    StackUnderflow,
    /// The fetched word matches no documented opcode; `pc` is the address
    /// of the instruction after the fetch increment.
    UnknownOpcode { raw_word: u16, pc: u16 },
    /// A ROM image longer than the 0xE00 bytes of program space.
    RomTooLarge,
}

/// The fixed 16x5-byte hex glyph table, one 4x5-pixel sprite per hex digit,
/// resident at addresses 0x000..0x050.
pub open spec fn font_data() -> Seq<u8> {
    seq![
        0xF0u8, 0x90, 0x90, 0x90, 0xF0, // 0
        0x20, 0x60, 0x20, 0x20, 0x70, // 1
        0xF0, 0x10, 0xF0, 0x80, 0xF0, // 2
        0xF0, 0x10, 0xF0, 0x10, 0xF0, // 3
        0x90, 0x90, 0xF0, 0x10, 0x10, // 4
        0xF0, 0x80, 0xF0, 0x10, 0xF0, // 5
        0xF0, 0x80, 0xF0, 0x90, 0xF0, // 6
        0xF0, 0x10, 0x20, 0x40, 0x40, // 7
        0xF0, 0x90, 0xF0, 0x90, 0xF0, // 8
        0xF0, 0x90, 0xF0, 0x10, 0xF0, // 9
        0xF0, 0x90, 0xF0, 0x90, 0x90, // A
        0xE0, 0x90, 0xE0, 0x90, 0xE0, // B
        0xF0, 0x80, 0x80, 0x80, 0xF0, // C
        0xE0, 0x90, 0x90, 0x90, 0xE0, // D
        0xF0, 0x80, 0xF0, 0x80, 0xF0, // E
        0xF0, 0x80, 0xF0, 0x80, 0x80, // F
    ]
}

/// Field-by-field equality of two memory states.
pub open spec fn mem_eq(a: Memory, b: Memory) -> bool {
    b.rom_location == a.rom_location && b.ram@ == a.ram@ && b.vram@ == a.vram@
        && b.stack@ == a.stack@
}

/// Addressable RAM (0x000-0xFFF), the call stack of return addresses, and
/// the video buffer (row-major, index = y*64 + x, one byte per pixel,
/// each 0 or 1).
pub struct Memory {
    pub rom_location: u16,
    pub ram: Vec<u8>,
    pub vram: Vec<u8>,
    pub stack: Vec<u16>,
}

impl Memory {
    /// Structural well-formedness: fixed RAM and video sizes, the stack
    /// within its 16-entry capacity, and every pixel byte 0 or 1.
    pub open spec fn wf(self) -> bool {
        &&& self.rom_location == 0x200
        &&& self.ram@.len() == 4096
        &&& self.vram@.len() == 2048
        &&& self.stack@.len() <= 16
        &&& forall|j: int| 0 <= j < 2048 ==> self.vram@[j] == 0 || self.vram@[j] == 1
    }

    /// A fresh machine: RAM all zero except the font table in bytes 0..80,
    /// a cleared video buffer, and an empty call stack.
    pub fn allocate() -> (r: Memory)
        ensures
            r.wf(),
            r.ram@.subrange(0, 80) == font_data(),
            forall|j: int| 80 <= j < 4096 ==> r.ram@[j] == 0,
            forall|j: int| 0 <= j < 2048 ==> r.vram@[j] == 0,
            r.stack@.len() == 0,
    {
        let mut ram: Vec<u8> = Vec::new();
        while ram.len() < 0x1000
            invariant
                ram@.len() <= 0x1000,
                forall|j: int| 0 <= j < ram@.len() ==> ram@[j] == 0,
            decreases 0x1000 - ram@.len(),
        {
            ram.push(0);
        }
        let mut vram: Vec<u8> = Vec::new();
        while vram.len() < 2048
            invariant
                vram@.len() <= 2048,
                forall|j: int| 0 <= j < vram@.len() ==> vram@[j] == 0,
            decreases 2048 - vram@.len(),
        {
            vram.push(0);
        }
        let mut mem = Memory { rom_location: 0x200, ram, vram, stack: Vec::new() };
        mem.write_font_data();
        assert(mem.ram@.subrange(0, 80) =~= font_data());
        mem
    }

    /// Load the static font table into bytes 0..80 of RAM; the rest of the
    /// machine is untouched.
    pub fn write_font_data(&mut self)
        requires
            old(self).wf(),
        ensures
            final(self).wf(),
            final(self).ram@.len() == old(self).ram@.len(),
            forall|j: int| 0 <= j < 80 ==> final(self).ram@[j] == font_data()[j],
            forall|j: int| 80 <= j < 4096 ==> final(self).ram@[j] == old(self).ram@[j],
            final(self).vram@ == old(self).vram@,
            final(self).stack@ == old(self).stack@,
            final(self).rom_location == old(self).rom_location,
    {
        let fonts: Vec<u8> = vec![
            0xF0, 0x90, 0x90, 0x90, 0xF0, // 0
            0x20, 0x60, 0x20, 0x20, 0x70, // 1
            0xF0, 0x10, 0xF0, 0x80, 0xF0, // 2
            0xF0, 0x10, 0xF0, 0x10, 0xF0, // 3
            0x90, 0x90, 0xF0, 0x10, 0x10, // 4
            0xF0, 0x80, 0xF0, 0x10, 0xF0, // 5
            0xF0, 0x80, 0xF0, 0x90, 0xF0, // 6
            0xF0, 0x10, 0x20, 0x40, 0x40, // 7
            0xF0, 0x90, 0xF0, 0x90, 0xF0, // 8
            0xF0, 0x90, 0xF0, 0x10, 0xF0, // 9
            0xF0, 0x90, 0xF0, 0x90, 0x90, // A
            0xE0, 0x90, 0xE0, 0x90, 0xE0, // B
            0xF0, 0x80, 0x80, 0x80, 0xF0, // C
            0xE0, 0x90, 0x90, 0x90, 0xE0, // D
            0xF0, 0x80, 0xF0, 0x80, 0xF0, // E
            0xF0, 0x80, 0xF0, 0x80, 0x80, // F
        ];
        assert(fonts@ =~= font_data());
        let mut i: usize = 0;
        while i < 80
            invariant
                old(self).wf(),
                i <= 80,
                fonts@ == font_data(),
                self.ram@.len() == 4096,
                forall|j: int| 0 <= j < i ==> self.ram@[j] == font_data()[j],
                forall|j: int| i <= j < 4096 ==> self.ram@[j] == old(self).ram@[j],
                self.vram@ == old(self).vram@,
                self.stack@ == old(self).stack@,
                self.rom_location == old(self).rom_location,
            decreases 80 - i,
        {
            let b = fonts[i];
            self.ram.set(i, b);
            i = i + 1;
        }
    }

    /// Copy a ROM image into RAM starting at 0x200. An image longer than
    /// the 0xE00 bytes of program space is rejected whole with
    /// `RomTooLarge` and nothing is written.
    pub fn write_rom_data(&mut self, data: Vec<u8>) -> (r: Result<(), EmuError>)
        requires
            old(self).wf(),
        ensures
            final(self).wf(),
            data@.len() > 0xE00 ==> r == Err::<(), EmuError>(EmuError::RomTooLarge)
                && final(self).ram@ == old(self).ram@,
            data@.len() <= 0xE00 ==> r == Ok::<(), EmuError>(())
                && (forall|j: int|
                    0x200 <= j < 0x200 + data@.len() ==> final(self).ram@[j] == data@[j - 0x200])
                && (forall|j: int|
                    0 <= j < 4096 && !(0x200 <= j < 0x200 + data@.len())
                        ==> final(self).ram@[j] == old(self).ram@[j]),
            final(self).ram@.len() == old(self).ram@.len(),
            final(self).vram@ == old(self).vram@,
            final(self).stack@ == old(self).stack@,
            final(self).rom_location == old(self).rom_location,
    {
        if data.len() > 0xE00 {
            return Err(EmuError::RomTooLarge);
        }
        let mut offset: usize = 0;
        while offset < data.len()
            invariant
                old(self).wf(),
                data@.len() <= 0xE00,
                offset <= data@.len(),
                self.ram@.len() == 4096,
                forall|j: int|
                    0x200 <= j < 0x200 + offset ==> self.ram@[j] == data@[j - 0x200],
                forall|j: int|
                    0 <= j < 4096 && !(0x200 <= j < 0x200 + offset)
                        ==> self.ram@[j] == old(self).ram@[j],
                self.vram@ == old(self).vram@,
                self.stack@ == old(self).stack@,
                self.rom_location == old(self).rom_location,
            decreases data@.len() - offset,
        {
            let b = data[offset];
            self.ram.set(0x200 + offset, b);
            offset = offset + 1;
        }
        Ok(())
    }

    /// Write one byte; fails with `OutOfBounds` exactly when the address is
    /// at or beyond 0x1000, in which case nothing changes.
    pub fn write_byte(&mut self, location: u16, val: u8) -> (r: Result<(), EmuError>)
        requires
            old(self).wf(),
        ensures
            final(self).wf(),
            location >= 0x1000 ==> r == Err::<(), EmuError>(EmuError::OutOfBounds {
                address: location as usize,
            }) && final(self).ram@ == old(self).ram@,
            location < 0x1000 ==> r == Ok::<(), EmuError>(())
                && final(self).ram@ == old(self).ram@.update(location as int, val),
            final(self).ram@.len() == old(self).ram@.len(),
            final(self).vram@ == old(self).vram@,
            final(self).stack@ == old(self).stack@,
            final(self).rom_location == old(self).rom_location,
    {
        if location >= 0x1000 {
            return Err(EmuError::OutOfBounds { address: location as usize });
        }
        self.ram.set(location as usize, val);
        Ok(())
    }

    /// Clear every pixel of the video buffer.
    pub fn clear_vram(&mut self)
        requires
            old(self).wf(),
        ensures
            final(self).wf(),
            final(self).vram@.len() == old(self).vram@.len(),
            forall|j: int| 0 <= j < 2048 ==> final(self).vram@[j] == 0,
            final(self).ram@ == old(self).ram@,
            final(self).stack@ == old(self).stack@,
            final(self).rom_location == old(self).rom_location,
    {
        let mut i: usize = 0;
        while i < 2048
            invariant
                i <= 2048,
                self.vram@.len() == 2048,
                forall|j: int| 0 <= j < i ==> self.vram@[j] == 0,
                self.ram@ == old(self).ram@,
                self.stack@ == old(self).stack@,
                self.rom_location == old(self).rom_location,
            decreases 2048 - i,
        {
            self.vram.set(i, 0);
            i = i + 1;
        }
    }

    /// Read the two bytes at `loc` and `loc + 1` as one big-endian word.
    /// Fails with `OutOfBounds` when either byte address exceeds 0xFFF; the
    /// reported address is the first offending one.
    pub fn read_word(&self, loc: u16) -> (r: Result<u16, EmuError>)
        requires
            self.wf(),
        ensures
            loc >= 0xFFF ==> r == Err::<u16, EmuError>(EmuError::OutOfBounds {
                address: if loc >= 0x1000 { loc as int } else { 0x1000 } as usize,
            }),
            loc < 0xFFF ==> r == Ok::<u16, EmuError>(
                (self.ram@[loc as int] * 256 + self.ram@[loc as int + 1]) as u16,
            ),
    {
        if loc >= 0xFFF {
            let address: usize = if loc >= 0x1000 { loc as usize } else { 0x1000 };
            return Err(EmuError::OutOfBounds { address });
        }
        let msb: u16 = self.ram[loc as usize] as u16;
        let lsb: u16 = self.ram[loc as usize + 1] as u16;
        Ok(msb * 256 + lsb)
    }

    /// Read one byte; fails with `OutOfBounds` exactly when the address is
    /// at or beyond 0x1000.
    pub fn read_byte(&self, loc: u16) -> (r: Result<u8, EmuError>)
        requires
            self.wf(),
        ensures
            loc >= 0x1000 ==> r == Err::<u8, EmuError>(EmuError::OutOfBounds {
                address: loc as usize,
            }),
            loc < 0x1000 ==> r == Ok::<u8, EmuError>(self.ram@[loc as int]),
    {
        if loc >= 0x1000 {
            return Err(EmuError::OutOfBounds { address: loc as usize });
        }
        Ok(self.ram[loc as usize])
    }

    /// Read `count` bytes starting at `loc`; fails with `OutOfBounds`
    /// (reporting the starting address) when `loc + count` reaches past RAM.
    pub fn read_n_bytes(&self, count: usize, loc: usize) -> (r: Result<Vec<u8>, EmuError>)
        requires
            self.wf(),
        ensures
            loc + count >= 4096 ==> r == Err::<Vec<u8>, EmuError>(EmuError::OutOfBounds {
                address: loc,
            }),
            loc + count < 4096 ==> r is Ok && r->Ok_0@ == self.ram@.subrange(
                loc as int,
                loc + count,
            ),
    {
        if loc >= 0x1000 || count >= 0x1000 || loc + count >= 0x1000 {
            return Err(EmuError::OutOfBounds { address: loc });
        }
        let mut out: Vec<u8> = Vec::new();
        let mut i: usize = 0;
        while i < count
            invariant
                loc + count < 4096,
                self.ram@.len() == 4096,
                i <= count,
                out@ == self.ram@.subrange(loc as int, loc + i),
            decreases count - i,
        {
            out.push(self.ram[loc + i]);
            assert(out@ =~= self.ram@.subrange(loc as int, loc + i + 1));
            i = i + 1;
        }
        Ok(out)
    }

    /// A read-only view of the video buffer, for the display collaborator.
    pub fn get_vram(&self) -> (r: &Vec<u8>)
        ensures
            r@ == self.vram@,
    {
        &self.vram
    }

    /// Flip the pixel at (x, y); reports a collision exactly when the pixel
    /// was set and is now unset.
    pub fn xor_pixel(&mut self, x: u8, y: u8) -> (collision: bool)
        requires
            old(self).wf(),
            x < 64,
            y < 32,
        ensures
            final(self).wf(),
            final(self).vram@ == old(self).vram@.update(
                y as int * 64 + x as int,
                if old(self).vram@[y as int * 64 + x as int] == 1 { 0u8 } else { 1u8 },
            ),
            collision == (old(self).vram@[y as int * 64 + x as int] == 1),
            final(self).ram@ == old(self).ram@,
            final(self).stack@ == old(self).stack@,
            final(self).rom_location == old(self).rom_location,
    {
        let idx: usize = y as usize * 64 + x as usize;
        let was_set = self.vram[idx] == 1;
        self.vram.set(idx, if was_set { 0 } else { 1 });
        was_set
    }

    /// Remove and return the value on top of the stack; fails with
    /// `StackUnderflow` exactly when the stack is empty.
    pub fn pop_stack(&mut self) -> (r: Result<u16, EmuError>)
        requires
            old(self).wf(),
        ensures
            final(self).wf(),
            old(self).stack@.len() == 0 ==> r == Err::<u16, EmuError>(EmuError::StackUnderflow)
                && final(self).stack@ == old(self).stack@,
            old(self).stack@.len() > 0 ==> r == Ok::<u16, EmuError>(old(self).stack@.last())
                && final(self).stack@ == old(self).stack@.drop_last(),
            final(self).ram@ == old(self).ram@,
            final(self).vram@ == old(self).vram@,
            final(self).rom_location == old(self).rom_location,
    {
        match self.stack.pop() {
            Some(v) => Ok(v),
            None => Err(EmuError::StackUnderflow),
        }
    }

    /// Push a return address; fails with `StackOverflow` exactly when 16
    /// entries are already stacked.
    pub fn push_stack(&mut self, val: u16) -> (r: Result<(), EmuError>)
        requires
            old(self).wf(),
        ensures
            final(self).wf(),
            old(self).stack@.len() == 16 ==> r == Err::<(), EmuError>(EmuError::StackOverflow)
                && final(self).stack@ == old(self).stack@,
            old(self).stack@.len() < 16 ==> r == Ok::<(), EmuError>(())
                && final(self).stack@ == old(self).stack@.push(val),
            final(self).ram@ == old(self).ram@,
            final(self).vram@ == old(self).vram@,
            final(self).rom_location == old(self).rom_location,
    {
        if self.stack.len() >= 16 {
            return Err(EmuError::StackOverflow);
        }
        self.stack.push(val);
        Ok(())
    }

    /// Diagnostic hook for the stack; deliberately does nothing here, as in
    /// the reference behavior.
    pub fn print_stack(&self) {
    }
}

} // verus!
