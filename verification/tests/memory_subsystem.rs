use chip8::EmuError;
use chip8::Memory;

const FONT: [u8; 80] = [
    0xF0, 0x90, 0x90, 0x90, 0xF0, // 0
    0x20, 0x60, 0x20, 0x20, 0x70, // 1
    0xF0, 0x10, 0xF0, 0x80, 0xF0, // 2
    0xF0, 0x10, 0xF0, 0x10, 0xF0, // 3
    0x90, 0x90, 0xF0, 0x10, 0x10, // 4
    0xF0, 0x80, 0xF0, 0x10, 0xF0, // 5
    0xF0, 0x80, 0xF0, 0x90, 0xF0, // 6
    0xF0, 0x10, 0x20, 0x40, 0x40, // 7
    0xF0, 0x90, 0xF0, 0x90, 0xF0, // 8
    0xF0, 0x90, 0xF0, 0x10, 0xF0, // 9
    0xF0, 0x90, 0xF0, 0x90, 0x90, // A
    0xE0, 0x90, 0xE0, 0x90, 0xE0, // B
    0xF0, 0x80, 0x80, 0x80, 0xF0, // C
    0xE0, 0x90, 0x90, 0x90, 0xE0, // D
    0xF0, 0x80, 0xF0, 0x80, 0xF0, // E
    0xF0, 0x80, 0xF0, 0x80, 0x80, // F
];

#[test]
fn font_table_loaded_byte_exact() {
    let mem = Memory::allocate();
    for addr in 0..80u16 {
        assert_eq!(mem.read_byte(addr).unwrap(), FONT[addr as usize]);
    }
}

#[test]
fn fresh_memory_zero_beyond_font() {
    let mem = Memory::allocate();
    for addr in 80..0x1000u16 {
        assert_eq!(mem.read_byte(addr).unwrap(), 0);
    }
}

#[test]
fn write_then_read_byte() {
    let mut mem = Memory::allocate();
    mem.write_byte(0x555, 0xAB).unwrap();
    assert_eq!(mem.read_byte(0x555).unwrap(), 0xAB);
}

#[test]
fn write_byte_out_of_bounds() {
    let mut mem = Memory::allocate();
    assert_eq!(
        mem.write_byte(0x1000, 1),
        Err(EmuError::OutOfBounds { address: 0x1000 })
    );
    assert_eq!(
        mem.write_byte(0xFFFF, 1),
        Err(EmuError::OutOfBounds { address: 0xFFFF })
    );
}

#[test]
fn read_byte_out_of_bounds() {
    let mem = Memory::allocate();
    assert_eq!(
        mem.read_byte(0x1000),
        Err(EmuError::OutOfBounds { address: 0x1000 })
    );
}

#[test]
fn read_word_is_big_endian() {
    let mut mem = Memory::allocate();
    mem.write_byte(0x300, 0x12).unwrap();
    mem.write_byte(0x301, 0x34).unwrap();
    assert_eq!(mem.read_word(0x300).unwrap(), 0x1234);
}

#[test]
fn read_word_fails_when_second_byte_out_of_bounds() {
    let mem = Memory::allocate();
    assert_eq!(
        mem.read_word(0xFFF),
        Err(EmuError::OutOfBounds { address: 0x1000 })
    );
    assert_eq!(mem.read_word(0xFFE).unwrap(), 0);
}

#[test]
fn read_n_bytes_returns_range() {
    let mut mem = Memory::allocate();
    mem.write_byte(0x400, 7).unwrap();
    mem.write_byte(0x401, 8).unwrap();
    mem.write_byte(0x402, 9).unwrap();
    assert_eq!(mem.read_n_bytes(3, 0x400).unwrap(), vec![7, 8, 9]);
}

#[test]
fn read_n_bytes_out_of_bounds() {
    let mem = Memory::allocate();
    assert_eq!(
        mem.read_n_bytes(0x10, 0xFF8),
        Err(EmuError::OutOfBounds { address: 0xFF8 })
    );
}

#[test]
fn rom_is_loaded_at_0x200() {
    let mut mem = Memory::allocate();
    mem.write_rom_data(vec![0xDE, 0xAD, 0xBE]).unwrap();
    assert_eq!(mem.read_byte(0x200).unwrap(), 0xDE);
    assert_eq!(mem.read_byte(0x201).unwrap(), 0xAD);
    assert_eq!(mem.read_byte(0x202).unwrap(), 0xBE);
    assert_eq!(mem.read_byte(0x203).unwrap(), 0);
}

#[test]
fn rom_of_maximal_size_fits() {
    let mut mem = Memory::allocate();
    let rom = vec![0x42u8; 0xE00];
    mem.write_rom_data(rom).unwrap();
    assert_eq!(mem.read_byte(0xFFF).unwrap(), 0x42);
    // the reserved area is untouched
    assert_eq!(mem.read_byte(0x1FF).unwrap(), 0);
}

#[test]
fn rom_too_large_is_rejected_whole() {
    let mut mem = Memory::allocate();
    let rom = vec![0x42u8; 0xE01];
    assert_eq!(mem.write_rom_data(rom), Err(EmuError::RomTooLarge));
    assert_eq!(mem.read_byte(0x200).unwrap(), 0);
}

#[test]
fn stack_round_trip() {
    let mut mem = Memory::allocate();
    mem.push_stack(0x1234).unwrap();
    assert_eq!(mem.pop_stack().unwrap(), 0x1234);
}

#[test]
fn stack_is_last_in_first_out() {
    let mut mem = Memory::allocate();
    mem.push_stack(0x111).unwrap();
    mem.push_stack(0x222).unwrap();
    assert_eq!(mem.pop_stack().unwrap(), 0x222);
    assert_eq!(mem.pop_stack().unwrap(), 0x111);
}

#[test]
fn pop_from_fresh_machine_underflows_immediately() {
    let mut mem = Memory::allocate();
    // the stack starts empty: the very first pop fails, and so does
    // every one of 17 attempts
    for _ in 0..17 {
        assert_eq!(mem.pop_stack(), Err(EmuError::StackUnderflow));
    }
}

#[test]
fn seventeenth_push_overflows() {
    let mut mem = Memory::allocate();
    for j in 0..16u16 {
        mem.push_stack(0x200 + j).unwrap();
    }
    assert_eq!(mem.push_stack(0xABC), Err(EmuError::StackOverflow));
    // the 16 stacked values survive the failed push
    for j in (0..16u16).rev() {
        assert_eq!(mem.pop_stack().unwrap(), 0x200 + j);
    }
}

#[test]
fn clear_vram_zeroes_every_pixel() {
    let mut mem = Memory::allocate();
    mem.xor_pixel(3, 4);
    assert_eq!(mem.get_vram()[4 * 64 + 3], 1);
    mem.clear_vram();
    assert_eq!(mem.get_vram().len(), 64 * 32);
    assert!(mem.get_vram().iter().all(|p| *p == 0));
}

#[test]
fn xor_pixel_reports_collision_on_unset_only() {
    let mut mem = Memory::allocate();
    assert!(!mem.xor_pixel(10, 20));
    assert_eq!(mem.get_vram()[20 * 64 + 10], 1);
    assert!(mem.xor_pixel(10, 20));
    assert_eq!(mem.get_vram()[20 * 64 + 10], 0);
}
