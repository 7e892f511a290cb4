use chip8::Instruction;

#[test]
fn decode_extracts_documented_fields() {
    let instr = Instruction::decode(0x1234);
    assert_eq!(instr.itype(), 0x1);
    assert_eq!(instr.x(), 0x2);
    assert_eq!(instr.y(), 0x3);
    assert_eq!(instr.n(), 0x4);
    assert_eq!(instr.kk(), 0x34);
    assert_eq!(instr.nnn(), 0x234);
}

#[test]
fn decode_all_zero_word() {
    let instr = Instruction::decode(0x0000);
    assert_eq!(instr.itype(), 0);
    assert_eq!(instr.x(), 0);
    assert_eq!(instr.y(), 0);
    assert_eq!(instr.n(), 0);
    assert_eq!(instr.kk(), 0);
    assert_eq!(instr.nnn(), 0);
}

#[test]
fn decode_all_one_word() {
    let instr = Instruction::decode(0xFFFF);
    assert_eq!(instr.itype(), 0xF);
    assert_eq!(instr.x(), 0xF);
    assert_eq!(instr.y(), 0xF);
    assert_eq!(instr.n(), 0xF);
    assert_eq!(instr.kk(), 0xFF);
    assert_eq!(instr.nnn(), 0xFFF);
}

#[test]
fn decode_keeps_raw_word() {
    let instr = Instruction::decode(0xD015);
    assert_eq!(instr.raw, 0xD015);
    assert_eq!(instr.itype(), 0xD);
    assert_eq!(instr.n(), 5);
}
