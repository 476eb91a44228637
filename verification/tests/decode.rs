use nes::cpu::decode::{decode_op, Instr, Mode, ReadOp, RmwOp, WriteOp};

#[test]
fn decodes_official_opcodes() {
    assert_eq!(decode_op(0xA9), Instr::Read(ReadOp::Lda, Mode::Imm, 2));
    assert_eq!(decode_op(0x8D), Instr::Write(WriteOp::Sta, Mode::Abs, 4));
    assert_eq!(decode_op(0x20), Instr::Jsr);
    assert_eq!(decode_op(0x4C), Instr::JmpAbs);
    assert_eq!(decode_op(0x6C), Instr::JmpInd);
    assert_eq!(decode_op(0x00), Instr::Brk);
    assert_eq!(decode_op(0x06), Instr::Rmw(RmwOp::Asl, Mode::Zpg, 5));
}

#[test]
fn decodes_unofficial_opcodes() {
    assert_eq!(decode_op(0x03), Instr::Rmw(RmwOp::Slo, Mode::IndX, 8));
    assert_eq!(decode_op(0x04), Instr::Skip(1, 3));
    assert_eq!(decode_op(0x0C), Instr::Skip(2, 4));
    assert_eq!(decode_op(0x02), Instr::Unknown);
}
