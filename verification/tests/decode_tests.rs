use rv32_core::bus::dram::Dram;
use rv32_core::cpu::decode::{decode32, DecodeError, RawWord};
use rv32_core::cpu::instruction::OpcodeKind;
use rv32_core::cpu::{fetch, Wrapper};

#[test]
fn decode_addi_x10_x0_0() {
    // ADDI x10, x0, 0
    let i = decode32(0x0000_0513).unwrap();
    assert_eq!(i.opc, OpcodeKind::Addi);
    assert_eq!(i.rd, Some(10));
    assert_eq!(i.rs1, Some(0));
    assert_eq!(i.rs2, None);
    assert_eq!(i.imm, Some(0));
    assert!(!i.is_compressed);
}

#[test]
fn decode_zero_word_fails() {
    // opmap 0 matches nothing in the table: a typed failure, not a guess.
    let r = decode32(0x0000_0000);
    assert_eq!(r, Err(DecodeError::UnrecognizedWord { bits: 0 }));
}

#[test]
fn decode_unknown_funct3_fails() {
    // branch opmap with funct3 = 0b010, which no branch uses
    let r = decode32(0x0000_2063);
    assert_eq!(r, Err(DecodeError::UnrecognizedWord { bits: 0x0000_2063 }));
}

#[test]
fn wrapper_decodes_standard_word() {
    let w = Wrapper::new(RawWord::Word(0x0000_0513));
    assert_eq!(w.value, RawWord::Word(0x0000_0513));
    let i = w.decode().unwrap();
    assert_eq!(i.opc, OpcodeKind::Addi);
    assert_eq!(i.rd, Some(10));
}

#[test]
fn decode_half_word_fails() {
    let w = Wrapper::new(RawWord::Half(0x0001));
    let r = w.decode();
    assert_eq!(r, Err(DecodeError::UnrecognizedHalf { bits: 0x0001 }));
}

#[test]
fn decode_addi_negative_one() {
    // ADDI x0, x0, -1 (raw immediate field 0xfff)
    let i = decode32(0xfff0_0013).unwrap();
    assert_eq!(i.opc, OpcodeKind::Addi);
    assert_eq!(i.imm, Some(-1));
}

#[test]
fn decode_addi_most_negative() {
    // ADDI x5, x6, -2048 (raw immediate field 0x800)
    let i = decode32(0x8003_0293).unwrap();
    assert_eq!(i.opc, OpcodeKind::Addi);
    assert_eq!(i.rd, Some(5));
    assert_eq!(i.rs1, Some(6));
    assert_eq!(i.imm, Some(-2048));
}

#[test]
fn decode_beq_negative_offset() {
    // BEQ x0, x0, -4: the sign bit is set, so the offset must come back
    // negative with its exact magnitude.
    let i = decode32(0xfe00_0ee3).unwrap();
    assert_eq!(i.opc, OpcodeKind::Beq);
    assert_eq!(i.rd, None);
    assert_eq!(i.rs1, Some(0));
    assert_eq!(i.rs2, Some(0));
    assert_eq!(i.imm, Some(-4));
}

#[test]
fn decode_jal_negative_offset() {
    // JAL x1, -4
    let i = decode32(0xffdf_f0ef).unwrap();
    assert_eq!(i.opc, OpcodeKind::Jal);
    assert_eq!(i.rd, Some(1));
    assert_eq!(i.rs1, None);
    assert_eq!(i.rs2, None);
    assert_eq!(i.imm, Some(-4));
}

#[test]
fn decode_jal_positive_offset() {
    // JAL x1, +8
    let i = decode32(0x0080_00ef).unwrap();
    assert_eq!(i.opc, OpcodeKind::Jal);
    assert_eq!(i.rd, Some(1));
    assert_eq!(i.imm, Some(8));
}

#[test]
fn decode_lui_high_bit() {
    // LUI x1, 0x80000: the upper immediate keeps its position, so bit 31
    // set reads as the most negative 32-bit value.
    let i = decode32(0x8000_00b7).unwrap();
    assert_eq!(i.opc, OpcodeKind::Lui);
    assert_eq!(i.rd, Some(1));
    assert_eq!(i.rs1, None);
    assert_eq!(i.imm, Some(i32::MIN));
}

#[test]
fn decode_lui_positions_immediate() {
    // LUI x1, 0x12345: bits 31..12 of the immediate, lower 12 bits zero.
    let i = decode32(0x1234_50b7).unwrap();
    assert_eq!(i.opc, OpcodeKind::Lui);
    assert_eq!(i.imm, Some(0x1234_5000));
}

#[test]
fn decode_sw_negative_offset() {
    // SW x2, -4(x1): split S-format offset, sign-extended; no rd.
    let i = decode32(0xfe20_ae23).unwrap();
    assert_eq!(i.opc, OpcodeKind::Sw);
    assert_eq!(i.rd, None);
    assert_eq!(i.rs1, Some(1));
    assert_eq!(i.rs2, Some(2));
    assert_eq!(i.imm, Some(-4));
}

#[test]
fn decode_round_trip_itype_fields() {
    // Build an ADDI word from chosen fields and decode it back: rd = 11,
    // rs1 = 12, raw immediate 0x7ff (+2047); absent fields stay absent.
    let rd: u32 = 11;
    let rs1: u32 = 12;
    let imm12: u32 = 0x7ff;
    let word: u32 = 0b0010011 | rd << 7 | rs1 << 15 | imm12 << 20;
    let i = decode32(word).unwrap();
    assert_eq!(i.opc, OpcodeKind::Addi);
    assert_eq!(i.rd, Some(11));
    assert_eq!(i.rs1, Some(12));
    assert_eq!(i.rs2, None);
    assert_eq!(i.imm, Some(2047));
}

#[test]
fn decode_round_trip_rtype_fields() {
    // Build an XOR word from chosen fields and decode it back: no
    // immediate for register-register classes.
    let rd: u32 = 3;
    let rs1: u32 = 31;
    let rs2: u32 = 17;
    let word: u32 = 0b0110011 | rd << 7 | 0b100 << 12 | rs1 << 15 | rs2 << 20;
    let i = decode32(word).unwrap();
    assert_eq!(i.opc, OpcodeKind::Xor);
    assert_eq!(i.rd, Some(3));
    assert_eq!(i.rs1, Some(31));
    assert_eq!(i.rs2, Some(17));
    assert_eq!(i.imm, None);
}

#[test]
fn decode_all_branch_kinds() {
    let kinds = [
        (0b000, OpcodeKind::Beq),
        (0b001, OpcodeKind::Bne),
        (0b100, OpcodeKind::Blt),
        (0b101, OpcodeKind::Bge),
        (0b110, OpcodeKind::Bltu),
        (0b111, OpcodeKind::Bgeu),
    ];
    for (funct3, kind) in kinds {
        let word: u32 = 0b1100011 | (funct3 as u32) << 12;
        let i = decode32(word).unwrap();
        assert_eq!(i.opc, kind);
    }
}

#[test]
fn decode_all_load_kinds() {
    let kinds = [
        (0b000, OpcodeKind::Lb),
        (0b001, OpcodeKind::Lh),
        (0b010, OpcodeKind::Lw),
        (0b100, OpcodeKind::Lbu),
        (0b101, OpcodeKind::Lhu),
    ];
    for (funct3, kind) in kinds {
        let word: u32 = 0b0000011 | (funct3 as u32) << 12;
        assert_eq!(decode32(word).unwrap().opc, kind);
    }
    // funct3 0b011 and 0b110 name no load
    assert!(decode32(0b0000011 | 0b011 << 12).is_err());
    assert!(decode32(0b0000011 | 0b110 << 12).is_err());
}

#[test]
fn decode_unknown_store_funct3_fails() {
    // store opmap with funct3 = 0b011, which no store uses
    let r = decode32(0b0100011 | 0b011 << 12);
    assert_eq!(r, Err(DecodeError::UnrecognizedWord { bits: 0b0100011 | 0b011 << 12 }));
}

#[test]
fn decode_aliased_patterns_report_table_variant() {
    // Patterns sharing opmap and funct3 with another operation are
    // reported as the table's variant: SUB as Add, SRAI as Srli, EBREAK
    // as Ecall.  Telling them apart would need funct7 bit 30 or the
    // immediate value, which the table does not consult.
    assert_eq!(decode32(0x4000_0033).unwrap().opc, OpcodeKind::Add);
    assert_eq!(decode32(0x4000_5013).unwrap().opc, OpcodeKind::Srli);
    assert_eq!(decode32(0x0010_0073).unwrap().opc, OpcodeKind::Ecall);
}

#[test]
fn decode_fence_and_ecall() {
    let f = decode32(0x0000_000f).unwrap();
    assert_eq!(f.opc, OpcodeKind::Fence);
    assert_eq!(f.rd, Some(0));
    assert_eq!(f.rs1, None);
    assert_eq!(f.imm, None);
    let e = decode32(0x0000_0073).unwrap();
    assert_eq!(e.opc, OpcodeKind::Ecall);
    assert_eq!(e.rd, None);
    assert_eq!(e.rs1, None);
    assert_eq!(e.imm, None);
}

#[test]
fn fetch_standard_word_on_low_bits_11() {
    // First byte 0x03: low two bits are 11, so four bytes come back,
    // packed little-endian.
    let d = Dram::new(vec![0x03, 0x02, 0x01, 0x7f]);
    let w = fetch(&d, 0).unwrap();
    assert_eq!(w.value, RawWord::Word(0x7f01_0203));
}

#[test]
fn fetch_standard_word_on_0x7f() {
    let d = Dram::new(vec![0x7f, 0x00, 0x00, 0x00]);
    let w = fetch(&d, 0).unwrap();
    assert_eq!(w.value, RawWord::Word(0x0000_007f));
}

#[test]
fn fetch_half_word_on_0x01() {
    // First byte 0x01: low two bits are 01, a compressed encoding — two
    // bytes, little-endian.
    let d = Dram::new(vec![0x01, 0xa5, 0xff, 0xff]);
    let w = fetch(&d, 0).unwrap();
    assert_eq!(w.value, RawWord::Half(0xa501));
}

#[test]
fn fetch_half_word_on_0x80() {
    let d = Dram::new(vec![0x80, 0x12]);
    let w = fetch(&d, 0).unwrap();
    assert_eq!(w.value, RawWord::Half(0x1280));
}

#[test]
fn fetch_out_of_range_pc_fails() {
    let d = Dram::new(vec![0x13]);
    let e = fetch(&d, 4).unwrap_err();
    assert_eq!(e.addr, 4);
}

#[test]
fn fetch_truncated_word_fails() {
    // A standard encoding needs four bytes; only three are there.
    let d = Dram::new(vec![0x13, 0x05, 0x00]);
    let e = fetch(&d, 0).unwrap_err();
    assert_eq!(e.addr, 3);
}

#[test]
fn fetch_truncated_half_fails() {
    let d = Dram::new(vec![0x01]);
    let e = fetch(&d, 0).unwrap_err();
    assert_eq!(e.addr, 1);
}
