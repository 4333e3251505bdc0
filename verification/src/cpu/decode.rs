//! Decode stage for the standard 32-bit encoding: opcode classification by
//! opmap and funct3, operand-field extraction, and immediate reconstruction
//! with the sign-extension rule of each instruction format.

use vstd::prelude::*;

use crate::cpu::instruction::{
    has_rd, has_rs1, has_rs2, is_alu_imm, is_alu_reg, is_branch, is_load, is_store, Instruction,
    OpcodeKind,
};

verus! {

/// Raw machine-code word captured from memory, tagged with its width.  A
/// half word (16 bits) is a compressed encoding, a full word (32 bits) a
/// standard one.
#[derive(Clone, Copy, Debug, PartialEq, Eq, Structural)]
pub enum RawWord {
    Half(u16),
    Word(u32),
}

/// A raw word matched no recognized opmap/funct3 combination.  Carries the
/// offending bits so the embedding system can report and halt or skip.
#[derive(Clone, Copy, Debug, PartialEq, Eq, Structural)]
#[allow(inconsistent_fields)]
pub enum DecodeError {
    /// A 32-bit word outside the classification table.
    UnrecognizedWord { bits: u32 },
    /// A 16-bit word; no compressed decode table is provided here.
    UnrecognizedHalf { bits: u16 },
}

/// Primary opcode selector: bits 6..0.
pub open spec fn opmap_of(w: u32) -> u32 {
    w & 0x7f
}

/// Secondary opcode selector: bits 14..12.
pub open spec fn funct3_of(w: u32) -> u32 {
    (w >> 12) & 0x7
}

/// Destination register field: bits 11..7.
pub open spec fn rd_field(w: u32) -> u32 {
    (w >> 7) & 0x1f
}

/// First source register field: bits 19..15.
pub open spec fn rs1_field(w: u32) -> u32 {
    (w >> 15) & 0x1f
}

/// Second source register field: bits 24..20.
pub open spec fn rs2_field(w: u32) -> u32 {
    (w >> 20) & 0x1f
}

/// The opmap/funct3 classification table.  `None` means the word is outside
/// the table and decoding must fail rather than guess a class.
pub open spec fn spec_opcode32(w: u32) -> Option<OpcodeKind> {
    let opmap = opmap_of(w);
    let funct3 = funct3_of(w);
    if opmap == 0b0110111 {
        Some(OpcodeKind::Lui)
    } else if opmap == 0b0010111 {
        Some(OpcodeKind::Auipc)
    } else if opmap == 0b1101111 {
        Some(OpcodeKind::Jal)
    } else if opmap == 0b1100111 {
        Some(OpcodeKind::Jalr)
    } else if opmap == 0b1100011 {
        if funct3 == 0b000 {
            Some(OpcodeKind::Beq)
        } else if funct3 == 0b001 {
            Some(OpcodeKind::Bne)
        } else if funct3 == 0b100 {
            Some(OpcodeKind::Blt)
        } else if funct3 == 0b101 {
            Some(OpcodeKind::Bge)
        } else if funct3 == 0b110 {
            Some(OpcodeKind::Bltu)
        } else if funct3 == 0b111 {
            Some(OpcodeKind::Bgeu)
        } else {
            None
        }
    } else if opmap == 0b0000011 {
        if funct3 == 0b000 {
            Some(OpcodeKind::Lb)
        } else if funct3 == 0b001 {
            Some(OpcodeKind::Lh)
        } else if funct3 == 0b010 {
            Some(OpcodeKind::Lw)
        } else if funct3 == 0b100 {
            Some(OpcodeKind::Lbu)
        } else if funct3 == 0b101 {
            Some(OpcodeKind::Lhu)
        } else {
            None
        }
    } else if opmap == 0b0100011 {
        if funct3 == 0b000 {
            Some(OpcodeKind::Sb)
        } else if funct3 == 0b001 {
            Some(OpcodeKind::Sh)
        } else if funct3 == 0b010 {
            Some(OpcodeKind::Sw)
        } else {
            None
        }
    } else if opmap == 0b0010011 {
        if funct3 == 0b000 {
            Some(OpcodeKind::Addi)
        } else if funct3 == 0b001 {
            Some(OpcodeKind::Slli)
        } else if funct3 == 0b010 {
            Some(OpcodeKind::Slti)
        } else if funct3 == 0b011 {
            Some(OpcodeKind::Sltiu)
        } else if funct3 == 0b100 {
            Some(OpcodeKind::Xori)
        } else if funct3 == 0b101 {
            Some(OpcodeKind::Srli)
        } else if funct3 == 0b110 {
            Some(OpcodeKind::Ori)
        } else {
            Some(OpcodeKind::Andi)
        }
    } else if opmap == 0b0110011 {
        if funct3 == 0b000 {
            Some(OpcodeKind::Add)
        } else if funct3 == 0b001 {
            Some(OpcodeKind::Sll)
        } else if funct3 == 0b010 {
            Some(OpcodeKind::Slt)
        } else if funct3 == 0b011 {
            Some(OpcodeKind::Sltu)
        } else if funct3 == 0b100 {
            Some(OpcodeKind::Xor)
        } else if funct3 == 0b101 {
            Some(OpcodeKind::Srl)
        } else if funct3 == 0b110 {
            Some(OpcodeKind::Or)
        } else {
            Some(OpcodeKind::And)
        }
    } else if opmap == 0b0001111 {
        Some(OpcodeKind::Fence)
    } else if opmap == 0b1110011 {
        Some(OpcodeKind::Ecall)
    } else {
        None
    }
}

/// Sign extension of a 12-bit field value.
pub open spec fn sext12(f: int) -> int {
    if f < 0x800 {
        f
    } else {
        f - 0x1000
    }
}

/// Sign extension of a 13-bit field value (branch offsets).
pub open spec fn sext13(f: int) -> int {
    if f < 0x1000 {
        f
    } else {
        f - 0x2000
    }
}

/// Sign extension of a 21-bit field value (JAL offsets).
pub open spec fn sext21(f: int) -> int {
    if f < 0x100000 {
        f
    } else {
        f - 0x200000
    }
}

/// Signed reading of a 32-bit pattern (U-format immediates).
pub open spec fn sext32(f: int) -> int {
    if f < 0x8000_0000 {
        f
    } else {
        f - 0x1_0000_0000
    }
}

/// U format: bits 31..12 placed in the upper 20 bits, lower 12 bits zero.
pub open spec fn imm_u_val(w: u32) -> int {
    sext32((w & 0xffff_f000) as int)
}

/// I format: bits 31..20, sign-extended from 12 bits.
pub open spec fn imm_i_val(w: u32) -> int {
    sext12(((w >> 20) & 0xfff) as int)
}

/// S format: bits 31..25 over bits 11..7, sign-extended from 12 bits.
pub open spec fn imm_s_val(w: u32) -> int {
    sext12(((w >> 25) & 0x7f) as int * 0x20 + ((w >> 7) & 0x1f) as int)
}

/// B format: bit 31 is offset bit 12, bit 7 is offset bit 11, bits 30..25
/// are offset bits 10..5, bits 11..8 are offset bits 4..1, offset bit 0 is
/// zero; sign-extended from 13 bits.
pub open spec fn imm_b_val(w: u32) -> int {
    sext13(
        ((w >> 31) & 1) as int * 0x1000 + ((w >> 7) & 1) as int * 0x800
            + ((w >> 25) & 0x3f) as int * 0x20 + ((w >> 8) & 0xf) as int * 2,
    )
}

/// J format: bit 31 is offset bit 20, bits 19..12 stay as offset bits
/// 19..12, bit 20 is offset bit 11, bits 30..21 are offset bits 10..1,
/// offset bit 0 is zero; sign-extended from 21 bits.
pub open spec fn imm_j_val(w: u32) -> int {
    sext21(
        ((w >> 31) & 1) as int * 0x10_0000 + ((w >> 12) & 0xff) as int * 0x1000
            + ((w >> 20) & 1) as int * 0x800 + ((w >> 21) & 0x3ff) as int * 2,
    )
}

/// Immediate of a classified word, as a mathematical integer: the format is
/// chosen by the operation class, `None` where the format has none.
pub open spec fn spec_imm32(w: u32, k: OpcodeKind) -> Option<int> {
    if k == OpcodeKind::Lui || k == OpcodeKind::Auipc {
        Some(imm_u_val(w))
    } else if k == OpcodeKind::Jal {
        Some(imm_j_val(w))
    } else if k == OpcodeKind::Jalr || is_load(k) || is_alu_imm(k) {
        Some(imm_i_val(w))
    } else if is_store(k) {
        Some(imm_s_val(w))
    } else if is_branch(k) {
        Some(imm_b_val(w))
    } else {
        None
    }
}

/// The instruction a classified 32-bit word decodes to.
pub open spec fn spec_instr32(w: u32, k: OpcodeKind) -> Instruction {
    Instruction {
        opc: k,
        rd: if has_rd(k) {
            Some(rd_field(w) as usize)
        } else {
            None
        },
        rs1: if has_rs1(k) {
            Some(rs1_field(w) as usize)
        } else {
            None
        },
        rs2: if has_rs2(k) {
            Some(rs2_field(w) as usize)
        } else {
            None
        },
        imm: match spec_imm32(w, k) {
            Some(v) => Some(v as i32),
            None => None,
        },
        is_compressed: false,
    }
}

/// Classifies a 32-bit word by opmap, then funct3, exactly as the table of
/// [`spec_opcode32`] says; any other pair fails with the offending bits.
pub fn parse_opcode(word: u32) -> (r: Result<OpcodeKind, DecodeError>)
    ensures
        r matches Ok(k) ==> spec_opcode32(word) == Some(k),
        r is Err ==> spec_opcode32(word) is None,
        r matches Err(e) ==> e == (DecodeError::UnrecognizedWord { bits: word }),
{
    let opmap: u32 = word & 0x7f;
    let funct3: u32 = (word >> 12) & 0x7;
    match opmap {
        0b0110111 => Ok(OpcodeKind::Lui),
        0b0010111 => Ok(OpcodeKind::Auipc),
        0b1101111 => Ok(OpcodeKind::Jal),
        0b1100111 => Ok(OpcodeKind::Jalr),
        0b1100011 => match funct3 {
            0b000 => Ok(OpcodeKind::Beq),
            0b001 => Ok(OpcodeKind::Bne),
            0b100 => Ok(OpcodeKind::Blt),
            0b101 => Ok(OpcodeKind::Bge),
            0b110 => Ok(OpcodeKind::Bltu),
            0b111 => Ok(OpcodeKind::Bgeu),
            _ => Err(DecodeError::UnrecognizedWord { bits: word }),
        },
        0b0000011 => match funct3 {
            0b000 => Ok(OpcodeKind::Lb),
            0b001 => Ok(OpcodeKind::Lh),
            0b010 => Ok(OpcodeKind::Lw),
            0b100 => Ok(OpcodeKind::Lbu),
            0b101 => Ok(OpcodeKind::Lhu),
            _ => Err(DecodeError::UnrecognizedWord { bits: word }),
        },
        0b0100011 => match funct3 {
            0b000 => Ok(OpcodeKind::Sb),
            0b001 => Ok(OpcodeKind::Sh),
            0b010 => Ok(OpcodeKind::Sw),
            _ => Err(DecodeError::UnrecognizedWord { bits: word }),
        },
        0b0010011 => match funct3 {
            0b000 => Ok(OpcodeKind::Addi),
            0b001 => Ok(OpcodeKind::Slli),
            0b010 => Ok(OpcodeKind::Slti),
            0b011 => Ok(OpcodeKind::Sltiu),
            0b100 => Ok(OpcodeKind::Xori),
            0b101 => Ok(OpcodeKind::Srli),
            0b110 => Ok(OpcodeKind::Ori),
            _ => Ok(OpcodeKind::Andi),
        },
        0b0110011 => match funct3 {
            0b000 => Ok(OpcodeKind::Add),
            0b001 => Ok(OpcodeKind::Sll),
            0b010 => Ok(OpcodeKind::Slt),
            0b011 => Ok(OpcodeKind::Sltu),
            0b100 => Ok(OpcodeKind::Xor),
            0b101 => Ok(OpcodeKind::Srl),
            0b110 => Ok(OpcodeKind::Or),
            _ => Ok(OpcodeKind::And),
        },
        0b0001111 => Ok(OpcodeKind::Fence),
        0b1110011 => Ok(OpcodeKind::Ecall),
        _ => Err(DecodeError::UnrecognizedWord { bits: word }),
    }
}

/// Destination register query: bits 11..7, absent for branches, stores and
/// ECALL/EBREAK.
pub fn parse_rd(word: u32, opkind: OpcodeKind) -> (r: Option<usize>)
    ensures
        has_rd(opkind) ==> r == Some((rd_field(word) as usize)),
        !has_rd(opkind) ==> r is None,
        r matches Some(v) ==> v < 32,
{
    match opkind {
        OpcodeKind::Beq | OpcodeKind::Bne | OpcodeKind::Blt | OpcodeKind::Bge
        | OpcodeKind::Bltu | OpcodeKind::Bgeu | OpcodeKind::Sb | OpcodeKind::Sh
        | OpcodeKind::Sw | OpcodeKind::Ecall => None,
        _ => {
            proof {
                assert((word >> 7) & 0x1f < 32) by (bit_vector);
            }
            Some(((word >> 7) & 0x1f) as usize)
        },
    }
}

/// First source register query: bits 19..15, absent for LUI, AUIPC, JAL,
/// FENCE and ECALL/EBREAK.
pub fn parse_rs1(word: u32, opkind: OpcodeKind) -> (r: Option<usize>)
    ensures
        has_rs1(opkind) ==> r == Some((rs1_field(word) as usize)),
        !has_rs1(opkind) ==> r is None,
        r matches Some(v) ==> v < 32,
{
    match opkind {
        OpcodeKind::Lui | OpcodeKind::Auipc | OpcodeKind::Jal | OpcodeKind::Fence
        | OpcodeKind::Ecall => None,
        _ => {
            proof {
                assert((word >> 15) & 0x1f < 32) by (bit_vector);
            }
            Some(((word >> 15) & 0x1f) as usize)
        },
    }
}

/// Second source register query: bits 24..20, present only for branches,
/// stores and register-register ALU classes.
pub fn parse_rs2(word: u32, opkind: OpcodeKind) -> (r: Option<usize>)
    ensures
        has_rs2(opkind) ==> r == Some((rs2_field(word) as usize)),
        !has_rs2(opkind) ==> r is None,
        r matches Some(v) ==> v < 32,
{
    match opkind {
        OpcodeKind::Beq | OpcodeKind::Bne | OpcodeKind::Blt | OpcodeKind::Bge
        | OpcodeKind::Bltu | OpcodeKind::Bgeu | OpcodeKind::Sb | OpcodeKind::Sh
        | OpcodeKind::Sw | OpcodeKind::Add | OpcodeKind::Sll | OpcodeKind::Slt
        | OpcodeKind::Sltu | OpcodeKind::Xor | OpcodeKind::Srl | OpcodeKind::Or
        | OpcodeKind::And => {
            proof {
                assert((word >> 20) & 0x1f < 32) by (bit_vector);
            }
            Some(((word >> 20) & 0x1f) as usize)
        },
        _ => None,
    }
}

/// Immediate query: reconstructs and sign-extends the immediate of the
/// class's format, `None` where the format has none.  Sign extension is
/// mandatory for every signed format: a set sign bit yields a negative
/// value.
pub fn parse_imm(word: u32, opkind: OpcodeKind) -> (r: Option<i32>)
    ensures
        match spec_imm32(word, opkind) {
            Some(v) => r matches Some(i) && i as int == v,
            None => r is None,
        },
{
    match opkind {
        OpcodeKind::Lui | OpcodeKind::Auipc => {
            let hi: u32 = word & 0xffff_f000;
            if hi < 0x8000_0000 {
                Some(hi as i32)
            } else {
                Some(((hi as i64) - 0x1_0000_0000i64) as i32)
            }
        },
        OpcodeKind::Jal => {
            let b20: u32 = (word >> 31) & 1;
            let b19_12: u32 = (word >> 12) & 0xff;
            let b11: u32 = (word >> 20) & 1;
            let b10_1: u32 = (word >> 21) & 0x3ff;
            proof {
                assert((word >> 31) & 1 < 2) by (bit_vector);
                assert((word >> 12) & 0xff < 0x100) by (bit_vector);
                assert((word >> 20) & 1 < 2) by (bit_vector);
                assert((word >> 21) & 0x3ff < 0x400) by (bit_vector);
            }
            let f: u32 = b20 * 0x10_0000 + b19_12 * 0x1000 + b11 * 0x800 + b10_1 * 2;
            if f < 0x10_0000 {
                Some(f as i32)
            } else {
                Some(((f as i64) - 0x20_0000i64) as i32)
            }
        },
        OpcodeKind::Jalr | OpcodeKind::Lb | OpcodeKind::Lh | OpcodeKind::Lw
        | OpcodeKind::Lbu | OpcodeKind::Lhu | OpcodeKind::Addi | OpcodeKind::Slli
        | OpcodeKind::Slti | OpcodeKind::Sltiu | OpcodeKind::Xori | OpcodeKind::Srli
        | OpcodeKind::Ori | OpcodeKind::Andi => {
            let f: u32 = (word >> 20) & 0xfff;
            proof {
                assert((word >> 20) & 0xfff < 0x1000) by (bit_vector);
            }
            if f < 0x800 {
                Some(f as i32)
            } else {
                Some(((f as i64) - 0x1000i64) as i32)
            }
        },
        OpcodeKind::Sb | OpcodeKind::Sh | OpcodeKind::Sw => {
            let hi: u32 = (word >> 25) & 0x7f;
            let lo: u32 = (word >> 7) & 0x1f;
            proof {
                assert((word >> 25) & 0x7f < 0x80) by (bit_vector);
                assert((word >> 7) & 0x1f < 0x20) by (bit_vector);
            }
            let f: u32 = hi * 0x20 + lo;
            if f < 0x800 {
                Some(f as i32)
            } else {
                Some(((f as i64) - 0x1000i64) as i32)
            }
        },
        OpcodeKind::Beq | OpcodeKind::Bne | OpcodeKind::Blt | OpcodeKind::Bge
        | OpcodeKind::Bltu | OpcodeKind::Bgeu => {
            let b12: u32 = (word >> 31) & 1;
            let b11: u32 = (word >> 7) & 1;
            let b10_5: u32 = (word >> 25) & 0x3f;
            let b4_1: u32 = (word >> 8) & 0xf;
            proof {
                assert((word >> 31) & 1 < 2) by (bit_vector);
                assert((word >> 7) & 1 < 2) by (bit_vector);
                assert((word >> 25) & 0x3f < 0x40) by (bit_vector);
                assert((word >> 8) & 0xf < 0x10) by (bit_vector);
            }
            let f: u32 = b12 * 0x1000 + b11 * 0x800 + b10_5 * 0x20 + b4_1 * 2;
            if f < 0x1000 {
                Some(f as i32)
            } else {
                Some(((f as i64) - 0x2000i64) as i32)
            }
        },
        _ => None,
    }
}

/// Composes the five decode queries into the canonical instruction record.
/// Total and deterministic over every word whose opmap/funct3 pair is in
/// the table: such a word decodes to exactly [`spec_instr32`]; any other
/// word fails with its offending bits.
pub fn decode32(word: u32) -> (r: Result<Instruction, DecodeError>)
    ensures
        r is Ok <==> spec_opcode32(word) is Some,
        r matches Ok(i) ==> (spec_opcode32(word) matches Some(k) && i == spec_instr32(word, k)
            && i.wf() && !i.is_compressed),
        r matches Err(e) ==> e == (DecodeError::UnrecognizedWord { bits: word }),
{
    let opc: OpcodeKind = match parse_opcode(word) {
        Ok(k) => k,
        Err(e) => {
            return Err(e);
        },
    };
    let rd: Option<usize> = parse_rd(word, opc);
    let rs1: Option<usize> = parse_rs1(word, opc);
    let rs2: Option<usize> = parse_rs2(word, opc);
    let imm: Option<i32> = parse_imm(word, opc);
    Ok(Instruction { opc, rd, rs1, rs2, imm, is_compressed: false })
}

/// A register-register ALU word built from its fields.
pub open spec fn encode_r(funct3: u32, rd: u32, rs1: u32, rs2: u32) -> u32 {
    0b0110011u32 | rd << 7 | funct3 << 12 | rs1 << 15 | rs2 << 20
}

/// An immediate-ALU word built from its fields; `imm12` is the raw 12-bit
/// immediate field.
pub open spec fn encode_i(funct3: u32, rd: u32, rs1: u32, imm12: u32) -> u32 {
    0b0010011u32 | rd << 7 | funct3 << 12 | rs1 << 15 | imm12 << 20
}

/// A store word built from its fields; `imm12` is the raw 12-bit offset.
pub open spec fn encode_s(funct3: u32, rs1: u32, rs2: u32, imm12: u32) -> u32 {
    0b0100011u32 | (imm12 & 0x1f) << 7 | funct3 << 12 | rs1 << 15 | rs2 << 20 | (imm12 >> 5) << 25
}

/// A branch word built from its fields; `imm13` is the even 13-bit offset.
pub open spec fn encode_b(funct3: u32, rs1: u32, rs2: u32, imm13: u32) -> u32 {
    0b1100011u32 | ((imm13 >> 11) & 1) << 7 | ((imm13 >> 1) & 0xf) << 8 | funct3 << 12 | rs1 << 15
        | rs2 << 20 | ((imm13 >> 5) & 0x3f) << 25 | ((imm13 >> 12) & 1) << 31
}

/// A LUI word built from its fields; `imm20` is the raw upper-immediate
/// field.
pub open spec fn encode_u(rd: u32, imm20: u32) -> u32 {
    0b0110111u32 | rd << 7 | imm20 << 12
}

/// A JAL word built from its fields; `imm21` is the even 21-bit offset.
pub open spec fn encode_j(rd: u32, imm21: u32) -> u32 {
    0b1101111u32 | rd << 7 | ((imm21 >> 12) & 0xff) << 12 | ((imm21 >> 11) & 1) << 20 | ((imm21
        >> 1) & 0x3ff) << 21 | ((imm21 >> 20) & 1) << 31
}

/// Round trip, register-register format: a word built from known fields
/// decodes to exactly those fields, with no immediate and the absent
/// fields absent.
pub proof fn lemma_round_trip_r(funct3: u32, rd: u32, rs1: u32, rs2: u32)
    requires
        funct3 < 8,
        rd < 32,
        rs1 < 32,
        rs2 < 32,
    ensures
        spec_opcode32(encode_r(funct3, rd, rs1, rs2)) is Some,
        spec_opcode32(encode_r(funct3, rd, rs1, rs2)) matches Some(k) ==> ({
            let i = spec_instr32(encode_r(funct3, rd, rs1, rs2), k);
            &&& i.rd == Some(rd as usize)
            &&& i.rs1 == Some(rs1 as usize)
            &&& i.rs2 == Some(rs2 as usize)
            &&& i.imm is None
            &&& is_alu_reg(k)
        }),
{
    assert(encode_r(funct3, rd, rs1, rs2) & 0x7f == 0b0110011 && (encode_r(funct3, rd, rs1, rs2)
        >> 12) & 0x7 == funct3 && (encode_r(funct3, rd, rs1, rs2) >> 7) & 0x1f == rd && (encode_r(
        funct3,
        rd,
        rs1,
        rs2,
    ) >> 15) & 0x1f == rs1 && (encode_r(funct3, rd, rs1, rs2) >> 20) & 0x1f == rs2)
        by (bit_vector)
        requires
            funct3 < 8,
            rd < 32,
            rs1 < 32,
            rs2 < 32,
    ;
}

/// Round trip, immediate-ALU format: a word built from known fields
/// decodes to exactly those fields; the raw 12-bit immediate comes back
/// sign-extended, and the absent fields stay absent.
pub proof fn lemma_round_trip_i(funct3: u32, rd: u32, rs1: u32, imm12: u32)
    requires
        funct3 < 8,
        rd < 32,
        rs1 < 32,
        imm12 < 0x1000,
    ensures
        spec_opcode32(encode_i(funct3, rd, rs1, imm12)) is Some,
        spec_opcode32(encode_i(funct3, rd, rs1, imm12)) matches Some(k) ==> ({
            let i = spec_instr32(encode_i(funct3, rd, rs1, imm12), k);
            &&& i.rd == Some(rd as usize)
            &&& i.rs1 == Some(rs1 as usize)
            &&& i.rs2 is None
            &&& i.imm matches Some(v) && v as int == sext12(imm12 as int)
            &&& is_alu_imm(k)
        }),
{
    assert(encode_i(funct3, rd, rs1, imm12) & 0x7f == 0b0010011 && (encode_i(funct3, rd, rs1, imm12)
        >> 12) & 0x7 == funct3 && (encode_i(funct3, rd, rs1, imm12) >> 7) & 0x1f == rd && (encode_i(
        funct3,
        rd,
        rs1,
        imm12,
    ) >> 15) & 0x1f == rs1 && (encode_i(funct3, rd, rs1, imm12) >> 20) & 0xfff == imm12)
        by (bit_vector)
        requires
            funct3 < 8,
            rd < 32,
            rs1 < 32,
            imm12 < 0x1000,
    ;
}

/// Round trip, store format: a word built from known fields decodes to
/// exactly those fields; the split 12-bit offset is reassembled and comes
/// back sign-extended, and no destination register appears.
pub proof fn lemma_round_trip_s(funct3: u32, rs1: u32, rs2: u32, imm12: u32)
    requires
        funct3 < 3,
        rs1 < 32,
        rs2 < 32,
        imm12 < 0x1000,
    ensures
        spec_opcode32(encode_s(funct3, rs1, rs2, imm12)) is Some,
        spec_opcode32(encode_s(funct3, rs1, rs2, imm12)) matches Some(k) ==> ({
            let i = spec_instr32(encode_s(funct3, rs1, rs2, imm12), k);
            &&& i.rd is None
            &&& i.rs1 == Some(rs1 as usize)
            &&& i.rs2 == Some(rs2 as usize)
            &&& i.imm matches Some(v) && v as int == sext12(imm12 as int)
            &&& is_store(k)
        }),
{
    assert(encode_s(funct3, rs1, rs2, imm12) & 0x7f == 0b0100011 && (encode_s(funct3, rs1, rs2,
        imm12) >> 12) & 0x7 == funct3 && (encode_s(funct3, rs1, rs2, imm12) >> 15) & 0x1f == rs1 && (
    encode_s(funct3, rs1, rs2, imm12) >> 20) & 0x1f == rs2 && (
    (encode_s(funct3, rs1, rs2, imm12) >> 25) & 0x7f) * 0x20 + ((encode_s(funct3, rs1, rs2, imm12)
        >> 7) & 0x1f) == imm12) by (bit_vector)
        requires
            funct3 < 3,
            rs1 < 32,
            rs2 < 32,
            imm12 < 0x1000,
    ;
}

/// Round trip, branch format: a word built from known fields decodes to
/// exactly those fields; the scattered even 13-bit offset is reassembled
/// and comes back sign-extended, and no destination register appears.
pub proof fn lemma_round_trip_b(funct3: u32, rs1: u32, rs2: u32, imm13: u32)
    requires
        funct3 < 8 && funct3 != 2 && funct3 != 3,
        rs1 < 32,
        rs2 < 32,
        imm13 < 0x2000,
        imm13 & 1 == 0,
    ensures
        spec_opcode32(encode_b(funct3, rs1, rs2, imm13)) is Some,
        spec_opcode32(encode_b(funct3, rs1, rs2, imm13)) matches Some(k) ==> ({
            let i = spec_instr32(encode_b(funct3, rs1, rs2, imm13), k);
            &&& i.rd is None
            &&& i.rs1 == Some(rs1 as usize)
            &&& i.rs2 == Some(rs2 as usize)
            &&& i.imm matches Some(v) && v as int == sext13(imm13 as int)
            &&& is_branch(k)
        }),
{
    assert(encode_b(funct3, rs1, rs2, imm13) & 0x7f == 0b1100011 && (encode_b(funct3, rs1, rs2,
        imm13) >> 12) & 0x7 == funct3 && (encode_b(funct3, rs1, rs2, imm13) >> 15) & 0x1f == rs1 && (
    encode_b(funct3, rs1, rs2, imm13) >> 20) & 0x1f == rs2 && ((encode_b(funct3, rs1, rs2, imm13)
        >> 31) & 1) * 0x1000 + ((encode_b(funct3, rs1, rs2, imm13) >> 7) & 1) * 0x800 + ((encode_b(
        funct3,
        rs1,
        rs2,
        imm13,
    ) >> 25) & 0x3f) * 0x20 + ((encode_b(funct3, rs1, rs2, imm13) >> 8) & 0xf) * 2 == imm13)
        by (bit_vector)
        requires
            funct3 < 8 && funct3 != 2 && funct3 != 3,
            rs1 < 32,
            rs2 < 32,
            imm13 < 0x2000,
            imm13 & 1 == 0,
    ;
}

/// Round trip, upper-immediate format: a LUI word built from known fields
/// decodes to those fields, the raw 20 bits placed in the upper 20 bits of
/// the immediate, and the absent fields absent.
pub proof fn lemma_round_trip_u(rd: u32, imm20: u32)
    requires
        rd < 32,
        imm20 < 0x10_0000,
    ensures
        spec_opcode32(encode_u(rd, imm20)) == Some(OpcodeKind::Lui),
        ({
            let i = spec_instr32(encode_u(rd, imm20), OpcodeKind::Lui);
            &&& i.rd == Some(rd as usize)
            &&& i.rs1 is None
            &&& i.rs2 is None
            &&& i.imm matches Some(v) && v as int == sext32(imm20 as int * 0x1000)
        }),
{
    assert(encode_u(rd, imm20) & 0x7f == 0b0110111 && (encode_u(rd, imm20) >> 7) & 0x1f == rd && (
    encode_u(rd, imm20) & 0xffff_f000) == imm20 * 0x1000) by (bit_vector)
        requires
            rd < 32,
            imm20 < 0x10_0000,
    ;
}

/// Round trip, jump format: a JAL word built from known fields decodes to
/// those fields; the scattered even 21-bit offset is reassembled and comes
/// back sign-extended, and the source registers stay absent.
pub proof fn lemma_round_trip_j(rd: u32, imm21: u32)
    requires
        rd < 32,
        imm21 < 0x20_0000,
        imm21 & 1 == 0,
    ensures
        spec_opcode32(encode_j(rd, imm21)) == Some(OpcodeKind::Jal),
        ({
            let i = spec_instr32(encode_j(rd, imm21), OpcodeKind::Jal);
            &&& i.rd == Some(rd as usize)
            &&& i.rs1 is None
            &&& i.rs2 is None
            &&& i.imm matches Some(v) && v as int == sext21(imm21 as int)
        }),
{
    assert(encode_j(rd, imm21) & 0x7f == 0b1101111 && (encode_j(rd, imm21) >> 7) & 0x1f == rd && ((
    encode_j(rd, imm21) >> 31) & 1) * 0x10_0000 + ((encode_j(rd, imm21) >> 12) & 0xff) * 0x1000 + ((
    encode_j(rd, imm21) >> 20) & 1) * 0x800 + ((encode_j(rd, imm21) >> 21) & 0x3ff) * 2 == imm21)
        by (bit_vector)
        requires
            rd < 32,
            imm21 < 0x20_0000,
            imm21 & 1 == 0,
    ;
}

/// Sign extension, I format: a word whose bit 31 (the immediate's sign
/// bit) is set decodes to a negative immediate whose magnitude is the
/// 12-bit field's two's complement.
pub proof fn lemma_sign_extension_i(w: u32)
    requires
        (w >> 31) & 1 == 1,
    ensures
        imm_i_val(w) < 0,
        imm_i_val(w) == ((w >> 20) & 0xfff) - 0x1000,
{
    assert(0x800 <= (w >> 20) & 0xfff < 0x1000) by (bit_vector)
        requires
            (w >> 31) & 1 == 1,
    ;
}

/// Sign extension, branch format: a word whose bit 31 (the offset's sign
/// bit) is set decodes to a negative offset whose magnitude is the 13-bit
/// field's two's complement.
pub proof fn lemma_sign_extension_b(w: u32)
    requires
        (w >> 31) & 1 == 1,
    ensures
        imm_b_val(w) < 0,
        imm_b_val(w) == ((w >> 31) & 1) * 0x1000 + ((w >> 7) & 1) * 0x800 + ((w >> 25) & 0x3f)
            * 0x20 + ((w >> 8) & 0xf) * 2 - 0x2000,
{
    assert(((w >> 31) & 1) * 0x1000 + ((w >> 7) & 1) * 0x800 + ((w >> 25) & 0x3f) * 0x20 + ((w >> 8)
        & 0xf) * 2 >= 0x1000) by (bit_vector)
        requires
            (w >> 31) & 1 == 1,
    ;
    assert(((w >> 7) & 1) * 0x800 + ((w >> 25) & 0x3f) * 0x20 + ((w >> 8) & 0xf) * 2 < 0x1000)
        by (bit_vector);
}

} // verus!
