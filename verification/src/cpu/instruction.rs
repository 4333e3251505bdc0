//! Canonical, width-independent instruction record handed from decode to
//! execute, and the closed enumeration of operation classes.

use vstd::prelude::*;

verus! {

/// Operation class of a decoded RV32 instruction.  Exactly one value per
/// recognized word; an unrecognized pattern is a decode failure, never a
/// guessed class.  Patterns that share opmap and funct3 with another class
/// (ADD/SUB, SRLI/SRAI, SRL/SRA, ECALL/EBREAK) are reported as the variant
/// listed here; telling them apart would need funct7 bit 30 or the
/// immediate, which this table does not consult.
#[derive(Clone, Copy, Debug, PartialEq, Eq, Structural)]
pub enum OpcodeKind {
    Lui,
    Auipc,
    Jal,
    Jalr,
    Beq,
    Bne,
    Blt,
    Bge,
    Bltu,
    Bgeu,
    Lb,
    Lh,
    Lw,
    Lbu,
    Lhu,
    Sb,
    Sh,
    Sw,
    Addi,
    Slli,
    Slti,
    Sltiu,
    Xori,
    Srli,
    Ori,
    Andi,
    Add,
    Sll,
    Slt,
    Sltu,
    Xor,
    Srl,
    Or,
    And,
    Fence,
    Ecall,
}

pub open spec fn is_branch(k: OpcodeKind) -> bool {
    k == OpcodeKind::Beq || k == OpcodeKind::Bne || k == OpcodeKind::Blt
        || k == OpcodeKind::Bge || k == OpcodeKind::Bltu || k == OpcodeKind::Bgeu
}

pub open spec fn is_load(k: OpcodeKind) -> bool {
    k == OpcodeKind::Lb || k == OpcodeKind::Lh || k == OpcodeKind::Lw
        || k == OpcodeKind::Lbu || k == OpcodeKind::Lhu
}

pub open spec fn is_store(k: OpcodeKind) -> bool {
    k == OpcodeKind::Sb || k == OpcodeKind::Sh || k == OpcodeKind::Sw
}

pub open spec fn is_alu_imm(k: OpcodeKind) -> bool {
    k == OpcodeKind::Addi || k == OpcodeKind::Slli || k == OpcodeKind::Slti
        || k == OpcodeKind::Sltiu || k == OpcodeKind::Xori || k == OpcodeKind::Srli
        || k == OpcodeKind::Ori || k == OpcodeKind::Andi
}

pub open spec fn is_alu_reg(k: OpcodeKind) -> bool {
    k == OpcodeKind::Add || k == OpcodeKind::Sll || k == OpcodeKind::Slt
        || k == OpcodeKind::Sltu || k == OpcodeKind::Xor || k == OpcodeKind::Srl
        || k == OpcodeKind::Or || k == OpcodeKind::And
}

/// A destination register is encoded for every class but branches, stores
/// and ECALL/EBREAK.
pub open spec fn has_rd(k: OpcodeKind) -> bool {
    !(is_branch(k) || is_store(k) || k == OpcodeKind::Ecall)
}

/// A first source register is encoded for every class but LUI, AUIPC, JAL,
/// FENCE and ECALL/EBREAK.
pub open spec fn has_rs1(k: OpcodeKind) -> bool {
    !(k == OpcodeKind::Lui || k == OpcodeKind::Auipc || k == OpcodeKind::Jal
        || k == OpcodeKind::Fence || k == OpcodeKind::Ecall)
}

/// A second source register is encoded only for branches, stores and
/// register-register ALU classes (the formats that carry one: B, S, R).
pub open spec fn has_rs2(k: OpcodeKind) -> bool {
    is_branch(k) || is_store(k) || is_alu_reg(k)
}

/// An immediate is encoded for every class but the register-register ALU
/// ones, FENCE and ECALL/EBREAK.
pub open spec fn has_imm(k: OpcodeKind) -> bool {
    !(is_alu_reg(k) || k == OpcodeKind::Fence || k == OpcodeKind::Ecall)
}

/// Width-independent instruction record.  A field is present exactly when
/// the instruction's format defines it — that is decode's contract, stated
/// by [`Instruction::wf`].
#[derive(Clone, Copy, Debug, PartialEq, Eq)]
pub struct Instruction {
    pub opc: OpcodeKind,
    pub rd: Option<usize>,
    pub rs1: Option<usize>,
    pub rs2: Option<usize>,
    pub imm: Option<i32>,
    pub is_compressed: bool,
}

impl Instruction {
    /// Decode-time contract: each operand field is present if and only if
    /// the operation class defines it, and register indices select one of
    /// the 32 architectural registers.
    pub open spec fn wf(self) -> bool {
        &&& if has_rd(self.opc) {
            self.rd matches Some(r) && r < 32
        } else {
            self.rd is None
        }
        &&& if has_rs1(self.opc) {
            self.rs1 matches Some(r) && r < 32
        } else {
            self.rs1 is None
        }
        &&& if has_rs2(self.opc) {
            self.rs2 matches Some(r) && r < 32
        } else {
            self.rs2 is None
        }
        &&& if has_imm(self.opc) {
            self.imm is Some
        } else {
            self.imm is None
        }
    }
}

} // verus!
