//! Execute stage: an exhaustive dispatch on the operation class that
//! mutates registers, the program counter and memory.  Register 0 is
//! hard-wired to zero: writes to it are discarded here, whatever the
//! computed result.  Arithmetic wraps in two's complement; no overflow
//! trap exists.

use vstd::prelude::*;

use crate::bus::dram::{Dram, MemoryError};
use crate::cpu::instruction::{Instruction, OpcodeKind};
use crate::cpu::CPU;

verus! {

/// Signed reading of a 32-bit register pattern.
pub open spec fn as_signed(x: u32) -> int {
    if x < 0x8000_0000 {
        x as int
    } else {
        x as int - 0x1_0000_0000
    }
}

/// Two's-complement 32-bit pattern of a signed immediate.
pub open spec fn bits_of_imm(imm: i32) -> u32 {
    (if imm >= 0 {
        imm as int
    } else {
        imm as int + 0x1_0000_0000
    }) as u32
}

/// Register index selected by an operand field; an absent field selects
/// register 0, whose value never changes.
pub open spec fn idx_of(o: Option<usize>) -> int {
    match o {
        Some(v) => v as int,
        None => 0,
    }
}

/// Immediate carried by an operand field; an absent field carries 0.
pub open spec fn imm_of(o: Option<i32>) -> i32 {
    match o {
        Some(v) => v,
        None => 0,
    }
}

/// Register file after a write: a write to register 0 is discarded.
pub open spec fn reg_write(regs: Seq<u32>, rd: int, v: u32) -> Seq<u32> {
    if rd == 0 {
        regs
    } else {
        regs.update(rd, v)
    }
}

/// Sign extension of a loaded byte to 32 bits.
pub open spec fn sext8(b: u8) -> u32 {
    (if b < 0x80 {
        b as int
    } else {
        b as int + 0xffff_ff00
    }) as u32
}

/// Sign extension of a loaded half word to 32 bits.
pub open spec fn sext16_val(h: int) -> u32 {
    (if h < 0x8000 {
        h
    } else {
        h + 0xffff_0000
    }) as u32
}

/// Little-endian half word held at an address.
pub open spec fn le16(mem: Seq<u8>, a: int) -> int {
    mem[a] as int + (mem[a + 1] as int) * 0x100
}

/// Little-endian word held at an address.
pub open spec fn le32(mem: Seq<u8>, a: int) -> int {
    mem[a] as int + (mem[a + 1] as int) * 0x100 + (mem[a + 2] as int) * 0x1_0000 + (mem[a
        + 3] as int) * 0x100_0000
}

/// Memory after a byte store.
pub open spec fn store8(mem: Seq<u8>, a: int, v: u32) -> Seq<u8> {
    mem.update(a, (v % 0x100) as u8)
}

/// Memory after a little-endian half-word store.
pub open spec fn store16(mem: Seq<u8>, a: int, v: u32) -> Seq<u8> {
    mem.update(a, (v % 0x100) as u8).update(a + 1, ((v / 0x100) % 0x100) as u8)
}

/// Memory after a little-endian word store.
pub open spec fn store32(mem: Seq<u8>, a: int, v: u32) -> Seq<u8> {
    mem.update(a, (v % 0x100) as u8).update(a + 1, ((v / 0x100) % 0x100) as u8).update(
        a + 2,
        ((v / 0x1_0000) % 0x100) as u8,
    ).update(a + 3, ((v / 0x100_0000) % 0x100) as u8)
}

/// One execute step as a mathematical function: the next program counter,
/// register file and memory, or `None` when a load or store runs outside
/// memory.  The default program-counter update is the instruction's width
/// (4 standard, 2 compressed); control transfers set an explicit 32-bit
/// target instead.
pub open spec fn spec_step(i: Instruction, pc: usize, regs: Seq<u32>, mem: Seq<u8>) -> Option<
    (usize, Seq<u32>, Seq<u8>),
> {
    let width: u32 = if i.is_compressed {
        2u32
    } else {
        4u32
    };
    let pc32 = pc as u32;
    let next = pc32.wrapping_add(width) as usize;
    let link = pc32.wrapping_add(width);
    let rdi = idx_of(i.rd);
    let rs1v = regs[idx_of(i.rs1)];
    let rs2v = regs[idx_of(i.rs2)];
    let imm = imm_of(i.imm);
    let immb = bits_of_imm(imm);
    let target = pc32.wrapping_add(immb) as usize;
    let addr = rs1v.wrapping_add(immb) as int;
    match i.opc {
        OpcodeKind::Lui => Some((next, reg_write(regs, rdi, immb), mem)),
        OpcodeKind::Auipc => Some((next, reg_write(regs, rdi, pc32.wrapping_add(immb)), mem)),
        OpcodeKind::Jal => Some((target, reg_write(regs, rdi, link), mem)),
        OpcodeKind::Jalr => Some(
            ((rs1v.wrapping_add(immb) & 0xffff_fffe) as usize, reg_write(regs, rdi, link), mem),
        ),
        OpcodeKind::Beq => Some(
            (
                if rs1v == rs2v {
                    target
                } else {
                    next
                },
                regs,
                mem,
            ),
        ),
        OpcodeKind::Bne => Some(
            (
                if rs1v != rs2v {
                    target
                } else {
                    next
                },
                regs,
                mem,
            ),
        ),
        OpcodeKind::Blt => Some(
            (
                if as_signed(rs1v) < as_signed(rs2v) {
                    target
                } else {
                    next
                },
                regs,
                mem,
            ),
        ),
        OpcodeKind::Bge => Some(
            (
                if as_signed(rs1v) >= as_signed(rs2v) {
                    target
                } else {
                    next
                },
                regs,
                mem,
            ),
        ),
        OpcodeKind::Bltu => Some(
            (
                if rs1v < rs2v {
                    target
                } else {
                    next
                },
                regs,
                mem,
            ),
        ),
        OpcodeKind::Bgeu => Some(
            (
                if rs1v >= rs2v {
                    target
                } else {
                    next
                },
                regs,
                mem,
            ),
        ),
        OpcodeKind::Lb => if addr + 1 > mem.len() {
            None
        } else {
            Some((next, reg_write(regs, rdi, sext8(mem[addr])), mem))
        },
        OpcodeKind::Lh => if addr + 2 > mem.len() {
            None
        } else {
            Some((next, reg_write(regs, rdi, sext16_val(le16(mem, addr))), mem))
        },
        OpcodeKind::Lw => if addr + 4 > mem.len() {
            None
        } else {
            Some((next, reg_write(regs, rdi, le32(mem, addr) as u32), mem))
        },
        OpcodeKind::Lbu => if addr + 1 > mem.len() {
            None
        } else {
            Some((next, reg_write(regs, rdi, mem[addr] as u32), mem))
        },
        OpcodeKind::Lhu => if addr + 2 > mem.len() {
            None
        } else {
            Some((next, reg_write(regs, rdi, le16(mem, addr) as u32), mem))
        },
        OpcodeKind::Sb => if addr + 1 > mem.len() {
            None
        } else {
            Some((next, regs, store8(mem, addr, rs2v)))
        },
        OpcodeKind::Sh => if addr + 2 > mem.len() {
            None
        } else {
            Some((next, regs, store16(mem, addr, rs2v)))
        },
        OpcodeKind::Sw => if addr + 4 > mem.len() {
            None
        } else {
            Some((next, regs, store32(mem, addr, rs2v)))
        },
        OpcodeKind::Addi => Some((next, reg_write(regs, rdi, rs1v.wrapping_add(immb)), mem)),
        OpcodeKind::Slli => Some((next, reg_write(regs, rdi, rs1v << (immb & 0x1f)), mem)),
        OpcodeKind::Slti => Some(
            (
                next,
                reg_write(
                    regs,
                    rdi,
                    if as_signed(rs1v) < imm as int {
                        1u32
                    } else {
                        0u32
                    },
                ),
                mem,
            ),
        ),
        OpcodeKind::Sltiu => Some(
            (
                next,
                reg_write(
                    regs,
                    rdi,
                    if rs1v < immb {
                        1u32
                    } else {
                        0u32
                    },
                ),
                mem,
            ),
        ),
        OpcodeKind::Xori => Some((next, reg_write(regs, rdi, rs1v ^ immb), mem)),
        OpcodeKind::Srli => Some((next, reg_write(regs, rdi, rs1v >> (immb & 0x1f)), mem)),
        OpcodeKind::Ori => Some((next, reg_write(regs, rdi, rs1v | immb), mem)),
        OpcodeKind::Andi => Some((next, reg_write(regs, rdi, rs1v & immb), mem)),
        OpcodeKind::Add => Some((next, reg_write(regs, rdi, rs1v.wrapping_add(rs2v)), mem)),
        OpcodeKind::Sll => Some((next, reg_write(regs, rdi, rs1v << (rs2v & 0x1f)), mem)),
        OpcodeKind::Slt => Some(
            (
                next,
                reg_write(
                    regs,
                    rdi,
                    if as_signed(rs1v) < as_signed(rs2v) {
                        1u32
                    } else {
                        0u32
                    },
                ),
                mem,
            ),
        ),
        OpcodeKind::Sltu => Some(
            (
                next,
                reg_write(
                    regs,
                    rdi,
                    if rs1v < rs2v {
                        1u32
                    } else {
                        0u32
                    },
                ),
                mem,
            ),
        ),
        OpcodeKind::Xor => Some((next, reg_write(regs, rdi, rs1v ^ rs2v), mem)),
        OpcodeKind::Srl => Some((next, reg_write(regs, rdi, rs1v >> (rs2v & 0x1f)), mem)),
        OpcodeKind::Or => Some((next, reg_write(regs, rdi, rs1v | rs2v), mem)),
        OpcodeKind::And => Some((next, reg_write(regs, rdi, rs1v & rs2v), mem)),
        OpcodeKind::Fence => Some((next, regs, mem)),
        OpcodeKind::Ecall => Some((next, regs, mem)),
    }
}

/// The faulting address of a step that `spec_step` refuses: the first
/// out-of-range byte of the load or store access.
pub open spec fn spec_step_fault(i: Instruction, pc: usize, regs: Seq<u32>, mem: Seq<u8>) -> int {
    let rs1v = regs[idx_of(i.rs1)];
    let immb = bits_of_imm(imm_of(i.imm));
    let addr = rs1v.wrapping_add(immb) as int;
    if addr >= mem.len() {
        addr
    } else {
        mem.len() as int
    }
}

/// Two's-complement pattern of a signed immediate, as executable code.
fn imm_bits(imm: i32) -> (r: u32)
    ensures
        r == bits_of_imm(imm),
{
    if imm >= 0 {
        imm as u32
    } else {
        ((imm as i64) + 0x1_0000_0000i64) as u32
    }
}

/// Reads the register an operand field selects; an absent field reads
/// register 0.
fn reg_read(cpu: &CPU, r: Option<usize>) -> (v: u32)
    requires
        cpu.wf(),
        r matches Some(i) ==> i < 32,
    ensures
        v == cpu.reg@[idx_of(r)],
{
    match r {
        Some(i) => cpu.reg[i],
        None => 0,
    }
}

/// Writes the register an operand field selects; a write to register 0, or
/// through an absent field, is discarded.
fn write_reg(cpu: &mut CPU, r: Option<usize>, v: u32)
    requires
        old(cpu).wf(),
        r matches Some(i) ==> i < 32,
    ensures
        final(cpu).wf(),
        final(cpu).pc == old(cpu).pc,
        final(cpu).reg@ == reg_write(old(cpu).reg@, idx_of(r), v),
{
    match r {
        Some(i) => {
            if i != 0 {
                cpu.reg.set(i, v);
            }
        },
        None => {},
    }
}

/// Signed comparison of two register patterns.
fn signed_lt(a: u32, b: u32) -> (r: bool)
    ensures
        r == (as_signed(a) < as_signed(b)),
{
    let ai: i64 = if a >= 0x8000_0000 {
        (a as i64) - 0x1_0000_0000i64
    } else {
        a as i64
    };
    let bi: i64 = if b >= 0x8000_0000 {
        (b as i64) - 0x1_0000_0000i64
    } else {
        b as i64
    };
    ai < bi
}

/// Signed comparison of a register pattern against an immediate.
fn signed_lt_imm(a: u32, imm: i32) -> (r: bool)
    ensures
        r == (as_signed(a) < imm as int),
{
    let ai: i64 = if a >= 0x8000_0000 {
        (a as i64) - 0x1_0000_0000i64
    } else {
        a as i64
    };
    ai < (imm as i64)
}

/// Low five bits of a pattern: the shift amount of the shift classes.
fn shamt5(x: u32) -> (s: u32)
    ensures
        s == x & 0x1f,
        s < 32,
{
    proof {
        assert(x & 0x1f < 32) by (bit_vector);
    }
    x & 0x1f
}

/// Sign extension of a loaded byte, as executable code.
fn sext8e(b: u8) -> (r: u32)
    ensures
        r == sext8(b),
{
    if b < 0x80 {
        b as u32
    } else {
        (b as u32) + 0xffff_ff00
    }
}

/// Sign extension of a loaded half word, as executable code.
fn sext16e(h: u32) -> (r: u32)
    requires
        h < 0x1_0000,
    ensures
        r == sext16_val(h as int),
{
    if h < 0x8000 {
        h
    } else {
        h + 0xffff_0000
    }
}

/// Checks that `w` bytes from a 32-bit address lie inside memory; on
/// failure names the first out-of-range byte address.
fn check_range(dram: &Dram, a32: u32, w: usize) -> (r: Result<usize, MemoryError>)
    requires
        1 <= w <= 4,
    ensures
        r matches Ok(a) ==> a == a32 as usize && a32 as int + w <= dram@.len() && dram@.len()
            <= usize::MAX,
        r is Err ==> a32 as int + w > dram@.len(),
        r matches Err(e) ==> e.addr as int == (if a32 as int >= dram@.len() {
            a32 as int
        } else {
            dram@.len() as int
        }),
{
    let a: usize = a32 as usize;
    let n: usize = dram.size();
    if a >= n {
        Err(MemoryError { addr: a })
    } else if n - a < w {
        Err(MemoryError { addr: n })
    } else {
        Ok(a)
    }
}

/// Executes one decoded instruction against the architectural state and
/// memory: exactly the step [`spec_step`] describes, with memory faults of
/// loads and stores surfaced as [`MemoryError`] and the state left
/// untouched.  Requires the decode-time contract: an instruction missing
/// an operand its class defines cannot occur when decode's contract holds.
pub fn execute(inst: &Instruction, cpu: &mut CPU, dram: &mut Dram) -> (r: Result<(), MemoryError>)
    requires
        inst.wf(),
        old(cpu).wf(),
    ensures
        final(cpu).wf(),
        final(cpu).reg@[0] == 0,
        spec_step(*inst, old(cpu).pc, old(cpu).reg@, old(dram)@) matches Some(t) ==> r is Ok
            && final(cpu).pc == t.0 && final(cpu).reg@ == t.1 && final(dram)@ == t.2,
        spec_step(*inst, old(cpu).pc, old(cpu).reg@, old(dram)@) is None ==> (r matches Err(e)
            && e.addr as int == spec_step_fault(*inst, old(cpu).pc, old(cpu).reg@, old(dram)@)
            && final(cpu).pc == old(cpu).pc && final(cpu).reg@ == old(cpu).reg@ && final(dram)@
            == old(dram)@),
{
    let width: u32 = if inst.is_compressed {
        2
    } else {
        4
    };
    let pc32: u32 = cpu.pc as u32;
    let next: usize = pc32.wrapping_add(width) as usize;
    let link: u32 = pc32.wrapping_add(width);
    let rs1v: u32 = reg_read(cpu, inst.rs1);
    let rs2v: u32 = reg_read(cpu, inst.rs2);
    let imm: i32 = match inst.imm {
        Some(v) => v,
        None => 0,
    };
    let immb: u32 = imm_bits(imm);
    let target: usize = pc32.wrapping_add(immb) as usize;
    match inst.opc {
        OpcodeKind::Lui => {
            write_reg(cpu, inst.rd, immb);
            cpu.pc = next;
            Ok(())
        },
        OpcodeKind::Auipc => {
            write_reg(cpu, inst.rd, pc32.wrapping_add(immb));
            cpu.pc = next;
            Ok(())
        },
        OpcodeKind::Jal => {
            write_reg(cpu, inst.rd, link);
            cpu.pc = target;
            Ok(())
        },
        OpcodeKind::Jalr => {
            let t: u32 = rs1v.wrapping_add(immb) & 0xffff_fffe;
            write_reg(cpu, inst.rd, link);
            cpu.pc = t as usize;
            Ok(())
        },
        OpcodeKind::Beq => {
            cpu.pc = if rs1v == rs2v {
                target
            } else {
                next
            };
            Ok(())
        },
        OpcodeKind::Bne => {
            cpu.pc = if rs1v != rs2v {
                target
            } else {
                next
            };
            Ok(())
        },
        OpcodeKind::Blt => {
            cpu.pc = if signed_lt(rs1v, rs2v) {
                target
            } else {
                next
            };
            Ok(())
        },
        OpcodeKind::Bge => {
            cpu.pc = if !signed_lt(rs1v, rs2v) {
                target
            } else {
                next
            };
            Ok(())
        },
        OpcodeKind::Bltu => {
            cpu.pc = if rs1v < rs2v {
                target
            } else {
                next
            };
            Ok(())
        },
        OpcodeKind::Bgeu => {
            cpu.pc = if rs1v >= rs2v {
                target
            } else {
                next
            };
            Ok(())
        },
        OpcodeKind::Lb => {
            match check_range(dram, rs1v.wrapping_add(immb), 1) {
                Err(e) => Err(e),
                Ok(a) => {
                    let v: u32 = sext8e(dram.raw_byte(a));
                    write_reg(cpu, inst.rd, v);
                    cpu.pc = next;
                    Ok(())
                },
            }
        },
        OpcodeKind::Lh => {
            match check_range(dram, rs1v.wrapping_add(immb), 2) {
                Err(e) => Err(e),
                Ok(a) => {
                    let h: u32 = (dram.raw_byte(a) as u32) + (dram.raw_byte(a + 1) as u32) * 0x100;
                    let v: u32 = sext16e(h);
                    write_reg(cpu, inst.rd, v);
                    cpu.pc = next;
                    Ok(())
                },
            }
        },
        OpcodeKind::Lw => {
            match check_range(dram, rs1v.wrapping_add(immb), 4) {
                Err(e) => Err(e),
                Ok(a) => {
                    let v: u32 = (dram.raw_byte(a) as u32) + (dram.raw_byte(a + 1) as u32) * 0x100
                        + (dram.raw_byte(a + 2) as u32) * 0x1_0000 + (dram.raw_byte(
                        a + 3,
                    ) as u32) * 0x100_0000;
                    write_reg(cpu, inst.rd, v);
                    cpu.pc = next;
                    Ok(())
                },
            }
        },
        OpcodeKind::Lbu => {
            match check_range(dram, rs1v.wrapping_add(immb), 1) {
                Err(e) => Err(e),
                Ok(a) => {
                    let v: u32 = dram.raw_byte(a) as u32;
                    write_reg(cpu, inst.rd, v);
                    cpu.pc = next;
                    Ok(())
                },
            }
        },
        OpcodeKind::Lhu => {
            match check_range(dram, rs1v.wrapping_add(immb), 2) {
                Err(e) => Err(e),
                Ok(a) => {
                    let v: u32 = (dram.raw_byte(a) as u32) + (dram.raw_byte(a + 1) as u32) * 0x100;
                    write_reg(cpu, inst.rd, v);
                    cpu.pc = next;
                    Ok(())
                },
            }
        },
        OpcodeKind::Sb => {
            match check_range(dram, rs1v.wrapping_add(immb), 1) {
                Err(e) => Err(e),
                Ok(a) => {
                    dram.set_byte(a, (rs2v % 0x100) as u8);
                    cpu.pc = next;
                    Ok(())
                },
            }
        },
        OpcodeKind::Sh => {
            match check_range(dram, rs1v.wrapping_add(immb), 2) {
                Err(e) => Err(e),
                Ok(a) => {
                    dram.set_byte(a, (rs2v % 0x100) as u8);
                    dram.set_byte(a + 1, ((rs2v / 0x100) % 0x100) as u8);
                    cpu.pc = next;
                    Ok(())
                },
            }
        },
        OpcodeKind::Sw => {
            match check_range(dram, rs1v.wrapping_add(immb), 4) {
                Err(e) => Err(e),
                Ok(a) => {
                    dram.set_byte(a, (rs2v % 0x100) as u8);
                    dram.set_byte(a + 1, ((rs2v / 0x100) % 0x100) as u8);
                    dram.set_byte(a + 2, ((rs2v / 0x1_0000) % 0x100) as u8);
                    dram.set_byte(a + 3, ((rs2v / 0x100_0000) % 0x100) as u8);
                    cpu.pc = next;
                    Ok(())
                },
            }
        },
        OpcodeKind::Addi => {
            write_reg(cpu, inst.rd, rs1v.wrapping_add(immb));
            cpu.pc = next;
            Ok(())
        },
        OpcodeKind::Slli => {
            let s: u32 = shamt5(immb);
            write_reg(cpu, inst.rd, rs1v << s);
            cpu.pc = next;
            Ok(())
        },
        OpcodeKind::Slti => {
            let c: bool = signed_lt_imm(rs1v, imm);
            write_reg(
                cpu,
                inst.rd,
                if c {
                    1
                } else {
                    0
                },
            );
            cpu.pc = next;
            Ok(())
        },
        OpcodeKind::Sltiu => {
            write_reg(
                cpu,
                inst.rd,
                if rs1v < immb {
                    1
                } else {
                    0
                },
            );
            cpu.pc = next;
            Ok(())
        },
        OpcodeKind::Xori => {
            write_reg(cpu, inst.rd, rs1v ^ immb);
            cpu.pc = next;
            Ok(())
        },
        OpcodeKind::Srli => {
            let s: u32 = shamt5(immb);
            write_reg(cpu, inst.rd, rs1v >> s);
            cpu.pc = next;
            Ok(())
        },
        OpcodeKind::Ori => {
            write_reg(cpu, inst.rd, rs1v | immb);
            cpu.pc = next;
            Ok(())
        },
        OpcodeKind::Andi => {
            write_reg(cpu, inst.rd, rs1v & immb);
            cpu.pc = next;
            Ok(())
        },
        OpcodeKind::Add => {
            write_reg(cpu, inst.rd, rs1v.wrapping_add(rs2v));
            cpu.pc = next;
            Ok(())
        },
        OpcodeKind::Sll => {
            let s: u32 = shamt5(rs2v);
            write_reg(cpu, inst.rd, rs1v << s);
            cpu.pc = next;
            Ok(())
        },
        OpcodeKind::Slt => {
            let c: bool = signed_lt(rs1v, rs2v);
            write_reg(
                cpu,
                inst.rd,
                if c {
                    1
                } else {
                    0
                },
            );
            cpu.pc = next;
            Ok(())
        },
        OpcodeKind::Sltu => {
            write_reg(
                cpu,
                inst.rd,
                if rs1v < rs2v {
                    1
                } else {
                    0
                },
            );
            cpu.pc = next;
            Ok(())
        },
        OpcodeKind::Xor => {
            write_reg(cpu, inst.rd, rs1v ^ rs2v);
            cpu.pc = next;
            Ok(())
        },
        OpcodeKind::Srl => {
            let s: u32 = shamt5(rs2v);
            write_reg(cpu, inst.rd, rs1v >> s);
            cpu.pc = next;
            Ok(())
        },
        OpcodeKind::Or => {
            write_reg(cpu, inst.rd, rs1v | rs2v);
            cpu.pc = next;
            Ok(())
        },
        OpcodeKind::And => {
            write_reg(cpu, inst.rd, rs1v & rs2v);
            cpu.pc = next;
            Ok(())
        },
        OpcodeKind::Fence => {
            cpu.pc = next;
            Ok(())
        },
        OpcodeKind::Ecall => {
            cpu.pc = next;
            Ok(())
        },
    }
}

} // verus!
