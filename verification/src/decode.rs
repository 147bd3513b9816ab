//! The decoder: from a 32-bit instruction word to a typed instruction.

use vstd::prelude::*;
use crate::bits::sign_extend;
use crate::instruction::{
    ArgsIType, ArgsRType, ArgsSBType, ArgsUJType, IllegalInstruction, Instruction,
};
use crate::state::CoreState;

verus! {

/// The major opcode, `word[6:0]`.
pub open spec fn opcode_of(word: u32) -> int {
    word as int % 0x80
}

/// The minor opcode, `word[14:12]`.
pub open spec fn funct3_of(word: u32) -> int {
    (word as int / 0x1000) % 8
}

/// The second minor opcode, `word[31:25]`.
pub open spec fn funct7_of(word: u32) -> int {
    (word as int / 0x200_0000) % 0x80
}

/// The first source register, `word[19:15]`.
pub open spec fn rs1_of(word: u32) -> int {
    (word as int / 0x8000) % 32
}

/// The second source register, `word[24:20]`.
pub open spec fn rs2_of(word: u32) -> int {
    (word as int / 0x10_0000) % 32
}

/// The destination register, `word[11:7]`.
pub open spec fn rd_of(word: u32) -> int {
    (word as int / 0x80) % 32
}

/// The shift amount of the immediate shifts, `word[24:20]`.
pub open spec fn shamt_of(word: u32) -> int {
    (word as int / 0x10_0000) % 32
}

/// The CSR address, `word[31:20]`, unsigned.
pub open spec fn csr_of(word: u32) -> int {
    (word as int / 0x10_0000) % 0x1000
}

/// The I immediate: `word[31:20]`, sign-extended from 12 bits.
pub open spec fn imm_i_of(word: u32) -> int {
    sign_extend((word as int / 0x10_0000) % 0x1000, 0x800)
}

/// The S immediate: `word[31:25]` above `word[11:7]`, sign-extended from 12
/// bits.
pub open spec fn imm_s_of(word: u32) -> int {
    let imm_11_5 = (word as int / 0x200_0000) % 0x80;
    let imm_4_0 = (word as int / 0x80) % 32;
    sign_extend(imm_11_5 * 32 + imm_4_0, 0x800)
}

/// The B immediate: `word[31]`, `word[7]`, `word[30:25]`, `word[11:8]` and a
/// zero, from the top down, sign-extended from 13 bits.
pub open spec fn imm_b_of(word: u32) -> int {
    let imm_12 = (word as int / 0x8000_0000) % 2;
    let imm_11 = (word as int / 0x80) % 2;
    let imm_10_5 = (word as int / 0x200_0000) % 64;
    let imm_4_1 = (word as int / 0x100) % 16;
    sign_extend(imm_12 * 0x1000 + imm_11 * 0x800 + imm_10_5 * 32 + imm_4_1 * 2, 0x1000)
}

/// The U immediate: `word[31:12]` above twelve zeros, read as a signed
/// 32-bit number.
pub open spec fn imm_u_of(word: u32) -> int {
    let imm_31_12 = (word as int / 0x1000) % 0x10_0000;
    sign_extend(imm_31_12 * 0x1000, 0x8000_0000)
}

/// The J immediate: `word[31]`, `word[19:12]`, `word[20]`, `word[30:21]` and
/// a zero, from the top down, sign-extended from 21 bits.
pub open spec fn imm_j_of(word: u32) -> int {
    let imm_20 = (word as int / 0x8000_0000) % 2;
    let imm_19_12 = (word as int / 0x1000) % 0x100;
    let imm_11 = (word as int / 0x10_0000) % 2;
    let imm_10_1 = (word as int / 0x20_0000) % 0x400;
    sign_extend(imm_20 * 0x10_0000 + imm_19_12 * 0x1000 + imm_11 * 0x800 + imm_10_1 * 2, 0x10_0000)
}

/// The operands of `word` read as a register-register instruction.
pub open spec fn r_args(word: u32) -> ArgsRType {
    ArgsRType {
        rs1: rs1_of(word) as usize,
        rs2: rs2_of(word) as usize,
        rd: rd_of(word) as usize,
    }
}

/// The operands of `word` read as a register-immediate instruction.
pub open spec fn i_args(word: u32) -> ArgsIType {
    ArgsIType {
        rs1: rs1_of(word) as usize,
        rd: rd_of(word) as usize,
        imm: imm_i_of(word) as i32,
        shamt: shamt_of(word) as u8,
        csr: csr_of(word) as u16,
    }
}

/// The operands of `word` read as a store.
pub open spec fn s_args(word: u32) -> ArgsSBType {
    ArgsSBType {
        rs1: rs1_of(word) as usize,
        rs2: rs2_of(word) as usize,
        imm: imm_s_of(word) as i32,
    }
}

/// The operands of `word` read as a branch.
pub open spec fn b_args(word: u32) -> ArgsSBType {
    ArgsSBType {
        rs1: rs1_of(word) as usize,
        rs2: rs2_of(word) as usize,
        imm: imm_b_of(word) as i32,
    }
}

/// The operands of `word` read as an upper-immediate instruction.
pub open spec fn u_args(word: u32) -> ArgsUJType {
    ArgsUJType { rd: rd_of(word) as usize, imm: imm_u_of(word) as i32 }
}

/// The operands of `word` read as a jump.
pub open spec fn j_args(word: u32) -> ArgsUJType {
    ArgsUJType { rd: rd_of(word) as usize, imm: imm_j_of(word) as i32 }
}

/// The instruction that `word` encodes. The opcode picks the family; within
/// a family `funct3` and, for the shifts and the register-register
/// operations, `funct7` pick the instruction. In the system family four
/// fixed words are the privileged instructions and `funct3` picks among the
/// six CSR instructions. Every other word is illegal.
pub open spec fn spec_decode(word: u32) -> Result<Instruction, IllegalInstruction> {
    let opcode = opcode_of(word);
    let funct3 = funct3_of(word);
    let funct7 = funct7_of(word);
    if opcode == 0b011_0111 {
        Ok(Instruction::Lui(u_args(word)))
    } else if opcode == 0b001_0111 {
        Ok(Instruction::Auipc(u_args(word)))
    } else if opcode == 0b110_1111 {
        Ok(Instruction::Jal(j_args(word)))
    } else if opcode == 0b110_0111 {
        if funct3 == 0 {
            Ok(Instruction::Jalr(i_args(word)))
        } else {
            Err(IllegalInstruction)
        }
    } else if opcode == 0b110_0011 {
        spec_decode_branch(funct3, b_args(word))
    } else if opcode == 0b000_0011 {
        spec_decode_load(funct3, i_args(word))
    } else if opcode == 0b010_0011 {
        spec_decode_store(funct3, s_args(word))
    } else if opcode == 0b001_0011 {
        spec_decode_op_imm(funct3, funct7, i_args(word))
    } else if opcode == 0b011_0011 {
        spec_decode_op(funct3, funct7, r_args(word))
    } else if opcode == 0b000_1111 {
        Ok(Instruction::Fence)
    } else if opcode == 0b111_0011 {
        spec_decode_system(word)
    } else {
        Err(IllegalInstruction)
    }
}

/// The conditional branch that `funct3` picks.
pub open spec fn spec_decode_branch(funct3: int, args: ArgsSBType) -> Result<
    Instruction,
    IllegalInstruction,
> {
    if funct3 == 0b000 {
        Ok(Instruction::Beq(args))
    } else if funct3 == 0b001 {
        Ok(Instruction::Bne(args))
    } else if funct3 == 0b100 {
        Ok(Instruction::Blt(args))
    } else if funct3 == 0b101 {
        Ok(Instruction::Bge(args))
    } else if funct3 == 0b110 {
        Ok(Instruction::Bltu(args))
    } else if funct3 == 0b111 {
        Ok(Instruction::Bgeu(args))
    } else {
        Err(IllegalInstruction)
    }
}

/// The load that `funct3` picks.
pub open spec fn spec_decode_load(funct3: int, args: ArgsIType) -> Result<
    Instruction,
    IllegalInstruction,
> {
    if funct3 == 0b000 {
        Ok(Instruction::Lb(args))
    } else if funct3 == 0b001 {
        Ok(Instruction::Lh(args))
    } else if funct3 == 0b010 {
        Ok(Instruction::Lw(args))
    } else if funct3 == 0b100 {
        Ok(Instruction::Lbu(args))
    } else if funct3 == 0b101 {
        Ok(Instruction::Lhu(args))
    } else {
        Err(IllegalInstruction)
    }
}

/// The store that `funct3` picks.
pub open spec fn spec_decode_store(funct3: int, args: ArgsSBType) -> Result<
    Instruction,
    IllegalInstruction,
> {
    if funct3 == 0b000 {
        Ok(Instruction::Sb(args))
    } else if funct3 == 0b001 {
        Ok(Instruction::Sh(args))
    } else if funct3 == 0b010 {
        Ok(Instruction::Sw(args))
    } else {
        Err(IllegalInstruction)
    }
}

/// The register-immediate operation that `funct3` picks; the shifts also
/// fix `funct7`.
pub open spec fn spec_decode_op_imm(funct3: int, funct7: int, args: ArgsIType) -> Result<
    Instruction,
    IllegalInstruction,
> {
    if funct3 == 0b000 {
        Ok(Instruction::Addi(args))
    } else if funct3 == 0b010 {
        Ok(Instruction::Slti(args))
    } else if funct3 == 0b011 {
        Ok(Instruction::Sltiu(args))
    } else if funct3 == 0b100 {
        Ok(Instruction::Xori(args))
    } else if funct3 == 0b110 {
        Ok(Instruction::Ori(args))
    } else if funct3 == 0b111 {
        Ok(Instruction::Andi(args))
    } else if funct3 == 0b001 && funct7 == 0 {
        Ok(Instruction::Slli(args))
    } else if funct3 == 0b101 && funct7 == 0 {
        Ok(Instruction::Srli(args))
    } else if funct3 == 0b101 && funct7 == 0b010_0000 {
        Ok(Instruction::Srai(args))
    } else {
        Err(IllegalInstruction)
    }
}

/// The register-register operation that `funct7` and `funct3` pick.
pub open spec fn spec_decode_op(funct3: int, funct7: int, args: ArgsRType) -> Result<
    Instruction,
    IllegalInstruction,
> {
    if funct7 == 0 {
        if funct3 == 0b000 {
            Ok(Instruction::Add(args))
        } else if funct3 == 0b001 {
            Ok(Instruction::Sll(args))
        } else if funct3 == 0b010 {
            Ok(Instruction::Slt(args))
        } else if funct3 == 0b011 {
            Ok(Instruction::Sltu(args))
        } else if funct3 == 0b100 {
            Ok(Instruction::Xor(args))
        } else if funct3 == 0b101 {
            Ok(Instruction::Srl(args))
        } else if funct3 == 0b110 {
            Ok(Instruction::Or(args))
        } else if funct3 == 0b111 {
            Ok(Instruction::And(args))
        } else {
            Err(IllegalInstruction)
        }
    } else if funct7 == 0b010_0000 {
        if funct3 == 0b000 {
            Ok(Instruction::Sub(args))
        } else if funct3 == 0b101 {
            Ok(Instruction::Sra(args))
        } else {
            Err(IllegalInstruction)
        }
    } else {
        Err(IllegalInstruction)
    }
}

/// The instruction of the system family that `word` encodes: one of the
/// four privileged instructions where `rs1`, `funct3` and `rd` are all zero
/// and `funct7` and `rs2` have the fixed values, else the CSR instruction
/// that `funct3` picks.
pub open spec fn spec_decode_system(word: u32) -> Result<Instruction, IllegalInstruction> {
    let funct3 = funct3_of(word);
    let funct7 = funct7_of(word);
    let rs2 = rs2_of(word);
    let plain = rs1_of(word) == 0 && funct3 == 0 && rd_of(word) == 0;
    if plain && funct7 == 0 && rs2 == 0 {
        Ok(Instruction::Ecall)
    } else if plain && funct7 == 0 && rs2 == 1 {
        Ok(Instruction::Ebreak)
    } else if plain && funct7 == 0b001_1000 && rs2 == 0b0_0010 {
        Ok(Instruction::Mret)
    } else if plain && funct7 == 0b000_1000 && rs2 == 0b0_0101 {
        Ok(Instruction::Wfi)
    } else if funct3 == 0b001 {
        Ok(Instruction::Csrrw(i_args(word)))
    } else if funct3 == 0b010 {
        Ok(Instruction::Csrrs(i_args(word)))
    } else if funct3 == 0b011 {
        Ok(Instruction::Csrrc(i_args(word)))
    } else if funct3 == 0b101 {
        Ok(Instruction::Csrrwi(i_args(word)))
    } else if funct3 == 0b110 {
        Ok(Instruction::Csrrsi(i_args(word)))
    } else if funct3 == 0b111 {
        Ok(Instruction::Csrrci(i_args(word)))
    } else {
        Err(IllegalInstruction)
    }
}

proof fn lemma_field_masks(w: u32)
    by (bit_vector)
    ensures
        w & 0x7f == w % 128,
        (w >> 12) & 0x7 == (w / 0x1000) % 8,
        (w >> 25) & 0x7f == (w / 0x200_0000) % 128,
        (w >> 15) & 0x1f == (w / 0x8000) % 32,
        (w >> 20) & 0x1f == (w / 0x10_0000) % 32,
        (w >> 7) & 0x1f == (w / 128) % 32,
        (w >> 20) & 0xfff == (w / 0x10_0000) % 4096,
{
}

proof fn lemma_immediate_i(w: u32)
    by (bit_vector)
    ensures
        (((w & 0xFFF0_0000) as i32) >> 20) as int == (if (w / 0x10_0000) % 4096 >= 2048 {
            (w / 0x10_0000) % 4096 - 4096
        } else {
            ((w / 0x10_0000) % 4096) as int
        }),
{
}

proof fn lemma_immediate_s(w: u32)
    by (bit_vector)
    ensures
        ((((w & 0xFE00_0000) as i32) >> 20) | (((w >> 7) & 0x1F) as i32)) as int == (if ((w
            / 0x200_0000) % 128) * 32 + (w / 128) % 32 >= 2048 {
            ((w / 0x200_0000) % 128) * 32 + (w / 128) % 32 - 4096
        } else {
            ((w / 0x200_0000) % 128) * 32 + (w / 128) % 32
        }),
{
}

proof fn lemma_immediate_b(w: u32)
    by (bit_vector)
    ensures
        ((((((w & 0x8000_0000) as i32) >> 19) as u32) | ((w & 0x80) << 4) | ((w >> 20) & 0x7E0) | ((w
            >> 7) & 0x1E)) as i32) as int == (if ((w / 0x8000_0000) % 2) * 4096 + ((w / 128) % 2)
            * 2048 + ((w / 0x200_0000) % 64) * 32 + ((w / 256) % 16) * 2 >= 4096 {
            ((w / 0x8000_0000) % 2) * 4096 + ((w / 128) % 2) * 2048 + ((w / 0x200_0000) % 64) * 32
                + ((w / 256) % 16) * 2 - 8192
        } else {
            ((w / 0x8000_0000) % 2) * 4096 + ((w / 128) % 2) * 2048 + ((w / 0x200_0000) % 64) * 32
                + ((w / 256) % 16) * 2
        }),
{
}

proof fn lemma_immediate_u(w: u32)
    by (bit_vector)
    ensures
        ((w & 0xFFFF_F000) as i32) as int == (if ((w / 0x1000) % 0x10_0000) * 4096 >= 0x8000_0000 {
            ((w / 0x1000) % 0x10_0000) * 4096 - 0x1_0000_0000
        } else {
            ((w / 0x1000) % 0x10_0000) * 4096
        }),
{
}

proof fn lemma_immediate_j(w: u32)
    by (bit_vector)
    ensures
        ((((((w & 0x8000_0000) as i32) >> 11) as u32) | (w & 0x000F_F000) | ((w & 0x0010_0000) >> 9)
            | ((w & 0x7FE0_0000) >> 20)) as i32) as int == (if ((w / 0x8000_0000) % 2) * 0x10_0000
            + ((w / 0x1000) % 256) * 4096 + ((w / 0x10_0000) % 2) * 2048 + ((w / 0x20_0000) % 1024)
            * 2 >= 0x10_0000 {
            ((w / 0x8000_0000) % 2) * 0x10_0000 + ((w / 0x1000) % 256) * 4096 + ((w / 0x10_0000)
                % 2) * 2048 + ((w / 0x20_0000) % 1024) * 2 - 0x20_0000
        } else {
            ((w / 0x8000_0000) % 2) * 0x10_0000 + ((w / 0x1000) % 256) * 4096 + ((w / 0x10_0000)
                % 2) * 2048 + ((w / 0x20_0000) % 1024) * 2
        }),
{
}

fn immediate_i(word: u32) -> (imm: i32)
    ensures
        imm == imm_i_of(word),
{
    proof {
        lemma_immediate_i(word);
    }
    ((word & 0xFFF0_0000) as i32) >> 20
}

fn immediate_s(word: u32) -> (imm: i32)
    ensures
        imm == imm_s_of(word),
{
    proof {
        lemma_immediate_s(word);
    }
    let imm_11_5 = (word & 0xFE00_0000) as i32;
    let imm_4_0 = ((word >> 7) & 0x1F) as i32;
    (imm_11_5 >> 20) | imm_4_0
}

fn immediate_b(word: u32) -> (imm: i32)
    ensures
        imm == imm_b_of(word),
{
    proof {
        lemma_immediate_b(word);
    }
    let imm_12 = (((word & 0x8000_0000) as i32) >> 19) as u32;
    let imm_11 = (word & 0x80) << 4;
    let imm_10_5 = (word >> 20) & 0x7E0;
    let imm_4_1 = (word >> 7) & 0x1E;
    (imm_12 | imm_11 | imm_10_5 | imm_4_1) as i32
}

fn immediate_u(word: u32) -> (imm: i32)
    ensures
        imm == imm_u_of(word),
{
    proof {
        lemma_immediate_u(word);
    }
    (word & 0xFFFF_F000) as i32
}

fn immediate_j(word: u32) -> (imm: i32)
    ensures
        imm == imm_j_of(word),
{
    proof {
        lemma_immediate_j(word);
    }
    let imm_20 = (((word & 0x8000_0000) as i32) >> 11) as u32;
    let imm_19_12 = word & 0x000F_F000;
    let imm_11 = (word & 0x0010_0000) >> 9;
    let imm_10_1 = (word & 0x7FE0_0000) >> 20;
    (imm_20 | imm_19_12 | imm_11 | imm_10_1) as i32
}

impl CoreState {
    /// Decodes one instruction word. The result is the instruction that the
    /// word encodes, with its operands cut from the word's bit fields, or
    /// `IllegalInstruction` where the word encodes none.
    pub fn decode(instruction: u32) -> (decoded: Result<Instruction, IllegalInstruction>)
        ensures
            decoded == spec_decode(instruction),
            decoded matches Ok(instr) ==> instr.wf(),
    {
        proof {
            lemma_field_masks(instruction);
            lemma_decode_wf(instruction);
        }
        let opcode = instruction & 0b111_1111;
        let funct3 = (instruction >> 12) & 0b111;
        let funct7 = (instruction >> 25) & 0b111_1111;

        let rs1 = ((instruction >> 15) & 0b1_1111) as usize;
        let rs2 = ((instruction >> 20) & 0b1_1111) as usize;
        let rd = ((instruction >> 7) & 0b1_1111) as usize;
        let shamt = ((instruction >> 20) & 0b1_1111) as u8;
        let csr = ((instruction >> 20) & 0xFFF) as u16;

        let args_r = ArgsRType { rs1, rs2, rd };
        let args_i = ArgsIType { rs1, rd, imm: immediate_i(instruction), shamt, csr };
        let args_s = ArgsSBType { rs1, rs2, imm: immediate_s(instruction) };
        let args_b = ArgsSBType { rs1, rs2, imm: immediate_b(instruction) };
        let args_u = ArgsUJType { rd, imm: immediate_u(instruction) };
        let args_j = ArgsUJType { rd, imm: immediate_j(instruction) };
        assert(args_r == r_args(instruction));
        assert(args_i == i_args(instruction));
        assert(args_s == s_args(instruction));
        assert(args_b == b_args(instruction));
        assert(args_u == u_args(instruction));
        assert(args_j == j_args(instruction));

        match opcode {
            0b011_0111 => Ok(Instruction::Lui(args_u)),
            0b001_0111 => Ok(Instruction::Auipc(args_u)),
            0b110_1111 => Ok(Instruction::Jal(args_j)),
            0b110_0111 => match funct3 {
                0 => Ok(Instruction::Jalr(args_i)),
                _ => Err(IllegalInstruction),
            },
            0b110_0011 => match funct3 {
                0b000 => Ok(Instruction::Beq(args_b)),
                0b001 => Ok(Instruction::Bne(args_b)),
                0b100 => Ok(Instruction::Blt(args_b)),
                0b101 => Ok(Instruction::Bge(args_b)),
                0b110 => Ok(Instruction::Bltu(args_b)),
                0b111 => Ok(Instruction::Bgeu(args_b)),
                _ => Err(IllegalInstruction),
            },
            0b000_0011 => match funct3 {
                0b000 => Ok(Instruction::Lb(args_i)),
                0b001 => Ok(Instruction::Lh(args_i)),
                0b010 => Ok(Instruction::Lw(args_i)),
                0b100 => Ok(Instruction::Lbu(args_i)),
                0b101 => Ok(Instruction::Lhu(args_i)),
                _ => Err(IllegalInstruction),
            },
            0b010_0011 => match funct3 {
                0b000 => Ok(Instruction::Sb(args_s)),
                0b001 => Ok(Instruction::Sh(args_s)),
                0b010 => Ok(Instruction::Sw(args_s)),
                _ => Err(IllegalInstruction),
            },
            0b001_0011 => match funct3 {
                0b000 => Ok(Instruction::Addi(args_i)),
                0b010 => Ok(Instruction::Slti(args_i)),
                0b011 => Ok(Instruction::Sltiu(args_i)),
                0b100 => Ok(Instruction::Xori(args_i)),
                0b110 => Ok(Instruction::Ori(args_i)),
                0b111 => Ok(Instruction::Andi(args_i)),
                0b001 => match funct7 {
                    0 => Ok(Instruction::Slli(args_i)),
                    _ => Err(IllegalInstruction),
                },
                0b101 => match funct7 {
                    0 => Ok(Instruction::Srli(args_i)),
                    0b010_0000 => Ok(Instruction::Srai(args_i)),
                    _ => Err(IllegalInstruction),
                },
                _ => Err(IllegalInstruction),
            },
            0b011_0011 => match funct7 {
                0 => match funct3 {
                    0b000 => Ok(Instruction::Add(args_r)),
                    0b001 => Ok(Instruction::Sll(args_r)),
                    0b010 => Ok(Instruction::Slt(args_r)),
                    0b011 => Ok(Instruction::Sltu(args_r)),
                    0b100 => Ok(Instruction::Xor(args_r)),
                    0b101 => Ok(Instruction::Srl(args_r)),
                    0b110 => Ok(Instruction::Or(args_r)),
                    0b111 => Ok(Instruction::And(args_r)),
                    _ => Err(IllegalInstruction),
                },
                0b010_0000 => match funct3 {
                    0b000 => Ok(Instruction::Sub(args_r)),
                    0b101 => Ok(Instruction::Sra(args_r)),
                    _ => Err(IllegalInstruction),
                },
                _ => Err(IllegalInstruction),
            },
            0b000_1111 => Ok(Instruction::Fence),
            0b111_0011 => match (funct7, rs2, rs1, funct3, rd) {
                (0, 0, 0, 0, 0) => Ok(Instruction::Ecall),
                (0, 1, 0, 0, 0) => Ok(Instruction::Ebreak),
                (0b001_1000, 0b0_0010, 0, 0, 0) => Ok(Instruction::Mret),
                (0b000_1000, 0b0_0101, 0, 0, 0) => Ok(Instruction::Wfi),
                (_, _, _, 0b001, _) => Ok(Instruction::Csrrw(args_i)),
                (_, _, _, 0b010, _) => Ok(Instruction::Csrrs(args_i)),
                (_, _, _, 0b011, _) => Ok(Instruction::Csrrc(args_i)),
                (_, _, _, 0b101, _) => Ok(Instruction::Csrrwi(args_i)),
                (_, _, _, 0b110, _) => Ok(Instruction::Csrrsi(args_i)),
                (_, _, _, 0b111, _) => Ok(Instruction::Csrrci(args_i)),
                _ => Err(IllegalInstruction),
            },
            _ => Err(IllegalInstruction),
        }
    }
}

/// Whatever `word` decodes to has its operands within the ranges of its
/// shape: register indices below 32, immediates within the width of their
/// encoding, branch and jump offsets even, upper immediates with twelve low
/// zero bits.
pub proof fn lemma_decode_wf(word: u32)
    ensures
        spec_decode(word) matches Ok(instr) ==> instr.wf(),
{
    assert(i_args(word).wf());
    assert(r_args(word).wf());
    assert(s_args(word).wf_store());
    assert(b_args(word).wf_branch());
    assert(u_args(word).wf_upper());
    assert(j_args(word).wf_jump());
}

} // verus!
