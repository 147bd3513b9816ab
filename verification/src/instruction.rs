//! Decoded instructions and their four operand shapes.

use vstd::prelude::*;

verus! {

/// Operands of a register-register instruction.
#[derive(Debug, Clone, Copy, PartialEq, Eq)]
pub struct ArgsRType {
    pub rs1: usize,
    pub rs2: usize,
    pub rd: usize,
}

/// Operands of a register-immediate instruction. `shamt` is read by the
/// shifts and `csr` by the CSR instructions; both are cut from the same bits
/// as `imm`.
#[derive(Debug, Clone, Copy, PartialEq, Eq)]
pub struct ArgsIType {
    pub rs1: usize,
    pub rd: usize,
    pub imm: i32,
    pub shamt: u8,
    pub csr: u16,
}

/// Operands of a store or a branch.
#[derive(Debug, Clone, Copy, PartialEq, Eq)]
pub struct ArgsSBType {
    pub rs1: usize,
    pub rs2: usize,
    pub imm: i32,
}

/// Operands of an upper-immediate instruction or a jump.
#[derive(Debug, Clone, Copy, PartialEq, Eq)]
pub struct ArgsUJType {
    pub rd: usize,
    pub imm: i32,
}

#[derive(Debug, Clone, Copy, PartialEq, Eq)]
pub enum Instruction {
    Lui(ArgsUJType),
    Auipc(ArgsUJType),
    Jal(ArgsUJType),
    Jalr(ArgsIType),
    Beq(ArgsSBType),
    Bne(ArgsSBType),
    Blt(ArgsSBType),
    Bge(ArgsSBType),
    Bltu(ArgsSBType),
    Bgeu(ArgsSBType),
    Lb(ArgsIType),
    Lh(ArgsIType),
    Lw(ArgsIType),
    Lbu(ArgsIType),
    Lhu(ArgsIType),
    Sb(ArgsSBType),
    Sh(ArgsSBType),
    Sw(ArgsSBType),
    Addi(ArgsIType),
    Slti(ArgsIType),
    Sltiu(ArgsIType),
    Xori(ArgsIType),
    Ori(ArgsIType),
    Andi(ArgsIType),
    Slli(ArgsIType),
    Srli(ArgsIType),
    Srai(ArgsIType),
    Add(ArgsRType),
    Sub(ArgsRType),
    Sll(ArgsRType),
    Slt(ArgsRType),
    Sltu(ArgsRType),
    Xor(ArgsRType),
    Srl(ArgsRType),
    Sra(ArgsRType),
    Or(ArgsRType),
    And(ArgsRType),
    Fence,
    FenceTso,
    Pause,
    Ecall,
    Ebreak,
    Mret,
    Wfi,
    Csrrw(ArgsIType),
    Csrrs(ArgsIType),
    Csrrc(ArgsIType),
    Csrrwi(ArgsIType),
    Csrrsi(ArgsIType),
    Csrrci(ArgsIType),
}

/// The failure of `decode`: the word encodes no instruction.
#[derive(Debug, Clone, Copy, PartialEq, Eq)]
pub struct IllegalInstruction;

impl ArgsRType {
    /// All three register indices name one of the 32 registers.
    pub open spec fn wf(self) -> bool {
        self.rs1 < 32 && self.rs2 < 32 && self.rd < 32
    }
}

impl ArgsIType {
    /// The register indices are in range, the immediate fits 12 signed bits,
    /// the shift amount 5 bits and the CSR address 12 bits.
    pub open spec fn wf(self) -> bool {
        &&& self.rs1 < 32
        &&& self.rd < 32
        &&& -2048 <= self.imm < 2048
        &&& self.shamt < 32
        &&& self.csr < 4096
    }
}

impl ArgsSBType {
    /// A store: register indices in range, the offset fits 12 signed bits.
    pub open spec fn wf_store(self) -> bool {
        self.rs1 < 32 && self.rs2 < 32 && -2048 <= self.imm < 2048
    }

    /// A branch: register indices in range, the offset is even and fits 13
    /// signed bits.
    pub open spec fn wf_branch(self) -> bool {
        self.rs1 < 32 && self.rs2 < 32 && -4096 <= self.imm < 4096 && self.imm % 2 == 0
    }
}

impl ArgsUJType {
    /// An upper immediate: the low 12 bits of the value are zero.
    pub open spec fn wf_upper(self) -> bool {
        self.rd < 32 && self.imm % 4096 == 0
    }

    /// A jump: the offset is even and fits 21 signed bits.
    pub open spec fn wf_jump(self) -> bool {
        self.rd < 32 && -0x10_0000 <= self.imm < 0x10_0000 && self.imm % 2 == 0
    }
}

impl Instruction {
    /// The operands are within the ranges of the instruction's shape.
    pub open spec fn wf(self) -> bool {
        match self {
            Instruction::Lui(a) | Instruction::Auipc(a) => a.wf_upper(),
            Instruction::Jal(a) => a.wf_jump(),
            Instruction::Beq(a)
            | Instruction::Bne(a)
            | Instruction::Blt(a)
            | Instruction::Bge(a)
            | Instruction::Bltu(a)
            | Instruction::Bgeu(a) => a.wf_branch(),
            Instruction::Sb(a) | Instruction::Sh(a) | Instruction::Sw(a) => a.wf_store(),
            Instruction::Jalr(a)
            | Instruction::Lb(a)
            | Instruction::Lh(a)
            | Instruction::Lw(a)
            | Instruction::Lbu(a)
            | Instruction::Lhu(a)
            | Instruction::Addi(a)
            | Instruction::Slti(a)
            | Instruction::Sltiu(a)
            | Instruction::Xori(a)
            | Instruction::Ori(a)
            | Instruction::Andi(a)
            | Instruction::Slli(a)
            | Instruction::Srli(a)
            | Instruction::Srai(a)
            | Instruction::Csrrw(a)
            | Instruction::Csrrs(a)
            | Instruction::Csrrc(a)
            | Instruction::Csrrwi(a)
            | Instruction::Csrrsi(a)
            | Instruction::Csrrci(a) => a.wf(),
            Instruction::Add(a)
            | Instruction::Sub(a)
            | Instruction::Sll(a)
            | Instruction::Slt(a)
            | Instruction::Sltu(a)
            | Instruction::Xor(a)
            | Instruction::Srl(a)
            | Instruction::Sra(a)
            | Instruction::Or(a)
            | Instruction::And(a) => a.wf(),
            Instruction::Fence
            | Instruction::FenceTso
            | Instruction::Pause
            | Instruction::Ecall
            | Instruction::Ebreak
            | Instruction::Mret
            | Instruction::Wfi => true,
        }
    }
}

} // verus!
