//! The execution engine: what each instruction does to the machine, and one
//! fetch-decode-execute step.

use vstd::prelude::*;
use crate::bits::{
    shift_right_arithmetic, sign_extend, signed, sra, to_signed, to_unsigned, wrap32,
};
use crate::csr::{csr_at, Cause};
use crate::decode::spec_decode;
use crate::instruction::{ArgsIType, ArgsSBType, Instruction};
use crate::memory::{access_fault, read_le, MemoryFault, Width};
use crate::state::{CoreState, Machine};

verus! {

/// How a CSR instruction combines the register's old value with its source
/// operand.
#[derive(Debug, Clone, Copy, PartialEq, Eq)]
pub enum CsrOp {
    /// The source replaces the old value.
    Replace,
    /// The bits of the source are set in the old value.
    SetBits,
    /// The bits of the source are cleared in the old value.
    ClearBits,
}

/// The value that a CSR instruction writes.
pub open spec fn csr_new_value(op: CsrOp, old_value: u32, source: u32) -> u32 {
    match op {
        CsrOp::Replace => source,
        CsrOp::SetBits => old_value | source,
        CsrOp::ClearBits => old_value & !source,
    }
}

/// What a load puts into the register: the bytes read, zero-extended, or
/// sign-extended from the width of the access.
pub open spec fn loaded_value(raw: u32, width: Width, sign: bool) -> u32 {
    if !sign {
        raw
    } else {
        match width {
            Width::Byte => wrap32(sign_extend(raw as int, 0x80)),
            Width::Half => wrap32(sign_extend(raw as int, 0x8000)),
            Width::Word => raw,
        }
    }
}

/// The cause of the exception that a faulting load raises.
pub open spec fn load_cause(fault: MemoryFault) -> Cause {
    match fault {
        MemoryFault::Misaligned => Cause::LoadAddressMisaligned,
        MemoryFault::OutOfRange => Cause::LoadAccessFault,
    }
}

/// The cause of the exception that a faulting store raises.
pub open spec fn store_cause(fault: MemoryFault) -> Cause {
    match fault {
        MemoryFault::Misaligned => Cause::StoreAmoAddressMisaligned,
        MemoryFault::OutOfRange => Cause::StoreAmoAccessFault,
    }
}

/// The cause of the exception that a faulting instruction fetch raises.
pub open spec fn fetch_cause(fault: MemoryFault) -> Cause {
    match fault {
        MemoryFault::Misaligned => Cause::InstructionAddressMisaligned,
        MemoryFault::OutOfRange => Cause::InstructionAccessFault,
    }
}

impl Machine {
    /// The value of register `index`.
    pub open spec fn reg(self, index: usize) -> u32 {
        self.regs[index as int]
    }

    /// The state with `value` written to register `rd`; register 0 is then
    /// forced back to 0.
    pub open spec fn set_reg(self, rd: usize, value: u32) -> Machine {
        Machine { regs: self.regs.update(rd as int, value).update(0, 0u32), ..self }
    }

    /// The state with the program counter moved to the next instruction.
    pub open spec fn next(self) -> Machine {
        Machine { pc: wrap32(self.pc + 4), ..self }
    }

    /// The state with the program counter set to `target`.
    pub open spec fn jump(self, target: u32) -> Machine {
        Machine { pc: target, ..self }
    }

    /// The state after a conditional branch: `offset` is added to the
    /// program counter where the branch is taken, 4 where it is not.
    pub open spec fn branch(self, taken: bool, offset: i32) -> Machine {
        if taken {
            self.jump(wrap32(self.pc + offset))
        } else {
            self.next()
        }
    }

    /// The state after a load of `width` from `regs[rs1] + imm` into `rd`,
    /// or after the exception that the access raises.
    pub open spec fn load(self, args: ArgsIType, width: Width, sign: bool) -> Machine {
        let address = wrap32(self.reg(args.rs1) + args.imm);
        match access_fault(address, width) {
            Some(fault) => self.trap(load_cause(fault), address),
            None => self.set_reg(
                args.rd,
                loaded_value(read_le(self.memory, address as int, width), width, sign),
            ).next(),
        }
    }

    /// The state after a store of the low `width` bytes of `regs[rs2]` at
    /// `regs[rs1] + imm`, or after the exception that the access raises.
    pub open spec fn store(self, args: ArgsSBType, width: Width) -> Machine {
        let address = wrap32(self.reg(args.rs1) + args.imm);
        match access_fault(address, width) {
            Some(fault) => self.trap(store_cause(fault), address),
            None => self.with_memory(address, width, self.reg(args.rs2)).next(),
        }
    }

    /// The state after a CSR instruction: `rd` takes the register's old
    /// value and the register what `op` makes of it and `source`. An
    /// address that names no register raises an illegal-instruction
    /// exception, with the instruction word `word` as its value.
    pub open spec fn csr_access(self, args: ArgsIType, op: CsrOp, source: u32, word: u32)
        -> Machine {
        match csr_at(args.csr as int) {
            None => self.trap(Cause::IllegalInstruction, word),
            Some(csr) => {
                let old_value = self.csr_value(csr);
                self.with_csr(csr, csr_new_value(op, old_value, source)).set_reg(
                    args.rd,
                    old_value,
                ).next()
            },
        }
    }

    /// The state after an operation on two registers puts `value` into
    /// `rd`.
    pub open spec fn compute(self, rd: usize, value: u32) -> Machine {
        self.set_reg(rd, value).next()
    }

    /// The state after `instr`, which the word `word` encodes, is executed
    /// at the current program counter.
    pub open spec fn apply(self, instr: Instruction, word: u32) -> Machine {
        match instr {
            Instruction::Lui(a) => self.compute(a.rd, wrap32(a.imm as int)),
            Instruction::Auipc(a) => self.compute(a.rd, wrap32(self.pc + a.imm)),
            Instruction::Jal(a) => self.set_reg(a.rd, wrap32(self.pc + 4)).jump(
                wrap32(self.pc + a.imm),
            ),
            Instruction::Jalr(a) => {
                let target = wrap32(self.reg(a.rs1) + a.imm);
                self.set_reg(a.rd, wrap32(self.pc + 4)).jump((target - target % 2) as u32)
            },
            Instruction::Beq(a) => self.branch(self.reg(a.rs1) == self.reg(a.rs2), a.imm),
            Instruction::Bne(a) => self.branch(self.reg(a.rs1) != self.reg(a.rs2), a.imm),
            Instruction::Blt(a) => self.branch(
                signed(self.reg(a.rs1)) < signed(self.reg(a.rs2)),
                a.imm,
            ),
            Instruction::Bge(a) => self.branch(
                signed(self.reg(a.rs1)) >= signed(self.reg(a.rs2)),
                a.imm,
            ),
            Instruction::Bltu(a) => self.branch(self.reg(a.rs1) < self.reg(a.rs2), a.imm),
            Instruction::Bgeu(a) => self.branch(self.reg(a.rs1) >= self.reg(a.rs2), a.imm),
            Instruction::Lb(a) => self.load(a, Width::Byte, true),
            Instruction::Lh(a) => self.load(a, Width::Half, true),
            Instruction::Lw(a) => self.load(a, Width::Word, false),
            Instruction::Lbu(a) => self.load(a, Width::Byte, false),
            Instruction::Lhu(a) => self.load(a, Width::Half, false),
            Instruction::Sb(a) => self.store(a, Width::Byte),
            Instruction::Sh(a) => self.store(a, Width::Half),
            Instruction::Sw(a) => self.store(a, Width::Word),
            Instruction::Addi(a) => self.compute(a.rd, wrap32(self.reg(a.rs1) + a.imm)),
            Instruction::Slti(a) => self.compute(
                a.rd,
                if signed(self.reg(a.rs1)) < a.imm { 1 } else { 0 },
            ),
            Instruction::Sltiu(a) => self.compute(
                a.rd,
                if self.reg(a.rs1) < wrap32(a.imm as int) { 1 } else { 0 },
            ),
            Instruction::Xori(a) => self.compute(a.rd, self.reg(a.rs1) ^ wrap32(a.imm as int)),
            Instruction::Ori(a) => self.compute(a.rd, self.reg(a.rs1) | wrap32(a.imm as int)),
            Instruction::Andi(a) => self.compute(a.rd, self.reg(a.rs1) & wrap32(a.imm as int)),
            Instruction::Slli(a) => self.compute(a.rd, self.reg(a.rs1) << ((a.shamt % 32) as u32)),
            Instruction::Srli(a) => self.compute(a.rd, self.reg(a.rs1) >> ((a.shamt % 32) as u32)),
            Instruction::Srai(a) => self.compute(
                a.rd,
                shift_right_arithmetic(self.reg(a.rs1), (a.shamt % 32) as u32),
            ),
            Instruction::Add(a) => self.compute(a.rd, wrap32(self.reg(a.rs1) + self.reg(a.rs2))),
            Instruction::Sub(a) => self.compute(a.rd, wrap32(self.reg(a.rs1) - self.reg(a.rs2))),
            Instruction::Sll(a) => self.compute(a.rd, self.reg(a.rs1) << (self.reg(a.rs2) % 32)),
            Instruction::Slt(a) => self.compute(
                a.rd,
                if signed(self.reg(a.rs1)) < signed(self.reg(a.rs2)) { 1 } else { 0 },
            ),
            Instruction::Sltu(a) => self.compute(
                a.rd,
                if self.reg(a.rs1) < self.reg(a.rs2) { 1 } else { 0 },
            ),
            Instruction::Xor(a) => self.compute(a.rd, self.reg(a.rs1) ^ self.reg(a.rs2)),
            Instruction::Srl(a) => self.compute(a.rd, self.reg(a.rs1) >> (self.reg(a.rs2) % 32)),
            Instruction::Sra(a) => self.compute(
                a.rd,
                shift_right_arithmetic(self.reg(a.rs1), self.reg(a.rs2) % 32),
            ),
            Instruction::Or(a) => self.compute(a.rd, self.reg(a.rs1) | self.reg(a.rs2)),
            Instruction::And(a) => self.compute(a.rd, self.reg(a.rs1) & self.reg(a.rs2)),
            Instruction::Fence
            | Instruction::FenceTso
            | Instruction::Pause
            | Instruction::Wfi => self.next(),
            Instruction::Ecall => self.trap(Cause::EnvironmentCall, 0),
            Instruction::Ebreak => self.trap(Cause::Breakpoint, 0),
            Instruction::Mret => Machine { pc: self.mepc, mie: self.mpie, mpie: true, ..self },
            Instruction::Csrrw(a) => self.csr_access(a, CsrOp::Replace, self.reg(a.rs1), word),
            Instruction::Csrrs(a) => self.csr_access(a, CsrOp::SetBits, self.reg(a.rs1), word),
            Instruction::Csrrc(a) => self.csr_access(a, CsrOp::ClearBits, self.reg(a.rs1), word),
            Instruction::Csrrwi(a) => self.csr_access(a, CsrOp::Replace, a.rs1 as u32, word),
            Instruction::Csrrsi(a) => self.csr_access(a, CsrOp::SetBits, a.rs1 as u32, word),
            Instruction::Csrrci(a) => self.csr_access(a, CsrOp::ClearBits, a.rs1 as u32, word),
        }
    }

    /// The state after one fetch-decode-execute cycle. A fetch that faults
    /// and a word that encodes no instruction raise their exceptions; any
    /// other word is executed.
    #[verifier::opaque]
    pub open spec fn step(self) -> Machine {
        match access_fault(self.pc, Width::Word) {
            Some(fault) => self.trap(fetch_cause(fault), self.pc),
            None => {
                let word = read_le(self.memory, self.pc as int, Width::Word);
                match spec_decode(word) {
                    Err(_) => self.trap(Cause::IllegalInstruction, word),
                    Ok(instr) => self.apply(instr, word),
                }
            },
        }
    }
}

/// Masking bit 0 away subtracts it.
proof fn lemma_clear_low_bit(word: u32)
    by (bit_vector)
    ensures
        word & 0xFFFF_FFFE == word - word % 2,
{
}

/// `base + offset`, wrapped to 32 bits.
fn add_offset(base: u32, offset: i32) -> (sum: u32)
    ensures
        sum == wrap32(base + offset),
{
    base.wrapping_add_signed(offset)
}

/// `left + right`, wrapped to 32 bits.
fn add_words(left: u32, right: u32) -> (sum: u32)
    ensures
        sum == wrap32(left + right),
{
    left.wrapping_add(right)
}

/// `left - right`, wrapped to 32 bits.
fn sub_words(left: u32, right: u32) -> (difference: u32)
    ensures
        difference == wrap32(left - right),
{
    left.wrapping_sub(right)
}

/// What a load puts into the register, from the bytes read.
fn extend(raw: u32, width: Width, sign: bool) -> (value: u32)
    requires
        width == Width::Byte ==> raw < 0x100,
        width == Width::Half ==> raw < 0x1_0000,
    ensures
        value == loaded_value(raw, width, sign),
{
    if !sign {
        raw
    } else {
        match width {
            Width::Byte => if raw >= 0x80 {
                raw + 0xFFFF_FF00
            } else {
                raw
            },
            Width::Half => if raw >= 0x8000 {
                raw + 0xFFFF_0000
            } else {
                raw
            },
            Width::Word => raw,
        }
    }
}

impl CoreState {
    /// Writes `value` to register `rd`; register 0 keeps its 0.
    fn write_reg(&mut self, rd: usize, value: u32)
        requires
            rd < 32,
        ensures
            final(self)@ == old(self)@.set_reg(rd, value),
            final(self)@.wf(),
    {
        proof {
            use_type_invariant(&*self);
        }
        if rd != 0 {
            self.regs[rd] = value;
        }
        assert(self@.regs =~= old(self)@.set_reg(rd, value).regs);
    }

    /// Moves the program counter to the next instruction.
    fn advance(&mut self)
        ensures
            final(self)@ == old(self)@.next(),
            final(self)@.wf(),
    {
        proof {
            use_type_invariant(&*self);
        }
        self.pc = self.pc.wrapping_add(4);
    }

    /// Writes `value` to register `rd` and moves on to the next instruction.
    fn compute(&mut self, rd: usize, value: u32)
        requires
            rd < 32,
        ensures
            final(self)@ == old(self)@.compute(rd, value),
            final(self)@.wf(),
    {
        self.write_reg(rd, value);
        self.advance();
    }

    /// Writes the address of the next instruction to `rd` and continues at
    /// `target`.
    fn link_and_jump(&mut self, rd: usize, target: u32)
        requires
            rd < 32,
        ensures
            final(self)@ == old(self)@.set_reg(rd, wrap32(old(self)@.pc + 4)).jump(target),
            final(self)@.wf(),
    {
        let link = self.pc.wrapping_add(4);
        self.write_reg(rd, link);
        proof {
            use_type_invariant(&*self);
        }
        self.pc = target;
    }

    /// Continues `offset` away where the branch is taken, at the next
    /// instruction where it is not.
    fn branch(&mut self, taken: bool, offset: i32)
        ensures
            final(self)@ == old(self)@.branch(taken, offset),
            final(self)@.wf(),
    {
        proof {
            use_type_invariant(&*self);
        }
        if taken {
            self.pc = add_offset(self.pc, offset);
        } else {
            self.advance();
        }
    }

    /// Loads `width` bytes from `regs[rs1] + imm` into `rd`, or raises the
    /// exception of the access.
    fn load(&mut self, args: ArgsIType, width: Width, sign: bool)
        requires
            args.wf(),
        ensures
            final(self)@ == old(self)@.load(args, width, sign),
            final(self)@.wf(),
    {
        let address = add_offset(self.regs[args.rs1], args.imm);
        match self.read(address, width) {
            Ok(raw) => {
                let value = extend(raw, width, sign);
                self.compute(args.rd, value);
            },
            Err(MemoryFault::Misaligned) => self.trap(Cause::LoadAddressMisaligned, address),
            Err(MemoryFault::OutOfRange) => self.trap(Cause::LoadAccessFault, address),
        }
    }

    /// Stores the low `width` bytes of `regs[rs2]` at `regs[rs1] + imm`, or
    /// raises the exception of the access.
    fn store(&mut self, args: ArgsSBType, width: Width)
        requires
            args.wf_store(),
        ensures
            final(self)@ == old(self)@.store(args, width),
            final(self)@.wf(),
    {
        let address = add_offset(self.regs[args.rs1], args.imm);
        let value = self.regs[args.rs2];
        match self.write(address, width, value) {
            Ok(()) => self.advance(),
            Err(MemoryFault::Misaligned) => self.trap(Cause::StoreAmoAddressMisaligned, address),
            Err(MemoryFault::OutOfRange) => self.trap(Cause::StoreAmoAccessFault, address),
        }
    }

    /// Reads the CSR into `rd` and writes what `op` makes of its old value
    /// and `source`, or raises the exception of an unknown address.
    fn csr_access(&mut self, args: ArgsIType, op: CsrOp, source: u32, word: u32)
        requires
            args.wf(),
        ensures
            final(self)@ == old(self)@.csr_access(args, op, source, word),
            final(self)@.wf(),
    {
        match self.read_csr(args.csr) {
            Some(old_value) => {
                let new_value = match op {
                    CsrOp::Replace => source,
                    CsrOp::SetBits => old_value | source,
                    CsrOp::ClearBits => old_value & !source,
                };
                self.write_csr(args.csr, new_value);
                self.compute(args.rd, old_value);
            },
            None => self.trap(Cause::IllegalInstruction, word),
        }
    }
}

impl CoreState {
    /// Executes LUI, AUIPC or a jump.
    fn apply_jump(&mut self, instr: Instruction, word: u32)
        requires
            instr.wf(),
            instr is Lui || instr is Auipc || instr is Jal || instr is Jalr,
        ensures
            final(self)@ == old(self)@.apply(instr, word),
            final(self)@.wf(),
    {
        proof {
            use_type_invariant(&*self);
        }
        match instr {
            Instruction::Lui(args) => {
                self.compute(args.rd, to_unsigned(args.imm));
            },
            Instruction::Auipc(args) => {
                let value = add_offset(self.pc, args.imm);
                self.compute(args.rd, value);
            },
            Instruction::Jal(args) => {
                let target = add_offset(self.pc, args.imm);
                self.link_and_jump(args.rd, target);
            },
            Instruction::Jalr(args) => {
                let target = add_offset(self.regs[args.rs1], args.imm);
                proof {
                    lemma_clear_low_bit(target);
                }
                self.link_and_jump(args.rd, target & 0xFFFF_FFFE);
            },
            _ => {},
        }
    }

    /// Executes a conditional branch.
    fn apply_branch(&mut self, instr: Instruction, word: u32)
        requires
            instr.wf(),
            instr is Beq || instr is Bne || instr is Blt || instr is Bge || instr is Bltu || instr is Bgeu,
        ensures
            final(self)@ == old(self)@.apply(instr, word),
            final(self)@.wf(),
    {
        proof {
            use_type_invariant(&*self);
        }
        match instr {
            Instruction::Beq(args) => {
                let taken = self.regs[args.rs1] == self.regs[args.rs2];
                self.branch(taken, args.imm);
            },
            Instruction::Bne(args) => {
                let taken = self.regs[args.rs1] != self.regs[args.rs2];
                self.branch(taken, args.imm);
            },
            Instruction::Blt(args) => {
                let taken = to_signed(self.regs[args.rs1]) < to_signed(self.regs[args.rs2]);
                self.branch(taken, args.imm);
            },
            Instruction::Bge(args) => {
                let taken = to_signed(self.regs[args.rs1]) >= to_signed(self.regs[args.rs2]);
                self.branch(taken, args.imm);
            },
            Instruction::Bltu(args) => {
                let taken = self.regs[args.rs1] < self.regs[args.rs2];
                self.branch(taken, args.imm);
            },
            Instruction::Bgeu(args) => {
                let taken = self.regs[args.rs1] >= self.regs[args.rs2];
                self.branch(taken, args.imm);
            },
            _ => {},
        }
    }

    /// Executes a load or a store.
    fn apply_memory(&mut self, instr: Instruction, word: u32)
        requires
            instr.wf(),
            instr is Lb || instr is Lh || instr is Lw || instr is Lbu || instr is Lhu || instr is Sb || instr is Sh || instr is Sw,
        ensures
            final(self)@ == old(self)@.apply(instr, word),
            final(self)@.wf(),
    {
        proof {
            use_type_invariant(&*self);
        }
        match instr {
            Instruction::Lb(args) => self.load(args, Width::Byte, true),
            Instruction::Lh(args) => self.load(args, Width::Half, true),
            Instruction::Lw(args) => self.load(args, Width::Word, false),
            Instruction::Lbu(args) => self.load(args, Width::Byte, false),
            Instruction::Lhu(args) => self.load(args, Width::Half, false),
            Instruction::Sb(args) => self.store(args, Width::Byte),
            Instruction::Sh(args) => self.store(args, Width::Half),
            Instruction::Sw(args) => self.store(args, Width::Word),
            _ => {},
        }
    }

    /// Executes a register-immediate operation.
    fn apply_op_imm(&mut self, instr: Instruction, word: u32)
        requires
            instr.wf(),
            instr is Addi || instr is Slti || instr is Sltiu || instr is Xori || instr is Ori || instr is Andi || instr is Slli || instr is Srli || instr is Srai,
        ensures
            final(self)@ == old(self)@.apply(instr, word),
            final(self)@.wf(),
    {
        proof {
            use_type_invariant(&*self);
        }
        match instr {
            Instruction::Addi(args) => {
                let value = add_offset(self.regs[args.rs1], args.imm);
                self.compute(args.rd, value);
            },
            Instruction::Slti(args) => {
                let value: u32 = if to_signed(self.regs[args.rs1]) < args.imm { 1 } else { 0 };
                self.compute(args.rd, value);
            },
            Instruction::Sltiu(args) => {
                let value: u32 = if self.regs[args.rs1] < to_unsigned(args.imm) { 1 } else { 0 };
                self.compute(args.rd, value);
            },
            Instruction::Xori(args) => {
                let value = self.regs[args.rs1] ^ to_unsigned(args.imm);
                self.compute(args.rd, value);
            },
            Instruction::Ori(args) => {
                let value = self.regs[args.rs1] | to_unsigned(args.imm);
                self.compute(args.rd, value);
            },
            Instruction::Andi(args) => {
                let value = self.regs[args.rs1] & to_unsigned(args.imm);
                self.compute(args.rd, value);
            },
            Instruction::Slli(args) => {
                let value = self.regs[args.rs1] << ((args.shamt % 32) as u32);
                self.compute(args.rd, value);
            },
            Instruction::Srli(args) => {
                let value = self.regs[args.rs1] >> ((args.shamt % 32) as u32);
                self.compute(args.rd, value);
            },
            Instruction::Srai(args) => {
                let value = sra(self.regs[args.rs1], (args.shamt % 32) as u32);
                self.compute(args.rd, value);
            },
            _ => {},
        }
    }

    /// Executes a register-register operation.
    fn apply_op(&mut self, instr: Instruction, word: u32)
        requires
            instr.wf(),
            instr is Add || instr is Sub || instr is Sll || instr is Slt || instr is Sltu || instr is Xor || instr is Srl || instr is Sra || instr is Or || instr is And,
        ensures
            final(self)@ == old(self)@.apply(instr, word),
            final(self)@.wf(),
    {
        proof {
            use_type_invariant(&*self);
        }
        match instr {
            Instruction::Add(args) => {
                let value = add_words(self.regs[args.rs1], self.regs[args.rs2]);
                self.compute(args.rd, value);
            },
            Instruction::Sub(args) => {
                let value = sub_words(self.regs[args.rs1], self.regs[args.rs2]);
                self.compute(args.rd, value);
            },
            Instruction::Sll(args) => {
                let value = self.regs[args.rs1] << (self.regs[args.rs2] % 32);
                self.compute(args.rd, value);
            },
            Instruction::Slt(args) => {
                let value: u32 = if to_signed(self.regs[args.rs1]) < to_signed(
                    self.regs[args.rs2],
                ) {
                    1
                } else {
                    0
                };
                self.compute(args.rd, value);
            },
            Instruction::Sltu(args) => {
                let value: u32 = if self.regs[args.rs1] < self.regs[args.rs2] { 1 } else { 0 };
                self.compute(args.rd, value);
            },
            Instruction::Xor(args) => {
                let value = self.regs[args.rs1] ^ self.regs[args.rs2];
                self.compute(args.rd, value);
            },
            Instruction::Srl(args) => {
                let value = self.regs[args.rs1] >> (self.regs[args.rs2] % 32);
                self.compute(args.rd, value);
            },
            Instruction::Sra(args) => {
                let value = sra(self.regs[args.rs1], self.regs[args.rs2] % 32);
                self.compute(args.rd, value);
            },
            Instruction::Or(args) => {
                let value = self.regs[args.rs1] | self.regs[args.rs2];
                self.compute(args.rd, value);
            },
            Instruction::And(args) => {
                let value = self.regs[args.rs1] & self.regs[args.rs2];
                self.compute(args.rd, value);
            },
            _ => {},
        }
    }

    /// Executes a fence or a system instruction.
    fn apply_system(&mut self, instr: Instruction, word: u32)
        requires
            instr.wf(),
            instr is Fence || instr is FenceTso || instr is Pause || instr is Wfi || instr is Ecall || instr is Ebreak || instr is Mret || instr is Csrrw || instr is Csrrs || instr is Csrrc || instr is Csrrwi || instr is Csrrsi || instr is Csrrci,
        ensures
            final(self)@ == old(self)@.apply(instr, word),
            final(self)@.wf(),
    {
        proof {
            use_type_invariant(&*self);
        }
        match instr {
            Instruction::Fence | Instruction::FenceTso | Instruction::Pause | Instruction::Wfi => {
                self.advance();
            },
            Instruction::Ecall => self.trap(Cause::EnvironmentCall, 0),
            Instruction::Ebreak => self.trap(Cause::Breakpoint, 0),
            Instruction::Mret => {
                self.pc = self.mepc;
                self.mie = self.mpie;
                self.mpie = true;
            },
            Instruction::Csrrw(args) => {
                let source = self.regs[args.rs1];
                self.csr_access(args, CsrOp::Replace, source, word);
            },
            Instruction::Csrrs(args) => {
                let source = self.regs[args.rs1];
                self.csr_access(args, CsrOp::SetBits, source, word);
            },
            Instruction::Csrrc(args) => {
                let source = self.regs[args.rs1];
                self.csr_access(args, CsrOp::ClearBits, source, word);
            },
            Instruction::Csrrwi(args) => {
                self.csr_access(args, CsrOp::Replace, args.rs1 as u32, word);
            },
            Instruction::Csrrsi(args) => {
                self.csr_access(args, CsrOp::SetBits, args.rs1 as u32, word);
            },
            Instruction::Csrrci(args) => {
                self.csr_access(args, CsrOp::ClearBits, args.rs1 as u32, word);
            },
            _ => {},
        }
    }

    /// Executes `instr`, which `word` encodes, at the current program
    /// counter.
    pub(crate) fn apply(&mut self, instr: Instruction, word: u32)
        requires
            instr.wf(),
        ensures
            final(self)@ == old(self)@.apply(instr, word),
            final(self)@.wf(),
    {
        match instr {
            Instruction::Lui(_)
            | Instruction::Auipc(_)
            | Instruction::Jal(_)
            | Instruction::Jalr(_) => self.apply_jump(instr, word),
            Instruction::Beq(_)
            | Instruction::Bne(_)
            | Instruction::Blt(_)
            | Instruction::Bge(_)
            | Instruction::Bltu(_)
            | Instruction::Bgeu(_) => self.apply_branch(instr, word),
            Instruction::Lb(_)
            | Instruction::Lh(_)
            | Instruction::Lw(_)
            | Instruction::Lbu(_)
            | Instruction::Lhu(_)
            | Instruction::Sb(_)
            | Instruction::Sh(_)
            | Instruction::Sw(_) => self.apply_memory(instr, word),
            Instruction::Addi(_)
            | Instruction::Slti(_)
            | Instruction::Sltiu(_)
            | Instruction::Xori(_)
            | Instruction::Ori(_)
            | Instruction::Andi(_)
            | Instruction::Slli(_)
            | Instruction::Srli(_)
            | Instruction::Srai(_) => self.apply_op_imm(instr, word),
            Instruction::Add(_)
            | Instruction::Sub(_)
            | Instruction::Sll(_)
            | Instruction::Slt(_)
            | Instruction::Sltu(_)
            | Instruction::Xor(_)
            | Instruction::Srl(_)
            | Instruction::Sra(_)
            | Instruction::Or(_)
            | Instruction::And(_) => self.apply_op(instr, word),
            _ => self.apply_system(instr, word),
        }
    }

    /// Performs one fetch-decode-execute cycle. The word at the program
    /// counter is fetched, decoded and executed; a fetch from a misaligned
    /// or out-of-range address, a word that encodes no instruction and a
    /// fault of the instruction itself raise an exception instead, which
    /// leaves registers and memory as they were.
    pub fn execute(&mut self)
        ensures
            final(self)@ == old(self)@.step(),
            final(self)@.wf(),
    {
        reveal(Machine::step);
        match self.read(self.pc, Width::Word) {
            Err(MemoryFault::Misaligned) => {
                self.trap(Cause::InstructionAddressMisaligned, self.pc);
            },
            Err(MemoryFault::OutOfRange) => {
                self.trap(Cause::InstructionAccessFault, self.pc);
            },
            Ok(word) => match Self::decode(word) {
                Err(_) => self.trap(Cause::IllegalInstruction, word),
                Ok(instr) => self.apply(instr, word),
            },
        }
    }
}

} // verus!
