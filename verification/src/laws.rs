//! Properties of the decoder and of the execution engine, proved from their
//! definitions.

use vstd::prelude::*;
use vstd::arithmetic::div_mod::{lemma_fundamental_div_mod, lemma_fundamental_div_mod_converse};
use vstd::arithmetic::power2::{lemma2_to64, lemma_pow2_adds, lemma_pow2_pos, pow2};
use vstd::bits::{lemma_u32_shr_is_div, lemma_u64_shl_is_mul};
use crate::bits::{shift_right_arithmetic, signed, wrap32};
use crate::csr::Cause;
use crate::decode::spec_decode;
use crate::execute::{loaded_value, CsrOp};
use crate::instruction::{ArgsIType, ArgsSBType, ArgsUJType, IllegalInstruction, Instruction};
use crate::memory::{access_fault, read_le, write_le, Width};
use crate::state::Machine;

verus! {

/// The word that the machine fetches next, where the fetch does not fault.
pub open spec fn fetched(machine: Machine) -> u32 {
    read_le(machine.memory, machine.pc as int, Width::Word)
}

/// Whether the machine can fetch a word at its program counter.
pub open spec fn can_fetch(machine: Machine) -> bool {
    access_fault(machine.pc, Width::Word) is None
}

/// Executing any instruction keeps the machine well formed; in particular
/// register 0 holds 0 afterwards.
pub proof fn law_apply_keeps_register_zero(machine: Machine, instr: Instruction, word: u32)
    requires
        machine.wf(),
        instr.wf(),
    ensures
        machine.apply(instr, word).wf(),
        machine.apply(instr, word).regs[0] == 0,
{
    match instr {
        Instruction::Lb(a) => lemma_load_wf(machine, a, Width::Byte, true),
        Instruction::Lh(a) => lemma_load_wf(machine, a, Width::Half, true),
        Instruction::Lw(a) => lemma_load_wf(machine, a, Width::Word, false),
        Instruction::Lbu(a) => lemma_load_wf(machine, a, Width::Byte, false),
        Instruction::Lhu(a) => lemma_load_wf(machine, a, Width::Half, false),
        Instruction::Sb(a) => lemma_store_wf(machine, a, Width::Byte),
        Instruction::Sh(a) => lemma_store_wf(machine, a, Width::Half),
        Instruction::Sw(a) => lemma_store_wf(machine, a, Width::Word),
        Instruction::Csrrw(a) => lemma_csr_wf(machine, a, CsrOp::Replace, machine.reg(a.rs1), word),
        Instruction::Csrrs(a) => lemma_csr_wf(machine, a, CsrOp::SetBits, machine.reg(a.rs1), word),
        Instruction::Csrrc(a) => lemma_csr_wf(
            machine,
            a,
            CsrOp::ClearBits,
            machine.reg(a.rs1),
            word,
        ),
        Instruction::Csrrwi(a) => lemma_csr_wf(machine, a, CsrOp::Replace, a.rs1 as u32, word),
        Instruction::Csrrsi(a) => lemma_csr_wf(machine, a, CsrOp::SetBits, a.rs1 as u32, word),
        Instruction::Csrrci(a) => lemma_csr_wf(machine, a, CsrOp::ClearBits, a.rs1 as u32, word),
        _ => {},
    }
}

/// A load keeps the machine well formed.
proof fn lemma_load_wf(machine: Machine, args: ArgsIType, width: Width, sign: bool)
    requires
        machine.wf(),
        args.wf(),
    ensures
        machine.load(args, width, sign).wf(),
{
}

/// A store keeps the machine well formed.
proof fn lemma_store_wf(machine: Machine, args: ArgsSBType, width: Width)
    requires
        machine.wf(),
        args.wf_store(),
    ensures
        machine.store(args, width).wf(),
{
}

/// A CSR instruction keeps the machine well formed.
proof fn lemma_csr_wf(machine: Machine, args: ArgsIType, op: CsrOp, source: u32, word: u32)
    requires
        machine.wf(),
        args.wf(),
    ensures
        machine.csr_access(args, op, source, word).wf(),
{
}

/// After any step the machine is well formed; in particular register 0
/// holds 0.
pub proof fn law_step_keeps_register_zero(machine: Machine)
    requires
        machine.wf(),
    ensures
        machine.step().wf(),
        machine.step().regs[0] == 0,
{
    reveal(Machine::step);
    if can_fetch(machine) {
        let word = fetched(machine);
        crate::decode::lemma_decode_wf(word);
        if let Ok(instr) = spec_decode(word) {
            law_apply_keeps_register_zero(machine, instr, word);
        }
    }
}

/// A jump-and-link puts the address of the next instruction into `rd` and
/// adds its offset to the program counter; `rd` 0 stays 0.
pub proof fn law_jal_links(machine: Machine, args: ArgsUJType)
    requires
        machine.wf(),
        args.wf_jump(),
        can_fetch(machine),
        spec_decode(fetched(machine)) == Ok::<Instruction, IllegalInstruction>(
            Instruction::Jal(args),
        ),
    ensures
        machine.step().pc == wrap32(machine.pc + args.imm),
        args.rd != 0 ==> machine.step().reg(args.rd) == wrap32(machine.pc + 4),
        machine.step().memory == machine.memory,
{
    reveal(Machine::step);
}

/// `JAL x1, +8` at any address `P` leaves `P + 4` in register 1 and
/// continues at `P + 8`.
pub proof fn law_jal_x1_8(machine: Machine)
    requires
        machine.wf(),
        can_fetch(machine),
        fetched(machine) == 0x0080_00EF,
    ensures
        machine.step().regs[1] == wrap32(machine.pc + 4),
        machine.step().pc == wrap32(machine.pc + 8),
{
    reveal(Machine::step);
    assert(spec_decode(0x0080_00EF) == Ok::<Instruction, IllegalInstruction>(
        Instruction::Jal(ArgsUJType { rd: 1, imm: 8 }),
    ));
}

/// What was stored is read back: a read of `width` bytes at the address of
/// a store of that width gives the bytes of the value that the store kept.
pub proof fn law_write_then_read(memory: Seq<u8>, address: int, width: Width, value: u32)
    requires
        0 <= address,
        address + width.bytes() <= memory.len(),
    ensures
        write_le(memory, address, width, value).len() == memory.len(),
        read_le(write_le(memory, address, width, value), address, width) == (match width {
            Width::Byte => value % 0x100,
            Width::Half => value % 0x1_0000,
            Width::Word => value,
        }),
{
}

/// A word stored by `SW` at an address is what `LW` from that address
/// loads.
pub proof fn law_store_then_load(
    machine: Machine,
    store: ArgsSBType,
    load: ArgsIType,
    store_word: u32,
    load_word: u32,
)
    requires
        machine.wf(),
        store.wf_store(),
        load.wf(),
        load.rd != 0,
        access_fault(wrap32(machine.reg(store.rs1) + store.imm), Width::Word) is None,
        wrap32(machine.reg(load.rs1) + load.imm) == wrap32(machine.reg(store.rs1) + store.imm),
    ensures
        machine.apply(Instruction::Sw(store), store_word).apply(
            Instruction::Lw(load),
            load_word,
        ).reg(load.rd) == machine.reg(store.rs2),
{
    let address = wrap32(machine.reg(store.rs1) + store.imm);
    let stored = machine.apply(Instruction::Sw(store), store_word);
    law_write_then_read(machine.memory, address as int, Width::Word, machine.reg(store.rs2));
    assert(stored.regs == machine.regs);
    assert(stored.memory == write_le(
        machine.memory,
        address as int,
        Width::Word,
        machine.reg(store.rs2),
    ));
}

/// The byte `0xFF` loads as `0xFFFFFFFF` where the load extends the sign
/// and as `0x000000FF` where it does not.
pub proof fn law_byte_extension()
    ensures
        loaded_value(0xFF, Width::Byte, true) == 0xFFFF_FFFFu32,
        loaded_value(0xFF, Width::Byte, false) == 0x0000_00FFu32,
{
}

/// Whether the conditional branch `instr` is taken on the operands `left`
/// and `right`.
pub open spec fn branch_taken(instr: Instruction, left: u32, right: u32) -> bool {
    match instr {
        Instruction::Beq(_) => left == right,
        Instruction::Bne(_) => left != right,
        Instruction::Blt(_) => signed(left) < signed(right),
        Instruction::Bge(_) => signed(left) >= signed(right),
        Instruction::Bltu(_) => left < right,
        Instruction::Bgeu(_) => left >= right,
        _ => false,
    }
}

/// The operands of a conditional branch.
pub open spec fn branch_args(instr: Instruction) -> Option<ArgsSBType> {
    match instr {
        Instruction::Beq(a)
        | Instruction::Bne(a)
        | Instruction::Blt(a)
        | Instruction::Bge(a)
        | Instruction::Bltu(a)
        | Instruction::Bgeu(a) => Some(a),
        _ => None,
    }
}

/// A branch that is not taken advances the program counter by exactly 4;
/// one that is taken adds the decoded offset instead. Either way nothing
/// else changes.
pub proof fn law_branch(machine: Machine, instr: Instruction, word: u32)
    requires
        machine.wf(),
        branch_args(instr) is Some,
    ensures
        ({
            let args = branch_args(instr).unwrap();
            let taken = branch_taken(instr, machine.reg(args.rs1), machine.reg(args.rs2));
            machine.apply(instr, word) == Machine {
                pc: if taken {
                    wrap32(machine.pc + args.imm)
                } else {
                    wrap32(machine.pc + 4)
                },
                ..machine
            }
        }),
{
}

/// `ECALL` at address `X` with `mtvec` holding `V` leaves `X` in `mepc` and
/// 11 in `mcause`, and continues at `V`.
pub proof fn law_ecall(machine: Machine)
    requires
        machine.wf(),
        can_fetch(machine),
        fetched(machine) == 0x0000_0073,
    ensures
        machine.step().mepc == machine.pc,
        machine.step().mcause.code() == 11,
        machine.step().pc == machine.mtvec,
        machine.step().mtval == 0,
        machine.step().regs == machine.regs,
        machine.step().memory == machine.memory,
{
    reveal(Machine::step);
    assert(spec_decode(0x0000_0073) == Ok::<Instruction, IllegalInstruction>(Instruction::Ecall));
}

/// A step on a word that encodes no instruction raises the
/// illegal-instruction exception with the word as its value: registers and
/// memory are untouched, and of the CSRs only `mepc`, `mcause` and `mtval`
/// change.
pub proof fn law_illegal_word(machine: Machine)
    requires
        machine.wf(),
        can_fetch(machine),
        spec_decode(fetched(machine)) is Err,
    ensures
        machine.step() == machine.trap(Cause::IllegalInstruction, fetched(machine)),
        machine.step() == (Machine {
            pc: machine.mtvec,
            mepc: machine.pc,
            mcause: Cause::IllegalInstruction,
            mtval: fetched(machine),
            ..machine
        }),
{
    reveal(Machine::step);
}

/// A step whose fetch faults raises the matching exception with the
/// program counter as its value, and changes neither registers nor memory.
pub proof fn law_fetch_fault(machine: Machine)
    requires
        machine.wf(),
        !can_fetch(machine),
    ensures
        machine.step() == machine.trap(
            if machine.pc % 4 != 0 {
                Cause::InstructionAddressMisaligned
            } else {
                Cause::InstructionAccessFault
            },
            machine.pc,
        ),
        machine.step().regs == machine.regs,
        machine.step().memory == machine.memory,
{
    reveal(Machine::step);
}

/// A shift to the right divides by the power of two and rounds down.
pub proof fn law_shift_right_divides(word: u32, amount: u32)
    requires
        amount < 32,
    ensures
        (word >> amount) as int == word as int / pow2(amount as nat) as int,
{
    lemma_u32_shr_is_div(word, amount);
}

/// A shift of a 32-bit word is the low half of the shift of the word
/// widened to 64 bits.
proof fn lemma_shift_left_widened(word: u32, amount: u32)
    by (bit_vector)
    requires
        amount < 32,
    ensures
        (word << amount) as int == ((word as u64) << (amount as u64)) % 0x1_0000_0000,
{
}

/// A shift to the left multiplies by the power of two, modulo 2^32.
pub proof fn law_shift_left_multiplies(word: u32, amount: u32)
    requires
        amount < 32,
    ensures
        word << amount == wrap32(word as int * pow2(amount as nat) as int),
{
    lemma_shift_left_widened(word, amount);
    lemma2_to64();
    lemma_pow2_adds(amount as nat, (32 - amount) as nat);
    lemma_pow2_pos((32 - amount) as nat);
    assert(word as int * pow2(amount as nat) as int <= u64::MAX as int) by (nonlinear_arith)
        requires
            word < 0x1_0000_0000,
            pow2(amount as nat) <= 0x1_0000_0000,
            pow2(amount as nat) > 0,
    ;
    lemma_u64_shl_is_mul(word as u64, amount as u64);
}

/// The sign bits that fill the vacated places add to the shifted word.
proof fn lemma_sign_fill(word: u32, amount: u32)
    by (bit_vector)
    requires
        amount < 32,
    ensures
        ((word >> amount) | !(0xFFFF_FFFFu32 >> amount)) as int == (word >> amount) + (0xFFFF_FFFF
            - (0xFFFF_FFFFu32 >> amount)),
{
}

/// An arithmetic shift to the right divides the signed value by the power
/// of two and rounds down.
pub proof fn law_shift_right_arithmetic_divides(word: u32, amount: u32)
    requires
        amount < 32,
    ensures
        signed(shift_right_arithmetic(word, amount)) == signed(word) / pow2(amount as nat) as int,
{
    let p = pow2(amount as nat) as int;
    let h = pow2((32 - amount) as nat) as int;
    lemma2_to64();
    lemma_pow2_pos(amount as nat);
    lemma_pow2_pos((32 - amount) as nat);
    lemma_pow2_adds(amount as nat, (32 - amount) as nat);
    assert(p * h == 0x1_0000_0000);
    lemma_u32_shr_is_div(word, amount);
    lemma_u32_shr_is_div(0xFFFF_FFFFu32, amount);
    let q = word as int / p;
    let r = word as int % p;
    lemma_fundamental_div_mod(word as int, p);
    assert(word as int == p * q + r);
    if word < 0x8000_0000 {
        assert(q <= word) by (nonlinear_arith)
            requires
                word as int == p * q + r,
                0 <= r,
                p >= 1,
                q >= 0,
        ;
    } else {
        lemma_sign_fill(word, amount);
        // 0xFFFF_FFFF / p == h - 1
        assert(0xFFFF_FFFF == (h - 1) * p + (p - 1)) by (nonlinear_arith)
            requires
                p * h == 0x1_0000_0000,
        ;
        lemma_fundamental_div_mod_converse(0xFFFF_FFFF, p, h - 1, p - 1);
        let filled = shift_right_arithmetic(word, amount);
        assert(filled as int == q + 0x1_0000_0000 - h);
        // floor((word - 2^32) / p) == q - h
        assert(word as int - 0x1_0000_0000 == p * (q - h) + r) by (nonlinear_arith)
            requires
                word as int == p * q + r,
                p * h == 0x1_0000_0000,
        ;
        lemma_fundamental_div_mod_converse(word as int - 0x1_0000_0000, p, q - h, r);
        assert(q - h < 0) by (nonlinear_arith)
            requires
                word as int - 0x1_0000_0000 == p * (q - h) + r,
                word as int - 0x1_0000_0000 < 0,
                0 <= r,
                p >= 1,
        ;
        let g = pow2((31 - amount) as nat) as int;
        lemma_pow2_adds(amount as nat, (31 - amount) as nat);
        lemma_pow2_adds(1, (31 - amount) as nat);
        assert(h == 2 * g);
        assert(q >= g) by (nonlinear_arith)
            requires
                word as int == p * q + r,
                word as int >= 0x8000_0000,
                p * g == 0x8000_0000,
                0 <= r < p,
        ;
        assert(g <= 0x8000_0000) by (nonlinear_arith)
            requires
                p * g == 0x8000_0000,
                p >= 1,
                g >= 0,
        ;
    }
}

} // verus!
