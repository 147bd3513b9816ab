//! The machine state: program counter, register file, memory and the
//! machine-mode registers, with its mathematical model.

use vstd::prelude::*;
use crate::csr::Cause;

verus! {

/// The number of bytes of memory, which starts at address 0.
pub const MEMORY_SIZE: usize = 4096;

/// The mathematical model of the machine state.
pub struct Machine {
    pub pc: u32,
    pub regs: Seq<u32>,
    pub memory: Seq<u8>,
    pub mie: bool,
    pub mpie: bool,
    pub mtvec: u32,
    pub mscratch: u32,
    pub mepc: u32,
    pub mcause: Cause,
    pub mtval: u32,
}

impl Machine {
    /// There are 32 registers, the first of which holds 0, and `MEMORY_SIZE`
    /// bytes of memory.
    pub open spec fn wf(self) -> bool {
        &&& self.regs.len() == 32
        &&& self.regs[0] == 0
        &&& self.memory.len() == MEMORY_SIZE
    }

    /// The state at startup: the given program counter, everything else zero.
    pub open spec fn initial(pc: u32) -> Machine {
        Machine {
            pc,
            regs: Seq::new(32, |i: int| 0u32),
            memory: Seq::new(MEMORY_SIZE as nat, |i: int| 0u8),
            mie: false,
            mpie: false,
            mtvec: 0,
            mscratch: 0,
            mepc: 0,
            mcause: Cause::InstructionAddressMisaligned,
            mtval: 0,
        }
    }

    /// The state after a reset: the program counter and the two interrupt
    /// flags are cleared, registers and memory stay.
    pub open spec fn after_reset(self) -> Machine {
        Machine { pc: 0, mie: false, mpie: false, ..self }
    }
}

/// The state of one hart. Register 0 always holds 0.
pub struct CoreState {
    pub(crate) pc: u32,
    pub(crate) regs: [u32; 32],
    pub(crate) memory: [u8; MEMORY_SIZE],
    pub(crate) mie: bool,
    pub(crate) mpie: bool,
    pub(crate) mtvec: u32,
    pub(crate) mscratch: u32,
    pub(crate) mepc: u32,
    pub(crate) mcause: Cause,
    pub(crate) mtval: u32,
}

impl View for CoreState {
    type V = Machine;

    open(crate) spec fn view(&self) -> Machine {
        Machine {
            pc: self.pc,
            regs: self.regs@,
            memory: self.memory@,
            mie: self.mie,
            mpie: self.mpie,
            mtvec: self.mtvec,
            mscratch: self.mscratch,
            mepc: self.mepc,
            mcause: self.mcause,
            mtval: self.mtval,
        }
    }
}

impl CoreState {
    /// Register 0 holds 0.
    #[verifier::type_invariant]
    pub(crate) open spec fn inv(&self) -> bool {
        self.regs[0] == 0
    }

    /// A machine that starts at `pc`, with zeroed registers, memory and CSRs.
    pub fn new(pc: u32) -> (state: CoreState)
        ensures
            state@ == Machine::initial(pc),
            state@.wf(),
    {
        let state = CoreState {
            pc,
            regs: [0u32; 32],
            memory: [0u8; MEMORY_SIZE],
            mie: false,
            mpie: false,
            mtvec: 0,
            mscratch: 0,
            mepc: 0,
            mcause: Cause::InstructionAddressMisaligned,
            mtval: 0,
        };
        assert(state@.regs =~= Machine::initial(pc).regs);
        assert(state@.memory =~= Machine::initial(pc).memory);
        state
    }

    /// Clears the program counter and the two interrupt flags. Registers,
    /// memory and the other CSRs keep their values.
    pub fn reset(&mut self)
        ensures
            final(self)@ == old(self)@.after_reset(),
            final(self)@.wf(),
    {
        proof {
            use_type_invariant(&*self);
        }
        self.pc = 0;
        self.mie = false;
        self.mpie = false;
    }

    /// The program counter.
    pub fn pc(&self) -> (pc: u32)
        ensures
            pc == self@.pc,
            self@.wf(),
    {
        proof {
            use_type_invariant(self);
        }
        self.pc
    }

    /// The value of register `index`.
    pub fn reg(&self, index: usize) -> (value: u32)
        requires
            index < 32,
        ensures
            value == self@.regs[index as int],
            self@.wf(),
    {
        proof {
            use_type_invariant(self);
        }
        self.regs[index]
    }
}

} // verus!
