//! The trap controller: what a synchronous exception does to the machine.

use vstd::prelude::*;
use crate::csr::Cause;
use crate::state::{CoreState, Machine};

verus! {

impl Machine {
    /// The state after an exception is taken at the current instruction:
    /// `mepc` holds that instruction's address, `mcause` the cause, `mtval`
    /// the value that goes with it, and execution continues at `mtvec`.
    /// Registers and memory stay.
    pub open spec fn trap(self, cause: Cause, tval: u32) -> Machine {
        Machine { mepc: self.pc, mcause: cause, mtval: tval, pc: self.mtvec, ..self }
    }
}

impl CoreState {
    /// Takes an exception at the current instruction.
    pub fn trap(&mut self, cause: Cause, tval: u32)
        ensures
            final(self)@ == old(self)@.trap(cause, tval),
            final(self)@.wf(),
    {
        proof {
            use_type_invariant(&*self);
        }
        self.mepc = self.pc;
        self.mcause = cause;
        self.mtval = tval;
        self.pc = self.mtvec;
    }
}

} // verus!
