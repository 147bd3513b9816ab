//! Running the machine until it reaches one of two target addresses.

use vstd::prelude::*;
use crate::state::{CoreState, Machine};

verus! {

/// How a run ended.
#[derive(Debug, Clone, Copy, PartialEq, Eq)]
pub enum Verdict {
    /// The program counter reached the pass address.
    Pass,
    /// The program counter reached the fail address.
    Fail,
    /// Neither address was reached within the allowed number of steps.
    Timeout,
}

/// The outcome of a run: how it ended and how many steps it took.
#[derive(Debug, Clone, Copy, PartialEq, Eq)]
pub struct Run {
    pub verdict: Verdict,
    pub steps: u64,
}

/// The state after `count` steps.
pub open spec fn steps(machine: Machine, count: nat) -> Machine
    decreases count,
{
    if count == 0 {
        machine
    } else {
        steps(machine, (count - 1) as nat).step()
    }
}

/// Whether the machine stands at one of the two target addresses after
/// `count` steps.
pub open spec fn at_target(machine: Machine, pass_pc: u32, fail_pc: u32, count: nat) -> bool {
    steps(machine, count).pc == pass_pc || steps(machine, count).pc == fail_pc
}

impl CoreState {
    /// Steps the machine until its program counter, looked at after each
    /// step, equals `pass_pc` or `fail_pc`, for at most `limit` steps. The
    /// pass address is tested first.
    pub fn run(&mut self, pass_pc: u32, fail_pc: u32, limit: u64) -> (run: Run)
        ensures
            run.steps <= limit,
            final(self)@ == steps(old(self)@, run.steps as nat),
            final(self)@.wf(),
            forall|k: nat| 0 < k < run.steps ==> !at_target(old(self)@, pass_pc, fail_pc, k),
            run.verdict == Verdict::Pass <==> run.steps > 0 && final(self)@.pc == pass_pc,
            run.verdict == Verdict::Fail <==> run.steps > 0 && final(self)@.pc == fail_pc
                && fail_pc != pass_pc,
            run.verdict == Verdict::Timeout ==> run.steps == limit,
    {
        proof {
            use_type_invariant(&*self);
        }
        let mut count: u64 = 0;
        while count < limit
            invariant
                count <= limit,
                self@ == steps(old(self)@, count as nat),
                self@.wf(),
                forall|k: nat| 0 < k <= count ==> !at_target(old(self)@, pass_pc, fail_pc, k),
            decreases limit - count,
        {
            self.execute();
            count += 1;
            if self.pc == pass_pc {
                return Run { verdict: Verdict::Pass, steps: count };
            }
            if self.pc == fail_pc {
                return Run { verdict: Verdict::Fail, steps: count };
            }
        }
        assert(count > 0 ==> !at_target(old(self)@, pass_pc, fail_pc, count as nat));
        Run { verdict: Verdict::Timeout, steps: count }
    }
}

} // verus!
