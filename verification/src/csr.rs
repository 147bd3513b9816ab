//! The machine-mode control and status registers that the core knows, and
//! the causes of its exceptions.

use vstd::prelude::*;
use crate::state::{CoreState, Machine};

verus! {

/// A control and status register of the machine-mode subset.
#[derive(Debug, Clone, Copy, PartialEq, Eq)]
pub enum Csr {
    MIsa,
    MVendorId,
    MArchId,
    MImpId,
    MHartId,
    MStatus,
    MIe,
    MTvec,
    MScratch,
    MEpc,
    MCause,
    MTVal,
    MIp,
    MConfigPtr,
}

/// The cause of a synchronous exception.
#[derive(Debug, Clone, Copy, PartialEq, Eq)]
pub enum Cause {
    InstructionAddressMisaligned,
    InstructionAccessFault,
    IllegalInstruction,
    Breakpoint,
    LoadAddressMisaligned,
    LoadAccessFault,
    StoreAmoAddressMisaligned,
    StoreAmoAccessFault,
    EnvironmentCall,
    SoftwareCheck,
    HardwareError,
}

impl Cause {
    /// The number that stands for the cause in `mcause`.
    pub open spec fn code(self) -> u32 {
        match self {
            Cause::InstructionAddressMisaligned => 0,
            Cause::InstructionAccessFault => 1,
            Cause::IllegalInstruction => 2,
            Cause::Breakpoint => 3,
            Cause::LoadAddressMisaligned => 4,
            Cause::LoadAccessFault => 5,
            Cause::StoreAmoAddressMisaligned => 6,
            Cause::StoreAmoAccessFault => 7,
            Cause::EnvironmentCall => 11,
            Cause::SoftwareCheck => 18,
            Cause::HardwareError => 19,
        }
    }
}

/// The register that a 12-bit CSR address names, if the core has it.
pub open spec fn csr_at(address: int) -> Option<Csr> {
    if address == 0xF11 {
        Some(Csr::MVendorId)
    } else if address == 0xF12 {
        Some(Csr::MArchId)
    } else if address == 0xF13 {
        Some(Csr::MImpId)
    } else if address == 0xF14 {
        Some(Csr::MHartId)
    } else if address == 0xF15 {
        Some(Csr::MConfigPtr)
    } else if address == 0x300 {
        Some(Csr::MStatus)
    } else if address == 0x301 {
        Some(Csr::MIsa)
    } else if address == 0x304 {
        Some(Csr::MIe)
    } else if address == 0x305 {
        Some(Csr::MTvec)
    } else if address == 0x340 {
        Some(Csr::MScratch)
    } else if address == 0x341 {
        Some(Csr::MEpc)
    } else if address == 0x342 {
        Some(Csr::MCause)
    } else if address == 0x343 {
        Some(Csr::MTVal)
    } else if address == 0x344 {
        Some(Csr::MIp)
    } else {
        None
    }
}

impl Csr {
    /// Resolves a CSR address; `None` for an address that names no register
    /// of the core.
    pub fn get_csr(address: u16) -> (csr: Option<Self>)
        ensures
            csr == csr_at(address as int),
    {
        match address {
            0xF11 => Some(Self::MVendorId),
            0xF12 => Some(Self::MArchId),
            0xF13 => Some(Self::MImpId),
            0xF14 => Some(Self::MHartId),
            0xF15 => Some(Self::MConfigPtr),
            0x300 => Some(Self::MStatus),
            0x301 => Some(Self::MIsa),
            0x304 => Some(Self::MIe),
            0x305 => Some(Self::MTvec),
            0x340 => Some(Self::MScratch),
            0x341 => Some(Self::MEpc),
            0x342 => Some(Self::MCause),
            0x343 => Some(Self::MTVal),
            0x344 => Some(Self::MIp),
            _ => None,
        }
    }
}

/// What `misa` reads as: a 32-bit machine (bit 30) with the extension
/// letters I (bit 8) and M (bit 12).
pub const MISA: u32 = 0x4000_1100;

/// What `mstatus` reads as: bits 11 and 12 always set, `mie` at bit 3 and
/// `mpie` at bit 7.
pub open spec fn mstatus_value(mie: bool, mpie: bool) -> u32 {
    (0x1800 + (if mie { 0x8int } else { 0 }) + (if mpie { 0x80int } else { 0 })) as u32
}

impl Machine {
    /// What a read of `csr` gives.
    pub open spec fn csr_value(self, csr: Csr) -> u32 {
        match csr {
            Csr::MIsa => MISA,
            Csr::MVendorId => 0,
            Csr::MArchId => 0,
            Csr::MImpId => 0,
            Csr::MHartId => 0,
            Csr::MStatus => mstatus_value(self.mie, self.mpie),
            Csr::MIe => 0,
            Csr::MTvec => self.mtvec,
            Csr::MScratch => self.mscratch,
            Csr::MEpc => self.mepc,
            Csr::MCause => self.mcause.code(),
            Csr::MTVal => self.mtval,
            Csr::MIp => 0,
            Csr::MConfigPtr => 0,
        }
    }

    /// The state after a write of `value` to `csr`. `mstatus` takes `mie`
    /// from bit 3 and `mpie` from bit 7; `mtvec`, `mscratch`, `mepc` and
    /// `mtval` take the whole word; a write to any other register changes
    /// nothing.
    pub open spec fn with_csr(self, csr: Csr, value: u32) -> Machine {
        match csr {
            Csr::MStatus => Machine {
                mie: (value as int / 0x8) % 2 == 1,
                mpie: (value as int / 0x80) % 2 == 1,
                ..self
            },
            Csr::MTvec => Machine { mtvec: value, ..self },
            Csr::MScratch => Machine { mscratch: value, ..self },
            Csr::MEpc => Machine { mepc: value, ..self },
            Csr::MTVal => Machine { mtval: value, ..self },
            _ => self,
        }
    }
}

proof fn lemma_status_bits(value: u32)
    by (bit_vector)
    ensures
        ((value >> 3) & 1 != 0) == ((value / 0x8) % 2 == 1),
        ((value >> 7) & 1 != 0) == ((value / 0x80) % 2 == 1),
{
}

impl CoreState {
    /// Reads a CSR.
    pub fn get_csr_value(&self, csr: &Csr) -> (value: u32)
        ensures
            value == self@.csr_value(*csr),
    {
        match csr {
            Csr::MIsa => MISA,
            Csr::MVendorId => 0,
            Csr::MArchId => 0,
            Csr::MImpId => 0,
            Csr::MHartId => 0,
            Csr::MStatus => {
                let mie: u32 = if self.mie { 0x8 } else { 0 };
                let mpie: u32 = if self.mpie { 0x80 } else { 0 };
                0x1800 + mie + mpie
            },
            Csr::MIe => 0,
            Csr::MTvec => self.mtvec,
            Csr::MScratch => self.mscratch,
            Csr::MEpc => self.mepc,
            Csr::MCause => Self::get_cause_value(&self.mcause),
            Csr::MTVal => self.mtval,
            Csr::MIp => 0,
            Csr::MConfigPtr => 0,
        }
    }

    /// Writes a CSR. A write to a read-only register is accepted and
    /// changes nothing.
    pub fn set_csr_value(&mut self, csr: &Csr, value: u32)
        ensures
            final(self)@ == old(self)@.with_csr(*csr, value),
            final(self)@.wf(),
    {
        proof {
            use_type_invariant(&*self);
            lemma_status_bits(value);
        }
        match csr {
            Csr::MStatus => {
                self.mie = (value >> 3) & 1 != 0;
                self.mpie = (value >> 7) & 1 != 0;
            },
            Csr::MTvec => self.mtvec = value,
            Csr::MScratch => self.mscratch = value,
            Csr::MEpc => self.mepc = value,
            Csr::MTVal => self.mtval = value,
            _ => {},
        }
    }

    /// Reads the CSR at `address`; `None` where the address names no
    /// register of the core.
    pub fn read_csr(&self, address: u16) -> (value: Option<u32>)
        ensures
            value == (match csr_at(address as int) {
                Some(csr) => Some(self@.csr_value(csr)),
                None => None,
            }),
    {
        match Csr::get_csr(address) {
            Some(csr) => Some(self.get_csr_value(&csr)),
            None => None,
        }
    }

    /// Writes the CSR at `address` and says whether the address names a
    /// register of the core; where it names none, nothing changes.
    pub fn write_csr(&mut self, address: u16, value: u32) -> (known: bool)
        ensures
            known == csr_at(address as int) is Some,
            final(self)@ == (match csr_at(address as int) {
                Some(csr) => old(self)@.with_csr(csr, value),
                None => old(self)@,
            }),
            final(self)@.wf(),
    {
        proof {
            use_type_invariant(&*self);
        }
        match Csr::get_csr(address) {
            Some(csr) => {
                self.set_csr_value(&csr, value);
                true
            },
            None => false,
        }
    }

    /// The number that stands for `cause` in `mcause`.
    pub fn get_cause_value(cause: &Cause) -> (value: u32)
        ensures
            value == cause.code(),
    {
        match cause {
            Cause::InstructionAddressMisaligned => 0,
            Cause::InstructionAccessFault => 1,
            Cause::IllegalInstruction => 2,
            Cause::Breakpoint => 3,
            Cause::LoadAddressMisaligned => 4,
            Cause::LoadAccessFault => 5,
            Cause::StoreAmoAddressMisaligned => 6,
            Cause::StoreAmoAccessFault => 7,
            Cause::EnvironmentCall => 11,
            Cause::SoftwareCheck => 18,
            Cause::HardwareError => 19,
        }
    }
}

} // verus!
