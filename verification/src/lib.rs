//! A simulator core for a 32-bit RISC-V integer processor with the minimal
//! machine-mode CSR and trap subset: a decoder, an execution engine over an
//! in-memory machine state, and a loader and run loop for test images.

pub mod bits;
pub mod csr;
pub mod decode;
pub mod execute;
pub mod harness;
pub mod image;
pub mod instruction;
pub mod laws;
pub mod memory;
pub mod names;
pub mod state;
pub mod trap;
