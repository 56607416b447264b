//! Verified core of a small RISC-V supervisor kernel: the SBI console and
//! timer calls, the UART and PLIC register programs, the trap decoder, the
//! timer tick counter and the hex dump layout.  The privileged work itself
//! (`ecall`, CSR and MMIO accesses) is done by the caller with the requests
//! that these functions compute.
use vstd::prelude::*;

pub mod sbi;
pub mod io;
pub mod mmio;
pub mod uart;
pub mod plic;
pub mod trap;
pub mod timer;
pub mod consts;
pub mod init;
