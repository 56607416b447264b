//! Supervisor Binary Interface (legacy extension) requests.
//!
//! Each function computes the `ecall` that the kernel issues: the function
//! number goes in `a7` and the three arguments in `a0`..`a2`.
use vstd::prelude::*;

verus! {

pub const SBI_SET_TIMER: usize = 0;
pub const SBI_CONSOLE_PUTCHAR: usize = 1;
pub const SBI_CONSOLE_GETCHAR: usize = 2;
pub const SBI_CLEAR_IPI: usize = 3;
pub const SBI_SEND_IPI: usize = 4;
pub const SBI_REMOTE_FENCE_I: usize = 5;
pub const SBI_REMOTE_SFENCE_VMA: usize = 6;
pub const SBI_REMOTE_SFENCE_VMA_ASID: usize = 7;
pub const SBI_SHUTDOWN: usize = 8;
pub const SBI_SET_SINSN: usize = 100;

/// One SBI call: `which` is the function number (register `a7`),
/// `arg0`..`arg2` the arguments (registers `a0`..`a2`).
#[derive(Clone, Copy, Debug, PartialEq, Eq, Structural)]
pub struct SbiCall {
    pub which: usize,
    pub arg0: usize,
    pub arg1: usize,
    pub arg2: usize,
}

/// The call with function number `which` and the three arguments.
pub open spec fn call(which: usize, arg0: usize, arg1: usize, arg2: usize) -> SbiCall {
    SbiCall { which, arg0, arg1, arg2 }
}

fn sbi_call(which: usize, arg0: usize, arg1: usize, arg2: usize) -> (r: SbiCall)
    ensures
        r == call(which, arg0, arg1, arg2),
{
    SbiCall { which, arg0, arg1, arg2 }
}

/// Write the byte `ch` to the SBI console.
pub fn console_putchar(ch: usize) -> (r: SbiCall)
    ensures
        r == call(SBI_CONSOLE_PUTCHAR, ch, 0, 0),
{
    sbi_call(SBI_CONSOLE_PUTCHAR, ch, 0, 0)
}

/// Read one byte from the SBI console; the reply is negative when none is
/// waiting.
pub fn console_getchar() -> (r: SbiCall)
    ensures
        r == call(SBI_CONSOLE_GETCHAR, 0, 0, 0),
{
    sbi_call(SBI_CONSOLE_GETCHAR, 0, 0, 0)
}

/// Write the byte `ch` to the SBI console; the byte is passed as the
/// character of the same code, so `a0` holds `ch` itself.
pub fn console_putchar_u8(ch: u8) -> (r: SbiCall)
    ensures
        r == call(SBI_CONSOLE_PUTCHAR, ch as usize, 0, 0),
{
    let arg0: char = ch as char;
    sbi_call(1, arg0 as usize, 0, 0)
}

/// Program the next timer interrupt for the absolute time `stime_value`.
/// With 64-bit registers the whole value goes in `a0`; with 32-bit
/// registers the low half goes in `a0` and the high half in `a1`.
pub fn set_timer(stime_value: u64) -> (r: SbiCall)
    ensures
        usize::BITS == 64 ==> r == call(SBI_SET_TIMER, stime_value as usize, 0, 0)
            && r.arg0 == stime_value,
        usize::BITS == 32 ==> r == call(
            SBI_SET_TIMER,
            (stime_value % 0x1_0000_0000) as usize,
            (stime_value / 0x1_0000_0000) as usize,
            0,
        ),
{
    if usize::BITS == 64 {
        let lo = stime_value as usize;
        assert(lo == stime_value) by (bit_vector)
            requires
                usize::BITS == 64,
                lo == stime_value as usize,
        ;
        sbi_call(SBI_SET_TIMER, lo, 0, 0)
    } else {
        let lo = (stime_value & 0xffff_ffff) as usize;
        let hi = (stime_value >> 32u64) as usize;
        assert(stime_value & 0xffff_ffff == stime_value % 0x1_0000_0000) by (bit_vector);
        assert(stime_value >> 32u64 == stime_value / 0x1_0000_0000) by (bit_vector);
        sbi_call(SBI_SET_TIMER, lo, hi, 0)
    }
}

/// Clear the pending software interrupt of this hart.
pub fn clear_ipi() -> (r: SbiCall)
    ensures
        r == call(SBI_CLEAR_IPI, 0, 0, 0),
{
    sbi_call(SBI_CLEAR_IPI, 0, 0, 0)
}

/// Send an inter-processor interrupt to the harts whose mask is at
/// `sipi_value`.
pub fn send_ipi(sipi_value: usize) -> (r: SbiCall)
    ensures
        r == call(SBI_SEND_IPI, sipi_value, 0, 0),
{
    sbi_call(SBI_SEND_IPI, sipi_value, 0, 0)
}

/// Register `entry` as the supervisor handler for emulated instructions.
pub fn set_s_insn(entry: usize) -> (r: SbiCall)
    ensures
        r == call(SBI_SET_SINSN, entry, 0, 0),
{
    sbi_call(SBI_SET_SINSN, entry, 0, 0)
}

} // verus!
