//! Supervisor trap handling: the saved trap frame, the decoding of `scause`
//! and the choice of handler.
use vstd::prelude::*;
use riscv::register::scause::{Exception as RvException, Interrupt as RvInterrupt};
use crate::sbi::{call, clear_ipi, SbiCall, SBI_CLEAR_IPI};

verus! {

/// The registers saved by the trap entry code, in the order it stores them.
#[derive(Clone, Copy, Debug)]
pub struct TrapFrame {
    /// General registers x0..x31.
    pub x: [usize; 32],
    /// Raw bits of `sstatus`.
    pub sstatus: usize,
    /// Address of the instruction that trapped.
    pub sepc: usize,
    /// Trap value (faulting address or instruction).
    pub stval: usize,
    /// Raw bits of `scause`.
    pub scause: usize,
}

/// Interrupt causes of `scause`, as the `riscv` crate names them.
#[derive(Clone, Copy, Debug, PartialEq, Eq, Structural)]
pub enum InterruptKind {
    UserSoft,
    SupervisorSoft,
    UserTimer,
    SupervisorTimer,
    UserExternal,
    SupervisorExternal,
    Unknown,
}

/// Exception causes of `scause`, as the `riscv` crate names them.
#[derive(Clone, Copy, Debug, PartialEq, Eq, Structural)]
pub enum ExceptionKind {
    InstructionMisaligned,
    InstructionFault,
    IllegalInstruction,
    Breakpoint,
    LoadFault,
    StoreMisaligned,
    StoreFault,
    UserEnvCall,
    InstructionPageFault,
    LoadPageFault,
    StorePageFault,
    Unknown,
}

/// The cause of a trap.
#[derive(Clone, Copy, Debug, PartialEq, Eq, Structural)]
pub enum TrapCause {
    Interrupt(InterruptKind),
    Exception(ExceptionKind),
}

/// A trap that the kernel cannot recover from; it is reported and the
/// kernel stops.
#[derive(Clone, Copy, Debug, PartialEq, Eq, Structural)]
pub enum TrapFault {
    /// An illegal instruction at `sepc`.
    IllegalInstruction { sepc: usize, stval: usize },
    /// A load access fault at `sepc`.
    LoadFault { sepc: usize, stval: usize },
    /// A store access fault at `sepc`.
    StoreFault { sepc: usize, stval: usize },
    /// A load, store or instruction page fault on `stval`.
    PageFault { sepc: usize, stval: usize },
    /// Any cause without a handler: the interrupt flag and the cause code.
    Undefined { is_int: usize, code: usize },
}

/// What the kernel does for a trap it handles.
#[derive(Clone, Copy, Debug, PartialEq, Eq, Structural)]
pub enum TrapAction {
    /// An `ebreak` at `sepc` was reported and the return address moved past
    /// it.
    Breakpoint { sepc: usize },
    /// Timer interrupt: program the next event and count the tick.
    SupervisorTimer,
    /// Software interrupt: it is cleared with this SBI call.
    SupervisorSoft { clear: SbiCall },
    /// External interrupt: ask the PLIC.
    SupervisorExternal,
}

/// The position of the interrupt flag in `scause`: its top bit.
pub open spec fn top_bit() -> u32 {
    (usize::BITS - 1) as u32
}

/// The interrupt flag of `scause`: 1 for an interrupt, 0 for an exception.
pub open spec fn scause_is_int(scause: usize) -> usize {
    scause >> top_bit()
}

/// The cause code of `scause`: every bit but the interrupt flag.
pub open spec fn scause_code(scause: usize) -> usize {
    scause & !(1usize << top_bit())
}

/// The interrupt that a cause code names (`Interrupt::from` in `riscv`).
pub open spec fn interrupt_of(code: usize) -> InterruptKind {
    if code == 0 {
        InterruptKind::UserSoft
    } else if code == 1 {
        InterruptKind::SupervisorSoft
    } else if code == 4 {
        InterruptKind::UserTimer
    } else if code == 5 {
        InterruptKind::SupervisorTimer
    } else if code == 8 {
        InterruptKind::UserExternal
    } else if code == 9 {
        InterruptKind::SupervisorExternal
    } else {
        InterruptKind::Unknown
    }
}

/// The exception that a cause code names (`Exception::from` in `riscv`).
pub open spec fn exception_of(code: usize) -> ExceptionKind {
    if code == 0 {
        ExceptionKind::InstructionMisaligned
    } else if code == 1 {
        ExceptionKind::InstructionFault
    } else if code == 2 {
        ExceptionKind::IllegalInstruction
    } else if code == 3 {
        ExceptionKind::Breakpoint
    } else if code == 5 {
        ExceptionKind::LoadFault
    } else if code == 6 {
        ExceptionKind::StoreMisaligned
    } else if code == 7 {
        ExceptionKind::StoreFault
    } else if code == 8 {
        ExceptionKind::UserEnvCall
    } else if code == 12 {
        ExceptionKind::InstructionPageFault
    } else if code == 13 {
        ExceptionKind::LoadPageFault
    } else if code == 15 {
        ExceptionKind::StorePageFault
    } else {
        ExceptionKind::Unknown
    }
}

/// The cause that the raw `scause` bits stand for.
pub open spec fn cause_of(scause: usize) -> TrapCause {
    if scause_is_int(scause) == 1 {
        TrapCause::Interrupt(interrupt_of(scause_code(scause)))
    } else {
        TrapCause::Exception(exception_of(scause_code(scause)))
    }
}

/// Whether the kernel has a handler for a cause: a breakpoint, or a
/// supervisor timer, software or external interrupt.
pub open spec fn is_handled(cause: TrapCause) -> bool {
    cause == TrapCause::Exception(ExceptionKind::Breakpoint) || cause == TrapCause::Interrupt(
        InterruptKind::SupervisorTimer,
    ) || cause == TrapCause::Interrupt(InterruptKind::SupervisorSoft) || cause
        == TrapCause::Interrupt(InterruptKind::SupervisorExternal)
}

/// The fault that a trap frame reports, if its cause has no handler.
pub open spec fn fault_of(tf: TrapFrame) -> Option<TrapFault> {
    let sepc = tf.sepc;
    let stval = tf.stval;
    let cause = cause_of(tf.scause);
    if cause == TrapCause::Exception(ExceptionKind::IllegalInstruction) {
        Some(TrapFault::IllegalInstruction { sepc, stval })
    } else if cause == TrapCause::Exception(ExceptionKind::LoadFault) {
        Some(TrapFault::LoadFault { sepc, stval })
    } else if cause == TrapCause::Exception(ExceptionKind::StoreFault) {
        Some(TrapFault::StoreFault { sepc, stval })
    } else if cause == TrapCause::Exception(ExceptionKind::LoadPageFault) || cause
        == TrapCause::Exception(ExceptionKind::StorePageFault) || cause == TrapCause::Exception(
        ExceptionKind::InstructionPageFault,
    ) {
        Some(TrapFault::PageFault { sepc, stval })
    } else if is_handled(cause) {
        None
    } else {
        Some(TrapFault::Undefined { is_int: scause_is_int(tf.scause), code: scause_code(tf.scause) })
    }
}

/// What `rust_trap` does for a trap frame whose cause has a handler.
pub open spec fn action_of(tf: TrapFrame) -> TrapAction {
    let cause = cause_of(tf.scause);
    if cause == TrapCause::Exception(ExceptionKind::Breakpoint) {
        TrapAction::Breakpoint { sepc: tf.sepc }
    } else if cause == TrapCause::Interrupt(InterruptKind::SupervisorTimer) {
        TrapAction::SupervisorTimer
    } else if cause == TrapCause::Interrupt(InterruptKind::SupervisorSoft) {
        TrapAction::SupervisorSoft { clear: call(SBI_CLEAR_IPI, 0, 0, 0) }
    } else {
        TrapAction::SupervisorExternal
    }
}

/// `riscv::register::scause::Interrupt::from`: the interrupt that a cause
/// code names. Its source is a single `match` on the code, which
/// `interrupt_of` restates.
#[verifier::external_body]
fn interrupt_from(nr: usize) -> (r: InterruptKind)
    ensures
        r == interrupt_of(nr),
{
    match RvInterrupt::from(nr) {
        RvInterrupt::UserSoft => InterruptKind::UserSoft,
        RvInterrupt::SupervisorSoft => InterruptKind::SupervisorSoft,
        RvInterrupt::UserTimer => InterruptKind::UserTimer,
        RvInterrupt::SupervisorTimer => InterruptKind::SupervisorTimer,
        RvInterrupt::UserExternal => InterruptKind::UserExternal,
        RvInterrupt::SupervisorExternal => InterruptKind::SupervisorExternal,
        RvInterrupt::Unknown => InterruptKind::Unknown,
    }
}

/// `riscv::register::scause::Exception::from`: the exception that a cause
/// code names. Its source is a single `match` on the code, which
/// `exception_of` restates.
#[verifier::external_body]
fn exception_from(nr: usize) -> (r: ExceptionKind)
    ensures
        r == exception_of(nr),
{
    match RvException::from(nr) {
        RvException::InstructionMisaligned => ExceptionKind::InstructionMisaligned,
        RvException::InstructionFault => ExceptionKind::InstructionFault,
        RvException::IllegalInstruction => ExceptionKind::IllegalInstruction,
        RvException::Breakpoint => ExceptionKind::Breakpoint,
        RvException::LoadFault => ExceptionKind::LoadFault,
        RvException::StoreMisaligned => ExceptionKind::StoreMisaligned,
        RvException::StoreFault => ExceptionKind::StoreFault,
        RvException::UserEnvCall => ExceptionKind::UserEnvCall,
        RvException::InstructionPageFault => ExceptionKind::InstructionPageFault,
        RvException::LoadPageFault => ExceptionKind::LoadPageFault,
        RvException::StorePageFault => ExceptionKind::StorePageFault,
        RvException::Unknown => ExceptionKind::Unknown,
    }
}

/// Split the raw `scause` bits into the interrupt flag and the cause code.
pub fn split_scause(scause: usize) -> (r: (usize, usize))
    ensures
        r.0 == scause_is_int(scause),
        r.1 == scause_code(scause),
        r.0 <= 1,
{
    let top: u32 = usize::BITS - 1;
    let is_int = scause >> top;
    let code = scause & !(1usize << top);
    assert(is_int <= 1) by (bit_vector)
        requires
            top == usize::BITS - 1,
            is_int == scause >> top,
    ;
    (is_int, code)
}

/// The cause that the raw `scause` bits stand for: an interrupt when the
/// top bit is set, an exception otherwise, named by the remaining code.
pub fn trap_cause(scause: usize) -> (r: TrapCause)
    ensures
        r == cause_of(scause),
        scause_is_int(scause) == 0 ==> r == TrapCause::Exception(exception_of(scause_code(scause))),
        scause_is_int(scause) == 1 ==> r == TrapCause::Interrupt(interrupt_of(scause_code(scause))),
        scause < (1usize << top_bit()) ==> r == TrapCause::Exception(exception_of(scause)),
{
    proof {
        lemma_exception_scause(scause);
    }
    let (is_int, code) = split_scause(scause);
    if is_int == 1 {
        TrapCause::Interrupt(interrupt_from(code))
    } else {
        TrapCause::Exception(exception_from(code))
    }
}

/// Move the return address past the 2-byte `c.ebreak` that trapped, so
/// that `sret` does not trap on it again.
fn breakpoint(sepc: &mut usize)
    requires
        *old(sepc) + 2 <= usize::MAX,
    ensures
        *final(sepc) == *old(sepc) + 2,
{
    *sepc += 2
}

/// The fault that the trap reports when its cause has no handler:
/// an illegal instruction, an access fault or a page fault with `sepc` and
/// `stval`, or any other unhandled cause with its interrupt flag and code.
/// `None` when `rust_trap` handles the cause.
pub fn trap_fault(tf: &TrapFrame) -> (r: Option<TrapFault>)
    ensures
        r == fault_of(*tf),
        r is None <==> is_handled(cause_of(tf.scause)),
        tf.scause < (1usize << top_bit()) ==> (r == Some(
            TrapFault::IllegalInstruction { sepc: tf.sepc, stval: tf.stval },
        ) <==> tf.scause == 2),
        tf.scause < (1usize << top_bit()) ==> (r == Some(
            TrapFault::LoadFault { sepc: tf.sepc, stval: tf.stval },
        ) <==> tf.scause == 5),
        tf.scause < (1usize << top_bit()) ==> (r == Some(
            TrapFault::StoreFault { sepc: tf.sepc, stval: tf.stval },
        ) <==> tf.scause == 7),
        tf.scause < (1usize << top_bit()) ==> (r == Some(
            TrapFault::PageFault { sepc: tf.sepc, stval: tf.stval },
        ) <==> (tf.scause == 12 || tf.scause == 13 || tf.scause == 15)),
        tf.scause < (1usize << top_bit()) && tf.scause != 2 && tf.scause != 3 && tf.scause != 5
            && tf.scause != 7 && tf.scause != 12 && tf.scause != 13 && tf.scause != 15 ==> r == Some(
            TrapFault::Undefined { is_int: 0, code: tf.scause },
        ),
{
    proof {
        lemma_exception_scause(tf.scause);
    }
    let sepc = tf.sepc;
    let stval = tf.stval;
    let (is_int, code) = split_scause(tf.scause);
    match trap_cause(tf.scause) {
        TrapCause::Exception(ExceptionKind::IllegalInstruction) => Some(
            TrapFault::IllegalInstruction { sepc, stval },
        ),
        TrapCause::Exception(ExceptionKind::LoadFault) => Some(TrapFault::LoadFault { sepc, stval }),
        TrapCause::Exception(ExceptionKind::StoreFault) => Some(
            TrapFault::StoreFault { sepc, stval },
        ),
        TrapCause::Exception(ExceptionKind::LoadPageFault) => Some(
            TrapFault::PageFault { sepc, stval },
        ),
        TrapCause::Exception(ExceptionKind::StorePageFault) => Some(
            TrapFault::PageFault { sepc, stval },
        ),
        TrapCause::Exception(ExceptionKind::InstructionPageFault) => Some(
            TrapFault::PageFault { sepc, stval },
        ),
        TrapCause::Exception(ExceptionKind::Breakpoint) => None,
        TrapCause::Interrupt(InterruptKind::SupervisorTimer) => None,
        TrapCause::Interrupt(InterruptKind::SupervisorSoft) => None,
        TrapCause::Interrupt(InterruptKind::SupervisorExternal) => None,
        _ => Some(TrapFault::Undefined { is_int, code }),
    }
}

/// Handle a trap whose cause has a handler (`trap_fault` reports the
/// others): a breakpoint is reported and the saved return address advanced
/// by 2; a software interrupt is cleared with `clear_ipi`; timer and
/// external interrupts go to their handlers. The frame is left as it was
/// otherwise.
pub fn rust_trap(tf: &mut TrapFrame) -> (action: TrapAction)
    requires
        is_handled(cause_of(old(tf).scause)),
        cause_of(old(tf).scause) == TrapCause::Exception(ExceptionKind::Breakpoint) ==> old(tf).sepc
            + 2 <= usize::MAX,
    ensures
        action == action_of(*old(tf)),
        final(tf).x == old(tf).x,
        final(tf).sstatus == old(tf).sstatus,
        final(tf).stval == old(tf).stval,
        final(tf).scause == old(tf).scause,
        final(tf).sepc == if action is Breakpoint {
            (old(tf).sepc + 2) as usize
        } else {
            old(tf).sepc
        },
{
    let sepc = tf.sepc;
    match trap_cause(tf.scause) {
        TrapCause::Exception(ExceptionKind::Breakpoint) => {
            breakpoint(&mut tf.sepc);
            TrapAction::Breakpoint { sepc }
        },
        TrapCause::Interrupt(InterruptKind::SupervisorTimer) => TrapAction::SupervisorTimer,
        TrapCause::Interrupt(InterruptKind::SupervisorSoft) => TrapAction::SupervisorSoft {
            clear: clear_ipi(),
        },
        _ => TrapAction::SupervisorExternal,
    }
}

/// An `scause` below the top bit is an exception whose code is the whole
/// word.
pub proof fn lemma_exception_scause(scause: usize)
    ensures
        scause < (1usize << top_bit()) ==> scause_is_int(scause) == 0 && scause_code(scause)
            == scause,
{
    let top: u32 = top_bit();
    assert(scause < (1usize << top) ==> (scause >> top) == 0 && (scause & !(1usize << top))
        == scause) by (bit_vector)
        requires
            top == usize::BITS - 1,
    ;
}

/// The exception codes of the RISC-V privileged specification: an `scause`
/// with the top bit clear names, by its value, the instruction address
/// misaligned (0), instruction access fault (1), illegal instruction (2),
/// breakpoint (3), load access fault (5), store/AMO address misaligned (6),
/// store/AMO access fault (7), environment call from U-mode (8), and the
/// instruction (12), load (13) and store/AMO (15) page faults; 4, 9 to 11,
/// 14 and the codes above 15 are not named. With the top bit set it names
/// the user and supervisor software (0, 1), timer (4, 5) and external (8,
/// 9) interrupts.
pub proof fn lemma_cause_codes(code: usize)
    ensures
        code < (1usize << top_bit()) ==> cause_of(code) == TrapCause::Exception(
            if code == 0 {
                ExceptionKind::InstructionMisaligned
            } else if code == 1 {
                ExceptionKind::InstructionFault
            } else if code == 2 {
                ExceptionKind::IllegalInstruction
            } else if code == 3 {
                ExceptionKind::Breakpoint
            } else if code == 5 {
                ExceptionKind::LoadFault
            } else if code == 6 {
                ExceptionKind::StoreMisaligned
            } else if code == 7 {
                ExceptionKind::StoreFault
            } else if code == 8 {
                ExceptionKind::UserEnvCall
            } else if code == 12 {
                ExceptionKind::InstructionPageFault
            } else if code == 13 {
                ExceptionKind::LoadPageFault
            } else if code == 15 {
                ExceptionKind::StorePageFault
            } else {
                ExceptionKind::Unknown
            },
        ),
        code < (1usize << top_bit()) ==> cause_of(code | (1usize << top_bit())) == TrapCause::Interrupt(
            if code == 0 {
                InterruptKind::UserSoft
            } else if code == 1 {
                InterruptKind::SupervisorSoft
            } else if code == 4 {
                InterruptKind::UserTimer
            } else if code == 5 {
                InterruptKind::SupervisorTimer
            } else if code == 8 {
                InterruptKind::UserExternal
            } else if code == 9 {
                InterruptKind::SupervisorExternal
            } else {
                InterruptKind::Unknown
            },
        ),
{
    lemma_exception_scause(code);
    let top: u32 = top_bit();
    let s: usize = code | (1usize << top);
    assert(code < (1usize << top) ==> (s >> top) == 1 && (s & !(1usize << top)) == code)
        by (bit_vector)
        requires
            top == usize::BITS - 1,
            s == code | (1usize << top),
    ;
}

/// The interrupt flag and the cause code put together give back the raw
/// `scause` bits.
pub proof fn lemma_scause_split_recombines(scause: usize)
    ensures
        scause_is_int(scause) <= 1,
        scause == (scause_is_int(scause) << top_bit()) | scause_code(scause),
        scause_code(scause) < (1usize << top_bit()),
{
    let top: u32 = top_bit();
    assert(scause >> top <= 1 && scause == ((scause >> top) << top) | (scause & !(1usize << top))
        && (scause & !(1usize << top)) < (1usize << top)) by (bit_vector)
        requires
            top == usize::BITS - 1,
    ;
}

/// Every trap is either handled by `rust_trap` or reported as a fault by
/// `trap_fault`, never both; and among the handled ones only a breakpoint
/// changes the frame.
pub proof fn lemma_handled_or_fault(tf: TrapFrame)
    ensures
        is_handled(cause_of(tf.scause)) <==> fault_of(tf) is None,
        is_handled(cause_of(tf.scause)) ==> ((action_of(tf) is Breakpoint) <==> cause_of(tf.scause)
            == TrapCause::Exception(ExceptionKind::Breakpoint)),
{
}

} // verus!
