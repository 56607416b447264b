use rvkernel::sbi::SbiCall;
use rvkernel::trap::{
    rust_trap, split_scause, trap_cause, trap_fault, ExceptionKind, InterruptKind, TrapAction,
    TrapCause, TrapFault, TrapFrame,
};

const INT: usize = 1 << 63;

fn frame(scause: usize, sepc: usize, stval: usize) -> TrapFrame {
    TrapFrame { x: [7; 32], sstatus: 0x22, sepc, stval, scause }
}

#[test]
fn trap_cause_decoding() {
    assert_eq!(trap_cause(3), TrapCause::Exception(ExceptionKind::Breakpoint));
    assert_eq!(trap_cause(2), TrapCause::Exception(ExceptionKind::IllegalInstruction));
    assert_eq!(trap_cause(5), TrapCause::Exception(ExceptionKind::LoadFault));
    assert_eq!(trap_cause(7), TrapCause::Exception(ExceptionKind::StoreFault));
    assert_eq!(trap_cause(12), TrapCause::Exception(ExceptionKind::InstructionPageFault));
    assert_eq!(trap_cause(13), TrapCause::Exception(ExceptionKind::LoadPageFault));
    assert_eq!(trap_cause(15), TrapCause::Exception(ExceptionKind::StorePageFault));
    assert_eq!(trap_cause(4), TrapCause::Exception(ExceptionKind::Unknown));
    assert_eq!(trap_cause(INT | 1), TrapCause::Interrupt(InterruptKind::SupervisorSoft));
    assert_eq!(trap_cause(INT | 5), TrapCause::Interrupt(InterruptKind::SupervisorTimer));
    assert_eq!(trap_cause(INT | 9), TrapCause::Interrupt(InterruptKind::SupervisorExternal));
    assert_eq!(trap_cause(INT | 3), TrapCause::Interrupt(InterruptKind::Unknown));
    assert_eq!(trap_cause(INT), TrapCause::Interrupt(InterruptKind::UserSoft));
}

#[test]
fn scause_split_recombines() {
    assert_eq!(split_scause(INT | 9), (1, 9));
    assert_eq!(split_scause(13), (0, 13));
    for s in [0usize, 5, INT | 5, usize::MAX, INT - 1] {
        let (i, c) = split_scause(s);
        assert_eq!((i << 63) | c, s);
    }
}

#[test]
fn trap_breakpoint_advances_sepc() {
    let mut tf = frame(3, 0x8020_1000, 0);
    assert_eq!(rust_trap(&mut tf), TrapAction::Breakpoint { sepc: 0x8020_1000 });
    assert_eq!(tf.sepc, 0x8020_1002);
    assert_eq!(tf.x, [7; 32]);
    assert_eq!(tf.scause, 3);
}

#[test]
fn trap_fatal_causes() {
    let tf = frame(2, 0x100, 0xc0102573);
    assert_eq!(trap_fault(&tf), Some(TrapFault::IllegalInstruction { sepc: 0x100, stval: 0xc0102573 }));
    let tf = frame(5, 0x104, 0x8);
    assert_eq!(trap_fault(&tf), Some(TrapFault::LoadFault { sepc: 0x104, stval: 0x8 }));
    let tf = frame(7, 0x108, 0x10);
    assert_eq!(trap_fault(&tf), Some(TrapFault::StoreFault { sepc: 0x108, stval: 0x10 }));
    for code in [12usize, 13, 15] {
        let tf = frame(code, 0x200, 0xdead_0000);
        assert_eq!(trap_fault(&tf), Some(TrapFault::PageFault { sepc: 0x200, stval: 0xdead_0000 }));
    }
    assert_eq!(trap_fault(&frame(INT | 4, 0, 0)), Some(TrapFault::Undefined { is_int: 1, code: 4 }));
    assert_eq!(trap_fault(&frame(8, 0, 0)), Some(TrapFault::Undefined { is_int: 0, code: 8 }));
    assert_eq!(trap_fault(&frame(0x40, 0, 0)), Some(TrapFault::Undefined { is_int: 0, code: 0x40 }));
}

#[test]
fn trap_handled_causes_are_not_faults() {
    for s in [3usize, INT | 1, INT | 5, INT | 9] {
        assert_eq!(trap_fault(&frame(s, 0x300, 0)), None);
    }
}

#[test]
fn trap_interrupts() {
    let mut tf = frame(INT | 5, 0x300, 0);
    assert_eq!(rust_trap(&mut tf), TrapAction::SupervisorTimer);
    assert_eq!(tf.sepc, 0x300);
    let mut tf = frame(INT | 1, 0x300, 0);
    assert_eq!(
        rust_trap(&mut tf),
        TrapAction::SupervisorSoft { clear: SbiCall { which: 3, arg0: 0, arg1: 0, arg2: 0 } }
    );
    assert_eq!(tf.sepc, 0x300);
    let mut tf = frame(INT | 9, 0x300, 0);
    assert_eq!(rust_trap(&mut tf), TrapAction::SupervisorExternal);
}
