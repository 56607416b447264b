use rvkernel::mmio::RegWrite;
use rvkernel::plic::{
    complete, enable, init_ext, ExtSetup, handle_interrupt, is_pending, next, set_priority, set_threshold,
    ExternalIrq, IrqSource, PLIC_CLAIM,
};
use rvkernel::sbi::SbiCall;

#[test]
fn plic_claim_and_complete() {
    assert_eq!(next(0), None);
    assert_eq!(next(10), Some(10));
    assert_eq!(complete(10), RegWrite { addr: 0x1020_1004, value: 10 });
}

#[test]
fn plic_pending_bits() {
    assert!(is_pending(10, 1 << 10));
    assert!(!is_pending(10, !(1u32 << 10)));
    assert!(is_pending(31, 0x8000_0000));
    assert!(!is_pending(0, 0));
}

#[test]
fn plic_enable_sets_one_bit() {
    assert_eq!(enable(10, 0b1), RegWrite { addr: 0x1000_2080, value: 0b100_0000_0001 });
    assert_eq!(enable(10, 1 << 10).value, 1 << 10);
    let once = enable(3, 0x55).value;
    assert_eq!(enable(3, once).value, once);
    for other in 0..32u32 {
        if other != 3 {
            assert_eq!(is_pending(other, once), is_pending(other, 0x55));
        }
    }
    assert!(is_pending(3, once));
}

#[test]
fn plic_priority_and_threshold() {
    assert_eq!(set_priority(10, 7), RegWrite { addr: 0x1000_0028, value: 7 });
    assert_eq!(set_priority(1, 0xff), RegWrite { addr: 0x1000_0004, value: 7 });
    assert_eq!(set_priority(0, 0x20).value, 0);
    assert_eq!(set_priority(0, 8).value, 0);
    assert_eq!(set_priority(2, 13).value, 5);
    for p in 0..=7u8 {
        assert_eq!(set_priority(3, p).value, p as u32);
    }
    assert_eq!(set_threshold(0), RegWrite { addr: 0x1020_1000, value: 0 });
    assert_eq!(set_threshold(0x25), RegWrite { addr: 0x1020_1000, value: 5 });
}

#[test]
fn plic_handle_interrupt_sources() {
    let done = |id: u32| RegWrite { addr: PLIC_CLAIM, value: id };
    assert_eq!(handle_interrupt(0), None);
    assert_eq!(
        handle_interrupt(3),
        Some(ExternalIrq { source: IrqSource::Virtio(3), complete: done(3) })
    );
    assert_eq!(
        handle_interrupt(18),
        Some(ExternalIrq {
            source: IrqSource::Console(SbiCall { which: 2, arg0: 0, arg1: 0, arg2: 0 }),
            complete: done(18)
        })
    );
    assert_eq!(
        handle_interrupt(10),
        Some(ExternalIrq { source: IrqSource::Unknown(10), complete: done(10) })
    );
    assert_eq!(handle_interrupt(9).unwrap().source, IrqSource::Unknown(9));
}

#[test]
fn plic_uart_setup() {
    assert_eq!(
        init_ext(),
        ExtSetup {
            priority: RegWrite { addr: 0x1000_0028, value: 7 },
            threshold: RegWrite { addr: 0x1020_1000, value: 0 },
            enable_id: 10,
        }
    );
}
