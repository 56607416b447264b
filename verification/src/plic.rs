//! Platform-level interrupt controller, target 1 (hart 0, supervisor mode).
use vstd::prelude::*;
use crate::mmio::{reg_write, RegWrite};
use crate::sbi::{console_getchar, call, SbiCall, SBI_CONSOLE_GETCHAR};

verus! {

/// Priority registers: one 32-bit word per source, source 0 at the base.
pub const PLIC_PRIORITY: usize = 0x1000_0000;
/// Pending bits of sources 0..32, one bit per source.
pub const PLIC_PENDING: usize = 0x1000_1000;
/// Priority threshold of target 1.
pub const PLIC_THRESHOLD: usize = 0x1020_1000;
/// Claim (read) and complete (write) register of target 1.
pub const PLIC_CLAIM: usize = 0x1020_1004;
/// Enable bits of sources 0..32 for target 1.
pub const PLIC_INT_ENABLE: usize = 0x1000_2080;

/// The interrupt source of the UART on the QEMU virt board.
pub const UART0_IRQ: u32 = 10;
/// The priority given to it.
pub const UART0_PRIORITY: u8 = 7;
/// The interrupt source of the console UART on the Allwinner D1.
pub const D1_UART0_IRQ: u32 = 18;

/// Whether bit `id` of `word` is set.
pub open spec fn bit_set(word: u32, id: u32) -> bool {
    word & (1u32 << id) != 0
}

/// Where an external interrupt came from, and what the kernel does for it.
#[derive(Clone, Copy, Debug, PartialEq, Eq, Structural)]
pub enum IrqSource {
    /// A virtio device (sources 1 to 8); nothing is done for it.
    Virtio(u32),
    /// The console UART: one byte is read through this SBI call and shown.
    Console(SbiCall),
    /// Any other source; it is reported as unknown.
    Unknown(u32),
}

/// The handling of one claimed interrupt: its source, then the store that
/// completes it.
#[derive(Clone, Copy, Debug, PartialEq, Eq, Structural)]
pub struct ExternalIrq {
    pub source: IrqSource,
    pub complete: RegWrite,
}

/// The source that a claimed id stands for.
pub open spec fn classify(id: u32) -> IrqSource {
    if 1 <= id <= 8 {
        IrqSource::Virtio(id)
    } else if id == D1_UART0_IRQ {
        IrqSource::Console(call(SBI_CONSOLE_GETCHAR, 0, 0, 0))
    } else {
        IrqSource::Unknown(id)
    }
}

/// The interrupt that the claim register reported: 0 means that none is
/// pending, any other value is the id of the highest-priority pending
/// source (claiming it clears its pending bit).
pub fn next(claim_no: u32) -> (r: Option<u32>)
    ensures
        claim_no == 0 <==> r is None,
        claim_no != 0 ==> r == Some(claim_no),
{
    if claim_no == 0 {
        None
    } else {
        Some(claim_no)
    }
}

/// Tell the controller that interrupt `id` (as returned by `next`) has
/// been handled: `id` is stored to the claim register.
pub fn complete(id: u32) -> (r: RegWrite)
    ensures
        r == reg_write(PLIC_CLAIM, id),
{
    RegWrite { addr: PLIC_CLAIM, value: id }
}

/// Whether source `id` is pending, given the pending word `pend_ids`.
pub fn is_pending(id: u32, pend_ids: u32) -> (r: bool)
    requires
        id < 32,
    ensures
        r == bit_set(pend_ids, id),
{
    let actual_id: u32 = 1 << id;
    assert(actual_id & pend_ids == pend_ids & actual_id) by (bit_vector);
    actual_id & pend_ids != 0
}

/// Enable source `id` for the target, given the enable word `current` read
/// before: the store sets bit `id` and keeps the others.
pub fn enable(id: u32, current: u32) -> (r: RegWrite)
    requires
        id < 32,
    ensures
        r == reg_write(PLIC_INT_ENABLE, current | (1u32 << id)),
{
    let actual_id: u32 = 1 << id;
    RegWrite { addr: PLIC_INT_ENABLE, value: current | actual_id }
}

/// Set the priority of source `id`: priorities go from 0 to 7 (7 is the
/// highest), so only the low three bits of `prio` are kept.
pub fn set_priority(id: u32, prio: u8) -> (r: RegWrite)
    requires
        PLIC_PRIORITY + 4 * id <= usize::MAX,
    ensures
        r == reg_write((PLIC_PRIORITY + 4 * id) as usize, (prio % 8) as u32),
{
    let actual_prio: u32 = prio as u32 & 7;
    assert(actual_prio == prio % 8) by (bit_vector)
        requires
            actual_prio == prio as u32 & 7,
    ;
    let addr: usize = PLIC_PRIORITY + 4 * (id as usize);
    RegWrite { addr, value: actual_prio }
}

/// Set the priority threshold of the target (sources at or below it are
/// masked); only the low five bits of `tsh` are kept.
pub fn set_threshold(tsh: u8) -> (r: RegWrite)
    ensures
        r == reg_write(PLIC_THRESHOLD, (tsh % 32) as u32),
{
    let actual_tsh: u8 = tsh & 0x1f;
    assert(actual_tsh == tsh % 32) by (bit_vector)
        requires
            actual_tsh == tsh & 0x1f,
    ;
    RegWrite { addr: PLIC_THRESHOLD, value: actual_tsh as u32 }
}

/// Handle what the claim register reported: nothing when no interrupt is
/// pending; otherwise the source it stands for, and the completion of that
/// same id, which lets the device interrupt again.
pub fn handle_interrupt(claim_no: u32) -> (r: Option<ExternalIrq>)
    ensures
        claim_no == 0 <==> r is None,
        claim_no != 0 ==> r == Some(
            ExternalIrq { source: classify(claim_no), complete: reg_write(PLIC_CLAIM, claim_no) },
        ),
        1 <= claim_no <= 8 ==> r == Some(
            ExternalIrq {
                source: IrqSource::Virtio(claim_no),
                complete: RegWrite { addr: PLIC_CLAIM, value: claim_no },
            },
        ),
        claim_no == 18 ==> r == Some(
            ExternalIrq {
                source: IrqSource::Console(
                    SbiCall { which: SBI_CONSOLE_GETCHAR, arg0: 0, arg1: 0, arg2: 0 },
                ),
                complete: RegWrite { addr: PLIC_CLAIM, value: 18 },
            },
        ),
        claim_no > 8 && claim_no != 18 ==> r == Some(
            ExternalIrq {
                source: IrqSource::Unknown(claim_no),
                complete: RegWrite { addr: PLIC_CLAIM, value: claim_no },
            },
        ),
{
    match next(claim_no) {
        Some(interrupt) => {
            let source = if 1 <= interrupt && interrupt <= 8 {
                IrqSource::Virtio(interrupt)
            } else if interrupt == 18 {
                IrqSource::Console(console_getchar())
            } else {
                IrqSource::Unknown(interrupt)
            };
            Some(ExternalIrq { source, complete: complete(interrupt) })
        },
        None => None,
    }
}

/// Enabling a source sets its bit and leaves the bit of every other source
/// as it was; enabling it again changes nothing.
pub proof fn lemma_enable_sets_only_its_bit(id: u32, current: u32, other: u32)
    requires
        id < 32,
        other < 32,
    ensures
        bit_set(current | (1u32 << id), id),
        other != id ==> (bit_set(current | (1u32 << id), other) <==> bit_set(current, other)),
        (current | (1u32 << id)) | (1u32 << id) == current | (1u32 << id),
{
    assert((current | (1u32 << id)) & (1u32 << id) != 0) by (bit_vector)
        requires
            id < 32,
    ;
    assert(other != id ==> (((current | (1u32 << id)) & (1u32 << other) != 0) <==> (current & (1u32
        << other) != 0))) by (bit_vector)
        requires
            id < 32,
            other < 32,
    ;
    assert((current | (1u32 << id)) | (1u32 << id) == current | (1u32 << id)) by (bit_vector);
}

/// Priorities are stored as levels 0 to 7, a level in that range as
/// given; thresholds are stored in five bits, a value up to 31 as given.
pub proof fn lemma_priority_levels(prio: u8, tsh: u8)
    ensures
        (prio % 8) as u32 <= 7,
        prio <= 7 ==> (prio % 8) as u32 == prio,
        (tsh % 32) as u32 <= 31,
        tsh <= 31 ==> (tsh % 32) as u32 == tsh,
{
}

/// The claimed ids fall into three groups: 1 to 8 are the virtio devices,
/// 18 is the D1 console UART, and every other nonzero id is unknown; and
/// every claimed id is completed with itself.
pub proof fn lemma_classify_ranges(id: u32)
    requires
        id != 0,
    ensures
        id <= 8 ==> classify(id) == IrqSource::Virtio(id),
        id == 18 ==> classify(id) == IrqSource::Console(
            SbiCall { which: 2, arg0: 0, arg1: 0, arg2: 0 },
        ),
        id > 8 && id != 18 ==> classify(id) == IrqSource::Unknown(id),
{
}

/// The external-interrupt setup: the stores that give a source its
/// priority and set the target's threshold, and the source that is then
/// enabled (with `enable`, on the enable word read at that point).
#[derive(Clone, Copy, Debug, PartialEq, Eq, Structural)]
pub struct ExtSetup {
    pub priority: RegWrite,
    pub threshold: RegWrite,
    pub enable_id: u32,
}

/// The setup of the QEMU virt UART interrupt: source 10 at priority 7,
/// threshold 0 (every priority above 0 passes), then source 10 enabled.
pub fn init_ext() -> (r: ExtSetup)
    ensures
        r.priority == reg_write((PLIC_PRIORITY + 4 * UART0_IRQ) as usize, UART0_PRIORITY as u32),
        r.threshold == reg_write(PLIC_THRESHOLD, 0),
        r.enable_id == UART0_IRQ,
        r.enable_id < 32,
{
    let priority = set_priority(UART0_IRQ, UART0_PRIORITY);
    let threshold = set_threshold(0);
    ExtSetup { priority, threshold, enable_id: UART0_IRQ }
}

} // verus!
