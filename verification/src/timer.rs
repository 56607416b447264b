//! Supervisor timer: the next deadline and the tick counter.
use vstd::prelude::*;
use crate::sbi::{set_timer, call, SbiCall, SBI_SET_TIMER};

verus! {

/// CLINT: timer compare register of hart 0.
pub const MMIO_MTIMECMP0: usize = 0x0200_4000;
/// CLINT: timer compare register of hart 1.
pub const MMIO_MTIMECMP1: usize = 0x0200_4008;
/// CLINT: the machine timer.
pub const MMIO_MTIME: usize = 0x0200_BFF8;

/// Timer ticks between two timer interrupts.
pub const TIMEBASE: u64 = 10_000_000;

/// Interrupts counted before the counter wraps and reports.
pub const TICKS_PER_REPORT: usize = 100;

/// The deadline of the next timer interrupt when the time is `now`.
pub open spec fn next_deadline(now: u64) -> u64 {
    (now + TIMEBASE) as u64
}

/// Program the next timer interrupt `TIMEBASE` after the time `now`.
pub fn clock_set_next_event(now: u64) -> (r: SbiCall)
    requires
        now + TIMEBASE <= u64::MAX,
    ensures
        r == set_timer_call(next_deadline(now)),
{
    set_timer(now + TIMEBASE)
}

/// The call that `set_timer` makes for `stime`.
pub open spec fn set_timer_call(stime: u64) -> SbiCall {
    if usize::BITS == 64 {
        call(SBI_SET_TIMER, stime as usize, 0, 0)
    } else {
        call(SBI_SET_TIMER, (stime % 0x1_0000_0000) as usize, (stime / 0x1_0000_0000) as usize, 0)
    }
}

/// The timer interrupts counted since the last report.
pub struct Ticks {
    count: usize,
}

/// One step of the counter: the new count, and whether it reports.
pub open spec fn tick_step(count: nat) -> (nat, bool) {
    if count + 1 == TICKS_PER_REPORT {
        (0, true)
    } else {
        (count + 1, false)
    }
}

/// The count and the number of reports after `n` steps from `count`.
pub open spec fn run(count: nat, n: nat) -> (nat, nat)
    decreases n,
{
    if n == 0 {
        (count, 0)
    } else {
        let (c, reports) = run(count, (n - 1) as nat);
        let (c2, rep) = tick_step(c);
        (c2, reports + if rep { 1nat } else { 0nat })
    }
}

impl Ticks {
    #[verifier::type_invariant]
    spec fn inv(self) -> bool {
        self.count < TICKS_PER_REPORT
    }

    /// The interrupts counted since the last report.
    pub closed spec fn count(self) -> nat {
        self.count as nat
    }

    /// A counter at zero, as the timer is set up.
    pub fn init() -> (r: Self)
        ensures
            r.count() == 0,
    {
        Ticks { count: 0 }
    }

    /// The interrupts counted since the last report.
    pub fn get(&self) -> (r: usize)
        ensures
            r == self.count(),
            r < TICKS_PER_REPORT,
    {
        proof {
            use_type_invariant(self);
        }
        self.count
    }

    /// Count one timer interrupt; on the hundredth the counter goes back to
    /// zero and the result is `true` (the kernel then reports it).
    pub fn tick(&mut self) -> (report: bool)
        ensures
            (final(self).count(), report) == tick_step(old(self).count()),
            final(self).count() == (old(self).count() + 1) % (TICKS_PER_REPORT as nat),
            report <==> old(self).count() + 1 == TICKS_PER_REPORT,
    {
        proof {
            use_type_invariant(&*self);
        }
        let next = self.count + 1;
        if next == TICKS_PER_REPORT {
            self.count = 0;
            true
        } else {
            self.count = next;
            false
        }
    }
}

/// What a timer interrupt asks for: the call that programs the next one,
/// and whether the hundredth tick since the last report was reached.
#[derive(Clone, Copy, Debug, PartialEq, Eq, Structural)]
pub struct TimerEvent {
    pub next: SbiCall,
    pub report: bool,
}

/// Handle a supervisor timer interrupt at time `now`: program the next
/// event, then count the tick.
pub fn super_timer(ticks: &mut Ticks, now: u64) -> (r: TimerEvent)
    requires
        now + TIMEBASE <= u64::MAX,
    ensures
        r.next == set_timer_call(next_deadline(now)),
        (final(ticks).count(), r.report) == tick_step(old(ticks).count()),
        final(ticks).count() == (old(ticks).count() + 1) % (TICKS_PER_REPORT as nat),
        r.report <==> old(ticks).count() + 1 == TICKS_PER_REPORT,
{
    let next = clock_set_next_event(now);
    let report = ticks.tick();
    TimerEvent { next, report }
}

/// With 64-bit registers the timer call passes the whole deadline in `a0`:
/// a timer interrupt at `now` asks for the call `(0, now + TIMEBASE, 0, 0)`.
pub proof fn lemma_timer_call_64(now: u64)
    requires
        usize::BITS == 64,
        now + TIMEBASE <= u64::MAX,
    ensures
        set_timer_call(next_deadline(now)) == call(SBI_SET_TIMER, (now + TIMEBASE) as usize, 0, 0),
        set_timer_call(next_deadline(now)).arg0 == now + TIMEBASE,
{
    let d: u64 = (now + TIMEBASE) as u64;
    assert(d as usize == d) by (bit_vector)
        requires
            usize::BITS == 64,
    ;
}

/// After `n` interrupts counted from `count`, the count is
/// `(count + n) % 100` and the counter has reported `(count + n) / 100`
/// times; in particular a hundred interrupts bring it back where it was
/// with exactly one report.
pub proof fn lemma_run_closed_form(count: nat, n: nat)
    requires
        count < TICKS_PER_REPORT,
    ensures
        run(count, n).0 == (count + n) % (TICKS_PER_REPORT as nat),
        run(count, n).1 == (count + n) / (TICKS_PER_REPORT as nat),
    decreases n,
{
    if n > 0 {
        lemma_run_closed_form(count, (n - 1) as nat);
        let m = count + n - 1;
        assert(m % 100 + 1 == 100 ==> (m + 1) % 100 == 0 && (m + 1) / 100 == m / 100 + 1) by {
            vstd::arithmetic::div_mod::lemma_fundamental_div_mod(m as int, 100);
            vstd::arithmetic::div_mod::lemma_fundamental_div_mod((m + 1) as int, 100);
        }
        assert(m % 100 + 1 != 100 ==> (m + 1) % 100 == m % 100 + 1 && (m + 1) / 100 == m / 100) by {
            vstd::arithmetic::div_mod::lemma_fundamental_div_mod(m as int, 100);
            vstd::arithmetic::div_mod::lemma_fundamental_div_mod((m + 1) as int, 100);
        }
    }
}

} // verus!
