//! 16550-style UART (the Allwinner D1 layout: 32-bit registers, status in
//! USR, halt control at word 41) driven by register programs.
use vstd::prelude::*;
use vstd::string::StringSliceAdditionalSpecFns;
use crate::mmio::{reg_write, ByteWrite, RegPoll, RegWrite};

verus! {

/// Receive buffer / transmit holding / divisor latch low (word offsets).
pub const REG_RBR: usize = 0;
/// Interrupt enable / divisor latch high.
pub const REG_IER: usize = 1;
/// FIFO control.
pub const REG_FCR: usize = 2;
/// Line control.
pub const REG_LCR: usize = 3;
/// Modem control.
pub const REG_MCR: usize = 4;
/// UART status.
pub const REG_USR: usize = 31;
/// Halt TX / configuration update control.
pub const REG_HALT: usize = 41;
/// The highest word offset that the driver touches.
pub const REG_LAST: usize = 41;

/// Divisor latch value: 115200 baud from the 24 MHz clock.
pub const UART_DIVISOR: u16 = 13;
/// LCR: eight data bits (bits 1 and 0).
pub const LCR_EIGHT_BITS: u32 = 3;
/// LCR: divisor latch access bit.
pub const LCR_DLAB: u32 = 0x80;
/// LCR while the divisor is written: eight data bits with DLAB set
/// (`LCR_EIGHT_BITS | LCR_DLAB`).
pub const LCR_EIGHT_BITS_DLAB: u32 = 0x83;
/// HALT: stop the transmitter while the line is reconfigured.
pub const HALT_TX: u32 = 0x3;
/// HALT: apply the new configuration; the bit reads as set until it is done.
pub const HALT_CHANGE_UPDATE: u32 = 0x4;
/// HALT while the new configuration is applied, the transmitter still
/// halted (`HALT_CHANGE_UPDATE | HALT_TX`).
pub const HALT_TX_UPDATE: u32 = 0x7;
/// USR: transmit FIFO not full.
pub const USR_TFNF: u32 = 0b10;
/// USR: receive FIFO not empty.
pub const USR_RFNE: u32 = 0b1000;

/// A UART whose registers start at a physical address.
pub struct Uart {
    base_address: usize,
}

/// The address of the 32-bit register at word `offset` from `base`.
pub open spec fn reg(base: usize, offset: usize) -> usize {
    (base + 4 * offset) as usize
}

/// The store of `value` to word `offset` of the UART at `base`.
pub open spec fn store(base: usize, offset: usize, value: u32) -> RegWrite {
    reg_write(reg(base, offset), value)
}

/// The bytes sent for `s`: each newline is preceded by a carriage return.
pub open spec fn crlf(s: Seq<u8>) -> Seq<u8>
    decreases s.len(),
{
    if s.len() == 0 {
        Seq::empty()
    } else {
        crlf(s.drop_last()) + expand_newline(s.last())
    }
}

/// The bytes sent for one byte `c`.
pub open spec fn expand_newline(c: u8) -> Seq<u8> {
    if c == 10 {
        seq![13u8, 10u8]
    } else {
        seq![c]
    }
}

/// The number of newlines in `s`.
pub open spec fn newlines(s: Seq<u8>) -> nat
    decreases s.len(),
{
    if s.len() == 0 {
        0
    } else {
        newlines(s.drop_last()) + if s.last() == 10 { 1nat } else { 0nat }
    }
}

/// Whether the divisor latch access bit is set once the first `i` stores
/// of `prog` are done, for a UART at `base` whose line control register
/// starts with the bit clear: the bit of the last store to LCR among them.
pub open spec fn dlab_after(prog: Seq<RegWrite>, base: usize, i: int) -> bool
    decreases i,
{
    if i <= 0 {
        false
    } else if prog[i - 1].addr == reg(base, REG_LCR) {
        prog[i - 1].value & LCR_DLAB != 0
    } else {
        dlab_after(prog, base, i - 1)
    }
}

/// The register program of `Uart::init`: the stores made before the wait
/// for the configuration update, that wait, and the stores made after it.
pub struct InitPlan {
    pub before: Vec<RegWrite>,
    pub wait: RegPoll,
    pub after: Vec<RegWrite>,
}

/// The program of `Uart::put`: the wait for room in the transmit FIFO,
/// then the store of the byte.
pub struct PutPlan {
    pub wait: RegPoll,
    pub store: ByteWrite,
}

/// The bytes sent, with the carriage return that precedes each newline
/// left out.
pub open spec fn strip_crlf(t: Seq<u8>) -> Seq<u8>
    decreases t.len(),
{
    if t.len() == 0 {
        Seq::empty()
    } else if t.len() >= 2 && t.last() == 10 && t[t.len() - 2] == 13 {
        strip_crlf(t.subrange(0, t.len() - 2)) + seq![10u8]
    } else {
        strip_crlf(t.drop_last()) + seq![t.last()]
    }
}

/// What is echoed for a received byte.
pub open spec fn echo(c: u8) -> Seq<char> {
    if c == 0x7f {
        seq!['\u{8}', ' ', '\u{8}']
    } else if c == 10 || c == 13 {
        seq!['\n']
    } else {
        seq![c as char]
    }
}

impl View for Uart {
    type V = usize;

    closed spec fn view(&self) -> usize {
        self.base_address
    }
}

impl Uart {
    /// The registers up to the highest one used lie in the address space.
    pub open spec fn fits(&self) -> bool {
        self@ + 4 * REG_LAST + 4 <= usize::MAX
    }

    /// The stores of `init` before the configuration-update wait.
    pub open spec fn init_before(&self) -> Seq<RegWrite> {
        let b = self@;
        seq![
            store(b, REG_IER, 0),
            store(b, REG_FCR, 0x1),
            store(b, REG_HALT, HALT_TX),
            store(b, REG_LCR, LCR_EIGHT_BITS_DLAB),
            store(b, REG_RBR, (UART_DIVISOR % 256) as u32),
            store(b, REG_IER, (UART_DIVISOR / 256) as u32),
            store(b, REG_HALT, HALT_TX_UPDATE),
        ]
    }

    /// The stores of `init` after the configuration-update wait.
    pub open spec fn init_after(&self) -> Seq<RegWrite> {
        let b = self@;
        seq![
            store(b, REG_LCR, LCR_EIGHT_BITS),
            store(b, REG_HALT, 0),
            store(b, REG_FCR, 0x7),
            store(b, REG_MCR, 0x3),
            store(b, REG_IER, 1),
        ]
    }

    pub fn new(base_address: usize) -> (r: Self)
        ensures
            r@ == base_address,
    {
        Uart { base_address }
    }

    fn store(&self, offset: usize, value: u32) -> (r: RegWrite)
        requires
            self.fits(),
            offset <= REG_LAST,
        ensures
            r == store(self@, offset, value),
    {
        RegWrite { addr: self.base_address + 4 * offset, value }
    }

    /// The address of the status register.
    pub fn status_addr(&self) -> (r: usize)
        requires
            self.fits(),
        ensures
            r == reg(self@, REG_USR),
    {
        self.base_address + 4 * REG_USR
    }

    /// The address of the receive buffer register.
    pub fn data_addr(&self) -> (r: usize)
        ensures
            r == reg(self@, REG_RBR),
    {
        self.base_address
    }

    /// Program the line for 8 data bits at 115200 baud with FIFOs and the
    /// receive interrupt enabled: interrupts off, FIFO on, transmitter
    /// halted, divisor written under DLAB, update triggered and waited for,
    /// DLAB cleared, halt released, FIFOs reset, modem lines set, receive
    /// interrupt on.
    pub fn init(&mut self) -> (plan: InitPlan)
        requires
            old(self).fits(),
        ensures
            *final(self) == *old(self),
            plan.before@ == old(self).init_before(),
            plan.wait == (RegPoll {
                addr: reg(old(self)@, REG_HALT),
                mask: HALT_CHANGE_UPDATE,
                until_set: false,
            }),
            plan.after@ == old(self).init_after(),
    {
        let lcr: u32 = (1 << 1) | (1 << 0);
        let divisor: u16 = UART_DIVISOR;
        let divisor_least: u32 = divisor as u32 & 0xff;
        let divisor_most: u32 = divisor as u32 >> 8;
        assert(lcr == LCR_EIGHT_BITS) by (bit_vector)
            requires
                lcr == (1u32 << 1u32) | (1u32 << 0u32),
        ;
        assert(divisor_least == 13 && divisor_most == 0) by (bit_vector)
            requires
                divisor == 13,
                divisor_least == divisor as u32 & 0xff,
                divisor_most == divisor as u32 >> 8,
        ;
        assert(lcr | (1u32 << 7u32) == LCR_EIGHT_BITS_DLAB) by (bit_vector)
            requires
                lcr == 3,
        ;
        assert(0x4u32 | 0x2 | 0x1 == HALT_TX_UPDATE) by (bit_vector);

        let mut before: Vec<RegWrite> = Vec::new();
        before.push(self.store(REG_IER, 0));
        before.push(self.store(REG_FCR, 0x1));
        before.push(self.store(REG_HALT, 0x03));
        before.push(self.store(REG_LCR, lcr | (1 << 7)));
        before.push(self.store(REG_RBR, divisor_least));
        before.push(self.store(REG_IER, divisor_most));
        before.push(self.store(REG_HALT, 0x4 | 0x2 | 0x1));
        let wait = RegPoll { addr: self.base_address + 4 * REG_HALT, mask: 0x4, until_set: false };
        let mut after: Vec<RegWrite> = Vec::new();
        after.push(self.store(REG_LCR, lcr));
        after.push(self.store(REG_HALT, 0));
        after.push(self.store(REG_FCR, 0x7));
        after.push(self.store(REG_MCR, 0x3));
        after.push(self.store(REG_IER, 1));
        proof {
            assert(before@ =~= self.init_before());
            assert(after@ =~= self.init_after());
        }
        InitPlan { before, wait, after }
    }

    /// Enable the FIFOs, set the modem lines and enable the receive
    /// interrupt, leaving the line settings as they are.
    pub fn simple_init(&mut self) -> (r: Vec<RegWrite>)
        requires
            old(self).fits(),
        ensures
            *final(self) == *old(self),
            r@ == seq![
                store(old(self)@, REG_FCR, 0x7),
                store(old(self)@, REG_MCR, 0x3),
                store(old(self)@, REG_IER, 0x1),
            ],
    {
        let mut r: Vec<RegWrite> = Vec::new();
        r.push(self.store(REG_FCR, 0x7));
        r.push(self.store(REG_MCR, 0x3));
        r.push(self.store(REG_IER, 0x1));
        proof {
            assert(r@ =~= seq![
                store(self@, REG_FCR, 0x7),
                store(self@, REG_MCR, 0x3),
                store(self@, REG_IER, 0x1),
            ]);
        }
        r
    }

    /// Whether the status word `usr` says that a received byte is waiting.
    pub fn data_ready(usr: u32) -> (r: bool)
        ensures
            r == (usr & USR_RFNE != 0),
    {
        usr & 0b1000 != 0
    }

    /// The received byte, given the status word `usr` and, when
    /// `data_ready(usr)`, the word `rbr` read from the receive buffer (it is
    /// not looked at otherwise).
    pub fn get(&mut self, usr: u32, rbr: u32) -> (r: Option<u8>)
        ensures
            *final(self) == *old(self),
            usr & USR_RFNE == 0 ==> r is None,
            usr & USR_RFNE != 0 ==> r == Some((rbr % 256) as u8),
    {
        if usr & 0b1000 == 0 {
            None
        } else {
            let b = (rbr & 0xff) as u8;
            assert(rbr & 0xff == rbr % 256) by (bit_vector);
            Some(b)
        }
    }

    /// Whether the status word `usr` says that the transmit FIFO has room.
    pub fn tx_ready(usr: u32) -> (r: bool)
        ensures
            r == (usr & USR_TFNF != 0),
    {
        usr & 0b10 != 0
    }

    /// Send the byte `c`: wait until the status register shows room in the
    /// transmit FIFO (its not-full bit set), then store the byte to the
    /// transmit holding register.
    pub fn put(&mut self, c: u8) -> (r: PutPlan)
        requires
            old(self).fits(),
        ensures
            *final(self) == *old(self),
            r.wait == (RegPoll { addr: reg(old(self)@, REG_USR), mask: USR_TFNF, until_set: true }),
            r.store == (ByteWrite { addr: reg(old(self)@, REG_RBR), value: c }),
    {
        let wait = RegPoll { addr: self.status_addr(), mask: 0b10, until_set: true };
        PutPlan { wait, store: ByteWrite { addr: self.base_address, value: c } }
    }

    /// The step of `put` after one read `usr` of the status register: the
    /// store of `c` when the transmit FIFO has room, nothing (read again)
    /// otherwise.
    pub fn send_when_ready(&self, usr: u32, c: u8) -> (r: Option<ByteWrite>)
        ensures
            r is Some <==> usr & USR_TFNF != 0,
            r is Some ==> r == Some(ByteWrite { addr: reg(self@, REG_RBR), value: c }),
    {
        if usr & 0b10 != 0 {
            Some(ByteWrite { addr: self.base_address, value: c })
        } else {
            None
        }
    }

    /// The bytes that writing `out` sends, in order: each newline is sent
    /// as a carriage return followed by the newline.
    pub fn write_str(&mut self, out: &str) -> (r: Vec<u8>)
        ensures
            *final(self) == *old(self),
            r@ == crlf(out.spec_bytes()),
    {
        let bytes = out.as_bytes();
        let mut sent: Vec<u8> = Vec::new();
        let mut i: usize = 0;
        while i < bytes.len()
            invariant
                bytes@ == out.spec_bytes(),
                0 <= i <= bytes@.len(),
                sent@ == crlf(bytes@.take(i as int)),
            decreases bytes@.len() - i,
        {
            let c = bytes[i];
            proof {
                let t = bytes@.take(i + 1);
                assert(t.drop_last() =~= bytes@.take(i as int));
                assert(t.last() == c);
            }
            if c == 10u8 {
                sent.push(13u8);
            }
            sent.push(c);
            proof {
                assert(sent@ =~= crlf(bytes@.take(i as int)) + expand_newline(c));
            }
            i = i + 1;
        }
        proof {
            assert(bytes@.take(bytes@.len() as int) =~= bytes@);
        }
        sent
    }
}

/// The characters echoed for what the D1 console UART received: delete
/// erases the last character on screen, carriage return and newline start a
/// new line, any other byte is shown as the character of that code.
pub fn handle_interrupt(received: Option<u8>) -> (r: Vec<char>)
    ensures
        received is None ==> r@.len() == 0,
        received is Some ==> r@ == echo(received->0),
        received is Some && received->0 != 0x7f && received->0 != 10 && received->0 != 13 ==> r@
            == seq![received->0 as char],
        received == Some(10u8) || received == Some(13u8) ==> r@ == seq!['\n'],
        received == Some(0x7fu8) ==> r@ == seq!['\u{8}', ' ', '\u{8}'],
{
    let mut out: Vec<char> = Vec::new();
    if let Some(byte) = received {
        let c = byte & 0xff;
        assert(byte & 0xff == byte) by (bit_vector);
        if c == 0x7f {
            assert((8u8 as char) == '\u{8}');
            out.push(8u8 as char);
            out.push(' ');
            out.push(8u8 as char);
        } else if c == 10 || c == 13 {
            out.push('\n');
        } else {
            out.push(c as char);
        }
        proof {
            assert(out@ =~= echo(c));
        }
    }
    out
}

/// The divisor reaches the divisor latch: both divisor bytes are stored to
/// words 0 and 1 while DLAB is set, the interrupt-enable stores to word 1
/// are made while it is clear, and the program leaves it clear.
pub proof fn lemma_init_divisor_under_dlab(u: Uart)
    requires
        u.fits(),
    ensures
        ({
            let prog = u.init_before() + u.init_after();
            &&& prog[4] == store(u@, REG_RBR, (UART_DIVISOR % 256) as u32)
            &&& prog[5] == store(u@, REG_IER, (UART_DIVISOR / 256) as u32)
            &&& dlab_after(prog, u@, 4)
            &&& dlab_after(prog, u@, 5)
            &&& prog[0].addr == reg(u@, REG_IER) && !dlab_after(prog, u@, 0)
            &&& prog[11].addr == reg(u@, REG_IER) && !dlab_after(prog, u@, 11)
            &&& !dlab_after(prog, u@, prog.len() as int)
        }),
{
    let b = u@;
    let prog = u.init_before() + u.init_after();
    assert(LCR_EIGHT_BITS | LCR_DLAB == LCR_EIGHT_BITS_DLAB) by (bit_vector);
    assert(HALT_CHANGE_UPDATE | HALT_TX == HALT_TX_UPDATE) by (bit_vector);
    assert(0x83u32 & LCR_DLAB != 0) by (bit_vector);
    assert(LCR_EIGHT_BITS & LCR_DLAB == 0) by (bit_vector);
    assert(prog.len() == 12);
    assert(reg(b, REG_LCR) != reg(b, REG_RBR));
    assert(reg(b, REG_LCR) != reg(b, REG_IER));
    assert(reg(b, REG_LCR) != reg(b, REG_HALT));
    assert(reg(b, REG_LCR) != reg(b, REG_FCR));
    assert(reg(b, REG_LCR) != reg(b, REG_MCR));
    assert(prog[3].addr == reg(b, REG_LCR));
    assert(prog[7].addr == reg(b, REG_LCR));
    assert(dlab_after(prog, b, 4));
    assert(dlab_after(prog, b, 5));
    assert(dlab_after(prog, b, 8) == false);
    assert(!dlab_after(prog, b, 9));
    assert(!dlab_after(prog, b, 10));
    assert(!dlab_after(prog, b, 11));
    assert(!dlab_after(prog, b, 12));
}

/// Sending two strings one after the other sends the same bytes as sending
/// their concatenation.
pub proof fn lemma_crlf_concat(a: Seq<u8>, b: Seq<u8>)
    ensures
        crlf(a + b) == crlf(a) + crlf(b),
    decreases b.len(),
{
    if b.len() == 0 {
        assert(a + b =~= a);
        assert(crlf(b) =~= Seq::<u8>::empty());
        assert(crlf(a) + crlf(b) =~= crlf(a));
    } else {
        assert((a + b).drop_last() =~= a + b.drop_last());
        assert((a + b).last() == b.last());
        lemma_crlf_concat(a, b.drop_last());
        assert(crlf(a + b) =~= crlf(a) + crlf(b));
    }
}

/// What is sent for `s` is one byte longer than `s` for each newline in it.
pub proof fn lemma_crlf_len(s: Seq<u8>)
    ensures
        crlf(s).len() == s.len() + newlines(s),
    decreases s.len(),
{
    if s.len() > 0 {
        lemma_crlf_len(s.drop_last());
    }
}

/// The bytes sent, with the carriage return before each newline left out,
/// are `s`: nothing else is added, dropped or changed.
pub proof fn lemma_crlf_strip(s: Seq<u8>)
    ensures
        strip_crlf(crlf(s)) == s,
    decreases s.len(),
{
    if s.len() > 0 {
        let p = s.drop_last();
        lemma_crlf_strip(p);
        let c = s.last();
        let t = crlf(s);
        assert(t =~= crlf(p) + expand_newline(c));
        if c == 10 {
            assert(t.subrange(0, t.len() - 2) =~= crlf(p));
        } else {
            assert(t.drop_last() =~= crlf(p));
        }
        assert(p.push(c) =~= s);
        assert(strip_crlf(t) =~= s);
    }
}

/// Every newline that is sent comes right after a carriage return.
pub proof fn lemma_crlf_newline_after_return(s: Seq<u8>)
    ensures
        forall|i: int| 0 <= i < crlf(s).len() && #[trigger] crlf(s)[i] == 10 ==> i >= 1 && crlf(s)[i - 1] == 13,
    decreases s.len(),
{
    if s.len() > 0 {
        let p = s.drop_last();
        lemma_crlf_newline_after_return(p);
        let e = expand_newline(s.last());
        assert(crlf(s) =~= crlf(p) + e);
        assert forall|i: int| 0 <= i < crlf(s).len() && #[trigger] crlf(s)[i] == 10 implies i >= 1 && crlf(s)[i - 1] == 13 by {
            if i < crlf(p).len() {
                assert(crlf(s)[i] == crlf(p)[i]);
                assert(crlf(s)[i - 1] == crlf(p)[i - 1]);
            } else {
                let j = i - crlf(p).len();
                assert(crlf(s)[i] == e[j]);
                if s.last() == 10 {
                    assert(j == 1);
                    assert(crlf(s)[i - 1] == e[0]);
                } else {
                    assert(e[j] == s.last());
                }
            }
        }
    }
}

} // verus!
