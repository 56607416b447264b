use rvkernel::mmio::{ByteWrite, RegPoll, RegWrite};
use rvkernel::uart::{handle_interrupt, Uart};

fn w(addr: usize, value: u32) -> RegWrite {
    RegWrite { addr, value }
}

#[test]
fn uart_init_program() {
    let mut u = Uart::new(0x1000_0000);
    let plan = u.init();
    assert_eq!(
        plan.before,
        vec![
            w(0x1000_0004, 0),
            w(0x1000_0008, 1),
            w(0x1000_00a4, 3),
            w(0x1000_000c, 0x83),
            w(0x1000_0000, 13),
            w(0x1000_0004, 0),
            w(0x1000_00a4, 7),
        ]
    );
    assert_eq!(plan.wait, RegPoll { addr: 0x1000_00a4, mask: 4, until_set: false });
    assert!(!plan.wait.is_done(0x7));
    assert!(plan.wait.is_done(0x3));
    assert_eq!(
        plan.after,
        vec![
            w(0x1000_000c, 3),
            w(0x1000_00a4, 0),
            w(0x1000_0008, 7),
            w(0x1000_0010, 3),
            w(0x1000_0004, 1),
        ]
    );
}

#[test]
fn uart_simple_init_program() {
    let mut u = Uart::new(0x0250_0000);
    assert_eq!(u.simple_init(), vec![w(0x0250_0008, 7), w(0x0250_0010, 3), w(0x0250_0004, 1)]);
}

#[test]
fn uart_receive() {
    let mut u = Uart::new(0x0250_0000);
    assert_eq!(u.status_addr(), 0x0250_007c);
    assert_eq!(u.data_addr(), 0x0250_0000);
    assert!(Uart::data_ready(0b1000));
    assert!(!Uart::data_ready(0b0111));
    assert_eq!(u.get(0b1000, 0x141), Some(0x41));
    assert_eq!(u.get(0b1110, 0x62), Some(0x62));
    assert_eq!(u.get(0b0110, 0x62), None);
}

#[test]
fn uart_transmit() {
    let mut u = Uart::new(0x0250_0000);
    assert!(Uart::tx_ready(0b10));
    assert!(!Uart::tx_ready(0b1101));
    let plan = u.put(b'a');
    assert_eq!(plan.wait, RegPoll { addr: 0x0250_007c, mask: 0b10, until_set: true });
    assert!(!plan.wait.is_done(0b1101));
    assert!(plan.wait.is_done(0b0010));
    assert_eq!(plan.store, ByteWrite { addr: 0x0250_0000, value: b'a' });
    assert_eq!(u.send_when_ready(0b1101, b'a'), None);
    assert_eq!(u.send_when_ready(0b0010, b'a'), Some(ByteWrite { addr: 0x0250_0000, value: b'a' }));
}

#[test]
fn uart_write_str_inserts_carriage_return() {
    let mut u = Uart::new(0x0250_0000);
    assert_eq!(u.write_str("a\nb"), vec![b'a', 13, 10, b'b']);
    assert_eq!(u.write_str("\n\n"), vec![13, 10, 13, 10]);
    assert_eq!(u.write_str(""), Vec::<u8>::new());
    assert_eq!(u.write_str("\u{e9}"), vec![0xc3, 0xa9]);
    let s = u.write_str("Uart writing test !\n");
    assert_eq!(s.len(), "Uart writing test !\n".len() + 1);
}

#[test]
fn uart_write_str_concatenation() {
    let mut u = Uart::new(0x0250_0000);
    let mut parts = u.write_str("x\ny");
    parts.extend(u.write_str("\nz"));
    assert_eq!(parts, u.write_str("x\ny\nz"));
    for (i, b) in parts.iter().enumerate() {
        if *b == 10 {
            assert_eq!(parts[i - 1], 13);
        }
    }
}

#[test]
fn uart_echo() {
    assert_eq!(handle_interrupt(Some(0x7f)), vec!['\u{8}', ' ', '\u{8}']);
    assert_eq!(handle_interrupt(Some(13)), vec!['\n']);
    assert_eq!(handle_interrupt(Some(10)), vec!['\n']);
    assert_eq!(handle_interrupt(Some(b'x')), vec!['x']);
    assert_eq!(handle_interrupt(Some(0xe9)), vec!['\u{e9}']);
    assert_eq!(handle_interrupt(None), Vec::<char>::new());
}

#[test]
fn uart_divisor_written_under_dlab() {
    let base = 0x1000_0000usize;
    let mut u = Uart::new(base);
    let plan = u.init();
    let prog: Vec<RegWrite> = plan.before.iter().chain(plan.after.iter()).copied().collect();
    let mut dlab = false;
    for w in &prog {
        if w.addr == base || w.addr == base + 4 {
            let divisor_store = w.value == 13 || (w.addr == base + 4 && dlab);
            if divisor_store {
                assert!(dlab);
            }
        }
        if w.addr == base + 12 {
            dlab = w.value & 0x80 != 0;
        }
    }
    assert!(!dlab);
    assert_eq!(prog[4], w(base, 13));
    assert_eq!(prog[11], w(base + 4, 1));
}

#[test]
fn uart_write_str_strips_back() {
    let mut u = Uart::new(0x0250_0000);
    for text in ["a\nb", "\r\n", "\n\n\r", "plain", ""] {
        let sent = u.write_str(text);
        let mut back: Vec<u8> = Vec::new();
        let mut i = 0;
        while i < sent.len() {
            if i + 1 < sent.len() && sent[i] == 13 && sent[i + 1] == 10 {
                back.push(10);
                i += 2;
            } else {
                back.push(sent[i]);
                i += 1;
            }
        }
        assert_eq!(back, text.as_bytes().to_vec());
    }
}
