use rvkernel::consts::{layout, Board, MemoryLayout};
use rvkernel::init::{console_echo, free_memory, heap_region, print_hex_dump};

#[test]
fn board_layouts() {
    assert_eq!(
        layout(Board::QemuVirt),
        MemoryLayout {
            physical_memory_end: 0x8800_0000,
            kernel_begin_paddr: 0x8020_0000,
            kernel_begin_vaddr: 0x8020_0000,
            plic_base: 0x0c00_0000,
            uart_base: 0x1000_0000,
        }
    );
    assert_eq!(layout(Board::D1).uart_base, 0x0250_0000);
    assert_eq!(layout(Board::D1).physical_memory_end, 0x5002_0000);
    assert_eq!(layout(Board::Fu740).uart_base, 0x1001_0000);
    for b in [Board::D1, Board::Fu740, Board::QemuVirt] {
        let l = layout(b);
        assert_eq!(l.kernel_begin_vaddr, l.kernel_begin_paddr);
    }
}

#[test]
fn heap_and_free_memory() {
    let l = layout(Board::QemuVirt);
    assert_eq!(heap_region(&l, 0x8040_0000), (0x8040_0000, 0x07c0_0000));
    assert_eq!(free_memory(&l, 0x8040_0000), (0x8040_0000, 0x8800_0000));
    assert_eq!(heap_region(&l, 0x8800_0000), (0x8800_0000, 0));
}

#[test]
fn console_echo_bytes() {
    assert_eq!(console_echo(0x7f), vec!['\u{8}', ' ', '\u{8}']);
    assert_eq!(console_echo(0x8), vec!['\u{8}', ' ', '\u{8}']);
    assert_eq!(console_echo(10), vec!['\n']);
    assert_eq!(console_echo(13), vec!['\n']);
    assert_eq!(console_echo(0x1b).iter().collect::<String>(), format!("{{{:#x}}}", 0x1b));
    assert_eq!(console_echo(0x5b).iter().collect::<String>(), format!("{{{:#x}}}", 0x5b));
    assert_eq!(console_echo(b'q'), vec!['q']);
}

#[test]
fn hex_dump_rows() {
    let buf: Vec<u8> = (0u8..20).map(|b| b + 0x40).collect();
    let rows = print_hex_dump(&buf, 32);
    assert_eq!(rows.len(), 2);
    assert_eq!(rows[0].bytes, buf[0..16].to_vec());
    assert_eq!(rows[0].text, buf[0..16].iter().map(|b| *b as char).collect::<Vec<char>>());
    let mut second = buf[16..20].to_vec();
    second.extend([0u8; 12]);
    assert_eq!(rows[1].bytes, second);
    assert_eq!(rows[1].text, vec!['P', 'Q', 'R', 'S']);
}

#[test]
fn hex_dump_partial_and_empty() {
    let buf = [0xffu8, 0x00, 0x41];
    assert_eq!(print_hex_dump(&buf, 0).len(), 0);
    let rows = print_hex_dump(&buf, 2);
    assert_eq!(rows.len(), 1);
    assert_eq!(rows[0].bytes, vec![0xff, 0x00]);
    assert_eq!(rows[0].text, vec!['\u{ff}', '\u{0}']);
    let rows = print_hex_dump(&buf, 17);
    assert_eq!(rows.len(), 2);
    assert_eq!(rows[1].bytes, vec![0]);
    assert_eq!(rows[1].text, Vec::<char>::new());
    assert_eq!(rows[0].text.len(), 3);
}

#[test]
fn hex_dump_covers_every_position() {
    let buf: Vec<u8> = (0u8..37).collect();
    for len in [1usize, 15, 16, 17, 37, 40, 64] {
        let rows = print_hex_dump(&buf, len);
        assert_eq!(rows.len(), (len + 15) / 16);
        for i in 0..len {
            let shown = if i < buf.len() { buf[i] } else { 0 };
            assert_eq!(rows[i / 16].bytes[i % 16], shown);
        }
        let total: usize = rows.iter().map(|r| r.bytes.len()).sum();
        assert_eq!(total, len);
    }
}
