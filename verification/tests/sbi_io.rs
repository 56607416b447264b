use rvkernel::io::{getchar, putchar, puts};
use rvkernel::sbi::{
    clear_ipi, console_getchar, console_putchar, console_putchar_u8, send_ipi, set_s_insn,
    set_timer, SbiCall,
};

fn c(which: usize, arg0: usize, arg1: usize, arg2: usize) -> SbiCall {
    SbiCall { which, arg0, arg1, arg2 }
}

#[test]
fn sbi_console_calls() {
    assert_eq!(console_putchar(b'#' as usize), c(1, 35, 0, 0));
    assert_eq!(console_getchar(), c(2, 0, 0, 0));
    assert_eq!(console_putchar_u8(b'X'), c(1, 88, 0, 0));
    assert_eq!(console_putchar_u8(b'\n'), c(1, 10, 0, 0));
}

#[test]
fn sbi_timer_and_ipi_calls() {
    assert_eq!(set_timer(0x1_2345_6789), c(0, 0x1_2345_6789, 0, 0));
    assert_eq!(set_timer(u64::MAX), c(0, usize::MAX, 0, 0));
    assert_eq!(clear_ipi(), c(3, 0, 0, 0));
    assert_eq!(send_ipi(0x8000), c(4, 0x8000, 0, 0));
    assert_eq!(set_s_insn(0x8020_0000), c(100, 0x8020_0000, 0, 0));
}

#[test]
fn getchar_decodes_reply() {
    assert_eq!(getchar(-1), None);
    assert_eq!(getchar(isize::MIN), None);
    assert_eq!(getchar(0), Some(0));
    assert_eq!(getchar(65), Some(b'A'));
    assert_eq!(getchar(0x141), Some(0x41));
}

#[test]
fn putchar_sends_low_byte() {
    assert_eq!(putchar('A'), c(1, 65, 0, 0));
    assert_eq!(putchar('\u{e9}'), c(1, 0xe9, 0, 0));
    assert_eq!(putchar('\u{4e2d}'), c(1, 0x2d, 0, 0));
}

#[test]
fn puts_sends_each_char() {
    assert_eq!(puts("hi\n"), vec![c(1, 104, 0, 0), c(1, 105, 0, 0), c(1, 10, 0, 0)]);
    assert_eq!(puts(""), vec![]);
    assert_eq!(puts("\u{e9}x"), vec![c(1, 0xe9, 0, 0), c(1, 120, 0, 0)]);
}

#[test]
fn puts_concatenation() {
    let mut ab = puts("ab");
    ab.extend(puts("c\u{4e2d}"));
    assert_eq!(ab, puts("abc\u{4e2d}"));
}

#[test]
fn echo_round_trip_every_byte() {
    for b in 0..=255u8 {
        assert_eq!(getchar(b as isize), Some(b));
        assert_eq!(putchar(b as char), c(1, b as usize, 0, 0));
    }
}
