//! Boot-time computations: the heap and free memory ranges, the console
//! echo and the hex dump layout.
use vstd::prelude::*;
use crate::consts::MemoryLayout;

verus! {

/// Page size used for DMA buffers.
pub const PAGE_SIZE: usize = 4096;

/// Bytes shown per hex dump row.
pub const HEX_ROW: usize = 16;

/// One row of a hex dump: the byte values shown (0 past the end of the
/// buffer), and the characters of the bytes that are in the buffer.
pub struct HexRow {
    pub bytes: Vec<u8>,
    pub text: Vec<char>,
}

/// The heap: from the end of the kernel image `end` to the end of physical
/// memory, as (start, size).
pub fn heap_region(layout: &MemoryLayout, end: usize) -> (r: (usize, usize))
    requires
        end <= layout.physical_memory_end,
    ensures
        r.0 == end,
        r.0 + r.1 == layout.physical_memory_end,
{
    (end, layout.physical_memory_end - end)
}

/// The free physical memory: from the physical address of the kernel end
/// `end` (a virtual address) to the end of physical memory, as a half-open
/// range.
pub fn free_memory(layout: &MemoryLayout, end: usize) -> (r: (usize, usize))
    requires
        layout.kernel_begin_paddr <= layout.kernel_begin_vaddr,
        layout.kernel_begin_vaddr - layout.kernel_begin_paddr <= end,
    ensures
        r.0 == end - (layout.kernel_begin_vaddr - layout.kernel_begin_paddr),
        r.1 == layout.physical_memory_end,
{
    (end - (layout.kernel_begin_vaddr - layout.kernel_begin_paddr), layout.physical_memory_end)
}

/// What the console loop shows for an input byte.
pub open spec fn console_echo_of(c: u8) -> Seq<char> {
    if c == 0x7f || c == 0x8 {
        seq!['\u{8}', ' ', '\u{8}']
    } else if c == 10 || c == 13 {
        seq!['\n']
    } else if c == 0x1b {
        seq!['{', '0', 'x', '1', 'b', '}']
    } else if c == 0x5b {
        seq!['{', '0', 'x', '5', 'b', '}']
    } else {
        seq![c as char]
    }
}

/// What the console loop shows for an input byte: delete and backspace
/// erase the last character, carriage return and newline start a line,
/// the two bytes that start an ANSI escape are shown in hex between
/// braces, and any other byte is shown as the character of that code.
pub fn console_echo(c: u8) -> (r: Vec<char>)
    ensures
        r@ == console_echo_of(c),
        c != 0x7f && c != 0x8 && c != 10 && c != 13 && c != 0x1b && c != 0x5b ==> r@ == seq![
            c as char,
        ],
        c == 10 || c == 13 ==> r@ == seq!['\n'],
        c == 0x7f || c == 0x8 ==> r@ == seq!['\u{8}', ' ', '\u{8}'],
        c == 0x1b ==> r@ == seq!['{', '0', 'x', '1', 'b', '}'],
        c == 0x5b ==> r@ == seq!['{', '0', 'x', '5', 'b', '}'],
{
    let mut out: Vec<char> = Vec::new();
    if c == 0x7f || c == 0x8 {
        assert((8u8 as char) == '\u{8}');
        out.push(8u8 as char);
        out.push(' ');
        out.push(8u8 as char);
    } else if c == 10 || c == 13 {
        out.push('\n');
    } else if c == 0x1b || c == 0x5b {
        out.push('{');
        out.push('0');
        out.push('x');
        if c == 0x1b {
            out.push('1');
            out.push('b');
        } else {
            out.push('5');
            out.push('b');
        }
        out.push('}');
    } else {
        out.push(c as char);
    }
    proof {
        assert(out@ =~= console_echo_of(c));
    }
    out
}

/// The console loop shows every byte but the editing and escape ones as
/// the one character of that code, and the code of what it shows is the
/// byte itself.
pub proof fn lemma_console_echo_plain(c: u8)
    requires
        c != 0x7f && c != 0x8 && c != 10 && c != 13 && c != 0x1b && c != 0x5b,
    ensures
        console_echo_of(c) == seq![c as char],
        console_echo_of(c).len() == 1 && console_echo_of(c)[0] as u32 == c as u32,
{
}

/// The number of rows in a dump of `len` bytes.
pub open spec fn row_count(len: nat) -> nat {
    (len + 15) / 16
}

/// The first position past row `k` of a dump of `len` bytes.
pub open spec fn row_end(len: nat, k: nat) -> nat {
    if 16 * k + 16 <= len {
        16 * k + 16
    } else {
        len
    }
}

/// The byte shown at position `i`: the buffer's byte, or 0 past its end.
pub open spec fn shown_byte(buf: Seq<u8>, i: int) -> u8 {
    if i < buf.len() {
        buf[i]
    } else {
        0
    }
}

/// The byte values of row `k`.
pub open spec fn row_bytes(buf: Seq<u8>, len: nat, k: nat) -> Seq<u8> {
    Seq::new((row_end(len, k) - 16 * k) as nat, |j: int| shown_byte(buf, 16 * k + j))
}

/// The characters of row `k`: those of the positions in the buffer.
pub open spec fn row_text(buf: Seq<u8>, len: nat, k: nat) -> Seq<char> {
    let te = if row_end(len, k) <= buf.len() {
        row_end(len, k)
    } else {
        buf.len()
    };
    Seq::new(if te >= 16 * k { (te - 16 * k) as nat } else { 0 }, |j: int| buf[16 * k + j] as char)
}

/// The rows of a hex dump of the first `len` positions of `buf`, sixteen
/// per row; positions past the end of `buf` show 0 and add no character.
pub fn print_hex_dump(buf: &[u8], len: usize) -> (rows: Vec<HexRow>)
    ensures
        rows@.len() == row_count(len as nat),
        forall|k: int|
            0 <= k < rows@.len() ==> (#[trigger] rows@[k]).bytes@ == row_bytes(buf@, len as nat, k as nat),
        forall|k: int|
            0 <= k < rows@.len() ==> (#[trigger] rows@[k]).text@ == row_text(buf@, len as nat, k as nat),
{
    let buf_len = buf.len();
    let nrows: usize = len / 16 + if len % 16 != 0 { 1 } else { 0 };
    assert(nrows == row_count(len as nat));
    let mut rows: Vec<HexRow> = Vec::new();
    let mut k: usize = 0;
    while k < nrows
        invariant
            buf_len == buf@.len(),
            nrows == row_count(len as nat),
            k <= nrows,
            rows@.len() == k,
            forall|r: int|
                0 <= r < k ==> (#[trigger] rows@[r]).bytes@ == row_bytes(buf@, len as nat, r as nat)
                    && rows@[r].text@ == row_text(buf@, len as nat, r as nat),
        decreases nrows - k,
    {
        let start: usize = 16 * k;
        let end: usize = if len - start < 16 { len } else { start + 16 };
        assert(end == row_end(len as nat, k as nat));
        let mut bytes: Vec<u8> = Vec::new();
        let mut text: Vec<char> = Vec::new();
        let mut i: usize = start;
        while i < end
            invariant
                buf_len == buf@.len(),
                start == 16 * k,
                end == row_end(len as nat, k as nat),
                start <= i <= end,
                bytes@ =~= Seq::new((i - start) as nat, |j: int| shown_byte(buf@, start + j)),
                text@ =~= Seq::new(
                    if i <= buf_len { (i - start) as nat } else if buf_len >= start { (buf_len
                        - start) as nat } else { 0 },
                    |j: int| buf@[start + j] as char,
                ),
            decreases end - i,
        {
            if i >= buf_len {
                bytes.push(0);
            } else {
                bytes.push(buf[i]);
                text.push(buf[i] as char);
            }
            i = i + 1;
        }
        let row = HexRow { bytes, text };
        proof {
            assert(row.bytes@ == row_bytes(buf@, len as nat, k as nat));
            assert(row.text@ =~= row_text(buf@, len as nat, k as nat));
        }
        rows.push(row);
        k = k + 1;
    }
    rows
}

/// Every position below `len` is shown exactly once: in row `i / 16`, at
/// place `i % 16`.
pub proof fn lemma_hex_dump_covers(buf: Seq<u8>, len: nat, i: nat)
    requires
        i < len,
    ensures
        i / 16 < row_count(len),
        i % 16 < row_bytes(buf, len, i / 16).len(),
        row_bytes(buf, len, i / 16)[(i % 16) as int] == shown_byte(buf, i as int),
{
}

} // verus!
