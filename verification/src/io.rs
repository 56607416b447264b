//! Console input and output through the SBI console calls.
use vstd::prelude::*;
use crate::sbi::{console_putchar, call, SbiCall, SBI_CONSOLE_PUTCHAR};

verus! {

/// The byte of the console that a character is written as: its code
/// point truncated to the low eight bits.
pub open spec fn char_byte(ch: char) -> u8 {
    (ch as u32 % 256) as u8
}

/// The SBI call that writes `ch` to the console.
pub open spec fn putchar_call(ch: char) -> SbiCall {
    call(SBI_CONSOLE_PUTCHAR, char_byte(ch) as usize, 0, 0)
}

/// The SBI calls that write the characters of `s`, one per character, in
/// order.
pub open spec fn puts_calls(s: Seq<char>) -> Seq<SbiCall> {
    s.map_values(|ch: char| putchar_call(ch))
}

/// The byte that a console-read reply stands for: none when the reply is
/// negative, otherwise its low eight bits.
pub open spec fn getchar_of(reply: isize) -> Option<u8> {
    if reply < 0 {
        None
    } else {
        Some((reply % 256) as u8)
    }
}

/// Decode the reply of the console-read call: a negative reply means that
/// no byte is waiting; otherwise the byte is the low eight bits of the reply.
pub fn getchar(reply: isize) -> (r: Option<u8>)
    ensures
        r == getchar_of(reply),
        reply < 0 <==> r is None,
{
    let c = reply;
    if c < 0 {
        None
    } else {
        let b = (c & 0xff) as u8;
        assert(c & 0xff == c % 256) by (bit_vector)
            requires
                c >= 0,
        ;
        Some(b)
    }
}

/// The call that writes the character `ch`, truncated to one byte.
pub fn putchar(ch: char) -> (r: SbiCall)
    ensures
        r == putchar_call(ch),
        r == (SbiCall { which: SBI_CONSOLE_PUTCHAR, arg0: (ch as u32 % 256) as usize, arg1: 0, arg2: 0 }),
{
    let code: u32 = ch as u32;
    let b: u8 = (code & 0xff) as u8;
    assert(code & 0xff == code % 256) by (bit_vector);
    console_putchar(b as usize)
}

/// The calls that write each character of `s` in turn.
pub fn puts(s: &str) -> (r: Vec<SbiCall>)
    ensures
        r@ == puts_calls(s@),
        r@.len() == s@.len(),
        forall|i: int|
            0 <= i < s@.len() ==> #[trigger] r@[i] == (SbiCall {
                which: SBI_CONSOLE_PUTCHAR,
                arg0: (s@[i] as u32 % 256) as usize,
                arg1: 0,
                arg2: 0,
            }),
{
    let mut out: Vec<SbiCall> = Vec::new();
    for ch in it: s.chars()
        invariant
            it.seq() == s@,
            out@ == puts_calls(s@.take(it.index() as int)),
    {
        proof {
            assert(s@.take(it.index() + 1) =~= s@.take(it.index() as int).push(ch));
        }
        out.push(putchar(ch));
    }
    proof {
        assert(s@.take(s@.len() as int) =~= s@);
    }
    out
}

/// Echo: a byte that the console returns, written back as the character of
/// that code, is sent as the same byte.
pub proof fn lemma_echo_round_trip(b: u8)
    ensures
        getchar_of(b as isize) == Some(b),
        putchar_call(b as char) == call(SBI_CONSOLE_PUTCHAR, b as usize, 0, 0),
{
}

/// One call per character, in order: the calls for `s` are as many as its
/// characters, and the `i`-th writes the low byte of the `i`-th character.
pub proof fn lemma_puts_one_call_per_char(s: Seq<char>)
    ensures
        puts_calls(s).len() == s.len(),
        forall|i: int|
            0 <= i < s.len() ==> #[trigger] puts_calls(s)[i] == (SbiCall {
                which: 1,
                arg0: (s[i] as u32 % 256) as usize,
                arg1: 0,
                arg2: 0,
            }),
{
}

/// Writing two strings one after the other sends the same calls as writing
/// their concatenation.
pub proof fn lemma_puts_concat(a: Seq<char>, b: Seq<char>)
    ensures
        puts_calls(a + b) == puts_calls(a) + puts_calls(b),
{
    assert(puts_calls(a + b) =~= puts_calls(a) + puts_calls(b));
}

} // verus!
