//! Text that the bindings hand to the game: decimal numbers and strings
//! made safe to pass as C strings.
use vstd::prelude::*;
use vstd::string::StringSliceAdditionalSpecFns;
use vstd::utf8::*;

verus! {

/// The decimal digit for `d < 10`.
pub open spec fn digit_char(d: nat) -> char {
    if d == 0 {
        '0'
    } else if d == 1 {
        '1'
    } else if d == 2 {
        '2'
    } else if d == 3 {
        '3'
    } else if d == 4 {
        '4'
    } else if d == 5 {
        '5'
    } else if d == 6 {
        '6'
    } else if d == 7 {
        '7'
    } else if d == 8 {
        '8'
    } else {
        '9'
    }
}

/// The decimal notation of `n`, without leading zeros.
pub open spec fn decimal(n: nat) -> Seq<char>
    decreases n,
{
    if n < 10 {
        seq![digit_char(n)]
    } else {
        decimal(n / 10) + seq![digit_char(n % 10)]
    }
}

fn digit_str(d: usize) -> (s: &'static str)
    requires
        d < 10,
    ensures
        s@ == seq![digit_char(d as nat)],
{
    proof {
        reveal_strlit("0");
        reveal_strlit("1");
        reveal_strlit("2");
        reveal_strlit("3");
        reveal_strlit("4");
        reveal_strlit("5");
        reveal_strlit("6");
        reveal_strlit("7");
        reveal_strlit("8");
        reveal_strlit("9");
    }
    match d {
        0 => "0",
        1 => "1",
        2 => "2",
        3 => "3",
        4 => "4",
        5 => "5",
        6 => "6",
        7 => "7",
        8 => "8",
        _ => "9",
    }
}

/// Appends the decimal notation of `n` to `out`.
pub fn push_decimal(out: &mut String, n: usize)
    ensures
        final(out)@ == old(out)@ + decimal(n as nat),
    decreases n,
{
    if n >= 10 {
        push_decimal(out, n / 10);
    }
    out.append(digit_str(n % 10));
}

/// The decimal notation of `n`.
pub fn to_decimal(n: usize) -> (s: String)
    ensures
        s@ == decimal(n as nat),
{
    let mut s = String::new();
    push_decimal(&mut s, n);
    s
}

/// The bytes of `bytes` up to, and not including, its first zero byte.
pub open spec fn up_to_nul(bytes: Seq<u8>) -> Seq<u8>
    decreases bytes.len(),
{
    if bytes.len() == 0 {
        bytes
    } else if bytes[0] == 0 {
        Seq::empty()
    } else {
        seq![bytes[0]] + up_to_nul(bytes.drop_first())
    }
}

proof fn lemma_up_to_nul_prefix(bytes: Seq<u8>, i: int)
    requires
        0 <= i <= bytes.len(),
        forall|j: int| 0 <= j < i ==> bytes[j] != 0,
    ensures
        up_to_nul(bytes) == bytes.take(i) + up_to_nul(bytes.skip(i)),
    decreases i,
{
    if i > 0 {
        lemma_up_to_nul_prefix(bytes.drop_first(), i - 1);
        assert(bytes.drop_first().take(i - 1) =~= bytes.take(i).drop_first());
        assert(bytes.drop_first().skip(i - 1) =~= bytes.skip(i));
        assert(bytes.take(i) =~= seq![bytes[0]] + bytes.take(i).drop_first());
    } else {
        assert(bytes.take(0) + bytes.skip(0) =~= bytes);
        assert(bytes.skip(0) =~= bytes);
    }
}

/// The bytes of a message that can be passed to the game as a C string:
/// the message is cut at its first NUL character, if it has one.
pub fn truncated_cstring(s: &str) -> (bytes: Vec<u8>)
    ensures
        bytes@ == up_to_nul(s.spec_bytes()),
        forall|i: int| 0 <= i < bytes@.len() ==> bytes@[i] != 0,
        bytes@.len() <= s.spec_bytes().len(),
        bytes@ == s.spec_bytes().take(bytes@.len() as int),
        bytes@.len() < s.spec_bytes().len() ==> s.spec_bytes()[bytes@.len() as int] == 0,
{
    let src = s.as_bytes();
    let mut out: Vec<u8> = Vec::new();
    let mut i: usize = 0;
    while i < src.len() && src[i] != 0
        invariant
            i <= src@.len(),
            out@ == src@.take(i as int),
            forall|j: int| 0 <= j < i ==> src@[j] != 0,
        decreases src@.len() - i,
    {
        assert(src@.take(i + 1) =~= src@.take(i as int).push(src@[i as int]));
        out.push(src[i]);
        i = i + 1;
    }
    proof {
        lemma_up_to_nul_prefix(src@, i as int);
        if i < src@.len() {
            assert(src@.skip(i as int)[0] == 0);
        } else {
            assert(src@.skip(i as int).len() == 0);
        }
        assert(out@ + Seq::<u8>::empty() =~= out@);
    }
    out
}


/// The length of the UTF-8 encoded scalar that starts at `bytes[i]`, or `0`
/// if no well-formed encoding of a scalar starts there.
fn first_scalar_len(bytes: &[u8], i: usize) -> (r: usize)
    requires
        i < bytes@.len(),
    ensures
        r == 0 <==> !valid_first_scalar(bytes@.subrange(i as int, bytes@.len() as int)),
        r != 0 ==> 1 <= r <= 4 && i + r <= bytes@.len() && r == length_of_first_scalar(
            bytes@.subrange(i as int, bytes@.len() as int),
        ),
{
    let ghost rest = bytes@.subrange(i as int, bytes@.len() as int);
    let n = bytes.len();
    let b0 = bytes[i];
    assert(rest[0] == b0);
    if b0 <= 0x7Fu8 {
        return 1;
    }
    if 0xC0u8 <= b0 && b0 <= 0xDFu8 {
        if n - i < 2 {
            return 0;
        }
        let b1 = bytes[i + 1];
        assert(rest[1] == b1);
        if !(0x80u8 <= b1 && b1 <= 0xBFu8) {
            return 0;
        }
        let cp: u32 = (((b0 & 0x1Fu8) as u32) << 6u32) | ((b1 & 0x3Fu8) as u32);
        assert(cp == decode_first_codepoint(rest));
        if cp < 0x80u32 || (0xD800u32 <= cp && cp <= 0xDFFFu32) {
            return 0;
        }
        return 2;
    }
    if 0xE0u8 <= b0 && b0 <= 0xEFu8 {
        if n - i < 3 {
            return 0;
        }
        let b1 = bytes[i + 1];
        let b2 = bytes[i + 2];
        assert(rest[1] == b1 && rest[2] == b2);
        if !(0x80u8 <= b1 && b1 <= 0xBFu8) || !(0x80u8 <= b2 && b2 <= 0xBFu8) {
            return 0;
        }
        let cp: u32 = (((b0 & 0x0Fu8) as u32) << 12u32) | (((b1 & 0x3Fu8) as u32) << 6u32) | ((b2
            & 0x3Fu8) as u32);
        assert(cp == decode_first_codepoint(rest));
        if cp < 0x800u32 || (0xD800u32 <= cp && cp <= 0xDFFFu32) {
            return 0;
        }
        return 3;
    }
    if 0xF0u8 <= b0 && b0 <= 0xF7u8 {
        if n - i < 4 {
            return 0;
        }
        let b1 = bytes[i + 1];
        let b2 = bytes[i + 2];
        let b3 = bytes[i + 3];
        assert(rest[1] == b1 && rest[2] == b2 && rest[3] == b3);
        if !(0x80u8 <= b1 && b1 <= 0xBFu8) || !(0x80u8 <= b2 && b2 <= 0xBFu8) || !(0x80u8 <= b3
            && b3 <= 0xBFu8) {
            return 0;
        }
        let cp: u32 = (((b0 & 0x07u8) as u32) << 18u32) | (((b1 & 0x3Fu8) as u32) << 12u32) | (((b2
            & 0x3Fu8) as u32) << 6u32) | ((b3 & 0x3Fu8) as u32);
        assert(cp == decode_first_codepoint(rest));
        if cp < 0x10000u32 || cp > 0x10FFFFu32 || (0xD800u32 <= cp && cp <= 0xDFFFu32) {
            return 0;
        }
        return 4;
    }
    0
}

/// Whether `bytes` is well-formed UTF-8.
pub fn is_valid_utf8(bytes: &[u8]) -> (r: bool)
    ensures
        r == valid_utf8(bytes@),
{
    let n = bytes.len();
    let mut i: usize = 0;
    assert(bytes@.subrange(0, n as int) =~= bytes@);
    while i < n
        invariant
            n == bytes@.len(),
            i <= n,
            valid_utf8(bytes@) == valid_utf8(bytes@.subrange(i as int, n as int)),
        decreases n - i,
    {
        let ghost rest = bytes@.subrange(i as int, n as int);
        let len = first_scalar_len(bytes, i);
        if len == 0 {
            return false;
        }
        proof {
            assert(pop_first_scalar(rest) =~= bytes@.subrange(i + len, n as int));
        }
        i = i + len;
    }
    assert(bytes@.subrange(n as int, n as int).len() == 0);
    true
}

/// The line that is passed to the game's log for a buffer written by a
/// logging framework: `None` if the buffer is not well-formed UTF-8, else
/// its bytes up to the first NUL.
pub fn log_line(buf: &[u8]) -> (line: Option<Vec<u8>>)
    ensures
        line is None <==> !valid_utf8(buf@),
        line matches Some(l) ==> l@ == up_to_nul(buf@),
{
    if !is_valid_utf8(buf) {
        return None;
    }
    let mut out: Vec<u8> = Vec::new();
    let mut i: usize = 0;
    while i < buf.len() && buf[i] != 0
        invariant
            i <= buf@.len(),
            out@ == buf@.take(i as int),
            forall|j: int| 0 <= j < i ==> buf@[j] != 0,
        decreases buf@.len() - i,
    {
        assert(buf@.take(i + 1) =~= buf@.take(i as int).push(buf@[i as int]));
        out.push(buf[i]);
        i = i + 1;
    }
    proof {
        lemma_up_to_nul_prefix(buf@, i as int);
        if i < buf@.len() {
            assert(buf@.skip(i as int)[0] == 0);
        } else {
            assert(buf@.skip(i as int).len() == 0);
        }
        assert(out@ + Seq::<u8>::empty() =~= out@);
    }
    Some(out)
}

} // verus!
