//! Reading and writing brightness values as text, and matching device names.

use vstd::prelude::*;
use vstd::string::*;

verus! {

/// Whether `c` is white space, as Unicode defines it.
pub open spec fn is_space(c: char) -> bool {
    let n = c as u32;
    ||| 0x09 <= n <= 0x0D
    ||| n == 0x20
    ||| n == 0x85
    ||| n == 0xA0
    ||| n == 0x1680
    ||| 0x2000 <= n <= 0x200A
    ||| n == 0x2028
    ||| n == 0x2029
    ||| n == 0x202F
    ||| n == 0x205F
    ||| n == 0x3000
}

/// The first index from `i` on at which `s` holds no white space, or the
/// length of `s`.
pub open spec fn skip_spaces(s: Seq<char>, i: int) -> int
    decreases s.len() - i,
{
    if 0 <= i < s.len() && is_space(s[i]) {
        skip_spaces(s, i + 1)
    } else {
        i
    }
}

/// The end of `s` once the white space before index `j` is dropped, going
/// no further down than `lo`.
pub open spec fn drop_spaces(s: Seq<char>, lo: int, j: int) -> int
    decreases j - lo,
{
    if lo < j <= s.len() && is_space(s[j - 1]) {
        drop_spaces(s, lo, j - 1)
    } else {
        j
    }
}

/// `s` without the white space at its two ends.
pub open spec fn trimmed(s: Seq<char>) -> Seq<char> {
    let lo = skip_spaces(s, 0);
    s.subrange(lo, drop_spaces(s, lo, s.len() as int))
}

pub open spec fn is_digit(c: char) -> bool {
    '0' <= c <= '9'
}

pub open spec fn all_digits(s: Seq<char>) -> bool {
    forall|i: int| 0 <= i < s.len() ==> is_digit(#[trigger] s[i])
}

/// The number that the decimal digits `s` write.
pub open spec fn digits_value(s: Seq<char>) -> nat
    decreases s.len(),
{
    if s.len() == 0 {
        0
    } else {
        (digits_value(s.drop_last()) * 10 + (s.last() as u32 - '0' as u32)) as nat
    }
}

/// `s` without one leading plus sign.
pub open spec fn unsigned_part(s: Seq<char>) -> Seq<char> {
    if s.len() > 0 && s[0] == '+' {
        s.drop_first()
    } else {
        s
    }
}

/// The brightness that the text `s` holds: a decimal number that fits in
/// `u32`, with white space allowed around it and a plus sign before it.
pub open spec fn parsed(s: Seq<char>) -> Option<u32> {
    let body = unsigned_part(trimmed(s));
    if body.len() > 0 && all_digits(body) && digits_value(body) <= u32::MAX {
        Some(digits_value(body) as u32)
    } else {
        None
    }
}

fn space(c: char) -> (r: bool)
    ensures
        r == is_space(c),
{
    let n: u32 = c as u32;
    (0x09 <= n && n <= 0x0D) || n == 0x20 || n == 0x85 || n == 0xA0 || n == 0x1680 || (0x2000 <= n
        && n <= 0x200A) || n == 0x2028 || n == 0x2029 || n == 0x202F || n == 0x205F || n == 0x3000
}

/// Reads a brightness value from the text of a device file.
pub fn parse_value(text: &str) -> (r: Option<u32>)
    ensures
        r == parsed(text@),
{
    let len: usize = text.unicode_len();
    let mut lo: usize = 0;
    while lo < len && space(text.get_char(lo))
        invariant
            lo <= len == text@.len(),
            skip_spaces(text@, 0) == skip_spaces(text@, lo as int),
        decreases len - lo,
    {
        lo += 1;
    }
    let mut hi: usize = len;
    while lo < hi && space(text.get_char(hi - 1))
        invariant
            lo <= hi <= len == text@.len(),
            drop_spaces(text@, lo as int, len as int) == drop_spaces(text@, lo as int, hi as int),
        decreases hi,
    {
        hi -= 1;
    }
    assert(trimmed(text@) == text@.subrange(lo as int, hi as int));
    let mut at: usize = lo;
    if at < hi && text.get_char(at) == '+' {
        at += 1;
    }
    let ghost body = text@.subrange(at as int, hi as int);
    assert(body =~= unsigned_part(trimmed(text@)));
    if at == hi {
        return None;
    }
    let start: usize = at;
    let mut acc: u64 = 0;
    let mut over: bool = false;
    while at < hi
        invariant
            start <= at <= hi <= len == text@.len(),
            body == text@.subrange(start as int, hi as int),
            body == unsigned_part(trimmed(text@)),
            all_digits(body.subrange(0, at - start)),
            over ==> digits_value(body.subrange(0, at - start)) > u32::MAX,
            !over ==> acc == digits_value(body.subrange(0, at - start)),
            acc <= u32::MAX,
        decreases hi - at,
    {
        let c: char = text.get_char(at);
        let ghost before = body.subrange(0, at - start);
        let ghost after = body.subrange(0, at - start + 1);
        assert(after.drop_last() =~= before);
        assert(after.last() == c);
        if !(c >= '0' && c <= '9') {
            assert(body[at - start] == c);
            assert(!is_digit(body[at - start]));
            assert(!all_digits(body));
            return None;
        }
        let d: u64 = (c as u32 - '0' as u32) as u64;
        let next: u64 = acc * 10 + d;
        if over || next > 0xFFFF_FFFF {
            over = true;
            acc = 0;
        } else {
            acc = next;
        }
        at += 1;
    }
    assert(body.subrange(0, at - start) =~= body);
    if over {
        None
    } else {
        Some(acc as u32)
    }
}

/// The character that writes the digit `d`.
pub open spec fn digit_char(d: nat) -> char {
    if d == 0 {
        '0'
    } else if d == 1 {
        '1'
    } else if d == 2 {
        '2'
    } else if d == 3 {
        '3'
    } else if d == 4 {
        '4'
    } else if d == 5 {
        '5'
    } else if d == 6 {
        '6'
    } else if d == 7 {
        '7'
    } else if d == 8 {
        '8'
    } else {
        '9'
    }
}

/// The decimal digits of `n`, without leading zeros.
pub open spec fn decimal(n: nat) -> Seq<char>
    decreases n,
{
    if n < 10 {
        seq![digit_char(n)]
    } else {
        decimal(n / 10).push(digit_char(n % 10))
    }
}

fn digit_text(d: u32) -> (r: &'static str)
    requires
        d < 10,
    ensures
        r@ == seq![digit_char(d as nat)],
{
    proof {
        reveal_strlit("0");
        reveal_strlit("1");
        reveal_strlit("2");
        reveal_strlit("3");
        reveal_strlit("4");
        reveal_strlit("5");
        reveal_strlit("6");
        reveal_strlit("7");
        reveal_strlit("8");
        reveal_strlit("9");
    }
    let r = if d == 0 {
        "0"
    } else if d == 1 {
        "1"
    } else if d == 2 {
        "2"
    } else if d == 3 {
        "3"
    } else if d == 4 {
        "4"
    } else if d == 5 {
        "5"
    } else if d == 6 {
        "6"
    } else if d == 7 {
        "7"
    } else if d == 8 {
        "8"
    } else {
        "9"
    };
    assert(r@ =~= seq![digit_char(d as nat)]);
    r
}

/// Writes a brightness value as the text that goes into a device file: its
/// decimal digits and nothing else.
pub fn decimal_text(value: u32) -> (r: String)
    ensures
        r@ == decimal(value as nat),
    decreases value,
{
    if value < 10 {
        String::from_str(digit_text(value))
    } else {
        let mut text = decimal_text(value / 10);
        text.append(digit_text(value % 10));
        assert(text@ =~= decimal(value as nat));
        text
    }
}

/// The digits written for a number are digits, and they write that number.
pub proof fn lemma_decimal_digits(n: nat)
    ensures
        decimal(n).len() > 0,
        all_digits(decimal(n)),
        digits_value(decimal(n)) == n,
        !is_space(decimal(n)[0]),
        !is_space(decimal(n).last()),
        decimal(n)[0] != '+',
    decreases n,
{
    if n < 10 {
        assert(decimal(n).drop_last() =~= Seq::<char>::empty());
        assert(digits_value(decimal(n).drop_last()) == 0);
    } else {
        lemma_decimal_digits(n / 10);
        assert(decimal(n).drop_last() =~= decimal(n / 10));
    }
}

/// What is written can be read back: the text written for a brightness value
/// parses to that value.
pub proof fn lemma_written_value_is_read_back(value: u32)
    ensures
        parsed(decimal(value as nat)) == Some(value),
{
    let s = decimal(value as nat);
    lemma_decimal_digits(value as nat);
    assert(skip_spaces(s, 0) == 0);
    assert(drop_spaces(s, 0, s.len() as int) == s.len());
    assert(trimmed(s) =~= s);
}

/// The lower-case form of an ASCII capital; any other character itself.
pub open spec fn folded(c: char) -> char {
    if 'A' <= c <= 'Z' {
        ((c as u8) + 32) as char
    } else {
        c
    }
}

/// Whether `pattern` stands in `s` at index `i`, capitals in `s` read as
/// their lower-case letters.
pub open spec fn matches_at(s: Seq<char>, pattern: Seq<char>, i: int) -> bool {
    &&& 0 <= i
    &&& i + pattern.len() <= s.len()
    &&& forall|k: int| 0 <= k < pattern.len() ==> folded(#[trigger] s[i + k]) == pattern[k]
}

/// Whether `pattern` occurs somewhere in `s`, whatever the case of the
/// ASCII letters of `s`.
pub open spec fn contains_folded(s: Seq<char>, pattern: Seq<char>) -> bool {
    exists|i: int| matches_at(s, pattern, i)
}

fn fold(c: char) -> (r: char)
    ensures
        r == folded(c),
{
    if c >= 'A' && c <= 'Z' {
        ((c as u8) + 32) as char
    } else {
        c
    }
}

fn match_here(s: &str, pattern: &str, i: usize, s_len: usize, p_len: usize) -> (r: bool)
    requires
        s_len == s@.len(),
        p_len == pattern@.len(),
        i + p_len <= s_len,
    ensures
        r == matches_at(s@, pattern@, i as int),
{
    let mut k: usize = 0;
    while k < p_len
        invariant
            k <= p_len == pattern@.len(),
            s_len == s@.len(),
            i + p_len <= s_len,
            forall|j: int| 0 <= j < k ==> folded(#[trigger] s@[i + j]) == pattern@[j],
        decreases p_len - k,
    {
        if fold(s.get_char(i + k)) != pattern.get_char(k) {
            assert(folded(s@[i + k]) != pattern@[k as int]);
            return false;
        }
        k += 1;
    }
    true
}

/// Looks for `pattern` in `s` without regard to the case of ASCII letters in
/// `s`. The pattern is taken as it is, so it is written in lower case.
pub fn contains_ignore_case(s: &str, pattern: &str) -> (r: bool)
    ensures
        r == contains_folded(s@, pattern@),
{
    let s_len: usize = s.unicode_len();
    let p_len: usize = pattern.unicode_len();
    if p_len > s_len {
        assert(forall|i: int| !matches_at(s@, pattern@, i));
        return false;
    }
    let mut i: usize = 0;
    while i <= s_len - p_len
        invariant
            s_len == s@.len(),
            p_len == pattern@.len(),
            p_len <= s_len,
            i <= s_len - p_len + 1,
            forall|j: int| 0 <= j < i ==> !matches_at(s@, pattern@, j),
        decreases s_len - p_len + 1 - i,
    {
        if match_here(s, pattern, i, s_len, p_len) {
            return true;
        }
        i += 1;
    }
    assert(forall|j: int| !matches_at(s@, pattern@, j));
    false
}

} // verus!
