//! Plain text helpers: trimming whitespace, reading decimal integers, and
//! printing integers back as decimal strings.

use vstd::prelude::*;

verus! {

/// The Unicode white-space characters, which trimming removes: the ASCII
/// blanks, next line, no-break space, ogham space mark, the typographic
/// spaces, the line and paragraph separators, narrow no-break space,
/// medium mathematical space, and the ideographic space.
pub open spec fn is_space_char(c: char) -> bool {
    c == ' ' || ('\u{9}' <= c && c <= '\u{d}') || c == '\u{85}' || c == '\u{a0}' || c
        == '\u{1680}' || ('\u{2000}' <= c && c <= '\u{200a}') || c == '\u{2028}' || c
        == '\u{2029}' || c == '\u{202f}' || c == '\u{205f}' || c == '\u{3000}'
}

/// `s` with its leading whitespace removed.
pub open spec fn trim_start_seq(s: Seq<char>) -> Seq<char>
    decreases s.len(),
{
    if s.len() > 0 && is_space_char(s[0]) {
        trim_start_seq(s.drop_first())
    } else {
        s
    }
}

/// `s` with its trailing whitespace removed.
pub open spec fn trim_end_seq(s: Seq<char>) -> Seq<char>
    decreases s.len(),
{
    if s.len() > 0 && is_space_char(s.last()) {
        trim_end_seq(s.drop_last())
    } else {
        s
    }
}

/// `s` with whitespace removed at both ends.
pub open spec fn trim_seq(s: Seq<char>) -> Seq<char> {
    trim_end_seq(trim_start_seq(s))
}

fn is_space(c: char) -> (r: bool)
    ensures
        r == is_space_char(c),
{
    c == ' ' || ('\u{9}' <= c && c <= '\u{d}') || c == '\u{85}' || c == '\u{a0}' || c
        == '\u{1680}' || ('\u{2000}' <= c && c <= '\u{200a}') || c == '\u{2028}' || c
        == '\u{2029}' || c == '\u{202f}' || c == '\u{205f}' || c == '\u{3000}'
}

proof fn lemma_trim_start_step(s: Seq<char>, lo: int)
    requires
        0 <= lo < s.len(),
        is_space_char(s[lo]),
    ensures
        trim_start_seq(s.subrange(lo, s.len() as int))
            == trim_start_seq(s.subrange(lo + 1, s.len() as int)),
{
    let t = s.subrange(lo, s.len() as int);
    assert(t.drop_first() =~= s.subrange(lo + 1, s.len() as int));
}

proof fn lemma_trim_end_step(s: Seq<char>, hi: int)
    requires
        0 < hi <= s.len(),
        is_space_char(s[hi - 1]),
    ensures
        trim_end_seq(s.subrange(0, hi)) == trim_end_seq(s.subrange(0, hi - 1)),
{
    let t = s.subrange(0, hi);
    assert(t.drop_last() =~= s.subrange(0, hi - 1));
}

/// Removes whitespace at both ends of `s`.
pub fn trim(s: &str) -> (r: &str)
    ensures
        r@ == trim_seq(s@),
{
    let len = s.unicode_len();
    assert(s@.subrange(0, len as int) =~= s@);
    let mut lo: usize = 0;
    while lo < len && is_space(s.get_char(lo))
        invariant
            0 <= lo <= len,
            len == s@.len(),
            trim_start_seq(s@) == trim_start_seq(s@.subrange(lo as int, len as int)),
        decreases len - lo,
    {
        proof {
            lemma_trim_start_step(s@, lo as int);
        }
        lo = lo + 1;
    }
    let mut hi: usize = len;
    while hi > lo && is_space(s.get_char(hi - 1))
        invariant
            lo <= hi <= len,
            len == s@.len(),
            trim_start_seq(s@) == trim_start_seq(s@.subrange(lo as int, len as int)),
            lo < len ==> !is_space_char(s@[lo as int]),
            trim_end_seq(s@.subrange(lo as int, len as int))
                == trim_end_seq(s@.subrange(lo as int, hi as int)),
        decreases hi,
    {
        proof {
            let sub = s@.subrange(lo as int, s@.len() as int);
            lemma_trim_end_step(sub, hi - lo);
            assert(sub.subrange(0, hi - lo) =~= s@.subrange(lo as int, hi as int));
            assert(sub.subrange(0, hi - lo - 1) =~= s@.subrange(lo as int, hi as int - 1));
        }
        hi = hi - 1;
    }
    let r = s.substring_char(lo, hi);
    proof {
        let sub = s@.subrange(lo as int, len as int);
        assert(trim_start_seq(s@) == sub);
        if hi > lo {
            assert(sub.subrange(0, hi - lo) =~= s@.subrange(lo as int, hi as int));
            assert(trim_end_seq(sub) == trim_end_seq(s@.subrange(lo as int, hi as int)));
        } else {
            assert(s@.subrange(lo as int, hi as int).len() == 0);
            assert(sub.subrange(0, 0) =~= s@.subrange(lo as int, lo as int));
            assert(trim_end_seq(sub) == trim_end_seq(s@.subrange(lo as int, hi as int)));
        }
    }
    r
}

/// Removes whitespace at the end of `s`, as reading a console line does
/// before the answer is inspected.
pub fn trim_end(s: &str) -> (r: &str)
    ensures
        r@ == trim_end_seq(s@),
{
    let len = s.unicode_len();
    assert(s@.subrange(0, len as int) =~= s@);
    let mut hi: usize = len;
    while hi > 0 && is_space(s.get_char(hi - 1))
        invariant
            0 <= hi <= len,
            len == s@.len(),
            trim_end_seq(s@) == trim_end_seq(s@.subrange(0, hi as int)),
        decreases hi,
    {
        proof {
            lemma_trim_end_step(s@, hi as int);
        }
        hi = hi - 1;
    }
    s.substring_char(0, hi)
}

/// Whether `c` is a decimal digit.
pub open spec fn is_digit_char(c: char) -> bool {
    '0' <= c && c <= '9'
}

/// The value of the decimal digit `c`.
pub open spec fn digit_val(c: char) -> int {
    c as int - '0' as int
}

/// Whether every character of `s` is a decimal digit.
pub open spec fn all_digits(s: Seq<char>) -> bool {
    forall|i: int| 0 <= i < s.len() ==> is_digit_char(s[i])
}

/// The number that the digit string `s` denotes, most significant digit first.
pub open spec fn digits_val(s: Seq<char>) -> int
    decreases s.len(),
{
    if s.len() == 0 {
        0
    } else {
        digits_val(s.drop_last()) * 10 + digit_val(s.last())
    }
}

/// `s` without a single leading sign character, if one is there.
pub open spec fn strip_sign(s: Seq<char>) -> Seq<char> {
    if s.len() > 0 && (s[0] == '+' || s[0] == '-') {
        s.drop_first()
    } else {
        s
    }
}

/// Whether `s` is a well-formed decimal integer: an optional sign followed
/// by at least one digit.
pub open spec fn is_decimal(s: Seq<char>) -> bool {
    strip_sign(s).len() > 0 && all_digits(strip_sign(s))
}

/// The integer that the decimal string `s` denotes, sign included.
pub open spec fn decimal_val(s: Seq<char>) -> int {
    if s.len() > 0 && s[0] == '-' {
        -digits_val(strip_sign(s))
    } else {
        digits_val(strip_sign(s))
    }
}

/// Whether `s` reads as a `u32`: a decimal without `-`, whose value fits.
pub open spec fn reads_as_u32(s: Seq<char>) -> bool {
    is_decimal(s) && !(s[0] == '-') && decimal_val(s) <= u32::MAX
}

/// Whether `s` reads as an `i32`: a decimal whose value fits.
pub open spec fn reads_as_i32(s: Seq<char>) -> bool {
    is_decimal(s) && i32::MIN <= decimal_val(s) <= i32::MAX
}

proof fn lemma_digits_val_push(s: Seq<char>, c: char)
    ensures
        digits_val(s.push(c)) == digits_val(s) * 10 + digit_val(c),
{
    assert(s.push(c).drop_last() =~= s);
}

proof fn lemma_digits_val_nonneg(s: Seq<char>)
    requires
        all_digits(s),
    ensures
        digits_val(s) >= 0,
    decreases s.len(),
{
    if s.len() > 0 {
        assert(all_digits(s.drop_last()));
        lemma_digits_val_nonneg(s.drop_last());
    }
}

/// Reads the digit string `s` as a number, `None` when `s` is empty, holds
/// a non-digit, or exceeds `u32::MAX`.
fn parse_digits(s: &str, from: usize) -> (r: Option<u32>)
    requires
        from <= s@.len(),
    ensures
        ({
            let d = s@.subrange(from as int, s@.len() as int);
            r matches Some(n) ==> d.len() > 0 && all_digits(d) && digits_val(d) == n
        }),
        ({
            let d = s@.subrange(from as int, s@.len() as int);
            r is None ==> !(d.len() > 0 && all_digits(d) && digits_val(d) <= u32::MAX)
        }),
{
    let len = s.unicode_len();
    if from == len {
        assert(s@.subrange(from as int, len as int).len() == 0);
        return None;
    }
    let mut i: usize = from;
    let mut acc: u64 = 0;
    let mut over: bool = false;
    while i < len
        invariant
            from <= i <= len,
            len == s@.len(),
            from < len,
            all_digits(s@.subrange(from as int, i as int)),
            !over ==> acc == digits_val(s@.subrange(from as int, i as int)),
            !over ==> acc <= u32::MAX,
            over ==> digits_val(s@.subrange(from as int, i as int)) > u32::MAX,
        decreases len - i,
    {
        let c = s.get_char(i);
        if !('0' <= c && c <= '9') {
            proof {
                let d = s@.subrange(from as int, len as int);
                assert(d[i - from] == s@[i as int]);
                assert(!all_digits(d));
            }
            return None;
        }
        let d: u64 = (c as u32 - '0' as u32) as u64;
        proof {
            let seen = s@.subrange(from as int, i as int);
            let seen2 = s@.subrange(from as int, i as int + 1);
            assert(seen.push(c) =~= seen2);
            lemma_digits_val_push(seen, c);
            lemma_digits_val_nonneg(seen);
        }
        if over {
        } else {
            let next = acc * 10 + d;
            if next > u32::MAX as u64 {
                over = true;
            } else {
                acc = next;
            }
        }
        i = i + 1;
    }
    proof {
        assert(s@.subrange(from as int, len as int) =~= s@.subrange(
            from as int,
            i as int,
        ));
    }
    if over {
        None
    } else {
        Some(acc as u32)
    }
}

/// Reads `s` as a `u32` written in decimal, with an optional leading `+`.
pub fn parse_u32(s: &str) -> (r: Option<u32>)
    ensures
        reads_as_u32(s@) ==> r == Some(decimal_val(s@) as u32),
        !reads_as_u32(s@) ==> r is None,
{
    let len = s.unicode_len();
    if len == 0 {
        return None;
    }
    let c0 = s.get_char(0);
    if c0 == '-' {
        proof {
            if is_decimal(s@) {
                assert(!reads_as_u32(s@));
            }
        }
        return None;
    }
    let start: usize = if c0 == '+' {
        1
    } else {
        0
    };
    proof {
        assert(strip_sign(s@) =~= s@.subrange(start as int, s@.len() as int));
        if all_digits(strip_sign(s@)) {
            lemma_digits_val_nonneg(strip_sign(s@));
        }
    }
    parse_digits(s, start)
}

/// Reads `s` as an `i32` written in decimal, with an optional leading sign.
pub fn parse_i32(s: &str) -> (r: Option<i32>)
    ensures
        reads_as_i32(s@) ==> r == Some(decimal_val(s@) as i32),
        !reads_as_i32(s@) ==> r is None,
{
    let len = s.unicode_len();
    if len == 0 {
        return None;
    }
    let c0 = s.get_char(0);
    let negative = c0 == '-';
    let start: usize = if c0 == '+' || c0 == '-' {
        1
    } else {
        0
    };
    proof {
        assert(strip_sign(s@) =~= s@.subrange(start as int, s@.len() as int));
        if all_digits(strip_sign(s@)) {
            lemma_digits_val_nonneg(strip_sign(s@));
        }
    }
    let mag = match parse_digits(s, start) {
        Some(m) => m,
        None => {
            proof {
                if is_decimal(s@) && i32::MIN <= decimal_val(s@) <= i32::MAX {
                    assert(digits_val(strip_sign(s@)) <= u32::MAX);
                }
            }
            return None;
        },
    };
    if negative {
        if mag > 0x8000_0000u32 {
            return None;
        }
        if mag == 0x8000_0000u32 {
            return Some(i32::MIN);
        }
        Some(-(mag as i32))
    } else {
        if mag > i32::MAX as u32 {
            return None;
        }
        Some(mag as i32)
    }
}

/// The decimal digit with value `d`.
pub open spec fn digit_char(d: int) -> char {
    if d == 0 {
        '0'
    } else if d == 1 {
        '1'
    } else if d == 2 {
        '2'
    } else if d == 3 {
        '3'
    } else if d == 4 {
        '4'
    } else if d == 5 {
        '5'
    } else if d == 6 {
        '6'
    } else if d == 7 {
        '7'
    } else if d == 8 {
        '8'
    } else {
        '9'
    }
}

/// The decimal digit string of the non-negative number `n`, without sign
/// or leading zeros (a single `0` for zero).
pub open spec fn dec_digits(n: int) -> Seq<char>
    decreases n,
{
    if n < 10 {
        seq![digit_char(n)]
    } else {
        dec_digits(n / 10).push(digit_char(n % 10))
    }
}

/// The decimal string of the integer `n`, `-` first when `n` is negative.
pub open spec fn dec_str(n: int) -> Seq<char> {
    if n < 0 {
        seq!['-'].add(dec_digits(-n))
    } else {
        dec_digits(n)
    }
}

/// The decimal writing of a non-negative number is never empty and holds
/// digits alone.
pub proof fn lemma_dec_digits_shape(n: int)
    requires
        n >= 0,
    ensures
        dec_digits(n).len() >= 1,
        all_digits(dec_digits(n)),
    decreases n,
{
    if n < 10 {
        assert(is_digit_char(digit_char(n)));
        assert(all_digits(dec_digits(n))) by {
            assert(dec_digits(n) == seq![digit_char(n)]);
        }
    } else {
        lemma_dec_digits_shape(n / 10);
        assert(is_digit_char(digit_char(n % 10)));
        let d = dec_digits(n);
        let h = dec_digits(n / 10);
        assert forall|i: int| 0 <= i < d.len() implies is_digit_char(d[i]) by {
            if i < h.len() {
                assert(d[i] == h[i]);
            } else {
                assert(d[i] == digit_char(n % 10));
            }
        }
    }
}

fn digit_str(d: u32) -> (r: &'static str)
    requires
        d < 10,
    ensures
        r@ =~= seq![digit_char(d as int)],
{
    proof {
        reveal_strlit("0");
        reveal_strlit("1");
        reveal_strlit("2");
        reveal_strlit("3");
        reveal_strlit("4");
        reveal_strlit("5");
        reveal_strlit("6");
        reveal_strlit("7");
        reveal_strlit("8");
        reveal_strlit("9");
    }
    if d == 0 {
        "0"
    } else if d == 1 {
        "1"
    } else if d == 2 {
        "2"
    } else if d == 3 {
        "3"
    } else if d == 4 {
        "4"
    } else if d == 5 {
        "5"
    } else if d == 6 {
        "6"
    } else if d == 7 {
        "7"
    } else if d == 8 {
        "8"
    } else {
        "9"
    }
}

/// Writes `n` in decimal.
pub fn u32_to_string(n: u32) -> (r: String)
    ensures
        r@ == dec_digits(n as int),
    decreases n,
{
    if n < 10 {
        String::from_str(digit_str(n))
    } else {
        let mut r = u32_to_string(n / 10);
        r.append(digit_str(n % 10));
        proof {
            assert(dec_digits((n / 10) as int).push(digit_char((n % 10) as int)) =~= dec_digits(
                (n / 10) as int,
            ).add(seq![digit_char((n % 10) as int)]));
        }
        r
    }
}

/// Writes `n` in decimal, with a leading `-` when `n` is negative.
pub fn i32_to_string(n: i32) -> (r: String)
    ensures
        r@ == dec_str(n as int),
{
    if n >= 0 {
        u32_to_string(n as u32)
    } else {
        let mag: u32 = if n == i32::MIN {
            0x8000_0000u32
        } else {
            (-n) as u32
        };
        let mut r = String::from_str("-");
        r.append(u32_to_string(mag).as_str());
        proof {
            reveal_strlit("-");
            assert("-"@ =~= seq!['-']);
        }
        r
    }
}

} // verus!
