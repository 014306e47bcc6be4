//! Numbers as text: decimal and hexadecimal digits, written and read.
use crate::text::{chars, is_digit};
use vstd::prelude::*;
use vstd::string::*;

verus! {

pub open spec fn digit_char(d: nat) -> char {
    if d < 10 {
        ((d + 48) as u8) as char
    } else {
        ((d + 87) as u8) as char
    }
}

/// The decimal digits of `n`, without leading zeros.
pub open spec fn decimal(n: nat) -> Seq<char>
    decreases n,
{
    if n < 10 {
        seq![digit_char(n)]
    } else {
        decimal(n / 10).push(digit_char(n % 10))
    }
}

/// The decimal digits of `i`, after a minus sign where it is negative.
pub open spec fn decimal_int(i: int) -> Seq<char> {
    if i < 0 {
        seq!['-'] + decimal((-i) as nat)
    } else {
        decimal(i as nat)
    }
}

/// The last `width` hexadecimal digits of `n`, in lower case.
pub open spec fn hex(n: nat, width: nat) -> Seq<char>
    decreases width,
{
    if width == 0 {
        Seq::empty()
    } else {
        hex(n / 16, (width - 1) as nat).push(digit_char(n % 16))
    }
}

pub open spec fn all_digits(s: Seq<char>) -> bool {
    forall|i: int| 0 <= i < s.len() ==> is_digit(#[trigger] s[i])
}

/// The number whose decimal digits are `s`.
pub open spec fn digits_value(s: Seq<char>) -> nat
    decreases s.len(),
{
    if s.len() == 0 {
        0
    } else {
        digits_value(s.drop_last()) * 10 + (s.last() as u32 - 48) as nat
    }
}

/// The integer that `s` writes down: digits, after at most one sign. A minus sign
/// counts as a sign only where `signed` holds.
pub open spec fn integer_of(s: Seq<char>, signed: bool) -> Option<int> {
    if s.len() > 0 && s[0] == '+' {
        if s.len() > 1 && all_digits(s.skip(1)) {
            Some(digits_value(s.skip(1)) as int)
        } else {
            None
        }
    } else if signed && s.len() > 0 && s[0] == '-' {
        if s.len() > 1 && all_digits(s.skip(1)) {
            Some(-(digits_value(s.skip(1)) as int))
        } else {
            None
        }
    } else if s.len() > 0 && all_digits(s) {
        Some(digits_value(s) as int)
    } else {
        None
    }
}

/// The integer that `s` writes down, where it lies between `lo` and `hi`.
pub open spec fn parsed_integer(s: Seq<char>, lo: int, hi: int) -> Option<int> {
    match integer_of(s, lo < 0) {
        Some(i) => if lo <= i <= hi {
            Some(i)
        } else {
            None
        },
        None => None,
    }
}

fn digit(d: u8) -> (r: char)
    requires
        d < 16,
    ensures
        r == digit_char(d as nat),
{
    if d < 10 {
        (d + 48) as char
    } else {
        (d + 87) as char
    }
}

/// The decimal digits of `n`.
pub fn wide_decimal_text(n: u128) -> (r: String)
    ensures
        r@ == decimal(n as nat),
    decreases n,
{
    let mut r = if n < 10 { String::new() } else { wide_decimal_text(n / 10) };
    r.push(digit((n % 10) as u8));
    assert(n < 10 ==> r@ =~= decimal(n as nat));
    r
}

/// The decimal digits of `n`.
pub fn decimal_text(n: u64) -> (r: String)
    ensures
        r@ == decimal(n as nat),
    decreases n,
{
    let mut r = if n < 10 { String::new() } else { decimal_text(n / 10) };
    r.push(digit((n % 10) as u8));
    assert(n < 10 ==> r@ =~= decimal(n as nat));
    r
}

/// The decimal digits of `i`, after a minus sign where it is negative.
pub fn int_text(i: i64) -> (r: String)
    ensures
        r@ == decimal_int(i as int),
{
    if i < 0 {
        let magnitude: u64 = (-(i as i128)) as u64;
        let mut r = String::new();
        r.push('-');
        r.append(decimal_text(magnitude).as_str());
        assert(r@ =~= seq!['-'] + decimal(magnitude as nat));
        r
    } else {
        decimal_text(i as u64)
    }
}

/// The last `width` hexadecimal digits of `n`.
pub fn hex_text(n: u64, width: usize) -> (r: String)
    ensures
        r@ == hex(n as nat, width as nat),
    decreases width,
{
    if width == 0 {
        String::new()
    } else {
        let mut r = hex_text(n / 16, width - 1);
        r.push(digit((n % 16) as u8));
        r
    }
}

/// Reads the digits from position `from` on: `None` where there is something else, and
/// `Some(None)` where the number is too large for a `u64`.
fn digits_from(cs: &Vec<char>, from: usize) -> (r: Option<Option<u64>>)
    requires
        from <= cs.len(),
    ensures
        r is Some <==> all_digits(cs@.skip(from as int)),
        r matches Some(Some(v)) ==> v == digits_value(cs@.skip(from as int)),
        r matches Some(None) ==> digits_value(cs@.skip(from as int)) > u64::MAX,
{
    let ghost s = cs@.skip(from as int);
    let mut value: Option<u64> = Some(0);
    let mut i: usize = from;
    while i < cs.len()
        invariant
            from <= i <= cs.len(),
            s == cs@.skip(from as int),
            all_digits(s.take(i - from)),
            value matches Some(v) ==> v == digits_value(s.take(i - from)),
            value is None ==> digits_value(s.take(i - from)) > u64::MAX,
        decreases cs.len() - i,
    {
        let c = cs[i];
        assert(s[i - from] == c);
        if !('0' <= c && c <= '9') {
            return None;
        }
        let d: u128 = (c as u32 - 48) as u128;
        assert(s.take(i - from + 1).drop_last() =~= s.take(i - from));
        assert forall|j: int| 0 <= j < i - from + 1 implies is_digit(
            #[trigger] s.take(i - from + 1)[j],
        ) by {
            if j < i - from {
                assert(s.take(i - from)[j] == s[j]);
            }
        }
        value = match value {
            Some(v) => {
                let w: u128 = (v as u128) * 10 + d;
                if w <= u64::MAX as u128 {
                    Some(w as u64)
                } else {
                    None
                }
            },
            None => None,
        };
        i = i + 1;
    }
    assert(s.take(i - from) =~= s);
    Some(value)
}

/// Reads an integer between `lo` and `hi`. A minus sign is a sign only where `lo` is
/// negative.
pub fn parse_within(s: &str, lo: i128, hi: i128) -> (r: Option<i128>)
    requires
        -0x8000_0000_0000_0000 <= lo <= 0 <= hi <= u64::MAX,
    ensures
        match r {
            Some(i) => parsed_integer(s@, lo as int, hi as int) == Some(i as int),
            None => parsed_integer(s@, lo as int, hi as int) is None,
        },
{
    let cs = chars(s);
    if cs.len() == 0 {
        return None;
    }
    let negative = cs[0] == '-' && lo < 0;
    let from: usize = if cs[0] == '+' || negative { 1 } else { 0 };
    assert(cs@.skip(0) =~= cs@);
    if from == cs.len() {
        return None;
    }
    match digits_from(&cs, from) {
        Some(Some(v)) => {
            let i: i128 = if negative { -(v as i128) } else { v as i128 };
            if lo <= i && i <= hi {
                Some(i)
            } else {
                None
            }
        },
        _ => None,
    }
}

/// Reads an `i64` as `str::parse` does.
pub fn parse_i64(s: &str) -> (r: Option<i64>)
    ensures
        match r {
            Some(i) => parsed_integer(s@, i64::MIN as int, i64::MAX as int) == Some(i as int),
            None => parsed_integer(s@, i64::MIN as int, i64::MAX as int) is None,
        },
{
    match parse_within(s, i64::MIN as i128, i64::MAX as i128) {
        Some(i) => Some(i as i64),
        None => None,
    }
}

/// Reads an `i32` as `str::parse` does.
pub fn parse_i32(s: &str) -> (r: Option<i32>)
    ensures
        match r {
            Some(i) => parsed_integer(s@, i32::MIN as int, i32::MAX as int) == Some(i as int),
            None => parsed_integer(s@, i32::MIN as int, i32::MAX as int) is None,
        },
{
    match parse_within(s, i32::MIN as i128, i32::MAX as i128) {
        Some(i) => Some(i as i32),
        None => None,
    }
}

/// Reads a `u64` as `str::parse` does.
pub fn parse_u64(s: &str) -> (r: Option<u64>)
    ensures
        match r {
            Some(i) => parsed_integer(s@, 0, u64::MAX as int) == Some(i as int),
            None => parsed_integer(s@, 0, u64::MAX as int) is None,
        },
{
    match parse_within(s, 0, u64::MAX as i128) {
        Some(i) => Some(i as u64),
        None => None,
    }
}

/// Reads a `u16` as `str::parse` does.
pub fn parse_u16(s: &str) -> (r: Option<u16>)
    ensures
        match r {
            Some(i) => parsed_integer(s@, 0, u16::MAX as int) == Some(i as int),
            None => parsed_integer(s@, 0, u16::MAX as int) is None,
        },
{
    match parse_within(s, 0, u16::MAX as i128) {
        Some(i) => Some(i as u16),
        None => None,
    }
}

// ---------------------------------------------------------------------------
// Laws
// ---------------------------------------------------------------------------

pub proof fn lemma_decimal_digits(n: nat)
    ensures
        decimal(n).len() > 0,
        all_digits(decimal(n)),
        digits_value(decimal(n)) == n,
    decreases n,
{
    let s = decimal(n);
    if n < 10 {
        assert(s.drop_last() =~= Seq::empty());
        assert(is_digit(s[0]));
        reveal_with_fuel(digits_value, 2);
    } else {
        let t = decimal(n / 10);
        lemma_decimal_digits(n / 10);
        assert(s.drop_last() =~= t);
        assert forall|i: int| 0 <= i < s.len() implies is_digit(#[trigger] s[i]) by {
            if i < t.len() {
                assert(is_digit(t[i]));
            }
        }
    }
}

/// A number that is written in decimal digits reads back as it was, if it lies within the
/// bounds.
pub proof fn law_decimal_reads_back(n: nat, lo: int, hi: int)
    requires
        lo <= n <= hi,
    ensures
        parsed_integer(decimal(n), lo, hi) == Some(n as int),
{
    lemma_decimal_digits(n);
    assert(is_digit(decimal(n)[0]));
}

/// The same holds of numbers with a sign.
pub proof fn law_signed_decimal_reads_back(i: int, lo: int, hi: int)
    requires
        lo <= i <= hi,
        lo < 0,
    ensures
        parsed_integer(decimal_int(i), lo, hi) == Some(i),
{
    if i < 0 {
        let d = decimal((-i) as nat);
        lemma_decimal_digits((-i) as nat);
        assert((seq!['-'] + d).skip(1) =~= d);
    } else {
        law_decimal_reads_back(i as nat, lo, hi);
    }
}

/// A numeral is read digit by digit: one more digit at the end makes ten times the number,
/// and adds the digit. A sign before it is a plus or a minus.
pub proof fn law_numerals_are_read_by_digits(s: Seq<char>, d: char)
    requires
        s.len() > 0,
        forall|i: int| 0 <= i < s.len() ==> '0' <= (#[trigger] s[i]) && s[i] <= '9',
        '0' <= d && d <= '9',
    ensures
        integer_of(seq![d], true) == Some(d as u32 - '0' as u32),
        integer_of(s, true) matches Some(n) && n >= 0 && integer_of(s.push(d), true) == Some(
            10 * n + (d as u32 - '0' as u32),
        ) && integer_of(seq!['-'] + s, true) == Some(-n) && integer_of(seq!['+'] + s, true) == Some(
            n,
        ) && integer_of(seq!['-'] + s, false) is None,
{
    reveal_with_fuel(digits_value, 2);
    let one = seq![d];
    assert(one.drop_last() =~= Seq::empty());
    assert(all_digits(one));
    assert(all_digits(s));
    assert(is_digit(s[0]));
    let t = s.push(d);
    assert(t.drop_last() =~= s);
    assert(all_digits(t));
    assert((seq!['-'] + s).skip(1) =~= s);
    assert((seq!['+'] + s).skip(1) =~= s);
    assert(!is_digit((seq!['-'] + s)[0]));
}

/// What holds anything but digits after its sign is no numeral.
pub proof fn law_numerals_hold_digits_only(s: Seq<char>, i: int, lo: int, hi: int)
    requires
        0 <= i < s.len(),
        !('0' <= s[i] && s[i] <= '9'),
        i > 0 || (s[i] != '+' && s[i] != '-'),
    ensures
        parsed_integer(s, lo, hi) is None,
{
    if i > 0 {
        assert(s.skip(1)[i - 1] == s[i]);
    }
}

/// A numeral is read iff its number lies within the bounds.
pub proof fn law_numerals_lie_within_bounds(s: Seq<char>, lo: int, hi: int)
    ensures
        parsed_integer(s, lo, hi) matches Some(n) ==> lo <= n <= hi && integer_of(s, lo < 0) == Some(
            n,
        ),
        integer_of(s, lo < 0) matches Some(n) ==> (parsed_integer(s, lo, hi) is Some <==> lo <= n
            <= hi),
{
}

/// Hexadecimal digits are written in lower case, the least at the end: the last digit is the
/// remainder by 16, and the digits before it are those of the quotient.
pub proof fn law_hexadecimal_digits(n: nat, width: nat)
    ensures
        hex(n, width).len() == width,
        hex(n, 0) == Seq::<char>::empty(),
        width > 0 ==> hex(n, width).last() == (if n % 16 < 10 {
            ('0' as u32 + n % 16) as char
        } else {
            ('a' as u32 + (n % 16 - 10)) as char
        }),
        width > 0 ==> hex(n, width).drop_last() == hex(n / 16, (width - 1) as nat),
    decreases width,
{
    if width > 0 {
        law_hexadecimal_digits(n / 16, (width - 1) as nat);
        assert(hex(n, width).drop_last() =~= hex(n / 16, (width - 1) as nat));
    }
}

/// Decimal digits are written the least at the end: the last digit is the remainder by 10,
/// and the digits before it are those of the quotient. A number below ten is one digit, and
/// a negative number is written after a minus.
pub proof fn law_decimal_digits(n: nat)
    ensures
        n < 10 ==> decimal(n) == seq![('0' as u32 + n) as char],
        n >= 10 ==> decimal(n).last() == ('0' as u32 + n % 10) as char && decimal(n).drop_last()
            == decimal(n / 10),
        decimal_int(n as int) == decimal(n),
        n > 0 ==> decimal_int(-(n as int)) == seq!['-'] + decimal(n),
{
    if n >= 10 {
        assert(decimal(n).drop_last() =~= decimal(n / 10));
    }
}

}
