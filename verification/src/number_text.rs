//! Decimal digits: parsing the integer grammar of `str::parse` and writing
//! zero-padded decimal text.
use vstd::prelude::*;

verus! {

pub open spec fn is_digit(c: char) -> bool {
    '0' <= c <= '9'
}

pub open spec fn digit_value(c: char) -> int {
    (c as u32) - ('0' as u32)
}

pub open spec fn all_digits(s: Seq<char>) -> bool {
    forall|i: int| 0 <= i < s.len() ==> is_digit(s[i])
}

/// The number written by a run of decimal digits.
pub open spec fn digits_value(s: Seq<char>) -> nat
    decreases s.len(),
{
    if s.len() == 0 {
        0
    } else {
        (digits_value(s.drop_last()) * 10 + digit_value(s.last())) as nat
    }
}

/// `str::parse` for an integer type with range `min..=max`: an optional
/// sign (`-` only where `min < 0`), then one or more ASCII digits, and a
/// value in range.
pub open spec fn parse_negative(s: Seq<char>, min: int) -> bool {
    s.len() > 0 && s[0] == '-' && min < 0
}

pub open spec fn parse_body(s: Seq<char>, min: int) -> Seq<char> {
    if s.len() > 0 && (s[0] == '+' || (s[0] == '-' && min < 0)) {
        s.drop_first()
    } else {
        s
    }
}

pub open spec fn parsed_integer(s: Seq<char>, min: int, max: int) -> Option<int> {
    let negative = parse_negative(s, min);
    let body = parse_body(s, min);
    let value = if negative {
        -(digits_value(body) as int)
    } else {
        digits_value(body) as int
    };
    if body.len() > 0 && all_digits(body) && min <= value <= max {
        Some(value)
    } else {
        None
    }
}

proof fn lemma_digits_value_monotone(s: Seq<char>, i: int)
    requires
        0 <= i <= s.len(),
        all_digits(s),
    ensures
        digits_value(s.take(i)) <= digits_value(s),
    decreases s.len() - i,
{
    if i < s.len() {
        lemma_digits_value_monotone(s, i + 1);
        assert(s.take(i + 1).drop_last() =~= s.take(i));
        assert(is_digit(s.take(i + 1).last()));
    } else {
        assert(s.take(i) =~= s);
    }
}

/// Parses `s` as an integer of range `min..=max` (a sub-range of `i64`).
pub fn parse_integer(s: &[char], min: i64, max: i64) -> (r: Option<i64>)
    requires
        min <= 0 <= max,
    ensures
        match r {
            Some(v) => parsed_integer(s@, min as int, max as int) == Some(v as int),
            None => parsed_integer(s@, min as int, max as int) is None,
        },
{
    let negative = s.len() > 0 && s[0] == '-' && min < 0;
    let signed = s.len() > 0 && (s[0] == '+' || (s[0] == '-' && min < 0));
    let start: usize = if signed {
        1
    } else {
        0
    };
    let ghost body = if signed {
        s@.drop_first()
    } else {
        s@
    };
    assert(body =~= s@.skip(start as int));
    if start >= s.len() {
        assert(body.len() == 0);
        return None;
    }
    // Largest magnitude the type admits on this side.
    let limit: u128 = if negative {
        (0i128 - min as i128) as u128
    } else {
        max as u128
    };
    let mut value: u128 = 0;
    let mut i = start;
    while i < s.len()
        invariant
            start <= i <= s@.len(),
            body == s@.skip(start as int),
            body == parse_body(s@, min as int),
            negative == parse_negative(s@, min as int),
            limit == (if negative { -(min as int) } else { max as int }),
            min <= 0 <= max,
            all_digits(s@.subrange(start as int, i as int)),
            value == digits_value(s@.subrange(start as int, i as int)),
            value <= limit,
            limit <= 0x8000_0000_0000_0000u128,
        decreases s.len() - i,
    {
        let c = s[i];
        if !('0' <= c && c <= '9') {
            assert(!all_digits(body)) by {
                assert(body[i - start] == c);
            }
            return None;
        }
        let d: u128 = (c as u32 - '0' as u32) as u128;
        assert(s@.subrange(start as int, i + 1).drop_last() =~= s@.subrange(start as int, i as int));
        assert(s@.subrange(start as int, i + 1).last() == c);
        assert(all_digits(s@.subrange(start as int, i + 1)));
        let next = value * 10 + d;
        if next > limit {
            proof {
                if all_digits(body) {
                    lemma_digits_value_monotone(body, i + 1 - start);
                    assert(body.take(i + 1 - start) =~= s@.subrange(start as int, i + 1));
                }
            }
            return None;
        }
        value = next;
        i = i + 1;
    }
    assert(s@.subrange(start as int, s@.len() as int) =~= body);
    if negative {
        Some((0i128 - value as i128) as i64)
    } else {
        Some(value as i64)
    }
}

/// Parses `s` as a `usize` (an optional `+`, then decimal digits).
pub fn parse_usize(s: &[char]) -> (r: Option<usize>)
    ensures
        match r {
            Some(v) => parsed_integer(s@, 0, usize::MAX as int) == Some(v as int),
            None => parsed_integer(s@, 0, usize::MAX as int) is None,
        },
{
    let signed = s.len() > 0 && s[0] == '+';
    let start: usize = if signed {
        1
    } else {
        0
    };
    let ghost body = parse_body(s@, 0);
    assert(body =~= s@.skip(start as int));
    if start >= s.len() {
        return None;
    }
    let limit: u128 = usize::MAX as u128;
    let mut value: u128 = 0;
    let mut i = start;
    while i < s.len()
        invariant
            start <= i <= s@.len(),
            body == s@.skip(start as int),
            body == parse_body(s@, 0),
            limit == usize::MAX,
            all_digits(s@.subrange(start as int, i as int)),
            value == digits_value(s@.subrange(start as int, i as int)),
            value <= limit,
        decreases s.len() - i,
    {
        let c = s[i];
        if !('0' <= c && c <= '9') {
            assert(!all_digits(body)) by {
                assert(body[i - start] == c);
            }
            return None;
        }
        let d: u128 = (c as u32 - '0' as u32) as u128;
        assert(s@.subrange(start as int, i + 1).drop_last() =~= s@.subrange(start as int, i as int));
        assert(s@.subrange(start as int, i + 1).last() == c);
        assert(all_digits(s@.subrange(start as int, i + 1)));
        let next = value * 10 + d;
        if next > limit {
            proof {
                if all_digits(body) {
                    lemma_digits_value_monotone(body, i + 1 - start);
                    assert(body.take(i + 1 - start) =~= s@.subrange(start as int, i + 1));
                }
            }
            return None;
        }
        value = next;
        i = i + 1;
    }
    assert(s@.subrange(start as int, s@.len() as int) =~= body);
    Some(value as usize)
}

/// The decimal digits of `n`, most significant first, without padding.
pub open spec fn decimal_digits(n: nat) -> Seq<char>
    decreases n,
{
    if n < 10 {
        seq![(n + '0' as u32) as char]
    } else {
        decimal_digits(n / 10).push(((n % 10) + '0' as u32) as char)
    }
}

proof fn lemma_digits_value_push(s: Seq<char>, c: char)
    requires
        is_digit(c),
    ensures
        digits_value(s.push(c)) == digits_value(s) * 10 + digit_value(c),
{
    assert(s.push(c).drop_last() =~= s);
}

/// Decimal digits read back as the number they write: they are all digits,
/// have no leading zero (but for zero itself), and parse to `n`.
pub proof fn decimal_digits_read_back(n: nat)
    ensures
        decimal_digits(n).len() > 0,
        all_digits(decimal_digits(n)),
        digits_value(decimal_digits(n)) == n,
        n > 0 ==> decimal_digits(n)[0] != '0',
        n <= usize::MAX ==> parsed_integer(decimal_digits(n), 0, usize::MAX as int) == Some(n as int),
    decreases n,
{
    if n < 10 {
        let c = (n + '0' as u32) as char;
        assert(c as u32 == n + 48);
        assert(decimal_digits(n) =~= seq![].push(c));
        lemma_digits_value_push(Seq::<char>::empty(), c);
    } else {
        decimal_digits_read_back(n / 10);
        let d = n % 10;
        let c = (d + '0' as u32) as char;
        assert(c as u32 == d + 48);
        lemma_digits_value_push(decimal_digits(n / 10), c);
        assert(decimal_digits(n)[0] == decimal_digits(n / 10)[0]);
    }
    if n <= usize::MAX {
        assert(parse_body(decimal_digits(n), 0) == decimal_digits(n));
    }
}

/// `n` left-padded with zeros to at least `width` chars (the `{:0width}`
/// format of a non-negative value).
pub open spec fn zero_padded(n: nat, width: nat) -> Seq<char> {
    let digits = decimal_digits(n);
    if digits.len() >= width {
        digits
    } else {
        Seq::new((width - digits.len()) as nat, |i: int| '0') + digits
    }
}

/// The `{:0width}` format of a signed value: the sign counts toward the width.
pub open spec fn signed_zero_padded(n: int, width: nat) -> Seq<char> {
    if n < 0 {
        seq!['-'] + zero_padded((-n) as nat, if width > 0 { (width - 1) as nat } else { 0 })
    } else {
        zero_padded(n as nat, width)
    }
}

fn digit_char(d: u64) -> (c: char)
    requires
        d < 10,
    ensures
        c == (d + '0' as u32) as char,
{
    let b: u8 = (d as u8) + 48;
    b as char
}

/// The decimal digits of `n`.
pub fn push_decimal(out: &mut Vec<char>, n: u64)
    ensures
        final(out)@ == old(out)@ + decimal_digits(n as nat),
    decreases n,
{
    if n < 10 {
        out.push(digit_char(n));
        assert(decimal_digits(n as nat) =~= seq![(n + '0' as u32) as char]);
    } else {
        let ghost before = out@;
        push_decimal(out, n / 10);
        out.push(digit_char(n % 10));
        assert(out@ =~= before + decimal_digits(n as nat));
    }
}

/// Appends `n` zero-padded to `width`.
pub fn push_zero_padded(out: &mut Vec<char>, n: u64, width: usize)
    ensures
        final(out)@ == old(out)@ + zero_padded(n as nat, width as nat),
{
    let mut digits: Vec<char> = Vec::new();
    push_decimal(&mut digits, n);
    assert(digits@ =~= decimal_digits(n as nat));
    let ghost before = out@;
    if digits.len() < width {
        let pad = width - digits.len();
        let mut k: usize = 0;
        while k < pad
            invariant
                k <= pad,
                out@ == before + Seq::new(k as nat, |i: int| '0'),
            decreases pad - k,
        {
            out.push('0');
            assert(out@ =~= before + Seq::new((k + 1) as nat, |i: int| '0'));
            k = k + 1;
        }
    }
    let mut j: usize = 0;
    let ghost padded = out@;
    while j < digits.len()
        invariant
            j <= digits@.len(),
            out@ == padded + digits@.take(j as int),
        decreases digits.len() - j,
    {
        out.push(digits[j]);
        assert(out@ =~= padded + digits@.take(j + 1));
        j = j + 1;
    }
    assert(digits@.take(digits@.len() as int) =~= digits@);
    assert(out@ =~= before + zero_padded(n as nat, width as nat));
}

/// Appends `n` in the `{:0width}` format, the sign counting toward the width.
pub fn push_signed_zero_padded(out: &mut Vec<char>, n: i64, width: usize)
    ensures
        final(out)@ == old(out)@ + signed_zero_padded(n as int, width as nat),
{
    let ghost before = out@;
    if n < 0 {
        out.push('-');
        let magnitude: u64 = (0i128 - n as i128) as u64;
        let rest_width = if width > 0 {
            width - 1
        } else {
            0
        };
        push_zero_padded(out, magnitude, rest_width);
        assert(out@ =~= before + signed_zero_padded(n as int, width as nat));
    } else {
        push_zero_padded(out, n as u64, width);
    }
}

} // verus!
