//! `#rrggbb` / `#rrggbbaa` colour text, at the level of its bytes: what a
//! colour field shows and what it accepts back.
use vstd::prelude::*;

use crate::text::{chars_of, string_of, trim_seq, trimmed_chars};

verus! {

pub open spec fn is_hex_digit(c: char) -> bool {
    ('0' <= c <= '9') || ('a' <= c <= 'f') || ('A' <= c <= 'F')
}

pub open spec fn hex_value(c: char) -> int {
    if '0' <= c <= '9' {
        c as int - '0' as int
    } else if 'a' <= c <= 'f' {
        c as int - 'a' as int + 10
    } else {
        c as int - 'A' as int + 10
    }
}

pub open spec fn all_hex_digits(s: Seq<char>) -> bool {
    forall|i: int| 0 <= i < s.len() ==> is_hex_digit(#[trigger] s[i])
}

/// The bytes of `count` hex pairs, when `hex` is exactly that.
pub open spec fn hex_bytes_of(hex: Seq<char>, count: nat) -> Option<Seq<u8>> {
    if hex.len() == 2 * count && all_hex_digits(hex) {
        Some(Seq::new(count, |i: int| (16 * hex_value(hex[2 * i]) + hex_value(hex[2 * i + 1])) as u8))
    } else {
        None
    }
}

fn hex_digit(c: char) -> (r: Option<u8>)
    ensures
        r is Some <==> is_hex_digit(c),
        r matches Some(v) ==> v == hex_value(c) && v < 16,
{
    if '0' <= c && c <= '9' {
        Some(((c as u32) - ('0' as u32)) as u8)
    } else if 'a' <= c && c <= 'f' {
        Some(((c as u32) - ('a' as u32) + 10) as u8)
    } else if 'A' <= c && c <= 'F' {
        Some(((c as u32) - ('A' as u32) + 10) as u8)
    } else {
        None
    }
}

/// The `count` bytes written as hex pairs in `hex`; `None` unless `hex` is
/// exactly `2 * count` hex digits.
pub fn hex_bytes(hex: &str, count: usize) -> (r: Option<Vec<u8>>)
    requires
        count <= usize::MAX / 2,
    ensures
        match r {
            Some(bytes) => hex_bytes_of(hex@, count as nat) == Some(bytes@),
            None => hex_bytes_of(hex@, count as nat) is None,
        },
{
    let chars = chars_of(hex);
    hex_pairs(chars.as_slice(), count)
}

fn hex_pairs(chars: &[char], count: usize) -> (r: Option<Vec<u8>>)
    requires
        count <= usize::MAX / 2,
    ensures
        match r {
            Some(bytes) => hex_bytes_of(chars@, count as nat) == Some(bytes@),
            None => hex_bytes_of(chars@, count as nat) is None,
        },
{
    if chars.len() != count * 2 {
        return None;
    }
    let mut i: usize = 0;
    while i < chars.len()
        invariant
            i <= chars@.len(),
            forall|j: int| 0 <= j < i ==> is_hex_digit(#[trigger] chars@[j]),
        decreases chars.len() - i,
    {
        if hex_digit(chars[i]).is_none() {
            return None;
        }
        i = i + 1;
    }
    let mut bytes: Vec<u8> = Vec::new();
    let mut k: usize = 0;
    while k < count
        invariant
            chars@.len() == 2 * count,
            count <= usize::MAX / 2,
            all_hex_digits(chars@),
            k <= count,
            bytes@ == Seq::new(
                k as nat,
                |i: int| (16 * hex_value(chars@[2 * i]) + hex_value(chars@[2 * i + 1])) as u8,
            ),
        decreases count - k,
    {
        let high = hex_digit(chars[2 * k]);
        let low = hex_digit(chars[2 * k + 1]);
        match (high, low) {
            (Some(h), Some(l)) => {
                bytes.push(16 * h + l);
            },
            _ => {
                return None;
            },
        }
        assert(bytes@ =~= Seq::new(
            (k + 1) as nat,
            |i: int| (16 * hex_value(chars@[2 * i]) + hex_value(chars@[2 * i + 1])) as u8,
        ));
        k = k + 1;
    }
    Some(bytes)
}

/// `str::strip_prefix('#')` or the text itself.
pub open spec fn without_hash(s: Seq<char>) -> Seq<char> {
    if s.len() > 0 && s[0] == '#' {
        s.drop_first()
    } else {
        s
    }
}

/// The RGBA bytes of colour text: trimmed, an optional leading `#`, then six
/// (opaque) or eight hex digits.
pub open spec fn hex_rgba_of(raw: Seq<char>) -> Option<Seq<u8>> {
    let hex = without_hash(trim_seq(raw));
    if hex.len() == 6 {
        match hex_bytes_of(hex, 3) {
            Some(b) => Some(b.push(255u8)),
            None => None,
        }
    } else if hex.len() == 8 {
        hex_bytes_of(hex, 4)
    } else {
        None
    }
}

/// Reads `#rrggbb` or `#rrggbbaa` (the `#` optional, surrounding white
/// space ignored) as RGBA bytes; opaque when there is no alpha pair.
pub fn parse_hex_rgba(raw: &str) -> (r: Option<[u8; 4]>)
    ensures
        match r {
            Some(rgba) => hex_rgba_of(raw@) == Some(rgba@),
            None => hex_rgba_of(raw@) is None,
        },
{
    let trimmed = trimmed_chars(raw);
    let mut hex: Vec<char> = Vec::new();
    let skip: usize = if trimmed.len() > 0 && trimmed[0] == '#' { 1 } else { 0 };
    let mut i = skip;
    while i < trimmed.len()
        invariant
            skip <= i <= trimmed@.len(),
            hex@ == trimmed@.subrange(skip as int, i as int),
        decreases trimmed.len() - i,
    {
        hex.push(trimmed[i]);
        assert(hex@ =~= trimmed@.subrange(skip as int, i + 1));
        i = i + 1;
    }
    assert(hex@ =~= without_hash(trim_seq(raw@)));
    if hex.len() == 6 {
        match hex_pairs(hex.as_slice(), 3) {
            Some(b) => {
                let rgba = [b[0], b[1], b[2], 255u8];
                assert(rgba@ =~= b@.push(255u8));
                Some(rgba)
            },
            None => None,
        }
    } else if hex.len() == 8 {
        match hex_pairs(hex.as_slice(), 4) {
            Some(b) => {
                let rgba = [b[0], b[1], b[2], b[3]];
                assert(rgba@ =~= b@);
                Some(rgba)
            },
            None => None,
        }
    } else {
        None
    }
}

/// Lower-case hex digit of `v < 16`.
pub open spec fn hex_char(v: int) -> char {
    if v < 10 {
        ('0' as int + v) as char
    } else {
        ('a' as int + v - 10) as char
    }
}

/// `format!("{b:02x}")`.
pub open spec fn hex_pair(b: u8) -> Seq<char> {
    seq![hex_char(b as int / 16), hex_char(b as int % 16)]
}

/// `#rrggbb` for an opaque colour, else `#rrggbbaa`, in lower-case hex.
pub open spec fn hex_text(rgba: Seq<u8>) -> Seq<char> {
    let rgb = seq!['#'] + hex_pair(rgba[0]) + hex_pair(rgba[1]) + hex_pair(rgba[2]);
    if rgba[3] == 255 {
        rgb
    } else {
        rgb + hex_pair(rgba[3])
    }
}

fn push_hex_pair(out: &mut Vec<char>, b: u8)
    ensures
        final(out)@ == old(out)@ + hex_pair(b),
{
    let digits = ['0', '1', '2', '3', '4', '5', '6', '7', '8', '9', 'a', 'b', 'c', 'd', 'e', 'f'];
    assert forall|v: int| 0 <= v < 16 implies digits@[v] == hex_char(v) by {}
    out.push(digits[(b / 16) as usize]);
    out.push(digits[(b % 16) as usize]);
    assert(final(out)@ =~= old(out)@ + hex_pair(b));
}

/// Colour text of RGBA bytes: `#rrggbb` when opaque, else `#rrggbbaa`.
pub fn format_hex_rgba(rgba: [u8; 4]) -> (s: String)
    ensures
        s@ == hex_text(rgba@),
{
    let mut out: Vec<char> = Vec::new();
    out.push('#');
    push_hex_pair(&mut out, rgba[0]);
    push_hex_pair(&mut out, rgba[1]);
    push_hex_pair(&mut out, rgba[2]);
    if rgba[3] != 255 {
        push_hex_pair(&mut out, rgba[3]);
    }
    assert(out@ =~= hex_text(rgba@));
    string_of(out.as_slice())
}

proof fn lemma_hex_pair_reads_back(b: u8)
    ensures
        all_hex_digits(hex_pair(b)),
        16 * hex_value(hex_pair(b)[0]) + hex_value(hex_pair(b)[1]) == b,
{
    assert(b == 16 * (b / 16) + b % 16);
}

/// Writing RGBA bytes as colour text and reading the text back gives the
/// same bytes.
pub proof fn hex_round_trip(rgba: [u8; 4])
    ensures
        hex_rgba_of(hex_text(rgba@)) == Some(rgba@),
{
    let text = hex_text(rgba@);
    lemma_hex_pair_reads_back(rgba@[0]);
    lemma_hex_pair_reads_back(rgba@[1]);
    lemma_hex_pair_reads_back(rgba@[2]);
    lemma_hex_pair_reads_back(rgba@[3]);
    assert(trim_seq(text) =~= text) by {
        crate::text::lemma_trim_of_unpadded(text);
    }
    let hex = text.drop_first();
    assert(without_hash(text) == hex);
    if rgba@[3] == 255 {
        assert(hex =~= hex_pair(rgba@[0]) + hex_pair(rgba@[1]) + hex_pair(rgba@[2]));
        let b = hex_bytes_of(hex, 3).unwrap();
        assert(all_hex_digits(hex));
        assert(b.push(255u8) =~= rgba@);
    } else {
        assert(hex =~= hex_pair(rgba@[0]) + hex_pair(rgba@[1]) + hex_pair(rgba@[2]) + hex_pair(
            rgba@[3],
        ));
        assert(all_hex_digits(hex));
        assert(hex_bytes_of(hex, 4).unwrap() =~= rgba@);
    }
}

/// Colour text names its channels in order, two hex digits each (either
/// case) for red, green, blue and then alpha; without an alpha pair the
/// colour is opaque. Text of any other shape is no colour.
pub proof fn hex_channels_in_order(raw: Seq<char>)
    ensures
        ({
            let hex = without_hash(trim_seq(raw));
            &&& hex_rgba_of(raw) is Some <==> ((hex.len() == 6 || hex.len() == 8) && all_hex_digits(
                hex,
            ))
            &&& hex_rgba_of(raw) matches Some(b) ==> {
                &&& b.len() == 4
                &&& forall|i: int|
                    0 <= i < hex.len() / 2 ==> b[i] as int == 16 * hex_value(#[trigger] hex[2 * i])
                        + hex_value(hex[2 * i + 1])
                &&& hex.len() == 6 ==> b[3] == 255
            }
        }),
{
    let hex = without_hash(trim_seq(raw));
    if hex_rgba_of(raw) is Some {
        assert forall|i: int| 0 <= i < hex.len() as int / 2 implies 0 <= 16 * hex_value(
            #[trigger] hex[2 * i],
        ) + hex_value(hex[2 * i + 1]) < 256 by {
            assert(is_hex_digit(hex[2 * i]));
            assert(is_hex_digit(hex[2 * i + 1]));
        }
    }
}

} // verus!
