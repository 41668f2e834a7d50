//! Placeholder substitution in label templates such as `{year}年{month}月`.
use vstd::prelude::*;

use crate::number_text::{
    decimal_digits, push_decimal, push_signed_zero_padded, push_zero_padded, signed_zero_padded,
    zero_padded,
};
use crate::text::{chars_of, string_of};

verus! {

/// `str::replace` with an empty pattern: `value` before every char and at the end.
pub open spec fn replace_empty(s: Seq<char>, value: Seq<char>) -> Seq<char>
    decreases s.len(),
{
    if s.len() == 0 {
        value
    } else {
        value + seq![s[0]] + replace_empty(s.drop_first(), value)
    }
}

/// `str::replace`: every occurrence of `needle`, taken left to right without
/// overlap, replaced by `value`.
pub open spec fn replace_all(s: Seq<char>, needle: Seq<char>, value: Seq<char>) -> Seq<char>
    decreases s.len(),
{
    if needle.len() == 0 {
        replace_empty(s, value)
    } else if s.len() < needle.len() {
        s
    } else if s.take(needle.len() as int) == needle {
        value + replace_all(s.skip(needle.len() as int), needle, value)
    } else {
        seq![s[0]] + replace_all(s.drop_first(), needle, value)
    }
}

/// The template after each (needle, value) replacement in order.
pub open spec fn template_applied(template: Seq<char>, replacements: Seq<(&str, String)>) -> Seq<char>
    decreases replacements.len(),
{
    if replacements.len() == 0 {
        template
    } else {
        let last = replacements.last();
        replace_all(template_applied(template, replacements.drop_last()), last.0@, last.1@)
    }
}

fn starts_with_at(s: &[char], i: usize, needle: &[char]) -> (r: bool)
    requires
        i <= s@.len(),
    ensures
        r == (i + needle@.len() <= s@.len() && s@.skip(i as int).take(needle@.len() as int)
            == needle@),
{
    if s.len() - i < needle.len() {
        return false;
    }
    let mut k: usize = 0;
    while k < needle.len()
        invariant
            i + needle@.len() <= s@.len(),
            s@.len() == s.len(),
            k <= needle@.len(),
            forall|j: int| 0 <= j < k ==> s@[i + j] == needle@[j],
        decreases needle.len() - k,
    {
        if s[i + k] != needle[k] {
            assert(s@.skip(i as int).take(needle@.len() as int)[k as int] != needle@[k as int]);
            return false;
        }
        k = k + 1;
    }
    assert(s@.skip(i as int).take(needle@.len() as int) =~= needle@);
    true
}

fn push_all(out: &mut Vec<char>, chars: &[char])
    ensures
        final(out)@ == old(out)@ + chars@,
{
    let mut i: usize = 0;
    while i < chars.len()
        invariant
            i <= chars@.len(),
            out@ == old(out)@ + chars@.take(i as int),
        decreases chars.len() - i,
    {
        out.push(chars[i]);
        assert(out@ =~= old(out)@ + chars@.take(i + 1));
        i = i + 1;
    }
    assert(chars@.take(chars@.len() as int) =~= chars@);
}

/// `s` with every occurrence of `needle` replaced by `value`.
pub fn replace_chars(s: &[char], needle: &[char], value: &[char]) -> (r: Vec<char>)
    ensures
        r@ == replace_all(s@, needle@, value@),
{
    let mut out: Vec<char> = Vec::new();
    let mut i: usize = 0;
    assert(s@.skip(0) =~= s@);
    if needle.len() == 0 {
        while i < s.len()
            invariant
                i <= s@.len(),
                out@ + replace_empty(s@.skip(i as int), value@) == replace_empty(s@, value@),
            decreases s.len() - i,
        {
            assert(s@.skip(i as int).drop_first() =~= s@.skip(i + 1));
            let ghost before = out@;
            push_all(&mut out, value);
            out.push(s[i]);
            assert(out@ =~= before + value@ + seq![s@[i as int]]);
            assert(before + replace_empty(s@.skip(i as int), value@) =~= out@ + replace_empty(
                s@.skip(i + 1),
                value@,
            ));
            i = i + 1;
        }
        assert(s@.skip(i as int) =~= Seq::<char>::empty());
        push_all(&mut out, value);
        return out;
    }
    while i < s.len()
        invariant
            needle@.len() > 0,
            i <= s@.len(),
            out@ + replace_all(s@.skip(i as int), needle@, value@) == replace_all(
                s@,
                needle@,
                value@,
            ),
        decreases s.len() - i,
    {
        let ghost before = out@;
        let ghost rest = s@.skip(i as int);
        if starts_with_at(s, i, needle) {
            assert(rest.take(needle@.len() as int) == needle@);
            assert(rest.skip(needle@.len() as int) =~= s@.skip(i + needle@.len()));
            push_all(&mut out, value);
            assert(before + replace_all(rest, needle@, value@) =~= out@ + replace_all(
                s@.skip(i + needle@.len()),
                needle@,
                value@,
            ));
            i = i + needle.len();
        } else {
            proof {
                if rest.len() >= needle@.len() {
                    assert(rest.take(needle@.len() as int) != needle@);
                } else {
                    assert(replace_all(rest.drop_first(), needle@, value@) == rest.drop_first());
                    assert(rest =~= seq![rest[0]] + rest.drop_first());
                }
            }
            assert(rest.drop_first() =~= s@.skip(i + 1));
            out.push(s[i]);
            assert(before + replace_all(rest, needle@, value@) =~= out@ + replace_all(
                s@.skip(i + 1),
                needle@,
                value@,
            ));
            i = i + 1;
        }
    }
    assert(s@.skip(i as int) =~= Seq::<char>::empty());
    assert(out@ + replace_all(Seq::<char>::empty(), needle@, value@) =~= out@);
    out
}

/// The template with each (needle, value) pair replaced in turn, every
/// occurrence of the needle standing for the value.
pub fn apply_calendar_template(template: &str, replacements: &[(&str, String)]) -> (r: String)
    ensures
        r@ == template_applied(template@, replacements@),
{
    let mut out = chars_of(template);
    let mut i: usize = 0;
    while i < replacements.len()
        invariant
            i <= replacements@.len(),
            out@ == template_applied(template@, replacements@.take(i as int)),
        decreases replacements.len() - i,
    {
        let (needle, value) = &replacements[i];
        let needle_chars = chars_of(needle);
        let value_chars = chars_of(value.as_str());
        out = replace_chars(out.as_slice(), needle_chars.as_slice(), value_chars.as_slice());
        assert(replacements@.take(i + 1).drop_last() =~= replacements@.take(i as int));
        assert(replacements@.take(i + 1).last() == replacements@[i as int]);
        i = i + 1;
    }
    assert(replacements@.take(replacements@.len() as int) =~= replacements@);
    string_of(out.as_slice())
}

/// Text in which `needle` never occurs is left as it is.
pub proof fn replace_without_occurrence_keeps_text(s: Seq<char>, needle: Seq<char>, value: Seq<char>)
    requires
        needle.len() > 0,
        forall|i: int| 0 <= i && i + needle.len() <= s.len() ==> #[trigger] s.subrange(i, i + needle.len()) != needle,
    ensures
        replace_all(s, needle, value) == s,
    decreases s.len(),
{
    if s.len() >= needle.len() {
        assert(s.subrange(0int, 0int + needle.len()) != needle);
        assert(s.take(needle.len() as int) =~= s.subrange(0int, 0int + needle.len()));
        let rest = s.drop_first();
        assert forall|i: int| 0 <= i && i + needle.len() <= rest.len() implies #[trigger] rest.subrange(
            i,
            i + needle.len(),
        ) != needle by {
            assert(rest.subrange(i, i + needle.len()) =~= s.subrange(i + 1, i + 1 + needle.len()));
        }
        replace_without_occurrence_keeps_text(rest, needle, value);
        assert(seq![s[0]] + rest =~= s);
    }
}

/// A needle standing alone becomes the value, and an occurrence at the
/// start is replaced before the rest is read.
pub proof fn replace_needle_at_start(rest: Seq<char>, needle: Seq<char>, value: Seq<char>)
    requires
        needle.len() > 0,
    ensures
        replace_all(needle + rest, needle, value) == value + replace_all(rest, needle, value),
        replace_all(needle, needle, value) == value,
{
    assert((needle + rest).take(needle.len() as int) =~= needle);
    assert((needle + rest).skip(needle.len() as int) =~= rest);
    assert(needle.take(needle.len() as int) =~= needle);
    assert(needle.skip(needle.len() as int) =~= Seq::<char>::empty());
    assert(replace_all(Seq::<char>::empty(), needle, value) == Seq::<char>::empty());
    assert(value + Seq::<char>::empty() =~= value);
    assert(replace_all(needle, needle, value) == value + replace_all(
        needle.skip(needle.len() as int),
        needle,
        value,
    ));
}

/// A month label from a template: `{year}` becomes the year, `{monthPad}`
/// the two-digit month and `{month}` the month, replaced in that order.
pub open spec fn month_label_of(template: Seq<char>, year: int, month: nat) -> Seq<char> {
    let with_year = replace_all(
        template,
        seq!['{', 'y', 'e', 'a', 'r', '}'],
        signed_zero_padded(year, 0),
    );
    let with_pad = replace_all(
        with_year,
        seq!['{', 'm', 'o', 'n', 't', 'h', 'P', 'a', 'd', '}'],
        zero_padded(month, 2),
    );
    replace_all(with_pad, seq!['{', 'm', 'o', 'n', 't', 'h', '}'], decimal_digits(month))
}

/// Each placeholder alone reads as its value: `{year}` the year,
/// `{monthPad}` the month in two digits, `{month}` the month's digits; and a
/// template without `{` is its own label.
pub proof fn month_label_placeholders(template: Seq<char>, year: int, month: nat)
    ensures
        month_label_of(seq!['{', 'm', 'o', 'n', 't', 'h', '}'], year, month) == decimal_digits(month),
        month_label_of(seq!['{', 'm', 'o', 'n', 't', 'h', 'P', 'a', 'd', '}'], year, month)
            == zero_padded(month, 2),
        (forall|i: int| 0 <= i < template.len() ==> template[i] != '{') ==> month_label_of(
            template,
            year,
            month,
        ) == template,
{
    let year_needle = seq!['{', 'y', 'e', 'a', 'r', '}'];
    let pad_needle = seq!['{', 'm', 'o', 'n', 't', 'h', 'P', 'a', 'd', '}'];
    let month_needle = seq!['{', 'm', 'o', 'n', 't', 'h', '}'];
    // `{month}`: neither `{year}` nor `{monthPad}` occurs in it.
    assert forall|i: int| 0 <= i && i + 6 <= 7 implies #[trigger] month_needle.subrange(i, i + 6)
        != year_needle by {
        if i == 0 {
            assert(month_needle.subrange(i, i + 6)[1] == 'm');
        } else {
            assert(month_needle.subrange(i, i + 6)[0] == 'm');
        }
    }
    replace_without_occurrence_keeps_text(month_needle, year_needle, signed_zero_padded(year, 0));
    replace_without_occurrence_keeps_text(month_needle, pad_needle, zero_padded(month, 2));
    replace_needle_at_start(Seq::<char>::empty(), month_needle, decimal_digits(month));
    // `{monthPad}`: `{year}` does not occur, `{monthPad}` is replaced, and
    // what remains holds no `{`.
    assert forall|i: int| 0 <= i && i + 6 <= 10 implies #[trigger] pad_needle.subrange(i, i + 6)
        != year_needle by {
        if i == 0 {
            assert(pad_needle.subrange(i, i + 6)[1] == 'm');
        } else {
            assert(pad_needle.subrange(i, i + 6)[0] == pad_needle[i]);
        }
    }
    replace_without_occurrence_keeps_text(pad_needle, year_needle, signed_zero_padded(year, 0));
    replace_needle_at_start(Seq::<char>::empty(), pad_needle, zero_padded(month, 2));
    lemma_zero_padded_digits(month, 2);
    assert forall|i: int| 0 <= i && i + 7 <= zero_padded(month, 2).len() implies #[trigger] zero_padded(
        month,
        2,
    ).subrange(i, i + 7) != month_needle by {
        assert(zero_padded(month, 2).subrange(i, i + 7)[0] == zero_padded(month, 2)[i]);
    }
    replace_without_occurrence_keeps_text(zero_padded(month, 2), month_needle, decimal_digits(month));
    // A template without `{` holds none of the placeholders.
    if forall|i: int| 0 <= i < template.len() ==> template[i] != '{' {
        assert forall|i: int| 0 <= i && i + 6 <= template.len() implies #[trigger] template.subrange(
            i,
            i + 6,
        ) != year_needle by {
            assert(template.subrange(i, i + 6)[0] == template[i]);
        }
        replace_without_occurrence_keeps_text(template, year_needle, signed_zero_padded(year, 0));
        assert forall|i: int| 0 <= i && i + 10 <= template.len() implies #[trigger] template.subrange(
            i,
            i + 10,
        ) != pad_needle by {
            assert(template.subrange(i, i + 10)[0] == template[i]);
        }
        replace_without_occurrence_keeps_text(template, pad_needle, zero_padded(month, 2));
        assert forall|i: int| 0 <= i && i + 7 <= template.len() implies #[trigger] template.subrange(
            i,
            i + 7,
        ) != month_needle by {
            assert(template.subrange(i, i + 7)[0] == template[i]);
        }
        replace_without_occurrence_keeps_text(template, month_needle, decimal_digits(month));
    }
}

proof fn lemma_zero_padded_digits(n: nat, width: nat)
    ensures
        forall|i: int| 0 <= i < zero_padded(n, width).len() ==> '0' <= #[trigger] zero_padded(n, width)[i] <= '9',
{
    crate::number_text::decimal_digits_read_back(n);
    let digits = decimal_digits(n);
    if digits.len() < width {
        let pad = Seq::new((width - digits.len()) as nat, |i: int| '0');
        assert forall|i: int| 0 <= i < zero_padded(n, width).len() implies '0' <= #[trigger] zero_padded(
            n,
            width,
        )[i] <= '9' by {
            if i >= pad.len() {
                assert(zero_padded(n, width)[i] == digits[i - pad.len()]);
            }
        }
    }
}

/// The label of `month` of `year` written with a month-label template.
pub fn calendar_month_label(template: &str, year: i32, month: u8) -> (label: String)
    ensures
        label@ == month_label_of(template@, year as int, month as nat),
{
    let mut year_text: Vec<char> = Vec::new();
    push_signed_zero_padded(&mut year_text, year as i64, 0);
    let mut pad_text: Vec<char> = Vec::new();
    push_zero_padded(&mut pad_text, month as u64, 2);
    let mut month_text: Vec<char> = Vec::new();
    push_decimal(&mut month_text, month as u64);
    let year_needle = "{year}";
    let pad_needle = "{monthPad}";
    let month_needle = "{month}";
    proof {
        reveal_strlit("{year}");
        reveal_strlit("{monthPad}");
        reveal_strlit("{month}");
    }
    let mut replacements: Vec<(&str, String)> = Vec::new();
    replacements.push((year_needle, string_of(year_text.as_slice())));
    replacements.push((pad_needle, string_of(pad_text.as_slice())));
    replacements.push((month_needle, string_of(month_text.as_slice())));
    let label = apply_calendar_template(template, replacements.as_slice());
    proof {
        let reps = replacements@;
        assert(reps.drop_last().drop_last().drop_last() =~= Seq::<(&str, String)>::empty());
        assert(year_needle@ =~= seq!['{', 'y', 'e', 'a', 'r', '}']);
        assert(pad_needle@ =~= seq!['{', 'm', 'o', 'n', 't', 'h', 'P', 'a', 'd', '}']);
        assert(month_needle@ =~= seq!['{', 'm', 'o', 'n', 't', 'h', '}']);
        let r2 = reps.drop_last();
        let r1 = r2.drop_last();
        let r0 = r1.drop_last();
        assert(template_applied(template@, r0) == template@);
        assert(r1.last() == reps[0] && r2.last() == reps[1] && reps.last() == reps[2]);
        assert(template_applied(template@, r1) == replace_all(
            template@,
            reps[0].0@,
            reps[0].1@,
        ));
        assert(template_applied(template@, r2) == replace_all(
            template_applied(template@, r1),
            reps[1].0@,
            reps[1].1@,
        ));
        assert(template_applied(template@, reps) == replace_all(
            template_applied(template@, r2),
            reps[2].0@,
            reps[2].1@,
        ));
    }
    label
}

} // verus!
