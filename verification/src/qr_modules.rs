//! The module matrix of a QR code written as markup text: a run of `0`/`1`
//! digits, or a list of `1`/`true`/`TRUE` and `0`/`false`/`FALSE` tokens
//! between brackets, commas, semicolons and white space; square unless a
//! width is given.
use vstd::prelude::*;

use crate::attributes::optional_view;
use crate::number_text::{parse_usize, parsed_integer};
use crate::semantic::{attr_value, or_attr, SemanticSpec};
use crate::text::{
    chars_eq, is_white_space, lemma_leading_white_bound, lemma_trailing_white_bound,
    leading_white, trailing_white, trim_end_seq, trim_seq, trim_start_seq, trimmed_chars,
};

verus! {

pub open spec fn is_qr_separator(c: char) -> bool {
    c == '[' || c == ']' || c == ',' || c == ';' || c == ' ' || c == '\n' || c == '\t' || c == '\r'
}

/// `s` cut at every separator (empty pieces included).
pub open spec fn qr_parts(s: Seq<char>) -> Seq<Seq<char>>
    decreases s.len(),
{
    if s.len() == 0 {
        seq![Seq::<char>::empty()]
    } else {
        let parts = qr_parts(s.drop_last());
        if is_qr_separator(s.last()) {
            parts.push(Seq::<char>::empty())
        } else {
            parts.update(parts.len() - 1, parts.last().push(s.last()))
        }
    }
}

/// The non-empty pieces among `parts`, in order.
pub open spec fn nonempty_parts(parts: Seq<Seq<char>>) -> Seq<Seq<char>>
    decreases parts.len(),
{
    if parts.len() == 0 {
        parts
    } else if parts.last().len() > 0 {
        nonempty_parts(parts.drop_last()).push(parts.last())
    } else {
        nonempty_parts(parts.drop_last())
    }
}

/// The non-empty pieces of `s` between separators.
pub open spec fn qr_tokens(s: Seq<char>) -> Seq<Seq<char>> {
    nonempty_parts(qr_parts(s))
}

pub open spec fn token_bit(t: Seq<char>) -> Option<bool> {
    if t == seq!['1'] || t == seq!['t', 'r', 'u', 'e'] || t == seq!['T', 'R', 'U', 'E'] {
        Some(true)
    } else if t == seq!['0'] || t == seq!['f', 'a', 'l', 's', 'e'] || t == seq!['F', 'A', 'L', 'S', 'E'] {
        Some(false)
    } else {
        None
    }
}

/// The bits of all tokens, or `None` if any token is not a bit.
pub open spec fn token_bits(tokens: Seq<Seq<char>>) -> Option<Seq<bool>>
    decreases tokens.len(),
{
    if tokens.len() == 0 {
        Some(Seq::empty())
    } else {
        match (token_bits(tokens.drop_last()), token_bit(tokens.last())) {
            (Some(bits), Some(b)) => Some(bits.push(b)),
            _ => None,
        }
    }
}

pub open spec fn is_binary_digits(s: Seq<char>) -> bool {
    forall|i: int| 0 <= i < s.len() ==> (#[trigger] s[i] == '0' || s[i] == '1')
}

/// The cells written in trimmed, non-empty text.
pub open spec fn qr_cells_of(t: Seq<char>) -> Option<Seq<bool>> {
    if is_binary_digits(t) {
        Some(t.map_values(|c: char| c == '1'))
    } else {
        token_bits(qr_tokens(t))
    }
}

/// The positive square root of `n`, when `n` is a positive square.
pub open spec fn exact_square_root(n: int) -> Option<int> {
    if exists|r: int| r > 0 && #[trigger] (r * r) == n {
        Some(choose|r: int| r > 0 && #[trigger] (r * r) == n)
    } else {
        None
    }
}

/// The cells and width of a module matrix: the text must hold at least one
/// cell, and the width (given, or else the square root of the cell count)
/// must be positive with `width * width` cells.
pub open spec fn qr_matrix_of(raw: Seq<char>, width_hint: Option<usize>) -> Option<(Seq<bool>, int)> {
    let t = trim_seq(raw);
    if t.len() == 0 {
        None
    } else {
        match qr_cells_of(t) {
            None => None,
            Some(cells) => {
                let width = match width_hint {
                    Some(w) => Some(w as int),
                    None => exact_square_root(cells.len() as int),
                };
                match width {
                    Some(w) => if cells.len() > 0 && w > 0 && w * w == cells.len() {
                        Some((cells, w))
                    } else {
                        None
                    },
                    None => None,
                }
            },
        }
    }
}

proof fn lemma_parts_nonempty(s: Seq<char>)
    ensures
        qr_parts(s).len() >= 1,
    decreases s.len(),
{
    if s.len() > 0 {
        lemma_parts_nonempty(s.drop_last());
    }
}

/// The pieces of `chars` between separators.
fn split_qr(chars: &[char]) -> (parts: Vec<Vec<char>>)
    ensures
        parts@.len() == qr_parts(chars@).len(),
        forall|i: int| 0 <= i < parts@.len() ==> #[trigger] parts@[i]@ == qr_parts(chars@)[i],
{
    let mut parts: Vec<Vec<char>> = Vec::new();
    let mut current: Vec<char> = Vec::new();
    let mut i: usize = 0;
    assert(chars@.take(0) =~= Seq::<char>::empty());
    while i < chars.len()
        invariant
            i <= chars@.len(),
            parts@.len() + 1 == qr_parts(chars@.take(i as int)).len(),
            forall|k: int| 0 <= k < parts@.len() ==> #[trigger] parts@[k]@ == qr_parts(
                chars@.take(i as int),
            )[k],
            current@ == qr_parts(chars@.take(i as int)).last(),
        decreases chars.len() - i,
    {
        let ghost before = qr_parts(chars@.take(i as int));
        proof {
            lemma_parts_nonempty(chars@.take(i as int));
        }
        assert(chars@.take(i + 1).drop_last() =~= chars@.take(i as int));
        assert(chars@.take(i + 1).last() == chars@[i as int]);
        let c = chars[i];
        if c == '[' || c == ']' || c == ',' || c == ';' || c == ' ' || c == '\n' || c == '\t' || c
            == '\r' {
            parts.push(current);
            current = Vec::new();
        } else {
            current.push(c);
        }
        i = i + 1;
    }
    assert(chars@.take(chars@.len() as int) =~= chars@);
    proof {
        lemma_parts_nonempty(chars@);
    }
    parts.push(current);
    parts
}

fn token_bit_of(t: &[char]) -> (r: Option<bool>)
    ensures
        r == token_bit(t@),
{
    assert(['1']@ =~= seq!['1']);
    assert(['t', 'r', 'u', 'e']@ =~= seq!['t', 'r', 'u', 'e']);
    assert(['T', 'R', 'U', 'E']@ =~= seq!['T', 'R', 'U', 'E']);
    assert(['0']@ =~= seq!['0']);
    assert(['f', 'a', 'l', 's', 'e']@ =~= seq!['f', 'a', 'l', 's', 'e']);
    assert(['F', 'A', 'L', 'S', 'E']@ =~= seq!['F', 'A', 'L', 'S', 'E']);
    if chars_eq(t, &['1']) || chars_eq(t, &['t', 'r', 'u', 'e']) || chars_eq(t, &['T', 'R', 'U', 'E']) {
        Some(true)
    } else if chars_eq(t, &['0']) || chars_eq(t, &['f', 'a', 'l', 's', 'e']) || chars_eq(
        t,
        &['F', 'A', 'L', 'S', 'E'],
    ) {
        Some(false)
    } else {
        None
    }
}

/// The cells written in trimmed, non-empty text.
fn qr_cells(t: &[char]) -> (r: Option<Vec<bool>>)
    ensures
        match r {
            Some(cells) => qr_cells_of(t@) == Some(cells@),
            None => qr_cells_of(t@) is None,
        },
{
    let mut binary = true;
    let mut i: usize = 0;
    while i < t.len()
        invariant
            i <= t@.len(),
            binary == (forall|j: int| 0 <= j < i ==> (#[trigger] t@[j] == '0' || t@[j] == '1')),
        decreases t.len() - i,
    {
        if t[i] != '0' && t[i] != '1' {
            binary = false;
        }
        i = i + 1;
    }
    if binary {
        let mut cells: Vec<bool> = Vec::new();
        let mut k: usize = 0;
        while k < t.len()
            invariant
                k <= t@.len(),
                cells@ == t@.take(k as int).map_values(|c: char| c == '1'),
            decreases t.len() - k,
        {
            cells.push(t[k] == '1');
            assert(cells@ =~= t@.take(k + 1).map_values(|c: char| c == '1'));
            k = k + 1;
        }
        assert(t@.take(t@.len() as int) =~= t@);
        return Some(cells);
    }
    let parts = split_qr(t);
    let ghost all_parts = qr_parts(t@);
    let mut cells: Vec<bool> = Vec::new();
    let mut k: usize = 0;
    assert(all_parts.take(0) =~= Seq::<Seq<char>>::empty());
    while k < parts.len()
        invariant
            k <= parts@.len(),
            parts@.len() == all_parts.len(),
            all_parts == qr_parts(t@),
            !is_binary_digits(t@),
            forall|i: int| 0 <= i < parts@.len() ==> #[trigger] parts@[i]@ == all_parts[i],
            token_bits(nonempty_parts(all_parts.take(k as int))) == Some(cells@),
        decreases parts.len() - k,
    {
        let ghost prefix = all_parts.take(k as int);
        proof {
            lemma_filter_step(all_parts, k as int);
            lemma_bits_push(nonempty_parts(prefix), all_parts[k as int]);
        }
        assert(all_parts.take(k + 1).drop_last() =~= prefix);
        assert(all_parts.take(k + 1).last() == parts@[k as int]@);
        if parts[k].len() > 0 {
            match token_bit_of(parts[k].as_slice()) {
                Some(b) => {
                    cells.push(b);
                },
                None => {
                    proof {
                        lemma_token_bits_prefix_none(all_parts, (k + 1) as int);
                    }
                    return None;
                },
            }
        }
        k = k + 1;
    }
    assert(all_parts.take(parts@.len() as int) =~= all_parts);
    Some(cells)
}

proof fn lemma_filter_step(parts: Seq<Seq<char>>, k: int)
    requires
        0 <= k < parts.len(),
    ensures
        nonempty_parts(parts.take(k + 1)) == (if parts[k].len() > 0 {
            nonempty_parts(parts.take(k)).push(parts[k])
        } else {
            nonempty_parts(parts.take(k))
        }),
{
    assert(parts.take(k + 1).drop_last() =~= parts.take(k));
    assert(parts.take(k + 1).last() == parts[k]);
}

proof fn lemma_bits_push(tokens: Seq<Seq<char>>, t: Seq<char>)
    ensures
        token_bits(tokens.push(t)) == (match (token_bits(tokens), token_bit(t)) {
            (Some(bits), Some(b)) => Some(bits.push(b)),
            _ => None,
        }),
{
    assert(tokens.push(t).drop_last() =~= tokens);
}

/// Once some token is not a bit, no longer token list has bits.
proof fn lemma_token_bits_prefix_none(parts: Seq<Seq<char>>, k: int)
    requires
        0 <= k <= parts.len(),
        token_bits(nonempty_parts(parts.take(k))) is None,
    ensures
        token_bits(nonempty_parts(parts)) is None,
    decreases parts.len() - k,
{
    if k < parts.len() {
        lemma_filter_step(parts, k);
        lemma_bits_push(nonempty_parts(parts.take(k)), parts[k]);
        lemma_token_bits_prefix_none(parts, k + 1);
    } else {
        assert(parts.take(k) =~= parts);
    }
}

/// The positive integer square root of `n`, when `n` is a positive square.
fn exact_root(n: usize) -> (r: Option<usize>)
    ensures
        match r {
            Some(root) => exact_square_root(n as int) == Some(root as int),
            None => exact_square_root(n as int) is None,
        },
{
    let mut r: usize = 0;
    // Largest r with r * r <= n.
    while r < n && (r + 1) <= n / (r + 1)
        invariant
            r <= n,
            r * r <= n,
        decreases n - r,
    {
        proof {
            let rr: int = r as int + 1;
            let nn: int = n as int;
            assert(rr * rr <= nn) by (nonlinear_arith)
                requires
                    rr <= nn / rr,
                    rr > 0,
            ;
        }
        r = r + 1;
    }
    proof {
        let rr: int = r as int + 1;
        let nn: int = n as int;
        assert(nn < rr * rr) by (nonlinear_arith)
            requires
                r == nn || rr > nn / rr,
                r * r <= nn,
                r >= 0,
                rr == r + 1,
        ;
    }
    if r > 0 && r * r == n {
        proof {
            lemma_root_unique(n as int, r as int);
        }
        Some(r)
    } else {
        proof {
            if exists|x: int| x > 0 && #[trigger] (x * x) == n {
                let x = choose|x: int| x > 0 && #[trigger] (x * x) == n;
                let rr: int = r as int;
                assert(x >= rr) by (nonlinear_arith)
                    requires
                        x > 0,
                        rr >= 0,
                        x * x >= rr * rr,
                ;
                assert(x <= rr) by (nonlinear_arith)
                    requires
                        x > 0,
                        rr >= 0,
                        x * x < (rr + 1) * (rr + 1),
                ;
            }
        }
        None
    }
}

proof fn lemma_root_unique(n: int, r: int)
    requires
        r > 0,
        r * r == n,
    ensures
        exact_square_root(n) == Some(r),
{
    assert(r * r == n);
    let x = choose|x: int| x > 0 && #[trigger] (x * x) == n;
    assert(x == r) by (nonlinear_arith)
        requires
            x > 0,
            r > 0,
            x * x == r * r,
    ;
}

/// Module tokens: `1`, `true` and `TRUE` are dark, `0`, `false` and
/// `FALSE` light, and nothing else is a module; a text of `0`/`1` digits
/// alone is read digit by digit, `1` dark.
pub proof fn module_tokens_and_digit_runs(t: Seq<char>)
    ensures
        token_bit(seq!['1']) == Some(true),
        token_bit(seq!['t', 'r', 'u', 'e']) == Some(true),
        token_bit(seq!['T', 'R', 'U', 'E']) == Some(true),
        token_bit(seq!['0']) == Some(false),
        token_bit(seq!['f', 'a', 'l', 's', 'e']) == Some(false),
        token_bit(seq!['F', 'A', 'L', 'S', 'E']) == Some(false),
        token_bit(t) is Some ==> t == seq!['1'] || t == seq!['t', 'r', 'u', 'e'] || t == seq![
            'T',
            'R',
            'U',
            'E',
        ] || t == seq!['0'] || t == seq!['f', 'a', 'l', 's', 'e'] || t == seq!['F', 'A', 'L', 'S', 'E'],
        (forall|i: int| 0 <= i < t.len() ==> t[i] == '0' || t[i] == '1') ==> (qr_cells_of(t) matches Some(
            cells,
        ) && cells.len() == t.len() && forall|i: int| 0 <= i < t.len() ==> cells[i] == (t[i] == '1')),
{
    assert(seq!['1'][0] == '1' && seq!['0'][0] == '0');
    assert(seq!['1'] != seq!['0']);
    assert(seq!['t', 'r', 'u', 'e'][0] == 't' && seq!['T', 'R', 'U', 'E'][0] == 'T');
    assert(seq!['t', 'r', 'u', 'e'] != seq!['T', 'R', 'U', 'E']);
    assert(seq!['f', 'a', 'l', 's', 'e'].len() == 5 && seq!['t', 'r', 'u', 'e'].len() == 4);
    assert(seq!['F', 'A', 'L', 'S', 'E'].len() == 5 && seq!['T', 'R', 'U', 'E'].len() == 4);
    assert(seq!['1'].len() == 1 && seq!['0'].len() == 1);
}

/// A space, line break, tab or carriage return.
spec fn is_spacing(c: char) -> bool {
    c == ' ' || c == '\n' || c == '\t' || c == '\r'
}

/// `a` and `b` agree except at places where both hold spacing.
spec fn same_but_spacing(a: Seq<char>, b: Seq<char>) -> bool {
    &&& a.len() == b.len()
    &&& forall|k: int| 0 <= k < a.len() ==> a[k] == b[k] || (is_spacing(a[k]) && is_spacing(b[k]))
}

proof fn lemma_spacing_parts(a: Seq<char>, b: Seq<char>)
    requires
        same_but_spacing(a, b),
    ensures
        qr_parts(a) == qr_parts(b),
    decreases a.len(),
{
    if a.len() > 0 {
        lemma_spacing_parts(a.drop_last(), b.drop_last());
        assert(a.last() == a[a.len() - 1]);
        assert(b.last() == b[b.len() - 1]);
    }
}

proof fn lemma_spacing_leading(a: Seq<char>, b: Seq<char>)
    requires
        same_but_spacing(a, b),
    ensures
        leading_white(a) == leading_white(b),
    decreases a.len(),
{
    if a.len() > 0 {
        assert(same_but_spacing(a.drop_first(), b.drop_first())) by {
            assert forall|k: int| 0 <= k < a.len() - 1 implies a.drop_first()[k] == b.drop_first()[k]
                || (is_spacing(a.drop_first()[k]) && is_spacing(b.drop_first()[k])) by {
                assert(a.drop_first()[k] == a[k + 1]);
                assert(b.drop_first()[k] == b[k + 1]);
            }
        }
        lemma_spacing_leading(a.drop_first(), b.drop_first());
        assert(a[0] == b[0] || (is_spacing(a[0]) && is_spacing(b[0])));
    }
}

proof fn lemma_spacing_trailing(a: Seq<char>, b: Seq<char>)
    requires
        same_but_spacing(a, b),
    ensures
        trailing_white(a) == trailing_white(b),
    decreases a.len(),
{
    if a.len() > 0 {
        lemma_spacing_trailing(a.drop_last(), b.drop_last());
        assert(a.last() == a[a.len() - 1]);
        assert(b.last() == b[b.len() - 1]);
    }
}

proof fn lemma_spacing_trim(a: Seq<char>, b: Seq<char>)
    requires
        same_but_spacing(a, b),
    ensures
        same_but_spacing(trim_seq(a), trim_seq(b)),
{
    lemma_spacing_leading(a, b);
    lemma_leading_white_bound(a);
    let la = leading_white(a) as int;
    let sa = trim_start_seq(a);
    let sb = trim_start_seq(b);
    assert(same_but_spacing(sa, sb)) by {
        assert forall|k: int| 0 <= k < sa.len() implies sa[k] == sb[k] || (is_spacing(sa[k])
            && is_spacing(sb[k])) by {
            assert(sa[k] == a[k + la]);
            assert(sb[k] == b[k + la]);
        }
    }
    lemma_spacing_trailing(sa, sb);
    lemma_trailing_white_bound(sa);
    let ta = trim_end_seq(sa);
    let tb = trim_end_seq(sb);
    assert forall|k: int| 0 <= k < ta.len() implies ta[k] == tb[k] || (is_spacing(ta[k])
        && is_spacing(tb[k])) by {
        assert(ta[k] == sa[k]);
        assert(tb[k] == sb[k]);
    }
}

proof fn lemma_spacing_cells(a: Seq<char>, b: Seq<char>)
    requires
        same_but_spacing(a, b),
    ensures
        qr_cells_of(a) == qr_cells_of(b),
{
    if is_binary_digits(a) || is_binary_digits(b) {
        assert forall|k: int| 0 <= k < a.len() implies a[k] == b[k] by {
            if is_binary_digits(a) {
                assert(a[k] == '0' || a[k] == '1');
            } else {
                assert(b[k] == '0' || b[k] == '1');
            }
        }
        assert(a =~= b);
    } else {
        lemma_spacing_parts(a, b);
    }
}

/// A line break, tab or carriage return separates module tokens exactly as
/// a space does: writing one in place of any space leaves the matrix read
/// from the text unchanged.
pub proof fn line_breaks_separate_like_spaces(
    raw: Seq<char>,
    i: int,
    c: char,
    width_hint: Option<usize>,
)
    requires
        0 <= i < raw.len(),
        raw[i] == ' ',
        c == '\n' || c == '\t' || c == '\r',
    ensures
        qr_matrix_of(raw.update(i, c), width_hint) == qr_matrix_of(raw, width_hint),
{
    let other = raw.update(i, c);
    assert(same_but_spacing(other, raw));
    lemma_spacing_trim(other, raw);
    lemma_spacing_cells(trim_seq(other), trim_seq(raw));
}

/// Reads a QR module matrix: the cells row by row and the row width.
/// `None` when the text is blank, holds a token that is not a bit, or the
/// cells do not fill a `width * width` square (`width_hint` overrides the
/// square root of the cell count).
pub fn parse_qr_module_matrix(raw: &str, width_hint: Option<usize>) -> (r: Option<(Vec<bool>, usize)>)
    ensures
        match r {
            Some((cells, width)) => qr_matrix_of(raw@, width_hint) == Some((cells@, width as int)),
            None => qr_matrix_of(raw@, width_hint) is None,
        },
{
    let t = trimmed_chars(raw);
    if t.len() == 0 {
        return None;
    }
    let cells = match qr_cells(t.as_slice()) {
        Some(cells) => cells,
        None => {
            return None;
        },
    };
    if cells.len() == 0 {
        return None;
    }
    let width = match width_hint {
        Some(w) => w,
        None => match exact_root(cells.len()) {
            Some(root) => root,
            None => {
                return None;
            },
        },
    };
    if width == 0 {
        return None;
    }
    match width.checked_mul(width) {
        Some(square) => {
            if square != cells.len() {
                return None;
            }
        },
        None => {
            return None;
        },
    }
    Some((cells, width))
}

/// A width hint: the trimmed attribute parsed as a `usize`, if it parses.
pub open spec fn width_hint_of(raw: Option<Seq<char>>) -> Option<int> {
    match raw {
        Some(v) => parsed_integer(trim_seq(v), 0, usize::MAX as int),
        None => None,
    }
}

pub open spec fn width_hint_usize(raw: Option<Seq<char>>) -> Option<usize> {
    match width_hint_of(raw) {
        Some(w) => Some(w as usize),
        None => None,
    }
}

/// The module matrix a QR code spec carries: the text of `modules` (or
/// `data-modules`), with the width from `module-width`, `modules-width` or
/// `data-module-width` when that parses as a number.
pub fn qr_modules_from_spec(spec: &SemanticSpec) -> (r: Option<(Vec<bool>, usize)>)
    ensures
        ({
            let raw = or_attr(
                attr_value(spec.attrs@, seq!['m', 'o', 'd', 'u', 'l', 'e', 's']),
                spec.attrs@,
                seq!['d', 'a', 't', 'a', '-', 'm', 'o', 'd', 'u', 'l', 'e', 's'],
            );
            let hint_raw = or_attr(
                or_attr(
                    attr_value(spec.attrs@, seq!['m', 'o', 'd', 'u', 'l', 'e', '-', 'w', 'i', 'd', 't', 'h']),
                    spec.attrs@,
                    seq!['m', 'o', 'd', 'u', 'l', 'e', 's', '-', 'w', 'i', 'd', 't', 'h'],
                ),
                spec.attrs@,
                seq!['d', 'a', 't', 'a', '-', 'm', 'o', 'd', 'u', 'l', 'e', '-', 'w', 'i', 'd', 't', 'h'],
            );
            match raw {
                None => r is None,
                Some(text) => match r {
                    Some((cells, width)) => qr_matrix_of(text, width_hint_usize(hint_raw)) == Some(
                        (cells@, width as int),
                    ),
                    None => qr_matrix_of(text, width_hint_usize(hint_raw)) is None,
                },
            }
        }),
{
    let modules = ['m', 'o', 'd', 'u', 'l', 'e', 's'];
    let data_modules = ['d', 'a', 't', 'a', '-', 'm', 'o', 'd', 'u', 'l', 'e', 's'];
    let module_width = ['m', 'o', 'd', 'u', 'l', 'e', '-', 'w', 'i', 'd', 't', 'h'];
    let modules_width = ['m', 'o', 'd', 'u', 'l', 'e', 's', '-', 'w', 'i', 'd', 't', 'h'];
    let data_module_width = ['d', 'a', 't', 'a', '-', 'm', 'o', 'd', 'u', 'l', 'e', '-', 'w', 'i', 'd', 't', 'h'];
    assert(modules@ =~= seq!['m', 'o', 'd', 'u', 'l', 'e', 's']);
    assert(data_modules@ =~= seq!['d', 'a', 't', 'a', '-', 'm', 'o', 'd', 'u', 'l', 'e', 's']);
    assert(module_width@ =~= seq!['m', 'o', 'd', 'u', 'l', 'e', '-', 'w', 'i', 'd', 't', 'h']);
    assert(modules_width@ =~= seq!['m', 'o', 'd', 'u', 'l', 'e', 's', '-', 'w', 'i', 'd', 't', 'h']);
    assert(data_module_width@ =~= seq!['d', 'a', 't', 'a', '-', 'm', 'o', 'd', 'u', 'l', 'e', '-', 'w', 'i', 'd', 't', 'h']);
    let raw = match spec.attr_chars(&modules) {
        Some(v) => v,
        None => match spec.attr_chars(&data_modules) {
            Some(v) => v,
            None => {
                return None;
            },
        },
    };
    let hint_raw = match spec.attr_chars(&module_width) {
        Some(v) => Some(v),
        None => match spec.attr_chars(&modules_width) {
            Some(v) => Some(v),
            None => spec.attr_chars(&data_module_width),
        },
    };
    let width_hint = match hint_raw {
        Some(v) => {
            let t = trimmed_chars(v);
            parse_usize(t.as_slice())
        },
        None => None,
    };
    assert(width_hint == width_hint_usize(optional_view(hint_raw)));
    parse_qr_module_matrix(raw, width_hint)
}

} // verus!
