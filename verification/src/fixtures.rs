//! Deterministic workload inputs of the runtime benchmarks: table cell
//! texts, an editor document and iteration budgets.
use vstd::prelude::*;
use vstd::utf8::is_char_boundary;

use crate::number_text::{decimal_digits, push_decimal, push_zero_padded, zero_padded};
use crate::text::{chars_of, push_char, string_of};
use crate::text_input::{lemma_utf8_concat, utf8};

verus! {

/// Rows of a text table that are visible at once.
pub const TEXT_TABLE_VISIBLE_ROWS: usize = 40;

/// Wrapping cells per band of visible rows.
pub const WRAPPED_CELLS: usize = 4;

/// Byte length of a wrapping cell's text.
pub const WRAPPED_CELL_LEN: usize = 256;

/// Byte length of a short cell's text.
pub const SHORT_CELL_LEN: usize = 8;

/// Four wrapping cells per band of visible rows: column 0 of the first four rows.
pub fn is_wrapped_cell(row: usize, column: usize) -> (r: bool)
    ensures
        r == (column == 0 && row % TEXT_TABLE_VISIBLE_ROWS < WRAPPED_CELLS),
{
    column == 0 && row % TEXT_TABLE_VISIBLE_ROWS < WRAPPED_CELLS
}

/// `{prefix}{row}:{column}`.
pub open spec fn cell_label(prefix: Seq<char>, row: nat, column: nat) -> Seq<char> {
    prefix + decimal_digits(row) + seq![':'] + decimal_digits(column)
}

/// `text` padded with `x` up to `len` bytes (unchanged when it is not shorter).
pub open spec fn padded_to(text: Seq<char>, len: nat) -> Seq<char> {
    if utf8(text).len() < len {
        text + Seq::new((len - utf8(text).len()) as nat, |i: int| 'x')
    } else {
        text
    }
}

/// Calls `String::truncate(new_len)`: keeps the first `new_len` bytes, and
/// leaves a string of at most `new_len` bytes as it is. The call panics when
/// `new_len` is inside a char, which `requires` leaves out.
#[verifier::external_body]
fn truncate_bytes(s: &mut String, new_len: usize)
    requires
        new_len < utf8(old(s)@).len() ==> is_char_boundary(utf8(old(s)@), new_len as int),
    ensures
        utf8(final(s)@) == (if new_len < utf8(old(s)@).len() {
            utf8(old(s)@).take(new_len as int)
        } else {
            utf8(old(s)@)
        }),
{
    s.truncate(new_len)
}

proof fn lemma_x_run_bytes(n: nat)
    ensures
        utf8(Seq::new(n, |i: int| 'x')).len() == n,
    decreases n,
{
    if n > 0 {
        let run = Seq::new(n, |i: int| 'x');
        assert(run =~= seq!['x'] + Seq::new((n - 1) as nat, |i: int| 'x'));
        lemma_utf8_concat(seq!['x'], Seq::new((n - 1) as nat, |i: int| 'x'));
        assert(seq!['x'].drop_first() =~= Seq::<char>::empty());
        assert(vstd::utf8::has_width_1_encoding('x' as u32));
        assert(seq!['x'][0] == 'x');
        assert(vstd::utf8::encode_scalar('x' as u32).len() == 1);
        assert(vstd::utf8::encode_utf8(Seq::<char>::empty()) =~= Seq::<u8>::empty());
        assert(vstd::utf8::encode_utf8(seq!['x']) == vstd::utf8::encode_scalar('x' as u32)
            + vstd::utf8::encode_utf8(seq!['x'].drop_first()));
        assert(utf8(seq!['x']).len() == 1);
        lemma_x_run_bytes((n - 1) as nat);
    }
}

/// The text of a benchmark table cell: `{prefix}{row}:{column}` padded with
/// `x` and cut to exactly `len` bytes.
pub fn padded_cell_text(prefix: &str, row: usize, column: usize, len: usize) -> (text: String)
    requires
        len < utf8(cell_label(prefix@, row as nat, column as nat)).len() ==> is_char_boundary(
            utf8(cell_label(prefix@, row as nat, column as nat)),
            len as int,
        ),
        utf8(cell_label(prefix@, row as nat, column as nat)).len() <= usize::MAX,
    ensures
        utf8(text@) == utf8(padded_to(cell_label(prefix@, row as nat, column as nat), len as nat)).take(
            len as int,
        ),
{
    let ghost label = cell_label(prefix@, row as nat, column as nat);
    let mut chars = chars_of(prefix);
    push_decimal(&mut chars, row as u64);
    chars.push(':');
    push_decimal(&mut chars, column as u64);
    assert(chars@ =~= label);
    let mut text = string_of(chars.as_slice());
    let current = text.as_str().len();
    if current < len {
        let missing = len - current;
        let mut k: usize = 0;
        while k < missing
            invariant
                k <= missing,
                text@ == label + Seq::new(k as nat, |i: int| 'x'),
            decreases missing - k,
        {
            push_char(&mut text, 'x');
            assert(text@ =~= label + Seq::new((k + 1) as nat, |i: int| 'x'));
            k = k + 1;
        }
        proof {
            lemma_utf8_concat(label, Seq::new(missing as nat, |i: int| 'x'));
            lemma_x_run_bytes(missing as nat);
        }
    }
    let ghost padded = utf8(text@);
    truncate_bytes(&mut text, len);
    assert(padded.len() <= len ==> padded.take(len as int) =~= padded);
    text
}

/// One line of the benchmark editor document.
pub open spec fn editor_line(row: nat) -> Seq<char> {
    seq!['r', 'o', 'w', ' '] + zero_padded(row, 4) + seq![
        ' ',
        'l',
        'o',
        'c',
        'a',
        'l',
        ' ',
        'e',
        'd',
        'i',
        't',
        ' ',
        'l',
        'i',
        'n',
        'e',
        '\n',
    ]
}

/// The first `rows` lines of the editor document.
pub open spec fn editor_text(rows: nat) -> Seq<char>
    decreases rows,
{
    if rows == 0 {
        Seq::empty()
    } else {
        editor_text((rows - 1) as nat) + editor_line((rows - 1) as nat)
    }
}

proof fn lemma_editor_text_grows(rows: nat)
    ensures
        editor_text(rows).len() >= rows,
    decreases rows,
{
    if rows > 0 {
        lemma_editor_text_grows((rows - 1) as nat);
    }
}

proof fn lemma_editor_text_prefix(a: nat, b: nat)
    requires
        a <= b,
    ensures
        editor_text(a).len() <= editor_text(b).len(),
        editor_text(b).take(editor_text(a).len() as int) == editor_text(a),
    decreases b,
{
    if a < b {
        lemma_editor_text_prefix(a, (b - 1) as nat);
        let prev = editor_text((b - 1) as nat);
        assert(editor_text(b).take(prev.len() as int) =~= prev);
        assert(editor_text(b).take(editor_text(a).len() as int) =~= prev.take(
            editor_text(a).len() as int,
        ));
    }
}

/// A benchmark editor document of exactly `chars` characters: lines
/// `row 0000 local edit line`, `row 0001 ...`, cut at `chars`.
pub fn editor_document(chars: usize) -> (text: String)
    ensures
        text@.len() == chars,
        forall|rows: nat| #[trigger] editor_text(rows).len() >= chars ==> text@ == editor_text(rows).take(
            chars as int,
        ),
{
    let mut out: Vec<char> = Vec::new();
    let mut row: usize = 0;
    while out.len() < chars
        invariant
            out@ == editor_text(row as nat),
            row <= out@.len(),
        decreases chars - row,
    {
        proof {
            lemma_editor_text_grows((row + 1) as nat);
        }
        let ghost before = out@;
        out.push('r');
        out.push('o');
        out.push('w');
        out.push(' ');
        push_zero_padded(&mut out, row as u64, 4);
        let tail = [' ', 'l', 'o', 'c', 'a', 'l', ' ', 'e', 'd', 'i', 't', ' ', 'l', 'i', 'n', 'e', '\n'];
        let mut k: usize = 0;
        let ghost mid = out@;
        while k < tail.len()
            invariant
                k <= tail@.len(),
                out@ == mid + tail@.take(k as int),
            decreases tail.len() - k,
        {
            out.push(tail[k]);
            assert(out@ =~= mid + tail@.take(k + 1));
            k = k + 1;
        }
        assert(out@ =~= before + editor_line(row as nat));
        row = row + 1;
    }
    let mut result: Vec<char> = Vec::new();
    let mut i: usize = 0;
    while i < chars
        invariant
            i <= chars <= out@.len(),
            result@ == out@.take(i as int),
        decreases chars - i,
    {
        result.push(out[i]);
        assert(result@ =~= out@.take(i + 1));
        i = i + 1;
    }
    proof {
        assert forall|rows: nat| #[trigger] editor_text(rows).len() >= chars implies result@
            == editor_text(rows).take(chars as int) by {
            let n = row as nat;
            if rows <= n {
                lemma_editor_text_prefix(rows, n);
                assert(out@.take(chars as int) =~= editor_text(rows).take(chars as int));
            } else {
                lemma_editor_text_prefix(n, rows);
                assert(out@.take(chars as int) =~= editor_text(rows).take(chars as int));
            }
        }
    }
    string_of(result.as_slice())
}

/// Warm-up and measured iterations of the theme benchmark for a fixture of
/// `controls` controls: fewer for ten thousand controls and more.
pub fn iteration_budget(controls: usize) -> (r: (usize, usize))
    ensures
        r == (if controls >= 10_000 {
            (1usize, 3usize)
        } else {
            (3usize, 12usize)
        }),
{
    if controls >= 10_000 {
        (1, 3)
    } else {
        (3, 12)
    }
}

} // verus!
