//! Committed editable text, its selection, and the edits a text field or an
//! input method applies to it. Offsets are UTF-8 byte offsets.
use unicode_segmentation::UnicodeSegmentation;
use vstd::prelude::*;
use vstd::utf8::{encode_utf8, is_char_boundary};

use crate::text::{chars_of, trim_bounds, trim_seq};

verus! {

/// The UTF-8 bytes of a char sequence.
pub open spec fn utf8(s: Seq<char>) -> Seq<u8> {
    encode_utf8(s)
}

/// Byte offsets at which `str::grapheme_indices(true)` (extended grapheme
/// clusters) starts a cluster, in order.
pub uninterp spec fn extended_grapheme_starts(text: Seq<char>) -> Seq<usize>;

/// Calls `UnicodeSegmentation::grapheme_indices(text, true)` and keeps the
/// byte offset of each cluster.
#[verifier::external_body]
fn grapheme_start_offsets(text: &str) -> (starts: Vec<usize>)
    ensures
        starts@ == extended_grapheme_starts(text@),
{
    text.grapheme_indices(true).map(|(offset, _)| offset).collect()
}

/// Calls `String::replace_range(start..end, text)`: the bytes in
/// `start..end` are replaced by the bytes of `text`.
#[verifier::external_body]
fn replace_byte_range(value: &mut String, start: usize, end: usize, text: &str)
    requires
        start <= end <= utf8(old(value)@).len(),
        is_char_boundary(utf8(old(value)@), start as int),
        is_char_boundary(utf8(old(value)@), end as int),
    ensures
        utf8(final(value)@) == utf8(old(value)@).subrange(0, start as int) + utf8(text@) + utf8(
            old(value)@,
        ).subrange(end as int, utf8(old(value)@).len() as int),
{
    value.replace_range(start..end, text)
}

/// An offset that ends the text or starts an extended grapheme cluster.
pub open spec fn grapheme_boundary(text: Seq<char>, offset: usize) -> bool {
    offset == utf8(text).len() || extended_grapheme_starts(text).contains(offset)
}

/// An offset at which a caret may stand in `text`.
pub open spec fn caret_offset_valid(text: Seq<char>, offset: usize) -> bool {
    &&& offset <= utf8(text).len()
    &&& is_char_boundary(utf8(text), offset as int)
    &&& grapheme_boundary(text, offset)
}

/// Diagnostic severity; the editor underline colour follows it.
#[derive(Debug, Clone, Copy, PartialEq, Eq, Structural)]
pub enum TextDiagnosticSeverity {
    Error,
    Warning,
}

/// Editor diagnostic span in byte offsets; the host moves or clears it after
/// the text changes, and geometry clamps what is out of range.
#[derive(Debug, Clone, PartialEq, Eq, Structural)]
pub struct TextDiagnosticSpan {
    pub offset: usize,
    pub length: usize,
    pub severity: TextDiagnosticSeverity,
}

impl TextDiagnosticSpan {
    pub fn new(offset: usize, length: usize, severity: TextDiagnosticSeverity) -> (span: Self)
        ensures
            span == (TextDiagnosticSpan { offset, length, severity }),
    {
        TextDiagnosticSpan { offset, length, severity }
    }
}

/// Anchor and focus of a selection, as byte offsets into the value.
#[derive(Debug, Clone, Copy, PartialEq, Eq, Default, Structural)]
pub struct TextSelection {
    pub anchor: usize,
    pub focus: usize,
}

/// Both ends of `selection` are valid caret offsets in `text`.
pub open spec fn selection_valid(selection: TextSelection, text: Seq<char>) -> bool {
    caret_offset_valid(text, selection.anchor) && caret_offset_valid(text, selection.focus)
}

pub open spec fn min_offset(selection: TextSelection) -> usize {
    if selection.anchor <= selection.focus {
        selection.anchor
    } else {
        selection.focus
    }
}

pub open spec fn max_offset(selection: TextSelection) -> usize {
    if selection.anchor <= selection.focus {
        selection.focus
    } else {
        selection.anchor
    }
}

pub open spec fn caret_at(offset: usize) -> TextSelection {
    TextSelection { anchor: offset, focus: offset }
}

/// Every string slice's UTF-8 length fits in `usize`.
fn utf8_fits(s: &str)
    ensures
        utf8(s@).len() <= usize::MAX,
{
    let bytes = s.as_bytes();
    let _len = bytes.len();
}

fn is_grapheme_boundary(value: &str, offset: usize) -> (r: bool)
    ensures
        r == grapheme_boundary(value@, offset),
{
    utf8_fits(value);
    if offset == value.len() {
        return true;
    }
    let starts = grapheme_start_offsets(value);
    offset_is_boundary(starts.as_slice(), value.len(), offset)
}

/// Whether `offset` ends a text of `len` bytes or is one of the cluster
/// start offsets `starts`.
pub fn offset_is_boundary(starts: &[usize], len: usize, offset: usize) -> (r: bool)
    ensures
        r == (offset == len || starts@.contains(offset)),
{
    if offset == len {
        return true;
    }
    let mut i: usize = 0;
    while i < starts.len()
        invariant
            i <= starts@.len(),
            forall|j: int| 0 <= j < i ==> starts@[j] != offset,
        decreases starts.len() - i,
    {
        if starts[i] == offset {
            assert(starts@.contains(offset));
            return true;
        }
        i = i + 1;
    }
    false
}

impl TextSelection {
    /// A collapsed selection at `offset`.
    pub fn caret(offset: usize) -> (selection: Self)
        ensures
            selection == caret_at(offset),
    {
        TextSelection { anchor: offset, focus: offset }
    }

    /// The selected byte range, lower end first.
    pub fn ordered(self) -> (range: core::ops::Range<usize>)
        ensures
            range.start == min_offset(self),
            range.end == max_offset(self),
    {
        if self.anchor <= self.focus {
            core::ops::Range { start: self.anchor, end: self.focus }
        } else {
            core::ops::Range { start: self.focus, end: self.anchor }
        }
    }

    /// Both ends lie on character and extended-grapheme boundaries of `value`.
    pub fn is_valid_for(self, value: &str) -> (r: bool)
        ensures
            r == selection_valid(self, value@),
    {
        utf8_fits(value);
        self.anchor <= value.len() && self.focus <= value.len() && value.is_char_boundary(
            self.anchor,
        ) && value.is_char_boundary(self.focus) && is_grapheme_boundary(value, self.anchor)
            && is_grapheme_boundary(value, self.focus)
    }
}

/// Committed editable text and its selection. Input-method preedit is kept
/// apart, so cancelling a composition never touches committed text.
#[derive(Debug, Clone, PartialEq, Eq, Default)]
pub struct TextInputState {
    pub value: String,
    pub selection: TextSelection,
}

pub proof fn lemma_utf8_concat(a: Seq<char>, b: Seq<char>)
    ensures
        utf8(a + b) == utf8(a) + utf8(b),
    decreases a.len(),
{
    if a.len() == 0 {
        assert(a + b =~= b);
        assert(utf8(a) =~= Seq::<u8>::empty());
        assert(utf8(a) + utf8(b) =~= utf8(b));
    } else {
        assert((a + b)[0] == a[0]);
        assert((a + b).drop_first() =~= a.drop_first() + b);
        lemma_utf8_concat(a.drop_first(), b);
        assert(utf8(a + b) =~= utf8(a) + utf8(b));
    }
}

/// Number of leading chars on which `a` and `b` agree.
pub open spec fn common_prefix_len(a: Seq<char>, b: Seq<char>) -> nat
    decreases a.len(),
{
    if a.len() > 0 && b.len() > 0 && a[0] == b[0] {
        1 + common_prefix_len(a.drop_first(), b.drop_first())
    } else {
        0
    }
}

/// Number of trailing chars on which `a` and `b` agree.
pub open spec fn common_suffix_len(a: Seq<char>, b: Seq<char>) -> nat
    decreases a.len(),
{
    if a.len() > 0 && b.len() > 0 && a.last() == b.last() {
        1 + common_suffix_len(a.drop_last(), b.drop_last())
    } else {
        0
    }
}

/// Where the caret lands when `before` is replaced by `after`: just past the
/// smallest changed span of `after`.
pub open spec fn inferred_caret_chars(before: Seq<char>, after: Seq<char>) -> int {
    let prefix = common_prefix_len(before, after) as int;
    let suffix = common_suffix_len(before.skip(prefix), after.skip(prefix)) as int;
    after.len() - suffix
}

proof fn lemma_common_prefix(a: Seq<char>, b: Seq<char>)
    ensures
        common_prefix_len(a, b) <= a.len(),
        common_prefix_len(a, b) <= b.len(),
        forall|i: int| 0 <= i < common_prefix_len(a, b) ==> a[i] == b[i],
        common_prefix_len(a, b) < a.len() && common_prefix_len(a, b) < b.len() ==> a[common_prefix_len(a, b) as int]
            != b[common_prefix_len(a, b) as int],
    decreases a.len(),
{
    if a.len() > 0 && b.len() > 0 && a[0] == b[0] {
        lemma_common_prefix(a.drop_first(), b.drop_first());
        assert forall|i: int| 0 <= i < common_prefix_len(a, b) implies a[i] == b[i] by {
            if i > 0 {
                assert(a[i] == a.drop_first()[i - 1]);
                assert(b[i] == b.drop_first()[i - 1]);
            }
        }
    }
}

/// The char `j` places before the end of `s`.
pub open spec fn from_end(s: Seq<char>, j: int) -> char {
    s[s.len() - 1 - j]
}

proof fn lemma_common_suffix(a: Seq<char>, b: Seq<char>)
    ensures
        forall|j: int| 0 <= j < common_suffix_len(a, b) ==> #[trigger] from_end(a, j) == from_end(b, j),
        common_suffix_len(a, b) <= a.len(),
        common_suffix_len(a, b) <= b.len(),
        common_suffix_len(a, b) < a.len() && common_suffix_len(a, b) < b.len() ==> a[a.len() - 1
            - common_suffix_len(a, b)] != b[b.len() - 1 - common_suffix_len(a, b)],
    decreases a.len(),
{
    if a.len() > 0 && b.len() > 0 && a.last() == b.last() {
        lemma_common_suffix(a.drop_last(), b.drop_last());
        assert forall|j: int| 0 <= j < common_suffix_len(a, b) implies #[trigger] from_end(a, j)
            == from_end(b, j) by {
            if j > 0 {
                assert(from_end(a, j) == from_end(a.drop_last(), j - 1));
                assert(from_end(b, j) == from_end(b.drop_last(), j - 1));
            }
        }
    }
}

/// The caret inferred for an edit from `before` to `after` lands just past
/// the changed text: the longest common start `p` is kept before it, the
/// text after it is an unchanged end of `before` that does not reach into
/// `p`, and that end is as long as it can be.
pub proof fn inferred_caret_follows_the_change(before: Seq<char>, after: Seq<char>)
    ensures
        ({
            let p = common_prefix_len(before, after) as int;
            let c = inferred_caret_chars(before, after);
            let tail = after.len() - c;
            &&& p <= before.len() && p <= after.len()
            &&& forall|i: int| 0 <= i < p ==> before[i] == after[i]
            &&& p < before.len() && p < after.len() ==> before[p] != after[p]
            &&& p <= c <= after.len()
            &&& tail <= before.len() - p
            &&& after.subrange(c, after.len() as int) == before.subrange(
                before.len() - tail,
                before.len() as int,
            )
            &&& c > p && before.len() - tail > p ==> after[c - 1] != before[before.len() - tail
                - 1]
        }),
{
    lemma_common_prefix(before, after);
    let p = common_prefix_len(before, after) as int;
    let a = before.skip(p);
    let b = after.skip(p);
    lemma_common_suffix(a, b);
    let t = common_suffix_len(a, b) as int;
    let c = inferred_caret_chars(before, after);
    assert(c == after.len() - t);
    assert forall|i: int| 0 <= i < t implies after.subrange(c, after.len() as int)[i]
        == before.subrange(before.len() - t, before.len() as int)[i] by {
        assert(from_end(a, t - 1 - i) == from_end(b, t - 1 - i));
        assert(from_end(b, t - 1 - i) == after[c + i]);
        assert(from_end(a, t - 1 - i) == before[before.len() - t + i]);
    }
    assert(after.subrange(c, after.len() as int) =~= before.subrange(
        before.len() - t,
        before.len() as int,
    ));
    if c > p && before.len() - t > p {
        assert(a[a.len() - 1 - t] == before[before.len() - t - 1]);
        assert(b[b.len() - 1 - t] == after[c - 1]);
    }
}

/// Length of the UTF-8 encoding of one char.
fn char_utf8_len(c: char) -> (n: usize)
    ensures
        n == utf8(seq![c]).len(),
{
    proof {
        vstd::utf8::char_is_scalar(c);
        assert(seq![c].drop_first() =~= Seq::<char>::empty());
        assert(encode_utf8(Seq::<char>::empty()) =~= Seq::<u8>::empty());
        assert(seq![c][0] == c);
        assert(utf8(seq![c]) =~= vstd::utf8::encode_scalar(c as u32));
    }
    let v = c as u32;
    if v < 0x80 {
        1
    } else if v < 0x800 {
        2
    } else if v < 0x10000 {
        3
    } else {
        4
    }
}

impl TextInputState {
    /// A state holding `value` with the caret at its end.
    pub fn new(value: String) -> (state: Self)
        ensures
            state.value == value,
            state.selection == caret_at(utf8(value@).len() as usize),
            selection_valid(state.selection, state.value@),
    {
        utf8_fits(value.as_str());
        proof {
            vstd::utf8::encode_utf8_valid_utf8(value@);
            vstd::utf8::is_char_boundary_start_end_of_seq(utf8(value@));
        }
        let end = value.as_str().len();
        TextInputState { value, selection: TextSelection::caret(end) }
    }

    /// Replaces the selected bytes with `text` and collapses the selection
    /// after it. Refused (false, nothing changed) when the selection is not
    /// valid for the value.
    pub fn replace_selection(&mut self, text: &str) -> (changed: bool)
        requires
            utf8(old(self).value@).len() + utf8(text@).len() <= usize::MAX,
        ensures
            changed == selection_valid(old(self).selection, old(self).value@),
            !changed ==> *final(self) == *old(self),
            changed ==> ({
                let bytes = utf8(old(self).value@);
                let lo = min_offset(old(self).selection);
                let hi = max_offset(old(self).selection);
                &&& utf8(final(self).value@) == bytes.subrange(0, lo as int) + utf8(text@)
                    + bytes.subrange(hi as int, bytes.len() as int)
                &&& final(self).selection == caret_at((lo + utf8(text@).len()) as usize)
            }),
    {
        if !self.selection.is_valid_for(self.value.as_str()) {
            return false;
        }
        let range = self.selection.ordered();
        let caret = range.start + text.len();
        replace_byte_range(&mut self.value, range.start, range.end, text);
        self.selection = TextSelection::caret(caret);
        true
    }

    /// Deletes `before_bytes` before and `after_bytes` after the selection
    /// and leaves the caret where the deletion began. Refused (false,
    /// nothing changed) when the selection is invalid, the span is empty or
    /// out of range, or either end is not a character boundary.
    pub fn delete_surrounding(&mut self, before_bytes: usize, after_bytes: usize) -> (changed: bool)
        ensures
            ({
                let bytes = utf8(old(self).value@);
                let lo = min_offset(old(self).selection) as int;
                let hi = max_offset(old(self).selection) as int;
                let start = lo - before_bytes;
                let end = hi + after_bytes;
                &&& changed == (selection_valid(old(self).selection, old(self).value@) && start
                    >= 0 && end <= bytes.len() && start != end && is_char_boundary(bytes, start)
                    && is_char_boundary(bytes, end))
                &&& !changed ==> *final(self) == *old(self)
                &&& changed ==> utf8(final(self).value@) == bytes.subrange(0, start) + bytes.subrange(
                    end,
                    bytes.len() as int,
                )
                &&& changed ==> final(self).selection == caret_at(start as usize)
            }),
    {
        utf8_fits(self.value.as_str());
        if !self.selection.is_valid_for(self.value.as_str()) {
            return false;
        }
        let range = self.selection.ordered();
        let start = match range.start.checked_sub(before_bytes) {
            Some(start) => start,
            None => return false,
        };
        let end = match range.end.checked_add(after_bytes) {
            Some(end) => end,
            None => return false,
        };
        if end > self.value.as_str().len() || start == end {
            return false;
        }
        if !self.value.as_str().is_char_boundary(start) || !self.value.as_str().is_char_boundary(end) {
            return false;
        }
        let empty = "";
        proof {
            reveal_strlit("");
            assert(utf8(empty@) =~= Seq::<u8>::empty());
        }
        let ghost bytes = utf8(self.value@);
        replace_byte_range(&mut self.value, start, end, empty);
        assert(bytes.subrange(0, start as int) + utf8(empty@) =~= bytes.subrange(0, start as int));
        self.selection = TextSelection::caret(start);
        true
    }

    /// Replaces the value, keeping the selection when it is still valid and
    /// moving the caret to the new end otherwise.
    pub fn replace_value(&mut self, value: String)
        ensures
            final(self).value == value,
            final(self).selection == (if selection_valid(old(self).selection, value@) {
                old(self).selection
            } else {
                caret_at(utf8(value@).len() as usize)
            }),
            selection_valid(final(self).selection, final(self).value@),
    {
        utf8_fits(value.as_str());
        self.value = value;
        if !self.selection.is_valid_for(self.value.as_str()) {
            let end = self.value.as_str().len();
            self.selection = TextSelection::caret(end);
            proof {
                vstd::utf8::encode_utf8_valid_utf8(self.value@);
                vstd::utf8::is_char_boundary_start_end_of_seq(utf8(self.value@));
            }
        }
    }

    /// Accepts a complete value from a native editor and infers the caret
    /// from the smallest changed span: it lands just past the last changed
    /// char. An unchanged value leaves the state as it is.
    pub fn synchronize_editor_value(&mut self, value: String)
        ensures
            old(self).value@ == value@ ==> *final(self) == *old(self),
            old(self).value@ != value@ ==> final(self).value == value && final(self).selection
                == caret_at(
                utf8(value@.take(inferred_caret_chars(old(self).value@, value@))).len() as usize,
            ),
    {
        utf8_fits(value.as_str());
        if self.value == value {
            return;
        }
        let old_chars = chars_of(self.value.as_str());
        let new_chars = chars_of(value.as_str());
        let ghost a = old_chars@;
        let ghost b = new_chars@;
        proof {
            lemma_common_prefix(a, b);
        }
        let mut prefix: usize = 0;
        while prefix < old_chars.len() && prefix < new_chars.len() && old_chars[prefix]
            == new_chars[prefix]
            invariant
                a == old_chars@,
                b == new_chars@,
                prefix <= common_prefix_len(a, b),
                common_prefix_len(a, b) <= a.len(),
                common_prefix_len(a, b) <= b.len(),
                common_prefix_len(a, b) < a.len() && common_prefix_len(a, b) < b.len()
                    ==> a[common_prefix_len(a, b) as int] != b[common_prefix_len(a, b) as int],
            decreases old_chars.len() - prefix,
        {
            prefix = prefix + 1;
        }
        assert(prefix == common_prefix_len(a, b));
        let ghost ra = a.skip(prefix as int);
        let ghost rb = b.skip(prefix as int);
        proof {
            lemma_common_suffix(ra, rb);
        }
        let mut suffix: usize = 0;
        while suffix < old_chars.len() - prefix && suffix < new_chars.len() - prefix
            && old_chars[old_chars.len() - 1 - suffix] == new_chars[new_chars.len() - 1 - suffix]
            invariant
                a == old_chars@,
                b == new_chars@,
                prefix <= a.len(),
                prefix <= b.len(),
                ra == a.skip(prefix as int),
                rb == b.skip(prefix as int),
                suffix <= common_suffix_len(ra, rb),
                forall|j: int| 0 <= j < common_suffix_len(ra, rb) ==> #[trigger] from_end(ra, j)
                    == from_end(rb, j),
                common_suffix_len(ra, rb) <= ra.len(),
                common_suffix_len(ra, rb) <= rb.len(),
                common_suffix_len(ra, rb) < ra.len() && common_suffix_len(ra, rb) < rb.len()
                    ==> ra[ra.len() - 1 - common_suffix_len(ra, rb)] != rb[rb.len() - 1
                    - common_suffix_len(ra, rb)],
            decreases old_chars.len() - suffix,
        {
            assert(ra[ra.len() - 1 - suffix] == a[a.len() - 1 - suffix]);
            assert(rb[rb.len() - 1 - suffix] == b[b.len() - 1 - suffix]);
            suffix = suffix + 1;
        }
        assert(suffix == common_suffix_len(ra, rb)) by {
            if suffix < common_suffix_len(ra, rb) {
                assert(from_end(ra, suffix as int) == from_end(rb, suffix as int));
                assert(ra[ra.len() - 1 - suffix] == a[a.len() - 1 - suffix]);
                assert(rb[rb.len() - 1 - suffix] == b[b.len() - 1 - suffix]);
            }
        }
        let keep = new_chars.len() - suffix;
        let ghost total = utf8(b).len();
        proof {
            lemma_utf8_concat(b.take(keep as int), b.skip(keep as int));
            assert(b.take(keep as int) + b.skip(keep as int) =~= b);
        }
        let mut caret: usize = 0;
        let mut i: usize = 0;
        while i < keep
            invariant
                b == new_chars@,
                keep <= b.len(),
                i <= keep,
                caret == utf8(b.take(i as int)).len(),
                utf8(b.take(keep as int)).len() <= total,
                total == utf8(b).len(),
                total <= usize::MAX,
            decreases keep - i,
        {
            let n = char_utf8_len(new_chars[i]);
            proof {
                lemma_utf8_concat(b.take(i as int), seq![b[i as int]]);
                assert(b.take(i as int) + seq![b[i as int]] =~= b.take(i + 1));
                lemma_utf8_concat(b.take(i + 1), b.subrange(i + 1, keep as int));
                assert(b.take(i + 1) + b.subrange(i + 1, keep as int) =~= b.take(keep as int));
            }
            caret = caret + n;
            i = i + 1;
        }
        self.value = value;
        self.selection = TextSelection::caret(caret);
    }
}

/// End offset of grapheme `j`: where the next one starts, or the end of the text.
pub open spec fn grapheme_end(len: int, starts: Seq<usize>, j: int) -> int {
    if j + 1 < starts.len() {
        starts[j + 1] as int
    } else {
        len
    }
}

/// The bytes `bytes[s..e]`, or nothing for an inverted or out-of-range span.
pub open spec fn span_bytes(bytes: Seq<u8>, s: int, e: int) -> Seq<u8> {
    if 0 <= s <= e <= bytes.len() {
        bytes.subrange(s, e)
    } else {
        Seq::empty()
    }
}

/// A grapheme that breaks a line: `\n`, `\r`, `\r\n` or `\n\r`.
pub open spec fn is_line_break(g: Seq<u8>) -> bool {
    g == seq![10u8] || g == seq![13u8] || g == seq![13u8, 10u8] || g == seq![10u8, 13u8]
}

/// Lines ended by the first `k` graphemes, as (start, end, next start), and
/// where the line after them starts.
pub open spec fn lines_through(bytes: Seq<u8>, starts: Seq<usize>, k: nat) -> (Seq<(int, int, int)>, int)
    decreases k,
{
    if k == 0 {
        (Seq::empty(), 0)
    } else {
        let j = k - 1;
        let (lines, start) = lines_through(bytes, starts, j as nat);
        let s = starts[j] as int;
        let e = grapheme_end(bytes.len() as int, starts, j);
        if is_line_break(span_bytes(bytes, s, e)) {
            (lines.push((start, s, e)), e)
        } else {
            (lines, start)
        }
    }
}

/// The explicit lines of a text as (start, end, next start) byte offsets: a
/// line ends at each line-break grapheme, and the last runs to the end.
pub open spec fn explicit_lines_of(text: Seq<char>) -> Seq<(int, int, int)> {
    let bytes = utf8(text);
    let starts = extended_grapheme_starts(text);
    let (lines, start) = lines_through(bytes, starts, starts.len());
    lines.push((start, bytes.len() as int, bytes.len() as int))
}

pub open spec fn line_view(line: (usize, usize, usize)) -> (int, int, int) {
    (line.0 as int, line.1 as int, line.2 as int)
}

fn bytes_are(bytes: &[u8], s: usize, e: usize, expected: &[u8]) -> (r: bool)
    requires
        s <= e <= bytes@.len(),
    ensures
        r == (bytes@.subrange(s as int, e as int) == expected@),
{
    if e - s != expected.len() {
        return false;
    }
    let mut k: usize = 0;
    while k < expected.len()
        invariant
            e - s == expected@.len(),
            e <= bytes@.len(),
            k <= expected@.len(),
            forall|j: int| 0 <= j < k ==> bytes@[s + j] == expected@[j],
        decreases expected.len() - k,
    {
        if bytes[s + k] != expected[k] {
            assert(bytes@.subrange(s as int, e as int)[k as int] != expected@[k as int]);
            return false;
        }
        k = k + 1;
    }
    assert(bytes@.subrange(s as int, e as int) =~= expected@);
    true
}

/// Byte spans of the explicit lines of `value`: (start, end, next start),
/// one per line-break grapheme and a last one that runs to the end.
pub fn explicit_lines(value: &str) -> (lines: Vec<(usize, usize, usize)>)
    ensures
        lines@.map_values(|l: (usize, usize, usize)| line_view(l)) == explicit_lines_of(value@),
{
    utf8_fits(value);
    let bytes = value.as_bytes();
    let len = bytes.len();
    let starts = grapheme_start_offsets(value);
    let ghost bv = utf8(value@);
    let ghost sv = extended_grapheme_starts(value@);
    assert(bytes@ == bv);
    let mut lines: Vec<(usize, usize, usize)> = Vec::new();
    let mut start: usize = 0;
    let mut j: usize = 0;
    assert([10u8]@ =~= seq![10u8]);
    assert([13u8]@ =~= seq![13u8]);
    assert([13u8, 10u8]@ =~= seq![13u8, 10u8]);
    assert([10u8, 13u8]@ =~= seq![10u8, 13u8]);
    while j < starts.len()
        invariant
            bytes@ == bv,
            len == bv.len(),
            starts@ == sv,
            j <= sv.len(),
            start <= len,
            lines@.map_values(|l: (usize, usize, usize)| line_view(l)) == lines_through(
                bv,
                sv,
                j as nat,
            ).0,
            start as int == lines_through(bv, sv, j as nat).1,
        decreases starts.len() - j,
    {
        assert([10u8]@ =~= seq![10u8]);
        assert([13u8]@ =~= seq![13u8]);
        assert([13u8, 10u8]@ =~= seq![13u8, 10u8]);
        assert([10u8, 13u8]@ =~= seq![10u8, 13u8]);
        let s = starts[j];
        let e = if j + 1 < starts.len() { starts[j + 1] } else { len };
        assert(e as int == grapheme_end(len as int, sv, j as int));
        let is_break = if s <= e && e <= len {
            bytes_are(bytes, s, e, &[10u8]) || bytes_are(bytes, s, e, &[13u8]) || bytes_are(
                bytes,
                s,
                e,
                &[13u8, 10u8],
            ) || bytes_are(bytes, s, e, &[10u8, 13u8])
        } else {
            assert(span_bytes(bv, s as int, e as int) =~= Seq::<u8>::empty());
            false
        };
        assert(is_break == is_line_break(span_bytes(bv, s as int, e as int)));
        if is_break {
            lines.push((start, s, e));
            start = e;
        }
        proof {
            let prev = lines_through(bv, sv, j as nat);
            assert(lines@.map_values(|l: (usize, usize, usize)| line_view(l)) =~= lines_through(
                bv,
                sv,
                (j + 1) as nat,
            ).0);
        }
        j = j + 1;
    }
    lines.push((start, len, len));
    assert(lines@.map_values(|l: (usize, usize, usize)| line_view(l)) =~= explicit_lines_of(
        value@,
    ));
    lines
}

/// Index of the first line that holds `offset` (at or before its end, or
/// before the next line starts).
pub open spec fn line_index_at(lines: Seq<(int, int, int)>, offset: int) -> Option<int>
    decreases lines.len(),
{
    if lines.len() == 0 {
        None
    } else {
        match line_index_at(lines.drop_last(), offset) {
            Some(i) => Some(i),
            None => if offset <= lines.last().1 || offset < lines.last().2 {
                Some(lines.len() - 1)
            } else {
                None
            },
        }
    }
}

/// The explicit line holding `offset`: its index, start and end; past the
/// last line, the last line's index with the end of the text twice.
pub open spec fn explicit_line_at_of(text: Seq<char>, offset: int) -> (int, int, int) {
    let lines = explicit_lines_of(text);
    match line_index_at(lines, offset) {
        Some(i) => (i, lines[i].0, lines[i].1),
        None => (lines.len() - 1, utf8(text).len() as int, utf8(text).len() as int),
    }
}

/// The explicit line of `value` that holds byte `offset`, as (line index,
/// start, end).
pub fn explicit_line_at(value: &str, offset: usize) -> (r: (usize, usize, usize))
    ensures
        line_view(r) == explicit_line_at_of(value@, offset as int),
{
    utf8_fits(value);
    let lines = explicit_lines(value);
    let ghost lv = lines@.map_values(|l: (usize, usize, usize)| line_view(l));
    let mut i: usize = 0;
    assert(lv.take(0) =~= Seq::<(int, int, int)>::empty());
    while i < lines.len()
        invariant
            i <= lines@.len(),
            lv == lines@.map_values(|l: (usize, usize, usize)| line_view(l)),
            lv == explicit_lines_of(value@),
            line_index_at(lv.take(i as int), offset as int) is None,
        decreases lines.len() - i,
    {
        let (start, end, next) = lines[i];
        assert(lv.take(i + 1).drop_last() =~= lv.take(i as int));
        assert(lv.take(i + 1).last() == line_view(lines@[i as int]));
        if offset <= end || offset < next {
            proof {
                assert(lv[i as int] == line_view(lines@[i as int]));
                assert(line_index_at(lv.take(i + 1), offset as int) == Some(i as int));
                lemma_line_prefix(lv, (i + 1) as int, offset as int);
            }
            return (i, start, end);
        }
        i = i + 1;
    }
    assert(lv.take(lines@.len() as int) =~= lv);
    (lines.len() - 1, value.len(), value.len())
}

/// A line found within a prefix is the one found in the whole list.
proof fn lemma_line_prefix(lines: Seq<(int, int, int)>, k: int, offset: int)
    requires
        0 <= k <= lines.len(),
        line_index_at(lines.take(k), offset) is Some,
    ensures
        line_index_at(lines, offset) == line_index_at(lines.take(k), offset),
    decreases lines.len() - k,
{
    if k < lines.len() {
        assert(lines.take(k + 1).drop_last() =~= lines.take(k));
        lemma_line_prefix(lines, k + 1, offset);
    } else {
        assert(lines.take(k) =~= lines);
    }
}

pub open spec fn max_int(a: int, b: int) -> int {
    if a >= b {
        a
    } else {
        b
    }
}

pub open spec fn min_int(a: int, b: int) -> int {
    if a <= b {
        a
    } else {
        b
    }
}

/// The part of the selection `[start, end)` on each explicit line, from the
/// first line on, as (from, to, whether the line break itself is selected);
/// lines with nothing selected are left out, and the walk stops at the line
/// that ends the text or reaches `end`.
pub open spec fn highlight_spans_of(lines: Seq<(int, int, int)>, start: int, end: int, len: int) -> Seq<
    (int, int, bool),
>
    decreases lines.len(),
{
    if lines.len() == 0 {
        Seq::empty()
    } else {
        let (line_start, line_end, next) = lines[0];
        let from = min_int(max_int(start, line_start), line_end);
        let to = max_int(min_int(end, line_end), line_start);
        let includes_break = next > line_end && start <= line_end && end >= next;
        let head = if from < to || includes_break {
            seq![(from, to, includes_break)]
        } else {
            Seq::empty()
        };
        if line_end == len || line_end >= end {
            head
        } else {
            head + highlight_spans_of(lines.drop_first(), start, end, len)
        }
    }
}

/// What a selection highlights: nothing unless `[start, end)` is a
/// non-empty range whose ends are caret offsets of the text.
pub open spec fn text_highlight_spans_of(text: Seq<char>, start: int, end: int) -> Seq<(int, int, bool)> {
    let len = utf8(text).len() as int;
    if start < end && caret_offset_valid(text, start as usize) && caret_offset_valid(
        text,
        end as usize,
    ) && 0 <= start {
        highlight_spans_of(explicit_lines_of(text), start, end, len)
    } else {
        Seq::empty()
    }
}

pub open spec fn span_view(span: (usize, usize, bool)) -> (int, int, bool) {
    (span.0 as int, span.1 as int, span.2)
}

/// The byte spans a selection `[start, end)` of `value` highlights, one per
/// explicit line it touches: (from, to, whether the line break is selected).
pub fn text_highlight_spans(value: &str, start: usize, end: usize) -> (spans: Vec<(usize, usize, bool)>)
    ensures
        spans@.map_values(|s: (usize, usize, bool)| span_view(s)) == text_highlight_spans_of(
            value@,
            start as int,
            end as int,
        ),
{
    utf8_fits(value);
    let len = value.len();
    if start >= end || end > len || !value.is_char_boundary(start) || !value.is_char_boundary(end)
        || !is_grapheme_boundary(value, start) || !is_grapheme_boundary(value, end) {
        let empty: Vec<(usize, usize, bool)> = Vec::new();
        assert(empty@.map_values(|s: (usize, usize, bool)| span_view(s)) =~= Seq::<
            (int, int, bool),
        >::empty());
        return empty;
    }
    let lines = explicit_lines(value);
    let ghost lv = lines@.map_values(|l: (usize, usize, usize)| line_view(l));
    let mut spans: Vec<(usize, usize, bool)> = Vec::new();
    let mut i: usize = 0;
    assert(lv.skip(0) =~= lv);
    assert(caret_offset_valid(value@, start) && caret_offset_valid(value@, end));
    assert(text_highlight_spans_of(value@, start as int, end as int) == highlight_spans_of(
        lv,
        start as int,
        end as int,
        len as int,
    ));
    while i < lines.len()
        invariant
            i <= lines@.len(),
            lv == lines@.map_values(|l: (usize, usize, usize)| line_view(l)),
            lv == explicit_lines_of(value@),
            len == utf8(value@).len(),
            text_highlight_spans_of(value@, start as int, end as int) == highlight_spans_of(
                lv,
                start as int,
                end as int,
                len as int,
            ),
            spans@.map_values(|s: (usize, usize, bool)| span_view(s)) + highlight_spans_of(
                lv.skip(i as int),
                start as int,
                end as int,
                len as int,
            ) == highlight_spans_of(lv, start as int, end as int, len as int),
        decreases lines.len() - i,
    {
        let (line_start, line_end, next) = lines[i];
        let ghost rest = lv.skip(i as int);
        assert(rest[0] == line_view(lines@[i as int]));
        assert(rest.drop_first() =~= lv.skip(i + 1));
        let lo = if start > line_start { start } else { line_start };
        let from = if lo < line_end { lo } else { line_end };
        let hi = if end < line_end { end } else { line_end };
        let to = if hi > line_start { hi } else { line_start };
        let includes_break = next > line_end && start <= line_end && end >= next;
        let ghost before = spans@.map_values(|s: (usize, usize, bool)| span_view(s));
        if from < to || includes_break {
            spans.push((from, to, includes_break));
        }
        assert(spans@.map_values(|s: (usize, usize, bool)| span_view(s)) =~= before + (if from < to
            || includes_break {
            seq![(from as int, to as int, includes_break)]
        } else {
            Seq::empty()
        }));
        if line_end == len || line_end >= end {
            assert(spans@.map_values(|s: (usize, usize, bool)| span_view(s)) + Seq::<
                (int, int, bool),
            >::empty() =~= spans@.map_values(|s: (usize, usize, bool)| span_view(s)));
            proof {
                lemma_spans_stop(lv, i as int, start as int, end as int, len as int);
            }
            return spans;
        }
        i = i + 1;
    }
    assert(lv.skip(lines@.len() as int) =~= Seq::<(int, int, int)>::empty());
    spans
}

/// Once a line stops the walk, nothing after it is highlighted.
proof fn lemma_spans_stop(lv: Seq<(int, int, int)>, i: int, start: int, end: int, len: int)
    requires
        0 <= i < lv.len(),
        lv[i].1 == len || lv[i].1 >= end,
    ensures
        ({
            let rest = lv.skip(i);
            let (line_start, line_end, next) = rest[0];
            let from = min_int(max_int(start, line_start), line_end);
            let to = max_int(min_int(end, line_end), line_start);
            let includes_break = next > line_end && start <= line_end && end >= next;
            highlight_spans_of(rest, start, end, len) == (if from < to || includes_break {
                seq![(from, to, includes_break)]
            } else {
                Seq::<(int, int, bool)>::empty()
            })
        }),
{
    assert(lv.skip(i)[0] == lv[i]);
}

/// The byte offset of char index `k` is a char boundary.
pub proof fn lemma_prefix_boundary(s: Seq<char>, k: int)
    requires
        0 <= k <= s.len(),
    ensures
        is_char_boundary(utf8(s), utf8(s.take(k)).len() as int),
        utf8(s.take(k)) == utf8(s).subrange(0, utf8(s.take(k)).len() as int),
    decreases k,
{
    vstd::utf8::encode_utf8_valid_utf8(s);
    assert(s =~= s.take(k) + s.skip(k));
    lemma_utf8_concat(s.take(k), s.skip(k));
    assert(utf8(s.take(k)) =~= utf8(s).subrange(0, utf8(s.take(k)).len() as int));
    if k > 0 {
        let rest = s.drop_first();
        lemma_prefix_boundary(rest, k - 1);
        vstd::utf8::encode_utf8_first_scalar(s);
        assert(vstd::utf8::pop_first_scalar(utf8(s)) =~= utf8(rest));
        assert(s.take(k) =~= seq![s[0]] + rest.take(k - 1));
        lemma_utf8_concat(seq![s[0]], rest.take(k - 1));
        vstd::utf8::char_is_scalar(s[0]);
        assert(seq![s[0]].drop_first() =~= Seq::<char>::empty());
        assert(encode_utf8(Seq::<char>::empty()) =~= Seq::<u8>::empty());
        assert(seq![s[0]][0] == s[0]);
        assert(utf8(seq![s[0]]) =~= vstd::utf8::encode_scalar(s[0] as u32));
    }
}

/// Byte offset of char index `k` of `chars`.
fn byte_offset(chars: &[char], k: usize) -> (n: usize)
    requires
        k <= chars@.len(),
        utf8(chars@).len() <= usize::MAX,
    ensures
        n == utf8(chars@.take(k as int)).len(),
{
    let mut n: usize = 0;
    let mut i: usize = 0;
    assert(chars@.take(0) =~= Seq::<char>::empty());
    while i < k
        invariant
            i <= k <= chars@.len(),
            utf8(chars@).len() <= usize::MAX,
            n == utf8(chars@.take(i as int)).len(),
        decreases k - i,
    {
        proof {
            assert(chars@.take(i + 1) =~= chars@.take(i as int) + seq![chars@[i as int]]);
            lemma_utf8_concat(chars@.take(i as int), seq![chars@[i as int]]);
            assert(chars@ =~= chars@.take(i + 1) + chars@.skip(i + 1));
            lemma_utf8_concat(chars@.take(i + 1), chars@.skip(i + 1));
        }
        n = n + char_utf8_len(chars[i]);
        i = i + 1;
    }
    n
}

/// `str::trim`: the slice without leading and trailing white space.
pub fn trim_str(s: &str) -> (r: &str)
    ensures
        r@ == trim_seq(s@),
{
    utf8_fits(s);
    let chars = chars_of(s);
    let (start, end) = trim_bounds(chars.as_slice());
    let b_start = byte_offset(chars.as_slice(), start);
    let b_end = byte_offset(chars.as_slice(), end);
    proof {
        lemma_prefix_boundary(s@, end as int);
    }
    let (head, _tail) = s.split_at(b_end);
    proof {
        vstd::utf8::encode_utf8_decode_utf8(head@);
        vstd::utf8::encode_utf8_decode_utf8(s@.take(end as int));
        assert(head@ == s@.take(end as int));
        assert(head@.take(start as int) =~= s@.take(start as int));
        lemma_prefix_boundary(head@, start as int);
        assert(head@ =~= head@.take(start as int) + head@.skip(start as int));
        lemma_utf8_concat(head@.take(start as int), head@.skip(start as int));
    }
    let (_lead, mid) = head.split_at(b_start);
    proof {
        vstd::utf8::encode_utf8_decode_utf8(mid@);
        vstd::utf8::encode_utf8_decode_utf8(head@.skip(start as int));
        assert(utf8(head@.skip(start as int)) =~= utf8(head@).subrange(
            b_start as int,
            utf8(head@).len() as int,
        ));
        assert(mid@ == head@.skip(start as int));
        assert(mid@ =~= s@.subrange(start as int, end as int));
    }
    mid
}

} // verus!
