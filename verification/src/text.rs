//! Character classes and the small string transformations that tag and
//! attribute parsing rely on, stated over `Seq<char>` views.
use vstd::prelude::*;

verus! {

/// Unicode `White_Space` code points (the set `char::is_whitespace` accepts).
pub open spec fn is_white_space(c: char) -> bool {
    ||| '\u{9}' <= c <= '\u{d}'
    ||| c == ' '
    ||| c == '\u{85}'
    ||| c == '\u{a0}'
    ||| c == '\u{1680}'
    ||| '\u{2000}' <= c <= '\u{200a}'
    ||| c == '\u{2028}'
    ||| c == '\u{2029}'
    ||| c == '\u{202f}'
    ||| c == '\u{205f}'
    ||| c == '\u{3000}'
}

pub fn char_is_white_space(c: char) -> (r: bool)
    ensures
        r == is_white_space(c),
{
    ('\u{9}' <= c && c <= '\u{d}') || c == ' ' || c == '\u{85}' || c == '\u{a0}' || c
        == '\u{1680}' || ('\u{2000}' <= c && c <= '\u{200a}') || c == '\u{2028}' || c
        == '\u{2029}' || c == '\u{202f}' || c == '\u{205f}' || c == '\u{3000}'
}

/// ASCII upper-case letters map to lower case; every other char is kept.
pub open spec fn ascii_lower(c: char) -> char {
    if 'A' <= c <= 'Z' {
        ((c as u32) + 32) as char
    } else {
        c
    }
}

pub fn char_ascii_lower(c: char) -> (r: char)
    ensures
        r == ascii_lower(c),
{
    if 'A' <= c && c <= 'Z' {
        let b: u8 = c as u8;
        let lower: u8 = b + 32;
        let r = lower as char;
        assert(r == ((c as u32) + 32) as char);
        r
    } else {
        c
    }
}

pub open spec fn lower_seq(s: Seq<char>) -> Seq<char> {
    s.map_values(|c: char| ascii_lower(c))
}

/// Number of leading white-space chars.
pub open spec fn leading_white(s: Seq<char>) -> nat
    decreases s.len(),
{
    if s.len() > 0 && is_white_space(s[0]) {
        1 + leading_white(s.drop_first())
    } else {
        0
    }
}

/// Number of trailing white-space chars.
pub open spec fn trailing_white(s: Seq<char>) -> nat
    decreases s.len(),
{
    if s.len() > 0 && is_white_space(s.last()) {
        1 + trailing_white(s.drop_last())
    } else {
        0
    }
}

pub open spec fn trim_start_seq(s: Seq<char>) -> Seq<char> {
    s.skip(leading_white(s) as int)
}

pub open spec fn trim_end_seq(s: Seq<char>) -> Seq<char> {
    s.take(s.len() - trailing_white(s))
}

/// `str::trim`: white space removed from both ends.
pub open spec fn trim_seq(s: Seq<char>) -> Seq<char> {
    trim_end_seq(trim_start_seq(s))
}

/// `str::trim_start_matches(prefix)` for a non-empty prefix: the prefix is
/// removed as many times as it repeats at the start.
pub open spec fn strip_repeated(s: Seq<char>, prefix: Seq<char>) -> Seq<char>
    decreases s.len(),
{
    if prefix.len() > 0 && prefix.len() <= s.len() && s.take(prefix.len() as int) == prefix {
        strip_repeated(s.skip(prefix.len() as int), prefix)
    } else {
        s
    }
}

/// ASCII case-insensitive equality (`eq_ignore_ascii_case`).
pub open spec fn eq_ignore_case(a: Seq<char>, b: Seq<char>) -> bool {
    a.len() == b.len() && forall|i: int| 0 <= i < a.len() ==> ascii_lower(a[i]) == ascii_lower(b[i])
}

pub(crate) proof fn lemma_leading_white_bound(s: Seq<char>)
    ensures
        leading_white(s) <= s.len(),
        forall|i: int| 0 <= i < leading_white(s) ==> is_white_space(s[i]),
        leading_white(s) < s.len() ==> !is_white_space(s[leading_white(s) as int]),
    decreases s.len(),
{
    if s.len() > 0 && is_white_space(s[0]) {
        lemma_leading_white_bound(s.drop_first());
        assert forall|i: int| 0 <= i < leading_white(s) implies is_white_space(s[i]) by {
            if i > 0 {
                assert(s[i] == s.drop_first()[i - 1]);
            }
        }
    }
}

pub(crate) proof fn lemma_trailing_white_bound(s: Seq<char>)
    ensures
        trailing_white(s) <= s.len(),
        forall|i: int| s.len() - trailing_white(s) <= i < s.len() ==> is_white_space(s[i]),
        trailing_white(s) < s.len() ==> !is_white_space(s[s.len() - trailing_white(s) - 1]),
    decreases s.len(),
{
    if s.len() > 0 && is_white_space(s.last()) {
        lemma_trailing_white_bound(s.drop_last());
        assert forall|i: int| s.len() - trailing_white(s) <= i < s.len() implies is_white_space(
            s[i],
        ) by {
            if i < s.len() - 1 {
                assert(s[i] == s.drop_last()[i]);
            }
        }
    }
}

/// Text that neither starts nor ends with white space trims to itself.
pub proof fn lemma_trim_of_unpadded(s: Seq<char>)
    requires
        s.len() > 0 ==> !is_white_space(s[0]) && !is_white_space(s.last()),
    ensures
        trim_seq(s) == s,
{
    assert(leading_white(s) == 0);
    assert(s.skip(0) =~= s);
    assert(trailing_white(s) == 0);
    assert(s.take(s.len() as int) =~= s);
}

/// ASCII case folding lowers exactly the letters `A`..`Z`, each to its
/// lower-case letter, and two texts are equal ignoring ASCII case exactly
/// when they fold to the same text.
pub proof fn ascii_case_folding(a: Seq<char>, b: Seq<char>, c: char)
    ensures
        'A' <= c <= 'Z' ==> ascii_lower(c) as u32 == c as u32 + 32 && 'a' <= ascii_lower(c) <= 'z',
        !('A' <= c <= 'Z') ==> ascii_lower(c) == c,
        eq_ignore_case(a, b) <==> lower_seq(a) == lower_seq(b),
        eq_ignore_case(a, a),
{
    if eq_ignore_case(a, b) {
        assert(lower_seq(a) =~= lower_seq(b));
    }
    if lower_seq(a) == lower_seq(b) {
        assert(a.len() == lower_seq(a).len() && b.len() == lower_seq(b).len());
        assert forall|i: int| 0 <= i < a.len() implies ascii_lower(a[i]) == ascii_lower(b[i]) by {
            assert(lower_seq(a)[i] == lower_seq(b)[i]);
        }
    }
}

/// Trimming cuts exactly the white space at both ends: the result is a
/// contiguous part of the text, all that is cut before and after it is
/// white space, and it neither starts nor ends with white space.
pub proof fn trim_cuts_only_end_white_space(s: Seq<char>)
    ensures
        exists|a: int, b: int|
            {
                &&& 0 <= a <= b <= s.len()
                &&& trim_seq(s) == s.subrange(a, b)
                &&& forall|k: int| 0 <= k < a ==> is_white_space(#[trigger] s[k])
                &&& forall|k: int| b <= k < s.len() ==> is_white_space(#[trigger] s[k])
            },
        trim_seq(s).len() > 0 ==> !is_white_space(trim_seq(s)[0]) && !is_white_space(
            trim_seq(s).last(),
        ),
{
    lemma_leading_white_bound(s);
    let a = leading_white(s) as int;
    let u = trim_start_seq(s);
    lemma_trailing_white_bound(u);
    let b = s.len() - trailing_white(u);
    assert(trim_seq(s) =~= s.subrange(a, b));
    assert forall|k: int| b <= k < s.len() implies is_white_space(#[trigger] s[k]) by {
        assert(s[k] == u[k - a]);
    }
    if trim_seq(s).len() > 0 {
        assert(trim_seq(s)[0] == s[a]);
        assert(trim_seq(s).last() == u[u.len() - trailing_white(u) - 1]);
    }
}

/// Trimming trimmed text changes nothing.
pub proof fn lemma_trim_idempotent(s: Seq<char>)
    ensures
        trim_seq(trim_seq(s)) == trim_seq(s),
{
    let u = trim_start_seq(s);
    let t = trim_seq(s);
    lemma_leading_white_bound(s);
    lemma_trailing_white_bound(u);
    if t.len() > 0 {
        assert(t[0] == s[leading_white(s) as int]);
        assert(t.last() == u[u.len() - trailing_white(u) - 1]);
    }
    lemma_trim_of_unpadded(t);
}

/// The chars of a string slice, in order.
pub fn chars_of(s: &str) -> (v: Vec<char>)
    ensures
        v@ == s@,
{
    let mut v: Vec<char> = Vec::new();
    for c in it: s.chars()
        invariant
            it.seq() == s@,
            v@ == it.seq().take(it.index() as int),
    {
        v.push(c);
        assert(v@ =~= it.seq().take(it.index() as int + 1));
    }
    assert(v@ =~= s@);
    v
}

/// Calls `String::push`: the char is appended to the string.
#[verifier::external_body]
pub(crate) fn push_char(s: &mut String, c: char)
    ensures
        final(s)@ == old(s)@.push(c),
{
    s.push(c)
}

/// A string made of exactly the given chars.
pub fn string_of(chars: &[char]) -> (s: String)
    ensures
        s@ == chars@,
{
    let mut s = String::new();
    let mut i: usize = 0;
    while i < chars.len()
        invariant
            i <= chars.len(),
            s@ == chars@.take(i as int),
        decreases chars.len() - i,
    {
        push_char(&mut s, chars[i]);
        assert(s@ =~= chars@.take(i as int + 1));
        i = i + 1;
    }
    assert(s@ =~= chars@);
    s
}

/// Bounds `[start, end)` of `str::trim` over `chars`.
pub fn trim_bounds(chars: &[char]) -> (r: (usize, usize))
    ensures
        r.0 <= r.1 <= chars@.len(),
        chars@.subrange(r.0 as int, r.1 as int) == trim_seq(chars@),
{
    let mut start: usize = 0;
    proof {
        lemma_leading_white_bound(chars@);
    }
    while start < chars.len() && char_is_white_space(chars[start])
        invariant
            start <= leading_white(chars@),
            leading_white(chars@) <= chars@.len(),
            forall|i: int| 0 <= i < leading_white(chars@) ==> is_white_space(chars@[i]),
            leading_white(chars@) < chars@.len() ==> !is_white_space(
                chars@[leading_white(chars@) as int],
            ),
        decreases chars.len() - start,
    {
        start = start + 1;
    }
    assert(start == leading_white(chars@));
    let ghost rest = chars@.skip(start as int);
    let mut end: usize = chars.len();
    proof {
        lemma_trailing_white_bound(rest);
    }
    while end > start && char_is_white_space(chars[end - 1])
        invariant
            start <= end <= chars@.len(),
            rest == chars@.skip(start as int),
            end - start >= rest.len() - trailing_white(rest),
            trailing_white(rest) <= rest.len(),
            forall|i: int|
                rest.len() - trailing_white(rest) <= i < rest.len() ==> is_white_space(rest[i]),
            trailing_white(rest) < rest.len() ==> !is_white_space(
                rest[rest.len() - trailing_white(rest) - 1],
            ),
        decreases end,
    {
        assert(rest[end - 1 - start] == chars@[end - 1]);
        end = end - 1;
    }
    assert(end - start == rest.len() - trailing_white(rest)) by {
        if end - start > rest.len() - trailing_white(rest) {
            assert(rest[end - 1 - start] == chars@[end - 1]);
        }
    }
    assert(chars@.subrange(start as int, end as int) =~= trim_seq(chars@));
    (start, end)
}

/// `str::trim` of a string slice, as chars.
pub fn trimmed_chars(s: &str) -> (v: Vec<char>)
    ensures
        v@ == trim_seq(s@),
{
    let chars = chars_of(s);
    let (start, end) = trim_bounds(chars.as_slice());
    let mut v: Vec<char> = Vec::new();
    let mut i = start;
    while i < end
        invariant
            start <= i <= end <= chars@.len(),
            v@ == chars@.subrange(start as int, i as int),
        decreases end - i,
    {
        v.push(chars[i]);
        assert(v@ =~= chars@.subrange(start as int, i + 1));
        i = i + 1;
    }
    v
}

/// ASCII lower-casing of every char.
pub fn lower_chars(chars: &[char]) -> (v: Vec<char>)
    ensures
        v@ == lower_seq(chars@),
{
    let mut v: Vec<char> = Vec::new();
    let mut i: usize = 0;
    while i < chars.len()
        invariant
            i <= chars.len(),
            v@ == lower_seq(chars@.take(i as int)),
        decreases chars.len() - i,
    {
        v.push(char_ascii_lower(chars[i]));
        assert(v@ =~= lower_seq(chars@.take(i as int + 1)));
        i = i + 1;
    }
    assert(chars@.take(chars.len() as int) =~= chars@);
    v
}

/// Whether `chars` equals `word` ignoring ASCII case.
pub fn chars_eq_ignore_case(chars: &[char], word: &[char]) -> (r: bool)
    ensures
        r == eq_ignore_case(chars@, word@),
{
    if chars.len() != word.len() {
        return false;
    }
    let mut i: usize = 0;
    while i < chars.len()
        invariant
            chars@.len() == word@.len(),
            i <= chars.len(),
            forall|j: int| 0 <= j < i ==> ascii_lower(chars@[j]) == ascii_lower(word@[j]),
        decreases chars.len() - i,
    {
        if char_ascii_lower(chars[i]) != char_ascii_lower(word[i]) {
            return false;
        }
        i = i + 1;
    }
    true
}

/// Whether two char slices are equal.
pub fn chars_eq(a: &[char], b: &[char]) -> (r: bool)
    ensures
        r == (a@ == b@),
{
    if a.len() != b.len() {
        return false;
    }
    let mut i: usize = 0;
    while i < a.len()
        invariant
            a@.len() == b@.len(),
            i <= a.len(),
            forall|j: int| 0 <= j < i ==> a@[j] == b@[j],
        decreases a.len() - i,
    {
        if a[i] != b[i] {
            return false;
        }
        i = i + 1;
    }
    assert(a@ =~= b@);
    true
}

} // verus!
