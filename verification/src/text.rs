//! Text primitives over sequences of characters.
//!
//! Raw probe output is handled as a sequence of `char`s. Every operation has a
//! mathematical definition on `Seq<char>` and an executable counterpart on
//! `Vec<char>` that is proved to compute it.

use vstd::prelude::*;

verus! {

/// Appending one character to a `String` (`String::push`) extends its view by
/// exactly that character.
pub assume_specification[ String::push ](s: &mut String, c: char)
    ensures
        final(s)@ == old(s)@.push(c),
;

/// The code points with the Unicode property `White_Space`.
pub open spec fn is_whitespace(c: char) -> bool {
    ||| ('\u{9}' <= c && c <= '\u{d}')
    ||| c == ' '
    ||| c == '\u{85}'
    ||| c == '\u{a0}'
    ||| c == '\u{1680}'
    ||| ('\u{2000}' <= c && c <= '\u{200a}')
    ||| c == '\u{2028}'
    ||| c == '\u{2029}'
    ||| c == '\u{202f}'
    ||| c == '\u{205f}'
    ||| c == '\u{3000}'
}

/// The predicate "is white space".
pub open spec fn space() -> spec_fn(char) -> bool {
    |c: char| is_whitespace(c)
}

/// The predicate "is not white space".
pub open spec fn non_space() -> spec_fn(char) -> bool {
    |c: char| !is_whitespace(c)
}

/// The predicate "differs from `sep`".
pub open spec fn other_than(sep: char) -> spec_fn(char) -> bool {
    |c: char| c != sep
}

/// Length of the longest prefix of `s` all of whose characters satisfy `p`.
pub open spec fn run_length(s: Seq<char>, p: spec_fn(char) -> bool) -> nat
    decreases s.len(),
{
    if s.len() > 0 && p(s[0]) {
        1 + run_length(s.drop_first(), p)
    } else {
        0
    }
}

/// Length of the longest suffix of `s` all of whose characters satisfy `p`.
pub open spec fn tail_run_length(s: Seq<char>, p: spec_fn(char) -> bool) -> nat
    decreases s.len(),
{
    if s.len() > 0 && p(s.last()) {
        1 + tail_run_length(s.drop_last(), p)
    } else {
        0
    }
}

/// `k` is where the longest prefix of `s` satisfying `p` ends.
pub open spec fn ends_run(s: Seq<char>, p: spec_fn(char) -> bool, k: int) -> bool {
    &&& 0 <= k <= s.len()
    &&& forall|i: int| 0 <= i < k ==> p(#[trigger] s[i])
    &&& k < s.len() ==> !p(s[k])
}

/// `k` is the length of the longest suffix of `s` satisfying `p`.
pub open spec fn ends_tail_run(s: Seq<char>, p: spec_fn(char) -> bool, k: int) -> bool {
    &&& 0 <= k <= s.len()
    &&& forall|i: int| s.len() - k <= i < s.len() ==> p(#[trigger] s[i])
    &&& k < s.len() ==> !p(s[s.len() - k - 1])
}

/// `run_length` is the one position that ends the leading run.
pub proof fn lemma_run_length(s: Seq<char>, p: spec_fn(char) -> bool)
    ensures
        ends_run(s, p, run_length(s, p) as int),
        forall|k: int| ends_run(s, p, k) ==> k == run_length(s, p),
    decreases s.len(),
{
    if s.len() > 0 && p(s[0]) {
        let rest = s.drop_first();
        lemma_run_length(rest, p);
        let r = run_length(rest, p) as int;
        assert forall|i: int| 0 <= i < r + 1 implies p(#[trigger] s[i]) by {
            if i > 0 {
                assert(s[i] == rest[i - 1]);
            }
        }
        if r + 1 < s.len() {
            assert(s[r + 1] == rest[r]);
        }
        assert forall|k: int| ends_run(s, p, k) implies k == r + 1 by {
            assert(k > 0);
            assert forall|i: int| 0 <= i < k - 1 implies p(#[trigger] rest[i]) by {
                assert(rest[i] == s[i + 1]);
            }
            if k - 1 < rest.len() {
                assert(rest[k - 1] == s[k]);
            }
            assert(ends_run(rest, p, k - 1));
        }
    } else {
        assert forall|k: int| ends_run(s, p, k) implies k == 0 by {
            if k > 0 {
                assert(p(s[0]));
            }
        }
    }
}

/// `tail_run_length` is the one length that ends the trailing run.
pub proof fn lemma_tail_run_length(s: Seq<char>, p: spec_fn(char) -> bool)
    ensures
        ends_tail_run(s, p, tail_run_length(s, p) as int),
        forall|k: int| ends_tail_run(s, p, k) ==> k == tail_run_length(s, p),
    decreases s.len(),
{
    if s.len() > 0 && p(s.last()) {
        let rest = s.drop_last();
        lemma_tail_run_length(rest, p);
        let r = tail_run_length(rest, p) as int;
        assert forall|i: int| s.len() - (r + 1) <= i < s.len() implies p(#[trigger] s[i]) by {
            if i < s.len() - 1 {
                assert(s[i] == rest[i]);
            }
        }
        if r + 1 < s.len() {
            assert(s[s.len() - (r + 1) - 1] == rest[rest.len() - r - 1]);
        }
        assert forall|k: int| ends_tail_run(s, p, k) implies k == r + 1 by {
            assert(k > 0);
            assert forall|i: int| rest.len() - (k - 1) <= i < rest.len() implies p(
                #[trigger] rest[i],
            ) by {
                assert(rest[i] == s[i]);
            }
            if k - 1 < rest.len() {
                assert(rest[rest.len() - (k - 1) - 1] == s[s.len() - k - 1]);
            }
            assert(ends_tail_run(rest, p, k - 1));
        }
    } else {
        assert forall|k: int| ends_tail_run(s, p, k) implies k == 0 by {
            if k > 0 {
                assert(p(s[s.len() - 1]));
            }
        }
    }
}

/// `s` without its leading and trailing white space.
pub open spec fn trimmed(s: Seq<char>) -> Seq<char> {
    let from = run_length(s, space()) as int;
    let rest = s.subrange(from, s.len() as int);
    rest.subrange(0, rest.len() - tail_run_length(rest, space()))
}

/// `needle` occurs in `haystack` as a contiguous run of characters.
pub open spec fn has_infix(haystack: Seq<char>, needle: Seq<char>) -> bool {
    exists|i: int| occurs_at(haystack, needle, i)
}

/// `needle` occurs in `haystack` starting at position `i`.
pub open spec fn occurs_at(haystack: Seq<char>, needle: Seq<char>, i: int) -> bool {
    &&& 0 <= i
    &&& i + needle.len() <= haystack.len()
    &&& haystack.subrange(i, i + needle.len()) == needle
}

/// The views of a sequence of character vectors.
pub open spec fn views(rows: Seq<Vec<char>>) -> Seq<Seq<char>> {
    rows.map_values(|row: Vec<char>| row@)
}

/// The views of a sequence of strings.
pub open spec fn texts(items: Seq<String>) -> Seq<Seq<char>> {
    items.map_values(|item: String| item@)
}

/// The view of an optional string.
pub open spec fn some_text(o: Option<String>) -> Option<Seq<char>> {
    match o {
        Some(s) => Some(s@),
        None => None,
    }
}

/// The view of an optional sequence of characters held in a vector.
pub open spec fn some_chars(o: Option<Vec<char>>) -> Option<Seq<char>> {
    match o {
        Some(v) => Some(v@),
        None => None,
    }
}

/// The view of a result that holds strings.
pub open spec fn result_text(r: Result<String, String>) -> Result<Seq<char>, Seq<char>> {
    match r {
        Ok(value) => Ok(value@),
        Err(reason) => Err(reason@),
    }
}

/// `line` without one trailing carriage return, if it has one.
pub open spec fn without_carriage_return(line: Seq<char>) -> Seq<char> {
    if line.len() > 0 && line.last() == '\r' {
        line.drop_last()
    } else {
        line
    }
}

/// The lines of `s`. A line ends at a line feed, or at the end of the text;
/// the line feed, and a carriage return just before it, are not part of the
/// line. Text after the last line feed is a line of its own unless it is empty.
pub open spec fn lines(s: Seq<char>) -> Seq<Seq<char>>
    decreases s.len(),
{
    if s.len() == 0 {
        Seq::empty()
    } else {
        let k = run_length(s, other_than('\n')) as int;
        if k >= s.len() {
            seq![s]
        } else {
            seq![without_carriage_return(s.subrange(0, k))] + lines(
                s.subrange(k + 1, s.len() as int),
            )
        }
    }
}

/// The pieces of `s` between occurrences of `sep`. There is always one piece
/// more than there are separators; pieces may be empty.
pub open spec fn fields(s: Seq<char>, sep: char) -> Seq<Seq<char>>
    decreases s.len(),
{
    let k = run_length(s, other_than(sep)) as int;
    if k >= s.len() {
        seq![s]
    } else {
        seq![s.subrange(0, k)] + fields(s.subrange(k + 1, s.len() as int), sep)
    }
}

/// The maximal runs of characters of `s` that are not white space, in order.
pub open spec fn words(s: Seq<char>) -> Seq<Seq<char>>
    decreases s.len(),
{
    let from = run_length(s, space()) as int;
    let w = run_length(s.subrange(from, s.len() as int), non_space()) as int;
    if w == 0 {
        Seq::empty()
    } else {
        proof {
            lemma_run_length(s, space());
            lemma_run_length(s.subrange(from, s.len() as int), non_space());
        }
        seq![s.subrange(from, from + w)] + words(s.subrange(from + w, s.len() as int))
    }
}

/// The parts in order, with `sep` between each two neighbours.
pub open spec fn joined(parts: Seq<Seq<char>>, sep: Seq<char>) -> Seq<char>
    decreases parts.len(),
{
    if parts.len() == 0 {
        Seq::empty()
    } else if parts.len() == 1 {
        parts[0]
    } else {
        joined(parts.drop_last(), sep) + sep + parts.last()
    }
}

/// The decimal digit for `d`, where `0 <= d < 10`.
pub open spec fn digit(d: int) -> char {
    if d == 0 {
        '0'
    } else if d == 1 {
        '1'
    } else if d == 2 {
        '2'
    } else if d == 3 {
        '3'
    } else if d == 4 {
        '4'
    } else if d == 5 {
        '5'
    } else if d == 6 {
        '6'
    } else if d == 7 {
        '7'
    } else if d == 8 {
        '8'
    } else {
        '9'
    }
}

/// The decimal numeral of `n`, without leading zeros.
pub open spec fn decimal(n: nat) -> Seq<char>
    decreases n,
{
    if n < 10 {
        seq![digit(n as int)]
    } else {
        decimal(n / 10).push(digit((n % 10) as int))
    }
}

/// The decimal numeral of `i`, with a minus sign in front where `i` is negative.
pub open spec fn signed_decimal(i: int) -> Seq<char> {
    if i < 0 {
        seq!['-'] + decimal((-i) as nat)
    } else {
        decimal(i as nat)
    }
}

/// The value of the decimal digit `c`, if it is one.
pub open spec fn digit_value(c: char) -> Option<nat> {
    if c == '0' {
        Some(0)
    } else if c == '1' {
        Some(1)
    } else if c == '2' {
        Some(2)
    } else if c == '3' {
        Some(3)
    } else if c == '4' {
        Some(4)
    } else if c == '5' {
        Some(5)
    } else if c == '6' {
        Some(6)
    } else if c == '7' {
        Some(7)
    } else if c == '8' {
        Some(8)
    } else if c == '9' {
        Some(9)
    } else {
        None
    }
}

/// The number that the digits of `s` denote: none where `s` holds anything
/// but decimal digits. The empty sequence denotes zero.
pub open spec fn digits_value(s: Seq<char>) -> Option<nat>
    decreases s.len(),
{
    if s.len() == 0 {
        Some(0)
    } else {
        match (digits_value(s.drop_last()), digit_value(s.last())) {
            (Some(high), Some(low)) => Some(10 * high + low),
            _ => None,
        }
    }
}

/// The number that a non-empty run of decimal digits denotes.
pub open spec fn decimal_value(s: Seq<char>) -> Option<nat> {
    if s.len() == 0 {
        None
    } else {
        digits_value(s)
    }
}

/// The number that a non-empty run of decimal digits denotes, where it fits
/// in 64 bits.
pub open spec fn decimal_u64(s: Seq<char>) -> Option<u64> {
    match decimal_value(s) {
        Some(value) => if value <= u64::MAX {
            Some(value as u64)
        } else {
            None
        },
        None => None,
    }
}

/// Adding a row to a vector of rows adds its view to the views.
pub proof fn lemma_views_push(rows: Seq<Vec<char>>, row: Vec<char>)
    ensures
        views(rows.push(row)) == views(rows).push(row@),
{
    assert(views(rows.push(row)) =~= views(rows).push(row@));
}

/// Trimming keeps an occurrence of `needle` that begins and ends with a
/// character other than white space.
pub proof fn lemma_trim_keeps_infix(s: Seq<char>, needle: Seq<char>)
    requires
        has_infix(s, needle),
        needle.len() > 0,
        !is_whitespace(needle[0]),
        !is_whitespace(needle.last()),
    ensures
        has_infix(trimmed(s), needle),
{
    let i = choose|i: int| occurs_at(s, needle, i);
    let n = needle.len() as int;
    let from = run_length(s, space()) as int;
    let rest = s.subrange(from, s.len() as int);
    let tail = tail_run_length(rest, space()) as int;
    lemma_run_length(s, space());
    lemma_tail_run_length(rest, space());
    let piece = s.subrange(i, i + n);
    assert(piece[0] == s[i]);
    assert(piece[n - 1] == s[i + n - 1]);
    if i < from {
        assert(space()(s[i]));
    }
    if i + n - 1 >= s.len() - tail {
        assert(space()(rest[i + n - 1 - from]));
    }
    let t = trimmed(s);
    assert(t.subrange(i - from, i - from + n) =~= piece);
    assert(occurs_at(t, needle, i - from));
}

/// A normalized token: text that is not empty and has no white space
/// around it.
pub open spec fn is_token(t: Seq<char>) -> bool {
    t.len() > 0 && trimmed(t) == t
}

/// What trimming leaves is one stretch of the text, and where anything is
/// left, the stretch begins and ends with a character other than white space.
pub proof fn lemma_trimmed_is_stretch(s: Seq<char>) -> (bounds: (int, int))
    ensures
        0 <= bounds.0 <= bounds.1 <= s.len(),
        trimmed(s) == s.subrange(bounds.0, bounds.1),
        bounds.0 < bounds.1 ==> !is_whitespace(s[bounds.0]) && !is_whitespace(s[bounds.1 - 1]),
{
    let from = run_length(s, space()) as int;
    let rest = s.subrange(from, s.len() as int);
    let tail = tail_run_length(rest, space()) as int;
    lemma_run_length(s, space());
    lemma_tail_run_length(rest, space());
    let to = s.len() - tail;
    assert(rest.subrange(0, rest.len() - tail) =~= s.subrange(from, to));
    if from < to {
        assert(rest[rest.len() - tail - 1] == s[to - 1]);
    }
    (from, to)
}

/// Text that begins and ends with a character other than white space is left
/// as it is by trimming.
pub proof fn lemma_tidy_is_untouched(s: Seq<char>)
    requires
        s.len() > 0,
        !is_whitespace(s[0]),
        !is_whitespace(s.last()),
    ensures
        is_token(s),
{
    lemma_run_length(s, space());
    assert(ends_run(s, space(), 0));
    let rest = s.subrange(0, s.len() as int);
    assert(rest =~= s);
    lemma_tail_run_length(rest, space());
    assert(ends_tail_run(rest, space(), 0));
    assert(rest.subrange(0, rest.len() as int) =~= s);
}

/// What trimming leaves is a token unless it is empty, and trimming it again
/// changes nothing.
pub proof fn lemma_trimmed_is_token(s: Seq<char>)
    ensures
        trimmed(s).len() > 0 ==> is_token(trimmed(s)),
        trimmed(trimmed(s)) == trimmed(s),
{
    let bounds = lemma_trimmed_is_stretch(s);
    let t = trimmed(s);
    if t.len() > 0 {
        assert(t[0] == s[bounds.0]);
        assert(t.last() == s[bounds.1 - 1]);
        lemma_tidy_is_untouched(t);
    } else {
        lemma_run_length(t, space());
        let rest = t.subrange(0, 0);
        lemma_tail_run_length(rest, space());
        assert(trimmed(t) =~= t);
    }
}

/// Every word is a token: it is not empty and holds no white space at
/// either end.
pub proof fn lemma_words_are_tokens(s: Seq<char>)
    ensures
        forall|k: int| 0 <= k < words(s).len() ==> is_token(#[trigger] words(s)[k]),
    decreases s.len(),
{
    let from = run_length(s, space()) as int;
    let rest = s.subrange(from, s.len() as int);
    let w = run_length(rest, non_space()) as int;
    lemma_run_length(s, space());
    lemma_run_length(rest, non_space());
    if w > 0 {
        let word = s.subrange(from, from + w);
        let tail = s.subrange(from + w, s.len() as int);
        lemma_words_are_tokens(tail);
        assert(word[0] == rest[0]);
        assert(word.last() == rest[w - 1]);
        assert(non_space()(rest[0]));
        assert(non_space()(rest[w - 1]));
        lemma_tidy_is_untouched(word);
        assert forall|k: int| 0 <= k < words(s).len() implies is_token(#[trigger] words(s)[k]) by {
            if k > 0 {
                assert(words(s)[k] == words(tail)[k - 1]);
            }
        }
    }
}

/// A run of decimal digits holds no white space.
pub proof fn lemma_digits_are_ink(s: Seq<char>)
    requires
        digits_value(s) is Some,
    ensures
        forall|i: int| 0 <= i < s.len() ==> !is_whitespace(#[trigger] s[i]),
    decreases s.len(),
{
    if s.len() > 0 {
        lemma_digits_are_ink(s.drop_last());
        assert forall|i: int| 0 <= i < s.len() implies !is_whitespace(#[trigger] s[i]) by {
            if i < s.len() - 1 {
                assert(s[i] == s.drop_last()[i]);
            } else {
                assert(digit_value(s.last()) is Some);
            }
        }
    }
}

/// The characters of a string slice, in order.
pub fn chars_of(s: &str) -> (out: Vec<char>)
    ensures
        out@ == s@,
{
    let mut out: Vec<char> = Vec::new();
    for c in it: s.chars()
        invariant
            out@ == it.seq().take(it.index as int),
    {
        out.push(c);
    }
    out
}

/// The string made of the given characters, in order.
pub fn text_of(chars: &Vec<char>) -> (out: String)
    ensures
        out@ == chars@,
{
    let mut out = String::new();
    let mut i: usize = 0;
    while i < chars.len()
        invariant
            i <= chars.len(),
            out@ == chars@.subrange(0, i as int),
        decreases chars.len() - i,
    {
        out.push(chars[i]);
        i = i + 1;
    }
    assert(chars@.subrange(0, chars.len() as int) == chars@);
    out
}

/// Whether two strings hold the same text.
pub fn same_text(a: &str, b: &str) -> (same: bool)
    ensures
        same == (a@ == b@),
{
    a.to_string() == b.to_string()
}

/// Whether two sequences of characters are the same.
pub fn same_chars(a: &Vec<char>, b: &Vec<char>) -> (same: bool)
    ensures
        same == (a@ == b@),
{
    let same = a.len() == b.len() && starts_with(a, b);
    proof {
        if a@.len() == b@.len() && b@.is_prefix_of(a@) {
            assert(a@ =~= b@);
        }
    }
    same
}

/// Whether `s` is a non-empty run of decimal digits.
pub fn all_digits(s: &Vec<char>) -> (b: bool)
    ensures
        b == (decimal_value(s@) is Some),
{
    if s.len() == 0 {
        return false;
    }
    let mut i: usize = 0;
    assert(s@.subrange(0, 0) =~= Seq::<char>::empty());
    while i < s.len()
        invariant
            i <= s.len(),
            digits_value(s@.subrange(0, i as int)) is Some,
        decreases s.len() - i,
    {
        let ghost next = s@.subrange(0, i + 1);
        proof {
            assert(next.drop_last() =~= s@.subrange(0, i as int));
            assert(next.last() == s@[i as int]);
            lemma_digits_prefix(s@, i + 1);
        }
        match digit_of(s[i]) {
            None => {
                return false;
            },
            Some(_) => {},
        }
        i = i + 1;
    }
    assert(s@.subrange(0, s.len() as int) == s@);
    true
}

/// Whether `c` is white space.
pub fn is_space(c: char) -> (b: bool)
    ensures
        b == is_whitespace(c),
{
    ('\u{9}' <= c && c <= '\u{d}') || c == ' ' || c == '\u{85}' || c == '\u{a0}' || c
        == '\u{1680}' || ('\u{2000}' <= c && c <= '\u{200a}') || c == '\u{2028}' || c
        == '\u{2029}' || c == '\u{202f}' || c == '\u{205f}' || c == '\u{3000}'
}

/// The characters of `s` from position `from` up to, not including, `to`.
pub(crate) fn slice_of(s: &Vec<char>, from: usize, to: usize) -> (out: Vec<char>)
    requires
        from <= to <= s.len(),
    ensures
        out@ == s@.subrange(from as int, to as int),
{
    let mut out: Vec<char> = Vec::new();
    let mut i: usize = from;
    while i < to
        invariant
            from <= i <= to,
            to <= s.len(),
            out@ == s@.subrange(from as int, i as int),
        decreases to - i,
    {
        out.push(s[i]);
        i = i + 1;
    }
    out
}

/// Removes leading and trailing white space.
pub fn trim(s: &Vec<char>) -> (out: Vec<char>)
    ensures
        out@ == trimmed(s@),
{
    let n: usize = s.len();
    let mut from: usize = 0;
    while from < n && is_space(s[from])
        invariant
            n == s.len(),
            from <= n,
            forall|i: int| 0 <= i < from ==> is_whitespace(#[trigger] s@[i]),
        decreases n - from,
    {
        from = from + 1;
    }
    let mut to: usize = n;
    while to > from && is_space(s[to - 1])
        invariant
            n == s.len(),
            from <= to <= n,
            forall|i: int| to <= i < n ==> is_whitespace(#[trigger] s@[i]),
        decreases to,
    {
        to = to - 1;
    }
    proof {
        let rest = s@.subrange(from as int, n as int);
        lemma_run_length(s@, space());
        assert(ends_run(s@, space(), from as int));
        lemma_tail_run_length(rest, space());
        assert(ends_tail_run(rest, space(), n - to)) by {
            assert forall|i: int| rest.len() - (n - to) <= i < rest.len() implies space()(
                #[trigger] rest[i],
            ) by {
                assert(rest[i] == s@[i + from]);
            }
            if n - to < rest.len() {
                assert(rest[rest.len() - (n - to) - 1] == s@[to - 1]);
            }
        }
        assert(rest.subrange(0, rest.len() - (n - to)) == s@.subrange(from as int, to as int));
    }
    slice_of(s, from, to)
}

/// Whether `needle` occurs in `haystack` at position `at`.
pub fn matches_at(haystack: &Vec<char>, needle: &Vec<char>, at: usize) -> (b: bool)
    ensures
        b == occurs_at(haystack@, needle@, at as int),
{
    if needle.len() > haystack.len() || at > haystack.len() - needle.len() {
        return false;
    }
    let mut j: usize = 0;
    while j < needle.len()
        invariant
            j <= needle.len(),
            at + needle.len() <= haystack.len(),
            forall|k: int| 0 <= k < j ==> haystack@[at + k] == needle@[k],
        decreases needle.len() - j,
    {
        if haystack[at + j] != needle[j] {
            proof {
                let piece = haystack@.subrange(at as int, at + needle.len());
                assert(piece[j as int] == haystack@[at + j]);
            }
            return false;
        }
        j = j + 1;
    }
    assert(haystack@.subrange(at as int, at + needle.len()) =~= needle@);
    true
}

/// Whether `needle` occurs somewhere in `haystack`.
pub fn contains(haystack: &Vec<char>, needle: &Vec<char>) -> (b: bool)
    ensures
        b == has_infix(haystack@, needle@),
{
    if needle.len() > haystack.len() {
        return false;
    }
    let last: usize = haystack.len() - needle.len();
    let mut i: usize = 0;
    loop
        invariant
            i <= last,
            last == haystack.len() - needle.len(),
            forall|k: int| 0 <= k < i ==> !occurs_at(haystack@, needle@, k),
        decreases last - i,
    {
        if matches_at(haystack, needle, i) {
            return true;
        }
        if i == last {
            return false;
        }
        i = i + 1;
    }
}

/// Whether `haystack` begins with `needle`.
pub fn starts_with(haystack: &Vec<char>, needle: &Vec<char>) -> (b: bool)
    ensures
        b == needle@.is_prefix_of(haystack@),
{
    let b = matches_at(haystack, needle, 0);
    proof {
        if needle@.len() <= haystack@.len() {
            assert(haystack@.subrange(0, needle@.len() as int) == needle@
                <==> needle@.is_prefix_of(haystack@)) by {
                if needle@.is_prefix_of(haystack@) {
                    assert(haystack@.subrange(0, needle@.len() as int) =~= needle@);
                }
            }
        }
    }
    b
}

/// Splits text into its lines.
pub fn split_lines(s: &Vec<char>) -> (out: Vec<Vec<char>>)
    ensures
        views(out@) == lines(s@),
{
    let n: usize = s.len();
    let mut out: Vec<Vec<char>> = Vec::new();
    let mut start: usize = 0;
    assert(s@.subrange(0, n as int) == s@);
    assert(views(out@) =~= Seq::<Seq<char>>::empty());
    while start < n
        invariant
            n == s.len(),
            start <= n,
            lines(s@) == views(out@) + lines(s@.subrange(start as int, n as int)),
        decreases n - start,
    {
        let mut end: usize = start;
        while end < n && s[end] != '\n'
            invariant
                n == s.len(),
                start <= end <= n,
                forall|i: int| start <= i < end ==> s@[i] != '\n',
            decreases n - end,
        {
            end = end + 1;
        }
        let ghost rest = s@.subrange(start as int, n as int);
        let ghost before = views(out@);
        proof {
            lemma_run_length(rest, other_than('\n'));
            assert(ends_run(rest, other_than('\n'), end - start)) by {
                assert forall|i: int| 0 <= i < end - start implies other_than('\n')(
                    #[trigger] rest[i],
                ) by {
                    assert(rest[i] == s@[start + i]);
                }
                if end - start < rest.len() {
                    assert(rest[end - start] == s@[end as int]);
                }
            }
        }
        if end == n {
            let line = slice_of(s, start, n);
            proof {
                lemma_views_push(out@, line);
                assert(lines(s@.subrange(n as int, n as int)) == Seq::<Seq<char>>::empty());
                assert(before + seq![rest] =~= before.push(rest) + Seq::<Seq<char>>::empty());
            }
            out.push(line);
            start = n;
        } else {
            let stop: usize = if end > start && s[end - 1] == '\r' {
                (end - 1) as usize
            } else {
                end
            };
            let line = slice_of(s, start, stop);
            proof {
                let piece = rest.subrange(0, end - start);
                assert(piece == s@.subrange(start as int, end as int));
                if piece.len() > 0 {
                    assert(piece.last() == s@[end - 1]);
                }
                assert(line@ == without_carriage_return(piece));
                assert(rest.subrange(end - start + 1, rest.len() as int) == s@.subrange(
                    end + 1,
                    n as int,
                ));
                lemma_views_push(out@, line);
                let tail = lines(s@.subrange(end + 1, n as int));
                assert(before + (seq![line@] + tail) =~= before.push(line@) + tail);
            }
            out.push(line);
            start = end + 1;
        }
    }
    proof {
        assert(lines(s@.subrange(n as int, n as int)) == Seq::<Seq<char>>::empty());
        assert(views(out@) + Seq::<Seq<char>>::empty() =~= views(out@));
    }
    out
}

/// Splits text at every occurrence of `sep`.
pub fn split_fields(s: &Vec<char>, sep: char) -> (out: Vec<Vec<char>>)
    ensures
        views(out@) == fields(s@, sep),
{
    let n: usize = s.len();
    let mut out: Vec<Vec<char>> = Vec::new();
    let mut start: usize = 0;
    assert(s@.subrange(0, n as int) == s@);
    assert(views(out@) =~= Seq::<Seq<char>>::empty());
    loop
        invariant
            n == s.len(),
            start <= n,
            fields(s@, sep) == views(out@) + fields(s@.subrange(start as int, n as int), sep),
        decreases n - start,
    {
        let mut end: usize = start;
        while end < n && s[end] != sep
            invariant
                n == s.len(),
                start <= end <= n,
                forall|i: int| start <= i < end ==> s@[i] != sep,
            decreases n - end,
        {
            end = end + 1;
        }
        let ghost rest = s@.subrange(start as int, n as int);
        let ghost before = views(out@);
        proof {
            lemma_run_length(rest, other_than(sep));
            assert(ends_run(rest, other_than(sep), end - start)) by {
                assert forall|i: int| 0 <= i < end - start implies other_than(sep)(
                    #[trigger] rest[i],
                ) by {
                    assert(rest[i] == s@[start + i]);
                }
                if end - start < rest.len() {
                    assert(rest[end - start] == s@[end as int]);
                }
            }
        }
        let piece = slice_of(s, start, end);
        proof {
            lemma_views_push(out@, piece);
            assert(rest.subrange(0, end - start) == piece@);
        }
        out.push(piece);
        if end == n {
            proof {
                assert(rest == piece@);
                assert(before + seq![rest] =~= before.push(rest));
            }
            return out;
        }
        proof {
            assert(rest.subrange(end - start + 1, rest.len() as int) == s@.subrange(
                end + 1,
                n as int,
            ));
            let tail = fields(s@.subrange(end + 1, n as int), sep);
            assert(before + (seq![piece@] + tail) =~= before.push(piece@) + tail);
        }
        start = end + 1;
    }
}

/// Splits text into its words.
pub fn split_words(s: &Vec<char>) -> (out: Vec<Vec<char>>)
    ensures
        views(out@) == words(s@),
{
    let n: usize = s.len();
    let mut out: Vec<Vec<char>> = Vec::new();
    let mut start: usize = 0;
    assert(s@.subrange(0, n as int) == s@);
    assert(views(out@) =~= Seq::<Seq<char>>::empty());
    loop
        invariant
            n == s.len(),
            start <= n,
            words(s@) == views(out@) + words(s@.subrange(start as int, n as int)),
        decreases n - start,
    {
        let mut from: usize = start;
        while from < n && is_space(s[from])
            invariant
                n == s.len(),
                start <= from <= n,
                forall|i: int| start <= i < from ==> is_whitespace(s@[i]),
            decreases n - from,
        {
            from = from + 1;
        }
        let mut to: usize = from;
        while to < n && !is_space(s[to])
            invariant
                n == s.len(),
                from <= to <= n,
                forall|i: int| from <= i < to ==> !is_whitespace(s@[i]),
            decreases n - to,
        {
            to = to + 1;
        }
        let ghost rest = s@.subrange(start as int, n as int);
        let ghost before = views(out@);
        proof {
            lemma_run_length(rest, space());
            assert(ends_run(rest, space(), from - start)) by {
                assert forall|i: int| 0 <= i < from - start implies space()(#[trigger] rest[i]) by {
                    assert(rest[i] == s@[start + i]);
                }
                if from - start < rest.len() {
                    assert(rest[from - start] == s@[from as int]);
                }
            }
            let inner = rest.subrange(from - start, rest.len() as int);
            assert(inner == s@.subrange(from as int, n as int));
            lemma_run_length(inner, non_space());
            assert(ends_run(inner, non_space(), to - from)) by {
                assert forall|i: int| 0 <= i < to - from implies non_space()(
                    #[trigger] inner[i],
                ) by {
                    assert(inner[i] == s@[from + i]);
                }
                if to - from < inner.len() {
                    assert(inner[to - from] == s@[to as int]);
                }
            }
        }
        if to == from {
            proof {
                assert(words(rest) == Seq::<Seq<char>>::empty());
                assert(before + Seq::<Seq<char>>::empty() =~= before);
            }
            return out;
        }
        let word = slice_of(s, from, to);
        proof {
            lemma_views_push(out@, word);
            assert(rest.subrange(from - start, to - start) == word@);
            assert(rest.subrange(to - start, rest.len() as int) == s@.subrange(
                to as int,
                n as int,
            ));
            let tail = words(s@.subrange(to as int, n as int));
            assert(before + (seq![word@] + tail) =~= before.push(word@) + tail);
        }
        out.push(word);
        start = to;
    }
}

/// Appends the characters of `tail` to `out`.
pub fn extend(out: &mut Vec<char>, tail: &Vec<char>)
    ensures
        final(out)@ == old(out)@ + tail@,
{
    let mut i: usize = 0;
    while i < tail.len()
        invariant
            i <= tail.len(),
            out@ == old(out)@ + tail@.subrange(0, i as int),
        decreases tail.len() - i,
    {
        out.push(tail[i]);
        i = i + 1;
        assert(out@ =~= old(out)@ + tail@.subrange(0, i as int));
    }
    assert(tail@.subrange(0, tail.len() as int) == tail@);
}

/// Appends the characters of a string to `out`.
pub fn push_text(out: &mut Vec<char>, tail: &str)
    ensures
        final(out)@ == old(out)@ + tail@,
{
    let chars = chars_of(tail);
    extend(out, &chars);
}

/// Joins the parts, with `sep` between each two neighbours.
pub fn join(parts: &Vec<Vec<char>>, sep: &Vec<char>) -> (out: Vec<char>)
    ensures
        out@ == joined(views(parts@), sep@),
{
    let mut out: Vec<char> = Vec::new();
    let mut i: usize = 0;
    assert(views(parts@).subrange(0, 0) =~= Seq::<Seq<char>>::empty());
    while i < parts.len()
        invariant
            i <= parts.len(),
            out@ == joined(views(parts@).subrange(0, i as int), sep@),
        decreases parts.len() - i,
    {
        let ghost done = views(parts@).subrange(0, i as int);
        let ghost next = views(parts@).subrange(0, i + 1);
        proof {
            assert(next.drop_last() =~= done);
            assert(next.last() == parts@[i as int]@);
        }
        if i > 0 {
            extend(&mut out, sep);
        }
        extend(&mut out, &parts[i]);
        proof {
            if i == 0 {
                assert(out@ =~= parts@[0]@);
            }
        }
        i = i + 1;
    }
    assert(views(parts@).subrange(0, parts.len() as int) =~= views(parts@));
    out
}

/// The character for the decimal digit `d`.
fn digit_char(d: u64) -> (c: char)
    requires
        d < 10,
    ensures
        c == digit(d as int),
{
    if d == 0 {
        '0'
    } else if d == 1 {
        '1'
    } else if d == 2 {
        '2'
    } else if d == 3 {
        '3'
    } else if d == 4 {
        '4'
    } else if d == 5 {
        '5'
    } else if d == 6 {
        '6'
    } else if d == 7 {
        '7'
    } else if d == 8 {
        '8'
    } else {
        '9'
    }
}

/// Writes `n` as a decimal numeral.
pub fn format_decimal(n: u64) -> (out: Vec<char>)
    ensures
        out@ == decimal(n as nat),
    decreases n,
{
    if n < 10 {
        let mut out: Vec<char> = Vec::new();
        out.push(digit_char(n));
        assert(out@ =~= seq![digit(n as int)]);
        out
    } else {
        let mut out = format_decimal(n / 10);
        out.push(digit_char(n % 10));
        out
    }
}

/// Writes `i` as a decimal numeral with its sign.
pub fn format_signed(i: i64) -> (out: Vec<char>)
    ensures
        out@ == signed_decimal(i as int),
{
    if i < 0 {
        let magnitude: u64 = ((-(i + 1)) as u64) + 1;
        let mut out: Vec<char> = Vec::new();
        out.push('-');
        let digits = format_decimal(magnitude);
        extend(&mut out, &digits);
        assert(out@ =~= seq!['-'] + decimal((-i) as nat));
        out
    } else {
        format_decimal(i as u64)
    }
}

/// The value of `c` as a decimal digit.
pub fn digit_of(c: char) -> (d: Option<u64>)
    ensures
        match d {
            Some(v) => digit_value(c) == Some(v as nat),
            None => digit_value(c) is None,
        },
{
    if c == '0' {
        Some(0)
    } else if c == '1' {
        Some(1)
    } else if c == '2' {
        Some(2)
    } else if c == '3' {
        Some(3)
    } else if c == '4' {
        Some(4)
    } else if c == '5' {
        Some(5)
    } else if c == '6' {
        Some(6)
    } else if c == '7' {
        Some(7)
    } else if c == '8' {
        Some(8)
    } else if c == '9' {
        Some(9)
    } else {
        None
    }
}

/// A sequence that has a prefix with no value has none itself, and the value
/// of a sequence of digits is at least that of each of its prefixes.
pub proof fn lemma_digits_prefix(s: Seq<char>, k: int)
    requires
        0 <= k <= s.len(),
    ensures
        digits_value(s.subrange(0, k)) is None ==> digits_value(s) is None,
        digits_value(s) matches Some(v) ==> digits_value(s.subrange(0, k)).unwrap() <= v,
    decreases s.len() - k,
{
    if k == s.len() {
        assert(s.subrange(0, k) == s);
    } else {
        lemma_digits_prefix(s.drop_last(), k);
        assert(s.drop_last().subrange(0, k) == s.subrange(0, k));
    }
}

/// Reads a non-empty run of decimal digits as a number. There is no result
/// where `s` is empty, holds another character, or denotes a number that does
/// not fit in 64 bits.
pub fn parse_decimal(s: &Vec<char>) -> (out: Option<u64>)
    ensures
        out == decimal_u64(s@),
{
    if s.len() == 0 {
        return None;
    }
    let mut value: u64 = 0;
    let mut i: usize = 0;
    assert(s@.subrange(0, 0) =~= Seq::<char>::empty());
    while i < s.len()
        invariant
            i <= s.len(),
            digits_value(s@.subrange(0, i as int)) == Some(value as nat),
        decreases s.len() - i,
    {
        let ghost next = s@.subrange(0, i + 1);
        proof {
            assert(next.drop_last() =~= s@.subrange(0, i as int));
            assert(next.last() == s@[i as int]);
            lemma_digits_prefix(s@, i + 1);
        }
        match digit_of(s[i]) {
            None => {
                return None;
            },
            Some(d) => {
                if value > (u64::MAX - d) / 10 {
                    return None;
                }
                value = value * 10 + d;
            },
        }
        i = i + 1;
    }
    assert(s@.subrange(0, s.len() as int) == s@);
    Some(value)
}

} // verus!
