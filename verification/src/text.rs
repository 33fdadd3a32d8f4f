//! Character-level text helpers: trimming, log truncation, substring search,
//! case folding and decimal rendering, each with a model over `Seq<char>`.

use vstd::prelude::*;
use vstd::string::StringExecFns;

verus! {

/// `String::push` appends exactly one character to the end of the string.
pub assume_specification[ String::push ](s: &mut String, ch: char)
    ensures
        final(s)@ == old(s)@.push(ch),
;

/// Characters with the Unicode `White_Space` property.
pub open spec fn is_whitespace(c: char) -> bool {
    let n = c as u32;
    ||| 0x09 <= n <= 0x0d
    ||| n == 0x20
    ||| n == 0x85
    ||| n == 0xa0
    ||| n == 0x1680
    ||| 0x2000 <= n <= 0x200a
    ||| n == 0x2028
    ||| n == 0x2029
    ||| n == 0x202f
    ||| n == 0x205f
    ||| n == 0x3000
}

/// A carriage return or a line feed becomes a space; every other character stays.
pub open spec fn collapse_char(c: char) -> char {
    if c == '\r' || c == '\n' {
        ' '
    } else {
        c
    }
}

/// The text with every line break replaced by a space.
pub open spec fn collapsed(s: Seq<char>) -> Seq<char> {
    s.map_values(|c: char| collapse_char(c))
}

/// The first index at or after `from` that holds no whitespace (or the length).
pub open spec fn trim_start_index(s: Seq<char>, from: int) -> int
    decreases s.len() - from,
{
    if 0 <= from < s.len() && is_whitespace(s[from]) {
        trim_start_index(s, from + 1)
    } else {
        from
    }
}

/// The end of the text once trailing whitespace is dropped, never below `lo`.
pub open spec fn trim_end_index(s: Seq<char>, lo: int, hi: int) -> int
    decreases hi,
{
    if 0 <= lo < hi <= s.len() && is_whitespace(s[hi - 1]) {
        trim_end_index(s, lo, hi - 1)
    } else {
        hi
    }
}

/// The text without its leading and trailing whitespace.
pub open spec fn trimmed(s: Seq<char>) -> Seq<char> {
    let start = trim_start_index(s, 0);
    let end = trim_end_index(s, start, s.len() as int);
    s.subrange(start, end)
}

/// True when the text holds nothing but whitespace.
pub open spec fn is_blank(s: Seq<char>) -> bool {
    forall|i: int| 0 <= i < s.len() ==> is_whitespace(#[trigger] s[i])
}

/// A text cut to at most `max_chars` characters: a text that is longer keeps its
/// first `max_chars` characters and nothing else.
pub open spec fn cut_to(text: Seq<char>, max_chars: nat) -> Seq<char> {
    if text.len() <= max_chars {
        text
    } else {
        text.take(max_chars as int)
    }
}

/// A log excerpt fit for one line: line breaks collapsed, surrounding whitespace
/// removed, and what is left cut to at most `max_chars` characters.
pub open spec fn truncated_log(s: Seq<char>, max_chars: nat) -> Seq<char> {
    cut_to(trimmed(collapsed(s)), max_chars)
}

/// A shortened log never has more than `max_chars` characters. It is the
/// beginning of the collapsed and trimmed log, and all of it where that fits;
/// and it holds no line break.
pub proof fn lemma_truncated_log_is_bounded(s: Seq<char>, max_chars: nat)
    ensures
        truncated_log(s, max_chars).len() <= max_chars,
        truncated_log(s, max_chars).is_prefix_of(trimmed(collapsed(s))),
        trimmed(collapsed(s)).len() <= max_chars ==> truncated_log(s, max_chars) == trimmed(
            collapsed(s),
        ),
        forall|i: int|
            0 <= i < truncated_log(s, max_chars).len() ==> (#[trigger] truncated_log(
                s,
                max_chars,
            )[i]) != '\n' && truncated_log(s, max_chars)[i] != '\r',
{
    lemma_trimmed(collapsed(s));
}

/// `needle` occurs in `haystack` starting at index `at`.
pub open spec fn occurs_at(haystack: Seq<char>, needle: Seq<char>, at: int) -> bool {
    &&& 0 <= at
    &&& at + needle.len() <= haystack.len()
    &&& haystack.subrange(at, at + needle.len()) == needle
}

/// `needle` occurs somewhere in `haystack`.
pub open spec fn contains_text(haystack: Seq<char>, needle: Seq<char>) -> bool {
    exists|at: int| occurs_at(haystack, needle, at)
}

/// An ASCII capital becomes its small letter; every other character stays.
pub open spec fn ascii_lower(c: char) -> char {
    if 'A' <= c <= 'Z' {
        ((c as u8) + 32) as char
    } else {
        c
    }
}

/// The text with its ASCII capitals made small.
pub open spec fn lowercase(s: Seq<char>) -> Seq<char> {
    s.map_values(|c: char| ascii_lower(c))
}

/// Two texts that differ at most in the case of ASCII letters.
pub open spec fn same_ignoring_case(a: Seq<char>, b: Seq<char>) -> bool {
    lowercase(a) == lowercase(b)
}

/// The character of one decimal digit.
pub open spec fn digit_char(d: nat) -> char
    recommends
        d < 10,
{
    ((48 + d) as u8) as char
}

/// The decimal numeral of a natural number, without leading zeros.
pub open spec fn decimal_text(n: nat) -> Seq<char>
    decreases n,
{
    if n < 10 {
        seq![digit_char(n)]
    } else {
        decimal_text(n / 10).push(digit_char(n % 10))
    }
}

/// The decimal numeral of an integer, with a minus sign when negative.
pub open spec fn signed_decimal_text(n: int) -> Seq<char> {
    if n < 0 {
        seq!['-'] + decimal_text((-n) as nat)
    } else {
        decimal_text(n as nat)
    }
}

/// The characters of an optional string.
pub open spec fn opt_text(text: Option<String>) -> Option<Seq<char>> {
    match text {
        Some(text) => Some(text@),
        None => None,
    }
}

/// The views of a sequence of strings, in order.
pub open spec fn texts(v: Seq<String>) -> Seq<Seq<char>> {
    v.map_values(|s: String| s@)
}

/// Whitespace from `from` up to the index where trimming at the start stops.
proof fn lemma_trim_start(s: Seq<char>, from: int)
    requires
        0 <= from <= s.len(),
    ensures
        from <= trim_start_index(s, from) <= s.len(),
        forall|i: int| from <= i < trim_start_index(s, from) ==> is_whitespace(#[trigger] s[i]),
        trim_start_index(s, from) < s.len() ==> !is_whitespace(s[trim_start_index(s, from)]),
    decreases s.len() - from,
{
    if from < s.len() && is_whitespace(s[from]) {
        lemma_trim_start(s, from + 1);
    }
}

/// Whitespace from the index where trimming at the end stops up to `hi`.
proof fn lemma_trim_end(s: Seq<char>, lo: int, hi: int)
    requires
        0 <= lo <= hi <= s.len(),
    ensures
        lo <= trim_end_index(s, lo, hi) <= hi,
        forall|i: int| trim_end_index(s, lo, hi) <= i < hi ==> is_whitespace(#[trigger] s[i]),
        lo < trim_end_index(s, lo, hi) ==> !is_whitespace(s[trim_end_index(s, lo, hi) - 1]),
    decreases hi,
{
    if lo < hi && is_whitespace(s[hi - 1]) {
        lemma_trim_end(s, lo, hi - 1);
    }
}

/// What trimming leaves: the part of the text between two indices such that all
/// before the first and all from the second on is whitespace, and that the part,
/// unless it is empty, begins and ends with a character that is none. Nothing
/// is left exactly of a blank text.
pub proof fn lemma_trimmed(s: Seq<char>)
    ensures
        ({
            let start = trim_start_index(s, 0);
            let end = trim_end_index(s, start, s.len() as int);
            &&& 0 <= start <= end <= s.len()
            &&& trimmed(s) == s.subrange(start, end)
            &&& forall|i: int| 0 <= i < start ==> is_whitespace(#[trigger] s[i])
            &&& forall|i: int| end <= i < s.len() ==> is_whitespace(#[trigger] s[i])
            &&& start < end ==> !is_whitespace(s[start]) && !is_whitespace(s[end - 1])
        }),
        is_blank(s) <==> trimmed(s).len() == 0,
{
    lemma_trim_start(s, 0);
    let start = trim_start_index(s, 0);
    lemma_trim_end(s, start, s.len() as int);
    let end = trim_end_index(s, start, s.len() as int);
    if start < s.len() {
        assert(!is_whitespace(s[start]));
        if end == start {
            assert(is_whitespace(s[start]));
        }
    }
}

/// True for the characters that trimming removes.
pub fn char_is_whitespace(c: char) -> (r: bool)
    ensures
        r == is_whitespace(c),
{
    let n: u32 = c as u32;
    (0x09 <= n && n <= 0x0d) || n == 0x20 || n == 0x85 || n == 0xa0 || n == 0x1680 || (0x2000 <= n
        && n <= 0x200a) || n == 0x2028 || n == 0x2029 || n == 0x202f || n == 0x205f || n == 0x3000
}

/// The small letter of an ASCII capital; any other character as it is.
pub fn char_to_ascii_lower(c: char) -> (r: char)
    ensures
        r == ascii_lower(c),
{
    if 'A' <= c && c <= 'Z' {
        ((c as u8) + 32) as char
    } else {
        c
    }
}

/// The characters of a string slice, in order.
pub fn chars_of(s: &str) -> (out: Vec<char>)
    ensures
        out@ == s@,
{
    let mut out: Vec<char> = Vec::new();
    for c in it: s.chars()
        invariant
            it.seq() == s@,
            out@ == it.seq().take(it.index()),
    {
        assert(it.seq().take(it.index() + 1) =~= it.seq().take(it.index()).push(c));
        out.push(c);
    }
    out
}

/// Appends the characters `chars[from..to]` to `out`.
pub fn push_chars(out: &mut String, chars: &Vec<char>, from: usize, to: usize)
    requires
        from <= to <= chars.len(),
    ensures
        final(out)@ == old(out)@ + chars@.subrange(from as int, to as int),
{
    let mut i: usize = from;
    while i < to
        invariant
            from <= i <= to <= chars.len(),
            out@ == old(out)@ + chars@.subrange(from as int, i as int),
        decreases to - i,
    {
        assert(chars@.subrange(from as int, i + 1) =~= chars@.subrange(from as int, i as int).push(
            chars@[i as int],
        ));
        out.push(chars[i]);
        i += 1;
    }
    assert(chars@.subrange(from as int, from as int) =~= Seq::<char>::empty());
}

/// True when the text holds nothing but whitespace, as after trimming.
pub fn is_blank_text(s: &str) -> (r: bool)
    ensures
        r == is_blank(s@),
{
    let chars = chars_of(s);
    let mut i: usize = 0;
    while i < chars.len()
        invariant
            i <= chars.len(),
            chars@ == s@,
            forall|j: int| 0 <= j < i ==> is_whitespace(#[trigger] s@[j]),
        decreases chars.len() - i,
    {
        if !char_is_whitespace(chars[i]) {
            return false;
        }
        i += 1;
    }
    true
}

/// Collapses line breaks, trims, and cuts a log to its first `max_chars`
/// characters.
pub fn truncate_log(input: &str, max_chars: usize) -> (out: String)
    ensures
        out@ == truncated_log(input@, max_chars as nat),
        out@.len() <= max_chars,
{
    let raw = chars_of(input);
    let mut chars: Vec<char> = Vec::new();
    let mut k: usize = 0;
    while k < raw.len()
        invariant
            k <= raw.len(),
            raw@ == input@,
            chars@ == collapsed(input@).take(k as int),
        decreases raw.len() - k,
    {
        let c = raw[k];
        let folded = if c == '\r' || c == '\n' {
            ' '
        } else {
            c
        };
        assert(collapsed(input@).take(k + 1) =~= collapsed(input@).take(k as int).push(folded));
        chars.push(folded);
        k += 1;
    }
    assert(chars@ =~= collapsed(input@));
    let n = chars.len();
    let mut start: usize = 0;
    while start < n && char_is_whitespace(chars[start])
        invariant
            start <= n == chars.len(),
            trim_start_index(chars@, start as int) == trim_start_index(chars@, 0),
        decreases n - start,
    {
        start += 1;
    }
    let mut end: usize = n;
    while start < end && char_is_whitespace(chars[end - 1])
        invariant
            start <= end <= n == chars.len(),
            trim_end_index(chars@, start as int, end as int) == trim_end_index(
                chars@,
                start as int,
                n as int,
            ),
        decreases end,
    {
        end -= 1;
    }
    assert(chars@.subrange(start as int, end as int) == trimmed(chars@));
    let mut out = String::new();
    if end - start <= max_chars {
        push_chars(&mut out, &chars, start, end);
    } else {
        push_chars(&mut out, &chars, start, start + max_chars);
        assert(out@ =~= trimmed(chars@).take(max_chars as int));
    }
    out
}

/// Substring search: does `needle` occur in `haystack`?
pub fn text_contains(haystack: &str, needle: &str) -> (r: bool)
    ensures
        r == contains_text(haystack@, needle@),
{
    let h = chars_of(haystack);
    let p = chars_of(needle);
    if p.len() > h.len() {
        assert(forall|at: int| !occurs_at(haystack@, needle@, at));
        return false;
    }
    let last: usize = h.len() - p.len();
    let mut at: usize = 0;
    while at <= last
        invariant
            at <= last + 1,
            last == h.len() - p.len(),
            h@ == haystack@,
            p@ == needle@,
            forall|j: int| 0 <= j < at ==> !occurs_at(haystack@, needle@, j),
        decreases last + 1 - at,
    {
        let mut k: usize = 0;
        while k < p.len() && h[at + k] == p[k]
            invariant
                k <= p.len(),
                at + p.len() <= h.len(),
                h@.subrange(at as int, at + k) == p@.take(k as int),
            decreases p.len() - k,
        {
            assert(h@.subrange(at as int, at + k + 1) =~= h@.subrange(at as int, at + k).push(
                h@[at + k],
            ));
            assert(p@.take(k + 1) =~= p@.take(k as int).push(p@[k as int]));
            k += 1;
        }
        if k == p.len() {
            assert(p@.take(k as int) =~= p@);
            assert(occurs_at(haystack@, needle@, at as int));
            return true;
        }
        assert(!occurs_at(haystack@, needle@, at as int)) by {
            if occurs_at(haystack@, needle@, at as int) {
                assert(h@.subrange(at as int, at + p.len())[k as int] == p@[k as int]);
            }
        }
        at += 1;
    }
    assert(forall|j: int| !occurs_at(haystack@, needle@, j));
    false
}

/// Equality up to the case of ASCII letters.
pub fn eq_ignoring_case(a: &str, b: &str) -> (r: bool)
    ensures
        r == same_ignoring_case(a@, b@),
{
    let x = chars_of(a);
    let y = chars_of(b);
    if x.len() != y.len() {
        assert(lowercase(a@).len() != lowercase(b@).len());
        return false;
    }
    let mut i: usize = 0;
    while i < x.len()
        invariant
            i <= x.len() == y.len(),
            x@ == a@,
            y@ == b@,
            forall|j: int| 0 <= j < i ==> ascii_lower(a@[j]) == ascii_lower(b@[j]),
        decreases x.len() - i,
    {
        if char_to_ascii_lower(x[i]) != char_to_ascii_lower(y[i]) {
            assert(lowercase(a@)[i as int] != lowercase(b@)[i as int]);
            return false;
        }
        i += 1;
    }
    assert(lowercase(a@) =~= lowercase(b@));
    true
}

/// Appends the decimal numeral of `n` to `out`.
pub fn push_decimal(out: &mut String, n: u64)
    ensures
        final(out)@ == old(out)@ + decimal_text(n as nat),
    decreases n,
{
    if n >= 10 {
        push_decimal(out, n / 10);
    }
    let d: u8 = (n % 10) as u8;
    out.push((48 + d) as char);
    assert(final(out)@ =~= old(out)@ + decimal_text(n as nat));
}

/// Appends the decimal numeral of `n`, with a minus sign when negative.
pub fn push_signed_decimal(out: &mut String, n: i32)
    ensures
        final(out)@ == old(out)@ + signed_decimal_text(n as int),
{
    if n < 0 {
        out.push('-');
        let magnitude: u64 = (-(n as i64)) as u64;
        push_decimal(out, magnitude);
        assert(final(out)@ =~= old(out)@ + signed_decimal_text(n as int));
    } else {
        push_decimal(out, n as u64);
    }
}

/// `first` followed by `second`.
pub fn concat2(first: &str, second: &str) -> (out: String)
    ensures
        out@ == first@ + second@,
{
    let mut out = String::from_str(first);
    out.append(second);
    out
}

/// The three texts one after another.
pub fn concat3(first: &str, second: &str, third: &str) -> (out: String)
    ensures
        out@ == first@ + second@ + third@,
{
    let mut out = String::from_str(first);
    out.append(second);
    out.append(third);
    out
}

} // verus!
