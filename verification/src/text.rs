//! Character-level helpers shared by the parsers and formatters of the crate.
//!
//! Text is handled as sequences of `char`; every helper states its result over
//! `Seq<char>` so that callers can reason about trimming, word splitting,
//! searching and number formatting exactly.

use vstd::prelude::*;
use vstd::std_specs::iter::IteratorSpec;

verus! {

broadcast use vstd::string::group_string_axioms;

// ---------------------------------------------------------------------------
// Conversions between strings and character vectors
// ---------------------------------------------------------------------------

/// Appends one character to a string (std's `String::push`).
#[verifier::external_body]
pub(crate) fn push_char(s: &mut String, c: char)
    ensures
        final(s)@ == old(s)@.push(c),
{
    s.push(c);
}

/// The characters of a string slice, in order.
pub fn chars_of(s: &str) -> (v: Vec<char>)
    ensures
        v@ == s@,
{
    let mut v: Vec<char> = Vec::new();
    for c in it: s.chars()
        invariant
            v@ == it.seq().take(it.index() as int),
    {
        v.push(c);
    }
    v
}

/// A string holding exactly the given characters.
pub fn string_of(v: &[char]) -> (s: String)
    ensures
        s@ == v@,
{
    let mut s = String::new();
    let mut i: usize = 0;
    while i < v.len()
        invariant
            i <= v.len(),
            s@ == v@.take(i as int),
        decreases v.len() - i,
    {
        push_char(&mut s, v[i]);
        assert(v@.take(i as int).push(v@[i as int]) =~= v@.take(i + 1));
        i = i + 1;
    }
    assert(v@.take(v.len() as int) =~= v@);
    s
}

/// Appends a slice of characters to a string.
pub fn push_chars(s: &mut String, v: &[char])
    ensures
        final(s)@ == old(s)@ + v@,
{
    let mut i: usize = 0;
    while i < v.len()
        invariant
            i <= v.len(),
            s@ == old(s)@ + v@.take(i as int),
        decreases v.len() - i,
    {
        push_char(s, v[i]);
        assert(v@.take(i as int).push(v@[i as int]) =~= v@.take(i + 1));
        i = i + 1;
    }
    assert(v@.take(v.len() as int) =~= v@);
}

/// Appends a string slice to a string.
pub fn push_str(s: &mut String, t: &str)
    ensures
        final(s)@ == old(s)@ + t@,
{
    let v = chars_of(t);
    push_chars(s, &v);
}

/// Whether two character slices hold the same characters.
pub fn chars_eq(a: &[char], b: &[char]) -> (r: bool)
    ensures
        r == (a@ == b@),
{
    if a.len() != b.len() {
        return false;
    }
    let mut i: usize = 0;
    while i < a.len()
        invariant
            a.len() == b.len(),
            i <= a.len(),
            forall|k: int| 0 <= k < i ==> a@[k] == b@[k],
        decreases a.len() - i,
    {
        if a[i] != b[i] {
            return false;
        }
        i = i + 1;
    }
    assert(a@ =~= b@);
    true
}

/// Whether a character slice spells out the given string slice.
pub fn chars_eq_str(a: &[char], b: &str) -> (r: bool)
    ensures
        r == (a@ == b@),
{
    let bv = chars_of(b);
    chars_eq(a, &bv)
}

/// Whether `s` begins with `prefix`.
pub open spec fn has_prefix(s: Seq<char>, prefix: Seq<char>) -> bool {
    prefix.len() <= s.len() && s.take(prefix.len() as int) == prefix
}

/// Whether `s` begins with `prefix` (executable).
pub fn starts_with_chars(s: &[char], prefix: &[char]) -> (r: bool)
    ensures
        r == has_prefix(s@, prefix@),
{
    if prefix.len() > s.len() {
        return false;
    }
    let mut i: usize = 0;
    while i < prefix.len()
        invariant
            prefix.len() <= s.len(),
            i <= prefix.len(),
            forall|k: int| 0 <= k < i ==> s@[k] == prefix@[k],
        decreases prefix.len() - i,
    {
        if s[i] != prefix[i] {
            assert(s@.take(prefix.len() as int)[i as int] != prefix@[i as int]);
            return false;
        }
        i = i + 1;
    }
    assert(s@.take(prefix.len() as int) =~= prefix@);
    true
}

// ---------------------------------------------------------------------------
// Whitespace, trimming and words
// ---------------------------------------------------------------------------

/// Unicode `White_Space`, the property that Rust's `char::is_whitespace` tests.
pub open spec fn is_white(c: char) -> bool {
    let u = c as u32;
    ||| 0x09 <= u <= 0x0d
    ||| u == 0x20
    ||| u == 0x85
    ||| u == 0xa0
    ||| u == 0x1680
    ||| 0x2000 <= u <= 0x200a
    ||| u == 0x2028
    ||| u == 0x2029
    ||| u == 0x202f
    ||| u == 0x205f
    ||| u == 0x3000
}

/// Whether a character is Unicode whitespace.
pub fn is_whitespace(c: char) -> (r: bool)
    ensures
        r == is_white(c),
{
    let u = c as u32;
    (0x09 <= u && u <= 0x0d) || u == 0x20 || u == 0x85 || u == 0xa0 || u == 0x1680 || (0x2000
        <= u && u <= 0x200a) || u == 0x2028 || u == 0x2029 || u == 0x202f || u == 0x205f || u
        == 0x3000
}

/// The first index at or after `i` that holds a non-whitespace character, or
/// the length of `s` when there is none.
pub open spec fn first_non_white(s: Seq<char>, i: int) -> int
    decreases s.len() - i,
{
    if i >= s.len() {
        s.len() as int
    } else if !is_white(s[i]) {
        i
    } else {
        first_non_white(s, i + 1)
    }
}

/// The end of the non-whitespace prefix of `s[..j]`, scanning backwards:
/// the smallest `k <= j` such that `s[k..j]` is all whitespace.
pub open spec fn end_non_white(s: Seq<char>, j: int) -> int
    decreases j,
{
    if j <= 0 {
        0
    } else if !is_white(s[j - 1]) {
        j
    } else {
        end_non_white(s, j - 1)
    }
}

/// `s` without leading and trailing whitespace (`str::trim`).
pub open spec fn trim_spec(s: Seq<char>) -> Seq<char> {
    let a = first_non_white(s, 0);
    let b = end_non_white(s, s.len() as int);
    if a < b {
        s.subrange(a, b)
    } else {
        Seq::empty()
    }
}

/// `s` without trailing whitespace (`str::trim_end`).
pub open spec fn trim_end_spec(s: Seq<char>) -> Seq<char> {
    s.take(end_non_white(s, s.len() as int))
}

pub proof fn lemma_first_non_white_bounds(s: Seq<char>, i: int)
    requires
        0 <= i,
    ensures
        i <= s.len() ==> i <= first_non_white(s, i) <= s.len(),
        i > s.len() ==> first_non_white(s, i) == s.len(),
        first_non_white(s, i) < s.len() ==> !is_white(s[first_non_white(s, i)]),
        forall|k: int| i <= k < first_non_white(s, i) ==> is_white(#[trigger] s[k]),
    decreases s.len() - i,
{
    if i < s.len() && is_white(s[i]) {
        lemma_first_non_white_bounds(s, i + 1);
    }
}

pub proof fn lemma_end_non_white_bounds(s: Seq<char>, j: int)
    requires
        j <= s.len(),
    ensures
        j >= 0 ==> 0 <= end_non_white(s, j) <= j,
        end_non_white(s, j) > 0 ==> !is_white(s[end_non_white(s, j) - 1]),
        forall|k: int| end_non_white(s, j) <= k < j ==> is_white(#[trigger] s[k]),
    decreases j,
{
    if j > 0 && is_white(s[j - 1]) {
        lemma_end_non_white_bounds(s, j - 1);
    }
}

/// The bounds `(a, b)` of the trimmed part of `s`.
pub fn trim_bounds(s: &[char]) -> (r: (usize, usize))
    ensures
        r.0 <= r.1 <= s.len(),
        s@.subrange(r.0 as int, r.1 as int) == trim_spec(s@),
{
    let mut a: usize = 0;
    while a < s.len() && is_whitespace(s[a])
        invariant
            a <= s.len(),
            first_non_white(s@, 0) == first_non_white(s@, a as int),
        decreases s.len() - a,
    {
        a = a + 1;
    }
    let mut b: usize = s.len();
    while b > 0 && is_whitespace(s[b - 1])
        invariant
            b <= s.len(),
            end_non_white(s@, s.len() as int) == end_non_white(s@, b as int),
        decreases b,
    {
        b = b - 1;
    }
    if a < b {
        (a, b)
    } else {
        proof {
            lemma_first_non_white_bounds(s@, 0);
            lemma_end_non_white_bounds(s@, s.len() as int);
        }
        assert(s@.subrange(a as int, a as int) =~= Seq::<char>::empty());
        (a, a)
    }
}

/// A copy of `s[from..to]`.
pub fn slice_vec(s: &[char], from: usize, to: usize) -> (r: Vec<char>)
    requires
        from <= to <= s.len(),
    ensures
        r@ == s@.subrange(from as int, to as int),
{
    let mut r: Vec<char> = Vec::new();
    let mut i = from;
    while i < to
        invariant
            from <= i <= to <= s.len(),
            r@ == s@.subrange(from as int, i as int),
        decreases to - i,
    {
        r.push(s[i]);
        assert(s@.subrange(from as int, i as int).push(s@[i as int]) =~= s@.subrange(
            from as int,
            i + 1,
        ));
        i = i + 1;
    }
    r
}

/// `s` without leading and trailing whitespace.
pub fn trim(s: &[char]) -> (r: Vec<char>)
    ensures
        r@ == trim_spec(s@),
{
    let (a, b) = trim_bounds(s);
    slice_vec(s, a, b)
}

/// `s` without trailing whitespace.
pub fn trim_end(s: &[char]) -> (r: Vec<char>)
    ensures
        r@ == trim_end_spec(s@),
{
    let mut b: usize = s.len();
    while b > 0 && is_whitespace(s[b - 1])
        invariant
            b <= s.len(),
            end_non_white(s@, s.len() as int) == end_non_white(s@, b as int),
        decreases b,
    {
        b = b - 1;
    }
    slice_vec(s, 0, b)
}

/// The end of the word that starts at `i`: the first whitespace index at or
/// after `i`, or the length of `s`.
pub open spec fn word_end(s: Seq<char>, i: int) -> int
    decreases s.len() - i,
{
    if i >= s.len() || is_white(s[i]) {
        i
    } else {
        word_end(s, i + 1)
    }
}

pub proof fn lemma_word_end_bounds(s: Seq<char>, i: int)
    requires
        0 <= i <= s.len(),
    ensures
        i <= word_end(s, i) <= s.len(),
        word_end(s, i) < s.len() ==> is_white(s[word_end(s, i)]),
        forall|k: int| i <= k < word_end(s, i) ==> !is_white(#[trigger] s[k]),
    decreases s.len() - i,
{
    if i < s.len() && !is_white(s[i]) {
        lemma_word_end_bounds(s, i + 1);
    }
}

/// The whitespace-separated words of `s[i..]` (`str::split_whitespace`).
pub open spec fn words_from(s: Seq<char>, i: int) -> Seq<Seq<char>>
    decreases s.len() - i,
    when 0 <= i
{
    let a = first_non_white(s, i);
    if a >= s.len() {
        Seq::empty()
    } else {
        let e = word_end(s, a);
        proof {
            lemma_first_non_white_bounds(s, i);
            lemma_word_end_bounds(s, a);
            lemma_word_end_bounds(s, a + 1);
        }
        seq![s.subrange(a, e)] + words_from(s, e)
    }
}

/// The whitespace-separated words of `s`.
pub open spec fn words(s: Seq<char>) -> Seq<Seq<char>> {
    words_from(s, 0)
}

/// The views of a sequence of character vectors.
pub open spec fn views(v: Seq<Vec<char>>) -> Seq<Seq<char>> {
    v.map_values(|w: Vec<char>| w@)
}

/// Splits `s` into its whitespace-separated words.
pub fn split_whitespace(s: &[char]) -> (r: Vec<Vec<char>>)
    ensures
        views(r@) == words(s@),
{
    let mut r: Vec<Vec<char>> = Vec::new();
    let mut i: usize = 0;
    while i < s.len()
        invariant
            i <= s.len(),
            words(s@) == views(r@) + words_from(s@, i as int),
        decreases s.len() - i,
    {
        let ghost i0 = i as int;
        let mut a = i;
        while a < s.len() && is_whitespace(s[a])
            invariant
                i <= a <= s.len(),
                first_non_white(s@, i0) == first_non_white(s@, a as int),
            decreases s.len() - a,
        {
            a = a + 1;
        }
        if a >= s.len() {
            assert(words_from(s@, i0) =~= Seq::<Seq<char>>::empty());
            assert(views(r@) + Seq::<Seq<char>>::empty() =~= views(r@));
            i = s.len();
            assert(words_from(s@, i as int) =~= Seq::<Seq<char>>::empty());
        } else {
            let mut e = a;
            while e < s.len() && !is_whitespace(s[e])
                invariant
                    a <= e <= s.len(),
                    word_end(s@, a as int) == word_end(s@, e as int),
                decreases s.len() - e,
            {
                e = e + 1;
            }
            proof {
                lemma_word_end_bounds(s@, a as int);
                lemma_word_end_bounds(s@, a + 1);
            }
            let w = slice_vec(s, a, e);
            let ghost old_r = r@;
            r.push(w);
            assert(views(r@) =~= views(old_r) + seq![s@.subrange(a as int, e as int)]);
            assert(words_from(s@, i0) == seq![s@.subrange(a as int, e as int)] + words_from(
                s@,
                e as int,
            ));
            assert(views(old_r) + (seq![s@.subrange(a as int, e as int)] + words_from(
                s@,
                e as int,
            )) =~= views(r@) + words_from(s@, e as int));
            i = e;
        }
    }
    if i >= s.len() {
        assert(words_from(s@, i as int) =~= Seq::<Seq<char>>::empty());
    }
    assert(views(r@) + Seq::<Seq<char>>::empty() =~= views(r@));
    r
}

// ---------------------------------------------------------------------------
// Searching
// ---------------------------------------------------------------------------

/// Whether `needle` occurs in `hay` at position `i`.
pub open spec fn occurs_at(hay: Seq<char>, needle: Seq<char>, i: int) -> bool {
    0 <= i && i + needle.len() <= hay.len() && hay.subrange(i, i + needle.len()) == needle
}

/// Whether `needle` occurs anywhere in `hay` (`str::contains`).
pub open spec fn contains_seq(hay: Seq<char>, needle: Seq<char>) -> bool {
    exists|i: int| occurs_at(hay, needle, i)
}

/// Whether `needle` occurs in `hay` at position `i` (executable).
pub fn matches_at(hay: &[char], needle: &[char], i: usize) -> (r: bool)
    ensures
        r == occurs_at(hay@, needle@, i as int),
{
    if i > hay.len() || needle.len() > hay.len() - i {
        return false;
    }
    let mut k: usize = 0;
    while k < needle.len()
        invariant
            i + needle.len() <= hay.len(),
            k <= needle.len(),
            forall|j: int| 0 <= j < k ==> hay@[i + j] == needle@[j],
        decreases needle.len() - k,
    {
        if hay[i + k] != needle[k] {
            assert(hay@.subrange(i as int, i + needle.len())[k as int] != needle@[k as int]);
            return false;
        }
        k = k + 1;
    }
    assert(hay@.subrange(i as int, i + needle.len()) =~= needle@);
    true
}

/// Whether `needle` occurs anywhere in `hay`.
pub fn contains_chars(hay: &[char], needle: &[char]) -> (r: bool)
    ensures
        r == contains_seq(hay@, needle@),
{
    if needle.len() > hay.len() {
        return false;
    }
    let last = hay.len() - needle.len();
    let mut i: usize = 0;
    loop
        invariant
            needle.len() <= hay.len(),
            last == hay.len() - needle.len(),
            i <= last,
            forall|j: int| 0 <= j < i ==> !occurs_at(hay@, needle@, j),
        ensures
            forall|j: int| 0 <= j <= last ==> !occurs_at(hay@, needle@, j),
        decreases last - i,
    {
        if matches_at(hay, needle, i) {
            return true;
        }
        if i == last {
            break;
        }
        i = i + 1;
    }
    assert forall|j: int| !occurs_at(hay@, needle@, j) by {
        if 0 <= j && j + needle@.len() <= hay@.len() {
            assert(j <= last);
        }
    }
    false
}

// ---------------------------------------------------------------------------
// Numbers
// ---------------------------------------------------------------------------

/// The decimal digits of `n`, most significant first, without sign or padding.
pub open spec fn decimal(n: nat) -> Seq<char>
    decreases n,
{
    if n < 10 {
        seq![digit_char(n)]
    } else {
        decimal(n / 10).push(digit_char(n % 10))
    }
}

/// The ASCII digit for `d < 10`.
pub open spec fn digit_char(d: nat) -> char {
    (('0' as u32) + d) as char
}

/// The decimal representation of `n`.
pub fn decimal_chars(n: u64) -> (r: Vec<char>)
    ensures
        r@ == decimal(n as nat),
    decreases n,
{
    if n < 10 {
        let c = digit(n);
        let mut r: Vec<char> = Vec::new();
        r.push(c);
        assert(r@ =~= seq![digit_char(n as nat)]);
        r
    } else {
        let mut r = decimal_chars(n / 10);
        r.push(digit(n % 10));
        r
    }
}

/// The ASCII digit for `d < 10`.
fn digit(d: u64) -> (c: char)
    requires
        d < 10,
    ensures
        c == digit_char(d as nat),
{
    if d == 0 {
        '0'
    } else if d == 1 {
        '1'
    } else if d == 2 {
        '2'
    } else if d == 3 {
        '3'
    } else if d == 4 {
        '4'
    } else if d == 5 {
        '5'
    } else if d == 6 {
        '6'
    } else if d == 7 {
        '7'
    } else if d == 8 {
        '8'
    } else {
        '9'
    }
}

/// The lower-case hexadecimal digits of `n`, most significant first.
pub open spec fn hexadecimal(n: nat) -> Seq<char>
    decreases n,
{
    if n < 16 {
        seq![hex_digit_char(n)]
    } else {
        hexadecimal(n / 16).push(hex_digit_char(n % 16))
    }
}

/// The lower-case hexadecimal digit for `d < 16`.
pub open spec fn hex_digit_char(d: nat) -> char {
    if d < 10 {
        digit_char(d)
    } else {
        (('a' as u32) + (d - 10)) as char
    }
}

/// The hexadecimal representation of `n` (the `{:x}` format).
pub fn hex_chars(n: u64) -> (r: Vec<char>)
    ensures
        r@ == hexadecimal(n as nat),
    decreases n,
{
    let d = n % 16;
    let c = if d < 10 {
        digit(d)
    } else {
        ((('a' as u32) + ((d - 10) as u32)) as u8) as char
    };
    assert(c == hex_digit_char(d as nat)) by {
        if d >= 10 {
            assert(('a' as u32) + ((d - 10) as u32) < 128);
        }
    }
    if n < 16 {
        let mut r: Vec<char> = Vec::new();
        r.push(c);
        assert(r@ =~= seq![hex_digit_char(n as nat)]);
        r
    } else {
        let mut r = hex_chars(n / 16);
        r.push(c);
        r
    }
}

/// The decimal representation of `n` as a string (`u64::to_string`).
pub fn decimal_string(n: u64) -> (r: String)
    ensures
        r@ == decimal(n as nat),
{
    let v = decimal_chars(n);
    string_of(&v)
}

/// `n` in decimal, with a leading `-` when negative (`i64::to_string`).
pub open spec fn signed_decimal(n: int) -> Seq<char> {
    if n < 0 {
        seq!['-'] + decimal((-n) as nat)
    } else {
        decimal(n as nat)
    }
}

/// The decimal representation of a signed integer.
pub fn signed_decimal_chars(n: i64) -> (r: Vec<char>)
    ensures
        r@ == signed_decimal(n as int),
{
    if n < 0 {
        let m: u64 = if n == i64::MIN {
            9223372036854775808u64
        } else {
            (-n) as u64
        };
        let d = decimal_chars(m);
        let mut r: Vec<char> = Vec::new();
        r.push('-');
        let mut i: usize = 0;
        while i < d.len()
            invariant
                i <= d.len(),
                r@ == seq!['-'] + d@.take(i as int),
            decreases d.len() - i,
        {
            r.push(d[i]);
            assert(seq!['-'] + d@.take(i as int).push(d@[i as int]) =~= seq!['-'] + d@.take(
                i + 1,
            ));
            i = i + 1;
        }
        assert(d@.take(d.len() as int) =~= d@);
        r
    } else {
        decimal_chars(n as u64)
    }
}

/// `text` right-aligned in a field of `width` characters, padded with spaces
/// on the left (`format!("{:>width$}")`).
pub open spec fn pad_left(text: Seq<char>, width: nat) -> Seq<char> {
    if text.len() >= width {
        text
    } else {
        Seq::new((width - text.len()) as nat, |i: int| ' ') + text
    }
}

/// Right-aligns `text` in a field of `width` characters.
pub fn pad_left_chars(text: &[char], width: usize) -> (r: Vec<char>)
    ensures
        r@ == pad_left(text@, width as nat),
{
    let mut r: Vec<char> = Vec::new();
    if text.len() < width {
        let pad = width - text.len();
        let mut i: usize = 0;
        while i < pad
            invariant
                i <= pad,
                r@ == Seq::new(i as nat, |k: int| ' '),
            decreases pad - i,
        {
            r.push(' ');
            assert(r@ =~= Seq::new((i + 1) as nat, |k: int| ' '));
            i = i + 1;
        }
    }
    let mut j: usize = 0;
    let ghost prefix = r@;
    while j < text.len()
        invariant
            j <= text.len(),
            r@ == prefix + text@.take(j as int),
        decreases text.len() - j,
    {
        r.push(text[j]);
        assert(prefix + text@.take(j as int).push(text@[j as int]) =~= prefix + text@.take(j + 1));
        j = j + 1;
    }
    assert(text@.take(text.len() as int) =~= text@);
    proof {
        if text.len() >= width {
            assert(prefix =~= Seq::<char>::empty());
            assert(r@ =~= text@);
        }
    }
    r
}

/// Parses a non-negative decimal number the way `str::parse::<usize>` does:
/// an optional leading `+`, then one or more ASCII digits, with no overflow.
pub open spec fn parse_nat_spec(s: Seq<char>) -> Option<nat> {
    let digits = unsigned_digits(s);
    if digits.len() > 0 && forall|i: int| 0 <= i < digits.len() ==> is_digit(#[trigger] digits[i]) {
        Some(digits_value(digits))
    } else {
        None
    }
}

/// The text after an optional leading `+`.
pub open spec fn unsigned_digits(s: Seq<char>) -> Seq<char> {
    if s.len() > 0 && s[0] == '+' {
        s.drop_first()
    } else {
        s
    }
}

/// Whether a character is an ASCII digit.
pub open spec fn is_digit(c: char) -> bool {
    '0' <= c <= '9'
}

/// The value of a sequence of ASCII digits.
pub open spec fn digits_value(s: Seq<char>) -> nat
    decreases s.len(),
{
    if s.len() == 0 {
        0
    } else {
        digits_value(s.drop_last()) * 10 + ((s.last() as u32) - ('0' as u32)) as nat
    }
}

/// Parses a `usize` written in decimal; `None` when the text is not a number
/// or does not fit.
pub fn parse_usize(s: &[char]) -> (r: Option<usize>)
    ensures
        r is Some <==> (parse_nat_spec(s@) is Some && parse_nat_spec(s@)->0 <= usize::MAX),
        r matches Some(v) ==> v as nat == parse_nat_spec(s@)->0,
{
    let start: usize = if s.len() > 0 && s[0] == '+' {
        1
    } else {
        0
    };
    let ghost digits = unsigned_digits(s@);
    assert(digits =~= s@.skip(start as int));
    if start >= s.len() {
        return None;
    }
    let mut value: usize = 0;
    let mut overflow = false;
    let mut i = start;
    while i < s.len()
        invariant
            start <= i <= s.len(),
            digits == unsigned_digits(s@),
            digits =~= s@.skip(start as int),
            forall|k: int| start <= k < i ==> is_digit(#[trigger] s@[k]),
            !overflow ==> value as nat == digits_value(s@.subrange(start as int, i as int)),
            overflow ==> digits_value(s@.subrange(start as int, i as int)) > usize::MAX,
        decreases s.len() - i,
    {
        let c = s[i];
        if !('0' <= c && c <= '9') {
            assert(!is_digit(digits[i - start]));
            assert(!(forall|k: int| 0 <= k < digits.len() ==> is_digit(#[trigger] digits[k])));
            return None;
        }
        let d = (c as u32 - '0' as u32) as usize;
        let ghost prev = s@.subrange(start as int, i as int);
        let ghost next = s@.subrange(start as int, i + 1);
        assert(next.drop_last() =~= prev);
        assert(next.last() == c);
        proof {
            if overflow {
                assert(digits_value(next) >= digits_value(prev)) by (nonlinear_arith)
                    requires
                        digits_value(next) == digits_value(prev) * 10 + d,
                ;
            }
        }
        if !overflow {
            if value > (usize::MAX - d) / 10 {
                overflow = true;
                assert(digits_value(next) > usize::MAX) by (nonlinear_arith)
                    requires
                        digits_value(next) == value * 10 + d,
                        value > (usize::MAX - d) / 10,
                        d < 10,
                ;
            } else {
                assert(value * 10 + d <= usize::MAX) by (nonlinear_arith)
                    requires
                        value <= (usize::MAX - d) / 10,
                        d < 10,
                ;
                value = value * 10 + d;
            }
        }
        i = i + 1;
    }
    assert(s@.subrange(start as int, s.len() as int) =~= digits);
    if overflow {
        None
    } else {
        Some(value)
    }
}

} // verus!

verus! {

/// The lowercase form of a text as std's `str::to_lowercase` computes it
/// (Unicode's `Lowercase` mapping).
pub uninterp spec fn lowercase(s: Seq<char>) -> Seq<char>;

/// std's `str::to_lowercase`.
#[verifier::external_body]
pub(crate) fn to_lowercase(s: &str) -> (r: String)
    ensures
        r@ == lowercase(s@),
{
    s.to_lowercase()
}

/// `s` with every character `from` replaced by `to`.
pub open spec fn replace_char(s: Seq<char>, from: char, to: char) -> Seq<char> {
    s.map_values(|c: char| if c == from { to } else { c })
}

/// Replaces every character `from` by `to` (`str::replace` with single characters).
pub fn replace_chars(s: &[char], from: char, to: char) -> (r: Vec<char>)
    ensures
        r@ == replace_char(s@, from, to),
{
    let mut r: Vec<char> = Vec::new();
    let mut i: usize = 0;
    while i < s.len()
        invariant
            i <= s.len(),
            r@ == replace_char(s@.take(i as int), from, to),
        decreases s.len() - i,
    {
        r.push(if s[i] == from { to } else { s[i] });
        assert(r@ =~= replace_char(s@.take(i + 1), from, to));
        i = i + 1;
    }
    assert(s@.take(s.len() as int) =~= s@);
    r
}

} // verus!

verus! {

/// The number of bytes of `c` in UTF-8.
pub open spec fn utf8_width(c: char) -> nat {
    let u = c as u32;
    if u < 0x80 {
        1
    } else if u < 0x800 {
        2
    } else if u < 0x10000 {
        3
    } else {
        4
    }
}

/// The number of bytes of `s` in UTF-8 (`str::len`).
pub open spec fn utf8_len(s: Seq<char>) -> nat
    decreases s.len(),
{
    if s.len() == 0 {
        0
    } else {
        utf8_len(s.drop_last()) + utf8_width(s.last())
    }
}

/// The number of bytes of `c` in UTF-8 (executable).
pub fn char_width(c: char) -> (r: usize)
    ensures
        r as nat == utf8_width(c),
{
    let u = c as u32;
    if u < 0x80 {
        1
    } else if u < 0x800 {
        2
    } else if u < 0x10000 {
        3
    } else {
        4
    }
}

/// The UTF-8 length of `s`, saturated at `usize::MAX`.
pub fn utf8_length(s: &[char]) -> (r: usize)
    ensures
        r as nat == if utf8_len(s@) <= usize::MAX {
            utf8_len(s@)
        } else {
            usize::MAX as nat
        },
{
    let mut total: usize = 0;
    let mut over = false;
    let mut i: usize = 0;
    while i < s.len()
        invariant
            i <= s.len(),
            !over ==> total as nat == utf8_len(s@.take(i as int)),
            over ==> total == usize::MAX && utf8_len(s@.take(i as int)) > usize::MAX,
        decreases s.len() - i,
    {
        let w = char_width(s[i]);
        assert(s@.take(i + 1).drop_last() =~= s@.take(i as int));
        if !over {
            if total > usize::MAX - w {
                over = true;
                total = usize::MAX;
            } else {
                total = total + w;
            }
        }
        i = i + 1;
    }
    assert(s@.take(s.len() as int) =~= s@);
    total
}

/// The number of positions at or after `i` where a non-empty `needle`
/// starts in `hay`; overlapping occurrences each count.
pub open spec fn count_from(hay: Seq<char>, needle: Seq<char>, i: int) -> nat
    decreases hay.len() - i,
{
    if needle.len() == 0 || i < 0 || i + needle.len() > hay.len() {
        0
    } else if occurs_at(hay, needle, i) {
        1 + count_from(hay, needle, i + 1)
    } else {
        count_from(hay, needle, i + 1)
    }
}

/// The first position at or after `i` where a non-empty `needle` occurs, or
/// `-1`.
pub open spec fn first_from(hay: Seq<char>, needle: Seq<char>, i: int) -> int
    decreases hay.len() - i,
{
    if needle.len() == 0 || i < 0 || i + needle.len() > hay.len() {
        -1
    } else if occurs_at(hay, needle, i) {
        i
    } else {
        first_from(hay, needle, i + 1)
    }
}

pub proof fn lemma_first_from(hay: Seq<char>, needle: Seq<char>, i: int)
    requires
        0 <= i,
    ensures
        first_from(hay, needle, i) == -1 || (i <= first_from(hay, needle, i) && occurs_at(
            hay,
            needle,
            first_from(hay, needle, i),
        )),
        count_from(hay, needle, i) > 0 <==> first_from(hay, needle, i) >= 0,
        first_from(hay, needle, i) >= 0 ==> count_from(hay, needle, i) == 1 + count_from(
            hay,
            needle,
            first_from(hay, needle, i) + 1,
        ),
    decreases hay.len() - i,
{
    if needle.len() > 0 && i + needle.len() <= hay.len() && !occurs_at(hay, needle, i) {
        lemma_first_from(hay, needle, i + 1);
    }
}

/// The number of positions where `needle` starts in `hay`, overlapping
/// occurrences included.
pub fn count_occurrences(hay: &[char], needle: &[char]) -> (r: usize)
    requires
        needle@.len() > 0,
    ensures
        r as nat == count_from(hay@, needle@, 0),
{
    let mut count: usize = 0;
    let mut i: usize = 0;
    while i < hay.len() && needle.len() <= hay.len() - i
        invariant
            i <= hay.len(),
            needle@.len() > 0,
            count as nat + count_from(hay@, needle@, i as int) == count_from(hay@, needle@, 0),
            count <= i,
        decreases hay.len() - i,
    {
        if matches_at(hay, needle, i) {
            count = count + 1;
        }
        i = i + 1;
    }
    count
}

/// The position of the first occurrence of a non-empty `needle`, if any.
pub fn find_first(hay: &[char], needle: &[char]) -> (r: Option<usize>)
    requires
        needle@.len() > 0,
    ensures
        match r {
            Some(p) => p as int == first_from(hay@, needle@, 0),
            None => first_from(hay@, needle@, 0) == -1,
        },
{
    let mut i: usize = 0;
    while i < hay.len() && needle.len() <= hay.len() - i
        invariant
            i <= hay.len(),
            needle@.len() > 0,
            first_from(hay@, needle@, 0) == first_from(hay@, needle@, i as int),
        decreases hay.len() - i,
    {
        if matches_at(hay, needle, i) {
            return Some(i);
        }
        i = i + 1;
    }
    None
}

} // verus!
