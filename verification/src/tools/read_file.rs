//! `read_file`: paginated text reads with line numbers.

use vstd::prelude::*;

use crate::json::{field_text, json_quoted, member_texts, object_text, Json, JsonNumber, ObjectBuilder};
use crate::model::{is_failure, is_success_text, owned, ToolOutput};
use crate::text::{
    chars_of, decimal, decimal_chars, pad_left, pad_left_chars, push_chars, string_of, utf8_len,
    utf8_width, char_width,
};
use crate::tools::args::{
    args_problem, field_value, problem_message, read_fields, FieldSpec, FieldType, FieldValue,
};
use crate::tools::ToolEffect;

verus! {

/// The description offered to the model.
pub const DESCRIPTION: &'static str =
    "Read a text file with line numbers. Relative paths resolve from the workspace; absolute paths are allowed.";

/// The largest page text, in bytes.
pub const CONTENT_LIMIT: usize = 65536;

/// How many leading bytes are inspected for NUL when detecting binary files.
pub const BINARY_PROBE: usize = 8192;

/// Reads text files.
pub struct ReadFileTool;

/// The arguments of a read.
#[derive(Debug, Clone, PartialEq)]
pub struct ReadArgs {
    pub path: String,
    pub offset: usize,
    pub limit: usize,
}

/// The declared fields: `path` (required), `offset` (1 when absent), `limit`
/// (200 when absent).
pub open spec fn read_fields_spec() -> Seq<FieldSpec> {
    seq![
        FieldSpec { name: "path", ty: FieldType::Text, required: true },
        FieldSpec { name: "offset", ty: FieldType::Count, required: false },
        FieldSpec { name: "limit", ty: FieldType::Count, required: false },
    ]
}

fn fields() -> (r: Vec<FieldSpec>)
    ensures
        r@ == read_fields_spec(),
{
    let mut v = Vec::new();
    v.push(FieldSpec { name: "path", ty: FieldType::Text, required: true });
    v.push(FieldSpec { name: "offset", ty: FieldType::Count, required: false });
    v.push(FieldSpec { name: "limit", ty: FieldType::Count, required: false });
    assert(v@ =~= read_fields_spec());
    v
}

/// The offset that the arguments ask for (1 when absent).
pub open spec fn read_offset(args: Json) -> nat {
    match field_value(args, read_fields_spec(), 1) {
        Some(FieldValue::Count(n)) => n as nat,
        _ => 1,
    }
}

/// The limit that the arguments ask for (200 when absent).
pub open spec fn read_limit(args: Json) -> nat {
    match field_value(args, read_fields_spec(), 2) {
        Some(FieldValue::Count(n)) => n as nat,
        _ => 200,
    }
}

/// Whether the arguments are accepted: they must read, the offset must be
/// positive and the limit between 1 and 2000.
pub open spec fn read_validation(args: Json) -> Result<(), Seq<char>> {
    match args_problem(args, read_fields_spec()) {
        Some(p) => Err(problem_message(p, read_fields_spec())),
        None => if read_offset(args) == 0 {
            Err("offset is 1-based and must be positive"@)
        } else if read_limit(args) == 0 || read_limit(args) > 2000 {
            Err("limit must be between 1 and 2000"@)
        } else {
            Ok(())
        },
    }
}

/// The text that std's `String::from_utf8_lossy` makes of `bytes`: valid
/// UTF-8 decoded, each invalid sequence replaced by U+FFFD.
pub uninterp spec fn utf8_lossy(bytes: Seq<u8>) -> Seq<char>;

/// std's `String::from_utf8_lossy`.
#[verifier::external_body]
pub(crate) fn lossy_text(bytes: &[u8]) -> (r: String)
    ensures
        r@ == utf8_lossy(bytes@),
{
    String::from_utf8_lossy(bytes).into_owned()
}

/// Whether one of the first `n` bytes is NUL.
pub open spec fn has_nul(bytes: Seq<u8>, n: int) -> bool {
    exists|i: int| 0 <= i < n && i < bytes.len() && bytes[i] == 0
}

/// The index of the first `\n` at or after `i`, or the length of `s`.
pub open spec fn newline_from(s: Seq<char>, i: int) -> int
    decreases s.len() - i,
{
    if i < 0 || i >= s.len() {
        s.len() as int
    } else if s[i] == '\n' {
        i
    } else {
        newline_from(s, i + 1)
    }
}

pub proof fn lemma_newline_from(s: Seq<char>, i: int)
    requires
        0 <= i <= s.len(),
    ensures
        i <= newline_from(s, i) <= s.len(),
        newline_from(s, i) < s.len() ==> s[newline_from(s, i)] == '\n',
    decreases s.len() - i,
{
    if i < s.len() && s[i] != '\n' {
        lemma_newline_from(s, i + 1);
    }
}

/// The line that starts at `i` and ends before the newline at `e`: a `\r`
/// just before a newline belongs to the line ending.
pub open spec fn line_at(s: Seq<char>, i: int, e: int) -> Seq<char> {
    if e < s.len() && e > i && s[e - 1] == '\r' {
        s.subrange(i, e - 1)
    } else {
        s.subrange(i, e)
    }
}

/// The lines of `s[i..]` as `str::lines` yields them: split at `\n` (or
/// `\r\n`), with no empty line after a final newline.
pub open spec fn lines_from(s: Seq<char>, i: int) -> Seq<Seq<char>>
    decreases s.len() - i,
    when 0 <= i
{
    if i >= s.len() {
        Seq::empty()
    } else {
        let e = newline_from(s, i);
        proof {
            lemma_newline_from(s, i);
        }
        if e < s.len() {
            seq![line_at(s, i, e)] + lines_from(s, e + 1)
        } else {
            seq![line_at(s, i, e)]
        }
    }
}

/// The lines of `s`.
pub open spec fn lines_of(s: Seq<char>) -> Seq<Seq<char>> {
    lines_from(s, 0)
}

/// How many newline characters `s` holds.
pub open spec fn newline_count(s: Seq<char>) -> nat
    decreases s.len(),
{
    if s.len() == 0 {
        0
    } else {
        (if s[0] == '\n' {
            1nat
        } else {
            0nat
        }) + newline_count(s.skip(1))
    }
}

proof fn lemma_newline_count_concat(a: Seq<char>, b: Seq<char>)
    ensures
        newline_count(a + b) == newline_count(a) + newline_count(b),
    decreases a.len(),
{
    if a.len() == 0 {
        assert(a + b =~= b);
    } else {
        lemma_newline_count_concat(a.skip(1), b);
        assert((a + b).skip(1) =~= a.skip(1) + b);
        assert((a + b)[0] == a[0]);
    }
}

proof fn lemma_newline_count_none(a: Seq<char>)
    requires
        forall|k: int| 0 <= k < a.len() ==> a[k] != '\n',
    ensures
        newline_count(a) == 0,
    decreases a.len(),
{
    if a.len() > 0 {
        lemma_newline_count_none(a.skip(1));
    }
}

proof fn lemma_no_newline_before(s: Seq<char>, i: int)
    requires
        0 <= i <= s.len(),
    ensures
        forall|k: int| i <= k < newline_from(s, i) ==> s[k] != '\n',
    decreases s.len() - i,
{
    if i < s.len() && s[i] != '\n' {
        lemma_no_newline_before(s, i + 1);
    }
}

proof fn lemma_join_front(x: Seq<char>, rest: Seq<Seq<char>>, sep: Seq<char>)
    ensures
        crate::repl::join_with(seq![x] + rest, sep) == if rest.len() == 0 {
            x
        } else {
            x + sep + crate::repl::join_with(rest, sep)
        },
    decreases rest.len(),
{
    if rest.len() == 0 {
        assert(seq![x] + rest =~= seq![x]);
    } else if rest.len() == 1 {
        let all = seq![x] + rest;
        assert(all.drop_last() =~= seq![x]);
        assert(all.last() == rest[0]);
        assert(crate::repl::join_with(seq![x], sep) == x);
        assert(crate::repl::join_with(rest, sep) == rest[0]);
    } else {
        let all = seq![x] + rest;
        lemma_join_front(x, rest.drop_last(), sep);
        assert(all.drop_last() =~= seq![x] + rest.drop_last());
        assert(all.last() == rest.last());
        let j = crate::repl::join_with(rest.drop_last(), sep);
        assert(crate::repl::join_with(all, sep) == x + sep + j + sep + rest.last());
        assert(crate::repl::join_with(rest, sep) == j + sep + rest.last());
        assert(x + sep + j + sep + rest.last() =~= x + sep + (j + sep + rest.last()));
    }
}

proof fn lemma_lines_from(s: Seq<char>, i: int)
    requires
        0 <= i <= s.len(),
    ensures
        lines_from(s, i).len() == newline_count(s.subrange(i, s.len() as int)) + (if i < s.len()
            && s.last() != '\n' {
            1nat
        } else {
            0nat
        }),
        forall|k: int|
            0 <= k < lines_from(s, i).len() ==> !(#[trigger] lines_from(s, i)[k]).contains('\n'),
        (forall|k: int| 0 <= k < s.len() ==> s[k] != '\r') ==> crate::repl::join_with(
            lines_from(s, i),
            seq!['\n'],
        ) == if i < s.len() && s.last() == '\n' {
            s.subrange(i, s.len() - 1)
        } else {
            s.subrange(i, s.len() as int)
        },
    decreases s.len() - i,
{
    if i >= s.len() {
        assert(s.subrange(i, s.len() as int) =~= Seq::<char>::empty());
    } else {
        let e = newline_from(s, i);
        lemma_newline_from(s, i);
        lemma_no_newline_before(s, i);
        let line = line_at(s, i, e);
        assert(s.subrange(i, e) =~= s.subrange(i, s.len() as int).take(e - i));
        lemma_newline_count_none(s.subrange(i, e));
        assert(!line.contains('\n')) by {
            if line.contains('\n') {
                let k = choose|k: int| 0 <= k < line.len() && line[k] == '\n';
                assert(s[i + k] == '\n');
            }
        }
        if e < s.len() {
            lemma_lines_from(s, e + 1);
            let rest = lines_from(s, e + 1);
            assert(lines_from(s, i) == seq![line] + rest);
            assert(s.subrange(i, s.len() as int) =~= s.subrange(i, e) + (seq!['\n'] + s.subrange(
                e + 1,
                s.len() as int,
            )));
            lemma_newline_count_concat(s.subrange(i, e), seq!['\n'] + s.subrange(e + 1, s.len() as int));
            lemma_newline_count_concat(seq!['\n'], s.subrange(e + 1, s.len() as int));
            assert(newline_count(seq!['\n']) == 1) by {
                assert(seq!['\n'].skip(1) =~= Seq::<char>::empty());
                assert(newline_count(Seq::<char>::empty()) == 0);
            }
            assert forall|k: int| 0 <= k < lines_from(s, i).len() implies !(#[trigger] lines_from(
                s,
                i,
            )[k]).contains('\n') by {
                if k > 0 {
                    assert(lines_from(s, i)[k] == rest[k - 1]);
                }
            }
            if forall|k: int| 0 <= k < s.len() ==> s[k] != '\r' {
                lemma_join_front(line, rest, seq!['\n']);
                assert(line == s.subrange(i, e));
                if e + 1 == s.len() {
                    assert(rest =~= Seq::<Seq<char>>::empty());
                } else {
                    assert(rest.len() > 0);
                    let tail = if s.last() == '\n' {
                        s.subrange(e + 1, s.len() - 1)
                    } else {
                        s.subrange(e + 1, s.len() as int)
                    };
                    if s.last() == '\n' {
                        assert(s.subrange(i, s.len() - 1) =~= s.subrange(i, e) + seq!['\n'] + tail);
                    } else {
                        assert(s.subrange(i, s.len() as int) =~= s.subrange(i, e) + seq!['\n'] + tail);
                    }
                }
            }
        } else {
            assert(lines_from(s, i) == seq![line]);
            assert(s.subrange(i, e) =~= s.subrange(i, s.len() as int));
            assert(s.last() != '\n') by {
                assert(s[s.len() - 1] != '\n');
            }
            if forall|k: int| 0 <= k < s.len() ==> s[k] != '\r' {
                assert(line == s.subrange(i, e));
            }
        }
    }
}

/// The lines of a text are exactly its newline-separated pieces, empty
/// ones included: there are as many as the text has newlines, plus one when
/// the text is not empty and does not end with a newline; no line holds a
/// newline; and, for a text without carriage returns, joining the lines with
/// newlines gives the text back without its final newline.
pub proof fn law_lines_are_the_newline_separated_pieces(s: Seq<char>)
    ensures
        lines_of(s).len() == newline_count(s) + (if s.len() > 0 && s.last() != '\n' {
            1nat
        } else {
            0nat
        }),
        forall|k: int| 0 <= k < lines_of(s).len() ==> !(#[trigger] lines_of(s)[k]).contains('\n'),
        (forall|k: int| 0 <= k < s.len() ==> s[k] != '\r') ==> crate::repl::join_with(
            lines_of(s),
            seq!['\n'],
        ) == if s.len() > 0 && s.last() == '\n' {
            s.drop_last()
        } else {
            s
        },
{
    lemma_lines_from(s, 0);
    assert(s.subrange(0, s.len() as int) =~= s);
    if s.len() > 0 {
        assert(s.subrange(0, s.len() - 1) =~= s.drop_last());
    }
}

/// One numbered line: the 1-based number right-aligned in six columns,
/// ` | `, then the line.
pub open spec fn numbered_line(number: nat, line: Seq<char>) -> Seq<char> {
    pad_left(decimal(number), 6) + " | "@ + line
}

/// The numbered lines `lines[start..end]`, joined by newlines.
pub open spec fn page_text(lines: Seq<Seq<char>>, start: int, end: int) -> Seq<char>
    decreases end - start,
{
    if end <= start {
        Seq::empty()
    } else if end == start + 1 {
        numbered_line((start + 1) as nat, lines[start])
    } else {
        page_text(lines, start, end - 1) + seq!['\n'] + numbered_line(end as nat, lines[end - 1])
    }
}

/// The longest prefix of `s` whose UTF-8 length is at most `limit` bytes.
pub open spec fn byte_prefix_len(s: Seq<char>, limit: nat, n: int) -> int
    decreases n,
{
    if n <= 0 {
        0
    } else if utf8_len(s.take(n)) <= limit {
        n
    } else {
        byte_prefix_len(s, limit, n - 1)
    }
}

/// The first line of a page (0-based).
pub open spec fn page_start(offset: nat, total: nat) -> nat {
    let o = if offset > 0 {
        (offset - 1) as nat
    } else {
        0
    };
    if o < total {
        o
    } else {
        total
    }
}

/// The end of a page (exclusive).
pub open spec fn page_end(start: nat, limit: nat, total: nat) -> nat {
    if start + limit < total {
        start + limit
    } else {
        total
    }
}

/// The text of the data reported for a page of `text` read from `path`.
pub open spec fn page_data_text(path: Seq<char>, text: Seq<char>, offset: nat, limit: nat) -> Seq<char> {
    let lines = lines_of(text);
    let total = lines.len();
    let start = page_start(offset, total);
    let end = page_end(start, limit, total);
    let full = page_text(lines, start as int, end as int);
    let truncated = utf8_len(full) > CONTENT_LIMIT;
    let content = if truncated {
        full.take(byte_prefix_len(full, CONTENT_LIMIT as nat, full.len() as int))
    } else {
        full
    };
    object_text(
        seq![
            field_text("content"@, json_quoted(content)),
            field_text(
                "next_offset"@,
                if end < total {
                    decimal(end + 1)
                } else {
                    "null"@
                },
            ),
            field_text("path"@, json_quoted(path)),
            field_text("total_lines"@, decimal(total)),
            field_text("truncated"@, crate::model::bool_text(truncated)),
        ],
    )
}

/// The lines of `s` (executable).
pub fn split_lines(s: &[char]) -> (r: Vec<Vec<char>>)
    ensures
        crate::text::views(r@) == lines_of(s@),
{
    let mut r: Vec<Vec<char>> = Vec::new();
    let mut i: usize = 0;
    while i < s.len()
        invariant
            i <= s.len(),
            lines_of(s@) == crate::text::views(r@) + lines_from(s@, i as int),
        decreases s.len() - i,
    {
        let mut e = i;
        while e < s.len() && s[e] != '\n'
            invariant
                i <= e <= s.len(),
                newline_from(s@, i as int) == newline_from(s@, e as int),
            decreases s.len() - e,
        {
            e = e + 1;
        }
        let line = if e < s.len() && e > i && s[e - 1] == '\r' {
            slice_vec_at(s, i, e - 1)
        } else {
            slice_vec_at(s, i, e)
        };
        let ghost before = r@;
        r.push(line);
        assert(crate::text::views(r@) =~= crate::text::views(before) + seq![
            line_at(s@, i as int, e as int),
        ]);
        if e < s.len() {
            assert(lines_from(s@, i as int) == seq![line_at(s@, i as int, e as int)] + lines_from(
                s@,
                e + 1,
            ));
            assert(crate::text::views(before) + (seq![line_at(s@, i as int, e as int)]
                + lines_from(s@, e + 1)) =~= crate::text::views(r@) + lines_from(s@, e + 1));
            i = e + 1;
        } else {
            assert(lines_from(s@, i as int) == seq![line_at(s@, i as int, e as int)]);
            assert(lines_from(s@, s.len() as int) =~= Seq::<Seq<char>>::empty());
            assert(crate::text::views(r@) =~= crate::text::views(before) + seq![
                line_at(s@, i as int, e as int),
            ]);
            i = s.len();
        }
    }
    assert(lines_from(s@, i as int) =~= Seq::<Seq<char>>::empty());
    assert(crate::text::views(r@) + Seq::<Seq<char>>::empty() =~= crate::text::views(r@));
    r
}

fn slice_vec_at(s: &[char], from: usize, to: usize) -> (r: Vec<char>)
    requires
        from <= to <= s.len(),
    ensures
        r@ == s@.subrange(from as int, to as int),
{
    crate::text::slice_vec(s, from, to)
}

/// Whether one of the first `n` bytes is NUL (executable).
pub fn probe_nul(bytes: &[u8], n: usize) -> (r: bool)
    ensures
        r == has_nul(bytes@, n as int),
{
    let mut i: usize = 0;
    while i < n && i < bytes.len()
        invariant
            i <= bytes.len(),
            forall|k: int| 0 <= k < i ==> bytes@[k] != 0,
            i <= n,
        decreases bytes.len() - i,
    {
        if bytes[i] == 0 {
            return true;
        }
        i = i + 1;
    }
    false
}

/// The numbered lines `lines[start..end]`, joined by newlines (executable).
fn render_page(lines: &Vec<Vec<char>>, start: usize, end: usize) -> (r: Vec<char>)
    requires
        start <= end <= lines.len(),
    ensures
        r@ == page_text(crate::text::views(lines@), start as int, end as int),
{
    let ghost ls = crate::text::views(lines@);
    let mut out: Vec<char> = Vec::new();
    let mut k = start;
    while k < end
        invariant
            start <= k <= end <= lines.len(),
            ls == crate::text::views(lines@),
            out@ == page_text(ls, start as int, k as int),
        decreases end - k,
    {
        let ghost before = out@;
        if k > start {
            out.push('\n');
        }
        let num = decimal_chars((k + 1) as u64);
        let padded = pad_left_chars(&num, 6);
        let mut j: usize = 0;
        while j < padded.len()
            invariant
                j <= padded.len(),
                out@ == (if k > start {
                    before.push('\n')
                } else {
                    before
                }) + padded@.take(j as int),
            decreases padded.len() - j,
        {
            out.push(padded[j]);
            assert(padded@.take(j + 1) =~= padded@.take(j as int).push(padded@[j as int]));
            j = j + 1;
        }
        assert(padded@.take(padded.len() as int) =~= padded@);
        out.push(' ');
        out.push('|');
        out.push(' ');
        let line = &lines[k];
        let mut m: usize = 0;
        let ghost mid = out@;
        while m < line.len()
            invariant
                m <= line.len(),
                out@ == mid + line@.take(m as int),
            decreases line.len() - m,
        {
            out.push(line[m]);
            assert(line@.take(m + 1) =~= line@.take(m as int).push(line@[m as int]));
            m = m + 1;
        }
        assert(line@.take(line.len() as int) =~= line@);
        proof {
            reveal_strlit(" | ");
            assert(ls[k as int] == line@);
            assert(numbered_line((k + 1) as nat, ls[k as int]) =~= padded@ + " | "@ + line@);
            if k > start {
                assert(out@ =~= page_text(ls, start as int, k as int) + seq!['\n'] + numbered_line(
                    (k + 1) as nat,
                    ls[k as int],
                ));
            } else {
                assert(out@ =~= numbered_line((k + 1) as nat, ls[k as int]));
            }
        }
        k = k + 1;
    }
    out
}

/// The longest prefix of `s` of at most `limit` bytes (executable).
fn byte_prefix(s: &[char], limit: usize) -> (r: usize)
    ensures
        r as int == byte_prefix_len(s@, limit as nat, s@.len() as int),
        r <= s.len(),
{
    let mut n: usize = 0;
    let mut used: usize = 0;
    let mut full = false;
    while n < s.len() && !full
        invariant
            n <= s.len(),
            used as nat == utf8_len(s@.take(n as int)),
            used <= limit,
            full ==> n < s.len() && utf8_len(s@.take(n + 1)) > limit,
        decreases s.len() - n + (if full { 0int } else { 1int }),
    {
        let w = char_width(s[n]);
        assert(s@.take(n + 1).drop_last() =~= s@.take(n as int));
        assert(s@.take(n + 1).last() == s@[n as int]);
        if w > limit - used {
            full = true;
        } else {
            used = used + w;
            n = n + 1;
        }
    }
    proof {
        lemma_byte_prefix(s@, limit as nat, n as int);
    }
    n
}

/// UTF-8 length only grows along prefixes.
pub proof fn lemma_utf8_len_prefix(s: Seq<char>, a: int, b: int)
    requires
        0 <= a <= b <= s.len(),
    ensures
        utf8_len(s.take(a)) <= utf8_len(s.take(b)),
    decreases b - a,
{
    if a < b {
        lemma_utf8_len_prefix(s, a, b - 1);
        assert(s.take(b).drop_last() =~= s.take(b - 1));
    }
}

proof fn lemma_byte_prefix(s: Seq<char>, limit: nat, n: int)
    requires
        0 <= n <= s.len(),
        utf8_len(s.take(n)) <= limit,
        n < s.len() ==> utf8_len(s.take(n + 1)) > limit,
    ensures
        byte_prefix_len(s, limit, s.len() as int) == n,
{
    assert forall|m: int| n < m <= s.len() implies byte_prefix_len(s, limit, m) == n by {
        lemma_byte_prefix_above(s, limit, n, m);
    }
    if n == s.len() {
    }
}

proof fn lemma_byte_prefix_above(s: Seq<char>, limit: nat, n: int, m: int)
    requires
        0 <= n <= m <= s.len(),
        utf8_len(s.take(n)) <= limit,
        n < s.len() ==> utf8_len(s.take(n + 1)) > limit,
    ensures
        byte_prefix_len(s, limit, m) == n,
    decreases m - n,
{
    if m > n {
        lemma_utf8_len_prefix(s, n + 1, m);
        lemma_byte_prefix_above(s, limit, n, m - 1);
    }
}

impl ReadFileTool {
    /// Reads the arguments (without the range checks).
    pub fn parse(&self, args: &Json) -> (r: Result<ReadArgs, String>)
        ensures
            match r {
                Ok(a) => args_problem(*args, read_fields_spec()) is None && field_value(
                    *args,
                    read_fields_spec(),
                    0,
                ) == Some(FieldValue::Text(a.path)) && a.offset as nat == read_offset(*args)
                    && a.limit as nat == read_limit(*args),
                Err(e) => args_problem(*args, read_fields_spec()) matches Some(p) && e@
                    == problem_message(p, read_fields_spec()),
            },
    {
        let specs = fields();
        let values = match read_fields(args, &specs) {
            Ok(v) => v,
            Err(e) => {
                return Err(e);
            },
        };
        proof {
            crate::tools::args::lemma_required_present(*args, read_fields_spec(), 0);
        }
        assert(values@[0] == field_value(*args, read_fields_spec(), 0));
        assert(values@[1] == field_value(*args, read_fields_spec(), 1));
        assert(values@[2] == field_value(*args, read_fields_spec(), 2));
        let offset = match &values[1] {
            Some(FieldValue::Count(n)) => *n,
            _ => 1,
        };
        let limit = match &values[2] {
            Some(FieldValue::Count(n)) => *n,
            _ => 200,
        };
        match &values[0] {
            Some(FieldValue::Text(path)) => Ok(ReadArgs { path: path.clone(), offset, limit }),
            _ => Err(owned("missing field `path`")),
        }
    }

    /// Checks the arguments.
    pub fn validate(&self, args: &Json) -> (r: Result<(), String>)
        ensures
            match r {
                Ok(()) => read_validation(*args) is Ok,
                Err(e) => read_validation(*args) == Err::<(), Seq<char>>(e@),
            },
    {
        let a = match self.parse(args) {
            Ok(a) => a,
            Err(e) => {
                return Err(e);
            },
        };
        if a.offset == 0 {
            return Err(owned("offset is 1-based and must be positive"));
        }
        if a.limit == 0 || a.limit > 2000 {
            return Err(owned("limit must be between 1 and 2000"));
        }
        Ok(())
    }

    /// Reads only observe.
    pub fn effect(&self, _args: &Json) -> (r: ToolEffect)
        ensures
            r == ToolEffect::ReadOnly,
    {
        ToolEffect::ReadOnly
    }

    /// The result of reading `bytes` from `path`: `binary_file` when one of
    /// the first 8192 bytes is NUL; otherwise the page of numbered lines
    /// `offset..offset+limit` of the decoded text, cut to at most 65536 bytes.
    pub fn page(&self, path: &str, bytes: &[u8], offset: usize, limit: usize) -> (r: ToolOutput)
        ensures
            has_nul(bytes@, BINARY_PROBE as int) ==> is_failure(
                r,
                "binary_file"@,
                "binary files are not supported"@,
            ),
            !has_nul(bytes@, BINARY_PROBE as int) ==> is_success_text(
                r,
                page_data_text(path@, utf8_lossy(bytes@), offset as nat, limit as nat),
            ),
    {
        if probe_nul(bytes, BINARY_PROBE) {
            return ToolOutput::failure("binary_file", "binary files are not supported");
        }
        let text = lossy_text(bytes);
        self.page_of_text(path, text.as_str(), offset, limit)
    }

    /// The page of numbered lines `offset..offset+limit` of a decoded text
    /// read from `path`, cut to at most 65536 bytes.
    pub fn page_of_text(&self, path: &str, text: &str, offset: usize, limit: usize) -> (r: ToolOutput)
        ensures
            is_success_text(r, page_data_text(path@, text@, offset as nat, limit as nat)),
    {
        let chars = chars_of(text);
        let lines = split_lines(&chars);
        let ghost ls = crate::text::views(lines@);
        assert(ls.len() == lines@.len());
        let total = lines.len();
        let o = if offset > 0 {
            offset - 1
        } else {
            0
        };
        let start = if o < total {
            o
        } else {
            total
        };
        let end = if limit < total - start {
            start + limit
        } else {
            total
        };
        let full = render_page(&lines, start, end);
        let full_len = crate::text::utf8_length(&full);
        let truncated = full_len > CONTENT_LIMIT;
        let content = if truncated {
            let n = byte_prefix(&full, CONTENT_LIMIT);
            crate::text::slice_vec(&full, 0, n)
        } else {
            full
        };
        assert(truncated == (utf8_len(page_text(ls, start as int, end as int)) > CONTENT_LIMIT));
        proof {
            if truncated {
                assert(content@ =~= page_text(ls, start as int, end as int).take(
                    byte_prefix_len(
                        page_text(ls, start as int, end as int),
                        CONTENT_LIMIT as nat,
                        page_text(ls, start as int, end as int).len() as int,
                    ),
                ));
            }
        }
        let mut b = ObjectBuilder::new();
        b.add("content", Json::Str(string_of(&content)));
        if end < total {
            b.add("next_offset", Json::Number(JsonNumber::PosInt((end + 1) as u64)));
        } else {
            b.add("next_offset", Json::Null);
        }
        b.add("path", Json::Str(owned(path)));
        b.add("total_lines", Json::Number(JsonNumber::PosInt(total as u64)));
        b.add("truncated", Json::Bool(truncated));
        let ghost be = b.entries();
        let d = b.finish();
        proof {
            reveal_strlit("null");
            assert(member_texts(be)[1] == field_text(
                "next_offset"@,
                if end < total {
                    decimal((end + 1) as nat)
                } else {
                    "null"@
                },
            ));
            assert(member_texts(be) =~= seq![
                field_text("content"@, json_quoted(content@)),
                field_text(
                    "next_offset"@,
                    if end < total {
                        decimal((end + 1) as nat)
                    } else {
                        "null"@
                    },
                ),
                field_text("path"@, json_quoted(path@)),
                field_text("total_lines"@, decimal(total as nat)),
                field_text("truncated"@, crate::model::bool_text(truncated)),
            ]);
        }
        ToolOutput::success(d)
    }
}

} // verus!
