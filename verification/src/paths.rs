//! File-system paths as text: joining a file name to a directory, resolving
//! a tool's path argument against the workspace, and the form in which a path
//! is shown to the user. `resolve` and `join_path` follow the rules of
//! Unix-like systems, as std's `Path` applies them there: `/` separates
//! components and a path that starts with `/` is absolute. They do not
//! know Windows drive prefixes or `\` separators; `resolve_on` takes what the
//! platform's `Path` says of the input and the platform's separator, and so
//! resolves as the platform does.

use vstd::prelude::*;

use crate::text::{chars_of, has_prefix, push_str, starts_with_chars, string_of};

verus! {

/// Whether a path is absolute.
pub open spec fn is_absolute_spec(p: Seq<char>) -> bool {
    p.len() > 0 && p[0] == '/'
}

/// `rest` adjoined to `base`: an absolute `rest` replaces `base`; otherwise a
/// separator is put between them unless `base` is empty or already ends with
/// one.
pub open spec fn join_spec(base: Seq<char>, rest: Seq<char>) -> Seq<char> {
    if is_absolute_spec(rest) || base.len() == 0 {
        rest
    } else if base.last() == '/' {
        base + rest
    } else {
        base + seq!['/'] + rest
    }
}

/// Whether a path is absolute (executable).
pub fn is_absolute(p: &str) -> (r: bool)
    ensures
        r == is_absolute_spec(p@),
{
    let c = chars_of(p);
    c.len() > 0 && c[0] == '/'
}

/// `rest` adjoined to `base`.
pub fn join_path(base: &str, rest: &str) -> (r: String)
    ensures
        r@ == join_spec(base@, rest@),
{
    let b = chars_of(base);
    if is_absolute(rest) || b.len() == 0 {
        return string_of(&chars_of(rest));
    }
    let mut out = string_of(&b);
    if b[b.len() - 1] != '/' {
        crate::text::push_char(&mut out, '/');
    }
    push_str(&mut out, rest);
    out
}

/// A tool's path argument, read from the workspace when it is relative.
pub fn resolve(workspace: &str, input: &str) -> (r: String)
    ensures
        r@ == (if is_absolute_spec(input@) {
            input@
        } else {
            join_spec(workspace@, input@)
        }),
{
    if is_absolute(input) {
        string_of(&chars_of(input))
    } else {
        join_path(workspace, input)
    }
}

/// `rest` put after `base` with `sep` between them, unless `base` is empty or
/// already ends with `/` or `sep`.
pub open spec fn join_sep_spec(base: Seq<char>, rest: Seq<char>, sep: char) -> Seq<char> {
    if base.len() == 0 {
        rest
    } else if base.last() == '/' || base.last() == sep {
        base + rest
    } else {
        base + seq![sep] + rest
    }
}

/// A tool's path argument resolved against the workspace on the platform at
/// hand: `input_is_absolute` is what std's `Path::is_absolute` says of
/// `input` there, and `separator` is the platform's main separator. An
/// absolute input is kept; a relative one is put after the workspace as
/// `Path::join` does. (A Windows input that has a root but no drive, such as
/// `\x`, is joined here, where `Path::join` would keep only the workspace's
/// drive.)
pub fn resolve_on(workspace: &str, input: &str, input_is_absolute: bool, separator: char) -> (r:
    String)
    ensures
        r@ == (if input_is_absolute {
            input@
        } else {
            join_sep_spec(workspace@, input@, separator)
        }),
{
    let inp = chars_of(input);
    if input_is_absolute {
        return string_of(&inp);
    }
    let b = chars_of(workspace);
    if b.len() == 0 {
        return string_of(&inp);
    }
    let mut out = string_of(&b);
    let last = b[b.len() - 1];
    if last != '/' && last != separator {
        crate::text::push_char(&mut out, separator);
    }
    push_str(&mut out, input);
    out
}

/// The prefix that marks an extended-length Windows path.
pub open spec fn verbatim_prefix() -> Seq<char> {
    seq!['\\', '\\', '?', '\\']
}

/// A path as shown to the user: without the extended-length prefix.
pub open spec fn friendly_spec(p: Seq<char>) -> Seq<char> {
    if has_prefix(p, verbatim_prefix()) {
        p.skip(4)
    } else {
        p
    }
}

/// A path as shown to the user.
pub fn friendly_path(path: &str) -> (r: String)
    ensures
        r@ == friendly_spec(path@),
{
    let c = chars_of(path);
    let mut prefix: Vec<char> = Vec::new();
    prefix.push('\\');
    prefix.push('\\');
    prefix.push('?');
    prefix.push('\\');
    assert(prefix@ =~= verbatim_prefix());
    if starts_with_chars(&c, &prefix) {
        string_of(&crate::text::slice_vec(&c, 4, c.len()))
    } else {
        string_of(&c)
    }
}

} // verus!
