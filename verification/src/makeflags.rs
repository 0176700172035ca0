//! The text by which a jobserver travels through the environment.
//!
//! A parent advertises its jobserver in `CARGO_MAKEFLAGS`, `MAKEFLAGS` or
//! `MFLAGS`, as one of the whitespace-separated words of the value:
//! `--jobserver-auth=ARG`, or the older `--jobserver-fds=ARG`.

use vstd::prelude::*;
use vstd::slice::slice_subrange;
use vstd::string::StringSliceAdditionalSpecFns;
use crate::bytes::push_all;
use crate::bytes::starts_with;

verus! {

/// Whether `b` is ASCII whitespace: space, tab, line feed, form feed or
/// carriage return.
pub open spec fn is_whitespace_spec(b: u8) -> bool {
    b == 32 || b == 9 || b == 10 || b == 12 || b == 13
}

/// Whether `b` is ASCII whitespace.
#[verifier::when_used_as_spec(is_whitespace_spec)]
pub fn is_whitespace(b: u8) -> (r: bool)
    ensures
        r == is_whitespace_spec(b),
{
    b == 32 || b == 9 || b == 10 || b == 12 || b == 13
}

/// Whether no byte of `s` is whitespace.
pub open spec fn no_whitespace(s: Seq<u8>) -> bool {
    forall|i: int| 0 <= i < s.len() ==> !is_whitespace_spec(#[trigger] s[i])
}

/// Whether a word starts at `i`: at the front of `s`, or right behind a
/// whitespace byte.  Two whitespace bytes in a row hold an empty word
/// between them, and a value that ends in whitespace ends in an empty word.
pub open spec fn word_starts_at(s: Seq<u8>, i: int) -> bool {
    0 <= i <= s.len() && (i == 0 || is_whitespace_spec(s[i - 1]))
}

/// Where the word that starts at `i` ends: at the next whitespace byte, or
/// at the end of `s`.
pub open spec fn word_end(s: Seq<u8>, i: int) -> int
    decreases s.len() - i,
{
    if 0 <= i < s.len() && !is_whitespace_spec(s[i]) {
        word_end(s, i + 1)
    } else {
        i
    }
}

/// The word that starts at `i`.
pub open spec fn word_at(s: Seq<u8>, i: int) -> Seq<u8> {
    s.subrange(i, word_end(s, i))
}

/// Whether the word that starts at `i` is `flag` followed by an argument.
pub open spec fn flag_at(s: Seq<u8>, flag: Seq<u8>, i: int) -> bool {
    word_starts_at(s, i) && flag.is_prefix_of(word_at(s, i))
}

/// The argument of the flag in the word that starts at `i`.
pub open spec fn flag_value_at(s: Seq<u8>, flag: Seq<u8>, i: int) -> Seq<u8> {
    word_at(s, i).skip(flag.len() as int)
}

/// The argument of the last `flag` among the words that start at or before
/// `k`.
pub open spec fn last_flag_upto(s: Seq<u8>, flag: Seq<u8>, k: int) -> Option<Seq<u8>>
    decreases k + 1,
{
    if k < 0 {
        None
    } else if flag_at(s, flag, k) {
        Some(flag_value_at(s, flag, k))
    } else {
        last_flag_upto(s, flag, k - 1)
    }
}

/// The argument of the last occurrence of `flag` among the words of `s`.
pub open spec fn last_flag_spec(s: Seq<u8>, flag: Seq<u8>) -> Option<Seq<u8>> {
    last_flag_upto(s, flag, s.len() as int)
}

/// What a borrowed result stands for in contracts.
pub open spec fn view_of(r: Option<&[u8]>) -> Option<Seq<u8>> {
    match r {
        Some(v) => Some(v@),
        None => None,
    }
}

/// A stretch without whitespace that ends at whitespace, or at the end of
/// the string, is the rest of a word.
pub proof fn lemma_word_end_is(s: Seq<u8>, i: int, end: int)
    requires
        0 <= i <= end <= s.len(),
        forall|k: int| i <= k < end ==> !is_whitespace_spec(#[trigger] s[k]),
        end < s.len() ==> is_whitespace_spec(s[end]),
    ensures
        word_end(s, i) == end,
    decreases end - i,
{
    if i < end {
        assert(!is_whitespace_spec(s[i]));
        lemma_word_end_is(s, i + 1, end);
    }
}

/// No word starts inside a stretch without whitespace, so the last flag up
/// to its end is the last flag up to its start.
pub proof fn lemma_last_flag_skips_word(s: Seq<u8>, flag: Seq<u8>, start: int, end: int)
    requires
        0 <= start <= end <= s.len(),
        forall|k: int| start <= k < end ==> !is_whitespace_spec(#[trigger] s[k]),
    ensures
        last_flag_upto(s, flag, end) == last_flag_upto(s, flag, start),
    decreases end - start,
{
    if start < end {
        assert(!is_whitespace_spec(s[end - 1]));
        assert(!word_starts_at(s, end));
        lemma_last_flag_skips_word(s, flag, start, end - 1);
    }
}

/// The argument of the last word of `value` that begins with `flag`.
pub fn last_flag<'a>(value: &'a [u8], flag: &[u8]) -> (r: Option<&'a [u8]>)
    ensures
        view_of(r) == last_flag_spec(value@, flag@),
{
    let len: usize = value.len();
    let flag_len: usize = flag.len();
    let mut found: Option<&'a [u8]> = None;
    let mut start: usize = 0;
    loop
        invariant_except_break
            start <= len,
            word_starts_at(value@, start as int),
            view_of(found) == last_flag_upto(value@, flag@, start - 1),
        invariant
            len == value@.len(),
            flag_len == flag@.len(),
        ensures
            view_of(found) == last_flag_upto(value@, flag@, len as int),
        decreases len - start,
    {
        let mut end: usize = start;
        while end < len && !is_whitespace(value[end])
            invariant
                start <= end <= len == value@.len(),
                forall|k: int| start <= k < end ==> !is_whitespace_spec(#[trigger] value@[k]),
            decreases len - end,
        {
            end = end + 1;
        }
        proof {
            lemma_word_end_is(value@, start as int, end as int);
            lemma_last_flag_skips_word(value@, flag@, start as int, end as int);
        }
        let word: &[u8] = slice_subrange(value, start, end);
        if starts_with(word, flag) {
            found = Some(slice_subrange(value, start + flag_len, end));
            assert(value@.subrange(start + flag_len, end as int) =~= flag_value_at(
                value@,
                flag@,
                start as int,
            ));
        }
        if end == len {
            break ;
        }
        start = end + 1;
    }
    found
}

/// The bytes of the flag `--jobserver-auth=`.
pub open spec fn auth_flag_spec() -> Seq<u8> {
    "--jobserver-auth=".spec_bytes()
}

/// The bytes of the older flag `--jobserver-fds=`.
pub open spec fn fds_flag_spec() -> Seq<u8> {
    "--jobserver-fds=".spec_bytes()
}

/// The jobserver that a value of `MAKEFLAGS` names: the argument of its last
/// `--jobserver-auth=`; only where it holds none, that of its last
/// `--jobserver-fds=`.
pub open spec fn jobserver_auth_spec(value: Seq<u8>) -> Option<Seq<u8>> {
    match last_flag_spec(value, auth_flag_spec()) {
        Some(arg) => Some(arg),
        None => last_flag_spec(value, fds_flag_spec()),
    }
}

/// The jobserver that a value of `MAKEFLAGS` names, if it names one.
pub fn jobserver_auth<'a>(value: &'a [u8]) -> (r: Option<&'a [u8]>)
    ensures
        view_of(r) == jobserver_auth_spec(value@),
{
    match last_flag(value, "--jobserver-auth=".as_bytes()) {
        Some(arg) => Some(arg),
        None => last_flag(value, "--jobserver-fds=".as_bytes()),
    }
}

/// The first of three optional values that is present.
pub open spec fn first_present(
    first: Option<Seq<u8>>,
    second: Option<Seq<u8>>,
    third: Option<Seq<u8>>,
) -> Option<Seq<u8>> {
    match first {
        Some(v) => Some(v),
        None => match second {
            Some(v) => Some(v),
            None => third,
        },
    }
}

/// The jobserver that an environment names.  Only the first variable that
/// is set is read, whether or not it names a jobserver.
pub open spec fn from_env_spec(
    cargo_makeflags: Option<Seq<u8>>,
    makeflags: Option<Seq<u8>>,
    mflags: Option<Seq<u8>>,
) -> Option<Seq<u8>> {
    match first_present(cargo_makeflags, makeflags, mflags) {
        Some(value) => jobserver_auth_spec(value),
        None => None,
    }
}

/// The jobserver that the environment of this process names, given the
/// values of `CARGO_MAKEFLAGS`, `MAKEFLAGS` and `MFLAGS` where they are
/// set.  The result is the text to attach by; it has not been looked at.
pub fn from_env<'a>(
    cargo_makeflags: Option<&'a [u8]>,
    makeflags: Option<&'a [u8]>,
    mflags: Option<&'a [u8]>,
) -> (r: Option<&'a [u8]>)
    ensures
        view_of(r) == from_env_spec(view_of(cargo_makeflags), view_of(makeflags), view_of(mflags)),
{
    let chosen: Option<&'a [u8]> = match cargo_makeflags {
        Some(v) => Some(v),
        None => match makeflags {
            Some(v) => Some(v),
            None => mflags,
        },
    };
    match chosen {
        Some(value) => jobserver_auth(value),
        None => None,
    }
}

/// The value that hands a jobserver to a child: both the older and the
/// current flag, each with the same argument, so that every version of
/// `make` finds one it knows.
pub open spec fn child_value_spec(arg: Seq<u8>) -> Seq<u8> {
    "-j --jobserver-fds=".spec_bytes() + arg + " --jobserver-auth=".spec_bytes() + arg
}

/// The value that hands a named pipe to a child: the current flag alone,
/// with the path behind `fifo:`.
pub open spec fn child_fifo_value_spec(path: Seq<u8>) -> Seq<u8> {
    "-j --jobserver-auth=fifo:".spec_bytes() + path
}

/// The value of `MAKEFLAGS` that hands the jobserver `arg` to a child.
pub fn child_value(arg: &[u8]) -> (r: Vec<u8>)
    ensures
        r@ == child_value_spec(arg@),
{
    let mut out: Vec<u8> = Vec::new();
    push_all(&mut out, "-j --jobserver-fds=".as_bytes());
    push_all(&mut out, arg);
    push_all(&mut out, " --jobserver-auth=".as_bytes());
    push_all(&mut out, arg);
    assert(out@ =~= child_value_spec(arg@));
    out
}

/// The value of `MAKEFLAGS` that hands the named pipe at `path` to a child.
pub fn child_fifo_value(path: &[u8]) -> (r: Vec<u8>)
    ensures
        r@ == child_fifo_value_spec(path@),
{
    let mut out: Vec<u8> = Vec::new();
    push_all(&mut out, "-j --jobserver-auth=fifo:".as_bytes());
    push_all(&mut out, path);
    assert(out@ =~= child_fifo_value_spec(path@));
    out
}

/// The variables through which a child is told of the jobserver:
/// `CARGO_MAKEFLAGS` for `cargo`; for `make` as well, also `MAKEFLAGS` and
/// `MFLAGS`.
pub open spec fn env_names_spec(for_make: bool) -> Seq<Seq<char>> {
    if for_make {
        seq!["CARGO_MAKEFLAGS"@, "MAKEFLAGS"@, "MFLAGS"@]
    } else {
        seq!["CARGO_MAKEFLAGS"@]
    }
}

/// What the names stand for in contracts.
pub open spec fn names_view(names: Seq<&'static str>) -> Seq<Seq<char>> {
    names.map_values(|n: &'static str| n@)
}

/// The variables to set for a child, in the order in which they are read
/// back.
pub fn env_names(for_make: bool) -> (r: Vec<&'static str>)
    ensures
        names_view(r@) == env_names_spec(for_make),
{
    let mut names: Vec<&'static str> = Vec::new();
    names.push("CARGO_MAKEFLAGS");
    if for_make {
        names.push("MAKEFLAGS");
        names.push("MFLAGS");
    }
    assert(names_view(names@) =~= env_names_spec(for_make));
    names
}

/// The bytes of the three pieces of text that a child's value is made of.
proof fn lemma_literals()
    ensures
        auth_flag_spec().len() == 17,
        no_whitespace(auth_flag_spec()),
        "-j --jobserver-fds=".spec_bytes().len() == 19,
        " --jobserver-auth=".spec_bytes().len() == 18,
        " --jobserver-auth=".spec_bytes()[0] == 32,
        " --jobserver-auth=".spec_bytes().skip(1) == auth_flag_spec(),
        "-j --jobserver-auth=fifo:".spec_bytes().len() == 25,
        "-j --jobserver-auth=fifo:".spec_bytes()[2] == 32,
        "-j --jobserver-auth=fifo:".spec_bytes().subrange(3, 20) == auth_flag_spec(),
        "-j --jobserver-auth=fifo:".spec_bytes().skip(20) == "fifo:".spec_bytes(),
        "fifo:".spec_bytes().len() == 5,
        no_whitespace("fifo:".spec_bytes()),
{
    reveal_strlit("--jobserver-auth=");
    reveal_strlit("-j --jobserver-fds=");
    reveal_strlit(" --jobserver-auth=");
    reveal_strlit("-j --jobserver-auth=fifo:");
    reveal_strlit("fifo:");
    vstd::string::is_ascii_spec_bytes("--jobserver-auth=");
    vstd::string::is_ascii_spec_bytes("-j --jobserver-fds=");
    vstd::string::is_ascii_spec_bytes(" --jobserver-auth=");
    vstd::string::is_ascii_spec_bytes("-j --jobserver-auth=fifo:");
    vstd::string::is_ascii_spec_bytes("fifo:");
    assert(vstd::string::is_ascii("--jobserver-auth="));
    assert(vstd::string::is_ascii("-j --jobserver-fds="));
    assert(vstd::string::is_ascii(" --jobserver-auth="));
    assert(vstd::string::is_ascii("-j --jobserver-auth=fifo:"));
    assert(vstd::string::is_ascii("fifo:"));
    assert(" --jobserver-auth=".spec_bytes().skip(1) =~= auth_flag_spec());
    assert("-j --jobserver-auth=fifo:".spec_bytes().subrange(3, 20) =~= auth_flag_spec());
    assert("-j --jobserver-auth=fifo:".spec_bytes().skip(20) =~= "fifo:".spec_bytes());
}

/// The last word of `value` starts at `at`, begins with the current flag
/// and goes on without whitespace: its argument is the jobserver that
/// `value` names.
proof fn lemma_last_word_names(value: Seq<u8>, at: int, arg: Seq<u8>)
    requires
        0 < at <= value.len(),
        is_whitespace_spec(value[at - 1]),
        value.skip(at) == auth_flag_spec() + arg,
        no_whitespace(arg),
    ensures
        jobserver_auth_spec(value) == Some(arg),
{
    lemma_literals();
    let flag = auth_flag_spec();
    let len = value.len() as int;
    let tail = flag + arg;
    assert(tail.len() == len - at);
    assert forall|k: int| at <= k < len implies !is_whitespace_spec(#[trigger] value[k]) by {
        assert(value[k] == value.skip(at)[k - at]);
        if k - at < 17 {
            assert(tail[k - at] == flag[k - at]);
        } else {
            assert(tail[k - at] == arg[k - at - 17]);
        }
    }
    lemma_word_end_is(value, at, len);
    lemma_last_flag_skips_word(value, flag, at, len);
    assert(word_at(value, at) =~= value.skip(at));
    assert(flag =~= word_at(value, at).subrange(0, 17));
    assert(flag_value_at(value, flag, at) =~= arg);
}

/// Law: a value made for a child names the jobserver it was made from,
/// whatever `arg` is, as long as it holds no whitespace.
pub proof fn lemma_child_value_round_trip(arg: Seq<u8>)
    requires
        no_whitespace(arg),
    ensures
        jobserver_auth_spec(child_value_spec(arg)) == Some(arg),
{
    lemma_literals();
    let value = child_value_spec(arg);
    let at: int = arg.len() as int + 20;
    assert(value[at - 1] == " --jobserver-auth=".spec_bytes()[0]);
    assert(value.skip(at) =~= auth_flag_spec() + arg);
    lemma_last_word_names(value, at, arg);
}

/// Law: a value made for a child from the path of a named pipe names that
/// pipe, in the form `fifo:PATH`, as long as the path holds no whitespace.
pub proof fn lemma_child_fifo_value_round_trip(path: Seq<u8>)
    requires
        no_whitespace(path),
    ensures
        jobserver_auth_spec(child_fifo_value_spec(path)) == Some("fifo:".spec_bytes() + path),
{
    lemma_literals();
    let value = child_fifo_value_spec(path);
    let arg = "fifo:".spec_bytes() + path;
    assert(value[2] == "-j --jobserver-auth=fifo:".spec_bytes()[2]);
    assert(value.skip(3) =~= auth_flag_spec() + arg);
    lemma_last_word_names(value, 3, arg);
}

} // verus!
