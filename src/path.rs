//! Pipe paths: how they are written, checked, and taken apart.
//!
//! A pipe on machine `host` called `name` is written `\\host\pipe\name`;
//! `\\.\pipe\name` names a pipe on the local machine.
use vstd::prelude::*;
use vstd::string::{StrSliceExecFns, StringExecFns};
use vstd::utf8::is_ascii_chars;
use crate::error::{ErrorKind, OsError};
use crate::flags::{ERROR_INVALID_NAME, MAX_PATH};

verus! {

broadcast use vstd::string::is_ascii_spec_bytes;

/// Prefix of pipes local to the same application package.
pub const LOCAL_PREFIX: &'static str = "\\\\.\\pipe\\LOCAL\\";

/// Prefix of pipes on the local machine.
pub const DEFAULT_PREFIX: &'static str = "\\\\.\\pipe\\";

/// A path the system accepts: single-byte characters, shorter than the path limit.
pub open spec fn path_is_valid(p: Seq<char>) -> bool {
    is_ascii_chars(p) && p.len() < MAX_PATH
}

/// The NUL-terminated byte string handed to the system for an ASCII path.
pub open spec fn c_path(p: Seq<char>) -> Seq<u8> {
    Seq::new(p.len(), |i: int| p[i] as u8).push(0u8)
}

/// Checks a pipe path and converts it to the byte string the system takes.
pub fn cvt_path(path: &str) -> (r: Result<Vec<u8>, OsError>)
    ensures
        r is Ok <==> path_is_valid(path@),
        match r {
            Ok(bytes) => bytes@ == c_path(path@),
            Err(e) => e.kind == ErrorKind::InvalidPath && e.code == ERROR_INVALID_NAME,
        },
{
    if !path.is_ascii() {
        return Err(
            OsError {
                kind: ErrorKind::InvalidPath,
                code: ERROR_INVALID_NAME,
                message: String::from_str("invalid named pipe path, must be valid ascii"),
            },
        );
    }
    let n = path.unicode_len();
    if n >= MAX_PATH as usize {
        return Err(
            OsError {
                kind: ErrorKind::InvalidPath,
                code: ERROR_INVALID_NAME,
                message: String::from_str(
                    "invalid named pipe path, must be less than 260 characters",
                ),
            },
        );
    }
    let mut bytes = path.as_bytes_vec();
    bytes.push(0u8);
    assert(bytes@ =~= c_path(path@));
    Ok(bytes)
}

/// The path of pipe `name` on machine `host`.
pub open spec fn pipe_path_of(host: Seq<char>, name: Seq<char>) -> Seq<char> {
    "\\\\"@ + host + "\\pipe\\"@ + name
}

/// The path of pipe `name` on the local machine.
pub open spec fn local_pipe_path_of(name: Seq<char>) -> Seq<char> {
    DEFAULT_PREFIX@ + name
}

/// Writes the path of pipe `name` on machine `host`.
pub fn pipe_path(host: &str, name: &str) -> (r: String)
    ensures
        r@ == pipe_path_of(host@, name@),
{
    let mut r = String::from_str("\\\\");
    r.append(host);
    r.append("\\pipe\\");
    r.append(name);
    r
}

/// Writes the path of pipe `name` on the local machine.
pub fn local_pipe_path(name: &str) -> (r: String)
    ensures
        r@ == local_pipe_path_of(name@),
{
    let mut r = String::from_str(DEFAULT_PREFIX);
    r.append(name);
    r
}

/// Where the last component of a path begins: just after its last backslash, or at 0.
pub open spec fn name_start(p: Seq<char>) -> int
    decreases p.len(),
{
    if p.len() == 0 {
        0
    } else if p.last() == '\\' {
        p.len() as int
    } else {
        name_start(p.drop_last())
    }
}

/// The pipe's name: the part of the path after its last backslash.
pub open spec fn pipe_name_of(p: Seq<char>) -> Seq<char> {
    p.subrange(name_start(p), p.len() as int)
}

/// Takes the pipe's name out of its path.
pub fn pipe_name(path: &str) -> (r: &str)
    ensures
        r@ == pipe_name_of(path@),
{
    let n = path.unicode_len();
    let mut i: usize = n;
    proof {
        assert(path@.subrange(0, n as int) =~= path@);
    }
    while i > 0 && path.get_char(i - 1) != '\\'
        invariant
            n == path@.len(),
            i <= n,
            name_start(path@) == name_start(path@.subrange(0, i as int)),
        decreases i,
    {
        proof {
            assert(path@.subrange(0, i as int).drop_last() =~= path@.subrange(0, i - 1));
        }
        i = i - 1;
    }
    proof {
        if i == 0 {
            assert(path@.subrange(0, 0) =~= Seq::<char>::empty());
        }
    }
    path.substring_char(i, n)
}

/// Where the host part of a path ends: the first backslash at or after `i`, or the end.
pub open spec fn host_end(p: Seq<char>, i: int) -> int
    decreases p.len() - i,
{
    if i >= p.len() {
        p.len() as int
    } else if p[i] == '\\' {
        i
    } else {
        host_end(p, i + 1)
    }
}

/// Whether a path starts with the two backslashes that precede a host.
pub open spec fn has_host(p: Seq<char>) -> bool {
    p.len() >= 2 && p[0] == '\\' && p[1] == '\\'
}

/// The host part of a path: what stands between the leading `\\` and the next
/// backslash; empty where the path does not start with `\\`.
pub open spec fn pipe_host_of(p: Seq<char>) -> Seq<char> {
    if has_host(p) {
        p.subrange(2, host_end(p, 2))
    } else {
        Seq::empty()
    }
}

/// Takes the host out of a pipe path.
pub fn pipe_host(path: &str) -> (r: &str)
    ensures
        r@ == pipe_host_of(path@),
{
    let n = path.unicode_len();
    if n < 2 || path.get_char(0) != '\\' || path.get_char(1) != '\\' {
        return path.substring_char(0, 0);
    }
    let mut j: usize = 2;
    while j < n && path.get_char(j) != '\\'
        invariant
            n == path@.len(),
            2 <= j <= n,
            host_end(path@, 2) == host_end(path@, j as int),
        decreases n - j,
    {
        j = j + 1;
    }
    path.substring_char(2, j)
}

/// The text holds no backslash.
pub open spec fn no_separator(s: Seq<char>) -> bool {
    forall|i: int| 0 <= i < s.len() ==> s[i] != '\\'
}

proof fn lemma_name_after_separator(a: Seq<char>, b: Seq<char>)
    requires
        a.len() > 0,
        a.last() == '\\',
        no_separator(b),
    ensures
        name_start(a + b) == a.len(),
    decreases b.len(),
{
    if b.len() == 0 {
        assert(a + b =~= a);
    } else {
        assert((a + b).last() == b.last());
        assert((a + b).drop_last() =~= a + b.drop_last());
        lemma_name_after_separator(a, b.drop_last());
    }
}

proof fn lemma_host_runs_to_separator(p: Seq<char>, i: int, end: int)
    requires
        0 <= i <= end < p.len(),
        p[end] == '\\',
        forall|j: int| i <= j < end ==> p[j] != '\\',
    ensures
        host_end(p, i) == end,
    decreases end - i,
{
    if i < end {
        lemma_host_runs_to_separator(p, i + 1, end);
    }
}

/// A pipe path written from a host and a name, neither holding a backslash,
/// gives back that host and that name.
pub proof fn lemma_pipe_path_parts(host: Seq<char>, name: Seq<char>)
    requires
        no_separator(host),
        no_separator(name),
    ensures
        pipe_name_of(pipe_path_of(host, name)) == name,
        pipe_host_of(pipe_path_of(host, name)) == host,
{
    reveal_strlit("\\\\");
    reveal_strlit("\\pipe\\");
    let lead = "\\\\"@;
    let mid = "\\pipe\\"@;
    let p = pipe_path_of(host, name);
    let a = lead + host + mid;
    assert(p =~= a + name);
    lemma_name_after_separator(a, name);
    assert(p.subrange(a.len() as int, p.len() as int) =~= name);
    let end: int = 2 + host.len() as int;
    assert(p[end] == '\\');
    assert forall|j: int| 2 <= j < end implies p[j] != '\\' by {
        assert(p[j] == host[j - 2]);
    }
    lemma_host_runs_to_separator(p, 2, end);
    assert(p.subrange(2, end) =~= host);
}

/// A local pipe path gives back its name, and `.` as its host.
pub proof fn lemma_local_pipe_path_parts(name: Seq<char>)
    requires
        no_separator(name),
    ensures
        pipe_name_of(local_pipe_path_of(name)) == name,
        pipe_host_of(local_pipe_path_of(name)) == "."@,
{
    reveal_strlit("\\\\.\\pipe\\");
    reveal_strlit(".");
    reveal_strlit("\\\\");
    reveal_strlit("\\pipe\\");
    assert(DEFAULT_PREFIX@ =~= "\\\\"@ + "."@ + "\\pipe\\"@);
    assert(local_pipe_path_of(name) =~= pipe_path_of("."@, name));
    lemma_pipe_path_parts("."@, name);
}

} // verus!
