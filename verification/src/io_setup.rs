//! Choosing how a process's standard streams are wired: null, named-pipe
//! ("fifo"), or a logging binary, selected by the scheme of the stdout URI.
//! The file descriptors themselves are created by the unverified binary
//! from the returned plan.

use vstd::prelude::*;
use vstd::string::StrSliceExecFns;
use vstd::string::StringExecFns;
use crate::strutil;
use crate::errors::{Code, Status, ttrpc_error};

verus! {

/// The stdio wiring request: one URI-or-path string per stream; an empty
/// string means "not wired".
#[derive(Debug, Clone)]
pub struct Stdio {
    pub stdin: String,
    pub stdout: String,
    pub stderr: String,
    pub terminal: bool,
}

/// The mathematical value of a stdio request.
pub struct StdioModel {
    pub stdin: Seq<char>,
    pub stdout: Seq<char>,
    pub stderr: Seq<char>,
    pub terminal: bool,
}

pub open spec fn stdio_model(s: Stdio) -> StdioModel {
    StdioModel { stdin: s.stdin@, stdout: s.stdout@, stderr: s.stderr@, terminal: s.terminal }
}

/// True iff no stream is wired.
pub open spec fn stdio_is_null(s: StdioModel) -> bool {
    s.stdin.len() == 0 && s.stdout.len() == 0 && s.stderr.len() == 0
}

/// True iff no stream is wired (executable form).
pub fn has_no_io(stdio: &Stdio) -> (r: bool)
    ensures
        r == stdio_is_null(stdio_model(*stdio)),
{
    stdio.stdin.as_str().unicode_len() == 0 && stdio.stdout.as_str().unicode_len() == 0
        && stdio.stderr.as_str().unicode_len() == 0
}

/// A terminal window size.
#[derive(Debug, Clone, Copy, PartialEq, Eq, Structural)]
pub struct WinSize {
    pub height: u16,
    pub width: u16,
    pub x: u16,
    pub y: u16,
}

impl WinSize {
    pub fn new(height: u16, width: u16) -> (r: WinSize)
        ensures
            r.height == height && r.width == width && r.x == 0 && r.y == 0,
    {
        WinSize { height, width, x: 0, y: 0 }
    }
}

/// The index of the first occurrence of `pat` in `s`, or -1.
pub open spec fn first_occ(s: Seq<char>, pat: Seq<char>) -> int
    decreases s.len(),
{
    if pat.len() == 0 {
        0
    } else if s.len() < pat.len() {
        -1
    } else if s.subrange(0, pat.len() as int) == pat {
        0
    } else {
        let r = first_occ(s.drop_first(), pat);
        if r == -1 {
            -1
        } else {
            r + 1
        }
    }
}

/// If `pat` occurs at `k` and nowhere earlier, the first occurrence is `k`;
/// if it occurs nowhere, there is none.
pub proof fn lemma_first_occ_from(s: Seq<char>, pat: Seq<char>, k: int)
    requires
        0 <= k <= s.len(),
        forall|j: int| 0 <= j < k ==> !strutil::occurs_at(s, pat, j),
        k + pat.len() <= s.len() ==> strutil::occurs_at(s, pat, k),
    ensures
        k + pat.len() <= s.len() ==> first_occ(s, pat) == k,
        k + pat.len() > s.len() ==> first_occ(s, pat) == -1,
    decreases s.len(),
{
    if pat.len() == 0 {
        if k > 0 {
            assert(s.subrange(0, 0) =~= pat);
            assert(strutil::occurs_at(s, pat, 0));
            assert(false);
        }
    } else if s.len() < pat.len() {
    } else if k == 0 {
        if k + pat.len() <= s.len() {
            assert(s.subrange(0, pat.len() as int) == pat);
        }
    } else {
        assert(!strutil::occurs_at(s, pat, 0));
        assert(s.subrange(0, pat.len() as int) != pat);
        let t = s.drop_first();
        assert(forall|j: int| 0 <= j < t.len() ==> t[j] == s[j + 1]);
        assert forall|j: int| 0 <= j < k - 1 implies !strutil::occurs_at(t, pat, j) by {
            if strutil::occurs_at(t, pat, j) {
                assert(t.subrange(j, j + pat.len() as int) =~= s.subrange(
                    j + 1,
                    j + 1 + pat.len() as int,
                ));
                assert(strutil::occurs_at(s, pat, j + 1));
            }
        }
        if k - 1 + pat.len() <= t.len() {
            assert(strutil::occurs_at(s, pat, k));
            assert(s.subrange(k, k + pat.len() as int) =~= t.subrange(
                k - 1,
                k - 1 + pat.len() as int,
            ));
            assert(strutil::occurs_at(t, pat, k - 1));
        }
        lemma_first_occ_from(t, pat, k - 1);
    }
}

/// Finds the first occurrence of a pattern, reported against [`first_occ`].
pub fn find_first_occ(s: &str, pat: &str) -> (r: Option<usize>)
    requires
        pat@.len() >= 1,
    ensures
        match r {
            Some(i) => first_occ(s@, pat@) == i as int && i + pat@.len() <= s@.len(),
            None => first_occ(s@, pat@) == -1,
        },
{
    match strutil::find_sub(s, pat) {
        Some(i) => {
            proof {
                lemma_first_occ_from(s@, pat@, i as int);
            }
            Some(i)
        },
        None => {
            proof {
                assert(forall|j: int| !strutil::occurs_at(s@, pat@, j));
                if s@.len() >= pat@.len() {
                    lemma_first_occ_from(s@, pat@, s@.len() - pat@.len() + 1);
                } else {
                    lemma_first_occ_from(s@, pat@, 0);
                }
            }
            None
        },
    }
}

/// The scheme and remainder of a URI: the text before and after the first
/// `://`, if one occurs.
pub open spec fn scheme_split(u: Seq<char>) -> Option<(Seq<char>, Seq<char>)> {
    let i = first_occ(u, "://"@);
    if i == -1 {
        None
    } else {
        Some((u.subrange(0, i), u.subrange(i + 3, u.len() as int)))
    }
}

/// The path component of what follows `scheme://`: everything from the
/// first `/` on (the text before it is the authority); empty when no `/`
/// follows.
pub open spec fn uri_path_of_rest(rest: Seq<char>) -> Seq<char> {
    let i = crate::strutil::first_index_of(rest, '/');
    if i == -1 {
        Seq::empty()
    } else {
        rest.subrange(i, rest.len() as int)
    }
}

/// How the streams are wired.
#[derive(Debug, Clone, Copy, PartialEq, Eq, Structural)]
pub enum IoScheme {
    Null,
    Fifo,
    Binary,
}

/// The chosen wiring: the stdout URI (when one applies), whether copier
/// threads must be spawned, the scheme, and the per-stream paths the
/// copiers use.
#[derive(Debug)]
pub struct ProcessIO {
    pub uri: Option<String>,
    pub copy: bool,
    pub scheme: IoScheme,
    pub stdio_path: Stdio,
}

/// The mathematical value of a chosen wiring.
pub struct ProcessIoModel {
    pub uri: Option<Seq<char>>,
    pub copy: bool,
    pub scheme: IoScheme,
    pub stdio_path: StdioModel,
}

pub open spec fn process_io_model(p: ProcessIO) -> ProcessIoModel {
    ProcessIoModel {
        uri: match p.uri {
            Some(u) => Some(u@),
            None => None,
        },
        copy: p.copy,
        scheme: p.scheme,
        stdio_path: stdio_model(p.stdio_path),
    }
}

/// Why an I/O plan was rejected.
pub enum IoPlanError {
    UnknownScheme,
    BadUrl,
}

/// What wiring a stdio request selects.
///
/// - No stream wired: the null scheme, no copying.
/// - No scheme in the stdout string: the fifo scheme with `fifo://` put in
///   front, and the raw strings kept as paths (stdin only when wired).
/// - `fifo` or `file` scheme: the paths are the URI path component of each
///   stream (the text from the first `/` after the authority); a wired
///   stdin or any stderr without `://` is rejected.
/// - `binary` scheme: a logging binary consumes the output, nothing is
///   copied.
/// - Any other scheme is rejected.
pub open spec fn io_plan_spec(s: StdioModel) -> Result<ProcessIoModel, IoPlanError> {
    if stdio_is_null(s) {
        Ok(
            ProcessIoModel {
                uri: None,
                copy: false,
                scheme: IoScheme::Null,
                stdio_path: s,
            },
        )
    } else {
        match scheme_split(s.stdout) {
            None => Ok(
                ProcessIoModel {
                    uri: Some("fifo://"@ + s.stdout),
                    copy: true,
                    scheme: IoScheme::Fifo,
                    stdio_path: StdioModel {
                        stdin: if s.stdin.len() > 0 {
                            s.stdin
                        } else {
                            Seq::empty()
                        },
                        stdout: s.stdout,
                        stderr: s.stderr,
                        terminal: s.terminal,
                    },
                },
            ),
            Some((sch, _rest)) => {
                if sch == "binary"@ {
                    Ok(
                        ProcessIoModel {
                            uri: Some(s.stdout),
                            copy: false,
                            scheme: IoScheme::Binary,
                            stdio_path: StdioModel {
                                stdin: Seq::empty(),
                                stdout: Seq::empty(),
                                stderr: Seq::empty(),
                                terminal: s.terminal,
                            },
                        },
                    )
                } else if sch == "fifo"@ || sch == "file"@ {
                    let stdin_path = if s.stdin.len() > 0 {
                        match scheme_split(s.stdin) {
                            None => Err(IoPlanError::BadUrl),
                            Some((_, p)) => Ok(uri_path_of_rest(p)),
                        }
                    } else {
                        Ok(Seq::<char>::empty())
                    };
                    let stderr_path = match scheme_split(s.stderr) {
                        None => Err(IoPlanError::BadUrl),
                        Some((_, p)) => Ok(uri_path_of_rest(p)),
                    };
                    match (stdin_path, stderr_path) {
                        (Ok(pin), Ok(perr)) => Ok(
                            ProcessIoModel {
                                uri: Some(s.stdout),
                                copy: true,
                                scheme: IoScheme::Fifo,
                                stdio_path: StdioModel {
                                    stdin: pin,
                                    stdout: uri_path_of_rest(
                                        s.stdout.subrange(
                                            first_occ(s.stdout, "://"@) + 3,
                                            s.stdout.len() as int,
                                        ),
                                    ),
                                    stderr: perr,
                                    terminal: s.terminal,
                                },
                            },
                        ),
                        _ => Err(IoPlanError::BadUrl),
                    }
                } else {
                    Err(IoPlanError::UnknownScheme)
                }
            },
        }
    }
}

/// Extracts the URI's path component: the text from the first `/` after
/// `scheme://` on, with anything before it read as the authority.
fn url_path_of(u: &str) -> (r: Option<String>)
    ensures
        match r {
            Some(p) => (scheme_split(u@) matches Some(parts) && p@ == uri_path_of_rest(
                parts.1,
            )),
            None => scheme_split(u@) is None,
        },
{
    proof {
        reveal_strlit("://");
    }
    match find_first_occ(u, "://") {
        Some(i) => {
            let n = u.unicode_len();
            let rest_start = i + 3;
            let ghost rest = u@.subrange(rest_start as int, u@.len() as int);
            let mut j = rest_start;
            while j < n && u.get_char(j) != '/'
                invariant
                    rest_start <= j <= n,
                    n == u@.len(),
                    rest == u@.subrange(rest_start as int, u@.len() as int),
                    forall|q: int| rest_start <= q < j ==> u@[q] != '/',
                decreases n - j,
            {
                j += 1;
            }
            proof {
                assert(forall|q: int| 0 <= q < j - rest_start ==> rest[q] != '/');
                if j < n {
                    assert(rest[j - rest_start] == '/');
                }
                crate::strutil::lemma_first_index_of_from(rest, '/', j - rest_start);
                if j < n {
                    assert(u@.subrange(j as int, n as int) =~= rest.subrange(
                        j - rest_start,
                        rest.len() as int,
                    ));
                }
            }
            if j < n {
                Some(strutil::substring_of(u, j, n))
            } else {
                Some(String::new())
            }
        },
        None => None,
    }
}

/// Chooses the I/O wiring for a process from its stdio request.
///
/// The identifier and ownership ids do not influence the choice; they ride
/// along for the binary that creates the pipes and are kept in the result
/// only through the paths.
pub fn create_io(id: &str, io_uid: u32, io_gid: u32, stdio: &Stdio) -> (r: Result<
    ProcessIO,
    Status,
>)
    ensures
        match r {
            Ok(pio) => io_plan_spec(stdio_model(*stdio)) == Ok::<_, IoPlanError>(process_io_model(
                pio,
            )),
            Err(e) => {
                &&& (io_plan_spec(stdio_model(*stdio)) matches Err(_))
                &&& (io_plan_spec(stdio_model(*stdio)) == Err::<ProcessIoModel, _>(
                    IoPlanError::UnknownScheme,
                ) <==> e.code == Code::InvalidArgument)
            },
        },
{
    proof {
        reveal_strlit("://");
    }
    if has_no_io(stdio) {
        return Ok(
            ProcessIO {
                uri: None,
                copy: false,
                scheme: IoScheme::Null,
                stdio_path: Stdio {
                    stdin: strutil::clone_string(&stdio.stdin),
                    stdout: strutil::clone_string(&stdio.stdout),
                    stderr: strutil::clone_string(&stdio.stderr),
                    terminal: stdio.terminal,
                },
            },
        );
    }
    let stdout = stdio.stdout.as_str();
    match find_first_occ(stdout, "://") {
        None => {
            let mut uri = String::from_str("fifo://");
            uri.append(stdout);
            let stdin_path = if stdio.stdin.as_str().unicode_len() > 0 {
                strutil::clone_string(&stdio.stdin)
            } else {
                String::new()
            };
            Ok(
                ProcessIO {
                    uri: Some(uri),
                    copy: true,
                    scheme: IoScheme::Fifo,
                    stdio_path: Stdio {
                        stdin: stdin_path,
                        stdout: strutil::clone_string(&stdio.stdout),
                        stderr: strutil::clone_string(&stdio.stderr),
                        terminal: stdio.terminal,
                    },
                },
            )
        },
        Some(i) => {
            let scheme = strutil::substring_of(stdout, 0, i);
            if strutil::str_eq(scheme.as_str(), "binary") {
                Ok(
                    ProcessIO {
                        uri: Some(strutil::clone_string(&stdio.stdout)),
                        copy: false,
                        scheme: IoScheme::Binary,
                        stdio_path: Stdio {
                            stdin: String::new(),
                            stdout: String::new(),
                            stderr: String::new(),
                            terminal: stdio.terminal,
                        },
                    },
                )
            } else if strutil::str_eq(scheme.as_str(), "fifo") || strutil::str_eq(
                scheme.as_str(),
                "file",
            ) {
                let stdin_path = if stdio.stdin.as_str().unicode_len() > 0 {
                    match url_path_of(stdio.stdin.as_str()) {
                        Some(p) => p,
                        None => {
                            return Err(
                                ttrpc_error(
                                    Code::Internal,
                                    String::from_str("failed to parse stdin uri"),
                                ),
                            );
                        },
                    }
                } else {
                    String::new()
                };
                let stderr_path = match url_path_of(stdio.stderr.as_str()) {
                    Some(p) => p,
                    None => {
                        return Err(
                            ttrpc_error(
                                Code::Internal,
                                String::from_str("failed to parse stderr uri"),
                            ),
                        );
                    },
                };
                let stdout_path = match url_path_of(stdout) {
                    Some(p) => p,
                    None => {
                        proof {
                            assert(false);
                        }
                        String::new()
                    },
                };
                proof {
                    let parts = scheme_split(stdio.stdout@).unwrap();
                    assert(parts.1 == stdio.stdout@.subrange(
                        first_occ(stdio.stdout@, "://"@) + 3,
                        stdio.stdout@.len() as int,
                    ));
                }
                Ok(
                    ProcessIO {
                        uri: Some(strutil::clone_string(&stdio.stdout)),
                        copy: true,
                        scheme: IoScheme::Fifo,
                        stdio_path: Stdio {
                            stdin: stdin_path,
                            stdout: stdout_path,
                            stderr: stderr_path,
                            terminal: stdio.terminal,
                        },
                    },
                )
            } else {
                Err(ttrpc_error(Code::InvalidArgument, String::from_str("unknown scheme")))
            }
        },
    }
}

/// The transient unix-socket path a PTY master is handed over on:
/// the temp directory, the id with any extension replaced by `console`.
pub open spec fn console_path_spec(tmpdir: Seq<char>, id: Seq<char>) -> Seq<char> {
    let base = if crate::mount::last_index_of(id, '.') == -1 {
        id
    } else {
        id.subrange(0, crate::mount::last_index_of(id, '.'))
    };
    tmpdir + seq!['/'] + base + ".console"@
}

/// Builds the per-id console socket path under the given temp directory.
pub fn console_socket_path(tmpdir: &str, id: &str) -> (r: String)
    ensures
        r@ == console_path_spec(tmpdir@, id@),
{
    proof {
        reveal_strlit(".console");
    }
    let n = id.unicode_len();
    let mut last: Option<usize> = None;
    let mut i: usize = 0;
    while i < n
        invariant
            i <= n,
            n == id@.len(),
            match last {
                None => crate::mount::last_index_of(id@.subrange(0, i as int), '.') == -1,
                Some(j) => j < i && crate::mount::last_index_of(id@.subrange(0, i as int), '.')
                    == j as int,
            },
        decreases n - i,
    {
        let ghost pre = id@.subrange(0, i as int);
        let c = id.get_char(i);
        proof {
            let ext = id@.subrange(0, i + 1 as int);
            assert(ext.drop_last() =~= pre);
            assert(ext.last() == id@[i as int]);
        }
        if c == '.' {
            last = Some(i);
        }
        i += 1;
    }
    proof {
        assert(id@.subrange(0, n as int) =~= id@);
    }
    let mut r = String::from_str(tmpdir);
    strutil::push_char(&mut r, '/');
    match last {
        None => {
            r.append(id);
        },
        Some(j) => {
            let base = strutil::substring_of(id, 0, j);
            r.append(base.as_str());
        },
    }
    r.append(".console");
    r
}


/// The text between the first and the second occurrence of `pat` in `s`
/// (to the end when `pat` occurs only once); nothing when it never occurs.
pub open spec fn segment_after(s: Seq<char>, pat: Seq<char>) -> Option<Seq<char>> {
    let i = first_occ(s, pat);
    if i == -1 {
        None
    } else {
        let rest = s.subrange(i + pat.len(), s.len() as int);
        let j = first_occ(rest, pat);
        if j == -1 {
            Some(rest)
        } else {
            Some(rest.subrange(0, j))
        }
    }
}

/// Extracts the text between the first and second occurrence of a pattern.
pub fn segment_after_exec(s: &str, pat: &str) -> (r: Option<String>)
    requires
        pat@.len() >= 1,
    ensures
        match r {
            Some(x) => segment_after(s@, pat@) == Some(x@),
            None => segment_after(s@, pat@) is None,
        },
{
    let i = match find_first_occ(s, pat) {
        Some(i) => i,
        None => {
            return None;
        },
    };
    let n = s.unicode_len();
    let plen = pat.unicode_len();
    let rest = strutil::substring_of(s, i + plen, n);
    match find_first_occ(rest.as_str(), pat) {
        Some(j) => Some(strutil::substring_of(rest.as_str(), 0, j)),
        None => Some(rest),
    }
}

} // verus!
