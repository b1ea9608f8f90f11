//! The runtime adapter: composing the argument vectors of the OCI runtime's
//! subcommands, deciding what a finished invocation means (including the
//! fallback to the reaper's exit table when the child was already reaped),
//! classifying kill errors, and decoding the runtime's outputs. The
//! subprocess itself is spawned by the unverified binary with the argument
//! vectors built here.

use vstd::prelude::*;
use vstd::string::StrSliceExecFns;
use vstd::string::StringExecFns;
use crate::strutil;
use crate::strutil::{contains_seq, trim_spec, dec_of, dec_digits, join_with};

verus! {

/// The errno the blocking wait reports when the child was already reaped.
pub const ECHILD: i32 = 10;

/// Runtime client errors.
#[derive(Debug)]
pub enum RuncError {
    InvalidPath(String),
    JsonDeserialization,
    MissingContainerStats,
    ProcessSpawn(String),
    Command(String),
    CommandFailed { stdout: String, stderr: String },
    InvalidVersion,
    NotFound,
    SpecFilePath,
    SpecFileCreation(String),
    SpecFileCleanup(String),
    TopMissingPidHeader,
    TopShortResponse,
    FromUtf8,
}

/// Runtime logging format.
#[derive(Debug, Clone, Copy, PartialEq, Eq, Structural)]
pub enum RuncLogFormat {
    Json,
    Text,
}

/// Runtime version information.
#[derive(Debug, Clone)]
pub struct Version {
    pub runc_version: Option<String>,
    pub spec_version: Option<String>,
    pub commit: Option<String>,
}

/// Runtime client configuration.
#[derive(Debug, Clone)]
pub struct RuncConfiguration {
    pub command: Option<String>,
    pub timeout_ms: Option<u64>,
    pub root: Option<String>,
    pub debug: bool,
    pub log: Option<String>,
    pub log_format: Option<RuncLogFormat>,
    pub systemd_cgroup: bool,
    pub rootless: Option<bool>,
}

impl Default for RuncConfiguration {
    /// An empty configuration: no binary, no root, no logging, defaults off.
    fn default() -> (r: RuncConfiguration)
        ensures
            r.command is None,
            r.timeout_ms is None,
            r.root is None,
            !r.debug,
            r.log is None,
            r.log_format is None,
            !r.systemd_cgroup,
            r.rootless is None,
    {
        RuncConfiguration {
            command: None,
            timeout_ms: None,
            root: None,
            debug: false,
            log: None,
            log_format: None,
            systemd_cgroup: false,
            rootless: None,
        }
    }
}

/// The runtime client: the binary to run and the global flags every
/// invocation carries.
#[derive(Debug)]
pub struct Runc {
    pub command: String,
    pub timeout_ms: u64,
    pub root: Option<String>,
    pub debug: bool,
    pub log: Option<String>,
    pub log_format: Option<RuncLogFormat>,
    pub systemd_cgroup: bool,
    pub rootless: Option<bool>,
}

/// The views of a string vector.
pub open spec fn views(v: Seq<String>) -> Seq<Seq<char>> {
    v.map_values(|s: String| s@)
}

/// Appends one borrowed string to an argument vector.
pub fn push_str(v: &mut Vec<String>, s: &str)
    ensures
        views(final(v)@) == views(old(v)@).push(s@),
{
    v.push(String::from_str(s));
    proof {
        assert(views(v@) =~= views(old(v)@).push(s@));
    }
}

/// Appends an owned string to an argument vector.
pub fn push_string(v: &mut Vec<String>, s: String)
    ensures
        views(final(v)@) == views(old(v)@).push(s@),
{
    let ghost sv = s@;
    v.push(s);
    proof {
        assert(views(v@) =~= views(old(v)@).push(sv));
    }
}

// The global-flag segments of every runtime invocation.
pub open spec fn seg_root(r: Runc) -> Seq<Seq<char>> {
    match r.root {
        Some(p) => seq!["--root"@, p@],
        None => Seq::empty(),
    }
}

pub open spec fn seg_debug(r: Runc) -> Seq<Seq<char>> {
    if r.debug {
        seq!["--debug"@]
    } else {
        Seq::empty()
    }
}

pub open spec fn seg_log(r: Runc) -> Seq<Seq<char>> {
    match r.log {
        Some(p) => seq!["--log"@, p@],
        None => Seq::empty(),
    }
}

pub open spec fn seg_log_format(r: Runc) -> Seq<Seq<char>> {
    match r.log_format {
        Some(RuncLogFormat::Json) => seq!["--log-format"@, "json"@],
        Some(RuncLogFormat::Text) => seq!["--log-format"@, "text"@],
        None => Seq::empty(),
    }
}

pub open spec fn seg_systemd(r: Runc) -> Seq<Seq<char>> {
    if r.systemd_cgroup {
        seq!["--systemd-cgroup"@]
    } else {
        Seq::empty()
    }
}

pub open spec fn seg_rootless(r: Runc) -> Seq<Seq<char>> {
    match r.rootless {
        Some(true) => seq!["--rootless=true"@],
        Some(false) => seq!["--rootless=false"@],
        None => Seq::empty(),
    }
}

/// The global flags prepended to every subcommand.
pub open spec fn global_args_spec(r: Runc) -> Seq<Seq<char>> {
    seg_root(r) + seg_debug(r) + seg_log(r) + seg_log_format(r) + seg_systemd(r) + seg_rootless(r)
}

impl Runc {
    /// A new runtime client: the binary defaults to `runc` and the command
    /// timeout to five seconds.
    pub fn new(config: RuncConfiguration) -> (r: Runc)
        ensures
            r.command@ == match config.command {
                Some(c) => c@,
                None => "runc"@,
            },
            r.timeout_ms == match config.timeout_ms {
                Some(t) => t,
                None => 5000u64,
            },
            r.root == config.root,
            r.debug == config.debug,
            r.log == config.log,
            r.log_format == config.log_format,
            r.systemd_cgroup == config.systemd_cgroup,
            r.rootless == config.rootless,
    {
        let command = match config.command {
            Some(c) => c,
            None => String::from_str("runc"),
        };
        let timeout_ms = match config.timeout_ms {
            Some(t) => t,
            None => 5000,
        };
        Runc {
            command,
            timeout_ms,
            root: config.root,
            debug: config.debug,
            log: config.log,
            log_format: config.log_format,
            systemd_cgroup: config.systemd_cgroup,
            rootless: config.rootless,
        }
    }

    /// The global flags of this client, in order.
    #[verifier::rlimit(60)]
    pub fn args(&self) -> (r: Vec<String>)
        ensures
            views(r@) == global_args_spec(*self),
    {
        let mut v: Vec<String> = Vec::new();
        match &self.root {
            Some(p) => {
                push_str(&mut v, "--root");
                push_string(&mut v, strutil::clone_string(p));
            },
            None => {},
        }
        proof {
            assert(views(v@) =~= seg_root(*self));
        }
        if self.debug {
            push_str(&mut v, "--debug");
        }
        proof {
            assert(views(v@) =~= seg_root(*self) + seg_debug(*self));
        }
        match &self.log {
            Some(p) => {
                push_str(&mut v, "--log");
                push_string(&mut v, strutil::clone_string(p));
            },
            None => {},
        }
        proof {
            assert(views(v@) =~= seg_root(*self) + seg_debug(*self) + seg_log(*self));
        }
        match &self.log_format {
            Some(RuncLogFormat::Json) => {
                push_str(&mut v, "--log-format");
                push_str(&mut v, "json");
            },
            Some(RuncLogFormat::Text) => {
                push_str(&mut v, "--log-format");
                push_str(&mut v, "text");
            },
            None => {},
        }
        proof {
            assert(views(v@) =~= seg_root(*self) + seg_debug(*self) + seg_log(*self)
                + seg_log_format(*self));
        }
        if self.systemd_cgroup {
            push_str(&mut v, "--systemd-cgroup");
        }
        proof {
            assert(views(v@) =~= seg_root(*self) + seg_debug(*self) + seg_log(*self)
                + seg_log_format(*self) + seg_systemd(*self));
        }
        match self.rootless {
            Some(true) => {
                push_str(&mut v, "--rootless=true");
            },
            Some(false) => {
                push_str(&mut v, "--rootless=false");
            },
            None => {},
        }
        proof {
            assert(views(v@) =~= global_args_spec(*self));
        }
        v
    }

    /// The global flags followed by the given subcommand arguments.
    pub fn concat_args(&self, args: &Vec<String>) -> (r: Vec<String>)
        ensures
            views(r@) == global_args_spec(*self) + views(args@),
    {
        let mut v = self.args();
        let mut i: usize = 0;
        while i < args.len()
            invariant
                i <= args@.len(),
                views(v@) == global_args_spec(*self) + views(args@).subrange(0, i as int),
            decreases args@.len() - i,
        {
            proof {
                assert(views(args@)[i as int] == args@[i as int]@);
            }
            let ghost before = views(v@);
            push_string(&mut v, strutil::clone_string(&args[i]));
            proof {
                assert(before.push(views(args@)[i as int]) =~= global_args_spec(*self) + views(
                    args@,
                ).subrange(0, i + 1 as int));
            }
            i += 1;
        }
        proof {
            assert(views(args@).subrange(0, args@.len() as int) =~= views(args@));
        }
        v
    }
}

/// Container creation options.
#[derive(Debug, Clone)]
pub struct CreateOpts {
    pub pid_file: Option<String>,
    pub console_socket: Option<String>,
    pub no_pivot: bool,
    pub no_new_keyring: bool,
    pub detach: bool,
}

pub open spec fn create_opts_args_spec(o: CreateOpts) -> Seq<Seq<char>> {
    (match o.pid_file {
        Some(p) => seq!["--pid-file"@, p@],
        None => Seq::empty(),
    }) + (match o.console_socket {
        Some(p) => seq!["--console-socket"@, p@],
        None => Seq::empty(),
    }) + (if o.no_pivot {
        seq!["--no-pivot"@]
    } else {
        Seq::empty()
    }) + (if o.no_new_keyring {
        seq!["--no-new-keyring"@]
    } else {
        Seq::empty()
    }) + (if o.detach {
        seq!["--detach"@]
    } else {
        Seq::empty()
    })
}

impl CreateOpts {
    /// The flags these options contribute, in order.
    pub fn args(&self) -> (r: Vec<String>)
        ensures
            views(r@) == create_opts_args_spec(*self),
    {
        let mut v: Vec<String> = Vec::new();
        match &self.pid_file {
            Some(p) => {
                push_str(&mut v, "--pid-file");
                push_string(&mut v, strutil::clone_string(p));
            },
            None => {},
        }
        match &self.console_socket {
            Some(p) => {
                push_str(&mut v, "--console-socket");
                push_string(&mut v, strutil::clone_string(p));
            },
            None => {},
        }
        if self.no_pivot {
            push_str(&mut v, "--no-pivot");
        }
        if self.no_new_keyring {
            push_str(&mut v, "--no-new-keyring");
        }
        if self.detach {
            push_str(&mut v, "--detach");
        }
        proof {
            assert(views(v@) =~= create_opts_args_spec(*self));
        }
        v
    }
}

/// Container deletion options.
#[derive(Debug, Clone)]
pub struct DeleteOpts {
    pub force: bool,
}

pub open spec fn delete_opts_args_spec(o: DeleteOpts) -> Seq<Seq<char>> {
    if o.force {
        seq!["--force"@]
    } else {
        Seq::empty()
    }
}

impl DeleteOpts {
    pub fn args(&self) -> (r: Vec<String>)
        ensures
            views(r@) == delete_opts_args_spec(*self),
    {
        let mut v: Vec<String> = Vec::new();
        if self.force {
            push_str(&mut v, "--force");
        }
        proof {
            assert(views(v@) =~= delete_opts_args_spec(*self));
        }
        v
    }
}

/// Process execution options.
#[derive(Debug, Clone)]
pub struct ExecOpts {
    pub pid_file: Option<String>,
    pub console_socket: Option<String>,
    pub detach: bool,
}

pub open spec fn exec_opts_args_spec(o: ExecOpts) -> Seq<Seq<char>> {
    (match o.console_socket {
        Some(p) => seq!["--console-socket"@, p@],
        None => Seq::empty(),
    }) + (if o.detach {
        seq!["--detach"@]
    } else {
        Seq::empty()
    }) + (match o.pid_file {
        Some(p) => seq!["--pid-file"@, p@],
        None => Seq::empty(),
    })
}

impl ExecOpts {
    pub fn args(&self) -> (r: Vec<String>)
        ensures
            views(r@) == exec_opts_args_spec(*self),
    {
        let mut v: Vec<String> = Vec::new();
        match &self.console_socket {
            Some(p) => {
                push_str(&mut v, "--console-socket");
                push_string(&mut v, strutil::clone_string(p));
            },
            None => {},
        }
        if self.detach {
            push_str(&mut v, "--detach");
        }
        match &self.pid_file {
            Some(p) => {
                push_str(&mut v, "--pid-file");
                push_string(&mut v, strutil::clone_string(p));
            },
            None => {},
        }
        proof {
            assert(views(v@) =~= exec_opts_args_spec(*self));
        }
        v
    }
}

/// Container killing options.
#[derive(Debug, Clone)]
pub struct KillOpts {
    pub all: bool,
}

pub open spec fn kill_opts_args_spec(o: KillOpts) -> Seq<Seq<char>> {
    if o.all {
        seq!["--all"@]
    } else {
        Seq::empty()
    }
}

impl KillOpts {
    pub fn args(&self) -> (r: Vec<String>)
        ensures
            views(r@) == kill_opts_args_spec(*self),
    {
        let mut v: Vec<String> = Vec::new();
        if self.all {
            push_str(&mut v, "--all");
        }
        proof {
            assert(views(v@) =~= kill_opts_args_spec(*self));
        }
        v
    }
}

impl Runc {
    /// The full argument vector of a `create` invocation.
    pub fn create_args(&self, id: &str, bundle: &str, opts: Option<&CreateOpts>) -> (r: Vec<
        String,
    >)
        ensures
            views(r@) == global_args_spec(*self) + seq!["create"@] + (match opts {
                Some(o) => create_opts_args_spec(*o),
                None => Seq::empty(),
            }) + seq!["--bundle"@, bundle@, id@],
    {
        let mut v: Vec<String> = Vec::new();
        push_str(&mut v, "create");
        match opts {
            Some(o) => {
                let oa = o.args();
                let mut i: usize = 0;
                while i < oa.len()
                    invariant
                        i <= oa@.len(),
                        views(oa@) == create_opts_args_spec(*o),
                        views(v@) == seq!["create"@] + views(oa@).subrange(0, i as int),
                    decreases oa@.len() - i,
                {
                    proof {
                        assert(views(oa@)[i as int] == oa@[i as int]@);
                    }
                    let ghost before = views(v@);
                    push_string(&mut v, strutil::clone_string(&oa[i]));
                    proof {
                        assert(before.push(views(oa@)[i as int]) =~= seq!["create"@] + views(
                            oa@,
                        ).subrange(0, i + 1 as int));
                    }
                    i += 1;
                }
                proof {
                    assert(views(oa@).subrange(0, oa@.len() as int) =~= views(oa@));
                }
            },
            None => {},
        }
        push_str(&mut v, "--bundle");
        push_str(&mut v, bundle);
        push_str(&mut v, id);
        let r = self.concat_args(&v);
        proof {
            assert(global_args_spec(*self) + views(v@) =~= global_args_spec(*self) + seq![
                "create"@
            ] + (match opts {
                Some(o) => create_opts_args_spec(*o),
                None => Seq::<Seq<char>>::empty(),
            }) + seq!["--bundle"@, bundle@, id@]);
        }
        r
    }

    /// The full argument vector of a `delete` invocation.
    pub fn delete_args(&self, id: &str, opts: Option<&DeleteOpts>) -> (r: Vec<String>)
        ensures
            views(r@) == global_args_spec(*self) + seq!["delete"@] + (match opts {
                Some(o) => delete_opts_args_spec(*o),
                None => Seq::empty(),
            }) + seq![id@],
    {
        let mut v: Vec<String> = Vec::new();
        push_str(&mut v, "delete");
        match opts {
            Some(o) => {
                if o.force {
                    push_str(&mut v, "--force");
                }
            },
            None => {},
        }
        push_str(&mut v, id);
        let r = self.concat_args(&v);
        proof {
            assert(global_args_spec(*self) + views(v@) =~= global_args_spec(*self) + seq![
                "delete"@
            ] + (match opts {
                Some(o) => delete_opts_args_spec(*o),
                None => Seq::<Seq<char>>::empty(),
            }) + seq![id@]);
        }
        r
    }

    /// The full argument vector of a `start` invocation.
    pub fn start_args(&self, id: &str) -> (r: Vec<String>)
        ensures
            views(r@) == global_args_spec(*self) + seq!["start"@, id@],
    {
        let mut v: Vec<String> = Vec::new();
        push_str(&mut v, "start");
        push_str(&mut v, id);
        let r = self.concat_args(&v);
        proof {
            assert(global_args_spec(*self) + views(v@) =~= global_args_spec(*self) + seq![
                "start"@,
                id@,
            ]);
        }
        r
    }

    /// The full argument vector of a `pause` invocation.
    pub fn pause_args(&self, id: &str) -> (r: Vec<String>)
        ensures
            views(r@) == global_args_spec(*self) + seq!["pause"@, id@],
    {
        let mut v: Vec<String> = Vec::new();
        push_str(&mut v, "pause");
        push_str(&mut v, id);
        let r = self.concat_args(&v);
        proof {
            assert(global_args_spec(*self) + views(v@) =~= global_args_spec(*self) + seq![
                "pause"@,
                id@,
            ]);
        }
        r
    }

    /// The full argument vector of a `resume` invocation.
    pub fn resume_args(&self, id: &str) -> (r: Vec<String>)
        ensures
            views(r@) == global_args_spec(*self) + seq!["resume"@, id@],
    {
        let mut v: Vec<String> = Vec::new();
        push_str(&mut v, "resume");
        push_str(&mut v, id);
        let r = self.concat_args(&v);
        proof {
            assert(global_args_spec(*self) + views(v@) =~= global_args_spec(*self) + seq![
                "resume"@,
                id@,
            ]);
        }
        r
    }

    /// The full argument vector of a `state` invocation.
    pub fn state_args(&self, id: &str) -> (r: Vec<String>)
        ensures
            views(r@) == global_args_spec(*self) + seq!["state"@, id@],
    {
        let mut v: Vec<String> = Vec::new();
        push_str(&mut v, "state");
        push_str(&mut v, id);
        let r = self.concat_args(&v);
        proof {
            assert(global_args_spec(*self) + views(v@) =~= global_args_spec(*self) + seq![
                "state"@,
                id@,
            ]);
        }
        r
    }

    /// The full argument vector of a `kill` invocation: the signal rides as
    /// decimal text.
    pub fn kill_args(&self, id: &str, sig: i32, opts: Option<&KillOpts>) -> (r: Vec<String>)
        ensures
            views(r@) == global_args_spec(*self) + seq!["kill"@] + (match opts {
                Some(o) => kill_opts_args_spec(*o),
                None => Seq::empty(),
            }) + seq![id@, dec_of(sig as int)],
    {
        let mut v: Vec<String> = Vec::new();
        push_str(&mut v, "kill");
        match opts {
            Some(o) => {
                if o.all {
                    push_str(&mut v, "--all");
                }
            },
            None => {},
        }
        push_str(&mut v, id);
        push_string(&mut v, strutil::i64_to_string(sig as i64));
        let r = self.concat_args(&v);
        proof {
            assert(global_args_spec(*self) + views(v@) =~= global_args_spec(*self) + seq![
                "kill"@
            ] + (match opts {
                Some(o) => kill_opts_args_spec(*o),
                None => Seq::<Seq<char>>::empty(),
            }) + seq![id@, dec_of(sig as int)]);
        }
        r
    }

    /// The full argument vector of an `exec` invocation: the process spec
    /// rides in a temporary file passed with `--process`.
    pub fn exec_args(&self, temp_file: &str, id: &str, opts: Option<&ExecOpts>) -> (r: Vec<
        String,
    >)
        ensures
            views(r@) == global_args_spec(*self) + seq!["exec"@, "--process"@, temp_file@]
                + (match opts {
                Some(o) => exec_opts_args_spec(*o),
                None => Seq::empty(),
            }) + seq![id@],
    {
        let mut v: Vec<String> = Vec::new();
        push_str(&mut v, "exec");
        push_str(&mut v, "--process");
        push_str(&mut v, temp_file);
        match opts {
            Some(o) => {
                let oa = o.args();
                let mut i: usize = 0;
                while i < oa.len()
                    invariant
                        i <= oa@.len(),
                        views(oa@) == exec_opts_args_spec(*o),
                        views(v@) == seq!["exec"@, "--process"@, temp_file@] + views(oa@).subrange(
                            0,
                            i as int,
                        ),
                    decreases oa@.len() - i,
                {
                    proof {
                        assert(views(oa@)[i as int] == oa@[i as int]@);
                    }
                    let ghost before = views(v@);
                    push_string(&mut v, strutil::clone_string(&oa[i]));
                    proof {
                        assert(before.push(views(oa@)[i as int]) =~= seq![
                            "exec"@,
                            "--process"@,
                            temp_file@,
                        ] + views(oa@).subrange(0, i + 1 as int));
                    }
                    i += 1;
                }
                proof {
                    assert(views(oa@).subrange(0, oa@.len() as int) =~= views(oa@));
                }
            },
            None => {},
        }
        push_str(&mut v, id);
        let r = self.concat_args(&v);
        proof {
            assert(global_args_spec(*self) + views(v@) =~= global_args_spec(*self) + seq![
                "exec"@,
                "--process"@,
                temp_file@,
            ] + (match opts {
                Some(o) => exec_opts_args_spec(*o),
                None => Seq::<Seq<char>>::empty(),
            }) + seq![id@]);
        }
        r
    }

    /// The full argument vector of an `update` invocation: the resources
    /// ride in a temporary file passed with `--resources`.
    pub fn update_args(&self, temp_file: &str, id: &str) -> (r: Vec<String>)
        ensures
            views(r@) == global_args_spec(*self) + seq![
                "update"@,
                "--resources"@,
                temp_file@,
                id@,
            ],
    {
        let mut v: Vec<String> = Vec::new();
        push_str(&mut v, "update");
        push_str(&mut v, "--resources");
        push_str(&mut v, temp_file);
        push_str(&mut v, id);
        let r = self.concat_args(&v);
        proof {
            assert(global_args_spec(*self) + views(v@) =~= global_args_spec(*self) + seq![
                "update"@,
                "--resources"@,
                temp_file@,
                id@,
            ]);
        }
        r
    }

    /// The full argument vector of a `ps` invocation in JSON form.
    pub fn ps_args(&self, id: &str) -> (r: Vec<String>)
        ensures
            views(r@) == global_args_spec(*self) + seq!["ps"@, "--format=json"@, id@],
    {
        let mut v: Vec<String> = Vec::new();
        push_str(&mut v, "ps");
        push_str(&mut v, "--format=json");
        push_str(&mut v, id);
        let r = self.concat_args(&v);
        proof {
            assert(global_args_spec(*self) + views(v@) =~= global_args_spec(*self) + seq![
                "ps"@,
                "--format=json"@,
                id@,
            ]);
        }
        r
    }

    /// The full argument vector of a `list` invocation in JSON form.
    pub fn list_args(&self) -> (r: Vec<String>)
        ensures
            views(r@) == global_args_spec(*self) + seq!["list"@, "--format=json"@],
    {
        let mut v: Vec<String> = Vec::new();
        push_str(&mut v, "list");
        push_str(&mut v, "--format=json");
        let r = self.concat_args(&v);
        proof {
            assert(global_args_spec(*self) + views(v@) =~= global_args_spec(*self) + seq![
                "list"@,
                "--format=json"@,
            ]);
        }
        r
    }

    /// The full argument vector of an `events` invocation with the given
    /// polling interval in seconds.
    pub fn events_args(&self, id: &str, interval_secs: u64) -> (r: Vec<String>)
        ensures
            views(r@) == global_args_spec(*self) + seq![
                "events"@,
                "--interval="@ + dec_digits(interval_secs as int) + "s"@,
                id@,
            ],
    {
        let mut v: Vec<String> = Vec::new();
        push_str(&mut v, "events");
        let mut interval = String::from_str("--interval=");
        let digits = strutil::u64_to_string(interval_secs);
        interval.append(digits.as_str());
        interval.append("s");
        push_string(&mut v, interval);
        push_str(&mut v, id);
        let r = self.concat_args(&v);
        proof {
            assert(global_args_spec(*self) + views(v@) =~= global_args_spec(*self) + seq![
                "events"@,
                "--interval="@ + dec_digits(interval_secs as int) + "s"@,
                id@,
            ]);
        }
        r
    }

    /// The full argument vector of a single-shot `events --stats` invocation.
    pub fn stats_args(&self, id: &str) -> (r: Vec<String>)
        ensures
            views(r@) == global_args_spec(*self) + seq!["events"@, "--stats"@, id@],
    {
        let mut v: Vec<String> = Vec::new();
        push_str(&mut v, "events");
        push_str(&mut v, "--stats");
        push_str(&mut v, id);
        let r = self.concat_args(&v);
        proof {
            assert(global_args_spec(*self) + views(v@) =~= global_args_spec(*self) + seq![
                "events"@,
                "--stats"@,
                id@,
            ]);
        }
        r
    }

    /// The full argument vector of a tabular `ps` invocation.
    pub fn top_args(&self, id: &str, ps_options: Option<&str>) -> (r: Vec<String>)
        ensures
            views(r@) == global_args_spec(*self) + seq!["ps"@, "--format"@, "table"@, id@]
                + (match ps_options {
                Some(o) => seq![o@],
                None => Seq::empty(),
            }),
    {
        let mut v: Vec<String> = Vec::new();
        push_str(&mut v, "ps");
        push_str(&mut v, "--format");
        push_str(&mut v, "table");
        push_str(&mut v, id);
        match ps_options {
            Some(o) => {
                push_str(&mut v, o);
            },
            None => {},
        }
        let r = self.concat_args(&v);
        proof {
            assert(global_args_spec(*self) + views(v@) =~= global_args_spec(*self) + seq![
                "ps"@,
                "--format"@,
                "table"@,
                id@,
            ] + (match ps_options {
                Some(o) => seq![o@],
                None => Seq::<Seq<char>>::empty(),
            }));
        }
        r
    }

    /// The full argument vector of a `--version` invocation.
    pub fn version_args(&self) -> (r: Vec<String>)
        ensures
            views(r@) == global_args_spec(*self) + seq!["--version"@],
    {
        let mut v: Vec<String> = Vec::new();
        push_str(&mut v, "--version");
        let r = self.concat_args(&v);
        proof {
            assert(global_args_spec(*self) + views(v@) =~= global_args_spec(*self) + seq![
                "--version"@,
            ]);
        }
        r
    }
}

/// How the blocking wait on the runtime subprocess ended.
pub enum ChildWait {
    /// The wait returned an exit status; `success` is "exit code zero".
    Exited { success: bool },
    /// The wait itself failed with the given errno.
    WaitError { errno: i32 },
}

/// What a finished runtime invocation means.
///
/// - A successful exit yields the output: both streams concatenated when
///   `combined_output` is set, stdout alone otherwise.
/// - A non-zero exit fails with both captured streams.
/// - A failed wait other than ECHILD fails with its message.
/// - On ECHILD the child was already reaped: `reaped` carries what the exit
///   table recorded for the child (after the caller's polling); a recorded
///   non-zero code fails with the captured streams, a zero code or no record
///   at all falls through to the output.
pub fn command_outcome(
    wait: ChildWait,
    wait_msg: String,
    reaped: Option<i32>,
    stdout: String,
    stderr: String,
    combined_output: bool,
) -> (r: Result<String, RuncError>)
    ensures
        ({
            let out = if combined_output {
                stdout@ + stderr@
            } else {
                stdout@
            };
            match wait {
                ChildWait::Exited { success } => {
                    if success {
                        r matches Ok(o) && o@ == out
                    } else {
                        r == Err::<String, RuncError>(
                            RuncError::CommandFailed { stdout, stderr },
                        )
                    }
                },
                ChildWait::WaitError { errno } => {
                    if errno != ECHILD {
                        r == Err::<String, RuncError>(RuncError::Command(wait_msg))
                    } else {
                        match reaped {
                            Some(code) => if code != 0 {
                                r == Err::<String, RuncError>(
                                    RuncError::CommandFailed { stdout, stderr },
                                )
                            } else {
                                r matches Ok(o) && o@ == out
                            },
                            None => r matches Ok(o) && o@ == out,
                        }
                    }
                },
            }
        }),
{
    let failed = match wait {
        ChildWait::Exited { success } => !success,
        ChildWait::WaitError { errno } => {
            if errno != ECHILD {
                return Err(RuncError::Command(wait_msg));
            }
            match reaped {
                Some(code) => code != 0,
                None => false,
            }
        },
    };
    if failed {
        return Err(RuncError::CommandFailed { stdout, stderr });
    }
    if combined_output {
        let mut combined = stdout;
        combined.append(stderr.as_str());
        Ok(combined)
    } else {
        Ok(stdout)
    }
}

/// Replaces a command error with the last error the runtime wrote to its
/// log file, when one was found there.
pub fn apply_runtime_log(e: RuncError, log_msg: Option<String>) -> (r: RuncError)
    ensures
        match log_msg {
            Some(m) => r == RuncError::Command(m),
            None => r == e,
        },
{
    match log_msg {
        Some(m) => RuncError::Command(m),
        None => e,
    }
}

/// What a JSON array of process ids decodes to; the result depends on the
/// text alone.
pub uninterp spec fn json_pids(s: Seq<char>) -> Option<Seq<usize>>;

/// Relies on serde_json::from_str::<Vec<usize>>: decodes a JSON array of
/// integers, or fails; which texts decode, and to what, is a function of
/// the text alone.
#[verifier::external_body]
fn json_parse_pids(s: &str) -> (r: Result<Vec<usize>, serde_json::Error>)
    ensures
        match r {
            Ok(v) => json_pids(s@) == Some(v@),
            Err(_) => json_pids(s@) is None,
        },
{
    serde_json::from_str(s)
}

/// The error type of the JSON decoder.
#[verifier::external_type_specification]
#[verifier::external_body]
pub struct ExJsonError(serde_json::Error);

/// Whether a JSON listing printed the literal `null`: the runtime's way
/// of reporting an empty list, which decodes to emptiness rather than an
/// error.
pub fn is_null_listing(output: &str) -> (r: bool)
    ensures
        r == (trim_spec(output@) == "null"@),
{
    let t = strutil::trim(output);
    strutil::str_eq(t.as_str(), "null")
}

/// Decodes the output of a JSON `ps` invocation into process ids. The
/// runtime prints the literal `null` for an empty container, which decodes
/// to no pids rather than an error.
pub fn parse_ps_output(output: &str) -> (r: Result<Vec<usize>, RuncError>)
    ensures
        ({
            let t = trim_spec(output@);
            if t == "null"@ {
                r matches Ok(v) && v@ == Seq::<usize>::empty()
            } else {
                match r {
                    Ok(v) => json_pids(t) == Some(v@),
                    Err(e) => json_pids(t) is None && e == RuncError::JsonDeserialization,
                }
            }
        }),
{
    if is_null_listing(output) {
        Ok(Vec::new())
    } else {
        let t = strutil::trim(output);
        match json_parse_pids(t.as_str()) {
            Ok(v) => Ok(v),
            Err(_) => Err(RuncError::JsonDeserialization),
        }
    }
}

/// What a string lowercases to; the result depends on the characters alone.
pub uninterp spec fn lower_of(s: Seq<char>) -> Seq<char>;

/// Relies on str::to_lowercase: the result depends on the characters alone.
#[verifier::external_body]
fn lowercase(s: &str) -> (r: String)
    ensures
        r@ == lower_of(s@),
{
    s.to_lowercase()
}

/// Classifies the error text of a failed kill: messages that mean the
/// process or container is already gone map to NotFound statuses, anything
/// else stays an internal error carrying the text as it came.
pub fn check_kill_error(emsg: String) -> (r: crate::errors::Status)
    ensures
        ({
            let l = lower_of(emsg@);
            if contains_seq(l, "process already finished"@) || contains_seq(
                l,
                "container not running"@,
            ) || contains_seq(l, "no such process"@) {
                r.code == crate::errors::Code::NotFound && r.message@
                    == "process already finished"@
            } else if contains_seq(l, "does not exist"@) {
                r.code == crate::errors::Code::NotFound && r.message@ == "no such container"@
            } else {
                r.code == crate::errors::Code::Internal && r.message@ == "unknown error after kill "@
                    + emsg@
            }
        }),
{
    let lower = lowercase(emsg.as_str());
    if strutil::contains_str(lower.as_str(), "process already finished") || strutil::contains_str(
        lower.as_str(),
        "container not running",
    ) || strutil::contains_str(lower.as_str(), "no such process") {
        crate::errors::ttrpc_error(
            crate::errors::Code::NotFound,
            String::from_str("process already finished"),
        )
    } else if strutil::contains_str(lower.as_str(), "does not exist") {
        crate::errors::ttrpc_error(
            crate::errors::Code::NotFound,
            String::from_str("no such container"),
        )
    } else {
        let mut m = String::from_str("unknown error after kill ");
        m.append(emsg.as_str());
        crate::errors::ttrpc_error(crate::errors::Code::Internal, m)
    }
}

/// The path of the transient file a process spec or resource update rides
/// in: the temp directory, `runc-process-`, and a fresh identifier.
pub fn temp_spec_path(temp_dir: &str, unique: &str) -> (r: String)
    ensures
        r@ == temp_dir@ + "/runc-process-"@ + unique@,
{
    let mut r = String::from_str(temp_dir);
    r.append("/runc-process-");
    r.append(unique);
    r
}


/// The three fields a version report may carry, as sequences.
pub struct VersionModel {
    pub runc_version: Option<Seq<char>>,
    pub spec_version: Option<Seq<char>>,
    pub commit: Option<Seq<char>>,
}

pub open spec fn version_model(v: Version) -> VersionModel {
    VersionModel {
        runc_version: match v.runc_version {
            Some(s) => Some(s@),
            None => None,
        },
        spec_version: match v.spec_version {
            Some(s) => Some(s@),
            None => None,
        },
        commit: match v.commit {
            Some(s) => Some(s@),
            None => None,
        },
    }
}

/// What the first `k` lines of a version report yield, processed in order:
/// a line naming `version` must carry text after `version `; a line naming
/// `spec` must carry text after `: `; a line naming `commit` may.
pub open spec fn version_fold(lines: Seq<Seq<char>>, k: int) -> Result<VersionModel, ()>
    decreases k,
{
    if k <= 0 {
        Ok(VersionModel { runc_version: None, spec_version: None, commit: None })
    } else {
        match version_fold(lines, k - 1) {
            Err(()) => Err(()),
            Ok(acc) => {
                let t = trim_spec(lines[k - 1]);
                if contains_seq(t, "version"@) {
                    match crate::io_setup::segment_after(t, "version "@) {
                        None => Err(()),
                        Some(x) => Ok(VersionModel { runc_version: Some(x), ..acc }),
                    }
                } else if contains_seq(t, "spec"@) {
                    match crate::io_setup::segment_after(t, ": "@) {
                        None => Err(()),
                        Some(x) => Ok(VersionModel { spec_version: Some(x), ..acc }),
                    }
                } else if contains_seq(t, "commit"@) {
                    Ok(VersionModel { commit: crate::io_setup::segment_after(t, ": "@), ..acc })
                } else {
                    Ok(acc)
                }
            },
        }
    }
}

/// A failed scan stays failed however many more lines are taken.
proof fn lemma_version_fold_err(lines: Seq<Seq<char>>, a: int, b: int)
    requires
        a <= b,
        (version_fold(lines, a) is Err),
    ensures
        version_fold(lines, b) is Err,
    decreases b - a,
{
    if a < b {
        lemma_version_fold_err(lines, a, b - 1);
    }
}

/// Decodes the output of a `--version` invocation: the first three lines
/// are scanned for the runtime version, the OCI spec version, and the
/// commit hash of a non-release build.
pub fn parse_version_output(output: &str) -> (r: Result<Version, RuncError>)
    ensures
        ({
            let lines = crate::strutil::split_char_spec(output@, '\n');
            let k = if lines.len() < 3 {
                lines.len() as int
            } else {
                3
            };
            match r {
                Ok(v) => version_fold(lines, k) == Ok::<_, ()>(version_model(v)),
                Err(e) => version_fold(lines, k) == Err::<VersionModel, _>(()) && e matches
                    RuncError::InvalidVersion,
            }
        }),
{
    proof {
        reveal_strlit("version");
        reveal_strlit("version ");
        reveal_strlit("spec");
        reveal_strlit("commit");
        reveal_strlit(": ");
    }
    let ghost lines = crate::strutil::split_char_spec(output@, '\n');
    let split = strutil::split_char(output, '\n');
    let mut version = Version { runc_version: None, spec_version: None, commit: None };
    let count = if split.len() < 3 {
        split.len()
    } else {
        3
    };
    let mut i: usize = 0;
    while i < count
        invariant
            i <= count,
            lines == crate::strutil::split_char_spec(output@, '\n'),
            count == (if lines.len() < 3 {
                lines.len() as int
            } else {
                3
            }),
            split@.map_values(|x: String| x@) == lines,
            split@.len() == lines.len(),
            version_fold(lines, i as int) == Ok::<_, ()>(version_model(version)),
            "version "@.len() == 8 && ": "@.len() == 2,
        decreases count - i,
    {
        proof {
            assert(lines[i as int] == split@[i as int]@);
        }
        let line = strutil::trim(split[i].as_str());
        if strutil::contains_str(line.as_str(), "version") {
            match crate::io_setup::segment_after_exec(line.as_str(), "version ") {
                Some(x) => {
                    version.runc_version = Some(x);
                },
                None => {
                    proof {
                        assert(version_fold(lines, i + 1) is Err);
                        lemma_version_fold_err(lines, i + 1, count as int);
                    }
                    return Err(RuncError::InvalidVersion);
                },
            }
        } else if strutil::contains_str(line.as_str(), "spec") {
            match crate::io_setup::segment_after_exec(line.as_str(), ": ") {
                Some(x) => {
                    version.spec_version = Some(x);
                },
                None => {
                    proof {
                        assert(version_fold(lines, i + 1) is Err);
                        lemma_version_fold_err(lines, i + 1, count as int);
                    }
                    return Err(RuncError::InvalidVersion);
                },
            }
        } else if strutil::contains_str(line.as_str(), "commit") {
            version.commit = crate::io_setup::segment_after_exec(line.as_str(), ": ");
        }
        i += 1;
    }
    Ok(version)
}


/// One decoded row of a tabular process listing: each header paired with
/// the row's field; everything from the last column on is joined with
/// spaces, because command lines contain whitespace.
pub open spec fn top_row(headers: Seq<Seq<char>>, fields: Seq<Seq<char>>) -> Seq<
    (Seq<char>, Seq<char>),
> {
    let process = fields.subrange(0, headers.len() - 1).push(
        join_with(fields.subrange(headers.len() - 1, fields.len() as int), ' '),
    );
    Seq::new(headers.len(), |j: int| (headers[j], process[j]))
}

/// The index of the column named `PID`, or -1.
pub open spec fn first_pid_index(headers: Seq<Seq<char>>) -> int
    decreases headers.len(),
{
    if headers.len() == 0 {
        -1
    } else if headers[0] == "PID"@ {
        0
    } else {
        let r = first_pid_index(headers.drop_first());
        if r == -1 {
            -1
        } else {
            r + 1
        }
    }
}

proof fn lemma_first_pid_from(headers: Seq<Seq<char>>, k: int)
    requires
        0 <= k <= headers.len(),
        forall|j: int| 0 <= j < k ==> headers[j] != "PID"@,
        k < headers.len() ==> headers[k] == "PID"@,
    ensures
        k < headers.len() ==> first_pid_index(headers) == k,
        k == headers.len() ==> first_pid_index(headers) == -1,
    decreases headers.len(),
{
    if headers.len() > 0 {
        if k == 0 {
        } else {
            assert(forall|j: int|
                0 <= j < headers.drop_first().len() ==> headers.drop_first()[j] == headers[j + 1]);
            lemma_first_pid_from(headers.drop_first(), k - 1);
        }
    }
}

/// What the data lines (everything after the header line) of a tabular
/// listing decode to, processed in order: empty lines and rows whose pid
/// column holds `-` are skipped; a row with fewer fields than the pid
/// column, or than the headers before the last, is refused.
pub open spec fn top_rows(
    lines: Seq<Seq<char>>,
    headers: Seq<Seq<char>>,
    pid_idx: int,
    k: int,
) -> Result<Seq<Seq<(Seq<char>, Seq<char>)>>, ()>
    decreases k,
{
    if k <= 1 {
        Ok(Seq::empty())
    } else {
        match top_rows(lines, headers, pid_idx, k - 1) {
            Err(()) => Err(()),
            Ok(acc) => {
                let line = lines[k - 1];
                if line.len() == 0 {
                    Ok(acc)
                } else {
                    let fields = crate::strutil::ws_tokens(line);
                    if fields.len() <= pid_idx || fields.len() + 1 < headers.len() {
                        Err(())
                    } else if fields[pid_idx] == "-"@ {
                        Ok(acc)
                    } else {
                        Ok(acc.push(top_row(headers, fields)))
                    }
                }
            },
        }
    }
}

/// The mathematical value of decoded rows.
pub open spec fn rows_model(r: Seq<Vec<(String, String)>>) -> Seq<Seq<(Seq<char>, Seq<char>)>> {
    r.map_values(
        |row: Vec<(String, String)>| row@.map_values(|p: (String, String)| (p.0@, p.1@)),
    )
}

/// A refused row stays refused however many more lines are taken.
proof fn lemma_top_rows_err(
    lines: Seq<Seq<char>>,
    headers: Seq<Seq<char>>,
    pid_idx: int,
    a: int,
    b: int,
)
    requires
        a <= b,
        (top_rows(lines, headers, pid_idx, a) is Err),
    ensures
        top_rows(lines, headers, pid_idx, b) is Err,
    decreases b - a,
{
    if a < b {
        lemma_top_rows_err(lines, headers, pid_idx, a, b - 1);
    }
}

/// Decodes the whitespace-tabular output of a process listing: the first
/// line names the columns (a `PID` column is required), each further line
/// is one process, and the last column is joined with spaces.
pub fn parse_top_output(output: &str) -> (r: Result<Vec<Vec<(String, String)>>, RuncError>)
    ensures
        ({
            let lines = crate::strutil::split_char_spec(output@, '\n');
            let headers = crate::strutil::ws_tokens(lines[0]);
            let pid_idx = first_pid_index(headers);
            match r {
                Ok(rows) => pid_idx >= 0 && top_rows(lines, headers, pid_idx, lines.len() as int)
                    == Ok::<_, ()>(rows_model(rows@)),
                Err(e) => {
                    &&& (pid_idx == -1 <==> (e matches RuncError::TopMissingPidHeader))
                    &&& (pid_idx >= 0 ==> (e matches RuncError::TopShortResponse) && top_rows(
                        lines,
                        headers,
                        pid_idx,
                        lines.len() as int,
                    ) == Err::<Seq<Seq<(Seq<char>, Seq<char>)>>, _>(()))
                },
            }
        }),
{
    proof {
        reveal_strlit("PID");
        reveal_strlit("-");
    }
    let ghost lines = crate::strutil::split_char_spec(output@, '\n');
    let split = strutil::split_char(output, '\n');
    let headers = strutil::ws_split(split[0].as_str());
    let ghost headersv = crate::strutil::ws_tokens(lines[0]);
    proof {
        assert(lines[0] == split@[0]@);
        assert(headers@.map_values(|x: String| x@) == headersv);
    }
    let hn = headers.len();
    let mut pid_index: usize = 0;
    let mut found = false;
    {
        let mut j: usize = 0;
        while j < hn && !found
            invariant
                j <= hn,
                hn == headersv.len(),
                headers@.map_values(|x: String| x@) == headersv,
                !found ==> forall|q: int| 0 <= q < j ==> headersv[q] != "PID"@,
                found ==> pid_index < j && headersv[pid_index as int] == "PID"@ && forall|q: int|
                    0 <= q < pid_index ==> headersv[q] != "PID"@,
            decreases hn - j,
        {
            proof {
                assert(headersv[j as int] == headers@[j as int]@);
            }
            if strutil::str_eq(headers[j].as_str(), "PID") {
                pid_index = j;
                found = true;
            }
            j += 1;
        }
    }
    if !found {
        proof {
            lemma_first_pid_from(headersv, headersv.len() as int);
        }
        return Err(RuncError::TopMissingPidHeader);
    }
    proof {
        lemma_first_pid_from(headersv, pid_index as int);
    }
    let mut rows: Vec<Vec<(String, String)>> = Vec::new();
    proof {
        assert(rows_model(rows@) =~= Seq::<Seq<(Seq<char>, Seq<char>)>>::empty());
    }
    let mut k: usize = 1;
    let n = split.len();
    while k < n
        invariant
            1 <= k <= n,
            n == lines.len(),
            lines == crate::strutil::split_char_spec(output@, '\n'),
            split@.map_values(|x: String| x@) == lines,
            headers@.map_values(|x: String| x@) == headersv,
            headersv == crate::strutil::ws_tokens(lines[0]),
            hn == headersv.len(),
            pid_index < hn,
            first_pid_index(headersv) == pid_index as int,
            top_rows(lines, headersv, pid_index as int, k as int) == Ok::<_, ()>(rows_model(
                rows@,
            )),
        decreases n - k,
    {
        proof {
            assert(lines[k as int] == split@[k as int]@);
        }
        let line = &split[k];
        if line.as_str().unicode_len() == 0 {
            k += 1;
            continue ;
        }
        let fields = strutil::ws_split(line.as_str());
        let ghost fieldsv = crate::strutil::ws_tokens(lines[k as int]);
        proof {
            assert(fields@.map_values(|x: String| x@) == fieldsv);
        }
        if fields.len() <= pid_index || fields.len() < hn - 1 {
            proof {
                assert(top_rows(lines, headersv, pid_index as int, k + 1) is Err);
                lemma_top_rows_err(lines, headersv, pid_index as int, k + 1, n as int);
            }
            return Err(RuncError::TopShortResponse);
        }
        proof {
            assert(fieldsv[pid_index as int] == fields@[pid_index as int]@);
        }
        if strutil::str_eq(fields[pid_index].as_str(), "-") {
            k += 1;
            continue ;
        }
        // the first columns come over as they are; the rest is one joined
        // last column
        let mut process: Vec<String> = Vec::new();
        let mut j: usize = 0;
        while j < hn - 1
            invariant
                j <= hn - 1,
                hn >= 1,
                fields@.len() + 1 >= hn,
                fields@.map_values(|x: String| x@) == fieldsv,
                process@.map_values(|x: String| x@) == fieldsv.subrange(0, j as int),
            decreases hn - 1 - j,
        {
            proof {
                assert(fieldsv[j as int] == fields@[j as int]@);
            }
            let ghost before = process@.map_values(|x: String| x@);
            process.push(strutil::clone_string(&fields[j]));
            proof {
                assert(process@.map_values(|x: String| x@) =~= before.push(fieldsv[j as int]));
                assert(before.push(fieldsv[j as int]) =~= fieldsv.subrange(0, j + 1 as int));
            }
            j += 1;
        }
        let mut tail: Vec<String> = Vec::new();
        let mut t: usize = hn - 1;
        while t < fields.len()
            invariant
                hn - 1 <= t <= fields@.len(),
                hn >= 1,
                fields@.map_values(|x: String| x@) == fieldsv,
                tail@.map_values(|x: String| x@) == fieldsv.subrange(hn - 1, t as int),
            decreases fields@.len() - t,
        {
            proof {
                assert(fieldsv[t as int] == fields@[t as int]@);
            }
            let ghost before = tail@.map_values(|x: String| x@);
            tail.push(strutil::clone_string(&fields[t]));
            proof {
                assert(tail@.map_values(|x: String| x@) =~= before.push(fieldsv[t as int]));
                assert(before.push(fieldsv[t as int]) =~= fieldsv.subrange(hn - 1, t + 1 as int));
            }
            t += 1;
        }
        proof {
            assert(fieldsv.subrange(hn - 1, fields@.len() as int) =~= fieldsv.subrange(
                hn - 1,
                fieldsv.len() as int,
            ));
        }
        let joined = strutil::join_char(&tail, ' ');
        let ghost before = process@.map_values(|x: String| x@);
        process.push(joined);
        proof {
            assert(process@.map_values(|x: String| x@) =~= before.push(
                crate::strutil::join_with(
                    fieldsv.subrange(hn - 1, fieldsv.len() as int),
                    ' ',
                ),
            ));
        }
        let mut row: Vec<(String, String)> = Vec::new();
        let mut q: usize = 0;
        while q < hn
            invariant
                q <= hn,
                hn == headersv.len(),
                headers@.map_values(|x: String| x@) == headersv,
                process@.map_values(|x: String| x@) == fieldsv.subrange(0, hn - 1).push(
                    crate::strutil::join_with(
                        fieldsv.subrange(hn - 1, fieldsv.len() as int),
                        ' ',
                    ),
                ),
                process@.len() == hn,
                row@.map_values(|p: (String, String)| (p.0@, p.1@)) == Seq::new(
                    q as nat,
                    |j: int| (headersv[j], top_row_field(headersv, fieldsv, j)),
                ),
            decreases hn - q,
        {
            proof {
                assert(headersv[q as int] == headers@[q as int]@);
                assert(process@.map_values(|x: String| x@)[q as int] == process@[q as int]@);
            }
            let ghost before = row@.map_values(|p: (String, String)| (p.0@, p.1@));
            row.push((strutil::clone_string(&headers[q]), strutil::clone_string(&process[q])));
            proof {
                assert(row@.map_values(|p: (String, String)| (p.0@, p.1@)) =~= before.push(
                    (headersv[q as int], top_row_field(headersv, fieldsv, q as int)),
                ));
                assert(before.push((headersv[q as int], top_row_field(headersv, fieldsv, q as int)))
                    =~= Seq::new(
                    (q + 1) as nat,
                    |j: int| (headersv[j], top_row_field(headersv, fieldsv, j)),
                ));
            }
            q += 1;
        }
        let ghost rows_before = rows_model(rows@);
        rows.push(row);
        proof {
            assert(row@.map_values(|p: (String, String)| (p.0@, p.1@)) =~= top_row(
                headersv,
                fieldsv,
            ));
            assert(rows_model(rows@) =~= rows_before.push(top_row(headersv, fieldsv)));
        }
        k += 1;
    }
    Ok(rows)
}

/// The value of one column of a decoded row.
pub open spec fn top_row_field(
    headers: Seq<Seq<char>>,
    fields: Seq<Seq<char>>,
    j: int,
) -> Seq<char> {
    fields.subrange(0, headers.len() - 1).push(
        join_with(fields.subrange(headers.len() - 1, fields.len() as int), ' '),
    )[j]
}


/// A decoded JSON value, carried through opaquely: the container records
/// of `state` and `list`, and the event payload of `stats`, hold outside
/// types (times, arbitrary maps), so their members stay with the binary.
#[verifier::external_type_specification]
#[verifier::external_body]
pub struct ExJsonValue(serde_json::Value);

/// Whether a text decodes as JSON; a function of the text alone.
pub uninterp spec fn json_decodes(s: Seq<char>) -> bool;

/// Relies on serde_json::from_str::<serde_json::Value>: whether the text
/// decodes is a function of the text alone; the value stays opaque.
#[verifier::external_body]
fn json_parse_value(s: &str) -> (r: Result<serde_json::Value, serde_json::Error>)
    ensures
        (r is Ok) == json_decodes(s@),
{
    serde_json::from_str(s)
}

/// How many elements a text decodes to as a JSON array, if it does; a
/// function of the text alone.
pub uninterp spec fn json_array_len(s: Seq<char>) -> Option<nat>;

/// Relies on serde_json::from_str::<Vec<serde_json::Value>>: whether the
/// text decodes as a JSON array, and to how many elements, is a function
/// of the text alone.
#[verifier::external_body]
fn json_parse_array(s: &str) -> (r: Result<Vec<serde_json::Value>, serde_json::Error>)
    ensures
        match r {
            Ok(v) => json_array_len(s@) == Some(v@.len() as nat),
            Err(_) => json_array_len(s@) is None,
        },
{
    serde_json::from_str(s)
}

/// Looks a member up in a decoded JSON value. The value is opaque, so
/// nothing is promised of the result.
pub assume_specification<I: serde_json::value::Index>[ serde_json::Value::get ](
    v: &serde_json::Value,
    index: I,
) -> (r: Option<&serde_json::Value>);

/// Decodes the output of a JSON `list` invocation: the literal `null`
/// means no containers; otherwise the records come back as opaque values,
/// one per container.
pub fn parse_list_output(output: &str) -> (r: Result<Vec<serde_json::Value>, RuncError>)
    ensures
        ({
            let t = trim_spec(output@);
            if t == "null"@ {
                r matches Ok(v) && v@.len() == 0
            } else {
                match r {
                    Ok(v) => json_array_len(t) == Some(v@.len() as nat),
                    Err(e) => (json_array_len(t) is None) && (e matches
                        RuncError::JsonDeserialization),
                }
            }
        }),
{
    if is_null_listing(output) {
        Ok(Vec::new())
    } else {
        let t = strutil::trim(output);
        match json_parse_array(t.as_str()) {
            Ok(v) => Ok(v),
            Err(_) => Err(RuncError::JsonDeserialization),
        }
    }
}

/// Decodes the output of a `state` invocation into the container record,
/// kept opaque for the binary to read.
pub fn parse_state_output(output: &str) -> (r: Result<serde_json::Value, RuncError>)
    ensures
        (r is Ok) <==> json_decodes(output@),
        (r matches Err(e) ==> e matches RuncError::JsonDeserialization),
{
    match json_parse_value(output) {
        Ok(v) => Ok(v),
        Err(_) => Err(RuncError::JsonDeserialization),
    }
}

/// Decodes the output of a single-shot `events --stats` invocation: the
/// event must decode and must carry a `stats` member, else the statistics
/// are missing. The decoded event is returned whole, opaque.
pub fn stats_outcome(output: &str) -> (r: Result<serde_json::Value, RuncError>)
    ensures
        !json_decodes(output@) <==> (r matches Err(e) && e matches RuncError::JsonDeserialization),
        json_decodes(output@) ==> ((r is Ok) || (r matches Err(e) && e matches
            RuncError::MissingContainerStats)),
{
    let v = match json_parse_value(output) {
        Ok(v) => v,
        Err(_) => {
            return Err(RuncError::JsonDeserialization);
        },
    };
    match v.get("stats") {
        Some(_) => Ok(v),
        None => Err(RuncError::MissingContainerStats),
    }
}

} // verus!
