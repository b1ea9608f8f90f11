//! Mount option handling: translating option strings into mount flag bits
//! and data strings, compacting over-long overlay `lowerdir=` options, and
//! planning the mount syscalls a rootfs mount needs. The syscalls themselves
//! are performed by the unverified binary, which walks the returned plan.

use vstd::prelude::*;
use vstd::string::StrSliceExecFns;
use vstd::string::StringExecFns;
use crate::strutil;
use crate::strutil::{is_prefix_of, split_char_spec, join_with};

verus! {

// Mount flag bits, with the values the kernel ABI gives the MS_* constants.
pub const MS_RDONLY: u64 = 1;
pub const MS_NOSUID: u64 = 2;
pub const MS_NODEV: u64 = 4;
pub const MS_NOEXEC: u64 = 8;
pub const MS_SYNCHRONOUS: u64 = 16;
pub const MS_REMOUNT: u64 = 32;
pub const MS_MANDLOCK: u64 = 64;
pub const MS_DIRSYNC: u64 = 128;
pub const MS_NOATIME: u64 = 1024;
pub const MS_NODIRATIME: u64 = 2048;
pub const MS_BIND: u64 = 4096;
pub const MS_REC: u64 = 16384;
pub const MS_SILENT: u64 = 32768;
pub const MS_UNBINDABLE: u64 = 131072;
pub const MS_PRIVATE: u64 = 262144;
pub const MS_SLAVE: u64 = 524288;
pub const MS_SHARED: u64 = 1048576;
pub const MS_RELATIME: u64 = 2097152;
pub const MS_STRICTATIME: u64 = 16777216;

/// The propagation-type bits, handled by a separate mount call.
pub const MS_PTYPES: u64 = MS_SHARED | MS_PRIVATE | MS_SLAVE | MS_UNBINDABLE;

// Errno values the unmount retry policy distinguishes.
pub const EBUSY: i32 = 16;
pub const EINVAL: i32 = 22;

/// How an option name maps to a flag bit: `clear` means the bit is removed.
#[derive(Clone, Copy, Debug, PartialEq, Eq, Structural)]
pub struct MountPair {
    pub clear: bool,
    pub flag: u64,
}

impl MountPair {
    pub fn new(clear: bool, flag: u64) -> (r: MountPair)
        ensures
            r.clear == clear && r.flag == flag,
    {
        MountPair { clear, flag }
    }
}

/// The option-name table: which names toggle which mount flag bits.
/// A name with flag 0 (`defaults`) and every unknown name go to the data
/// string instead.
pub open spec fn mount_flag_table(name: Seq<char>) -> Option<MountPair> {
    if name == "async"@ {
        Some(MountPair { clear: true, flag: MS_SYNCHRONOUS })
    } else if name == "atime"@ {
        Some(MountPair { clear: true, flag: MS_NOATIME })
    } else if name == "bind"@ {
        Some(MountPair { clear: false, flag: MS_BIND })
    } else if name == "defaults"@ {
        Some(MountPair { clear: false, flag: 0 })
    } else if name == "dev"@ {
        Some(MountPair { clear: true, flag: MS_NODEV })
    } else if name == "diratime"@ {
        Some(MountPair { clear: true, flag: MS_NODIRATIME })
    } else if name == "dirsync"@ {
        Some(MountPair { clear: false, flag: MS_DIRSYNC })
    } else if name == "exec"@ {
        Some(MountPair { clear: true, flag: MS_NOEXEC })
    } else if name == "mand"@ {
        Some(MountPair { clear: false, flag: MS_MANDLOCK })
    } else if name == "noatime"@ {
        Some(MountPair { clear: false, flag: MS_NOATIME })
    } else if name == "nodev"@ {
        Some(MountPair { clear: false, flag: MS_NODEV })
    } else if name == "nodiratime"@ {
        Some(MountPair { clear: false, flag: MS_NODIRATIME })
    } else if name == "noexec"@ {
        Some(MountPair { clear: false, flag: MS_NOEXEC })
    } else if name == "nomand"@ {
        Some(MountPair { clear: true, flag: MS_MANDLOCK })
    } else if name == "norelatime"@ {
        Some(MountPair { clear: true, flag: MS_RELATIME })
    } else if name == "nostrictatime"@ {
        Some(MountPair { clear: true, flag: MS_STRICTATIME })
    } else if name == "nosuid"@ {
        Some(MountPair { clear: false, flag: MS_NOSUID })
    } else if name == "rbind"@ {
        Some(MountPair { clear: false, flag: MS_BIND | MS_REC })
    } else if name == "relatime"@ {
        Some(MountPair { clear: false, flag: MS_RELATIME })
    } else if name == "remount"@ {
        Some(MountPair { clear: false, flag: MS_REMOUNT })
    } else if name == "ro"@ {
        Some(MountPair { clear: false, flag: MS_RDONLY })
    } else if name == "rw"@ {
        Some(MountPair { clear: true, flag: MS_RDONLY })
    } else if name == "strictatime"@ {
        Some(MountPair { clear: false, flag: MS_STRICTATIME })
    } else if name == "suid"@ {
        Some(MountPair { clear: true, flag: MS_NOSUID })
    } else if name == "sync"@ {
        Some(MountPair { clear: false, flag: MS_SYNCHRONOUS })
    } else {
        None
    }
}

/// Looks an option name up in the flag table.
pub fn mount_flag_of(name: &str) -> (r: Option<MountPair>)
    ensures
        r == mount_flag_table(name@),
{
    if strutil::str_eq(name, "async") {
        Some(MountPair { clear: true, flag: MS_SYNCHRONOUS })
    } else if strutil::str_eq(name, "atime") {
        Some(MountPair { clear: true, flag: MS_NOATIME })
    } else if strutil::str_eq(name, "bind") {
        Some(MountPair { clear: false, flag: MS_BIND })
    } else if strutil::str_eq(name, "defaults") {
        Some(MountPair { clear: false, flag: 0 })
    } else if strutil::str_eq(name, "dev") {
        Some(MountPair { clear: true, flag: MS_NODEV })
    } else if strutil::str_eq(name, "diratime") {
        Some(MountPair { clear: true, flag: MS_NODIRATIME })
    } else if strutil::str_eq(name, "dirsync") {
        Some(MountPair { clear: false, flag: MS_DIRSYNC })
    } else if strutil::str_eq(name, "exec") {
        Some(MountPair { clear: true, flag: MS_NOEXEC })
    } else if strutil::str_eq(name, "mand") {
        Some(MountPair { clear: false, flag: MS_MANDLOCK })
    } else if strutil::str_eq(name, "noatime") {
        Some(MountPair { clear: false, flag: MS_NOATIME })
    } else if strutil::str_eq(name, "nodev") {
        Some(MountPair { clear: false, flag: MS_NODEV })
    } else if strutil::str_eq(name, "nodiratime") {
        Some(MountPair { clear: false, flag: MS_NODIRATIME })
    } else if strutil::str_eq(name, "noexec") {
        Some(MountPair { clear: false, flag: MS_NOEXEC })
    } else if strutil::str_eq(name, "nomand") {
        Some(MountPair { clear: true, flag: MS_MANDLOCK })
    } else if strutil::str_eq(name, "norelatime") {
        Some(MountPair { clear: true, flag: MS_RELATIME })
    } else if strutil::str_eq(name, "nostrictatime") {
        Some(MountPair { clear: true, flag: MS_STRICTATIME })
    } else if strutil::str_eq(name, "nosuid") {
        Some(MountPair { clear: false, flag: MS_NOSUID })
    } else if strutil::str_eq(name, "rbind") {
        Some(MountPair { clear: false, flag: MS_BIND | MS_REC })
    } else if strutil::str_eq(name, "relatime") {
        Some(MountPair { clear: false, flag: MS_RELATIME })
    } else if strutil::str_eq(name, "remount") {
        Some(MountPair { clear: false, flag: MS_REMOUNT })
    } else if strutil::str_eq(name, "ro") {
        Some(MountPair { clear: false, flag: MS_RDONLY })
    } else if strutil::str_eq(name, "rw") {
        Some(MountPair { clear: true, flag: MS_RDONLY })
    } else if strutil::str_eq(name, "strictatime") {
        Some(MountPair { clear: false, flag: MS_STRICTATIME })
    } else if strutil::str_eq(name, "suid") {
        Some(MountPair { clear: true, flag: MS_NOSUID })
    } else if strutil::str_eq(name, "sync") {
        Some(MountPair { clear: false, flag: MS_SYNCHRONOUS })
    } else {
        None
    }
}

/// The effect of one option name on the accumulated flag word.
pub open spec fn apply_opt_flag(acc: u64, name: Seq<char>) -> u64 {
    match mount_flag_table(name) {
        Some(p) => if p.flag == 0 {
            acc
        } else if p.clear {
            acc & !p.flag
        } else {
            acc | p.flag
        },
        None => acc,
    }
}

/// The flag word after the first `n` options were applied in order.
pub open spec fn flags_of_prefix(opts: Seq<Seq<char>>, n: int) -> u64
    decreases n,
{
    if n <= 0 {
        0
    } else {
        apply_opt_flag(flags_of_prefix(opts, n - 1), opts[n - 1])
    }
}

/// True iff an option goes to the data string rather than the flag word.
pub open spec fn is_data_opt(name: Seq<char>) -> bool {
    match mount_flag_table(name) {
        Some(p) => p.flag == 0,
        None => true,
    }
}

/// The options among the first `n` that go to the data string, in order.
pub open spec fn data_opts_prefix(opts: Seq<Seq<char>>, n: int) -> Seq<Seq<char>>
    decreases n,
{
    if n <= 0 {
        Seq::empty()
    } else {
        let rest = data_opts_prefix(opts, n - 1);
        if is_data_opt(opts[n - 1]) {
            rest.push(opts[n - 1])
        } else {
            rest
        }
    }
}

/// Translates mount options into a flag word and the comma-joined data
/// string of the options that are not flag names.
pub fn parse_mount_options(options: &Vec<String>) -> (r: (u64, String))
    ensures
        r.0 == flags_of_prefix(options@.map_values(|s: String| s@), options@.len() as int),
        r.1@ == join_with(
            data_opts_prefix(options@.map_values(|s: String| s@), options@.len() as int),
            ',',
        ),
{
    let ghost optv = options@.map_values(|s: String| s@);
    let mut flag: u64 = 0;
    let mut data: Vec<String> = Vec::new();
    let mut i: usize = 0;
    while i < options.len()
        invariant
            i <= options@.len(),
            optv == options@.map_values(|s: String| s@),
            flag == flags_of_prefix(optv, i as int),
            data@.map_values(|s: String| s@) == data_opts_prefix(optv, i as int),
        decreases options@.len() - i,
    {
        let opt = &options[i];
        match mount_flag_of(opt.as_str()) {
            Some(p) => {
                if p.flag == 0 {
                    data.push(strutil::clone_string(opt));
                    proof {
                        assert(data@.map_values(|s: String| s@) =~= data_opts_prefix(
                            optv,
                            i + 1 as int,
                        ));
                    }
                } else if p.clear {
                    flag = flag & !p.flag;
                } else {
                    flag = flag | p.flag;
                }
            },
            None => {
                data.push(strutil::clone_string(opt));
                proof {
                    assert(data@.map_values(|s: String| s@) =~= data_opts_prefix(
                        optv,
                        i + 1 as int,
                    ));
                }
            },
        }
        i += 1;
    }
    let joined = strutil::join_char(&data, ',');
    (flag, joined)
}

/// The summed byte length of the first `n` options.
pub open spec fn options_size_prefix(opts: Seq<Seq<char>>, n: int) -> int
    decreases n,
{
    if n <= 0 {
        0
    } else {
        options_size_prefix(opts, n - 1) + vstd::utf8::encode_utf8(opts[n - 1]).len()
    }
}

proof fn lemma_options_size_mono(opts: Seq<Seq<char>>, a: int, b: int)
    requires
        a <= b,
    ensures
        options_size_prefix(opts, a) <= options_size_prefix(opts, b),
    decreases b - a,
{
    if a < b {
        lemma_options_size_mono(opts, a, b - 1);
    }
}

/// The total byte length of all mount options: the size that is held against
/// the one-page limit on the mount data buffer.
pub fn options_size(opts: &Vec<String>) -> (r: usize)
    requires
        options_size_prefix(opts@.map_values(|s: String| s@), opts@.len() as int) <= usize::MAX,
    ensures
        r == options_size_prefix(opts@.map_values(|s: String| s@), opts@.len() as int),
{
    let ghost optv = opts@.map_values(|s: String| s@);
    let mut size: usize = 0;
    let mut i: usize = 0;
    while i < opts.len()
        invariant
            i <= opts@.len(),
            optv == opts@.map_values(|s: String| s@),
            size == options_size_prefix(optv, i as int),
            options_size_prefix(optv, opts@.len() as int) <= usize::MAX,
        decreases opts@.len() - i,
    {
        proof {
            lemma_options_size_mono(optv, i + 1, opts@.len() as int);
        }
        size = size + opts[i].as_str().len();
        i += 1;
    }
    size
}

/// The index of the first option that starts with `lowerdir=`, or -1.
pub open spec fn first_lowerdir_index(opts: Seq<Seq<char>>) -> int
    decreases opts.len(),
{
    if opts.len() == 0 {
        -1
    } else if is_prefix_of("lowerdir="@, opts[0]) {
        0
    } else {
        let r = first_lowerdir_index(opts.drop_first());
        if r == -1 {
            -1
        } else {
            r + 1
        }
    }
}

proof fn lemma_first_lowerdir_from(opts: Seq<Seq<char>>, k: int)
    requires
        0 <= k <= opts.len(),
        forall|j: int| 0 <= j < k ==> !is_prefix_of("lowerdir="@, opts[j]),
        k < opts.len() ==> is_prefix_of("lowerdir="@, opts[k]),
    ensures
        k < opts.len() ==> first_lowerdir_index(opts) == k,
        k == opts.len() ==> first_lowerdir_index(opts) == -1,
    decreases opts.len(),
{
    if opts.len() > 0 {
        if k == 0 {
        } else {
            assert(forall|j: int|
                0 <= j < opts.drop_first().len() ==> opts.drop_first()[j] == opts[j + 1]);
            lemma_first_lowerdir_from(opts.drop_first(), k - 1);
        }
    }
}

/// Finds the `lowerdir=` option and splits its value on `:`. Returns -1 and
/// no directories when no option carries a lower-directory list.
pub fn find_overlay_lower_dirs(options: &Vec<String>) -> (r: (i32, Vec<String>))
    requires
        options@.len() < i32::MAX,
    ensures
        r.0 == first_lowerdir_index(options@.map_values(|s: String| s@)),
        -1 <= r.0 < options@.len(),
        r.0 == -1 ==> r.1@.len() == 0,
        r.0 >= 0 ==> r.1@.len() >= 1,
        r.0 >= 0 ==> r.1@.map_values(|s: String| s@) == split_char_spec(
            options@.map_values(|s: String| s@)[r.0 as int].subrange(
                9,
                options@.map_values(|s: String| s@)[r.0 as int].len() as int,
            ),
            ':',
        ),
{
    let ghost optv = options@.map_values(|s: String| s@);
    proof {
        reveal_strlit("lowerdir=");
    }
    let mut i: usize = 0;
    while i < options.len()
        invariant
            i <= options@.len(),
            options@.len() < i32::MAX,
            optv == options@.map_values(|s: String| s@),
            forall|j: int| 0 <= j < i ==> !is_prefix_of("lowerdir="@, optv[j]),
        decreases options@.len() - i,
    {
        if strutil::starts_with(options[i].as_str(), "lowerdir=") {
            proof {
                reveal_strlit("lowerdir=");
                lemma_first_lowerdir_from(optv, i as int);
                assert("lowerdir="@.len() == 9);
            }
            let dirs = strutil::split_char_from(options[i].as_str(), 9, ':');
            return (i as i32, dirs);
        }
        i += 1;
    }
    proof {
        lemma_first_lowerdir_from(optv, options@.len() as int);
    }
    (-1, Vec::new())
}

/// The index of the last occurrence of `c` in `s`, or -1.
pub open spec fn last_index_of(s: Seq<char>, c: char) -> int
    decreases s.len(),
{
    if s.len() == 0 {
        -1
    } else if s.last() == c {
        s.len() - 1
    } else {
        last_index_of(s.drop_last(), c)
    }
}

/// The parent of a path string: the text before the last `/`; `/` itself
/// when the only `/` leads; the empty string for a path without `/`;
/// nothing for `/` or for an empty path. Trailing slashes are not stripped.
pub open spec fn parent_spec(s: Seq<char>) -> Option<Seq<char>> {
    if s.len() == 0 {
        None
    } else if s.len() == 1 && s[0] == '/' {
        None
    } else {
        let j = last_index_of(s, '/');
        if j == -1 {
            Some(Seq::empty())
        } else if j == 0 {
            Some(seq!['/'])
        } else {
            Some(s.subrange(0, j))
        }
    }
}

/// The parent of a path, executable form.
pub fn parent_of(s: &str) -> (r: Option<String>)
    ensures
        match r {
            Some(p) => parent_spec(s@) == Some(p@),
            None => parent_spec(s@) is None,
        },
{
    let n = s.unicode_len();
    if n == 0 {
        return None;
    }
    if n == 1 && s.get_char(0) == '/' {
        return None;
    }
    let mut last: Option<usize> = None;
    let mut i: usize = 0;
    while i < n
        invariant
            i <= n,
            n == s@.len(),
            match last {
                None => last_index_of(s@.subrange(0, i as int), '/') == -1,
                Some(j) => j < i && last_index_of(s@.subrange(0, i as int), '/') == j as int,
            },
        decreases n - i,
    {
        let ghost pre = s@.subrange(0, i as int);
        let c = s.get_char(i);
        proof {
            let ext = s@.subrange(0, i + 1 as int);
            assert(ext.drop_last() =~= pre);
            assert(ext.last() == s@[i as int]);
        }
        if c == '/' {
            last = Some(i);
        }
        i += 1;
    }
    proof {
        assert(s@.subrange(0, n as int) =~= s@);
    }
    match last {
        None => Some(String::new()),
        Some(j) => {
            if j == 0 {
                let mut p = String::new();
                strutil::push_char(&mut p, '/');
                proof {
                    assert(p@ =~= seq!['/']);
                }
                Some(p)
            } else {
                Some(strutil::substring_of(s, 0, j))
            }
        },
    }
}

/// True iff `p` is a prefix of every string in the list.
pub open spec fn common_prefix_of(p: Seq<char>, strs: Seq<Seq<char>>) -> bool {
    forall|i: int| 0 <= i < strs.len() ==> is_prefix_of(p, strs[i])
}

fn all_have_and_agree(strs: &Vec<String>, k: usize) -> (r: bool)
    requires
        strs@.len() >= 1,
        k < strs@[0]@.len(),
    ensures
        r == forall|i: int|
            0 <= i < strs@.len() ==> k < strs@[i]@.len() && strs@[i]@[k as int]
                == strs@[0]@[k as int],
{
    let c = strs[0].as_str().get_char(k);
    let mut i: usize = 1;
    while i < strs.len()
        invariant
            1 <= i <= strs@.len(),
            k < strs@[0]@.len(),
            c == strs@[0]@[k as int],
            forall|j: int|
                0 <= j < i ==> k < strs@[j]@.len() && strs@[j]@[k as int] == strs@[0]@[k as int],
        decreases strs@.len() - i,
    {
        let s = &strs[i];
        let n = s.as_str().unicode_len();
        if k >= n {
            return false;
        }
        if s.as_str().get_char(k) != c {
            return false;
        }
        proof {
            assert(strs@[i as int]@[k as int] == strs@[0]@[k as int]);
        }
        i += 1;
    }
    true
}

/// The longest string that is a prefix of every string in the list; empty
/// for an empty list.
pub fn longest_common_prefix(strs: &Vec<String>) -> (r: String)
    ensures
        strs@.len() == 0 ==> r@.len() == 0,
        strs@.len() >= 1 ==> common_prefix_of(r@, strs@.map_values(|s: String| s@)) && forall|
            p: Seq<char>,
        |
            common_prefix_of(p, strs@.map_values(|s: String| s@)) ==> #[trigger] p.len()
                <= r@.len(),
{
    let ghost sv = strs@.map_values(|s: String| s@);
    if strs.len() == 0 {
        return String::new();
    }
    let n0 = strs[0].as_str().unicode_len();
    let mut k: usize = 0;
    let mut done = false;
    let ghost mut stop_witness: int = 0;
    while !done
        invariant
            k <= n0,
            n0 == strs@[0]@.len(),
            strs@.len() >= 1,
            sv == strs@.map_values(|s: String| s@),
            forall|i: int|
                0 <= i < sv.len() ==> k <= sv[i].len() && forall|j: int|
                    0 <= j < k ==> sv[i][j] == sv[0][j],
            forall|i: int| 0 <= i < sv.len() ==> sv[i] == strs@[i]@,
            done ==> (k == n0 || !(forall|i: int|
                0 <= i < strs@.len() ==> k < strs@[i]@.len() && strs@[i]@[k as int]
                    == strs@[0]@[k as int])),
        decreases n0 - k + (if done { 0int } else { 1int }),
    {
        if k < n0 {
            if all_have_and_agree(strs, k) {
                k += 1;
            } else {
                done = true;
            }
        } else {
            done = true;
        }
    }
    let r = strutil::substring_of(strs[0].as_str(), 0, k);
    proof {
        assert forall|i: int| 0 <= i < sv.len() implies is_prefix_of(r@, sv[i]) by {
            assert(sv[i].subrange(0, k as int) =~= r@);
        }
        assert forall|p: Seq<char>| #[trigger] common_prefix_of(p, sv) implies p.len() <= r@.len() by {
            if p.len() > k {
                assert(is_prefix_of(p, sv[0]));
                if k == n0 {
                    assert(p.len() <= sv[0].len());
                } else {
                    let i = choose|i: int|
                        !(0 <= i < strs@.len() ==> k < strs@[i]@.len() && strs@[i]@[k as int]
                            == strs@[0]@[k as int]);
                    assert(0 <= i < sv.len() && (k >= sv[i].len() || sv[i][k as int]
                        != sv[0][k as int]));
                    assert(is_prefix_of(p, sv[i]));
                    assert(p[k as int] == sv[i].subrange(0, p.len() as int)[k as int]);
                    assert(p[k as int] == sv[i][k as int]);
                    assert(p[k as int] == sv[0].subrange(0, p.len() as int)[k as int]);
                    assert(p[k as int] == sv[0][k as int]);
                }
            }
        }
    }
    r
}


/// `p` is the longest common prefix of the strings.
pub open spec fn is_lcp(p: Seq<char>, strs: Seq<Seq<char>>) -> bool {
    common_prefix_of(p, strs) && forall|q: Seq<char>|
        common_prefix_of(q, strs) ==> #[trigger] q.len() <= p.len()
}

/// What compacting the `lowerdir=` option does: relates the option list to
/// the produced (chdir directory, rewritten option list) pair. When no
/// compaction applies, the chdir directory is empty and the rewritten list
/// degenerates as the cases below state.
pub open spec fn compact_rel(options: Seq<Seq<char>>, cdir: Seq<char>, vstr: Seq<Seq<char>>) -> bool {
    let idx = first_lowerdir_index(options);
    if idx == -1 {
        cdir.len() == 0 && vstr == seq![options[0]]
    } else {
        let dirs = split_char_spec(
            options[idx].subrange(9, options[idx].len() as int),
            ':',
        );
        if dirs.len() == 1 {
            cdir.len() == 0 && vstr == seq![options[0]]
        } else {
            exists|lcp: Seq<char>|
                #[trigger] is_lcp(lcp, dirs) && if lcp.len() == 0 {
                    cdir.len() == 0 && vstr == options
                } else {
                    match parent_spec(lcp) {
                        None => cdir.len() == 0 && vstr.len() == 0,
                        Some(par) => if par == seq!['/'] {
                            cdir.len() == 0 && vstr.len() == 0
                        } else {
                            cdir == par.push('/') && vstr == options.subrange(0, idx) + seq![
                                "lowerdir="@ + join_with(
                                    dirs.map_values(
                                        |d: Seq<char>| d.subrange(cdir.len() as int, d.len() as int),
                                    ),
                                    ':',
                                )
                            ]
                        },
                    }
                }
        }
    }
}

/// Rewrites an over-long overlay option list: the common parent of the
/// `lowerdir=` directories becomes a chdir target and the directories are
/// made relative to it. Returns the chdir directory (empty when nothing was
/// compacted) and the rewritten option list.
pub fn compact_lowerdir_option(options: &Vec<String>) -> (r: (String, Vec<String>))
    requires
        options@.len() >= 1,
        options@.len() < i32::MAX,
    ensures
        compact_rel(
            options@.map_values(|s: String| s@),
            r.0@,
            r.1@.map_values(|s: String| s@),
        ),
{
    let ghost optv = options@.map_values(|s: String| s@);
    let (idx, dirs) = find_overlay_lower_dirs(options);
    if idx == -1 || dirs.len() == 1 {
        let mut vstr: Vec<String> = Vec::new();
        vstr.push(strutil::clone_string(&options[0]));
        proof {
            assert(vstr@.map_values(|s: String| s@) =~= seq![optv[0]]);
        }
        return (String::new(), vstr);
    }
    let ghost dirv = dirs@.map_values(|s: String| s@);
    let commondir = longest_common_prefix(&dirs);
    proof {
        assert(idx >= 0);
        assert(dirv.len() == dirs@.len());
        assert(dirv.len() >= 1);
        assert(is_lcp(commondir@, dirv));
    }
    if commondir.as_str().unicode_len() == 0 {
        let mut vstr: Vec<String> = Vec::new();
        let mut i: usize = 0;
        while i < options.len()
            invariant
                i <= options@.len(),
                optv == options@.map_values(|s: String| s@),
                optv.len() == options@.len(),
                vstr@.map_values(|s: String| s@) == optv.subrange(0, i as int),
            decreases options@.len() - i,
        {
            proof {
                assert(optv[i as int] == options@[i as int]@);
            }
            let ghost old_map = vstr@.map_values(|s: String| s@);
            vstr.push(strutil::clone_string(&options[i]));
            proof {
                assert(vstr@.map_values(|s: String| s@) =~= old_map.push(optv[i as int]));
                assert(old_map.push(optv[i as int]) =~= optv.subrange(0, i + 1 as int));
            }
            i += 1;
        }
        proof {
            assert(optv.subrange(0, optv.len() as int) =~= optv);
        }
        return (String::new(), vstr);
    }
    let parent = match parent_of(commondir.as_str()) {
        None => {
            return (String::new(), Vec::new());
        },
        Some(p) => p,
    };
    if parent.as_str().unicode_len() == 1 && parent.as_str().get_char(0) == '/' {
        proof {
            assert(parent@ =~= seq!['/']);
        }
        return (String::new(), Vec::new());
    }
    proof {
        assert(parent@ != seq!['/']);
    }
    let mut cdir = parent;
    strutil::push_char(&mut cdir, '/');
    // The slashed common parent is no longer than the common prefix, which
    // in turn is no longer than any lower directory: stripping is in bounds.
    proof {
        lemma_parent_slash_len(commondir@);
        assert forall|i: int| 0 <= i < dirv.len() implies cdir@.len() <= dirv[i].len() by {
            assert(is_prefix_of(commondir@, dirv[i]));
        }
    }
    let clen = cdir.as_str().unicode_len();
    let mut newdirs: Vec<String> = Vec::new();
    let mut i: usize = 0;
    while i < dirs.len()
        invariant
            i <= dirs@.len(),
            dirv == dirs@.map_values(|s: String| s@),
            dirv.len() == dirs@.len(),
            clen == cdir@.len(),
            forall|j: int| 0 <= j < dirv.len() ==> clen <= dirv[j].len(),
            newdirs@.map_values(|s: String| s@) == dirv.map_values(
                |d: Seq<char>| d.subrange(clen as int, d.len() as int),
            ).subrange(0, i as int),
        decreases dirs@.len() - i,
    {
        let d = &dirs[i];
        let dl = d.as_str().unicode_len();
        proof {
            assert(dirv[i as int] == dirs@[i as int]@);
        }
        let ghost old_map = newdirs@.map_values(|s: String| s@);
        newdirs.push(strutil::substring_of(d.as_str(), clen, dl));
        proof {
            let g = |d: Seq<char>| d.subrange(clen as int, d.len() as int);
            assert(dirv.map_values(g)[i as int] == g(dirv[i as int]));
            assert(newdirs@.map_values(|s: String| s@) =~= old_map.push(g(dirv[i as int])));
            assert(old_map.push(g(dirv[i as int])) =~= dirv.map_values(g).subrange(
                0,
                i + 1 as int,
            ));
        }
        i += 1;
    }
    proof {
        let g = |d: Seq<char>| d.subrange(clen as int, d.len() as int);
        assert(dirv.map_values(g).subrange(0, dirv.len() as int) =~= dirv.map_values(g));
    }
    let mut vstr: Vec<String> = Vec::new();
    let mut k: usize = 0;
    let end = idx as usize;
    while k < end
        invariant
            k <= end,
            end <= options@.len(),
            optv == options@.map_values(|s: String| s@),
            optv.len() == options@.len(),
            vstr@.map_values(|s: String| s@) == optv.subrange(0, k as int),
        decreases end - k,
    {
        proof {
            assert(optv[k as int] == options@[k as int]@);
        }
        let ghost old_map = vstr@.map_values(|s: String| s@);
        vstr.push(strutil::clone_string(&options[k]));
        proof {
            assert(vstr@.map_values(|s: String| s@) =~= old_map.push(optv[k as int]));
            assert(old_map.push(optv[k as int]) =~= optv.subrange(0, k + 1 as int));
        }
        k += 1;
    }
    let joined = strutil::join_char(&newdirs, ':');
    let mut lowerdir = String::from_str("lowerdir=");
    lowerdir.append(joined.as_str());
    vstr.push(lowerdir);
    proof {
        let f = |s: String| s@;
        let g = |d: Seq<char>| d.subrange(clen as int, d.len() as int);
        assert(vstr@.map_values(f) =~= optv.subrange(0, idx as int) + seq![
            "lowerdir="@ + join_with(dirv.map_values(g), ':')
        ]);
    }
    (cdir, vstr)
}

/// The slashed parent of a nonempty path whose parent is neither missing
/// nor the root is no longer than the path itself. (When the path holds no
/// slash at all, its parent is empty and the slashed parent is just `/`.)
proof fn lemma_parent_slash_len(s: Seq<char>)
    requires
        s.len() > 0,
        (parent_spec(s) is Some),
        parent_spec(s) != Some(seq!['/']),
    ensures
        parent_spec(s).unwrap().push('/').len() <= s.len(),
{
    let j = last_index_of(s, '/');
    lemma_last_index_of(s, '/');
    if j == -1 {
    } else {
        assert(0 <= j < s.len() && s[j] == '/');
        if j == 0 {
            if s.len() == 1 {
                assert(parent_spec(s) is None);
            } else {
                assert(parent_spec(s) == Some(seq!['/']));
            }
            assert(false);
        }
    }
}

/// Characterizes the last occurrence index.
pub proof fn lemma_last_index_of(s: Seq<char>, c: char)
    ensures
        last_index_of(s, c) == -1 ==> (forall|j: int| 0 <= j < s.len() ==> s[j] != c),
        last_index_of(s, c) != -1 ==> 0 <= last_index_of(s, c) < s.len(),
        last_index_of(s, c) != -1 ==> s[last_index_of(s, c)] == c,
        last_index_of(s, c) != -1 ==> (forall|j: int|
            last_index_of(s, c) < j < s.len() ==> s[j] != c),
    decreases s.len(),
{
    if s.len() > 0 && s.last() != c {
        let t = s.drop_last();
        lemma_last_index_of(t, c);
        assert(forall|j: int| 0 <= j < t.len() ==> t[j] == s[j]);
    }
}

/// A planned mount syscall, as plain values.
pub struct MountCall {
    pub source: String,
    pub target: String,
    pub fstype: String,
    pub flags: u64,
    pub data: String,
}

/// The mathematical value of a planned mount syscall.
pub struct MountCallModel {
    pub source: Seq<char>,
    pub target: Seq<char>,
    pub fstype: Seq<char>,
    pub flags: u64,
    pub data: Seq<char>,
}

pub open spec fn call_model(c: MountCall) -> MountCallModel {
    MountCallModel {
        source: c.source@,
        target: c.target@,
        fstype: c.fstype@,
        flags: c.flags,
        data: c.data@,
    }
}

/// The syscalls a mount with the given flag word and data needs, in order:
/// the mount proper (skipped for a data-less remount), a propagation-type
/// change, and a read-only bind remount.
pub open spec fn mount_calls_spec(
    source: Seq<char>,
    target: Seq<char>,
    fstype: Seq<char>,
    flags: u64,
    data: Seq<char>,
) -> Seq<MountCallModel> {
    let oflags = flags & !MS_PTYPES;
    (if flags & MS_REMOUNT == 0 || data.len() > 0 {
        seq![MountCallModel { source, target, fstype, flags: oflags, data }]
    } else {
        Seq::empty()
    }) + (if flags & MS_PTYPES != 0 {
        seq![
            MountCallModel {
                source: Seq::empty(),
                target,
                fstype: Seq::empty(),
                flags: flags & (MS_PTYPES | MS_REC | MS_SILENT),
                data: Seq::empty(),
            }
        ]
    } else {
        Seq::empty()
    }) + (if oflags & (MS_BIND | MS_RDONLY) == MS_BIND | MS_RDONLY {
        seq![
            MountCallModel {
                source: Seq::empty(),
                target,
                fstype: Seq::empty(),
                flags: oflags & MS_REMOUNT,
                data: Seq::empty(),
            }
        ]
    } else {
        Seq::empty()
    })
}

fn mount_calls(source: &str, target: &str, fstype: &str, flags: u64, data: &str) -> (r: Vec<
    MountCall,
>)
    ensures
        r@.map_values(|c: MountCall| call_model(c)) == mount_calls_spec(
            source@,
            target@,
            fstype@,
            flags,
            data@,
        ),
{
    let oflags = flags & !MS_PTYPES;
    let mut calls: Vec<MountCall> = Vec::new();
    if flags & MS_REMOUNT == 0 || data.unicode_len() > 0 {
        calls.push(
            MountCall {
                source: String::from_str(source),
                target: String::from_str(target),
                fstype: String::from_str(fstype),
                flags: oflags,
                data: String::from_str(data),
            },
        );
    }
    if flags & MS_PTYPES != 0 {
        calls.push(
            MountCall {
                source: String::new(),
                target: String::from_str(target),
                fstype: String::new(),
                flags: flags & (MS_PTYPES | MS_REC | MS_SILENT),
                data: String::new(),
            },
        );
    }
    if oflags & (MS_BIND | MS_RDONLY) == MS_BIND | MS_RDONLY {
        calls.push(
            MountCall {
                source: String::new(),
                target: String::from_str(target),
                fstype: String::new(),
                flags: oflags & MS_REMOUNT,
                data: String::new(),
            },
        );
    }
    proof {
        assert(calls@.map_values(|c: MountCall| call_model(c)) =~= mount_calls_spec(
            source@,
            target@,
            fstype@,
            flags,
            data@,
        ));
    }
    calls
}

/// A planned rootfs component mount: the directory to change into first (for
/// a compacted overlay mount), the flag word and data string used, the
/// option list they came from, and the syscalls to make.
pub struct MountPlan {
    pub cdir: Option<String>,
    pub used_options: Vec<String>,
    pub flags: u64,
    pub data: String,
    pub calls: Vec<MountCall>,
}

/// The chdir directory of a plan as a character sequence; empty when none.
pub open spec fn plan_cdir(p: MountPlan) -> Seq<char> {
    match p.cdir {
        Some(c) => c@,
        None => Seq::empty(),
    }
}

/// Filesystem mount configuration for one rootfs component.
#[derive(Debug)]
pub struct Mount {
    pub filed_type: String,
    pub source: String,
    pub options: Vec<String>,
}

impl Mount {
    pub fn new(filed_type: String, source: String, options: Vec<String>) -> (r: Mount)
        ensures
            r.filed_type == filed_type,
            r.source == source,
            r.options == options,
    {
        Mount { filed_type, source, options }
    }

    /// Whether this mount's options must be compacted before mounting: an
    /// overlay mount whose options come close to the one-page limit of the
    /// mount data buffer.
    pub open spec fn needs_compacting(self, pagesize: int) -> bool {
        self.filed_type@ == "overlay"@ && options_size_prefix(
            self.options@.map_values(|s: String| s@),
            self.options@.len() as int,
        ) >= pagesize - 512
    }

    /// Plans the syscalls that mount this filesystem at `target`. The plan
    /// fails only when the mount data string would overrun a page.
    pub fn mount_plan(&self, target: &str, pagesize: usize) -> (r: Result<MountPlan, ()>)
        requires
            1024 <= pagesize,
            self.filed_type@ == "overlay"@ ==> self.options@.len() < i32::MAX
                && options_size_prefix(
                self.options@.map_values(|s: String| s@),
                self.options@.len() as int,
            ) <= usize::MAX,
        ensures
            ({
                let optv = self.options@.map_values(|s: String| s@);
                let compacting = self.needs_compacting(pagesize as int);
                match r {
                    Ok(plan) => {
                        let usedv = plan.used_options@.map_values(|s: String| s@);
                        let parsed = if plan_cdir(plan).len() > 0 {
                            usedv
                        } else {
                            optv
                        };
                        &&& compacting ==> compact_rel(optv, plan_cdir(plan), usedv)
                        &&& !compacting ==> (plan.cdir is None) && usedv == optv
                        &&& plan.flags == flags_of_prefix(parsed, parsed.len() as int)
                        &&& plan.data@ == join_with(
                            data_opts_prefix(parsed, parsed.len() as int),
                            ',',
                        )
                        &&& vstd::utf8::encode_utf8(plan.data@).len() as usize <= pagesize
                        &&& plan.calls@.map_values(|c: MountCall| call_model(c))
                            == mount_calls_spec(
                            self.source@,
                            target@,
                            self.filed_type@,
                            plan.flags,
                            plan.data@,
                        )
                    },
                    Err(()) => {
                        &&& !compacting ==> vstd::utf8::encode_utf8(
                            join_with(data_opts_prefix(optv, optv.len() as int), ','),
                        ).len() as usize > pagesize
                        &&& compacting ==> exists|cd: Seq<char>, used: Seq<Seq<char>>|
                            {
                                let parsed = if cd.len() > 0 {
                                    used
                                } else {
                                    optv
                                };
                                #[trigger] compact_rel(optv, cd, used) && vstd::utf8::encode_utf8(
                                    join_with(data_opts_prefix(parsed, parsed.len() as int), ','),
                                ).len() as usize > pagesize
                            }
                    },
                }
            }),
    {
        let ghost optv = self.options@.map_values(|s: String| s@);
        let is_overlay = strutil::str_eq(self.filed_type.as_str(), "overlay");
        let compacting = if is_overlay {
            options_size(&self.options) >= pagesize - 512
        } else {
            false
        };
        let mut cdir: Option<String> = None;
        let mut used: Vec<String> = Vec::new();
        if compacting {
            proof {
                // an empty option list sums to zero, below the page bound
                if self.options@.len() == 0 {
                    assert(options_size_prefix(optv, 0) == 0);
                    assert(false);
                }
            }
            let (cd, vstr) = compact_lowerdir_option(&self.options);
            if cd.as_str().unicode_len() > 0 {
                cdir = Some(cd);
            }
            used = vstr;
        } else {
            let mut i: usize = 0;
            while i < self.options.len()
                invariant
                    i <= self.options@.len(),
                    optv == self.options@.map_values(|s: String| s@),
                    optv.len() == self.options@.len(),
                    used@.map_values(|s: String| s@) == optv.subrange(0, i as int),
                decreases self.options@.len() - i,
            {
                proof {
                    assert(optv[i as int] == self.options@[i as int]@);
                }
                let ghost old_map = used@.map_values(|s: String| s@);
                used.push(strutil::clone_string(&self.options[i]));
                proof {
                    assert(used@.map_values(|s: String| s@) =~= old_map.push(optv[i as int]));
                    assert(old_map.push(optv[i as int]) =~= optv.subrange(0, i + 1 as int));
                }
                i += 1;
            }
            proof {
                assert(optv.subrange(0, optv.len() as int) =~= optv);
            }
        }
        let use_compacted = match &cdir {
            Some(_) => true,
            None => false,
        };
        let (flags, data) = if use_compacted {
            parse_mount_options(&used)
        } else {
            parse_mount_options(&self.options)
        };
        if data.as_str().len() > pagesize {
            proof {
                let cd = plan_cdir_of(&cdir);
                let usedv = used@.map_values(|s: String| s@);
                let parsed = if cd.len() > 0 {
                    usedv
                } else {
                    optv
                };
                if compacting {
                    assert(compact_rel(optv, cd, usedv));
                    assert(vstd::utf8::encode_utf8(
                        join_with(data_opts_prefix(parsed, parsed.len() as int), ','),
                    ).len() as usize > pagesize);
                } else {
                    assert(usedv == optv);
                }
            }
            return Err(());
        }
        let calls = mount_calls(
            self.source.as_str(),
            target,
            self.filed_type.as_str(),
            flags,
            data.as_str(),
        );
        Ok(MountPlan { cdir, used_options: used, flags, data, calls })
    }
}

/// The chdir view of an optional directory.
pub open spec fn plan_cdir_of(c: &Option<String>) -> Seq<char> {
    match c {
        Some(s) => s@,
        None => Seq::empty(),
    }
}

/// Whether a failed unmount should be retried: the target was busy and
/// fewer than fifty attempts were made.
pub fn umount_should_retry(err: i32, counter: u32) -> (r: bool)
    ensures
        r == (err == EBUSY && counter < 50),
{
    err == EBUSY && counter < 50
}

/// The result an unmount-all reports for the last unmount outcome: EINVAL
/// means "not mounted" and is success.
pub fn umount_all_result(ret: i32) -> (r: i32)
    ensures
        ret == EINVAL ==> r == 0,
        ret != EINVAL ==> r == ret,
{
    if ret == EINVAL {
        0
    } else {
        ret
    }
}

} // verus!
