//! The shim binary's command-line arguments: a fixed set of flags, each
//! either a valued option or a boolean switch. Parsing never learns new
//! flags; an unknown flag is reported to the caller, who prints usage and
//! exits.

use vstd::prelude::*;
use vstd::map::*;
use crate::strutil;

verus! {

/// A flag's value: a valued option (possibly unset) or a boolean switch.
#[derive(Debug, Clone)]
pub enum FlagValue {
    Opt(Option<String>),
    Flag(bool),
}

/// The mathematical value of a flag.
pub enum ValueModel {
    OptV(Option<Seq<char>>),
    FlagV(bool),
}

/// The mathematical value of an exec-level flag value.
pub open spec fn value_model(v: FlagValue) -> ValueModel {
    match v {
        FlagValue::Opt(o) => ValueModel::OptV(match o {
            Some(s) => Some(s@),
            None => None,
        }),
        FlagValue::Flag(b) => ValueModel::FlagV(b),
    }
}

/// The map modelled by a sequence of key/value entries; later entries win,
/// though the parser keeps keys unique.
pub open spec fn map_of(entries: Seq<(String, FlagValue)>) -> Map<Seq<char>, ValueModel>
    decreases entries.len(),
{
    if entries.len() == 0 {
        Map::empty()
    } else {
        map_of(entries.drop_last()).insert(entries.last().0@, value_model(entries.last().1))
    }
}

/// No two entries share a key.
pub open spec fn keys_unique(entries: Seq<(String, FlagValue)>) -> bool {
    forall|i: int, j: int| 0 <= i < j < entries.len() ==> entries[i].0@ != entries[j].0@
}

proof fn lemma_map_of_contains(entries: Seq<(String, FlagValue)>, k: Seq<char>)
    ensures
        map_of(entries).contains_key(k) <==> exists|i: int|
            0 <= i < entries.len() && entries[i].0@ == k,
    decreases entries.len(),
{
    if entries.len() > 0 {
        lemma_map_of_contains(entries.drop_last(), k);
        if map_of(entries).contains_key(k) {
            if entries.last().0@ != k {
                let i = choose|i: int|
                    0 <= i < entries.drop_last().len() && entries.drop_last()[i].0@ == k;
                assert(entries[i].0@ == k);
            }
        }
        if exists|i: int| 0 <= i < entries.len() && entries[i].0@ == k {
            let i = choose|i: int| 0 <= i < entries.len() && entries[i].0@ == k;
            if i < entries.len() - 1 {
                assert(entries.drop_last()[i].0@ == k);
            }
        }
    }
}

proof fn lemma_map_of_index(entries: Seq<(String, FlagValue)>, i: int)
    requires
        keys_unique(entries),
        0 <= i < entries.len(),
    ensures
        map_of(entries).contains_key(entries[i].0@),
        map_of(entries)[entries[i].0@] == value_model(entries[i].1),
    decreases entries.len(),
{
    lemma_map_of_contains(entries, entries[i].0@);
    if i == entries.len() - 1 {
    } else {
        assert(entries[i].0@ != entries.last().0@);
        assert(entries.drop_last()[i] == entries[i]);
        lemma_map_of_index(entries.drop_last(), i);
    }
}

/// The parsed command line: flag name to value.
pub struct Arguments {
    params: Vec<(String, FlagValue)>,
}

impl Arguments {
    /// The entries are well formed: keys unique.
    pub closed spec fn wf(self) -> bool {
        keys_unique(self.params@)
    }

    /// The flag map this argument set denotes.
    pub closed spec fn as_map(self) -> Map<Seq<char>, ValueModel> {
        map_of(self.params@)
    }

    fn get_index(&self, name: &str) -> (r: Option<usize>)
        requires
            self.wf(),
        ensures
            match r {
                Some(i) => i < self.params@.len() && self.params@[i as int].0@ == name@
                    && self.as_map().contains_key(name@) && self.as_map()[name@] == value_model(
                    self.params@[i as int].1,
                ),
                None => !self.as_map().contains_key(name@),
            },
    {
        let n = self.params.len();
        let mut i: usize = 0;
        while i < n
            invariant
                i <= n,
                n == self.params@.len(),
                self.wf(),
                forall|j: int| 0 <= j < i ==> self.params@[j].0@ != name@,
            decreases n - i,
        {
            if strutil::str_eq(self.params[i].0.as_str(), name) {
                proof {
                    lemma_map_of_index(self.params@, i as int);
                }
                return Some(i);
            }
            i += 1;
        }
        proof {
            lemma_map_of_contains(self.params@, name@);
        }
        None
    }

    /// A fresh argument set holding every flag the shim understands, with
    /// its default.
    pub fn new() -> (r: Arguments)
        ensures
            r.wf(),
            r.as_map().contains_key("namespace"@) && r.as_map()["namespace"@]
                == ValueModel::OptV(None),
            r.as_map().contains_key("workdir"@) && r.as_map()["workdir"@] == ValueModel::OptV(
                None,
            ),
            r.as_map().contains_key("address"@) && r.as_map()["address"@] == ValueModel::OptV(
                None,
            ),
            r.as_map().contains_key("containerd-binary"@) && r.as_map()["containerd-binary"@]
                == ValueModel::OptV(None),
            r.as_map().contains_key("criu-path"@) && r.as_map()["criu-path"@] == ValueModel::OptV(
                None,
            ),
            r.as_map().contains_key("runtime-root"@) && r.as_map()["runtime-root"@]
                == ValueModel::OptV(Some("/run/containerd/runc"@)),
            r.as_map().contains_key("systemd-cgroup"@) && r.as_map()["systemd-cgroup"@]
                == ValueModel::FlagV(false),
            r.as_map().contains_key("debug"@) && r.as_map()["debug"@] == ValueModel::FlagV(false),
            r.as_map().dom() =~= set![
                "namespace"@,
                "workdir"@,
                "address"@,
                "containerd-binary"@,
                "criu-path"@,
                "runtime-root"@,
                "systemd-cgroup"@,
                "debug"@,
            ],
    {
        let mut params: Vec<(String, FlagValue)> = Vec::new();
        params.push((String::from_str("namespace"), FlagValue::Opt(None)));
        params.push((String::from_str("workdir"), FlagValue::Opt(None)));
        params.push((String::from_str("address"), FlagValue::Opt(None)));
        params.push((String::from_str("containerd-binary"), FlagValue::Opt(None)));
        params.push((String::from_str("criu-path"), FlagValue::Opt(None)));
        params.push(
            (
                String::from_str("runtime-root"),
                FlagValue::Opt(Some(String::from_str("/run/containerd/runc"))),
            ),
        );
        params.push((String::from_str("systemd-cgroup"), FlagValue::Flag(false)));
        params.push((String::from_str("debug"), FlagValue::Flag(false)));
        let r = Arguments { params };
        proof {
            reveal_strlit("namespace");
            reveal_strlit("workdir");
            reveal_strlit("address");
            reveal_strlit("containerd-binary");
            reveal_strlit("criu-path");
            reveal_strlit("runtime-root");
            reveal_strlit("systemd-cgroup");
            reveal_strlit("debug");
            assert(r.params@.len() == 8);
            assert(r.params@[0].0@ == "namespace"@);
            assert(r.params@[1].0@ == "workdir"@);
            assert(r.params@[2].0@ == "address"@);
            assert(r.params@[3].0@ == "containerd-binary"@);
            assert(r.params@[4].0@ == "criu-path"@);
            assert(r.params@[5].0@ == "runtime-root"@);
            assert(r.params@[6].0@ == "systemd-cgroup"@);
            assert(r.params@[7].0@ == "debug"@);
            assert("namespace"@ != "criu-path"@) by {
                assert("namespace"@[0] == 'n');
                assert("criu-path"@[0] == 'c');
            }
            assert("workdir"@ != "address"@) by {
                assert("workdir"@[0] == 'w');
                assert("address"@[0] == 'a');
            }
            assert(keys_unique(r.params@));
            assert forall|i: int| 0 <= i < r.params@.len() implies r.as_map().contains_key(
                r.params@[i].0@,
            ) && r.as_map()[r.params@[i].0@] == value_model(r.params@[i].1) by {
                lemma_map_of_index(r.params@, i);
            }
            lemma_map_of_contains(r.params@, "namespace"@);
            assert(r.as_map().dom() =~= set![
                "namespace"@,
                "workdir"@,
                "address"@,
                "containerd-binary"@,
                "criu-path"@,
                "runtime-root"@,
                "systemd-cgroup"@,
                "debug"@,
            ]) by {
                assert forall|k: Seq<char>| r.as_map().contains_key(k) implies set![
                    "namespace"@,
                    "workdir"@,
                    "address"@,
                    "containerd-binary"@,
                    "criu-path"@,
                    "runtime-root"@,
                    "systemd-cgroup"@,
                    "debug"@,
                ].contains(k) by {
                    lemma_map_of_contains(r.params@, k);
                }
            }
        }
        r
    }

    /// The value of a valued flag, if the flag exists and was given a value.
    pub fn value_of(&self, name: &str) -> (r: Option<String>)
        requires
            self.wf(),
        ensures
            match r {
                Some(v) => self.as_map().contains_key(name@) && self.as_map()[name@]
                    == ValueModel::OptV(Some(v@)),
                None => !self.as_map().contains_key(name@) || !(self.as_map()[name@] matches
                ValueModel::OptV(Some(_))),
            },
    {
        match self.get_index(name) {
            Some(i) => match &self.params[i].1 {
                FlagValue::Opt(Some(v)) => Some(strutil::clone_string(v)),
                _ => None,
            },
            None => None,
        }
    }

    /// Whether a boolean switch is set; false for unknown or valued flags.
    pub fn is_present(&self, name: &str) -> (r: bool)
        requires
            self.wf(),
        ensures
            r == (self.as_map().contains_key(name@) && self.as_map()[name@]
                == ValueModel::FlagV(true)),
    {
        match self.get_index(name) {
            Some(i) => match &self.params[i].1 {
                FlagValue::Flag(b) => *b,
                _ => false,
            },
            None => false,
        }
    }
}

/// One step of parsing: what the command line from position `i` on does to
/// the flag map. A valued flag consumes the following argument; a switch is
/// set to true; an argument without a leading dash is skipped; the first
/// unknown flag stops parsing with its name.
pub open spec fn parse_from(
    m: Map<Seq<char>, ValueModel>,
    args: Seq<Seq<char>>,
    i: int,
) -> Result<Map<Seq<char>, ValueModel>, Seq<char>>
    decreases args.len() - i,
{
    if i < 0 || i >= args.len() {
        Ok(m)
    } else {
        let a = args[i];
        if a.len() > 0 && a[0] == '-' {
            let name = a.subrange(1, a.len() as int);
            if m.contains_key(name) {
                match m[name] {
                    ValueModel::OptV(_) => if i + 1 < args.len() {
                        parse_from(m.insert(name, ValueModel::OptV(Some(args[i + 1]))), args, i + 2)
                    } else {
                        Ok(m.insert(name, ValueModel::OptV(None)))
                    },
                    ValueModel::FlagV(_) => parse_from(
                        m.insert(name, ValueModel::FlagV(true)),
                        args,
                        i + 1,
                    ),
                }
            } else {
                Err(name)
            }
        } else {
            parse_from(m, args, i + 1)
        }
    }
}

impl Arguments {
    fn set_value(&mut self, i: usize, v: FlagValue)
        requires
            old(self).wf(),
            i < old(self).params@.len(),
        ensures
            final(self).wf(),
            final(self).as_map() == old(self).as_map().insert(
                old(self).params@[i as int].0@,
                value_model(v),
            ),
            final(self).params@.len() == old(self).params@.len(),
            forall|j: int|
                0 <= j < final(self).params@.len() ==> final(self).params@[j].0@ == old(
                    self,
                ).params@[j].0@,
    {
        let ghost old_entries = self.params@;
        let key_owned = strutil::clone_string(&self.params[i].0);
        self.params.set(i, (key_owned, v));
        proof {
            let entries = self.params@;
            let k = old_entries[i as int].0@;
            assert(entries.len() == old_entries.len());
            assert(forall|j: int| 0 <= j < entries.len() ==> entries[j].0@ == old_entries[j].0@);
            assert(keys_unique(entries));
            let target = map_of(old_entries).insert(k, value_model(v));
            assert forall|q: Seq<char>| #[trigger] self.as_map().contains_key(q) implies
                target.contains_key(q) by {
                lemma_map_of_contains(entries, q);
                let j = choose|j: int| 0 <= j < entries.len() && entries[j].0@ == q;
                if q != k {
                    assert(old_entries[j].0@ == q);
                    lemma_map_of_contains(old_entries, q);
                }
            }
            assert forall|q: Seq<char>| #[trigger] target.contains_key(q) implies
                self.as_map().contains_key(q) by {
                if q == k {
                    assert(entries[i as int].0@ == q);
                } else {
                    lemma_map_of_contains(old_entries, q);
                    let j = choose|j: int| 0 <= j < old_entries.len() && old_entries[j].0@ == q;
                    assert(entries[j].0@ == q);
                }
                lemma_map_of_contains(entries, q);
            }
            assert forall|q: Seq<char>| #[trigger] self.as_map().contains_key(q) implies
                self.as_map()[q] == target[q] by {
                lemma_map_of_contains(entries, q);
                let j = choose|j: int| 0 <= j < entries.len() && entries[j].0@ == q;
                lemma_map_of_index(entries, j);
                if q == k {
                    assert(j == i as int);
                } else {
                    assert(j != i as int);
                    assert(old_entries[j] == entries[j]);
                    lemma_map_of_index(old_entries, j);
                }
            }
            assert(self.as_map() =~= target);
        }
    }

    /// Parses the given command line (its first element is the program name
    /// and is skipped). On the first unknown flag, parsing stops and the
    /// flag's name is returned; the caller prints usage and exits.
    pub fn parse(&mut self, args: &Vec<String>) -> (r: Result<(), String>)
        requires
            old(self).wf(),
        ensures
            final(self).wf(),
            match r {
                Ok(()) => parse_from(old(self).as_map(), args@.map_values(|s: String| s@), 1)
                    == Ok::<_, Seq<char>>(final(self).as_map()),
                Err(name) => parse_from(old(self).as_map(), args@.map_values(|s: String| s@), 1)
                    == Err::<Map<Seq<char>, ValueModel>, _>(name@),
            },
    {
        let ghost argseq = args@.map_values(|s: String| s@);
        let ghost m0 = self.as_map();
        let mut i: usize = 1;
        while i < args.len()
            invariant
                self.wf(),
                1 <= i,
                m0 == old(self).as_map(),
                argseq == args@.map_values(|s: String| s@),
                argseq.len() == args@.len(),
                forall|j: int| 0 <= j < args@.len() ==> argseq[j] == args@[j]@,
                parse_from(m0, argseq, 1) == parse_from(self.as_map(), argseq, i as int),
            decreases args.len() - i,
        {
            let ghost i0 = i as int;
            let ghost m_before = self.as_map();
            let a = &args[i];
            proof {
                assert(argseq[i0] == a@);
            }
            let alen = a.as_str().unicode_len();
            if alen > 0 && a.as_str().get_char(0) == '-' {
                let name = a.as_str().substring_char(1, alen);
                proof {
                    assert(name@ == argseq[i0].subrange(1, argseq[i0].len() as int));
                }
                match self.get_index(name) {
                    Some(idx) => {
                        let is_opt = value_is_opt(&self.params[idx]);
                        let ghost key = self.params@[idx as int].0@;
                        proof {
                            assert(key == name@);
                            assert(m_before[name@] == value_model(self.params@[idx as int].1));
                        }
                        if is_opt {
                            if i + 1 < args.len() {
                                let v = strutil::clone_string(&args[i + 1]);
                                self.set_value(idx, FlagValue::Opt(Some(v)));
                                proof {
                                    assert(argseq[i0 + 1] == args@[i0 + 1]@);
                                    assert(self.as_map() == m_before.insert(
                                        name@,
                                        ValueModel::OptV(Some(argseq[i0 + 1])),
                                    ));
                                    assert(parse_from(m_before, argseq, i0) == parse_from(
                                        self.as_map(),
                                        argseq,
                                        i0 + 2,
                                    ));
                                }
                                i += 2;
                            } else {
                                self.set_value(idx, FlagValue::Opt(None));
                                proof {
                                    assert(self.as_map() == m_before.insert(
                                        name@,
                                        ValueModel::OptV(None),
                                    ));
                                    assert(parse_from(m_before, argseq, i0) == Ok::<_, Seq<char>>(
                                        self.as_map(),
                                    ));
                                }
                                return Ok(());
                            }
                        } else {
                            self.set_value(idx, FlagValue::Flag(true));
                            proof {
                                assert(self.as_map() == m_before.insert(
                                    name@,
                                    ValueModel::FlagV(true),
                                ));
                                assert(parse_from(m_before, argseq, i0) == parse_from(
                                    self.as_map(),
                                    argseq,
                                    i0 + 1,
                                ));
                            }
                            i += 1;
                        }
                    },
                    None => {
                        proof {
                            assert(parse_from(m_before, argseq, i0) == Err::<
                                Map<Seq<char>, ValueModel>,
                                _,
                            >(name@));
                        }
                        let owned = String::from_str(name);
                        return Err(owned);
                    },
                }
            } else {
                proof {
                    assert(!(argseq[i0].len() > 0 && argseq[i0][0] == '-'));
                    assert(parse_from(m_before, argseq, i0) == parse_from(
                        m_before,
                        argseq,
                        i0 + 1,
                    ));
                }
                i += 1;
            }
        }
        Ok(())
    }
}

/// Whether a flag entry is a valued option (as opposed to a switch).
fn value_is_opt(entry: &(String, FlagValue)) -> (r: bool)
    ensures
        r == (value_model(entry.1) matches ValueModel::OptV(_)),
{
    match &entry.1 {
        FlagValue::Opt(_) => true,
        FlagValue::Flag(_) => false,
    }
}

} // verus!
