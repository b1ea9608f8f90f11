//! Properties that hold across the library's pieces, stated and proved
//! once: the exactness of the lifecycle transition tables, the uniqueness
//! of a container's init process and of the exit table's pids, and the
//! equivalence of the explicit and the implicit fifo stdio scheme.

use vstd::prelude::*;
use crate::io_setup::{
    io_plan_spec, StdioModel, first_occ, scheme_split, lemma_first_occ_from,
};
use crate::reaper::{ExitInfo, exit_wf};
use crate::service::{ShimService, ProcessObj, service_wf};
use crate::state::{InitState, ExecState, TransitionEvent, init_table, exec_table};
use crate::strutil;

verus! {

/// The init table allows exactly the transitions of the lifecycle design:
/// a created process may start, stop or be deleted; a running one may stop
/// or pause; a paused one may start or stop; a stopped one may be deleted;
/// a deleted one allows nothing.
pub proof fn lemma_init_table_exact()
    ensures
        forall|s: InitState, e: TransitionEvent|
            #[trigger] init_table(s, e) is Some <==> ((s == InitState::Created || s
                == InitState::CreatedCheckpoint) && (e == TransitionEvent::Start || e
                == TransitionEvent::Stop || e == TransitionEvent::Delete) || s
                == InitState::Running && (e == TransitionEvent::Stop || e
                == TransitionEvent::Pause) || s == InitState::Paused && (e
                == TransitionEvent::Start || e == TransitionEvent::Stop) || s
                == InitState::Stopped && e == TransitionEvent::Delete),
{
}

/// The exec table allows exactly: a created exec may start, stop or be
/// deleted; a running one may stop; a stopped one may be deleted.
pub proof fn lemma_exec_table_exact()
    ensures
        forall|s: ExecState, e: TransitionEvent|
            #[trigger] exec_table(s, e) is Some <==> (s == ExecState::ExecCreated && (e
                == TransitionEvent::Start || e == TransitionEvent::Stop || e
                == TransitionEvent::Delete) || s == ExecState::ExecRunning && e
                == TransitionEvent::Stop || s == ExecState::ExecStopped && e
                == TransitionEvent::Delete),
{
}

/// While a container is in the map, its init process is unique: any two
/// init entries of a well-formed service are the same entry.
pub proof fn lemma_single_init(s: ShimService)
    requires
        service_wf(s),
    ensures
        forall|i: int, j: int|
            0 <= i < s.processes@.len() && 0 <= j < s.processes@.len() && ((
            #[trigger] s.processes@[i].1) matches ProcessObj::Init(_)) && ((
            #[trigger] s.processes@[j].1) matches ProcessObj::Init(_)) ==> i == j,
{
    assert forall|i: int, j: int|
        0 <= i < s.processes@.len() && 0 <= j < s.processes@.len() && ((
        #[trigger] s.processes@[i].1) matches ProcessObj::Init(_)) && ((
        #[trigger] s.processes@[j].1) matches ProcessObj::Init(_)) implies i == j by {
        if i != j {
            assert(s.processes@[i].0@ == s.processes@[j].0@);
        }
    }
}

/// A reaped pid appears at most once in the exit table until it is
/// consumed: any two entries for the same pid are the same entry.
pub proof fn lemma_exit_pid_unique(t: ExitInfo)
    requires
        exit_wf(t),
    ensures
        forall|i: int, j: int|
            0 <= i < t.entries@.len() && 0 <= j < t.entries@.len() && (#[trigger] t.entries@[i]).0
                == (#[trigger] t.entries@[j]).0 ==> i == j,
{
}

/// The implicit and the explicit fifo scheme agree: wiring the streams as
/// bare paths and wiring them as `fifo://` URIs select the same copying
/// plan, whose stored per-stream paths are exactly the bare paths.
pub proof fn lemma_fifo_scheme_equivalence(
    pin: Seq<char>,
    pout: Seq<char>,
    perr: Seq<char>,
    terminal: bool,
)
    requires
        pin.len() > 0 && pin[0] == '/',
        pout.len() > 0 && pout[0] == '/',
        perr.len() > 0 && perr[0] == '/',
        !strutil::contains_seq(pin, "://"@),
        !strutil::contains_seq(pout, "://"@),
        !strutil::contains_seq(perr, "://"@),
    ensures
        ({
            let direct = io_plan_spec(
                StdioModel { stdin: pin, stdout: pout, stderr: perr, terminal },
            );
            let with_scheme = io_plan_spec(
                StdioModel {
                    stdin: "fifo://"@ + pin,
                    stdout: "fifo://"@ + pout,
                    stderr: "fifo://"@ + perr,
                    terminal,
                },
            );
            &&& (direct matches Ok(d) && d.copy && d.stdio_path == (StdioModel {
                stdin: pin,
                stdout: pout,
                stderr: perr,
                terminal,
            }))
            &&& (with_scheme matches Ok(u) && u.copy && u.stdio_path == (StdioModel {
                stdin: pin,
                stdout: pout,
                stderr: perr,
                terminal,
            }))
        }),
{
    reveal_strlit("fifo://");
    reveal_strlit("fifo");
    reveal_strlit("binary");
    reveal_strlit("://");
    lemma_no_occurrence(pin);
    lemma_no_occurrence(pout);
    lemma_no_occurrence(perr);
    lemma_fifo_prefix_occurrence(pin);
    lemma_fifo_prefix_occurrence(pout);
    lemma_fifo_prefix_occurrence(perr);
    let upin = "fifo://"@ + pin;
    let upout = "fifo://"@ + pout;
    let uperr = "fifo://"@ + perr;
    assert(upout.len() > 0);
    assert(scheme_split(pout) is None);
    assert(scheme_split(upout) == Some((upout.subrange(0, 4), upout.subrange(7, upout.len() as int))));
    assert(upout.subrange(0, 4) =~= "fifo"@);
    assert(upout.subrange(7, upout.len() as int) =~= pout);
    assert(upin.subrange(7, upin.len() as int) =~= pin);
    assert(uperr.subrange(7, uperr.len() as int) =~= perr);
    // an absolute path is its own URI path component: the authority is empty
    lemma_absolute_path_component(pin);
    lemma_absolute_path_component(pout);
    lemma_absolute_path_component(perr);
}

/// A remainder that starts with `/` has an empty authority: its path
/// component is the whole remainder.
proof fn lemma_absolute_path_component(p: Seq<char>)
    requires
        p.len() > 0,
        p[0] == '/',
    ensures
        crate::io_setup::uri_path_of_rest(p) == p,
{
    assert(crate::strutil::first_index_of(p, '/') == 0);
    assert(p.subrange(0, p.len() as int) =~= p);
}

/// A string without `://` has no first occurrence of it.
proof fn lemma_no_occurrence(s: Seq<char>)
    requires
        !strutil::contains_seq(s, "://"@),
    ensures
        first_occ(s, "://"@) == -1,
{
    reveal_strlit("://");
    if s.len() >= 3 {
        lemma_first_occ_from(s, "://"@, s.len() - 2);
    } else {
        lemma_first_occ_from(s, "://"@, 0);
    }
}

/// Putting `fifo://` in front of a `://`-free path makes position 4 the
/// first occurrence of `://`.
proof fn lemma_fifo_prefix_occurrence(p: Seq<char>)
    requires
        !strutil::contains_seq(p, "://"@),
        p.len() > 0,
    ensures
        first_occ("fifo://"@ + p, "://"@) == 4,
{
    reveal_strlit("fifo://");
    reveal_strlit("://");
    let u = "fifo://"@ + p;
    assert(u.len() == 7 + p.len());
    assert(u.subrange(4, 7) =~= "://"@);
    assert(strutil::occurs_at(u, "://"@, 4));
    assert forall|j: int| 0 <= j < 4 implies !strutil::occurs_at(u, "://"@, j) by {
        if strutil::occurs_at(u, "://"@, j) {
            assert(u.subrange(j, j + 3)[0] == u[j]);
            assert(u[j] == ':');
            assert(u[0] == 'f' && u[1] == 'i' && u[2] == 'f' && u[3] == 'o');
        }
    }
    lemma_first_occ_from(u, "://"@, 4);
}

} // verus!
