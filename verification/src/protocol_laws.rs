//! What holds of every run of the protocol, whatever the system answers.
//!
//! The statements here speak of [`Session::spec_run`], which the executable
//! [`Session::run`] and, step by step, [`Session::advance`] are proved to
//! follow.

use vstd::prelude::*;
use crate::engine::{Action, FailureKind, InjectionOutcome, Phase, Report, Session};
use crate::process::Architecture;

verus! {

/// How many handles the session still has to ask to be closed: one while the
/// target is open and no `CloseHandle` has been asked for, none otherwise.
pub open spec fn spec_owes_close(phase: Phase) -> nat {
    match phase {
        Phase::Allocating => 1,
        Phase::Writing { .. } => 1,
        Phase::Starting { .. } => 1,
        Phase::Waiting { .. } => 1,
        Phase::Freeing { .. } => 1,
        _ => 0,
    }
}

/// Whether `report`, arriving in `phase`, hands the session an open handle.
pub open spec fn spec_grants_handle(phase: Phase, report: Report) -> bool {
    phase == Phase::Opening && report is Done
}

/// How many handles the system hands out over a run.
pub open spec fn spec_grants(s: Session, reports: Seq<Report>) -> nat
    decreases reports.len(),
{
    if reports.len() == 0 {
        0
    } else {
        let first: nat = if spec_grants_handle(s.phase, reports[0]) {
            1
        } else {
            0
        };
        first + spec_grants(s.spec_advance(reports[0]).0, reports.skip(1))
    }
}

/// How many times a run of actions asks for the handle to be closed.
pub open spec fn spec_closes(actions: Seq<Action>) -> nat
    decreases actions.len(),
{
    if actions.len() == 0 {
        0
    } else {
        let first: nat = if actions[0] == Action::CloseHandle {
            1
        } else {
            0
        };
        first + spec_closes(actions.skip(1))
    }
}

/// A run asks for exactly one action per report.
pub proof fn lemma_run_len(s: Session, reports: Seq<Report>)
    ensures
        s.spec_run(reports).1.len() == reports.len(),
    decreases reports.len(),
{
    if reports.len() > 0 {
        lemma_run_len(s.spec_advance(reports[0]).0, reports.skip(1));
    }
}

/// A run never changes what the attempt is about: the target, the payload's
/// length, the caller's architecture and whether to wait.
pub proof fn lemma_run_keeps_request(s: Session, reports: Seq<Report>)
    ensures
        s.spec_run(reports).0 == s.at(s.spec_run(reports).0.phase),
    decreases reports.len(),
{
    if reports.len() > 0 {
        lemma_run_keeps_request(s.spec_advance(reports[0]).0, reports.skip(1));
    }
}

/// Each action that a run asks for is the one that the session then waits on.
pub proof fn lemma_step_asks_pending(s: Session, report: Report)
    ensures
        s.spec_advance(report).1 == s.spec_advance(report).0.spec_pending(),
{
}

/// Once the outcome is decided it never changes, and the session only
/// releases: it frees the region, closes the handle and hands the outcome out.
/// In particular no thread is started and nothing is opened, reserved or
/// written after a failure.
pub proof fn lemma_unwinding_only_releases(s: Session, reports: Seq<Report>)
    requires
        s.phase.is_unwinding(),
    ensures
        s.spec_run(reports).0.phase.is_unwinding(),
        s.spec_run(reports).0.phase.decided() == s.phase.decided(),
        forall|i: int|
            0 <= i < reports.len() ==> (#[trigger] s.spec_run(reports).1[i]).is_release(),
        forall|i: int|
            0 <= i < reports.len() ==> !(#[trigger] s.spec_run(reports).1[i]).touches_target(),
    decreases reports.len(),
{
    if reports.len() > 0 {
        let (next, action) = s.spec_advance(reports[0]);
        lemma_unwinding_only_releases(next, reports.skip(1));
        lemma_run_len(next, reports.skip(1));
        let rest = next.spec_run(reports.skip(1)).1;
        let acts = s.spec_run(reports).1;
        assert(acts == seq![action] + rest);
        assert forall|i: int| 0 <= i < reports.len() implies (#[trigger] acts[i]).is_release()
            && !acts[i].touches_target() by {
            if i > 0 {
                assert(acts[i] == rest[i - 1]);
            }
        }
    }
}

/// A finished session stays as it is and answers every report with its
/// conclusion.
pub proof fn lemma_finished_stays(s: Session, reports: Seq<Report>)
    requires
        s.phase is Finished,
    ensures
        s.spec_run(reports).0 == s,
        forall|i: int|
            0 <= i < reports.len() ==> #[trigger] s.spec_run(reports).1[i] == Action::Conclude(
                s.phase->Finished_outcome,
            ),
    decreases reports.len(),
{
    if reports.len() > 0 {
        let (next, action) = s.spec_advance(reports[0]);
        assert(next == s);
        lemma_finished_stays(next, reports.skip(1));
        lemma_run_len(next, reports.skip(1));
        let rest = next.spec_run(reports.skip(1)).1;
        let acts = s.spec_run(reports).1;
        assert(acts == seq![action] + rest);
        assert forall|i: int| 0 <= i < reports.len() implies #[trigger] acts[i]
            == Action::Conclude(s.phase->Finished_outcome) by {
            if i > 0 {
                assert(acts[i] == rest[i - 1]);
            }
        }
    }
}

/// When the probe finds no live process with the requested pid, the attempt
/// ends at once with `ProcessNotFound` and the probe's error code, and the
/// session asks for nothing else: no handle, no memory, no thread.
pub proof fn lemma_missing_target_touches_nothing(s: Session, reports: Seq<Report>, code: u32)
    requires
        s.phase == Phase::Probing,
        reports.len() > 0,
        reports[0] == Report::Refused(code),
    ensures
        s.spec_run(reports).0.spec_outcome() == Some(
            InjectionOutcome::Failed { kind: FailureKind::ProcessNotFound, code },
        ),
        forall|i: int|
            0 <= i < reports.len() ==> #[trigger] s.spec_run(reports).1[i] == Action::Conclude(
                InjectionOutcome::Failed { kind: FailureKind::ProcessNotFound, code },
            ),
{
    let (next, action) = s.spec_advance(reports[0]);
    lemma_finished_stays(next, reports.skip(1));
    lemma_run_len(next, reports.skip(1));
    let rest = next.spec_run(reports.skip(1)).1;
    let acts = s.spec_run(reports).1;
    assert(acts == seq![action] + rest);
    assert forall|i: int| 0 <= i < reports.len() implies #[trigger] acts[i] == Action::Conclude(
        InjectionOutcome::Failed { kind: FailureKind::ProcessNotFound, code },
    ) by {
        if i > 0 {
            assert(acts[i] == rest[i - 1]);
        }
    }
}

/// Whether the answer to the architecture query fails to show that the target
/// has the caller's own architecture.
pub open spec fn spec_shows_mismatch(own: Architecture, report: Report) -> bool {
    match report {
        Report::Done(bits) => !own.spec_compatible(
            Architecture::spec_from_bits(bits),
        ),
        Report::Refused(_) => true,
    }
}

/// When the target is alive and its architecture is not shown to be the
/// caller's own, the attempt ends with `ArchitectureMismatch` before anything
/// is opened: after the query the session only hands out its conclusion.
pub proof fn lemma_mismatch_opens_nothing(s: Session, reports: Seq<Report>)
    requires
        s.phase == Phase::Probing,
        reports.len() >= 2,
        reports[0] is Done,
        spec_shows_mismatch(s.own, reports[1]),
    ensures
        s.spec_run(reports).0.spec_outcome() matches Some(
            InjectionOutcome::Failed { kind: FailureKind::ArchitectureMismatch, .. },
        ),
        s.spec_run(reports).1[0] == (Action::QueryArchitecture { pid: s.pid }),
        forall|i: int|
            1 <= i < reports.len() ==> (#[trigger] s.spec_run(reports).1[i]) is Conclude,
        forall|i: int|
            0 <= i < reports.len() ==> !(#[trigger] s.spec_run(reports).1[i]).touches_target(),
{
    let (s1, a0) = s.spec_advance(reports[0]);
    let tail1 = reports.skip(1);
    let (s2, a1) = s1.spec_advance(tail1[0]);
    let tail2 = tail1.skip(1);
    assert(tail1[0] == reports[1]);
    lemma_finished_stays(s2, tail2);
    lemma_run_len(s2, tail2);
    let rest = s2.spec_run(tail2).1;
    let acts = s.spec_run(reports).1;
    assert(s1.spec_run(tail1).1 == seq![a1] + rest);
    assert(acts == seq![a0] + (seq![a1] + rest));
    assert forall|i: int| 0 <= i < reports.len() implies !(#[trigger] acts[i]).touches_target()
        && (i >= 1 ==> acts[i] is Conclude) by {
        if i > 1 {
            assert(acts[i] == rest[i - 2]);
        }
    }
}

/// Whether the answer to the write shows that less than the whole payload
/// arrived.
pub open spec fn spec_write_fell_short(payload_len: usize, report: Report) -> bool {
    match report {
        Report::Done(written) => written < payload_len,
        Report::Refused(_) => true,
    }
}

/// When the write falls short, the attempt is decided as `PartialWrite`, the
/// region is given back first, and no thread is ever started: every action
/// from then on only releases.
pub proof fn lemma_short_write_starts_no_thread(s: Session, reports: Seq<Report>)
    requires
        s.phase is Writing,
        reports.len() > 0,
        spec_write_fell_short(s.payload_len, reports[0]),
    ensures
        s.spec_run(reports).0.phase.decided() matches Some(
            InjectionOutcome::Failed { kind: FailureKind::PartialWrite, .. },
        ),
        s.spec_run(reports).1[0] == (Action::FreeRegion { address: s.phase->Writing_address }),
        forall|i: int|
            0 <= i < reports.len() ==> (#[trigger] s.spec_run(reports).1[i]).is_release(),
        forall|i: int|
            0 <= i < reports.len() ==> !(#[trigger] s.spec_run(reports).1[i] is StartLoaderThread),
{
    let (next, action) = s.spec_advance(reports[0]);
    lemma_unwinding_only_releases(next, reports.skip(1));
    lemma_run_len(next, reports.skip(1));
    let rest = next.spec_run(reports.skip(1)).1;
    let acts = s.spec_run(reports).1;
    assert(acts == seq![action] + rest);
    assert forall|i: int| 0 <= i < reports.len() implies (#[trigger] acts[i]).is_release() && !(
    acts[i] is StartLoaderThread) by {
        if i > 0 {
            assert(acts[i] == rest[i - 1]);
        }
    }
}

/// Over any run, from any state, the handles that the system handed out are
/// matched one for one by requests to close them, up to the one that the
/// session may still hold at either end.
pub proof fn lemma_handle_balance(s: Session, reports: Seq<Report>)
    ensures
        spec_owes_close(s.phase) + spec_grants(s, reports) == spec_closes(s.spec_run(reports).1)
            + spec_owes_close(s.spec_run(reports).0.phase),
    decreases reports.len(),
{
    if reports.len() == 0 {
        assert(spec_closes(Seq::<Action>::empty()) == 0);
    } else {
        let (next, action) = s.spec_advance(reports[0]);
        lemma_handle_balance(next, reports.skip(1));
        let rest = next.spec_run(reports.skip(1)).1;
        let acts = seq![action] + rest;
        assert(acts[0] == action);
        assert(acts.skip(1) =~= rest);
    }
}

/// Every attempt that has ended has asked for each handle it was given to be
/// closed, whether it succeeded or failed, and is given at most one.
pub proof fn lemma_ended_attempt_leaks_no_handle(s: Session, reports: Seq<Report>)
    requires
        s.phase == Phase::Probing,
        s.spec_run(reports).0.phase is Finished,
    ensures
        spec_closes(s.spec_run(reports).1) == spec_grants(s, reports),
        s.spec_run(reports).0.spec_outcome() == Some(InjectionOutcome::Injected) ==> spec_closes(
            s.spec_run(reports).1,
        ) >= 1,
{
    lemma_handle_balance(s, reports);
    if s.spec_run(reports).0.spec_outcome() == Some(InjectionOutcome::Injected) {
        lemma_success_was_granted(s, reports);
    }
}

/// A run that reaches success from a state without a handle was handed one on
/// the way.
pub proof fn lemma_success_was_granted(s: Session, reports: Seq<Report>)
    requires
        !s.phase.holds_handle(),
        !(s.phase is Finished),
        s.spec_run(reports).0.spec_outcome() == Some(InjectionOutcome::Injected),
    ensures
        spec_grants(s, reports) >= 1,
    decreases reports.len(),
{
    if reports.len() > 0 {
        let (next, action) = s.spec_advance(reports[0]);
        if spec_grants_handle(s.phase, reports[0]) {
        } else if next.phase is Finished {
            lemma_finished_stays(next, reports.skip(1));
        } else {
            lemma_success_was_granted(next, reports.skip(1));
        }
    }
}

/// The run of an attempt in which every step succeeds and the caller does not
/// wait for the loader thread: the target is opened, the whole payload is
/// written, the thread is started, the handle is closed, and only then is
/// `Injected` handed out.
pub proof fn lemma_success_without_wait(s: Session, reports: Seq<Report>)
    requires
        s.phase == Phase::Probing,
        !s.wait,
        reports.len() == 7,
        forall|i: int| 0 <= i < 6 ==> (#[trigger] reports[i]) is Done,
        !spec_shows_mismatch(s.own, reports[1]),
        !spec_write_fell_short(s.payload_len, reports[4]),
    ensures
        s.spec_run(reports).0.spec_outcome() == Some(InjectionOutcome::Injected),
        s.spec_run(reports).1 == seq![
            Action::QueryArchitecture { pid: s.pid },
            Action::OpenTarget { pid: s.pid },
            Action::AllocateRegion { size: s.payload_len },
            Action::WritePayload { address: reports[3]->Done_0, size: s.payload_len },
            Action::StartLoaderThread { argument: reports[3]->Done_0 },
            Action::CloseHandle,
            Action::Conclude(InjectionOutcome::Injected),
        ],
{
    lemma_unfold_run(s, reports, 7);
    assert(reports[0] is Done && reports[2] is Done && reports[3] is Done && reports[5] is Done);
    assert(reports[1] is Done && reports[4] is Done);
    reveal_with_fuel(spec_states, 8);
    assert(s.spec_run(reports).1 =~= seq![
        Action::QueryArchitecture { pid: s.pid },
        Action::OpenTarget { pid: s.pid },
        Action::AllocateRegion { size: s.payload_len },
        Action::WritePayload { address: reports[3]->Done_0, size: s.payload_len },
        Action::StartLoaderThread { argument: reports[3]->Done_0 },
        Action::CloseHandle,
        Action::Conclude(InjectionOutcome::Injected),
    ]);
}

/// The run of an attempt in which every step succeeds and the caller waits
/// for the loader thread, which reports that the library was loaded: after
/// the wait the region is given back, the handle is closed, and only then is
/// `Injected` handed out.
pub proof fn lemma_success_with_wait(s: Session, reports: Seq<Report>)
    requires
        s.phase == Phase::Probing,
        s.wait,
        reports.len() == 9,
        forall|i: int| 0 <= i < 7 ==> (#[trigger] reports[i]) is Done,
        !spec_shows_mismatch(s.own, reports[1]),
        !spec_write_fell_short(s.payload_len, reports[4]),
        reports[6]->Done_0 != 0,
    ensures
        s.spec_run(reports).0.spec_outcome() == Some(InjectionOutcome::Injected),
        s.spec_run(reports).1 == seq![
            Action::QueryArchitecture { pid: s.pid },
            Action::OpenTarget { pid: s.pid },
            Action::AllocateRegion { size: s.payload_len },
            Action::WritePayload { address: reports[3]->Done_0, size: s.payload_len },
            Action::StartLoaderThread { argument: reports[3]->Done_0 },
            Action::AwaitThread,
            Action::FreeRegion { address: reports[3]->Done_0 },
            Action::CloseHandle,
            Action::Conclude(InjectionOutcome::Injected),
        ],
{
    lemma_unfold_run(s, reports, 9);
    assert(reports[0] is Done && reports[2] is Done && reports[3] is Done && reports[5] is Done);
    assert(reports[1] is Done && reports[4] is Done && reports[6] is Done);
    reveal_with_fuel(spec_states, 10);
    assert(s.spec_run(reports).1 =~= seq![
        Action::QueryArchitecture { pid: s.pid },
        Action::OpenTarget { pid: s.pid },
        Action::AllocateRegion { size: s.payload_len },
        Action::WritePayload { address: reports[3]->Done_0, size: s.payload_len },
        Action::StartLoaderThread { argument: reports[3]->Done_0 },
        Action::AwaitThread,
        Action::FreeRegion { address: reports[3]->Done_0 },
        Action::CloseHandle,
        Action::Conclude(InjectionOutcome::Injected),
    ]);
}

/// The session after the first `n` reports of a run.
pub open spec fn spec_states(s: Session, reports: Seq<Report>, n: nat) -> Session
    decreases n,
{
    if n == 0 {
        s
    } else {
        spec_states(s, reports, (n - 1) as nat).spec_advance(reports[n - 1]).0
    }
}

/// A run is the walk through its states: the action at each place is the one
/// that the state reached there waits on, and the run ends in the last state.
pub proof fn lemma_unfold_run(s: Session, reports: Seq<Report>, n: nat)
    requires
        n == reports.len(),
    ensures
        s.spec_run(reports).0 == spec_states(s, reports, n),
        s.spec_run(reports).1.len() == n,
        forall|i: int|
            0 <= i < n ==> #[trigger] s.spec_run(reports).1[i] == spec_states(
                s,
                reports,
                (i + 1) as nat,
            ).spec_pending(),
    decreases n,
{
    lemma_run_len(s, reports);
    if n > 0 {
        let (next, action) = s.spec_advance(reports[0]);
        let tail = reports.skip(1);
        lemma_unfold_run(next, tail, (n - 1) as nat);
        lemma_run_len(next, tail);
        let rest = next.spec_run(tail).1;
        let acts = s.spec_run(reports).1;
        assert(acts == seq![action] + rest);
        assert forall|k: nat| k < n implies #[trigger] spec_states(s, reports, k + 1)
            == spec_states(next, tail, k) by {
            lemma_states_shift(s, reports, k);
        }
        assert forall|i: int| 0 <= i < n implies #[trigger] acts[i] == spec_states(
            s,
            reports,
            (i + 1) as nat,
        ).spec_pending() by {
            if i > 0 {
                assert(acts[i] == rest[i - 1]);
                assert(spec_states(s, reports, (i as nat) + 1) == spec_states(
                    next,
                    tail,
                    i as nat,
                ));
            } else {
                assert(spec_states(s, reports, 0) == s);
            }
        }
        assert(spec_states(s, reports, ((n - 1) as nat) + 1) == spec_states(
            next,
            tail,
            (n - 1) as nat,
        ));
    }
}

/// Walking `k + 1` steps is taking the first step and then walking `k` steps
/// through the rest of the reports.
pub proof fn lemma_states_shift(s: Session, reports: Seq<Report>, k: nat)
    requires
        k < reports.len(),
    ensures
        spec_states(s, reports, k + 1) == spec_states(
            s.spec_advance(reports[0]).0,
            reports.skip(1),
            k,
        ),
    decreases k,
{
    reveal_with_fuel(spec_states, 3);
    if k > 0 {
        lemma_states_shift(s, reports, (k - 1) as nat);
        assert(reports.skip(1)[k - 1] == reports[k as int]);
        assert(((k + 1) - 1) as nat == k);
    }
}

} // verus!
