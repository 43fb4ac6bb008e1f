use baam_injector::engine::{
    payload, Action, FailureKind, InjectionOutcome, InjectionRequest, Phase, Report, Session,
};
use baam_injector::process::Architecture;

const PATH: &str = "C:\\mods\\overlay.dll";

fn failed(kind: FailureKind, code: u32) -> InjectionOutcome {
    InjectionOutcome::Failed { kind, code }
}

fn request(target_pid: u32) -> InjectionRequest {
    InjectionRequest { target_pid, library_path: PATH.to_string() }
}

fn start(wait: bool) -> (Session, Action) {
    Session::begin(Architecture::Bits64, wait, &request(4242))
}

#[test]
fn payload_is_path_bytes_and_a_zero() {
    assert_eq!(payload("ab"), vec![b'a', b'b', 0]);
    assert_eq!(payload(""), vec![0]);
    let p = payload("é.dll");
    assert_eq!(p, vec![0xC3, 0xA9, b'.', b'd', b'l', b'l', 0]);
}

#[test]
fn begin_probes_the_target_first() {
    let (session, first) = start(false);
    assert_eq!(first, Action::ProbeTarget { pid: 4242 });
    assert_eq!(session.phase, Phase::Probing);
    assert_eq!(session.payload_len, PATH.len() + 1);
    assert_eq!(session.pending(), first);
    assert_eq!(session.outcome(), None);
}

#[test]
fn missing_process_ends_at_once() {
    let (mut session, _) = start(false);
    let action = session.advance(Report::Refused(87));
    let expected = failed(FailureKind::ProcessNotFound, 87);
    assert_eq!(action, Action::Conclude(expected));
    assert_eq!(session.outcome(), Some(expected));
}

#[test]
fn missing_process_asks_for_nothing_else() {
    let (mut session, _) = start(true);
    let reports = vec![Report::Refused(87), Report::Done(1), Report::Refused(5), Report::Done(9)];
    let actions = session.run(&reports);
    let expected = Action::Conclude(failed(FailureKind::ProcessNotFound, 87));
    assert_eq!(actions, vec![expected; 4]);
}

#[test]
fn mismatch_is_found_before_anything_is_opened() {
    let (mut session, _) = start(false);
    let actions = session.run(&vec![Report::Done(1), Report::Done(32), Report::Done(0)]);
    let outcome = failed(FailureKind::ArchitectureMismatch, 0);
    assert_eq!(
        actions,
        vec![
            Action::QueryArchitecture { pid: 4242 },
            Action::Conclude(outcome),
            Action::Conclude(outcome),
        ]
    );
    assert_eq!(session.outcome(), Some(outcome));
}

#[test]
fn unknown_architecture_counts_as_mismatch() {
    let (mut session, _) = start(false);
    session.advance(Report::Done(1));
    let action = session.advance(Report::Done(16));
    assert_eq!(action, Action::Conclude(failed(FailureKind::ArchitectureMismatch, 0)));

    let (mut session, _) = start(false);
    session.advance(Report::Done(1));
    let action = session.advance(Report::Refused(6));
    assert_eq!(action, Action::Conclude(failed(FailureKind::ArchitectureMismatch, 6)));
}

#[test]
fn injector_of_unknown_architecture_matches_nothing() {
    let (mut session, _) = Session::begin(Architecture::Unknown, false, &request(7));
    session.advance(Report::Done(1));
    let action = session.advance(Report::Done(64));
    assert_eq!(action, Action::Conclude(failed(FailureKind::ArchitectureMismatch, 0)));
}

#[test]
fn refused_open_is_access_denied() {
    let (mut session, _) = start(false);
    let actions = session.run(&vec![Report::Done(1), Report::Done(64), Report::Refused(5)]);
    assert_eq!(
        actions,
        vec![
            Action::QueryArchitecture { pid: 4242 },
            Action::OpenTarget { pid: 4242 },
            Action::Conclude(failed(FailureKind::AccessDenied, 5)),
        ]
    );
}

#[test]
fn failed_allocation_closes_the_handle() {
    let (mut session, _) = start(false);
    let actions = session.run(&vec![
        Report::Done(1),
        Report::Done(64),
        Report::Done(0),
        Report::Refused(8),
        Report::Done(0),
    ]);
    assert_eq!(
        actions,
        vec![
            Action::QueryArchitecture { pid: 4242 },
            Action::OpenTarget { pid: 4242 },
            Action::AllocateRegion { size: PATH.len() + 1 },
            Action::CloseHandle,
            Action::Conclude(failed(FailureKind::AllocationFailed, 8)),
        ]
    );
}

#[test]
fn short_write_is_partial_and_starts_no_thread() {
    let (mut session, _) = start(false);
    let size = PATH.len() + 1;
    let actions = session.run(&vec![
        Report::Done(1),
        Report::Done(64),
        Report::Done(0),
        Report::Done(0x7000),
        Report::Done(size as u64 - 1),
        Report::Done(0),
        Report::Done(0),
    ]);
    assert_eq!(
        actions,
        vec![
            Action::QueryArchitecture { pid: 4242 },
            Action::OpenTarget { pid: 4242 },
            Action::AllocateRegion { size },
            Action::WritePayload { address: 0x7000, size },
            Action::FreeRegion { address: 0x7000 },
            Action::CloseHandle,
            Action::Conclude(failed(FailureKind::PartialWrite, 0)),
        ]
    );
    assert!(!actions.iter().any(|a| matches!(a, Action::StartLoaderThread { .. })));
}

#[test]
fn refused_write_is_partial_with_its_code() {
    let (mut session, _) = start(false);
    session.run(&vec![Report::Done(1), Report::Done(64), Report::Done(0), Report::Done(0x7000)]);
    let action = session.advance(Report::Refused(299));
    assert_eq!(action, Action::FreeRegion { address: 0x7000 });
    assert_eq!(
        session.phase,
        Phase::Freeing { address: 0x7000, outcome: failed(FailureKind::PartialWrite, 299) }
    );
}

#[test]
fn refused_thread_frees_and_closes() {
    let (mut session, _) = start(false);
    let size = PATH.len() as u64 + 1;
    let actions = session.run(&vec![
        Report::Done(1),
        Report::Done(64),
        Report::Done(0),
        Report::Done(0x9000),
        Report::Done(size),
        Report::Refused(5),
        Report::Refused(1),
        Report::Refused(1),
    ]);
    assert_eq!(
        &actions[4..],
        &[
            Action::StartLoaderThread { argument: 0x9000 },
            Action::FreeRegion { address: 0x9000 },
            Action::CloseHandle,
            Action::Conclude(failed(FailureKind::ThreadCreationFailed, 5)),
        ]
    );
}

#[test]
fn success_without_wait_closes_the_handle_before_it_reports() {
    let (mut session, _) = start(false);
    let size = PATH.len() + 1;
    let actions = session.run(&vec![
        Report::Done(1),
        Report::Done(64),
        Report::Done(0),
        Report::Done(0x5000),
        Report::Done(size as u64),
        Report::Done(0),
        Report::Done(0),
    ]);
    assert_eq!(
        actions,
        vec![
            Action::QueryArchitecture { pid: 4242 },
            Action::OpenTarget { pid: 4242 },
            Action::AllocateRegion { size },
            Action::WritePayload { address: 0x5000, size },
            Action::StartLoaderThread { argument: 0x5000 },
            Action::CloseHandle,
            Action::Conclude(InjectionOutcome::Injected),
        ]
    );
    assert_eq!(session.outcome(), Some(InjectionOutcome::Injected));
}

#[test]
fn repeated_successes_close_one_handle_each() {
    for round in 0..5u64 {
        let (mut session, _) = start(false);
        let actions = session.run(&vec![
            Report::Done(1),
            Report::Done(64),
            Report::Done(round),
            Report::Done(0x5000 + round),
            Report::Done(1000),
            Report::Done(0),
            Report::Done(0),
        ]);
        let opens = actions.iter().filter(|a| matches!(a, Action::OpenTarget { .. })).count();
        let closes = actions.iter().filter(|a| **a == Action::CloseHandle).count();
        assert_eq!((opens, closes), (1, 1));
        assert_eq!(session.outcome(), Some(InjectionOutcome::Injected));
    }
}

#[test]
fn waiting_reads_how_the_load_went() {
    let script = |status: Report| {
        let (mut session, _) = start(true);
        let mut actions = session.run(&vec![
            Report::Done(1),
            Report::Done(64),
            Report::Done(0),
            Report::Done(0x5000),
            Report::Done(1000),
            Report::Done(0),
        ]);
        assert_eq!(actions.pop(), Some(Action::AwaitThread));
        let tail = session.run(&vec![status, Report::Done(0), Report::Done(0)]);
        (tail, session.outcome())
    };
    let (tail, outcome) = script(Report::Done(0x7ffe_0000));
    assert_eq!(tail[0], Action::FreeRegion { address: 0x5000 });
    assert_eq!(tail[1], Action::CloseHandle);
    assert_eq!(outcome, Some(InjectionOutcome::Injected));

    let (tail, outcome) = script(Report::Done(0));
    assert_eq!(tail[0], Action::FreeRegion { address: 0x5000 });
    assert_eq!(outcome, Some(failed(FailureKind::LibraryLoadRejected, 0)));

    let (tail, outcome) = script(Report::Refused(258));
    assert_eq!(tail[0], Action::CloseHandle);
    assert_eq!(tail[1], Action::Conclude(InjectionOutcome::Injected));
    assert_eq!(outcome, Some(InjectionOutcome::Injected));
}

#[test]
fn finished_session_repeats_its_conclusion() {
    let (mut session, _) = start(false);
    session.advance(Report::Refused(3));
    let before = session;
    assert_eq!(
        session.advance(Report::Done(9)),
        Action::Conclude(failed(FailureKind::ProcessNotFound, 3))
    );
    assert_eq!(session, before);
}

#[test]
fn run_of_no_reports_changes_nothing() {
    let (mut session, _) = start(false);
    let before = session;
    assert_eq!(session.run(&Vec::new()), Vec::new());
    assert_eq!(session, before);
}

#[test]
fn architecture_from_bits() {
    assert_eq!(Architecture::from_bits(32), Architecture::Bits32);
    assert_eq!(Architecture::from_bits(64), Architecture::Bits64);
    assert_eq!(Architecture::from_bits(0), Architecture::Unknown);
    assert!(Architecture::Bits32.compatible(Architecture::Bits32));
    assert!(!Architecture::Bits32.compatible(Architecture::Bits64));
    assert!(!Architecture::Unknown.compatible(Architecture::Unknown));
}
