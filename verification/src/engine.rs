//! The protocol that makes a running process load a library, as a state
//! machine.
//!
//! The machine decides; the caller acts. A [`Session`] names the next
//! [`Action`] to perform against the operating system, the caller performs it
//! and hands back a [`Report`], and the session answers with the action that
//! follows. Nothing in this module touches the system itself, so every path
//! through the protocol, the failing ones included, is proved here for every
//! answer the system may give.
//!
//! The steps, in order: probe that the target is alive, compare its
//! architecture with the caller's own, open it, reserve a region in it, write
//! the library's path there, start a thread in it that loads that path, and
//! optionally wait for that thread. A failure at any step releases what the
//! earlier steps acquired, in reverse order, and only then is the outcome
//! handed out.

use vstd::prelude::*;
use vstd::string::StringSliceAdditionalSpecFns;
use crate::process::Architecture;

verus! {

/// Why an attempt did not load the library.
#[derive(Debug, Clone, Copy, PartialEq, Eq, Structural)]
pub enum FailureKind {
    /// No live process has the requested pid.
    ProcessNotFound,
    /// The target's architecture is not known to equal the caller's own.
    ArchitectureMismatch,
    /// The system refused to open the target with the rights needed.
    AccessDenied,
    /// No region could be reserved in the target.
    AllocationFailed,
    /// Fewer bytes reached the target than the payload holds.
    PartialWrite,
    /// The system refused to start a thread in the target.
    ThreadCreationFailed,
    /// The thread ran, and the target's loader turned the library down.
    LibraryLoadRejected,
}

/// How an attempt ended. A failure carries the system's error code of the
/// step that failed, or 0 where the system reported none.
#[derive(Debug, Clone, Copy, PartialEq, Eq, Structural)]
pub enum InjectionOutcome {
    Injected,
    Failed { kind: FailureKind, code: u32 },
}

/// What the system answered to the last action.
///
/// `Done` carries the value that the action yields: the width in bits for an
/// architecture query, the address for a reservation, the number of bytes
/// transferred for a write, the exit status for a wait; for the other actions
/// the value is not read. `Refused` carries the system's error code.
#[derive(Debug, Clone, Copy, PartialEq, Eq, Structural)]
pub enum Report {
    Done(u64),
    Refused(u32),
}

/// What the caller has to do next.
#[derive(Debug, Clone, Copy, PartialEq, Eq, Structural)]
pub enum Action {
    /// Find out whether `pid` names a live process.
    ProbeTarget { pid: u32 },
    /// Find out the width in bits of the target's addresses.
    QueryArchitecture { pid: u32 },
    /// Open the target with the rights to reserve and write memory, to start
    /// a thread and to read an exit status, and no others.
    OpenTarget { pid: u32 },
    /// Reserve `size` writable bytes in the target.
    AllocateRegion { size: usize },
    /// Write the payload, `size` bytes, at `address` in the target.
    WritePayload { address: u64, size: usize },
    /// Start a thread in the target that runs the target's own loader on the
    /// path written at `argument`.
    StartLoaderThread { argument: u64 },
    /// Wait for the started thread and read its exit status.
    AwaitThread,
    /// Give back the region reserved at `address`.
    FreeRegion { address: u64 },
    /// Close the handle that opening the target gave.
    CloseHandle,
    /// Nothing is left to do: the attempt ended with this outcome.
    Conclude(InjectionOutcome),
}

/// Where a session stands: which answer it is waiting for.
#[derive(Debug, Clone, Copy, PartialEq, Eq, Structural)]
pub enum Phase {
    Probing,
    Checking,
    Opening,
    Allocating,
    Writing { address: u64 },
    Starting { address: u64 },
    Waiting { address: u64 },
    /// Giving back the region before the outcome is handed out.
    Freeing { address: u64, outcome: InjectionOutcome },
    /// Closing the handle before the outcome is handed out.
    Closing { outcome: InjectionOutcome },
    Finished { outcome: InjectionOutcome },
}

impl Phase {
    /// Whether the target's handle is open while the session is in this phase.
    pub open spec fn holds_handle(self) -> bool {
        match self {
            Phase::Allocating => true,
            Phase::Writing { .. } => true,
            Phase::Starting { .. } => true,
            Phase::Waiting { .. } => true,
            Phase::Freeing { .. } => true,
            Phase::Closing { .. } => true,
            _ => false,
        }
    }

    /// Whether the attempt's outcome is already decided in this phase, so that
    /// only releasing is left.
    pub open spec fn is_unwinding(self) -> bool {
        match self {
            Phase::Freeing { .. } => true,
            Phase::Closing { .. } => true,
            Phase::Finished { .. } => true,
            _ => false,
        }
    }

    /// The outcome that an unwinding phase carries.
    pub open spec fn decided(self) -> Option<InjectionOutcome> {
        match self {
            Phase::Freeing { outcome, .. } => Some(outcome),
            Phase::Closing { outcome } => Some(outcome),
            Phase::Finished { outcome } => Some(outcome),
            _ => None,
        }
    }
}

impl Action {
    /// Whether the action only releases something or hands out the outcome.
    pub open spec fn is_release(self) -> bool {
        match self {
            Action::FreeRegion { .. } => true,
            Action::CloseHandle => true,
            Action::Conclude(_) => true,
            _ => false,
        }
    }

    /// Whether the action acquires or changes anything in the target.
    pub open spec fn touches_target(self) -> bool {
        match self {
            Action::OpenTarget { .. } => true,
            Action::AllocateRegion { .. } => true,
            Action::WritePayload { .. } => true,
            Action::StartLoaderThread { .. } => true,
            _ => false,
        }
    }
}

/// The bytes to place in the target: the path's bytes and a zero byte that
/// ends them.
pub open spec fn spec_payload(path: Seq<char>) -> Seq<u8> {
    vstd::utf8::encode_utf8(path).push(0u8)
}

/// Builds the payload for a library path.
pub fn payload(library_path: &str) -> (r: Vec<u8>)
    ensures
        r@ == spec_payload(library_path@),
{
    let mut bytes: Vec<u8> = library_path.as_bytes_vec();
    bytes.push(0u8);
    bytes
}

/// What an attempt is asked to do: which process is to load which library.
#[derive(Debug)]
pub struct InjectionRequest {
    pub target_pid: u32,
    /// Absolute path of the library. Whether the file still exists is found
    /// out by the target's loader, not here.
    pub library_path: String,
}

/// One attempt to load one library into one process.
#[derive(Debug, Clone, Copy, PartialEq, Eq, Structural)]
pub struct Session {
    /// The target.
    pub pid: u32,
    /// Length of the payload in bytes, the ending zero byte included.
    pub payload_len: usize,
    /// The architecture of the process that makes the attempt.
    pub own: Architecture,
    /// Whether to wait for the started thread and read how the load went.
    pub wait: bool,
    pub phase: Phase,
}

impl Session {
    /// The session in another phase.
    pub open spec fn at(self, phase: Phase) -> Session {
        Session { phase, ..self }
    }

    /// The action whose report the session is waiting for.
    pub open spec fn spec_pending(self) -> Action {
        match self.phase {
            Phase::Probing => Action::ProbeTarget { pid: self.pid },
            Phase::Checking => Action::QueryArchitecture { pid: self.pid },
            Phase::Opening => Action::OpenTarget { pid: self.pid },
            Phase::Allocating => Action::AllocateRegion { size: self.payload_len },
            Phase::Writing { address } => Action::WritePayload { address, size: self.payload_len },
            Phase::Starting { address } => Action::StartLoaderThread { argument: address },
            Phase::Waiting { .. } => Action::AwaitThread,
            Phase::Freeing { address, .. } => Action::FreeRegion { address },
            Phase::Closing { .. } => Action::CloseHandle,
            Phase::Finished { outcome } => Action::Conclude(outcome),
        }
    }

    /// The phase that follows when `report` answers the pending action.
    pub open spec fn spec_next_phase(self, report: Report) -> Phase {
        match self.phase {
            Phase::Probing => match report {
                Report::Done(_) => Phase::Checking,
                Report::Refused(code) => Phase::Finished {
                    outcome: InjectionOutcome::Failed { kind: FailureKind::ProcessNotFound, code },
                },
            },
            Phase::Checking => match report {
                Report::Done(bits) => if self.own.spec_compatible(
                    Architecture::spec_from_bits(bits),
                ) {
                    Phase::Opening
                } else {
                    Phase::Finished {
                        outcome: InjectionOutcome::Failed {
                            kind: FailureKind::ArchitectureMismatch,
                            code: 0,
                        },
                    }
                },
                Report::Refused(code) => Phase::Finished {
                    outcome: InjectionOutcome::Failed {
                        kind: FailureKind::ArchitectureMismatch,
                        code,
                    },
                },
            },
            Phase::Opening => match report {
                Report::Done(_) => Phase::Allocating,
                Report::Refused(code) => Phase::Finished {
                    outcome: InjectionOutcome::Failed { kind: FailureKind::AccessDenied, code },
                },
            },
            Phase::Allocating => match report {
                Report::Done(address) => Phase::Writing { address },
                Report::Refused(code) => Phase::Closing {
                    outcome: InjectionOutcome::Failed { kind: FailureKind::AllocationFailed, code },
                },
            },
            Phase::Writing { address } => match report {
                Report::Done(written) => if written >= self.payload_len {
                    Phase::Starting { address }
                } else {
                    Phase::Freeing {
                        address,
                        outcome: InjectionOutcome::Failed {
                            kind: FailureKind::PartialWrite,
                            code: 0,
                        },
                    }
                },
                Report::Refused(code) => Phase::Freeing {
                    address,
                    outcome: InjectionOutcome::Failed { kind: FailureKind::PartialWrite, code },
                },
            },
            Phase::Starting { address } => match report {
                Report::Done(_) => if self.wait {
                    Phase::Waiting { address }
                } else {
                    Phase::Closing { outcome: InjectionOutcome::Injected }
                },
                Report::Refused(code) => Phase::Freeing {
                    address,
                    outcome: InjectionOutcome::Failed {
                        kind: FailureKind::ThreadCreationFailed,
                        code,
                    },
                },
            },
            Phase::Waiting { address } => match report {
                Report::Done(status) => if status == 0 {
                    Phase::Freeing {
                        address,
                        outcome: InjectionOutcome::Failed {
                            kind: FailureKind::LibraryLoadRejected,
                            code: 0,
                        },
                    }
                } else {
                    Phase::Freeing { address, outcome: InjectionOutcome::Injected }
                },
                Report::Refused(_) => Phase::Closing { outcome: InjectionOutcome::Injected },
            },
            Phase::Freeing { outcome, .. } => Phase::Closing { outcome },
            Phase::Closing { outcome } => Phase::Finished { outcome },
            Phase::Finished { outcome } => Phase::Finished { outcome },
        }
    }

    /// One step of the protocol: the session after `report`, and the action
    /// it asks for.
    pub open spec fn spec_advance(self, report: Report) -> (Session, Action) {
        let next = self.at(self.spec_next_phase(report));
        (next, next.spec_pending())
    }

    /// The outcome, once the attempt has ended.
    pub open spec fn spec_outcome(self) -> Option<InjectionOutcome> {
        match self.phase {
            Phase::Finished { outcome } => Some(outcome),
            _ => None,
        }
    }

    /// The session after a run of reports, and the actions it asked for on
    /// the way, one for each report.
    pub open spec fn spec_run(self, reports: Seq<Report>) -> (Session, Seq<Action>)
        decreases reports.len(),
    {
        if reports.len() == 0 {
            (self, Seq::<Action>::empty())
        } else {
            let (next, action) = self.spec_advance(reports[0]);
            let (last, rest) = next.spec_run(reports.skip(1));
            (last, seq![action] + rest)
        }
    }

    /// Opens an attempt for `request`.
    ///
    /// Returns the session and the first action, which probes the target.
    /// `own` is the architecture of the calling process; with `wait` set the
    /// session waits for the loader thread and reads how the load went.
    pub fn begin(own: Architecture, wait: bool, request: &InjectionRequest) -> (r: (
        Session,
        Action,
    ))
        requires
            spec_payload(request.library_path@).len() <= usize::MAX,
        ensures
            r.0 == (Session {
                pid: request.target_pid,
                payload_len: spec_payload(request.library_path@).len() as usize,
                own,
                wait,
                phase: Phase::Probing,
            }),
            r.1 == r.0.spec_pending(),
    {
        let path_len: usize = request.library_path.as_str().as_bytes().len();
        let session = Session {
            pid: request.target_pid,
            payload_len: path_len + 1,
            own,
            wait,
            phase: Phase::Probing,
        };
        (session, Action::ProbeTarget { pid: request.target_pid })
    }

    /// The action whose report the session is waiting for.
    pub fn pending(&self) -> (action: Action)
        ensures
            action == self.spec_pending(),
    {
        match self.phase {
            Phase::Probing => Action::ProbeTarget { pid: self.pid },
            Phase::Checking => Action::QueryArchitecture { pid: self.pid },
            Phase::Opening => Action::OpenTarget { pid: self.pid },
            Phase::Allocating => Action::AllocateRegion { size: self.payload_len },
            Phase::Writing { address } => Action::WritePayload { address, size: self.payload_len },
            Phase::Starting { address } => Action::StartLoaderThread { argument: address },
            Phase::Waiting { .. } => Action::AwaitThread,
            Phase::Freeing { address, .. } => Action::FreeRegion { address },
            Phase::Closing { .. } => Action::CloseHandle,
            Phase::Finished { outcome } => Action::Conclude(outcome),
        }
    }

    /// Takes the system's answer to the pending action and returns the action
    /// that follows.
    ///
    /// Once the attempt has ended, every further report is answered with the
    /// same conclusion and changes nothing.
    pub fn advance(&mut self, report: Report) -> (action: Action)
        ensures
            (*final(self), action) == old(self).spec_advance(report),
    {
        let next: Phase = match self.phase {
            Phase::Probing => match report {
                Report::Done(_) => Phase::Checking,
                Report::Refused(code) => Phase::Finished {
                    outcome: InjectionOutcome::Failed { kind: FailureKind::ProcessNotFound, code },
                },
            },
            Phase::Checking => match report {
                Report::Done(bits) => {
                    if self.own.compatible(Architecture::from_bits(bits)) {
                        Phase::Opening
                    } else {
                        Phase::Finished {
                            outcome: InjectionOutcome::Failed {
                                kind: FailureKind::ArchitectureMismatch,
                                code: 0,
                            },
                        }
                    }
                },
                Report::Refused(code) => Phase::Finished {
                    outcome: InjectionOutcome::Failed {
                        kind: FailureKind::ArchitectureMismatch,
                        code,
                    },
                },
            },
            Phase::Opening => match report {
                Report::Done(_) => Phase::Allocating,
                Report::Refused(code) => Phase::Finished {
                    outcome: InjectionOutcome::Failed { kind: FailureKind::AccessDenied, code },
                },
            },
            Phase::Allocating => match report {
                Report::Done(address) => Phase::Writing { address },
                Report::Refused(code) => Phase::Closing {
                    outcome: InjectionOutcome::Failed { kind: FailureKind::AllocationFailed, code },
                },
            },
            Phase::Writing { address } => match report {
                Report::Done(written) => {
                    if written >= self.payload_len as u64 {
                        Phase::Starting { address }
                    } else {
                        Phase::Freeing {
                            address,
                            outcome: InjectionOutcome::Failed {
                                kind: FailureKind::PartialWrite,
                                code: 0,
                            },
                        }
                    }
                },
                Report::Refused(code) => Phase::Freeing {
                    address,
                    outcome: InjectionOutcome::Failed { kind: FailureKind::PartialWrite, code },
                },
            },
            Phase::Starting { address } => match report {
                Report::Done(_) => {
                    if self.wait {
                        Phase::Waiting { address }
                    } else {
                        Phase::Closing { outcome: InjectionOutcome::Injected }
                    }
                },
                Report::Refused(code) => Phase::Freeing {
                    address,
                    outcome: InjectionOutcome::Failed {
                        kind: FailureKind::ThreadCreationFailed,
                        code,
                    },
                },
            },
            Phase::Waiting { address } => match report {
                Report::Done(status) => {
                    if status == 0 {
                        Phase::Freeing {
                            address,
                            outcome: InjectionOutcome::Failed {
                                kind: FailureKind::LibraryLoadRejected,
                                code: 0,
                            },
                        }
                    } else {
                        Phase::Freeing { address, outcome: InjectionOutcome::Injected }
                    }
                },
                Report::Refused(_) => Phase::Closing { outcome: InjectionOutcome::Injected },
            },
            Phase::Freeing { outcome, .. } => Phase::Closing { outcome },
            Phase::Closing { outcome } => Phase::Finished { outcome },
            Phase::Finished { outcome } => Phase::Finished { outcome },
        };
        self.phase = next;
        self.pending()
    }

    /// The outcome of the attempt: `Some` once it has ended, `None` while an
    /// action is still pending.
    pub fn outcome(&self) -> (r: Option<InjectionOutcome>)
        ensures
            r == self.spec_outcome(),
    {
        match self.phase {
            Phase::Finished { outcome } => Some(outcome),
            _ => None,
        }
    }

    /// Feeds a whole run of reports to the session, in order, and returns the
    /// actions it asked for, one for each report.
    pub fn run(&mut self, reports: &Vec<Report>) -> (actions: Vec<Action>)
        ensures
            (*final(self), actions@) == old(self).spec_run(reports@),
    {
        let mut actions: Vec<Action> = Vec::new();
        let mut i: usize = 0;
        proof {
            assert(reports@.skip(0) =~= reports@);
            lemma_run_empty(*self);
        }
        while i < reports.len()
            invariant
                0 <= i <= reports.len(),
                old(self).spec_run(reports@) == ({
                    let (last, rest) = self.spec_run(reports@.skip(i as int));
                    (last, actions@ + rest)
                }),
            decreases reports.len() - i,
        {
            let ghost before = *self;
            let ghost tail = reports@.skip(i as int);
            let action = self.advance(reports[i]);
            proof {
                assert(tail[0] == reports@[i as int]);
                assert(tail.skip(1) =~= reports@.skip(i + 1));
                let (last, rest) = self.spec_run(reports@.skip(i + 1));
                assert(before.spec_run(tail) == (last, seq![action] + rest));
                assert(actions@.push(action) + rest =~= actions@ + (seq![action] + rest));
            }
            actions.push(action);
            i = i + 1;
        }
        proof {
            assert(reports@.skip(i as int) =~= Seq::<Report>::empty());
            lemma_run_empty(*self);
            assert(actions@ + Seq::<Action>::empty() =~= actions@);
        }
        actions
    }
}

/// A run of no reports changes nothing and asks for nothing.
pub proof fn lemma_run_empty(s: Session)
    ensures
        s.spec_run(Seq::<Report>::empty()) == (s, Seq::<Action>::empty()),
{
}

} // verus!
