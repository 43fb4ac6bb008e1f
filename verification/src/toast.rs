//! Notices shown to the user: their levels, their looks and their wording.

use vstd::prelude::*;
use crate::catalog::AddOutcome;
use crate::engine::{FailureKind, InjectionOutcome};
use crate::text::{decimal, spec_decimal};
use crate::theme::{Rgb, Theme};

verus! {

/// How grave a notice is.
#[derive(Debug, Clone, Copy, PartialEq, Eq, Structural)]
pub enum ToastLevel {
    Info,
    Success,
    Warning,
    Error,
}

impl ToastLevel {
    /// The sign shown in front of a notice of this level.
    pub open spec fn spec_icon(self) -> Seq<char> {
        match self {
            ToastLevel::Info => "â„¹"@,
            ToastLevel::Success => "âœ“"@,
            ToastLevel::Warning => "âš "@,
            ToastLevel::Error => "âœ—"@,
        }
    }

    /// The colour behind a notice of this level.
    pub open spec fn spec_fill(self, theme: Theme) -> Rgb {
        match self {
            ToastLevel::Info => theme.accent_secondary,
            ToastLevel::Success => theme.success,
            ToastLevel::Warning => theme.warning,
            ToastLevel::Error => theme.error,
        }
    }

    /// The sign shown in front of a notice of this level.
    pub fn icon(&self) -> (r: &'static str)
        ensures
            r@ == self.spec_icon(),
    {
        match self {
            ToastLevel::Info => "â„¹",
            ToastLevel::Success => "âœ“",
            ToastLevel::Warning => "âš ",
            ToastLevel::Error => "âœ—",
        }
    }

    /// The colour behind a notice of this level. Its text is always drawn in
    /// the theme's primary text colour.
    pub fn fill(&self, theme: &Theme) -> (r: Rgb)
        ensures
            r == self.spec_fill(*theme),
    {
        match self {
            ToastLevel::Info => theme.accent_secondary,
            ToastLevel::Success => theme.success,
            ToastLevel::Warning => theme.warning,
            ToastLevel::Error => theme.error,
        }
    }
}

/// What a failure means, in words that tell the user what to do about it.
pub open spec fn spec_describe(kind: FailureKind) -> Seq<char> {
    match kind {
        FailureKind::ProcessNotFound => "the target process is not running"@,
        FailureKind::ArchitectureMismatch => "the target's architecture differs from this program's; pick a target of the same bitness"@,
        FailureKind::AccessDenied => "access to the target was denied; run with elevated rights"@,
        FailureKind::AllocationFailed => "no memory could be reserved in the target"@,
        FailureKind::PartialWrite => "only a part of the library path reached the target"@,
        FailureKind::ThreadCreationFailed => "no thread could be started in the target process"@,
        FailureKind::LibraryLoadRejected => "the target's loader rejected the library"@,
    }
}

/// What a failure means, in words that tell the user what to do about it.
pub fn describe(kind: FailureKind) -> (r: &'static str)
    ensures
        r@ == spec_describe(kind),
{
    match kind {
        FailureKind::ProcessNotFound => "the target process is not running",
        FailureKind::ArchitectureMismatch => "the target's architecture differs from this program's; pick a target of the same bitness",
        FailureKind::AccessDenied => "access to the target was denied; run with elevated rights",
        FailureKind::AllocationFailed => "no memory could be reserved in the target",
        FailureKind::PartialWrite => "only a part of the library path reached the target",
        FailureKind::ThreadCreationFailed => "no thread could be started in the target process",
        FailureKind::LibraryLoadRejected => "the target's loader rejected the library",
    }
}

/// No two kinds of failure are described in the same words, so a user can
/// always tell them apart.
pub proof fn lemma_descriptions_differ(a: FailureKind, b: FailureKind)
    requires
        a != b,
    ensures
        spec_describe(a) != spec_describe(b),
{
    reveal_strlit("the target process is not running");
    reveal_strlit("the target's architecture differs from this program's; pick a target of the same bitness");
    reveal_strlit("access to the target was denied; run with elevated rights");
    reveal_strlit("no memory could be reserved in the target");
    reveal_strlit("only a part of the library path reached the target");
    reveal_strlit("no thread could be started in the target process");
    reveal_strlit("the target's loader rejected the library");
    assert(spec_describe(a).len() != spec_describe(b).len());
}

/// The words for a failure and its error code.
pub open spec fn spec_failure_text(kind: FailureKind, code: u32) -> Seq<char> {
    spec_describe(kind) + " (code "@ + spec_decimal(code as nat) + ")"@
}

/// The words for a failure and its error code.
pub fn failure_text(kind: FailureKind, code: u32) -> (r: String)
    ensures
        r@ == spec_failure_text(kind, code),
{
    let mut r = String::from_str(describe(kind));
    r.append(" (code ");
    let number = decimal(code);
    r.append(number.as_str());
    r.append(")");
    r
}

/// A notice: its level and its words.
#[derive(Debug)]
pub struct Toast {
    pub level: ToastLevel,
    pub message: String,
}

/// The mathematical content of a [`Toast`].
pub ghost struct ToastView {
    pub level: ToastLevel,
    pub message: Seq<char>,
}

impl View for Toast {
    type V = ToastView;

    open spec fn view(&self) -> ToastView {
        ToastView { level: self.level, message: self.message@ }
    }
}

/// A notice raised at `raised_ms` is shown until `lifetime_ms` have passed;
/// one raised after `now_ms` is still to be shown. Times are in milliseconds
/// on one clock.
pub open spec fn spec_is_alive(raised_ms: u64, now_ms: u64, lifetime_ms: u64) -> bool {
    now_ms - raised_ms < lifetime_ms
}

/// Whether a notice is still to be shown.
pub fn is_alive(raised_ms: u64, now_ms: u64, lifetime_ms: u64) -> (r: bool)
    ensures
        r == spec_is_alive(raised_ms, now_ms, lifetime_ms),
{
    if now_ms < raised_ms {
        true
    } else {
        now_ms - raised_ms < lifetime_ms
    }
}

/// The notice for the end of an attempt.
pub open spec fn spec_injection_toast(outcome: InjectionOutcome) -> ToastView {
    match outcome {
        InjectionOutcome::Injected => ToastView {
            level: ToastLevel::Success,
            message: "â—‡ Standard injection successful! Welcome to the matrix! â—‡"@,
        },
        InjectionOutcome::Failed { kind, code } => ToastView {
            level: ToastLevel::Error,
            message: "â—‡ Injection failed: "@ + spec_failure_text(kind, code) + " â—‡"@,
        },
    }
}

/// The notice for a registration.
pub open spec fn spec_add_toast(outcome: AddOutcome) -> ToastView {
    match outcome {
        AddOutcome::Added => ToastView { level: ToastLevel::Success, message: "â—‡ DLL added to cyber collection! â—‡"@ },
        AddOutcome::AlreadyPresent => ToastView {
            level: ToastLevel::Warning,
            message: "â—‡ This DLL already exists in the matrix! â—‡"@,
        },
    }
}

impl Toast {
    /// A notice with the given level and words.
    pub fn new(level: ToastLevel, message: String) -> (r: Toast)
        ensures
            r@ == (ToastView { level, message: message@ }),
    {
        Toast { level, message }
    }

    /// The notice for the end of an attempt: a success, or an error that
    /// names the failure and its code.
    pub fn for_injection(outcome: InjectionOutcome) -> (r: Toast)
        ensures
            r@ == spec_injection_toast(outcome),
    {
        match outcome {
            InjectionOutcome::Injected => Toast {
                level: ToastLevel::Success,
                message: String::from_str("â—‡ Standard injection successful! Welcome to the matrix! â—‡"),
            },
            InjectionOutcome::Failed { kind, code } => {
                let mut message = String::from_str("â—‡ Injection failed: ");
                let detail = failure_text(kind, code);
                message.append(detail.as_str());
                message.append(" â—‡");
                Toast { level: ToastLevel::Error, message }
            },
        }
    }

    /// The notice for a registration: a success when the path was added, a
    /// warning when it was there already.
    pub fn for_add(outcome: AddOutcome) -> (r: Toast)
        ensures
            r@ == spec_add_toast(outcome),
    {
        match outcome {
            AddOutcome::Added => Toast {
                level: ToastLevel::Success,
                message: String::from_str("â—‡ DLL added to cyber collection! â—‡"),
            },
            AddOutcome::AlreadyPresent => Toast {
                level: ToastLevel::Warning,
                message: String::from_str("â—‡ This DLL already exists in the matrix! â—‡"),
            },
        }
    }

    /// The notice for a removal from the catalog.
    pub fn for_removal() -> (r: Toast)
        ensures
            r@ == (ToastView { level: ToastLevel::Info, message: "â—‡ DLL removed from cyber space! â—‡"@ }),
    {
        Toast { level: ToastLevel::Info, message: String::from_str("â—‡ DLL removed from cyber space! â—‡") }
    }

    /// The notice for a link that could not be opened.
    pub fn for_link_failure() -> (r: Toast)
        ensures
            r@ == (ToastView { level: ToastLevel::Error, message: "â—‡ Failed to open GitHub link â—‡"@ }),
    {
        Toast { level: ToastLevel::Error, message: String::from_str("â—‡ Failed to open GitHub link â—‡") }
    }

    /// The notice for settings that could not be saved, with the reason.
    pub fn for_save_failure(reason: &str) -> (r: Toast)
        ensures
            r@ == (ToastView {
                level: ToastLevel::Error,
                message: "Failed to save config: "@ + reason@,
            }),
    {
        let mut message = String::from_str("Failed to save config: ");
        message.append(reason);
        Toast { level: ToastLevel::Error, message }
    }
}

} // verus!
