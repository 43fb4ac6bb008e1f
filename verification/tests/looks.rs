use baam_injector::catalog::AddOutcome;
use baam_injector::discord_rpc::DiscordRpc;
use baam_injector::engine::{FailureKind, InjectionOutcome};
use baam_injector::panel::{
    display_name, dll_label, dll_label_from, inject_enabled, process_caption, process_label,
    remove_enabled,
};
use baam_injector::process::ProcessRecord;
use baam_injector::text::decimal;
use baam_injector::theme::{Rgb, Theme, ThemeType};
use baam_injector::toast::{describe, failure_text, is_alive, Toast, ToastLevel};

#[test]
fn theme_names() {
    assert_eq!(ThemeType::Pink.name(), "🌸 Pink Puff");
    assert_eq!(ThemeType::Purple.name(), "💜 Purple Vibes");
    assert_eq!(ThemeType::Cyberpunk.name(), "🌆 Cyberpunk");
    assert_eq!(ThemeType::Matrix.name(), "🔋 Matrix");
    assert_eq!(ThemeType::Retro.name(), "🌈 Retro Wave");
}

#[test]
fn all_themes_in_order() {
    assert_eq!(
        ThemeType::all(),
        vec![
            ThemeType::Pink,
            ThemeType::Purple,
            ThemeType::Cyberpunk,
            ThemeType::Matrix,
            ThemeType::Retro,
        ]
    );
}

#[test]
fn default_theme_is_purple() {
    assert_eq!(ThemeType::default(), ThemeType::Purple);
}

#[test]
fn palettes() {
    let pink = Theme::from_type(ThemeType::Pink);
    assert_eq!(pink.bg_primary, Rgb { r: 255, g: 240, b: 250 });
    assert_eq!(pink.accent_primary, Rgb { r: 255, g: 105, b: 180 });
    assert_eq!((pink.rounding, pink.border_width), (15, 2));
    let purple = Theme::from_type(ThemeType::Purple);
    assert_eq!(purple.button_text, Rgb { r: 75, g: 0, b: 130 });
    assert_eq!((purple.rounding, purple.border_width), (20, 3));
    let cyber = Theme::from_type(ThemeType::Cyberpunk);
    assert_eq!(cyber.panel_stroke, Rgb { r: 0, g: 255, b: 255 });
    assert_eq!((cyber.rounding, cyber.border_width), (5, 2));
    let matrix = Theme::from_type(ThemeType::Matrix);
    assert_eq!(matrix.text_secondary, Rgb { r: 0, g: 200, b: 0 });
    assert_eq!((matrix.rounding, matrix.border_width), (0, 1));
    let retro = Theme::from_type(ThemeType::Retro);
    assert_eq!(retro.error, Rgb { r: 255, g: 69, b: 0 });
    assert_eq!((retro.rounding, retro.border_width), (8, 2));
}

#[test]
fn dark_and_light_themes() {
    let dark: Vec<bool> =
        ThemeType::all().into_iter().map(|t| Theme::from_type(t).is_dark()).collect();
    assert_eq!(dark, vec![false, false, true, true, true]);
}

#[test]
fn window_corners_are_five_points_rounder() {
    assert_eq!(Theme::from_type(ThemeType::Purple).window_rounding(), 25);
    assert_eq!(Theme::from_type(ThemeType::Matrix).window_rounding(), 5);
    let mut t = Theme::from_type(ThemeType::Pink);
    t.rounding = 255;
    assert_eq!(t.window_rounding(), 260);
}

#[test]
fn row_and_button_colours() {
    let t = Theme::from_type(ThemeType::Retro);
    assert_eq!(t.row_fill(true), t.accent_primary);
    assert_eq!(t.row_fill(false), t.bg_secondary);
    assert_eq!(t.row_stroke(true), t.accent_secondary);
    assert_eq!(t.row_stroke(false), t.panel_stroke);
    assert_eq!(t.action_fill(t.success, true), t.success);
    assert_eq!(t.action_fill(t.success, false), t.text_disabled);
}

#[test]
fn toast_levels() {
    let t = Theme::from_type(ThemeType::Cyberpunk);
    assert_eq!(ToastLevel::Info.fill(&t), t.accent_secondary);
    assert_eq!(ToastLevel::Success.fill(&t), t.success);
    assert_eq!(ToastLevel::Warning.fill(&t), t.warning);
    assert_eq!(ToastLevel::Error.fill(&t), t.error);
    let icons = [
        ToastLevel::Info.icon(),
        ToastLevel::Success.icon(),
        ToastLevel::Warning.icon(),
        ToastLevel::Error.icon(),
    ];
    for (i, a) in icons.iter().enumerate() {
        assert!(!a.is_empty());
        for b in &icons[i + 1..] {
            assert_ne!(a, b);
        }
    }
}

#[test]
fn decimal_numbers() {
    assert_eq!(decimal(0), "0");
    assert_eq!(decimal(7), "7");
    assert_eq!(decimal(10), "10");
    assert_eq!(decimal(4096), "4096");
    assert_eq!(decimal(u32::MAX), "4294967295");
}

#[test]
fn failure_descriptions_differ() {
    let kinds = [
        FailureKind::ProcessNotFound,
        FailureKind::ArchitectureMismatch,
        FailureKind::AccessDenied,
        FailureKind::AllocationFailed,
        FailureKind::PartialWrite,
        FailureKind::ThreadCreationFailed,
        FailureKind::LibraryLoadRejected,
    ];
    for (i, a) in kinds.iter().enumerate() {
        for b in &kinds[i + 1..] {
            assert_ne!(describe(*a), describe(*b));
        }
    }
    assert_eq!(
        failure_text(FailureKind::AccessDenied, 5),
        "access to the target was denied; run with elevated rights (code 5)"
    );
}

#[test]
fn injection_toasts() {
    let ok = Toast::for_injection(InjectionOutcome::Injected);
    assert_eq!(ok.level, ToastLevel::Success);
    assert!(ok.message.contains("Standard injection successful! Welcome to the matrix!"));
    let bad = Toast::for_injection(InjectionOutcome::Failed {
        kind: FailureKind::PartialWrite,
        code: 299,
    });
    assert_eq!(bad.level, ToastLevel::Error);
    assert!(bad
        .message
        .contains(" Injection failed: only a part of the library path reached the target (code 299) "));
}

#[test]
fn catalog_toasts() {
    let added = Toast::for_add(AddOutcome::Added);
    assert_eq!(added.level, ToastLevel::Success);
    assert!(added.message.contains("DLL added to cyber collection!"));
    let present = Toast::for_add(AddOutcome::AlreadyPresent);
    assert_eq!(present.level, ToastLevel::Warning);
    assert!(present.message.contains("This DLL already exists in the matrix!"));
    let removed = Toast::for_removal();
    assert_eq!(removed.level, ToastLevel::Info);
    assert!(removed.message.contains("DLL removed from cyber space!"));
    let link = Toast::for_link_failure();
    assert_eq!(link.level, ToastLevel::Error);
    assert!(link.message.contains("Failed to open GitHub link"));
    let save = Toast::for_save_failure("disk full");
    assert_eq!(save.level, ToastLevel::Error);
    assert_eq!(save.message, "Failed to save config: disk full");
    let plain = Toast::new(ToastLevel::Info, "hello".to_string());
    assert_eq!((plain.level, plain.message.as_str()), (ToastLevel::Info, "hello"));
}

#[test]
fn process_labels() {
    let r = ProcessRecord::partial(812, "chrome.exe".to_string());
    assert_eq!(process_caption(&r), "chrome.exe (812)");
    assert_eq!(process_label(Some(&r)), "Process: chrome.exe (812)");
    assert_eq!(process_label(None), "Process: None");
}

#[test]
fn dll_labels() {
    assert_eq!(dll_label_from(Some("overlay.dll")), "DLL: overlay.dll");
    assert_eq!(dll_label_from(None), "DLL: None");
    assert_eq!(dll_label(None), "DLL: None");
    assert_eq!(dll_label(Some("mods/overlay.dll")), "DLL: overlay.dll");
    assert_eq!(display_name("mods/overlay.dll"), "overlay.dll");
    assert_eq!(display_name("mods/.."), "");
    assert_eq!(dll_label(Some("/")), "DLL: ");
}

#[test]
fn buttons_follow_the_selection() {
    assert!(inject_enabled(Some(4), Some(0)));
    assert!(!inject_enabled(None, Some(0)));
    assert!(!inject_enabled(Some(4), None));
    assert!(remove_enabled(Some(3)));
    assert!(!remove_enabled(None));
}

#[test]
fn presence_is_inert() {
    let mut rpc = DiscordRpc::started_at(1_700_000_000);
    assert_eq!(rpc.connect(), Ok(()));
    assert_eq!(rpc.update_presence("Idle", "Picking a process"), Ok(()));
    rpc.update_with_process(Some("chrome.exe"));
    rpc.update_injection_status(true, "chrome.exe");
    rpc.disconnect();
    assert_eq!(rpc.start_time(), 1_700_000_000);
}

#[test]
fn presence_starts_now() {
    let rpc = DiscordRpc::new();
    assert!(rpc.start_time() > 1_600_000_000);
}

#[test]
fn toasts_expire() {
    assert!(is_alive(1000, 1000, 4000));
    assert!(is_alive(1000, 4999, 4000));
    assert!(!is_alive(1000, 5000, 4000));
    assert!(!is_alive(1000, 1000, 0));
    assert!(is_alive(1000, 500, 0));
}
