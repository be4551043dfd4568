use panes::accessibility::{
    PERMISSION_GUIDANCE, PermissionAction, PermissionEvent, ensure_accessibility_permission,
    permission_denied, permission_step, remember_first_error,
};
use panes::failure::{
    CommandExecutionError, CommandFailureLevel, UnsupportedWindowReason, is_reported,
    unsupported_window_reason,
};
use panes::history::WindowId;
use panes::platform::{PlatformError, ScreenId};

#[test]
fn separates_transient_state_from_actionable_errors() {
    assert_eq!(
        CommandExecutionError::NoFocusedWindow.failure_level(),
        CommandFailureLevel::Debug
    );
    assert_eq!(
        CommandExecutionError::Platform(PlatformError::PermissionDenied("grant access"))
            .failure_level(),
        CommandFailureLevel::Error
    );
    assert_eq!(
        CommandExecutionError::NoScreens.failure_level(),
        CommandFailureLevel::Error
    );
}

#[test]
fn every_failure_has_its_level() {
    let window_id = WindowId(3);
    let debug = [
        CommandExecutionError::Platform(PlatformError::Unsupported("x")),
        CommandExecutionError::Platform(PlatformError::NotFound("x")),
        CommandExecutionError::NoRestoreRect { window_id },
        CommandExecutionError::StaleWindowHistory { window_id },
        CommandExecutionError::UnsupportedWindow {
            window_id,
            reason: UnsupportedWindowReason::Minimized,
        },
    ];
    for error in &debug {
        assert_eq!(error.failure_level(), CommandFailureLevel::Debug, "{error:?}");
    }
    let errors = [
        CommandExecutionError::Platform(PlatformError::Native("x".to_owned())),
        CommandExecutionError::InvalidScreenGeometry { screen_id: ScreenId(1) },
        CommandExecutionError::NoTargetScreen { window_id },
    ];
    for error in &errors {
        assert_eq!(error.failure_level(), CommandFailureLevel::Error, "{error:?}");
    }
}

#[test]
fn failure_messages_name_the_failure() {
    assert_eq!(CommandExecutionError::NoFocusedWindow.message(), "no focused window");
    assert_eq!(CommandExecutionError::NoScreens.message(), "no screens available");
    assert_eq!(
        CommandExecutionError::InvalidScreenGeometry { screen_id: ScreenId(2) }.message(),
        "invalid geometry for screen ScreenId(2)"
    );
    assert_eq!(
        CommandExecutionError::NoTargetScreen { window_id: WindowId(17) }.message(),
        "no target screen for window WindowId(17)"
    );
    assert_eq!(
        CommandExecutionError::NoRestoreRect { window_id: WindowId(0) }.message(),
        "no restore rect for window WindowId(0)"
    );
    assert_eq!(
        CommandExecutionError::StaleWindowHistory { window_id: WindowId(18446744073709551615) }
            .message(),
        "stale history for window WindowId(18446744073709551615)"
    );
    assert_eq!(
        CommandExecutionError::UnsupportedWindow {
            window_id: WindowId(4),
            reason: UnsupportedWindowReason::NotResizable,
        }
        .message(),
        "unsupported window WindowId(4): NotResizable"
    );
    assert_eq!(
        CommandExecutionError::Platform(PlatformError::Native("say \"hi\"\n".to_owned())).message(),
        "platform error: Native(\"say \\\"hi\\\"\\n\")"
    );
    assert_eq!(
        CommandExecutionError::Platform(PlatformError::Native("say \"hi\"\n".to_owned())).message(),
        format!("platform error: {:?}", PlatformError::Native("say \"hi\"\n".to_owned()))
    );
}

#[test]
fn accessibility_permission_follows_trust() {
    assert_eq!(ensure_accessibility_permission(true), Ok(()));
    assert_eq!(
        ensure_accessibility_permission(false),
        Err(PlatformError::PermissionDenied(PERMISSION_GUIDANCE))
    );
    assert_eq!(
        permission_denied(),
        PlatformError::PermissionDenied(
            "Grant Accessibility permission to Panes in System Settings > Privacy & Security > Accessibility"
        )
    );
}

#[test]
fn the_first_error_of_a_frame_update_is_kept() {
    let mut first = None;
    remember_first_error(&mut first, Ok(()));
    assert_eq!(first, None);
    remember_first_error(&mut first, Err(PlatformError::NotFound("size")));
    assert_eq!(first, Some(PlatformError::NotFound("size")));
    remember_first_error(&mut first, Err(PlatformError::NotFound("position")));
    remember_first_error(&mut first, Ok(()));
    assert_eq!(first, Some(PlatformError::NotFound("size")));
}

#[test]
fn unsupported_windows_report_their_first_reason() {
    assert_eq!(unsupported_window_reason(false, false, false, true), None);
    assert_eq!(
        unsupported_window_reason(true, true, true, false),
        Some(UnsupportedWindowReason::Hidden)
    );
    assert_eq!(
        unsupported_window_reason(false, true, true, false),
        Some(UnsupportedWindowReason::Minimized)
    );
    assert_eq!(
        unsupported_window_reason(false, false, true, false),
        Some(UnsupportedWindowReason::Fullscreen)
    );
    assert_eq!(
        unsupported_window_reason(false, false, false, false),
        Some(UnsupportedWindowReason::InvalidGeometry)
    );
}

#[test]
fn permission_is_prompted_for_once_then_polled_until_granted() {
    let quiet = PermissionAction {
        show_trusted: Some(true),
        prompt: false,
        open_settings: false,
        poll_again: false,
    };
    assert_eq!(permission_step(PermissionEvent::Started { trusted: true }), quiet);
    assert_eq!(
        permission_step(PermissionEvent::Started { trusted: false }),
        PermissionAction { show_trusted: Some(false), prompt: true, ..quiet }
    );
    assert_eq!(
        permission_step(PermissionEvent::Prompted { trusted: false, from_menu: false }),
        PermissionAction { show_trusted: Some(false), poll_again: true, ..quiet }
    );
    assert_eq!(
        permission_step(PermissionEvent::Prompted { trusted: false, from_menu: true }),
        PermissionAction {
            show_trusted: Some(false),
            open_settings: true,
            poll_again: true,
            ..quiet
        }
    );
    assert_eq!(
        permission_step(PermissionEvent::Prompted { trusted: true, from_menu: true }),
        quiet
    );
    assert_eq!(
        permission_step(PermissionEvent::Polled { trusted: false }),
        PermissionAction { show_trusted: None, poll_again: true, ..quiet }
    );
    assert_eq!(permission_step(PermissionEvent::Polled { trusted: true }), quiet);
}

#[test]
fn release_builds_report_only_actionable_failures() {
    use_level(CommandExecutionError::NoFocusedWindow, false, false);
    use_level(CommandExecutionError::NoFocusedWindow, true, true);
    use_level(CommandExecutionError::NoScreens, false, true);
    use_level(
        CommandExecutionError::Platform(PlatformError::Native("x".to_owned())),
        false,
        true,
    );
}

fn use_level(error: CommandExecutionError, development_build: bool, reported: bool) {
    assert_eq!(is_reported(error.failure_level(), development_build), reported, "{error:?}");
}
