use panes::login::{
    LaunchAtLoginAction, LaunchAtLoginChange, LaunchAtLoginEvent, LaunchAtLoginUpdateError,
    MAX_RUN_COMMAND_UNITS, ReconcileState, SERVICE_ENABLED, SERVICE_NOT_FOUND,
    SERVICE_NOT_REGISTERED, SERVICE_REQUIRES_APPROVAL, ToggleState, check_toggled_state,
    commands_match, status_from_native,
    launch_command, persist_failure, quoted_path, reconcile_needs_update, reconcile_step,
    rollback_setting, set_enabled, start_reconcile, start_toggle, status_from_run_entry,
    toggle_step, toggle_target, trim,
};
use panes::platform::{LaunchAtLoginStatus, PlatformError, PlatformResult};

/// A platform whose launch-at-login state is a plain value.
struct LoginPlatform {
    status: LaunchAtLoginStatus,
    updates: Vec<bool>,
    fail_reads: bool,
}

impl LoginPlatform {
    fn new(status: LaunchAtLoginStatus) -> Self {
        Self { status, updates: Vec::new(), fail_reads: false }
    }

    fn read(&self) -> PlatformResult<LaunchAtLoginStatus> {
        if self.fail_reads {
            Err(PlatformError::NotFound("login item"))
        } else {
            Ok(self.status)
        }
    }

    fn set(&mut self, enabled: bool) -> PlatformResult<()> {
        self.updates.push(enabled);
        self.status = if enabled {
            LaunchAtLoginStatus::Enabled
        } else {
            LaunchAtLoginStatus::Disabled
        };
        Ok(())
    }
}

fn reconcile_launch_at_login(
    platform: &mut LoginPlatform,
    desired: bool,
) -> PlatformResult<LaunchAtLoginStatus> {
    let (mut state, mut action) = start_reconcile(desired);
    loop {
        let event = match action {
            LaunchAtLoginAction::ReadStatus => LaunchAtLoginEvent::StatusRead(platform.read()),
            LaunchAtLoginAction::SetEnabled(enabled) => {
                LaunchAtLoginEvent::SetDone(platform.set(enabled))
            }
            LaunchAtLoginAction::Persist(_) => panic!("reconciling never saves the preference"),
            LaunchAtLoginAction::Finish(result) => {
                return result.map_err(|error| match error {
                    LaunchAtLoginUpdateError::Platform(error) => error,
                    other => panic!("unexpected reconcile error {other:?}"),
                });
            }
        };
        let (next_state, next_action) = reconcile_step(state, event);
        state = next_state;
        action = next_action;
    }
}

fn toggle_launch_at_login(
    platform: &mut LoginPlatform,
    persist: &mut dyn FnMut(bool) -> Result<(), String>,
) -> Result<LaunchAtLoginStatus, LaunchAtLoginUpdateError> {
    let (mut state, mut action) = start_toggle();
    loop {
        let event = match action {
            LaunchAtLoginAction::ReadStatus => LaunchAtLoginEvent::StatusRead(platform.read()),
            LaunchAtLoginAction::SetEnabled(enabled) => {
                LaunchAtLoginEvent::SetDone(platform.set(enabled))
            }
            LaunchAtLoginAction::Persist(enabled) => LaunchAtLoginEvent::Persisted(persist(enabled)),
            LaunchAtLoginAction::Finish(result) => return result,
        };
        let (next_state, next_action) = toggle_step(state, event);
        state = next_state;
        action = next_action;
    }
}

#[test]
fn login_reconciliation_repairs_stale_and_missing_registrations() {
    let mut stale = LoginPlatform::new(LaunchAtLoginStatus::Stale);
    assert_eq!(
        reconcile_launch_at_login(&mut stale, true),
        Ok(LaunchAtLoginStatus::Enabled)
    );
    assert_eq!(stale.updates, [true]);

    let mut unwanted = LoginPlatform::new(LaunchAtLoginStatus::Stale);
    assert_eq!(
        reconcile_launch_at_login(&mut unwanted, false),
        Ok(LaunchAtLoginStatus::Disabled)
    );
    assert_eq!(unwanted.updates, [false]);

    let mut unavailable = LoginPlatform::new(LaunchAtLoginStatus::Unavailable);
    assert_eq!(
        reconcile_launch_at_login(&mut unavailable, true),
        Ok(LaunchAtLoginStatus::Unavailable)
    );
    assert!(unavailable.updates.is_empty());
}

#[test]
fn login_toggle_updates_native_state_and_persists_the_preference() {
    let mut platform = LoginPlatform::new(LaunchAtLoginStatus::Disabled);
    let mut persisted = Vec::new();

    let status = toggle_launch_at_login(&mut platform, &mut |enabled| {
        persisted.push(enabled);
        Ok(())
    });

    assert_eq!(status, Ok(LaunchAtLoginStatus::Enabled));
    assert_eq!(platform.updates, [true]);
    assert_eq!(persisted, [true]);
}

#[test]
fn login_toggle_rolls_back_when_persistence_fails() {
    let mut platform = LoginPlatform::new(LaunchAtLoginStatus::Disabled);

    let error = toggle_launch_at_login(&mut platform, &mut |_| Err("disk full".to_owned()))
        .expect_err("persistence should fail");

    assert_eq!(
        error,
        LaunchAtLoginUpdateError::Persist {
            message: "disk full".to_owned(),
            rollback_error: None,
        }
    );
    assert_eq!(platform.updates, [true, false]);
    assert_eq!(platform.status, LaunchAtLoginStatus::Disabled);
}

#[test]
fn reconciliation_leaves_matching_states_alone() {
    let mut enabled = LoginPlatform::new(LaunchAtLoginStatus::Enabled);
    assert_eq!(
        reconcile_launch_at_login(&mut enabled, true),
        Ok(LaunchAtLoginStatus::Enabled)
    );
    assert!(enabled.updates.is_empty());

    let mut approval = LoginPlatform::new(LaunchAtLoginStatus::RequiresApproval);
    assert_eq!(
        reconcile_launch_at_login(&mut approval, true),
        Ok(LaunchAtLoginStatus::RequiresApproval)
    );
    assert!(approval.updates.is_empty());

    let mut disabled = LoginPlatform::new(LaunchAtLoginStatus::Disabled);
    assert_eq!(
        reconcile_launch_at_login(&mut disabled, false),
        Ok(LaunchAtLoginStatus::Disabled)
    );
    assert!(disabled.updates.is_empty());
}

#[test]
fn reconciliation_reports_read_failures() {
    let mut platform = LoginPlatform::new(LaunchAtLoginStatus::Stale);
    platform.fail_reads = true;
    assert_eq!(
        reconcile_launch_at_login(&mut platform, true),
        Err(PlatformError::NotFound("login item"))
    );
    assert!(platform.updates.is_empty());
}

#[test]
fn toggle_disables_an_enabled_login_item() {
    let mut platform = LoginPlatform::new(LaunchAtLoginStatus::Enabled);
    let mut persisted = Vec::new();
    let status = toggle_launch_at_login(&mut platform, &mut |enabled| {
        persisted.push(enabled);
        Ok(())
    });
    assert_eq!(status, Ok(LaunchAtLoginStatus::Disabled));
    assert_eq!(platform.updates, [false]);
    assert_eq!(persisted, [false]);
}

#[test]
fn toggle_does_nothing_where_unavailable() {
    let mut platform = LoginPlatform::new(LaunchAtLoginStatus::Unavailable);
    let mut persisted = Vec::new();
    let status = toggle_launch_at_login(&mut platform, &mut |enabled| {
        persisted.push(enabled);
        Ok(())
    });
    assert_eq!(status, Ok(LaunchAtLoginStatus::Unavailable));
    assert!(platform.updates.is_empty());
    assert!(persisted.is_empty());
}

#[test]
fn toggle_reports_a_state_the_platform_did_not_reach() {
    let (state, action) = start_toggle();
    assert_eq!(action, LaunchAtLoginAction::ReadStatus);
    let (state, action) = toggle_step(
        state,
        LaunchAtLoginEvent::StatusRead(Ok(LaunchAtLoginStatus::Disabled)),
    );
    assert_eq!(action, LaunchAtLoginAction::SetEnabled(true));
    let (state, action) = toggle_step(state, LaunchAtLoginEvent::SetDone(Ok(())));
    assert_eq!(action, LaunchAtLoginAction::ReadStatus);
    let (state, action) = toggle_step(
        state,
        LaunchAtLoginEvent::StatusRead(Ok(LaunchAtLoginStatus::Stale)),
    );
    assert_eq!(state, ToggleState::Finished);
    assert_eq!(
        action,
        LaunchAtLoginAction::Finish(Err(LaunchAtLoginUpdateError::StateMismatch {
            desired: true,
            actual: LaunchAtLoginStatus::Stale,
        }))
    );
}

#[test]
fn toggle_reports_a_failed_rollback() {
    let state = ToggleState::RollingBack { message: "disk full".to_owned() };
    let (state, action) = toggle_step(
        state,
        LaunchAtLoginEvent::SetDone(Err(PlatformError::Native("denied".to_owned()))),
    );
    assert_eq!(state, ToggleState::Finished);
    let LaunchAtLoginAction::Finish(Err(error)) = action else {
        panic!("the toggle should end in an error");
    };
    assert_eq!(
        error.message(),
        "could not save the preference (disk full) or roll back the platform update: Native(\"denied\")"
    );
}

#[test]
fn reconcile_state_machine_rereads_after_an_update() {
    let (state, action) = start_reconcile(true);
    assert_eq!(state, ReconcileState::Reading { desired: true });
    assert_eq!(action, LaunchAtLoginAction::ReadStatus);
    let (state, action) = reconcile_step(
        state,
        LaunchAtLoginEvent::StatusRead(Ok(LaunchAtLoginStatus::Disabled)),
    );
    assert_eq!(state, ReconcileState::Setting { desired: true });
    assert_eq!(action, LaunchAtLoginAction::SetEnabled(true));
    let (state, action) = reconcile_step(
        state,
        LaunchAtLoginEvent::SetDone(Err(PlatformError::Unsupported("no bundle"))),
    );
    assert_eq!(state, ReconcileState::Finished);
    assert_eq!(
        action,
        LaunchAtLoginAction::Finish(Err(LaunchAtLoginUpdateError::Platform(
            PlatformError::Unsupported("no bundle")
        )))
    );
}

#[test]
fn macos_set_enabled_only_changes_what_differs() {
    assert_eq!(
        set_enabled(LaunchAtLoginStatus::Disabled, true),
        Ok(LaunchAtLoginChange::Register)
    );
    assert_eq!(
        set_enabled(LaunchAtLoginStatus::Stale, false),
        Ok(LaunchAtLoginChange::Unregister)
    );
    assert_eq!(
        set_enabled(LaunchAtLoginStatus::Enabled, false),
        Ok(LaunchAtLoginChange::Unregister)
    );
    assert_eq!(
        set_enabled(LaunchAtLoginStatus::RequiresApproval, true),
        Ok(LaunchAtLoginChange::Unchanged)
    );
    assert_eq!(
        set_enabled(LaunchAtLoginStatus::Disabled, false),
        Ok(LaunchAtLoginChange::Unchanged)
    );
    assert_eq!(
        set_enabled(LaunchAtLoginStatus::Unavailable, true),
        Err(PlatformError::Unsupported(
            "macOS launch at login requires a signed Panes.app bundle"
        ))
    );
}

#[test]
fn reconcile_and_toggle_decisions() {
    assert!(reconcile_needs_update(LaunchAtLoginStatus::Stale, true));
    assert!(reconcile_needs_update(LaunchAtLoginStatus::Stale, false));
    assert!(!reconcile_needs_update(LaunchAtLoginStatus::Enabled, true));
    assert!(!reconcile_needs_update(LaunchAtLoginStatus::Unavailable, false));
    assert_eq!(toggle_target(LaunchAtLoginStatus::Enabled), Some(false));
    assert_eq!(toggle_target(LaunchAtLoginStatus::Stale), Some(true));
    assert_eq!(toggle_target(LaunchAtLoginStatus::Unavailable), None);
    assert!(rollback_setting(LaunchAtLoginStatus::RequiresApproval));
    assert!(!rollback_setting(LaunchAtLoginStatus::Stale));
    assert_eq!(
        check_toggled_state(false, LaunchAtLoginStatus::Disabled),
        Ok(LaunchAtLoginStatus::Disabled)
    );
    assert_eq!(
        check_toggled_state(false, LaunchAtLoginStatus::Stale),
        Err(LaunchAtLoginUpdateError::StateMismatch {
            desired: false,
            actual: LaunchAtLoginStatus::Stale,
        })
    );
    assert_eq!(
        persist_failure("full".to_owned(), Ok(())),
        LaunchAtLoginUpdateError::Persist { message: "full".to_owned(), rollback_error: None }
    );
}

#[test]
fn update_error_messages() {
    assert_eq!(
        LaunchAtLoginUpdateError::Platform(PlatformError::PermissionDenied("grant")).message(),
        "platform update failed: PermissionDenied(\"grant\")"
    );
    assert_eq!(
        LaunchAtLoginUpdateError::StateMismatch {
            desired: true,
            actual: LaunchAtLoginStatus::RequiresApproval,
        }
        .message(),
        "platform reported RequiresApproval after launch at login was set to true"
    );
    assert_eq!(
        LaunchAtLoginUpdateError::Persist { message: "disk full".to_owned(), rollback_error: None }
            .message(),
        "could not save the preference; the platform update was rolled back: disk full"
    );
}

#[test]
fn quotes_executable_paths_with_spaces() {
    assert_eq!(
        quoted_path(r"C:\Program Files\Panes\panes.exe"),
        r#""C:\Program Files\Panes\panes.exe""#
    );
}

#[test]
fn command_matching_ignores_windows_path_case_and_outer_whitespace() {
    assert!(commands_match(
        r#"  "C:\APPS\Panes.exe" "#,
        r#""c:\apps\panes.exe""#
    ));
    assert!(!commands_match(
        r#""C:\old\panes.exe""#,
        r#""C:\new\panes.exe""#
    ));
}

#[test]
fn trimming_and_matching_edge_cases() {
    assert_eq!(trim("\t\n panes \u{3000}"), "panes");
    assert_eq!(trim("   "), "");
    assert!(!commands_match("\"C:\\Ä.exe\"", "\"C:\\ä.exe\""));
    assert!(commands_match("\u{a0}\"C:\\P.exe\"\r\n", "\"c:\\p.EXE\""));
}

#[test]
fn run_entries_map_to_login_states() {
    let expected = "\"C:\\Panes\\panes.exe\"";
    assert_eq!(status_from_run_entry(None, expected), LaunchAtLoginStatus::Disabled);
    assert_eq!(status_from_run_entry(Some(None), expected), LaunchAtLoginStatus::Stale);
    assert_eq!(
        status_from_run_entry(Some(Some(" \"c:\\panes\\PANES.exe\"".to_owned())), expected),
        LaunchAtLoginStatus::Enabled
    );
    assert_eq!(
        status_from_run_entry(Some(Some("\"C:\\old\\panes.exe\"".to_owned())), expected),
        LaunchAtLoginStatus::Stale
    );
}

#[test]
fn launch_commands_respect_the_registry_limit() {
    assert_eq!(
        launch_command(r"C:\Panes\panes.exe"),
        Ok("\"C:\\Panes\\panes.exe\"".to_owned())
    );
    let longest = "a".repeat(MAX_RUN_COMMAND_UNITS - 2);
    assert_eq!(launch_command(&longest), Ok(format!("\"{longest}\"")));
    let too_long = "a".repeat(MAX_RUN_COMMAND_UNITS - 1);
    assert_eq!(
        launch_command(&too_long),
        Err(PlatformError::Unsupported(
            "Windows launch-at-login command exceeds the registry Run limit"
        ))
    );
    let astral = "\u{1F600}".repeat(MAX_RUN_COMMAND_UNITS / 2);
    assert!(launch_command(&astral).is_err());
}

#[test]
fn maps_every_documented_service_status() {
    assert_eq!(
        status_from_native(SERVICE_NOT_REGISTERED),
        LaunchAtLoginStatus::Disabled
    );
    assert_eq!(status_from_native(SERVICE_ENABLED), LaunchAtLoginStatus::Enabled);
    assert_eq!(
        status_from_native(SERVICE_REQUIRES_APPROVAL),
        LaunchAtLoginStatus::RequiresApproval
    );
    assert_eq!(status_from_native(SERVICE_NOT_FOUND), LaunchAtLoginStatus::Unavailable);
    assert_eq!(status_from_native(42), LaunchAtLoginStatus::Unavailable);
    assert_eq!((SERVICE_NOT_REGISTERED, SERVICE_ENABLED), (0, 1));
    assert_eq!((SERVICE_REQUIRES_APPROVAL, SERVICE_NOT_FOUND), (2, 3));
}
