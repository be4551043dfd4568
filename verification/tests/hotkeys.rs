use global_hotkey::hotkey::{Code, HotKey, Modifiers};
use panes::command::Command;
use panes::hotkeys::{hotkey_parse_failure, invocation_for_hotkey_id, invocation_for_menu_id, parse_hotkey};
use panes::platform::{
    CommandInvocation, CommandSource, HotkeyBinding, HotkeyPlatform, PlatformError,
    default_hotkey_bindings_for, default_menu_entries, native_error, window_move_refusal,
};
use panes::tray::command_menu_id;

#[test]
fn default_hotkey_bindings_all_parse() {
    for binding in default_hotkey_bindings_for(HotkeyPlatform::MacOs) {
        parse_hotkey(&binding).unwrap_or_else(|error| {
            panic!(
                "default accelerator {} for {} does not parse: {error:?}",
                binding.accelerator,
                binding.command.label()
            )
        });
    }
}

#[test]
fn parsed_hotkeys_carry_their_ids() {
    let binding = HotkeyBinding {
        command: Command::LeftHalf,
        accelerator: "Control+Alt+ArrowLeft".to_owned(),
    };
    let (hotkey, id) = parse_hotkey(&binding).expect("the accelerator parses");
    let expected = HotKey::new(Some(Modifiers::CONTROL | Modifiers::ALT), Code::ArrowLeft);
    assert_eq!(hotkey, expected);
    assert_eq!(id, expected.id());
}

#[test]
fn unparsable_accelerators_name_the_binding() {
    let binding = HotkeyBinding {
        command: Command::Maximize,
        accelerator: "Control++".to_owned(),
    };
    let error = "Control++".parse::<HotKey>().expect_err("empty token").to_string();
    assert_eq!(
        parse_hotkey(&binding).map(|(_, id)| id),
        Err(PlatformError::Native(format!(
            "invalid hotkey Control++ for Maximize: {error}"
        )))
    );
    assert_eq!(
        hotkey_parse_failure(&binding, "bad"),
        PlatformError::Native("invalid hotkey Control++ for Maximize: bad".to_owned())
    );
}

#[test]
fn pressed_hotkeys_find_their_latest_command() {
    let registered = vec![(7, Command::LeftHalf), (9, Command::Center), (7, Command::Grow)];
    assert_eq!(
        invocation_for_hotkey_id(&registered, 7),
        Some(CommandInvocation { command: Command::Grow, source: CommandSource::Keyboard })
    );
    assert_eq!(
        invocation_for_hotkey_id(&registered, 9),
        Some(CommandInvocation { command: Command::Center, source: CommandSource::Keyboard })
    );
    assert_eq!(invocation_for_hotkey_id(&registered, 8), None);
    assert_eq!(invocation_for_hotkey_id(&Vec::new(), 7), None);
}

#[test]
fn menu_items_invoke_their_commands() {
    let entries = default_menu_entries(HotkeyPlatform::Windows);
    for entry in &entries {
        assert_eq!(
            invocation_for_menu_id(&entries, &command_menu_id(entry.command)),
            Some(CommandInvocation { command: entry.command, source: CommandSource::Menu })
        );
    }
    assert_eq!(invocation_for_menu_id(&entries, "panes.quit"), None);
    assert_eq!(invocation_for_menu_id(&entries, "left-half"), None);
    assert_eq!(invocation_for_menu_id(&entries[1..].to_vec(), "panes.command.left-half"), None);
}

#[test]
fn native_errors_join_context_and_cause() {
    assert_eq!(
        native_error("failed to create tray icon", "bad size"),
        PlatformError::Native("failed to create tray icon: bad size".to_owned())
    );
}

#[test]
fn windows_refuses_windows_it_cannot_move_for_the_first_reason() {
    assert_eq!(window_move_refusal(true, false, true, false, true), None);
    assert_eq!(
        window_move_refusal(false, true, false, true, false),
        Some(PlatformError::NotFound("Windows window no longer exists"))
    );
    assert_eq!(
        window_move_refusal(true, true, false, true, false),
        Some(PlatformError::Unsupported(
            "Windows desktop, shell, child, and tool windows cannot be moved"
        ))
    );
    assert_eq!(
        window_move_refusal(true, false, false, true, false),
        Some(PlatformError::Unsupported("hidden Windows windows cannot be moved"))
    );
    assert_eq!(
        window_move_refusal(true, false, true, true, false),
        Some(PlatformError::Unsupported("minimized Windows windows cannot be moved"))
    );
    assert_eq!(
        window_move_refusal(true, false, true, false, false),
        Some(PlatformError::Unsupported("non-resizable Windows windows cannot be moved"))
    );
}
