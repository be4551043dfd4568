use std::collections::{HashMap, HashSet};

use global_hotkey::hotkey::HotKey;
use panes::command::Command;
use panes::pending::PendingHotkeys;
use panes::platform::{
    HotkeyPlatform, LaunchAtLoginStatus, default_hotkey_bindings_for, default_menu_entries,
    find_accelerator,
};

#[test]
fn login_status_distinguishes_registration_from_availability() {
    assert!(LaunchAtLoginStatus::Enabled.is_configured());
    assert!(LaunchAtLoginStatus::RequiresApproval.is_configured());
    assert!(LaunchAtLoginStatus::Stale.has_registration());
    assert!(!LaunchAtLoginStatus::Stale.is_configured());
    assert!(!LaunchAtLoginStatus::Unavailable.is_available());
}

#[test]
fn menu_entries_cover_every_command_exactly_once() {
    for platform in [HotkeyPlatform::MacOs, HotkeyPlatform::Windows] {
        let entries = default_menu_entries(platform);

        let commands: Vec<Command> = entries.iter().map(|entry| entry.command).collect();
        assert_eq!(commands, Command::ALL);

        let bindings: HashMap<Command, String> = default_hotkey_bindings_for(platform)
            .into_iter()
            .map(|binding| (binding.command, binding.accelerator))
            .collect();

        for entry in &entries {
            assert_eq!(entry.label, entry.command.label());
            assert_eq!(entry.accelerator, bindings.get(&entry.command).cloned());
        }
    }
}

#[test]
fn hotkey_bindings_bind_each_command_at_most_once() {
    for platform in [HotkeyPlatform::MacOs, HotkeyPlatform::Windows] {
        let bindings = default_hotkey_bindings_for(platform);

        let mut bound = HashSet::new();
        for binding in &bindings {
            assert!(
                bound.insert(binding.command),
                "{} is bound more than once on {platform:?}",
                binding.command.label()
            );
        }

        let unbound: Vec<Command> = Command::ALL
            .iter()
            .copied()
            .filter(|command| !bound.contains(command))
            .collect();
        assert_eq!(
            unbound,
            [Command::CenterHalf],
            "only Center Half should ship without a default hotkey on {platform:?}"
        );
    }
}

#[test]
fn platform_hotkey_accelerators_parse_and_are_unique() {
    for platform in [HotkeyPlatform::MacOs, HotkeyPlatform::Windows] {
        let mut accelerators = HashSet::new();
        for binding in default_hotkey_bindings_for(platform) {
            let parsed = binding
                .accelerator
                .parse::<HotKey>()
                .unwrap_or_else(|error| {
                    panic!(
                        "invalid {platform:?} accelerator {} for {}: {error}",
                        binding.accelerator,
                        binding.command.label()
                    )
                });
            assert!(
                accelerators.insert(parsed),
                "duplicate accelerator {} for {} on {platform:?}",
                binding.accelerator,
                binding.command.label()
            );
        }
    }
}

#[test]
fn macos_defaults_remain_control_alt_bindings() {
    for binding in default_hotkey_bindings_for(HotkeyPlatform::MacOs) {
        assert!(binding.accelerator.starts_with("Control+Alt+"));
    }
    assert_eq!(
        default_hotkey_bindings_for(HotkeyPlatform::MacOs)
            .into_iter()
            .find(|binding| binding.command == Command::MoveLeft)
            .map(|binding| binding.accelerator),
        Some("Control+Alt+Shift+ArrowLeft".to_owned())
    );
}

#[test]
fn windows_defaults_avoid_altgr_typing_and_windows_key_shortcuts() {
    for binding in default_hotkey_bindings_for(HotkeyPlatform::Windows) {
        assert!(!binding.accelerator.contains("Super"));
        if matches!(
            binding.command,
            Command::TopLeft
                | Command::TopRight
                | Command::BottomLeft
                | Command::BottomRight
                | Command::FirstThird
                | Command::CenterThird
                | Command::LastThird
                | Command::FirstTwoThirds
                | Command::CenterTwoThirds
                | Command::LastTwoThirds
                | Command::AlmostMaximize
                | Command::MaximizeHeight
                | Command::Center
        ) {
            assert!(
                binding.accelerator.contains("+F"),
                "{} should use a function key on Windows",
                binding.command.label()
            );
        }
    }
}

#[test]
fn default_bindings_follow_menu_order() {
    let macos = default_hotkey_bindings_for(HotkeyPlatform::MacOs);
    let windows = default_hotkey_bindings_for(HotkeyPlatform::Windows);
    assert_eq!(macos.len(), 25);
    assert_eq!(macos[4].command, Command::TopLeft);
    assert_eq!(macos[4].accelerator, "Control+Alt+U");
    assert_eq!(windows[4].accelerator, "Control+Shift+F1");
    assert_eq!(windows[24].accelerator, "Control+Alt+Shift+F4");
    let positions: Vec<usize> = macos.iter().map(|binding| binding.command.position()).collect();
    assert!(positions.windows(2).all(|pair| pair[0] < pair[1]));
}

#[test]
fn later_bindings_of_a_command_win() {
    let mut bindings = default_hotkey_bindings_for(HotkeyPlatform::MacOs);
    bindings.push(panes::platform::HotkeyBinding {
        command: Command::Grow,
        accelerator: "Control+Shift+G".to_owned(),
    });
    assert_eq!(find_accelerator(&bindings, Command::Grow), Some("Control+Shift+G".to_owned()));
    assert_eq!(find_accelerator(&bindings, Command::CenterHalf), None);
    assert_eq!(
        find_accelerator(&bindings, Command::Maximize),
        Some("Control+Alt+Enter".to_owned())
    );
}

#[test]
fn pending_hotkeys_schedule_one_wake_and_preserve_mixed_order() {
    let mut pending = PendingHotkeys::default();

    assert!(pending.enqueue(1));
    assert!(!pending.enqueue(1));
    assert!(!pending.enqueue(2));
    assert!(!pending.enqueue(1));
    assert_eq!(pending.pending_press_count(), 4);
    assert_eq!(pending.drain(), [(1, 2), (2, 1), (1, 1)]);
}

#[test]
fn pending_hotkeys_bound_input_and_reschedule_after_drain() {
    let mut pending = PendingHotkeys::with_capacity(3);

    assert!(pending.enqueue(1));
    assert!(!pending.enqueue(1));
    assert!(!pending.enqueue(2));
    assert!(!pending.enqueue(3));
    assert_eq!(pending.pending_press_count(), 3);
    assert_eq!(pending.drain(), [(1, 2), (2, 1)]);

    assert!(pending.enqueue(3));
    assert_eq!(pending.drain(), [(3, 1)]);
}

#[test]
fn zero_capacity_still_keeps_one_press() {
    let mut pending = PendingHotkeys::with_capacity(0);

    assert!(pending.enqueue(7));
    assert!(!pending.enqueue(7));
    assert_eq!(pending.pending_press_count(), 1);
    assert_eq!(pending.drain(), [(7, 1)]);
    assert_eq!(pending.drain(), []);
    assert_eq!(pending.pending_press_count(), 0);
}

#[test]
fn default_capacity_is_the_documented_bound() {
    let mut pending = PendingHotkeys::default();
    for _ in 0..panes::pending::MAX_PENDING_HOTKEY_PRESSES + 10 {
        pending.enqueue(5);
    }
    assert_eq!(pending.pending_press_count(), 1_024);
    assert_eq!(pending.drain(), [(5, 1_024)]);
}
