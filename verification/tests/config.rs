use std::collections::BTreeMap;

use panes::command::Command;
use panes::config::{
    CommandsSection, ConfigIssue, resolve, resolve_disabled, resolve_enabled_commands,
    resolve_hotkeys,
};
use panes::platform::{
    HotkeyBinding, HotkeyPlatform, MenuEntry, default_hotkey_bindings_for, default_menu_entries,
};

/// The platform whose defaults a config is resolved against in these tests.
const PLATFORM: HotkeyPlatform = HotkeyPlatform::MacOs;

struct Resolved {
    menu_entries: Vec<MenuEntry>,
    hotkey_bindings: Vec<HotkeyBinding>,
}

/// Reads the `[hotkeys]` and `[commands]` sections of a TOML source, as the
/// config file declares them, and resolves them.
fn parsed(source: &str) -> (Resolved, Vec<ConfigIssue>) {
    let table: toml::Table = source.parse().expect("config should parse");
    let mut hotkeys = BTreeMap::new();
    if let Some(section) = table.get("hotkeys").and_then(|value| value.as_table()) {
        for (id, accelerator) in section {
            let accelerator = accelerator.as_str().expect("accelerators are strings");
            hotkeys.insert(id.clone(), accelerator.to_owned());
        }
    }
    let hotkeys: Vec<(String, String)> = hotkeys.into_iter().collect();
    let disabled = table
        .get("commands")
        .and_then(|section| section.get("disabled"))
        .and_then(|list| list.as_array())
        .map(|list| {
            list.iter()
                .map(|id| id.as_str().expect("ids are strings").to_owned())
                .collect()
        })
        .unwrap_or_default();
    let mut issues = Vec::new();
    let (menu_entries, hotkey_bindings) =
        resolve(&hotkeys, &CommandsSection { disabled }, PLATFORM, &mut issues);
    (Resolved { menu_entries, hotkey_bindings }, issues)
}

fn menu_accelerator_for(config: &Resolved, command: Command) -> Option<&str> {
    config
        .menu_entries
        .iter()
        .find(|entry| entry.command == command)
        .and_then(|entry| entry.accelerator.as_deref())
}

fn accelerator_for(config: &Resolved, command: Command) -> Option<&str> {
    config
        .hotkey_bindings
        .iter()
        .find(|binding| binding.command == command)
        .map(|binding| binding.accelerator.as_str())
}

#[test]
fn empty_source_produces_defaults() {
    let (config, issues) = parsed("");

    assert_eq!(config.menu_entries, default_menu_entries(PLATFORM));
    assert_eq!(config.hotkey_bindings, default_hotkey_bindings_for(PLATFORM));
    assert_eq!(issues, Vec::new());
}

#[test]
fn hotkeys_can_be_rebound_by_command_id() {
    let (config, issues) = parsed("[hotkeys]\nmaximize = \"Control+Shift+M\"\n");

    assert_eq!(issues, Vec::new());
    assert_eq!(
        accelerator_for(&config, Command::Maximize),
        Some("Control+Shift+M")
    );
    assert_eq!(
        accelerator_for(&config, Command::LeftHalf),
        Some("Control+Alt+ArrowLeft")
    );
    assert_eq!(
        menu_accelerator_for(&config, Command::Maximize),
        Some("Control+Shift+M")
    );
}

#[test]
fn empty_accelerator_unbinds_a_command() {
    let (config, issues) = parsed("[hotkeys]\nmaximize = \"\"\n");

    assert_eq!(issues, Vec::new());
    assert_eq!(accelerator_for(&config, Command::Maximize), None);
    assert_eq!(menu_accelerator_for(&config, Command::Maximize), None);
    assert!(
        config
            .menu_entries
            .iter()
            .any(|entry| entry.command == Command::Maximize)
    );
}

#[test]
fn unknown_hotkey_command_ids_are_reported_and_skipped() {
    let (config, issues) = parsed(
        "[hotkeys]\n\
         maximise = \"Control+Shift+M\"\n\
         center = \"Control+Shift+C\"\n",
    );

    assert_eq!(
        issues,
        [ConfigIssue::UnknownCommand {
            section: "hotkeys",
            id: "maximise".to_owned(),
        }]
    );
    assert_eq!(
        accelerator_for(&config, Command::Center),
        Some("Control+Shift+C")
    );
}

#[test]
fn disabled_commands_are_removed_from_menu_and_hotkeys() {
    let (config, issues) = parsed("[commands]\ndisabled = [\"top-left\", \"top-right\"]\n");

    assert_eq!(issues, Vec::new());
    assert!(
        !config
            .menu_entries
            .iter()
            .any(|entry| entry.command == Command::TopLeft)
    );
    assert_eq!(accelerator_for(&config, Command::TopLeft), None);
    assert_eq!(accelerator_for(&config, Command::TopRight), None);
    assert_eq!(config.menu_entries.len(), Command::ALL.len() - 2);
}

#[test]
fn binding_a_disabled_command_is_reported() {
    let (config, issues) = parsed(
        "[hotkeys]\n\
         top-left = \"Control+Shift+U\"\n\
         \n\
         [commands]\n\
         disabled = [\"top-left\"]\n",
    );

    assert_eq!(
        issues,
        [ConfigIssue::DisabledCommandBound {
            id: "top-left".to_owned(),
        }]
    );
    assert_eq!(accelerator_for(&config, Command::TopLeft), None);
}

#[test]
fn unbinding_a_disabled_command_is_silent() {
    let (config, issues) = parsed(
        "[hotkeys]\n\
         top-left = \"\"\n\
         \n\
         [commands]\n\
         disabled = [\"top-left\"]\n",
    );

    assert_eq!(issues, Vec::new());
    assert_eq!(accelerator_for(&config, Command::TopLeft), None);
}

#[test]
fn unknown_disabled_ids_are_reported() {
    let (_, issues) = parsed("[commands]\ndisabled = [\"not-a-command\"]\n");

    assert_eq!(
        issues,
        [ConfigIssue::UnknownCommand {
            section: "commands.disabled",
            id: "not-a-command".to_owned(),
        }]
    );
}

#[test]
fn duplicate_accelerators_keep_the_first_command() {
    let (config, issues) = parsed("[hotkeys]\nmaximize = \"Control+Alt+C\"\n");

    // Control+Alt+C is also the default for Center; Maximize precedes it
    // in Command::ALL order, so Maximize keeps the accelerator.
    assert_eq!(
        issues,
        [ConfigIssue::DuplicateAccelerator {
            accelerator: "Control+Alt+C".to_owned(),
            kept: Command::Maximize,
            dropped: Command::Center,
        }]
    );
    assert_eq!(
        accelerator_for(&config, Command::Maximize),
        Some("Control+Alt+C")
    );
    assert_eq!(accelerator_for(&config, Command::Center), None);
}

#[test]
fn issues_follow_the_order_the_config_is_read_in() {
    let (config, issues) = parsed(
        "[hotkeys]\n\
         bogus = \"Control+B\"\n\
         top-left = \"Control+Shift+U\"\n\
         center-half = \"Control+Alt+Enter\"\n\
         \n\
         [commands]\n\
         disabled = [\"top-left\", \"nope\", \"top-left\"]\n",
    );

    assert_eq!(
        issues,
        [
            ConfigIssue::UnknownCommand { section: "commands.disabled", id: "nope".to_owned() },
            ConfigIssue::UnknownCommand { section: "hotkeys", id: "bogus".to_owned() },
            ConfigIssue::DisabledCommandBound { id: "top-left".to_owned() },
            ConfigIssue::DuplicateAccelerator {
                accelerator: "Control+Alt+Enter".to_owned(),
                kept: Command::CenterHalf,
                dropped: Command::Maximize,
            },
        ]
    );
    assert_eq!(accelerator_for(&config, Command::CenterHalf), Some("Control+Alt+Enter"));
    assert_eq!(accelerator_for(&config, Command::Maximize), None);
    assert_eq!(config.menu_entries.len(), Command::ALL.len() - 1);
}

#[test]
fn whitespace_only_accelerators_unbind_and_the_last_binding_wins() {
    let hotkeys = vec![
        ("maximize".to_owned(), " \t".to_owned()),
        ("center".to_owned(), "Control+Shift+1".to_owned()),
        ("center".to_owned(), "Control+Shift+2".to_owned()),
    ];
    let mut issues = Vec::new();
    let bindings = resolve_hotkeys(&hotkeys, &Vec::new(), HotkeyPlatform::Windows, &mut issues);
    assert!(issues.is_empty());
    assert!(!bindings.iter().any(|binding| binding.command == Command::Maximize));
    assert_eq!(
        bindings
            .iter()
            .find(|binding| binding.command == Command::Center)
            .map(|binding| binding.accelerator.as_str()),
        Some("Control+Shift+2")
    );
}

#[test]
fn disabled_lists_name_each_command_once() {
    let mut issues = vec![ConfigIssue::DisabledCommandBound { id: "earlier".to_owned() }];
    let section = CommandsSection {
        disabled: vec!["restore".to_owned(), "restore".to_owned(), "x".to_owned()],
    };
    let disabled = resolve_disabled(&section, &mut issues);
    assert_eq!(disabled, [Command::Restore]);
    assert_eq!(
        issues,
        [
            ConfigIssue::DisabledCommandBound { id: "earlier".to_owned() },
            ConfigIssue::UnknownCommand { section: "commands.disabled", id: "x".to_owned() },
        ]
    );
    let enabled = resolve_enabled_commands(&disabled);
    assert_eq!(enabled.len(), Command::ALL.len() - 1);
    assert!(!enabled.contains(&Command::Restore));
}

#[test]
fn issue_messages_read_as_warnings() {
    assert_eq!(
        ConfigIssue::InvalidValue {
            field: "layout.gap",
            message: "-5 must be a finite number of at least 0".to_owned(),
        }
        .message(),
        "layout.gap: -5 must be a finite number of at least 0; using the default value"
    );
    assert_eq!(
        ConfigIssue::UnknownCommand { section: "hotkeys", id: "maximise".to_owned() }.message(),
        "hotkeys: unknown command id \"maximise\"; ignored"
    );
    assert_eq!(
        ConfigIssue::DisabledCommandBound { id: "top-left".to_owned() }.message(),
        "hotkeys: \"top-left\" is bound but listed in commands.disabled; the hotkey is dropped"
    );
    assert_eq!(
        ConfigIssue::DuplicateAccelerator {
            accelerator: "Control+Alt+C".to_owned(),
            kept: Command::Maximize,
            dropped: Command::Center,
        }
        .message(),
        "hotkeys: \"Control+Alt+C\" is bound to both Maximize and Center; keeping Maximize"
    );
    assert_eq!(
        ConfigIssue::UnknownCommand { section: "commands.disabled", id: "tab\there".to_owned() }
            .message(),
        "commands.disabled: unknown command id \"tab\\there\"; ignored"
    );
}
