//! Resolving the command-related sections of the configuration file: the
//! commands that are disabled, hotkey overrides, and the menu and hotkeys that
//! result from them.
//!
//! Invalid individual entries are reported as [`ConfigIssue`]s and skipped,
//! so one bad value never takes the whole app down.

use vstd::prelude::*;

use crate::command::{
    COMMAND_COUNT, Command, command_named, contains_command, lemma_all_index, lemma_command_named,
    names_command,
};
use crate::platform::{
    HotkeyBinding, HotkeyPlatform, MenuEntry, accelerator_for, bindings_view, default_bindings,
    default_hotkey_bindings_for, find_accelerator, menu_entries_for, menu_entries_view, menu_for,
    option_view,
};
use crate::text::{debug_quoted, is_blank, is_blank_text, push_debug_quoted, push_text};

verus! {

/// Non-fatal problem found while resolving a config file.
#[derive(Debug, Clone, PartialEq, Eq)]
pub enum ConfigIssue {
    InvalidValue { field: &'static str, message: String },
    UnknownCommand { section: &'static str, id: String },
    DisabledCommandBound { id: String },
    DuplicateAccelerator { accelerator: String, kept: Command, dropped: Command },
}

impl ConfigIssue {
    /// The text of the issue, as shown in warnings.
    pub open spec fn spec_message(&self) -> Seq<char> {
        match self {
            ConfigIssue::InvalidValue { field, message } => field@ + ": "@ + message@ + "; using the default value"@,
            ConfigIssue::UnknownCommand { section, id } => section@ + ": unknown command id "@ + debug_quoted(id@)
                + "; ignored"@,
            ConfigIssue::DisabledCommandBound { id } => "hotkeys: "@ + debug_quoted(id@)
                + " is bound but listed in commands.disabled; the hotkey is dropped"@,
            ConfigIssue::DuplicateAccelerator { accelerator, kept, dropped } => "hotkeys: "@ + debug_quoted(
                accelerator@,
            ) + " is bound to both "@ + kept.spec_label() + " and "@ + dropped.spec_label() + "; keeping "@
                + kept.spec_label(),
        }
    }

    /// Returns the text of the issue, such as
    /// `hotkeys: "nope" is bound but listed in commands.disabled; the hotkey is dropped`.
    pub fn message(&self) -> (text: String)
        ensures
            text@ == self.spec_message(),
    {
        let mut out = String::new();
        match self {
            ConfigIssue::InvalidValue { field, message } => {
                push_text(&mut out, field);
                push_text(&mut out, ": ");
                push_text(&mut out, message.as_str());
                push_text(&mut out, "; using the default value");
            },
            ConfigIssue::UnknownCommand { section, id } => {
                push_text(&mut out, section);
                push_text(&mut out, ": unknown command id ");
                push_debug_quoted(&mut out, id.as_str());
                push_text(&mut out, "; ignored");
            },
            ConfigIssue::DisabledCommandBound { id } => {
                push_text(&mut out, "hotkeys: ");
                push_debug_quoted(&mut out, id.as_str());
                push_text(&mut out, " is bound but listed in commands.disabled; the hotkey is dropped");
            },
            ConfigIssue::DuplicateAccelerator { accelerator, kept, dropped } => {
                push_text(&mut out, "hotkeys: ");
                push_debug_quoted(&mut out, accelerator.as_str());
                push_text(&mut out, " is bound to both ");
                push_text(&mut out, kept.label());
                push_text(&mut out, " and ");
                push_text(&mut out, dropped.label());
                push_text(&mut out, "; keeping ");
                push_text(&mut out, kept.label());
            },
        }
        proof {
            assert(out@ =~= self.spec_message());
        }
        out
    }
}

/// A [`ConfigIssue`] with its texts as character sequences.
pub enum ConfigIssueView {
    InvalidValue { field: Seq<char>, message: Seq<char> },
    UnknownCommand { section: Seq<char>, id: Seq<char> },
    DisabledCommandBound { id: Seq<char> },
    DuplicateAccelerator { accelerator: Seq<char>, kept: Command, dropped: Command },
}

impl View for ConfigIssue {
    type V = ConfigIssueView;

    open spec fn view(&self) -> ConfigIssueView {
        match self {
            ConfigIssue::InvalidValue { field, message } => ConfigIssueView::InvalidValue {
                field: field@,
                message: message@,
            },
            ConfigIssue::UnknownCommand { section, id } => ConfigIssueView::UnknownCommand {
                section: section@,
                id: id@,
            },
            ConfigIssue::DisabledCommandBound { id } => ConfigIssueView::DisabledCommandBound {
                id: id@,
            },
            ConfigIssue::DuplicateAccelerator { accelerator, kept, dropped } =>
                ConfigIssueView::DuplicateAccelerator {
                accelerator: accelerator@,
                kept: *kept,
                dropped: *dropped,
            },
        }
    }
}

/// The issues as views.
pub open spec fn issues_view(issues: Seq<ConfigIssue>) -> Seq<ConfigIssueView> {
    issues.map_values(|issue: ConfigIssue| issue@)
}

/// The `[commands]` section of the config file.
#[derive(Debug, Clone, Default, PartialEq)]
pub struct CommandsSection {
    pub disabled: Vec<String>,
}

/// The texts of a list of strings.
pub open spec fn strings_view(strings: Seq<String>) -> Seq<Seq<char>> {
    strings.map_values(|s: String| s@)
}

/// Whether some id of `ids` names `command`.
pub open spec fn is_listed(ids: Seq<Seq<char>>, command: Command) -> bool {
    exists|i: int| 0 <= i < ids.len() && ids[i] == command.spec_id()
}

/// The commands that some id of `ids` names.
pub open spec fn disabled_set(ids: Seq<Seq<char>>) -> Set<Command> {
    Set::new(|c: Command| is_listed(ids, c))
}

/// One `commands.disabled` issue for each id that names no command, in order.
pub open spec fn unknown_disabled_issues(ids: Seq<Seq<char>>) -> Seq<ConfigIssueView>
    decreases ids.len(),
{
    if ids.len() == 0 {
        Seq::empty()
    } else {
        let earlier = unknown_disabled_issues(ids.drop_last());
        if names_command(ids.last()) {
            earlier
        } else {
            earlier.push(ConfigIssueView::UnknownCommand { section: "commands.disabled"@, id: ids.last() })
        }
    }
}

proof fn lemma_is_listed_push(prefix: Seq<Seq<char>>, next: Seq<Seq<char>>)
    requires
        next.len() == prefix.len() + 1,
        next.drop_last() == prefix,
    ensures
        forall|c: Command| #[trigger] is_listed(next, c) <==> (is_listed(prefix, c) || next.last() == c.spec_id()),
{
    assert forall|c: Command| #[trigger] is_listed(next, c) <==> (is_listed(prefix, c) || next.last() == c.spec_id()) by {
        if is_listed(prefix, c) {
            let k = choose|k: int| 0 <= k < prefix.len() && prefix[k] == c.spec_id();
            assert(next[k] == prefix[k]);
        }
        if is_listed(next, c) {
            let k = choose|k: int| 0 <= k < next.len() && next[k] == c.spec_id();
            if k < prefix.len() {
                assert(prefix[k] == next[k]);
            }
        }
        if next.last() == c.spec_id() {
            assert(next[next.len() - 1] == c.spec_id());
        }
    }
}

/// Resolves the `commands.disabled` list: the commands it names, each once.
/// Every id that names no command is reported and ignored.
pub fn resolve_disabled(section: &CommandsSection, issues: &mut Vec<ConfigIssue>) -> (disabled: Vec<Command>)
    ensures
        forall|c: Command| disabled@.contains(c) <==> is_listed(strings_view(section.disabled@), c),
        disabled@.no_duplicates(),
        issues_view(final(issues)@) == issues_view(old(issues)@) + unknown_disabled_issues(
            strings_view(section.disabled@),
        ),
{
    let ghost ids = strings_view(section.disabled@);
    let ghost start = issues_view(issues@);
    let mut disabled: Vec<Command> = Vec::new();
    let mut i: usize = 0;
    while i < section.disabled.len()
        invariant
            i <= section.disabled@.len(),
            ids == strings_view(section.disabled@),
            forall|c: Command| disabled@.contains(c) <==> is_listed(ids.subrange(0, i as int), c),
            disabled@.no_duplicates(),
            issues_view(issues@) == start + unknown_disabled_issues(ids.subrange(0, i as int)),
        decreases section.disabled.len() - i,
    {
        let ghost prefix = ids.subrange(0, i as int);
        let ghost next = ids.subrange(0, i as int + 1);
        proof {
            assert(next.drop_last() =~= prefix);
            assert(next.last() == section.disabled@[i as int]@);
        }
        let id = &section.disabled[i];
        proof {
            lemma_is_listed_push(prefix, next);
        }
        match Command::from_id(id.as_str()) {
            Some(command) => {
                proof {
                    lemma_command_named(command, id@);
                }
                let ghost old_disabled = disabled@;
                if !contains_command(&disabled, command) {
                    disabled.push(command);
                    proof {
                        assert(disabled@[disabled@.len() - 1] == command);
                        assert forall|c: Command| old_disabled.contains(c) implies disabled@.contains(c) by {
                            let k = choose|k: int| 0 <= k < old_disabled.len() && old_disabled[k] == c;
                            assert(disabled@[k] == c);
                        }
                        assert forall|c: Command| disabled@.contains(c) implies old_disabled.contains(c) || c == command by {
                            let k = choose|k: int| 0 <= k < disabled@.len() && disabled@[k] == c;
                            if k < old_disabled.len() {
                                assert(old_disabled[k] == c);
                            }
                        }
                    }
                }
                proof {
                    assert(forall|c: Command| disabled@.contains(c) <==> (old_disabled.contains(c) || c == command));
                    assert(forall|c: Command| old_disabled.contains(c) <==> is_listed(prefix, c));
                    assert forall|c: Command| disabled@.contains(c) <==> is_listed(next, c) by {
                        assert(is_listed(next, c) <==> (is_listed(prefix, c) || next.last() == c.spec_id()));
                        if c.spec_id() == next.last() {
                            crate::command::lemma_ids_distinct(c, command);
                        }
                    }
                }
            },
            None => {
                let ghost before = issues@;
                issues.push(ConfigIssue::UnknownCommand { section: "commands.disabled", id: id.clone() });
                proof {
                    assert(issues_view(issues@) =~= issues_view(before).push(issues@.last()@));
                }
            },
        }
        i = i + 1;
    }
    proof {
        assert(ids.subrange(0, ids.len() as int) =~= ids);
    }
    disabled
}

/// The accelerator texts per command position, `None` for an unbound
/// command.
pub open spec fn accelerators_view(accelerators: Seq<Option<String>>) -> Seq<Option<Seq<char>>> {
    accelerators.map_values(|a: Option<String>| option_view(a))
}

/// The default accelerator of each command on `platform`, by position in
/// `Command::ALL`.
pub open spec fn default_accelerators(platform: HotkeyPlatform) -> Seq<Option<Seq<char>>> {
    Seq::new(COMMAND_COUNT as nat, |i: int| accelerator_for(default_bindings(platform), Command::ALL@[i]))
}

/// The accelerators after one `[hotkeys]` entry: an unknown id changes
/// nothing, a blank accelerator unbinds the command, a disabled command keeps
/// its (ignored) accelerator, and any other accelerator rebinds the command.
pub open spec fn override_step(
    accelerators: Seq<Option<Seq<char>>>,
    id: Seq<char>,
    accelerator: Seq<char>,
    disabled: Set<Command>,
) -> Seq<Option<Seq<char>>> {
    if !names_command(id) {
        accelerators
    } else if is_blank_text(accelerator) {
        accelerators.update(command_named(id).index(), None)
    } else if disabled.contains(command_named(id)) {
        accelerators
    } else {
        accelerators.update(command_named(id).index(), Some(accelerator))
    }
}

/// The issue that one `[hotkeys]` entry raises, if any.
pub open spec fn override_issue(id: Seq<char>, accelerator: Seq<char>, disabled: Set<Command>) -> Seq<ConfigIssueView> {
    if !names_command(id) {
        seq![ConfigIssueView::UnknownCommand { section: "hotkeys"@, id }]
    } else if is_blank_text(accelerator) {
        Seq::empty()
    } else if disabled.contains(command_named(id)) {
        seq![ConfigIssueView::DisabledCommandBound { id }]
    } else {
        Seq::empty()
    }
}

/// The accelerators after applying every `[hotkeys]` entry in order.
pub open spec fn overridden_accelerators(
    defaults: Seq<Option<Seq<char>>>,
    overrides: Seq<(Seq<char>, Seq<char>)>,
    disabled: Set<Command>,
) -> Seq<Option<Seq<char>>>
    decreases overrides.len(),
{
    if overrides.len() == 0 {
        defaults
    } else {
        override_step(
            overridden_accelerators(defaults, overrides.drop_last(), disabled),
            overrides.last().0,
            overrides.last().1,
            disabled,
        )
    }
}

/// The issues that the `[hotkeys]` entries raise, in order.
pub open spec fn override_issues(overrides: Seq<(Seq<char>, Seq<char>)>, disabled: Set<Command>) -> Seq<ConfigIssueView>
    decreases overrides.len(),
{
    if overrides.len() == 0 {
        Seq::empty()
    } else {
        override_issues(overrides.drop_last(), disabled) + override_issue(
            overrides.last().0,
            overrides.last().1,
            disabled,
        )
    }
}

/// The command of `bindings` that holds `accelerator`; the last one if
/// several do.
pub open spec fn holder_of(bindings: Seq<(Command, Seq<char>)>, accelerator: Seq<char>) -> Option<Command>
    decreases bindings.len(),
{
    if bindings.len() == 0 {
        None
    } else if bindings.last().1 == accelerator {
        Some(bindings.last().0)
    } else {
        holder_of(bindings.drop_last(), accelerator)
    }
}

/// The hotkeys kept for `commands`, in order, with the duplicate issues:
/// disabled and unbound commands get no hotkey, and an accelerator already
/// held by an earlier command is dropped and reported.
pub open spec fn kept_bindings(
    commands: Seq<Command>,
    accelerators: Seq<Option<Seq<char>>>,
    disabled: Set<Command>,
) -> (Seq<(Command, Seq<char>)>, Seq<ConfigIssueView>)
    decreases commands.len(),
{
    if commands.len() == 0 {
        (Seq::empty(), Seq::empty())
    } else {
        let (bindings, issues) = kept_bindings(commands.drop_last(), accelerators, disabled);
        let command = commands.last();
        if disabled.contains(command) {
            (bindings, issues)
        } else {
            match accelerators[command.index()] {
                None => (bindings, issues),
                Some(accelerator) => match holder_of(bindings, accelerator) {
                    Some(kept) => (
                        bindings,
                        issues.push(
                            ConfigIssueView::DuplicateAccelerator { accelerator, kept, dropped: command },
                        ),
                    ),
                    None => (bindings.push((command, accelerator)), issues),
                },
            }
        }
    }
}

/// The `[hotkeys]` entries as pairs of texts.
pub open spec fn overrides_view(overrides: Seq<(String, String)>) -> Seq<(Seq<char>, Seq<char>)> {
    overrides.map_values(|entry: (String, String)| (entry.0@, entry.1@))
}

/// The hotkeys that result from the defaults of `platform`, the `[hotkeys]`
/// entries and the disabled commands, with the issues they raise.
pub open spec fn resolved_hotkeys(
    overrides: Seq<(Seq<char>, Seq<char>)>,
    disabled: Set<Command>,
    platform: HotkeyPlatform,
) -> (Seq<(Command, Seq<char>)>, Seq<ConfigIssueView>) {
    let accelerators = overridden_accelerators(default_accelerators(platform), overrides, disabled);
    let (bindings, duplicates) = kept_bindings(Command::ALL@, accelerators, disabled);
    (bindings, override_issues(overrides, disabled) + duplicates)
}

/// The command in `bindings` that already holds `accelerator`, the last one
/// winning.
fn find_holder(bindings: &Vec<HotkeyBinding>, accelerator: &String) -> (holder: Option<Command>)
    ensures
        holder == holder_of(bindings_view(bindings@), accelerator@),
{
    let mut found: Option<Command> = None;
    let mut i: usize = 0;
    while i < bindings.len()
        invariant
            i <= bindings@.len(),
            found == holder_of(bindings_view(bindings@.subrange(0, i as int)), accelerator@),
        decreases bindings.len() - i,
    {
        let ghost before = bindings_view(bindings@.subrange(0, i as int));
        let ghost after = bindings_view(bindings@.subrange(0, i as int + 1));
        proof {
            assert(after.drop_last() =~= before);
        }
        if bindings[i].accelerator == *accelerator {
            found = Some(bindings[i].command);
        }
        i = i + 1;
    }
    proof {
        assert(bindings@.subrange(0, bindings@.len() as int) =~= bindings@);
    }
    found
}

/// Resolves the hotkeys: the defaults of `platform`, rebound or unbound by
/// the `[hotkeys]` entries (given in key order), without disabled commands and
/// without a second command on an accelerator that an earlier command (in
/// menu order) already holds. Unknown ids, bindings of disabled commands and
/// dropped duplicates are reported.
pub fn resolve_hotkeys(
    overrides: &Vec<(String, String)>,
    disabled: &Vec<Command>,
    platform: HotkeyPlatform,
    issues: &mut Vec<ConfigIssue>,
) -> (bindings: Vec<HotkeyBinding>)
    ensures
        bindings_view(bindings@) == resolved_hotkeys(overrides_view(overrides@), disabled@.to_set(), platform).0,
        issues_view(final(issues)@) == issues_view(old(issues)@) + resolved_hotkeys(
            overrides_view(overrides@),
            disabled@.to_set(),
            platform,
        ).1,
{
    let ghost start = issues_view(issues@);
    let ghost ov = overrides_view(overrides@);
    let defaults = default_hotkey_bindings_for(platform);
    let mut accelerators: Vec<Option<String>> = Vec::new();
    let mut i: usize = 0;
    while i < COMMAND_COUNT
        invariant
            i <= COMMAND_COUNT,
            bindings_view(defaults@) == default_bindings(platform),
            accelerators_view(accelerators@) =~= default_accelerators(platform).subrange(0, i as int),
        decreases COMMAND_COUNT - i,
    {
        let accelerator = find_accelerator(&defaults, Command::ALL[i]);
        let ghost before = accelerators@;
        accelerators.push(accelerator);
        proof {
            assert(accelerators_view(accelerators@) =~= accelerators_view(before).push(option_view(accelerator)));
        }
        i = i + 1;
    }
    let mut k: usize = 0;
    while k < overrides.len()
        invariant
            k <= overrides@.len(),
            ov == overrides_view(overrides@),
            accelerators@.len() == COMMAND_COUNT,
            accelerators_view(accelerators@) == overridden_accelerators(
                default_accelerators(platform),
                ov.subrange(0, k as int),
                disabled@.to_set(),
            ),
            issues_view(issues@) == start + override_issues(ov.subrange(0, k as int), disabled@.to_set()),
        decreases overrides.len() - k,
    {
        let ghost prefix = ov.subrange(0, k as int);
        let ghost next = ov.subrange(0, k as int + 1);
        let ghost before_accelerators = accelerators_view(accelerators@);
        let ghost before_issues = issues@;
        proof {
            assert(next.drop_last() =~= prefix);
        }
        let id = &overrides[k].0;
        let accelerator = &overrides[k].1;
        proof {
            assert(next.last() == (id@, accelerator@));
        }
        match Command::from_id(id.as_str()) {
            None => {
                issues.push(ConfigIssue::UnknownCommand { section: "hotkeys", id: id.clone() });
                proof {
                    assert(issues_view(issues@) =~= issues_view(before_issues).push(issues@.last()@));
                }
            },
            Some(command) => {
                proof {
                    lemma_command_named(command, id@);
                }
                if is_blank(accelerator.as_str()) {
                    accelerators.set(command.position(), None);
                    proof {
                        assert(accelerators_view(accelerators@) =~= before_accelerators.update(command.index(), None));
                    }
                } else if contains_command(disabled, command) {
                    issues.push(ConfigIssue::DisabledCommandBound { id: id.clone() });
                    proof {
                        assert(issues_view(issues@) =~= issues_view(before_issues).push(issues@.last()@));
                    }
                } else {
                    accelerators.set(command.position(), Some(accelerator.clone()));
                    proof {
                        assert(accelerators_view(accelerators@) =~= before_accelerators.update(
                            command.index(),
                            Some(accelerator@),
                        ));
                    }
                }
            },
        }
        k = k + 1;
    }
    proof {
        assert(ov.subrange(0, ov.len() as int) =~= ov);
    }
    let ghost final_accelerators = accelerators_view(accelerators@);
    let ghost after_overrides = issues_view(issues@);
    let mut bindings: Vec<HotkeyBinding> = Vec::new();
    let mut i: usize = 0;
    while i < COMMAND_COUNT
        invariant
            i <= COMMAND_COUNT,
            accelerators@.len() == COMMAND_COUNT,
            final_accelerators == accelerators_view(accelerators@),
            bindings_view(bindings@) == kept_bindings(Command::ALL@.subrange(0, i as int), final_accelerators, disabled@.to_set()).0,
            issues_view(issues@) == after_overrides + kept_bindings(
                Command::ALL@.subrange(0, i as int),
                final_accelerators,
                disabled@.to_set(),
            ).1,
        decreases COMMAND_COUNT - i,
    {
        let command = Command::ALL[i];
        let ghost prefix = Command::ALL@.subrange(0, i as int);
        let ghost next = Command::ALL@.subrange(0, i as int + 1);
        let ghost before_bindings = bindings@;
        let ghost before_issues = issues@;
        proof {
            assert(next.drop_last() =~= prefix);
            assert(next.last() == command);
            lemma_all_index(command);
            crate::command::lemma_index_in_all(i as int);
        }
        if !contains_command(disabled, command) {
            match &accelerators[i] {
                None => {},
                Some(accelerator) => {
                    proof {
                        assert(final_accelerators[command.index()] == Some(accelerator@));
                    }
                    match find_holder(&bindings, accelerator) {
                        Some(kept) => {
                            issues.push(
                                ConfigIssue::DuplicateAccelerator {
                                    accelerator: accelerator.clone(),
                                    kept,
                                    dropped: command,
                                },
                            );
                            proof {
                                assert(issues_view(issues@) =~= issues_view(before_issues).push(issues@.last()@));
                            }
                        },
                        None => {
                            bindings.push(HotkeyBinding { command, accelerator: accelerator.clone() });
                            proof {
                                assert(bindings_view(bindings@) =~= bindings_view(before_bindings).push(
                                    (command, accelerator@),
                                ));
                            }
                        },
                    }
                },
            }
        }
        i = i + 1;
    }
    proof {
        assert(Command::ALL@.subrange(0, COMMAND_COUNT as int) =~= Command::ALL@);
    }
    bindings
}

/// `commands` without the disabled ones, in order.
pub open spec fn enabled_commands(commands: Seq<Command>, disabled: Set<Command>) -> Seq<Command>
    decreases commands.len(),
{
    if commands.len() == 0 {
        Seq::empty()
    } else {
        let earlier = enabled_commands(commands.drop_last(), disabled);
        if disabled.contains(commands.last()) {
            earlier
        } else {
            earlier.push(commands.last())
        }
    }
}

/// Every command in menu order, without the disabled ones.
pub fn resolve_enabled_commands(disabled: &Vec<Command>) -> (enabled: Vec<Command>)
    ensures
        enabled@ == enabled_commands(Command::ALL@, disabled@.to_set()),
{
    let mut enabled: Vec<Command> = Vec::new();
    let mut i: usize = 0;
    while i < COMMAND_COUNT
        invariant
            i <= COMMAND_COUNT,
            enabled@ == enabled_commands(Command::ALL@.subrange(0, i as int), disabled@.to_set()),
        decreases COMMAND_COUNT - i,
    {
        let command = Command::ALL[i];
        proof {
            assert(Command::ALL@.subrange(0, i as int + 1).drop_last() =~= Command::ALL@.subrange(0, i as int));
        }
        if !contains_command(disabled, command) {
            enabled.push(command);
        }
        i = i + 1;
    }
    proof {
        assert(Command::ALL@.subrange(0, COMMAND_COUNT as int) =~= Command::ALL@);
    }
    enabled
}

/// The menu entries and hotkeys that the `[hotkeys]` entries (in key order)
/// and the `[commands]` section give on `platform`.
///
/// Disabled commands are left out of both. Issues are appended in the order
/// the config is read: unknown disabled ids, then the hotkey issues.
pub fn resolve(
    hotkeys: &Vec<(String, String)>,
    commands: &CommandsSection,
    platform: HotkeyPlatform,
    issues: &mut Vec<ConfigIssue>,
) -> (resolved: (Vec<MenuEntry>, Vec<HotkeyBinding>))
    ensures
        ({
            let ids = strings_view(commands.disabled@);
            exists|disabled: Set<Command>| {
                &&& forall|c: Command| disabled.contains(c) <==> is_listed(ids, c)
                &&& bindings_view(resolved.1@) == resolved_hotkeys(overrides_view(hotkeys@), disabled, platform).0
                &&& menu_entries_view(resolved.0@) == menu_for(
                    enabled_commands(Command::ALL@, disabled),
                    bindings_view(resolved.1@),
                )
                &&& issues_view(final(issues)@) == issues_view(old(issues)@) + unknown_disabled_issues(ids)
                    + resolved_hotkeys(overrides_view(hotkeys@), disabled, platform).1
            }
        }),
{
    let disabled = resolve_disabled(commands, issues);
    let hotkey_bindings = resolve_hotkeys(hotkeys, &disabled, platform, issues);
    let enabled = resolve_enabled_commands(&disabled);
    let menu_entries = menu_entries_for(&enabled, &hotkey_bindings);
    proof {
        assert(disabled@.to_set() =~= disabled_set(strings_view(commands.disabled@)));
    }
    (menu_entries, hotkey_bindings)
}

/// No holder means no binding has the accelerator.
pub proof fn lemma_holder_of_none(bindings: Seq<(Command, Seq<char>)>, accelerator: Seq<char>)
    ensures
        holder_of(bindings, accelerator) is None <==> forall|i: int|
            0 <= i < bindings.len() ==> (#[trigger] bindings[i]).1 != accelerator,
    decreases bindings.len(),
{
    if bindings.len() > 0 {
        let rest = bindings.drop_last();
        lemma_holder_of_none(rest, accelerator);
        if holder_of(bindings, accelerator) is None {
            assert forall|i: int| 0 <= i < bindings.len() implies (#[trigger] bindings[i]).1 != accelerator by {
                if i < rest.len() {
                    assert(rest[i] == bindings[i]);
                }
            }
        } else if bindings.last().1 != accelerator {
            let k = choose|k: int| 0 <= k < rest.len() && (#[trigger] rest[k]).1 == accelerator;
            assert(bindings[k] == rest[k]);
        }
    }
}

/// Commands listed in strictly increasing menu position.
pub open spec fn in_menu_order(commands: Seq<Command>) -> bool {
    forall|i: int, j: int| 0 <= i < j < commands.len() ==> (#[trigger] commands[i]).index() < (#[trigger] commands[j]).index()
}

/// The hotkeys kept for `commands` hold distinct accelerators, bind only
/// enabled commands to their own accelerator, and follow the order of
/// `commands`.
pub proof fn lemma_kept_bindings(
    commands: Seq<Command>,
    accelerators: Seq<Option<Seq<char>>>,
    disabled: Set<Command>,
)
    requires
        in_menu_order(commands),
    ensures
        ({
            let kept = kept_bindings(commands, accelerators, disabled).0;
            &&& forall|i: int, j: int|
                0 <= i < j < kept.len() ==> (#[trigger] kept[i]).1 != (#[trigger] kept[j]).1
            &&& forall|i: int, j: int|
                0 <= i < j < kept.len() ==> (#[trigger] kept[i]).0.index() < (#[trigger] kept[j]).0.index()
            &&& forall|i: int|
                0 <= i < kept.len() ==> {
                    &&& !disabled.contains((#[trigger] kept[i]).0)
                    &&& accelerators[kept[i].0.index()] == Some(kept[i].1)
                    &&& commands.contains(kept[i].0)
                }
        }),
    decreases commands.len(),
{
    if commands.len() > 0 {
        let rest = commands.drop_last();
        assert forall|i: int, j: int| 0 <= i < j < rest.len() implies (#[trigger] rest[i]).index() < (#[trigger] rest[j]).index() by {
            assert(rest[i] == commands[i] && rest[j] == commands[j]);
        }
        lemma_kept_bindings(rest, accelerators, disabled);
        let earlier = kept_bindings(rest, accelerators, disabled).0;
        let command = commands.last();
        assert forall|i: int| 0 <= i < earlier.len() implies commands.contains((#[trigger] earlier[i]).0) && earlier[i].0.index() < command.index() by {
            let k = choose|k: int| 0 <= k < rest.len() && rest[k] == earlier[i].0;
            assert(commands[k] == rest[k]);
            assert(commands[commands.len() - 1] == command);
        }
        if !disabled.contains(command) {
            if let Some(accelerator) = accelerators[command.index()] {
                lemma_holder_of_none(earlier, accelerator);
                if holder_of(earlier, accelerator) is None {
                    let kept = earlier.push((command, accelerator));
                    assert(kept[kept.len() - 1] == (command, accelerator));
                    assert(commands[commands.len() - 1] == command);
                    assert forall|i: int| 0 <= i < kept.len() implies commands.contains((#[trigger] kept[i]).0) by {
                        if i < earlier.len() {
                            assert(kept[i] == earlier[i]);
                        }
                    }
                }
            }
        }
    }
}

/// The resolved hotkeys never bind a disabled command, bind each command at
/// most once and in menu order, and never put two commands on one
/// accelerator.
pub proof fn lemma_resolved_hotkeys_are_consistent(
    overrides: Seq<(Seq<char>, Seq<char>)>,
    disabled: Set<Command>,
    platform: HotkeyPlatform,
)
    ensures
        ({
            let bindings = resolved_hotkeys(overrides, disabled, platform).0;
            &&& forall|i: int, j: int|
                0 <= i < j < bindings.len() ==> (#[trigger] bindings[i]).1 != (#[trigger] bindings[j]).1
            &&& forall|i: int, j: int|
                0 <= i < j < bindings.len() ==> (#[trigger] bindings[i]).0.index() < (#[trigger] bindings[j]).0.index()
            &&& forall|i: int| 0 <= i < bindings.len() ==> !disabled.contains((#[trigger] bindings[i]).0)
        }),
{
    let accelerators = overridden_accelerators(default_accelerators(platform), overrides, disabled);
    assert forall|i: int, j: int| 0 <= i < j < Command::ALL@.len() implies (#[trigger] Command::ALL@[i]).index() < (#[trigger] Command::ALL@[j]).index() by {
        crate::command::lemma_index_in_all(i);
        crate::command::lemma_index_in_all(j);
    }
    lemma_kept_bindings(Command::ALL@, accelerators, disabled);
}

/// Every enabled command whose accelerator no earlier enabled command of
/// `commands` has keeps its hotkey: only an enabled command can hold an
/// accelerator, so a disabled command never takes one away.
pub proof fn lemma_kept_bindings_complete(
    commands: Seq<Command>,
    accelerators: Seq<Option<Seq<char>>>,
    disabled: Set<Command>,
    i: int,
    accelerator: Seq<char>,
)
    requires
        in_menu_order(commands),
        0 <= i < commands.len(),
        !disabled.contains(commands[i]),
        accelerators[commands[i].index()] == Some(accelerator),
        forall|j: int|
            0 <= j < i && !disabled.contains(#[trigger] commands[j]) ==> accelerators[commands[j].index()] != Some(
                accelerator,
            ),
    ensures
        kept_bindings(commands, accelerators, disabled).0.contains((commands[i], accelerator)),
    decreases commands.len(),
{
    let rest = commands.drop_last();
    assert forall|a: int, b: int| 0 <= a < b < rest.len() implies (#[trigger] rest[a]).index() < (#[trigger] rest[b]).index() by {
        assert(rest[a] == commands[a] && rest[b] == commands[b]);
    }
    let earlier = kept_bindings(rest, accelerators, disabled).0;
    let command = commands.last();
    if i < rest.len() {
        assert(rest[i] == commands[i]);
        assert forall|j: int| 0 <= j < i && !disabled.contains(#[trigger] rest[j]) implies accelerators[rest[j].index()]
            != Some(accelerator) by {
            assert(rest[j] == commands[j]);
        }
        lemma_kept_bindings_complete(rest, accelerators, disabled, i, accelerator);
        let k = choose|k: int| 0 <= k < earlier.len() && earlier[k] == (commands[i], accelerator);
        if !disabled.contains(command) {
            if let Some(held) = accelerators[command.index()] {
                if holder_of(earlier, held) is None {
                    assert(earlier.push((command, held))[k] == (commands[i], accelerator));
                }
            }
        }
    } else {
        assert(command == commands[i]);
        lemma_kept_bindings(rest, accelerators, disabled);
        assert forall|k: int| 0 <= k < earlier.len() implies (#[trigger] earlier[k]).1 != accelerator by {
            let c = earlier[k].0;
            assert(rest.contains(c));
            let j = choose|j: int| 0 <= j < rest.len() && rest[j] == c;
            assert(commands[j] == rest[j]);
        }
        lemma_holder_of_none(earlier, accelerator);
        let kept = earlier.push((command, accelerator));
        assert(kept[earlier.len() as int] == (commands[i], accelerator));
    }
}

/// Every enabled command whose final accelerator no enabled command before
/// it in menu order has is bound to that accelerator.
pub proof fn lemma_resolved_hotkeys_are_complete(
    overrides: Seq<(Seq<char>, Seq<char>)>,
    disabled: Set<Command>,
    platform: HotkeyPlatform,
    command: Command,
    accelerator: Seq<char>,
)
    requires
        !disabled.contains(command),
        overridden_accelerators(default_accelerators(platform), overrides, disabled)[command.index()] == Some(
            accelerator,
        ),
        forall|earlier: Command|
            earlier.index() < command.index() && !disabled.contains(earlier) ==> overridden_accelerators(
                default_accelerators(platform),
                overrides,
                disabled,
            )[#[trigger] earlier.index()] != Some(accelerator),
    ensures
        resolved_hotkeys(overrides, disabled, platform).0.contains((command, accelerator)),
{
    let accelerators = overridden_accelerators(default_accelerators(platform), overrides, disabled);
    assert forall|i: int, j: int| 0 <= i < j < Command::ALL@.len() implies (#[trigger] Command::ALL@[i]).index() < (#[trigger] Command::ALL@[j]).index() by {
        crate::command::lemma_index_in_all(i);
        crate::command::lemma_index_in_all(j);
    }
    crate::command::lemma_all_index(command);
    assert forall|j: int| 0 <= j < command.index() && !disabled.contains(#[trigger] Command::ALL@[j]) implies accelerators[Command::ALL@[j].index()]
        != Some(accelerator) by {
        crate::command::lemma_index_in_all(j);
    }
    lemma_kept_bindings_complete(Command::ALL@, accelerators, disabled, command.index(), accelerator);
}

/// The enabled commands are exactly the listed commands that are not
/// disabled, in their order.
pub proof fn lemma_enabled_commands(commands: Seq<Command>, disabled: Set<Command>)
    ensures
        forall|c: Command| enabled_commands(commands, disabled).contains(c) <==> (commands.contains(c)
            && !disabled.contains(c)),
    decreases commands.len(),
{
    if commands.len() > 0 {
        let rest = commands.drop_last();
        lemma_enabled_commands(rest, disabled);
        let earlier = enabled_commands(rest, disabled);
        assert forall|c: Command| enabled_commands(commands, disabled).contains(c) <==> (commands.contains(c)
            && !disabled.contains(c)) by {
            if commands.contains(c) {
                let k = choose|k: int| 0 <= k < commands.len() && commands[k] == c;
                if k < rest.len() {
                    assert(rest[k] == c);
                }
            }
            if rest.contains(c) {
                let k = choose|k: int| 0 <= k < rest.len() && rest[k] == c;
                assert(commands[k] == c);
            }
            assert(commands[commands.len() - 1] == commands.last());
            if !disabled.contains(commands.last()) {
                let now = earlier.push(commands.last());
                assert(now[now.len() - 1] == commands.last());
                if earlier.contains(c) {
                    let k = choose|k: int| 0 <= k < earlier.len() && earlier[k] == c;
                    assert(now[k] == c);
                }
                if now.contains(c) {
                    let k = choose|k: int| 0 <= k < now.len() && now[k] == c;
                    if k < earlier.len() {
                        assert(earlier[k] == c);
                    }
                }
            }
        }
    }
}

} // verus!
