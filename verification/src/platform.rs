//! Values shared by the runtime and the native platform adapters: screen and
//! command identities, menu entries, hotkey bindings, launch-at-login state and
//! platform errors.

use vstd::prelude::*;

use crate::command::{Command, COMMAND_COUNT, lemma_all_index, lemma_all_lists_every_command_once, lemma_index_in_all};
use crate::text::push_text;

verus! {

/// A display, identified by the platform.
#[derive(Debug, Clone, Copy, PartialEq, Eq, Hash, Structural)]
pub struct ScreenId(pub u64);

/// Where an invocation came from.
#[derive(Debug, Clone, Copy, PartialEq, Eq, Structural)]
pub enum CommandSource {
    Keyboard,
    Menu,
    Cli,
}

/// A command together with the input that asked for it.
#[derive(Debug, Clone, Copy, PartialEq, Eq, Structural)]
pub struct CommandInvocation {
    pub command: Command,
    pub source: CommandSource,
}

/// One command item of the tray menu.
#[derive(Debug, Clone, PartialEq)]
pub struct MenuEntry {
    pub command: Command,
    pub label: String,
    pub accelerator: Option<String>,
}

/// A global hotkey bound to a command.
#[derive(Debug, Clone, PartialEq)]
pub struct HotkeyBinding {
    pub command: Command,
    pub accelerator: String,
}

/// The characters of an optional string.
pub open spec fn option_view(value: Option<String>) -> Option<Seq<char>> {
    match value {
        Some(s) => Some(s@),
        None => None,
    }
}

/// Whether panes is registered to start at login.
#[derive(Debug, Clone, Copy, PartialEq, Eq, Structural)]
pub enum LaunchAtLoginStatus {
    Disabled,
    Enabled,
    RequiresApproval,
    Stale,
    Unavailable,
}

impl LaunchAtLoginStatus {
    /// Enabled, or enabled pending the user's approval.
    pub open spec fn spec_is_configured(self) -> bool {
        self is Enabled || self is RequiresApproval
    }

    /// Any registration exists, including a stale one.
    pub open spec fn spec_has_registration(self) -> bool {
        self is Enabled || self is RequiresApproval || self is Stale
    }

    /// The platform supports launching at login.
    pub open spec fn spec_is_available(self) -> bool {
        !(self is Unavailable)
    }

    /// Whether launching at login is enabled or awaits approval.
    pub fn is_configured(self) -> (configured: bool)
        ensures
            configured == self.spec_is_configured(),
    {
        matches!(self, Self::Enabled | Self::RequiresApproval)
    }

    /// Whether any login registration exists, stale ones included.
    pub fn has_registration(self) -> (registered: bool)
        ensures
            registered == self.spec_has_registration(),
    {
        matches!(self, Self::Enabled | Self::RequiresApproval | Self::Stale)
    }

    /// Whether the platform can launch panes at login at all.
    pub fn is_available(self) -> (available: bool)
        ensures
            available == self.spec_is_available(),
    {
        !matches!(self, Self::Unavailable)
    }
}

/// Configured login state implies a registration, and a registration implies
/// that the feature is available; a stale registration is not configured.
pub proof fn lemma_login_status_levels(status: LaunchAtLoginStatus)
    ensures
        status.spec_is_configured() ==> status.spec_has_registration(),
        status.spec_has_registration() ==> status.spec_is_available(),
        status is Stale ==> status.spec_has_registration() && !status.spec_is_configured(),
{
}

/// The platform whose default hotkeys apply.
#[derive(Debug, Clone, Copy, PartialEq, Eq, Structural)]
pub enum HotkeyPlatform {
    MacOs,
    Windows,
}

/// An error reported by a native platform adapter.
#[derive(Debug, Clone, PartialEq, Eq)]
pub enum PlatformError {
    Unsupported(&'static str),
    NotFound(&'static str),
    PermissionDenied(&'static str),
    Native(String),
}

/// The result of a native platform operation.
pub type PlatformResult<T> = Result<T, PlatformError>;

/// A native failure: what was being done, then what went wrong.
pub fn native_error(context: &str, error: &str) -> (native: PlatformError)
    ensures
        native matches PlatformError::Native(message) && message@ == context@ + ": "@ + error@,
{
    let mut message = String::new();
    push_text(&mut message, context);
    push_text(&mut message, ": ");
    push_text(&mut message, error);
    PlatformError::Native(message)
}

/// Why Windows refuses to move a window, checked in this order: a window
/// that no longer exists, a desktop, shell, child or tool window, a hidden
/// window, a minimized one, and one without a sizing border.
pub open spec fn spec_window_move_refusal(
    exists: bool,
    is_shell_or_tool: bool,
    is_visible: bool,
    is_minimized: bool,
    is_resizable: bool,
) -> Option<PlatformError> {
    if !exists {
        Some(PlatformError::NotFound("Windows window no longer exists"))
    } else if is_shell_or_tool {
        Some(PlatformError::Unsupported("Windows desktop, shell, child, and tool windows cannot be moved"))
    } else if !is_visible {
        Some(PlatformError::Unsupported("hidden Windows windows cannot be moved"))
    } else if is_minimized {
        Some(PlatformError::Unsupported("minimized Windows windows cannot be moved"))
    } else if !is_resizable {
        Some(PlatformError::Unsupported("non-resizable Windows windows cannot be moved"))
    } else {
        None
    }
}

/// Returns why Windows refuses to move a window in these states, if it does.
pub fn window_move_refusal(
    exists: bool,
    is_shell_or_tool: bool,
    is_visible: bool,
    is_minimized: bool,
    is_resizable: bool,
) -> (refusal: Option<PlatformError>)
    ensures
        refusal == spec_window_move_refusal(exists, is_shell_or_tool, is_visible, is_minimized, is_resizable),
{
    if !exists {
        Some(PlatformError::NotFound("Windows window no longer exists"))
    } else if is_shell_or_tool {
        Some(PlatformError::Unsupported("Windows desktop, shell, child, and tool windows cannot be moved"))
    } else if !is_visible {
        Some(PlatformError::Unsupported("hidden Windows windows cannot be moved"))
    } else if is_minimized {
        Some(PlatformError::Unsupported("minimized Windows windows cannot be moved"))
    } else if !is_resizable {
        Some(PlatformError::Unsupported("non-resizable Windows windows cannot be moved"))
    } else {
        None
    }
}

/// Number of commands that have a default hotkey.
pub const DEFAULT_BINDING_COUNT: usize = 25;

/// The default hotkeys: each bound command with its macOS and its Windows
/// accelerator.
pub open spec fn default_binding_table() -> Seq<(Command, Seq<char>, Seq<char>)> {
    seq![
        (Command::LeftHalf, "Control+Alt+ArrowLeft"@, "Control+Alt+ArrowLeft"@),
        (Command::RightHalf, "Control+Alt+ArrowRight"@, "Control+Alt+ArrowRight"@),
        (Command::TopHalf, "Control+Alt+ArrowUp"@, "Control+Alt+ArrowUp"@),
        (Command::BottomHalf, "Control+Alt+ArrowDown"@, "Control+Alt+ArrowDown"@),
        (Command::TopLeft, "Control+Alt+U"@, "Control+Shift+F1"@),
        (Command::TopRight, "Control+Alt+I"@, "Control+Shift+F2"@),
        (Command::BottomLeft, "Control+Alt+J"@, "Control+Shift+F3"@),
        (Command::BottomRight, "Control+Alt+K"@, "Control+Shift+F4"@),
        (Command::FirstThird, "Control+Alt+Digit1"@, "Control+Shift+F5"@),
        (Command::CenterThird, "Control+Alt+Digit2"@, "Control+Shift+F6"@),
        (Command::LastThird, "Control+Alt+Digit3"@, "Control+Shift+F7"@),
        (Command::FirstTwoThirds, "Control+Alt+Digit4"@, "Control+Shift+F8"@),
        (Command::CenterTwoThirds, "Control+Alt+Digit5"@, "Control+Shift+F9"@),
        (Command::LastTwoThirds, "Control+Alt+Digit6"@, "Control+Shift+F10"@),
        (Command::Maximize, "Control+Alt+Enter"@, "Control+Alt+Enter"@),
        (Command::AlmostMaximize, "Control+Alt+A"@, "Control+Shift+F11"@),
        (Command::MaximizeHeight, "Control+Alt+H"@, "Control+Alt+Shift+F1"@),
        (Command::Center, "Control+Alt+C"@, "Control+Alt+Shift+F2"@),
        (Command::Restore, "Control+Alt+Backspace"@, "Control+Alt+Backspace"@),
        (Command::MoveLeft, "Control+Alt+Shift+ArrowLeft"@, "Control+Alt+Shift+ArrowLeft"@),
        (Command::MoveRight, "Control+Alt+Shift+ArrowRight"@, "Control+Alt+Shift+ArrowRight"@),
        (Command::MoveUp, "Control+Alt+Shift+ArrowUp"@, "Control+Alt+Shift+ArrowUp"@),
        (Command::MoveDown, "Control+Alt+Shift+ArrowDown"@, "Control+Alt+Shift+ArrowDown"@),
        (Command::Grow, "Control+Alt+Equal"@, "Control+Alt+Shift+F3"@),
        (Command::Shrink, "Control+Alt+Minus"@, "Control+Alt+Shift+F4"@),
    ]
}

/// The default accelerator text of row `i` of the table on `platform`.
pub open spec fn default_accelerator(platform: HotkeyPlatform, i: int) -> Seq<char> {
    match platform {
        HotkeyPlatform::MacOs => default_binding_table()[i].1,
        HotkeyPlatform::Windows => default_binding_table()[i].2,
    }
}

/// A binding as the command it triggers and the accelerator text.
pub open spec fn binding_view(binding: HotkeyBinding) -> (Command, Seq<char>) {
    (binding.command, binding.accelerator@)
}

/// The bindings as pairs of command and accelerator text.
pub open spec fn bindings_view(bindings: Seq<HotkeyBinding>) -> Seq<(Command, Seq<char>)> {
    bindings.map_values(|b: HotkeyBinding| binding_view(b))
}

/// The default bindings of `platform` as pairs of command and accelerator.
pub open spec fn default_bindings(platform: HotkeyPlatform) -> Seq<(Command, Seq<char>)> {
    Seq::new(
        DEFAULT_BINDING_COUNT as nat,
        |i: int| (default_binding_table()[i].0, default_accelerator(platform, i)),
    )
}

/// The accelerator bound to `command`; when a command is bound more than
/// once, the last binding wins.
pub open spec fn accelerator_for(bindings: Seq<(Command, Seq<char>)>, command: Command) -> Option<Seq<char>>
    decreases bindings.len(),
{
    if bindings.len() == 0 {
        None
    } else if bindings.last().0 == command {
        Some(bindings.last().1)
    } else {
        accelerator_for(bindings.drop_last(), command)
    }
}

/// A menu entry as command, label text and optional accelerator text.
pub open spec fn menu_entry_view(entry: MenuEntry) -> (Command, Seq<char>, Option<Seq<char>>) {
    (entry.command, entry.label@, option_view(entry.accelerator))
}

/// The menu entries as views.
pub open spec fn menu_entries_view(entries: Seq<MenuEntry>) -> Seq<(Command, Seq<char>, Option<Seq<char>>)> {
    entries.map_values(|e: MenuEntry| menu_entry_view(e))
}

/// One menu entry per command of `commands`, in order, labelled with the
/// command's label and showing the accelerator that `bindings` give it.
pub open spec fn menu_for(commands: Seq<Command>, bindings: Seq<(Command, Seq<char>)>) -> Seq<(Command, Seq<char>, Option<Seq<char>>)> {
    commands.map_values(|c: Command| (c, c.spec_label(), accelerator_for(bindings, c)))
}

/// The default menu has one entry per command, in menu order, each labelled
/// with its command's label, so every command appears exactly once.
pub proof fn lemma_default_menu_lists_every_command_once(platform: HotkeyPlatform)
    ensures
        ({
            let menu = menu_for(Command::ALL@, default_bindings(platform));
            &&& menu.len() == COMMAND_COUNT
            &&& forall|i: int| 0 <= i < menu.len() ==> (#[trigger] menu[i]).0 == Command::ALL@[i] && menu[i].1
                == Command::ALL@[i].spec_label()
            &&& forall|c: Command| 0 <= c.index() < menu.len() && (#[trigger] menu[c.index()]).0 == c
            &&& forall|i: int, j: int| 0 <= i < menu.len() && 0 <= j < menu.len() && i != j ==> (#[trigger] menu[i]).0
                != (#[trigger] menu[j]).0
        }),
{
    lemma_all_lists_every_command_once();
    let menu = menu_for(Command::ALL@, default_bindings(platform));
    assert forall|c: Command| 0 <= c.index() < menu.len() && (#[trigger] menu[c.index()]).0 == c by {
        lemma_all_index(c);
    }
}

fn default_binding(platform: HotkeyPlatform, command: Command, macos: &str, windows: &str) -> (binding: HotkeyBinding)
    ensures
        binding.command == command,
        binding.accelerator@ == match platform {
            HotkeyPlatform::MacOs => macos@,
            HotkeyPlatform::Windows => windows@,
        },
{
    let accelerator = match platform {
        HotkeyPlatform::MacOs => String::from_str(macos),
        HotkeyPlatform::Windows => String::from_str(windows),
    };
    HotkeyBinding { command, accelerator }
}

/// The default hotkey bindings of `platform`.
///
/// Windows reserves shortcuts that use the Windows key, while Control+Alt
/// letter and digit chords collide with AltGr input, so on Windows the
/// directional commands stay on arrows and character-key commands move to
/// function keys. Center Half has no default hotkey.
pub fn default_hotkey_bindings_for(platform: HotkeyPlatform) -> (bindings: Vec<HotkeyBinding>)
    ensures
        bindings_view(bindings@) == default_bindings(platform),
{
    let mut bindings: Vec<HotkeyBinding> = Vec::new();
    bindings.push(default_binding(platform, Command::LeftHalf, "Control+Alt+ArrowLeft", "Control+Alt+ArrowLeft"));
    bindings.push(default_binding(platform, Command::RightHalf, "Control+Alt+ArrowRight", "Control+Alt+ArrowRight"));
    bindings.push(default_binding(platform, Command::TopHalf, "Control+Alt+ArrowUp", "Control+Alt+ArrowUp"));
    bindings.push(default_binding(platform, Command::BottomHalf, "Control+Alt+ArrowDown", "Control+Alt+ArrowDown"));
    bindings.push(default_binding(platform, Command::TopLeft, "Control+Alt+U", "Control+Shift+F1"));
    bindings.push(default_binding(platform, Command::TopRight, "Control+Alt+I", "Control+Shift+F2"));
    bindings.push(default_binding(platform, Command::BottomLeft, "Control+Alt+J", "Control+Shift+F3"));
    bindings.push(default_binding(platform, Command::BottomRight, "Control+Alt+K", "Control+Shift+F4"));
    bindings.push(default_binding(platform, Command::FirstThird, "Control+Alt+Digit1", "Control+Shift+F5"));
    bindings.push(default_binding(platform, Command::CenterThird, "Control+Alt+Digit2", "Control+Shift+F6"));
    bindings.push(default_binding(platform, Command::LastThird, "Control+Alt+Digit3", "Control+Shift+F7"));
    bindings.push(default_binding(platform, Command::FirstTwoThirds, "Control+Alt+Digit4", "Control+Shift+F8"));
    bindings.push(default_binding(platform, Command::CenterTwoThirds, "Control+Alt+Digit5", "Control+Shift+F9"));
    bindings.push(default_binding(platform, Command::LastTwoThirds, "Control+Alt+Digit6", "Control+Shift+F10"));
    bindings.push(default_binding(platform, Command::Maximize, "Control+Alt+Enter", "Control+Alt+Enter"));
    bindings.push(default_binding(platform, Command::AlmostMaximize, "Control+Alt+A", "Control+Shift+F11"));
    bindings.push(default_binding(platform, Command::MaximizeHeight, "Control+Alt+H", "Control+Alt+Shift+F1"));
    bindings.push(default_binding(platform, Command::Center, "Control+Alt+C", "Control+Alt+Shift+F2"));
    bindings.push(default_binding(platform, Command::Restore, "Control+Alt+Backspace", "Control+Alt+Backspace"));
    bindings.push(default_binding(platform, Command::MoveLeft, "Control+Alt+Shift+ArrowLeft", "Control+Alt+Shift+ArrowLeft"));
    bindings.push(default_binding(platform, Command::MoveRight, "Control+Alt+Shift+ArrowRight", "Control+Alt+Shift+ArrowRight"));
    bindings.push(default_binding(platform, Command::MoveUp, "Control+Alt+Shift+ArrowUp", "Control+Alt+Shift+ArrowUp"));
    bindings.push(default_binding(platform, Command::MoveDown, "Control+Alt+Shift+ArrowDown", "Control+Alt+Shift+ArrowDown"));
    bindings.push(default_binding(platform, Command::Grow, "Control+Alt+Equal", "Control+Alt+Shift+F3"));
    bindings.push(default_binding(platform, Command::Shrink, "Control+Alt+Minus", "Control+Alt+Shift+F4"));
    proof {
        assert(bindings_view(bindings@) =~= default_bindings(platform));
    }
    bindings
}

/// The accelerator that `bindings` give `command`, the last binding winning.
pub fn find_accelerator(bindings: &Vec<HotkeyBinding>, command: Command) -> (accelerator: Option<String>)
    ensures
        option_view(accelerator) == accelerator_for(bindings_view(bindings@), command),
{
    let mut found: Option<String> = None;
    let mut i: usize = 0;
    while i < bindings.len()
        invariant
            i <= bindings@.len(),
            option_view(found) == accelerator_for(bindings_view(bindings@.subrange(0, i as int)), command),
        decreases bindings.len() - i,
    {
        let ghost before = bindings_view(bindings@.subrange(0, i as int));
        let ghost after = bindings_view(bindings@.subrange(0, i as int + 1));
        proof {
            assert(after.drop_last() =~= before);
            assert(after.last() == binding_view(bindings@[i as int]));
        }
        if bindings[i].command == command {
            found = Some(bindings[i].accelerator.clone());
        }
        i = i + 1;
    }
    proof {
        assert(bindings@.subrange(0, bindings@.len() as int) =~= bindings@);
    }
    found
}

/// One menu entry per command of `commands`, in that order, labelled with
/// the command's label and showing its accelerator from `bindings`.
pub fn menu_entries_for(commands: &Vec<Command>, bindings: &Vec<HotkeyBinding>) -> (entries: Vec<MenuEntry>)
    ensures
        menu_entries_view(entries@) == menu_for(commands@, bindings_view(bindings@)),
{
    let mut entries: Vec<MenuEntry> = Vec::new();
    let mut i: usize = 0;
    while i < commands.len()
        invariant
            i <= commands@.len(),
            menu_entries_view(entries@) =~= menu_for(commands@.subrange(0, i as int), bindings_view(bindings@)),
        decreases commands.len() - i,
    {
        let command = commands[i];
        let entry = MenuEntry {
            command,
            label: String::from_str(command.label()),
            accelerator: find_accelerator(bindings, command),
        };
        let ghost old_entries = entries@;
        entries.push(entry);
        proof {
            let bv = bindings_view(bindings@);
            assert(menu_entries_view(entries@) =~= menu_entries_view(old_entries).push(menu_entry_view(entry)));
            assert(menu_for(commands@.subrange(0, i as int + 1), bv) =~= menu_for(commands@.subrange(0, i as int), bv).push(
                (command, command.spec_label(), accelerator_for(bv, command))));
        }
        i = i + 1;
    }
    proof {
        assert(commands@.subrange(0, commands@.len() as int) =~= commands@);
    }
    entries
}

/// Every command, in menu order.
pub fn all_commands() -> (commands: Vec<Command>)
    ensures
        commands@ == Command::ALL@,
{
    let mut commands: Vec<Command> = Vec::new();
    let mut i: usize = 0;
    while i < COMMAND_COUNT
        invariant
            i <= COMMAND_COUNT,
            commands@ =~= Command::ALL@.subrange(0, i as int),
        decreases COMMAND_COUNT - i,
    {
        commands.push(Command::ALL[i]);
        i = i + 1;
    }
    commands
}

/// The default tray menu on `platform`: one entry per command in menu order,
/// with its label and its default accelerator, if any.
pub fn default_menu_entries(platform: HotkeyPlatform) -> (entries: Vec<MenuEntry>)
    ensures
        menu_entries_view(entries@) == menu_for(Command::ALL@, default_bindings(platform)),
{
    let bindings = default_hotkey_bindings_for(platform);
    let commands = all_commands();
    menu_entries_for(&commands, &bindings)
}

/// A command that no binding mentions has no accelerator.
pub proof fn lemma_accelerator_for_unbound(bindings: Seq<(Command, Seq<char>)>, command: Command)
    requires
        forall|i: int| 0 <= i < bindings.len() ==> (#[trigger] bindings[i]).0 != command,
    ensures
        accelerator_for(bindings, command) is None,
    decreases bindings.len(),
{
    if bindings.len() > 0 {
        let rest = bindings.drop_last();
        assert forall|i: int| 0 <= i < rest.len() implies (#[trigger] rest[i]).0 != command by {
            assert(rest[i] == bindings[i]);
        }
        lemma_accelerator_for_unbound(rest, command);
    }
}

/// A command's accelerator comes from its last binding.
pub proof fn lemma_accelerator_for_last(bindings: Seq<(Command, Seq<char>)>, command: Command, k: int)
    requires
        0 <= k < bindings.len(),
        bindings[k].0 == command,
        forall|j: int| k < j < bindings.len() ==> (#[trigger] bindings[j]).0 != command,
    ensures
        accelerator_for(bindings, command) == Some(bindings[k].1),
    decreases bindings.len(),
{
    if k < bindings.len() - 1 {
        let rest = bindings.drop_last();
        assert(bindings[bindings.len() - 1].0 != command);
        assert forall|j: int| k < j < rest.len() implies (#[trigger] rest[j]).0 != command by {
            assert(rest[j] == bindings[j]);
        }
        lemma_accelerator_for_last(rest, command, k);
    }
}

/// The command of the `i`-th default binding sits at position `i` of
/// `Command::ALL`, or `i + 1` past Center Half (position 2), which is the
/// one command without a default hotkey.
pub proof fn lemma_default_binding_commands(platform: HotkeyPlatform)
    ensures
        forall|i: int| 0 <= i < DEFAULT_BINDING_COUNT ==> (#[trigger] default_bindings(platform)[i]).0.index()
            == if i < 2 { i } else { i + 1 },
{
    let t = default_binding_table();
    assert forall|i: int| 0 <= i < DEFAULT_BINDING_COUNT implies (#[trigger] t[i]).0.index()
        == if i < 2 { i } else { i + 1 } by {
    }
}

/// The default hotkeys bind every command except Center Half, and each one
/// exactly once.
pub proof fn lemma_default_bindings_bind_each_command_once(platform: HotkeyPlatform)
    ensures
        forall|i: int, j: int|
            0 <= i < DEFAULT_BINDING_COUNT && 0 <= j < DEFAULT_BINDING_COUNT && i != j
                ==> (#[trigger] default_bindings(platform)[i]).0 != (#[trigger] default_bindings(platform)[j]).0,
        forall|c: Command| (#[trigger] accelerator_for(default_bindings(platform), c)) is None
            <==> c == Command::CenterHalf,
{
    lemma_default_binding_commands(platform);
    let b = default_bindings(platform);
    assert forall|c: Command| (#[trigger] accelerator_for(b, c)) is None <==> c == Command::CenterHalf by {
        if c == Command::CenterHalf {
            lemma_accelerator_for_unbound(b, c);
        } else {
            let k = if c.index() < 2 { c.index() } else { c.index() - 1 };
            assert(b[k].0.index() == c.index());
            lemma_all_index(c);
            lemma_all_index(b[k].0);
            lemma_accelerator_for_last(b, c, k);
        }
    }
}

/// Every default macOS accelerator is a Control+Alt chord.
pub proof fn lemma_macos_defaults_are_control_alt_chords()
    ensures
        forall|i: int| 0 <= i < DEFAULT_BINDING_COUNT ==> "Control+Alt+"@.is_prefix_of(
            #[trigger] default_accelerator(HotkeyPlatform::MacOs, i),
        ),
{
    reveal_strlit("Control+Alt+");
    reveal_strlit("Control+Alt+A");
    reveal_strlit("Control+Alt+ArrowDown");
    reveal_strlit("Control+Alt+ArrowLeft");
    reveal_strlit("Control+Alt+ArrowRight");
    reveal_strlit("Control+Alt+ArrowUp");
    reveal_strlit("Control+Alt+Backspace");
    reveal_strlit("Control+Alt+C");
    reveal_strlit("Control+Alt+Digit1");
    reveal_strlit("Control+Alt+Digit2");
    reveal_strlit("Control+Alt+Digit3");
    reveal_strlit("Control+Alt+Digit4");
    reveal_strlit("Control+Alt+Digit5");
    reveal_strlit("Control+Alt+Digit6");
    reveal_strlit("Control+Alt+Enter");
    reveal_strlit("Control+Alt+Equal");
    reveal_strlit("Control+Alt+H");
    reveal_strlit("Control+Alt+I");
    reveal_strlit("Control+Alt+J");
    reveal_strlit("Control+Alt+K");
    reveal_strlit("Control+Alt+Minus");
    reveal_strlit("Control+Alt+Shift+ArrowDown");
    reveal_strlit("Control+Alt+Shift+ArrowLeft");
    reveal_strlit("Control+Alt+Shift+ArrowRight");
    reveal_strlit("Control+Alt+Shift+ArrowUp");
    reveal_strlit("Control+Alt+U");
    assert forall|i: int| 0 <= i < DEFAULT_BINDING_COUNT implies "Control+Alt+"@.is_prefix_of(
        #[trigger] default_accelerator(HotkeyPlatform::MacOs, i),
    ) by {
        if i == 0 { assert("Control+Alt+"@ =~= "Control+Alt+ArrowLeft"@.subrange(0, 12)); }
        if i == 1 { assert("Control+Alt+"@ =~= "Control+Alt+ArrowRight"@.subrange(0, 12)); }
        if i == 2 { assert("Control+Alt+"@ =~= "Control+Alt+ArrowUp"@.subrange(0, 12)); }
        if i == 3 { assert("Control+Alt+"@ =~= "Control+Alt+ArrowDown"@.subrange(0, 12)); }
        if i == 4 { assert("Control+Alt+"@ =~= "Control+Alt+U"@.subrange(0, 12)); }
        if i == 5 { assert("Control+Alt+"@ =~= "Control+Alt+I"@.subrange(0, 12)); }
        if i == 6 { assert("Control+Alt+"@ =~= "Control+Alt+J"@.subrange(0, 12)); }
        if i == 7 { assert("Control+Alt+"@ =~= "Control+Alt+K"@.subrange(0, 12)); }
        if i == 8 { assert("Control+Alt+"@ =~= "Control+Alt+Digit1"@.subrange(0, 12)); }
        if i == 9 { assert("Control+Alt+"@ =~= "Control+Alt+Digit2"@.subrange(0, 12)); }
        if i == 10 { assert("Control+Alt+"@ =~= "Control+Alt+Digit3"@.subrange(0, 12)); }
        if i == 11 { assert("Control+Alt+"@ =~= "Control+Alt+Digit4"@.subrange(0, 12)); }
        if i == 12 { assert("Control+Alt+"@ =~= "Control+Alt+Digit5"@.subrange(0, 12)); }
        if i == 13 { assert("Control+Alt+"@ =~= "Control+Alt+Digit6"@.subrange(0, 12)); }
        if i == 14 { assert("Control+Alt+"@ =~= "Control+Alt+Enter"@.subrange(0, 12)); }
        if i == 15 { assert("Control+Alt+"@ =~= "Control+Alt+A"@.subrange(0, 12)); }
        if i == 16 { assert("Control+Alt+"@ =~= "Control+Alt+H"@.subrange(0, 12)); }
        if i == 17 { assert("Control+Alt+"@ =~= "Control+Alt+C"@.subrange(0, 12)); }
        if i == 18 { assert("Control+Alt+"@ =~= "Control+Alt+Backspace"@.subrange(0, 12)); }
        if i == 19 { assert("Control+Alt+"@ =~= "Control+Alt+Shift+ArrowLeft"@.subrange(0, 12)); }
        if i == 20 { assert("Control+Alt+"@ =~= "Control+Alt+Shift+ArrowRight"@.subrange(0, 12)); }
        if i == 21 { assert("Control+Alt+"@ =~= "Control+Alt+Shift+ArrowUp"@.subrange(0, 12)); }
        if i == 22 { assert("Control+Alt+"@ =~= "Control+Alt+Shift+ArrowDown"@.subrange(0, 12)); }
        if i == 23 { assert("Control+Alt+"@ =~= "Control+Alt+Equal"@.subrange(0, 12)); }
        if i == 24 { assert("Control+Alt+"@ =~= "Control+Alt+Minus"@.subrange(0, 12)); }
    }
}

/// No two default macOS hotkeys share an accelerator.
#[verifier::rlimit(50)]
pub proof fn lemma_macos_default_accelerators_distinct()
    ensures
        forall|i: int, j: int|
            0 <= i < DEFAULT_BINDING_COUNT && 0 <= j < DEFAULT_BINDING_COUNT && i != j
                ==> #[trigger] default_accelerator(HotkeyPlatform::MacOs, i) != #[trigger] default_accelerator(HotkeyPlatform::MacOs, j),
{
    reveal_strlit("Control+Alt+A");
    reveal_strlit("Control+Alt+ArrowDown");
    reveal_strlit("Control+Alt+ArrowLeft");
    reveal_strlit("Control+Alt+ArrowRight");
    reveal_strlit("Control+Alt+ArrowUp");
    reveal_strlit("Control+Alt+Backspace");
    reveal_strlit("Control+Alt+C");
    reveal_strlit("Control+Alt+Digit1");
    reveal_strlit("Control+Alt+Digit2");
    reveal_strlit("Control+Alt+Digit3");
    reveal_strlit("Control+Alt+Digit4");
    reveal_strlit("Control+Alt+Digit5");
    reveal_strlit("Control+Alt+Digit6");
    reveal_strlit("Control+Alt+Enter");
    reveal_strlit("Control+Alt+Equal");
    reveal_strlit("Control+Alt+H");
    reveal_strlit("Control+Alt+I");
    reveal_strlit("Control+Alt+J");
    reveal_strlit("Control+Alt+K");
    reveal_strlit("Control+Alt+Minus");
    reveal_strlit("Control+Alt+Shift+ArrowDown");
    reveal_strlit("Control+Alt+Shift+ArrowLeft");
    reveal_strlit("Control+Alt+Shift+ArrowRight");
    reveal_strlit("Control+Alt+Shift+ArrowUp");
    reveal_strlit("Control+Alt+U");
    assert forall|i: int, j: int|
        0 <= i < DEFAULT_BINDING_COUNT && 0 <= j < DEFAULT_BINDING_COUNT && i != j
        implies #[trigger] default_accelerator(HotkeyPlatform::MacOs, i) != #[trigger] default_accelerator(HotkeyPlatform::MacOs, j) by {
        if i == 0 {
            if j == 1 { assert("Control+Alt+ArrowLeft"@.len() != "Control+Alt+ArrowRight"@.len()); }
            if j == 2 { assert("Control+Alt+ArrowLeft"@.len() != "Control+Alt+ArrowUp"@.len()); }
            if j == 3 { assert("Control+Alt+ArrowLeft"@[17] != "Control+Alt+ArrowDown"@[17]); }
            if j == 4 { assert("Control+Alt+ArrowLeft"@.len() != "Control+Alt+U"@.len()); }
            if j == 5 { assert("Control+Alt+ArrowLeft"@.len() != "Control+Alt+I"@.len()); }
            if j == 6 { assert("Control+Alt+ArrowLeft"@.len() != "Control+Alt+J"@.len()); }
            if j == 7 { assert("Control+Alt+ArrowLeft"@.len() != "Control+Alt+K"@.len()); }
            if j == 8 { assert("Control+Alt+ArrowLeft"@.len() != "Control+Alt+Digit1"@.len()); }
            if j == 9 { assert("Control+Alt+ArrowLeft"@.len() != "Control+Alt+Digit2"@.len()); }
            if j == 10 { assert("Control+Alt+ArrowLeft"@.len() != "Control+Alt+Digit3"@.len()); }
            if j == 11 { assert("Control+Alt+ArrowLeft"@.len() != "Control+Alt+Digit4"@.len()); }
            if j == 12 { assert("Control+Alt+ArrowLeft"@.len() != "Control+Alt+Digit5"@.len()); }
            if j == 13 { assert("Control+Alt+ArrowLeft"@.len() != "Control+Alt+Digit6"@.len()); }
            if j == 14 { assert("Control+Alt+ArrowLeft"@.len() != "Control+Alt+Enter"@.len()); }
            if j == 15 { assert("Control+Alt+ArrowLeft"@.len() != "Control+Alt+A"@.len()); }
            if j == 16 { assert("Control+Alt+ArrowLeft"@.len() != "Control+Alt+H"@.len()); }
            if j == 17 { assert("Control+Alt+ArrowLeft"@.len() != "Control+Alt+C"@.len()); }
            if j == 18 { assert("Control+Alt+ArrowLeft"@[12] != "Control+Alt+Backspace"@[12]); }
            if j == 19 { assert("Control+Alt+ArrowLeft"@.len() != "Control+Alt+Shift+ArrowLeft"@.len()); }
            if j == 20 { assert("Control+Alt+ArrowLeft"@.len() != "Control+Alt+Shift+ArrowRight"@.len()); }
            if j == 21 { assert("Control+Alt+ArrowLeft"@.len() != "Control+Alt+Shift+ArrowUp"@.len()); }
            if j == 22 { assert("Control+Alt+ArrowLeft"@.len() != "Control+Alt+Shift+ArrowDown"@.len()); }
            if j == 23 { assert("Control+Alt+ArrowLeft"@.len() != "Control+Alt+Equal"@.len()); }
            if j == 24 { assert("Control+Alt+ArrowLeft"@.len() != "Control+Alt+Minus"@.len()); }
        }
        if i == 1 {
            if j == 0 { assert("Control+Alt+ArrowRight"@.len() != "Control+Alt+ArrowLeft"@.len()); }
            if j == 2 { assert("Control+Alt+ArrowRight"@.len() != "Control+Alt+ArrowUp"@.len()); }
            if j == 3 { assert("Control+Alt+ArrowRight"@.len() != "Control+Alt+ArrowDown"@.len()); }
            if j == 4 { assert("Control+Alt+ArrowRight"@.len() != "Control+Alt+U"@.len()); }
            if j == 5 { assert("Control+Alt+ArrowRight"@.len() != "Control+Alt+I"@.len()); }
            if j == 6 { assert("Control+Alt+ArrowRight"@.len() != "Control+Alt+J"@.len()); }
            if j == 7 { assert("Control+Alt+ArrowRight"@.len() != "Control+Alt+K"@.len()); }
            if j == 8 { assert("Control+Alt+ArrowRight"@.len() != "Control+Alt+Digit1"@.len()); }
            if j == 9 { assert("Control+Alt+ArrowRight"@.len() != "Control+Alt+Digit2"@.len()); }
            if j == 10 { assert("Control+Alt+ArrowRight"@.len() != "Control+Alt+Digit3"@.len()); }
            if j == 11 { assert("Control+Alt+ArrowRight"@.len() != "Control+Alt+Digit4"@.len()); }
            if j == 12 { assert("Control+Alt+ArrowRight"@.len() != "Control+Alt+Digit5"@.len()); }
            if j == 13 { assert("Control+Alt+ArrowRight"@.len() != "Control+Alt+Digit6"@.len()); }
            if j == 14 { assert("Control+Alt+ArrowRight"@.len() != "Control+Alt+Enter"@.len()); }
            if j == 15 { assert("Control+Alt+ArrowRight"@.len() != "Control+Alt+A"@.len()); }
            if j == 16 { assert("Control+Alt+ArrowRight"@.len() != "Control+Alt+H"@.len()); }
            if j == 17 { assert("Control+Alt+ArrowRight"@.len() != "Control+Alt+C"@.len()); }
            if j == 18 { assert("Control+Alt+ArrowRight"@.len() != "Control+Alt+Backspace"@.len()); }
            if j == 19 { assert("Control+Alt+ArrowRight"@.len() != "Control+Alt+Shift+ArrowLeft"@.len()); }
            if j == 20 { assert("Control+Alt+ArrowRight"@.len() != "Control+Alt+Shift+ArrowRight"@.len()); }
            if j == 21 { assert("Control+Alt+ArrowRight"@.len() != "Control+Alt+Shift+ArrowUp"@.len()); }
            if j == 22 { assert("Control+Alt+ArrowRight"@.len() != "Control+Alt+Shift+ArrowDown"@.len()); }
            if j == 23 { assert("Control+Alt+ArrowRight"@.len() != "Control+Alt+Equal"@.len()); }
            if j == 24 { assert("Control+Alt+ArrowRight"@.len() != "Control+Alt+Minus"@.len()); }
        }
        if i == 2 {
            if j == 0 { assert("Control+Alt+ArrowUp"@.len() != "Control+Alt+ArrowLeft"@.len()); }
            if j == 1 { assert("Control+Alt+ArrowUp"@.len() != "Control+Alt+ArrowRight"@.len()); }
            if j == 3 { assert("Control+Alt+ArrowUp"@.len() != "Control+Alt+ArrowDown"@.len()); }
            if j == 4 { assert("Control+Alt+ArrowUp"@.len() != "Control+Alt+U"@.len()); }
            if j == 5 { assert("Control+Alt+ArrowUp"@.len() != "Control+Alt+I"@.len()); }
            if j == 6 { assert("Control+Alt+ArrowUp"@.len() != "Control+Alt+J"@.len()); }
            if j == 7 { assert("Control+Alt+ArrowUp"@.len() != "Control+Alt+K"@.len()); }
            if j == 8 { assert("Control+Alt+ArrowUp"@.len() != "Control+Alt+Digit1"@.len()); }
            if j == 9 { assert("Control+Alt+ArrowUp"@.len() != "Control+Alt+Digit2"@.len()); }
            if j == 10 { assert("Control+Alt+ArrowUp"@.len() != "Control+Alt+Digit3"@.len()); }
            if j == 11 { assert("Control+Alt+ArrowUp"@.len() != "Control+Alt+Digit4"@.len()); }
            if j == 12 { assert("Control+Alt+ArrowUp"@.len() != "Control+Alt+Digit5"@.len()); }
            if j == 13 { assert("Control+Alt+ArrowUp"@.len() != "Control+Alt+Digit6"@.len()); }
            if j == 14 { assert("Control+Alt+ArrowUp"@.len() != "Control+Alt+Enter"@.len()); }
            if j == 15 { assert("Control+Alt+ArrowUp"@.len() != "Control+Alt+A"@.len()); }
            if j == 16 { assert("Control+Alt+ArrowUp"@.len() != "Control+Alt+H"@.len()); }
            if j == 17 { assert("Control+Alt+ArrowUp"@.len() != "Control+Alt+C"@.len()); }
            if j == 18 { assert("Control+Alt+ArrowUp"@.len() != "Control+Alt+Backspace"@.len()); }
            if j == 19 { assert("Control+Alt+ArrowUp"@.len() != "Control+Alt+Shift+ArrowLeft"@.len()); }
            if j == 20 { assert("Control+Alt+ArrowUp"@.len() != "Control+Alt+Shift+ArrowRight"@.len()); }
            if j == 21 { assert("Control+Alt+ArrowUp"@.len() != "Control+Alt+Shift+ArrowUp"@.len()); }
            if j == 22 { assert("Control+Alt+ArrowUp"@.len() != "Control+Alt+Shift+ArrowDown"@.len()); }
            if j == 23 { assert("Control+Alt+ArrowUp"@.len() != "Control+Alt+Equal"@.len()); }
            if j == 24 { assert("Control+Alt+ArrowUp"@.len() != "Control+Alt+Minus"@.len()); }
        }
        if i == 3 {
            if j == 0 { assert("Control+Alt+ArrowDown"@[17] != "Control+Alt+ArrowLeft"@[17]); }
            if j == 1 { assert("Control+Alt+ArrowDown"@.len() != "Control+Alt+ArrowRight"@.len()); }
            if j == 2 { assert("Control+Alt+ArrowDown"@.len() != "Control+Alt+ArrowUp"@.len()); }
            if j == 4 { assert("Control+Alt+ArrowDown"@.len() != "Control+Alt+U"@.len()); }
            if j == 5 { assert("Control+Alt+ArrowDown"@.len() != "Control+Alt+I"@.len()); }
            if j == 6 { assert("Control+Alt+ArrowDown"@.len() != "Control+Alt+J"@.len()); }
            if j == 7 { assert("Control+Alt+ArrowDown"@.len() != "Control+Alt+K"@.len()); }
            if j == 8 { assert("Control+Alt+ArrowDown"@.len() != "Control+Alt+Digit1"@.len()); }
            if j == 9 { assert("Control+Alt+ArrowDown"@.len() != "Control+Alt+Digit2"@.len()); }
            if j == 10 { assert("Control+Alt+ArrowDown"@.len() != "Control+Alt+Digit3"@.len()); }
            if j == 11 { assert("Control+Alt+ArrowDown"@.len() != "Control+Alt+Digit4"@.len()); }
            if j == 12 { assert("Control+Alt+ArrowDown"@.len() != "Control+Alt+Digit5"@.len()); }
            if j == 13 { assert("Control+Alt+ArrowDown"@.len() != "Control+Alt+Digit6"@.len()); }
            if j == 14 { assert("Control+Alt+ArrowDown"@.len() != "Control+Alt+Enter"@.len()); }
            if j == 15 { assert("Control+Alt+ArrowDown"@.len() != "Control+Alt+A"@.len()); }
            if j == 16 { assert("Control+Alt+ArrowDown"@.len() != "Control+Alt+H"@.len()); }
            if j == 17 { assert("Control+Alt+ArrowDown"@.len() != "Control+Alt+C"@.len()); }
            if j == 18 { assert("Control+Alt+ArrowDown"@[12] != "Control+Alt+Backspace"@[12]); }
            if j == 19 { assert("Control+Alt+ArrowDown"@.len() != "Control+Alt+Shift+ArrowLeft"@.len()); }
            if j == 20 { assert("Control+Alt+ArrowDown"@.len() != "Control+Alt+Shift+ArrowRight"@.len()); }
            if j == 21 { assert("Control+Alt+ArrowDown"@.len() != "Control+Alt+Shift+ArrowUp"@.len()); }
            if j == 22 { assert("Control+Alt+ArrowDown"@.len() != "Control+Alt+Shift+ArrowDown"@.len()); }
            if j == 23 { assert("Control+Alt+ArrowDown"@.len() != "Control+Alt+Equal"@.len()); }
            if j == 24 { assert("Control+Alt+ArrowDown"@.len() != "Control+Alt+Minus"@.len()); }
        }
        if i == 4 {
            if j == 0 { assert("Control+Alt+U"@.len() != "Control+Alt+ArrowLeft"@.len()); }
            if j == 1 { assert("Control+Alt+U"@.len() != "Control+Alt+ArrowRight"@.len()); }
            if j == 2 { assert("Control+Alt+U"@.len() != "Control+Alt+ArrowUp"@.len()); }
            if j == 3 { assert("Control+Alt+U"@.len() != "Control+Alt+ArrowDown"@.len()); }
            if j == 5 { assert("Control+Alt+U"@[12] != "Control+Alt+I"@[12]); }
            if j == 6 { assert("Control+Alt+U"@[12] != "Control+Alt+J"@[12]); }
            if j == 7 { assert("Control+Alt+U"@[12] != "Control+Alt+K"@[12]); }
            if j == 8 { assert("Control+Alt+U"@.len() != "Control+Alt+Digit1"@.len()); }
            if j == 9 { assert("Control+Alt+U"@.len() != "Control+Alt+Digit2"@.len()); }
            if j == 10 { assert("Control+Alt+U"@.len() != "Control+Alt+Digit3"@.len()); }
            if j == 11 { assert("Control+Alt+U"@.len() != "Control+Alt+Digit4"@.len()); }
            if j == 12 { assert("Control+Alt+U"@.len() != "Control+Alt+Digit5"@.len()); }
            if j == 13 { assert("Control+Alt+U"@.len() != "Control+Alt+Digit6"@.len()); }
            if j == 14 { assert("Control+Alt+U"@.len() != "Control+Alt+Enter"@.len()); }
            if j == 15 { assert("Control+Alt+U"@[12] != "Control+Alt+A"@[12]); }
            if j == 16 { assert("Control+Alt+U"@[12] != "Control+Alt+H"@[12]); }
            if j == 17 { assert("Control+Alt+U"@[12] != "Control+Alt+C"@[12]); }
            if j == 18 { assert("Control+Alt+U"@.len() != "Control+Alt+Backspace"@.len()); }
            if j == 19 { assert("Control+Alt+U"@.len() != "Control+Alt+Shift+ArrowLeft"@.len()); }
            if j == 20 { assert("Control+Alt+U"@.len() != "Control+Alt+Shift+ArrowRight"@.len()); }
            if j == 21 { assert("Control+Alt+U"@.len() != "Control+Alt+Shift+ArrowUp"@.len()); }
            if j == 22 { assert("Control+Alt+U"@.len() != "Control+Alt+Shift+ArrowDown"@.len()); }
            if j == 23 { assert("Control+Alt+U"@.len() != "Control+Alt+Equal"@.len()); }
            if j == 24 { assert("Control+Alt+U"@.len() != "Control+Alt+Minus"@.len()); }
        }
        if i == 5 {
            if j == 0 { assert("Control+Alt+I"@.len() != "Control+Alt+ArrowLeft"@.len()); }
            if j == 1 { assert("Control+Alt+I"@.len() != "Control+Alt+ArrowRight"@.len()); }
            if j == 2 { assert("Control+Alt+I"@.len() != "Control+Alt+ArrowUp"@.len()); }
            if j == 3 { assert("Control+Alt+I"@.len() != "Control+Alt+ArrowDown"@.len()); }
            if j == 4 { assert("Control+Alt+I"@[12] != "Control+Alt+U"@[12]); }
            if j == 6 { assert("Control+Alt+I"@[12] != "Control+Alt+J"@[12]); }
            if j == 7 { assert("Control+Alt+I"@[12] != "Control+Alt+K"@[12]); }
            if j == 8 { assert("Control+Alt+I"@.len() != "Control+Alt+Digit1"@.len()); }
            if j == 9 { assert("Control+Alt+I"@.len() != "Control+Alt+Digit2"@.len()); }
            if j == 10 { assert("Control+Alt+I"@.len() != "Control+Alt+Digit3"@.len()); }
            if j == 11 { assert("Control+Alt+I"@.len() != "Control+Alt+Digit4"@.len()); }
            if j == 12 { assert("Control+Alt+I"@.len() != "Control+Alt+Digit5"@.len()); }
            if j == 13 { assert("Control+Alt+I"@.len() != "Control+Alt+Digit6"@.len()); }
            if j == 14 { assert("Control+Alt+I"@.len() != "Control+Alt+Enter"@.len()); }
            if j == 15 { assert("Control+Alt+I"@[12] != "Control+Alt+A"@[12]); }
            if j == 16 { assert("Control+Alt+I"@[12] != "Control+Alt+H"@[12]); }
            if j == 17 { assert("Control+Alt+I"@[12] != "Control+Alt+C"@[12]); }
            if j == 18 { assert("Control+Alt+I"@.len() != "Control+Alt+Backspace"@.len()); }
            if j == 19 { assert("Control+Alt+I"@.len() != "Control+Alt+Shift+ArrowLeft"@.len()); }
            if j == 20 { assert("Control+Alt+I"@.len() != "Control+Alt+Shift+ArrowRight"@.len()); }
            if j == 21 { assert("Control+Alt+I"@.len() != "Control+Alt+Shift+ArrowUp"@.len()); }
            if j == 22 { assert("Control+Alt+I"@.len() != "Control+Alt+Shift+ArrowDown"@.len()); }
            if j == 23 { assert("Control+Alt+I"@.len() != "Control+Alt+Equal"@.len()); }
            if j == 24 { assert("Control+Alt+I"@.len() != "Control+Alt+Minus"@.len()); }
        }
        if i == 6 {
            if j == 0 { assert("Control+Alt+J"@.len() != "Control+Alt+ArrowLeft"@.len()); }
            if j == 1 { assert("Control+Alt+J"@.len() != "Control+Alt+ArrowRight"@.len()); }
            if j == 2 { assert("Control+Alt+J"@.len() != "Control+Alt+ArrowUp"@.len()); }
            if j == 3 { assert("Control+Alt+J"@.len() != "Control+Alt+ArrowDown"@.len()); }
            if j == 4 { assert("Control+Alt+J"@[12] != "Control+Alt+U"@[12]); }
            if j == 5 { assert("Control+Alt+J"@[12] != "Control+Alt+I"@[12]); }
            if j == 7 { assert("Control+Alt+J"@[12] != "Control+Alt+K"@[12]); }
            if j == 8 { assert("Control+Alt+J"@.len() != "Control+Alt+Digit1"@.len()); }
            if j == 9 { assert("Control+Alt+J"@.len() != "Control+Alt+Digit2"@.len()); }
            if j == 10 { assert("Control+Alt+J"@.len() != "Control+Alt+Digit3"@.len()); }
            if j == 11 { assert("Control+Alt+J"@.len() != "Control+Alt+Digit4"@.len()); }
            if j == 12 { assert("Control+Alt+J"@.len() != "Control+Alt+Digit5"@.len()); }
            if j == 13 { assert("Control+Alt+J"@.len() != "Control+Alt+Digit6"@.len()); }
            if j == 14 { assert("Control+Alt+J"@.len() != "Control+Alt+Enter"@.len()); }
            if j == 15 { assert("Control+Alt+J"@[12] != "Control+Alt+A"@[12]); }
            if j == 16 { assert("Control+Alt+J"@[12] != "Control+Alt+H"@[12]); }
            if j == 17 { assert("Control+Alt+J"@[12] != "Control+Alt+C"@[12]); }
            if j == 18 { assert("Control+Alt+J"@.len() != "Control+Alt+Backspace"@.len()); }
            if j == 19 { assert("Control+Alt+J"@.len() != "Control+Alt+Shift+ArrowLeft"@.len()); }
            if j == 20 { assert("Control+Alt+J"@.len() != "Control+Alt+Shift+ArrowRight"@.len()); }
            if j == 21 { assert("Control+Alt+J"@.len() != "Control+Alt+Shift+ArrowUp"@.len()); }
            if j == 22 { assert("Control+Alt+J"@.len() != "Control+Alt+Shift+ArrowDown"@.len()); }
            if j == 23 { assert("Control+Alt+J"@.len() != "Control+Alt+Equal"@.len()); }
            if j == 24 { assert("Control+Alt+J"@.len() != "Control+Alt+Minus"@.len()); }
        }
        if i == 7 {
            if j == 0 { assert("Control+Alt+K"@.len() != "Control+Alt+ArrowLeft"@.len()); }
            if j == 1 { assert("Control+Alt+K"@.len() != "Control+Alt+ArrowRight"@.len()); }
            if j == 2 { assert("Control+Alt+K"@.len() != "Control+Alt+ArrowUp"@.len()); }
            if j == 3 { assert("Control+Alt+K"@.len() != "Control+Alt+ArrowDown"@.len()); }
            if j == 4 { assert("Control+Alt+K"@[12] != "Control+Alt+U"@[12]); }
            if j == 5 { assert("Control+Alt+K"@[12] != "Control+Alt+I"@[12]); }
            if j == 6 { assert("Control+Alt+K"@[12] != "Control+Alt+J"@[12]); }
            if j == 8 { assert("Control+Alt+K"@.len() != "Control+Alt+Digit1"@.len()); }
            if j == 9 { assert("Control+Alt+K"@.len() != "Control+Alt+Digit2"@.len()); }
            if j == 10 { assert("Control+Alt+K"@.len() != "Control+Alt+Digit3"@.len()); }
            if j == 11 { assert("Control+Alt+K"@.len() != "Control+Alt+Digit4"@.len()); }
            if j == 12 { assert("Control+Alt+K"@.len() != "Control+Alt+Digit5"@.len()); }
            if j == 13 { assert("Control+Alt+K"@.len() != "Control+Alt+Digit6"@.len()); }
            if j == 14 { assert("Control+Alt+K"@.len() != "Control+Alt+Enter"@.len()); }
            if j == 15 { assert("Control+Alt+K"@[12] != "Control+Alt+A"@[12]); }
            if j == 16 { assert("Control+Alt+K"@[12] != "Control+Alt+H"@[12]); }
            if j == 17 { assert("Control+Alt+K"@[12] != "Control+Alt+C"@[12]); }
            if j == 18 { assert("Control+Alt+K"@.len() != "Control+Alt+Backspace"@.len()); }
            if j == 19 { assert("Control+Alt+K"@.len() != "Control+Alt+Shift+ArrowLeft"@.len()); }
            if j == 20 { assert("Control+Alt+K"@.len() != "Control+Alt+Shift+ArrowRight"@.len()); }
            if j == 21 { assert("Control+Alt+K"@.len() != "Control+Alt+Shift+ArrowUp"@.len()); }
            if j == 22 { assert("Control+Alt+K"@.len() != "Control+Alt+Shift+ArrowDown"@.len()); }
            if j == 23 { assert("Control+Alt+K"@.len() != "Control+Alt+Equal"@.len()); }
            if j == 24 { assert("Control+Alt+K"@.len() != "Control+Alt+Minus"@.len()); }
        }
        if i == 8 {
            if j == 0 { assert("Control+Alt+Digit1"@.len() != "Control+Alt+ArrowLeft"@.len()); }
            if j == 1 { assert("Control+Alt+Digit1"@.len() != "Control+Alt+ArrowRight"@.len()); }
            if j == 2 { assert("Control+Alt+Digit1"@.len() != "Control+Alt+ArrowUp"@.len()); }
            if j == 3 { assert("Control+Alt+Digit1"@.len() != "Control+Alt+ArrowDown"@.len()); }
            if j == 4 { assert("Control+Alt+Digit1"@.len() != "Control+Alt+U"@.len()); }
            if j == 5 { assert("Control+Alt+Digit1"@.len() != "Control+Alt+I"@.len()); }
            if j == 6 { assert("Control+Alt+Digit1"@.len() != "Control+Alt+J"@.len()); }
            if j == 7 { assert("Control+Alt+Digit1"@.len() != "Control+Alt+K"@.len()); }
            if j == 9 { assert("Control+Alt+Digit1"@[17] != "Control+Alt+Digit2"@[17]); }
            if j == 10 { assert("Control+Alt+Digit1"@[17] != "Control+Alt+Digit3"@[17]); }
            if j == 11 { assert("Control+Alt+Digit1"@[17] != "Control+Alt+Digit4"@[17]); }
            if j == 12 { assert("Control+Alt+Digit1"@[17] != "Control+Alt+Digit5"@[17]); }
            if j == 13 { assert("Control+Alt+Digit1"@[17] != "Control+Alt+Digit6"@[17]); }
            if j == 14 { assert("Control+Alt+Digit1"@.len() != "Control+Alt+Enter"@.len()); }
            if j == 15 { assert("Control+Alt+Digit1"@.len() != "Control+Alt+A"@.len()); }
            if j == 16 { assert("Control+Alt+Digit1"@.len() != "Control+Alt+H"@.len()); }
            if j == 17 { assert("Control+Alt+Digit1"@.len() != "Control+Alt+C"@.len()); }
            if j == 18 { assert("Control+Alt+Digit1"@.len() != "Control+Alt+Backspace"@.len()); }
            if j == 19 { assert("Control+Alt+Digit1"@.len() != "Control+Alt+Shift+ArrowLeft"@.len()); }
            if j == 20 { assert("Control+Alt+Digit1"@.len() != "Control+Alt+Shift+ArrowRight"@.len()); }
            if j == 21 { assert("Control+Alt+Digit1"@.len() != "Control+Alt+Shift+ArrowUp"@.len()); }
            if j == 22 { assert("Control+Alt+Digit1"@.len() != "Control+Alt+Shift+ArrowDown"@.len()); }
            if j == 23 { assert("Control+Alt+Digit1"@.len() != "Control+Alt+Equal"@.len()); }
            if j == 24 { assert("Control+Alt+Digit1"@.len() != "Control+Alt+Minus"@.len()); }
        }
        if i == 9 {
            if j == 0 { assert("Control+Alt+Digit2"@.len() != "Control+Alt+ArrowLeft"@.len()); }
            if j == 1 { assert("Control+Alt+Digit2"@.len() != "Control+Alt+ArrowRight"@.len()); }
            if j == 2 { assert("Control+Alt+Digit2"@.len() != "Control+Alt+ArrowUp"@.len()); }
            if j == 3 { assert("Control+Alt+Digit2"@.len() != "Control+Alt+ArrowDown"@.len()); }
            if j == 4 { assert("Control+Alt+Digit2"@.len() != "Control+Alt+U"@.len()); }
            if j == 5 { assert("Control+Alt+Digit2"@.len() != "Control+Alt+I"@.len()); }
            if j == 6 { assert("Control+Alt+Digit2"@.len() != "Control+Alt+J"@.len()); }
            if j == 7 { assert("Control+Alt+Digit2"@.len() != "Control+Alt+K"@.len()); }
            if j == 8 { assert("Control+Alt+Digit2"@[17] != "Control+Alt+Digit1"@[17]); }
            if j == 10 { assert("Control+Alt+Digit2"@[17] != "Control+Alt+Digit3"@[17]); }
            if j == 11 { assert("Control+Alt+Digit2"@[17] != "Control+Alt+Digit4"@[17]); }
            if j == 12 { assert("Control+Alt+Digit2"@[17] != "Control+Alt+Digit5"@[17]); }
            if j == 13 { assert("Control+Alt+Digit2"@[17] != "Control+Alt+Digit6"@[17]); }
            if j == 14 { assert("Control+Alt+Digit2"@.len() != "Control+Alt+Enter"@.len()); }
            if j == 15 { assert("Control+Alt+Digit2"@.len() != "Control+Alt+A"@.len()); }
            if j == 16 { assert("Control+Alt+Digit2"@.len() != "Control+Alt+H"@.len()); }
            if j == 17 { assert("Control+Alt+Digit2"@.len() != "Control+Alt+C"@.len()); }
            if j == 18 { assert("Control+Alt+Digit2"@.len() != "Control+Alt+Backspace"@.len()); }
            if j == 19 { assert("Control+Alt+Digit2"@.len() != "Control+Alt+Shift+ArrowLeft"@.len()); }
            if j == 20 { assert("Control+Alt+Digit2"@.len() != "Control+Alt+Shift+ArrowRight"@.len()); }
            if j == 21 { assert("Control+Alt+Digit2"@.len() != "Control+Alt+Shift+ArrowUp"@.len()); }
            if j == 22 { assert("Control+Alt+Digit2"@.len() != "Control+Alt+Shift+ArrowDown"@.len()); }
            if j == 23 { assert("Control+Alt+Digit2"@.len() != "Control+Alt+Equal"@.len()); }
            if j == 24 { assert("Control+Alt+Digit2"@.len() != "Control+Alt+Minus"@.len()); }
        }
        if i == 10 {
            if j == 0 { assert("Control+Alt+Digit3"@.len() != "Control+Alt+ArrowLeft"@.len()); }
            if j == 1 { assert("Control+Alt+Digit3"@.len() != "Control+Alt+ArrowRight"@.len()); }
            if j == 2 { assert("Control+Alt+Digit3"@.len() != "Control+Alt+ArrowUp"@.len()); }
            if j == 3 { assert("Control+Alt+Digit3"@.len() != "Control+Alt+ArrowDown"@.len()); }
            if j == 4 { assert("Control+Alt+Digit3"@.len() != "Control+Alt+U"@.len()); }
            if j == 5 { assert("Control+Alt+Digit3"@.len() != "Control+Alt+I"@.len()); }
            if j == 6 { assert("Control+Alt+Digit3"@.len() != "Control+Alt+J"@.len()); }
            if j == 7 { assert("Control+Alt+Digit3"@.len() != "Control+Alt+K"@.len()); }
            if j == 8 { assert("Control+Alt+Digit3"@[17] != "Control+Alt+Digit1"@[17]); }
            if j == 9 { assert("Control+Alt+Digit3"@[17] != "Control+Alt+Digit2"@[17]); }
            if j == 11 { assert("Control+Alt+Digit3"@[17] != "Control+Alt+Digit4"@[17]); }
            if j == 12 { assert("Control+Alt+Digit3"@[17] != "Control+Alt+Digit5"@[17]); }
            if j == 13 { assert("Control+Alt+Digit3"@[17] != "Control+Alt+Digit6"@[17]); }
            if j == 14 { assert("Control+Alt+Digit3"@.len() != "Control+Alt+Enter"@.len()); }
            if j == 15 { assert("Control+Alt+Digit3"@.len() != "Control+Alt+A"@.len()); }
            if j == 16 { assert("Control+Alt+Digit3"@.len() != "Control+Alt+H"@.len()); }
            if j == 17 { assert("Control+Alt+Digit3"@.len() != "Control+Alt+C"@.len()); }
            if j == 18 { assert("Control+Alt+Digit3"@.len() != "Control+Alt+Backspace"@.len()); }
            if j == 19 { assert("Control+Alt+Digit3"@.len() != "Control+Alt+Shift+ArrowLeft"@.len()); }
            if j == 20 { assert("Control+Alt+Digit3"@.len() != "Control+Alt+Shift+ArrowRight"@.len()); }
            if j == 21 { assert("Control+Alt+Digit3"@.len() != "Control+Alt+Shift+ArrowUp"@.len()); }
            if j == 22 { assert("Control+Alt+Digit3"@.len() != "Control+Alt+Shift+ArrowDown"@.len()); }
            if j == 23 { assert("Control+Alt+Digit3"@.len() != "Control+Alt+Equal"@.len()); }
            if j == 24 { assert("Control+Alt+Digit3"@.len() != "Control+Alt+Minus"@.len()); }
        }
        if i == 11 {
            if j == 0 { assert("Control+Alt+Digit4"@.len() != "Control+Alt+ArrowLeft"@.len()); }
            if j == 1 { assert("Control+Alt+Digit4"@.len() != "Control+Alt+ArrowRight"@.len()); }
            if j == 2 { assert("Control+Alt+Digit4"@.len() != "Control+Alt+ArrowUp"@.len()); }
            if j == 3 { assert("Control+Alt+Digit4"@.len() != "Control+Alt+ArrowDown"@.len()); }
            if j == 4 { assert("Control+Alt+Digit4"@.len() != "Control+Alt+U"@.len()); }
            if j == 5 { assert("Control+Alt+Digit4"@.len() != "Control+Alt+I"@.len()); }
            if j == 6 { assert("Control+Alt+Digit4"@.len() != "Control+Alt+J"@.len()); }
            if j == 7 { assert("Control+Alt+Digit4"@.len() != "Control+Alt+K"@.len()); }
            if j == 8 { assert("Control+Alt+Digit4"@[17] != "Control+Alt+Digit1"@[17]); }
            if j == 9 { assert("Control+Alt+Digit4"@[17] != "Control+Alt+Digit2"@[17]); }
            if j == 10 { assert("Control+Alt+Digit4"@[17] != "Control+Alt+Digit3"@[17]); }
            if j == 12 { assert("Control+Alt+Digit4"@[17] != "Control+Alt+Digit5"@[17]); }
            if j == 13 { assert("Control+Alt+Digit4"@[17] != "Control+Alt+Digit6"@[17]); }
            if j == 14 { assert("Control+Alt+Digit4"@.len() != "Control+Alt+Enter"@.len()); }
            if j == 15 { assert("Control+Alt+Digit4"@.len() != "Control+Alt+A"@.len()); }
            if j == 16 { assert("Control+Alt+Digit4"@.len() != "Control+Alt+H"@.len()); }
            if j == 17 { assert("Control+Alt+Digit4"@.len() != "Control+Alt+C"@.len()); }
            if j == 18 { assert("Control+Alt+Digit4"@.len() != "Control+Alt+Backspace"@.len()); }
            if j == 19 { assert("Control+Alt+Digit4"@.len() != "Control+Alt+Shift+ArrowLeft"@.len()); }
            if j == 20 { assert("Control+Alt+Digit4"@.len() != "Control+Alt+Shift+ArrowRight"@.len()); }
            if j == 21 { assert("Control+Alt+Digit4"@.len() != "Control+Alt+Shift+ArrowUp"@.len()); }
            if j == 22 { assert("Control+Alt+Digit4"@.len() != "Control+Alt+Shift+ArrowDown"@.len()); }
            if j == 23 { assert("Control+Alt+Digit4"@.len() != "Control+Alt+Equal"@.len()); }
            if j == 24 { assert("Control+Alt+Digit4"@.len() != "Control+Alt+Minus"@.len()); }
        }
        if i == 12 {
            if j == 0 { assert("Control+Alt+Digit5"@.len() != "Control+Alt+ArrowLeft"@.len()); }
            if j == 1 { assert("Control+Alt+Digit5"@.len() != "Control+Alt+ArrowRight"@.len()); }
            if j == 2 { assert("Control+Alt+Digit5"@.len() != "Control+Alt+ArrowUp"@.len()); }
            if j == 3 { assert("Control+Alt+Digit5"@.len() != "Control+Alt+ArrowDown"@.len()); }
            if j == 4 { assert("Control+Alt+Digit5"@.len() != "Control+Alt+U"@.len()); }
            if j == 5 { assert("Control+Alt+Digit5"@.len() != "Control+Alt+I"@.len()); }
            if j == 6 { assert("Control+Alt+Digit5"@.len() != "Control+Alt+J"@.len()); }
            if j == 7 { assert("Control+Alt+Digit5"@.len() != "Control+Alt+K"@.len()); }
            if j == 8 { assert("Control+Alt+Digit5"@[17] != "Control+Alt+Digit1"@[17]); }
            if j == 9 { assert("Control+Alt+Digit5"@[17] != "Control+Alt+Digit2"@[17]); }
            if j == 10 { assert("Control+Alt+Digit5"@[17] != "Control+Alt+Digit3"@[17]); }
            if j == 11 { assert("Control+Alt+Digit5"@[17] != "Control+Alt+Digit4"@[17]); }
            if j == 13 { assert("Control+Alt+Digit5"@[17] != "Control+Alt+Digit6"@[17]); }
            if j == 14 { assert("Control+Alt+Digit5"@.len() != "Control+Alt+Enter"@.len()); }
            if j == 15 { assert("Control+Alt+Digit5"@.len() != "Control+Alt+A"@.len()); }
            if j == 16 { assert("Control+Alt+Digit5"@.len() != "Control+Alt+H"@.len()); }
            if j == 17 { assert("Control+Alt+Digit5"@.len() != "Control+Alt+C"@.len()); }
            if j == 18 { assert("Control+Alt+Digit5"@.len() != "Control+Alt+Backspace"@.len()); }
            if j == 19 { assert("Control+Alt+Digit5"@.len() != "Control+Alt+Shift+ArrowLeft"@.len()); }
            if j == 20 { assert("Control+Alt+Digit5"@.len() != "Control+Alt+Shift+ArrowRight"@.len()); }
            if j == 21 { assert("Control+Alt+Digit5"@.len() != "Control+Alt+Shift+ArrowUp"@.len()); }
            if j == 22 { assert("Control+Alt+Digit5"@.len() != "Control+Alt+Shift+ArrowDown"@.len()); }
            if j == 23 { assert("Control+Alt+Digit5"@.len() != "Control+Alt+Equal"@.len()); }
            if j == 24 { assert("Control+Alt+Digit5"@.len() != "Control+Alt+Minus"@.len()); }
        }
        if i == 13 {
            if j == 0 { assert("Control+Alt+Digit6"@.len() != "Control+Alt+ArrowLeft"@.len()); }
            if j == 1 { assert("Control+Alt+Digit6"@.len() != "Control+Alt+ArrowRight"@.len()); }
            if j == 2 { assert("Control+Alt+Digit6"@.len() != "Control+Alt+ArrowUp"@.len()); }
            if j == 3 { assert("Control+Alt+Digit6"@.len() != "Control+Alt+ArrowDown"@.len()); }
            if j == 4 { assert("Control+Alt+Digit6"@.len() != "Control+Alt+U"@.len()); }
            if j == 5 { assert("Control+Alt+Digit6"@.len() != "Control+Alt+I"@.len()); }
            if j == 6 { assert("Control+Alt+Digit6"@.len() != "Control+Alt+J"@.len()); }
            if j == 7 { assert("Control+Alt+Digit6"@.len() != "Control+Alt+K"@.len()); }
            if j == 8 { assert("Control+Alt+Digit6"@[17] != "Control+Alt+Digit1"@[17]); }
            if j == 9 { assert("Control+Alt+Digit6"@[17] != "Control+Alt+Digit2"@[17]); }
            if j == 10 { assert("Control+Alt+Digit6"@[17] != "Control+Alt+Digit3"@[17]); }
            if j == 11 { assert("Control+Alt+Digit6"@[17] != "Control+Alt+Digit4"@[17]); }
            if j == 12 { assert("Control+Alt+Digit6"@[17] != "Control+Alt+Digit5"@[17]); }
            if j == 14 { assert("Control+Alt+Digit6"@.len() != "Control+Alt+Enter"@.len()); }
            if j == 15 { assert("Control+Alt+Digit6"@.len() != "Control+Alt+A"@.len()); }
            if j == 16 { assert("Control+Alt+Digit6"@.len() != "Control+Alt+H"@.len()); }
            if j == 17 { assert("Control+Alt+Digit6"@.len() != "Control+Alt+C"@.len()); }
            if j == 18 { assert("Control+Alt+Digit6"@.len() != "Control+Alt+Backspace"@.len()); }
            if j == 19 { assert("Control+Alt+Digit6"@.len() != "Control+Alt+Shift+ArrowLeft"@.len()); }
            if j == 20 { assert("Control+Alt+Digit6"@.len() != "Control+Alt+Shift+ArrowRight"@.len()); }
            if j == 21 { assert("Control+Alt+Digit6"@.len() != "Control+Alt+Shift+ArrowUp"@.len()); }
            if j == 22 { assert("Control+Alt+Digit6"@.len() != "Control+Alt+Shift+ArrowDown"@.len()); }
            if j == 23 { assert("Control+Alt+Digit6"@.len() != "Control+Alt+Equal"@.len()); }
            if j == 24 { assert("Control+Alt+Digit6"@.len() != "Control+Alt+Minus"@.len()); }
        }
        if i == 14 {
            if j == 0 { assert("Control+Alt+Enter"@.len() != "Control+Alt+ArrowLeft"@.len()); }
            if j == 1 { assert("Control+Alt+Enter"@.len() != "Control+Alt+ArrowRight"@.len()); }
            if j == 2 { assert("Control+Alt+Enter"@.len() != "Control+Alt+ArrowUp"@.len()); }
            if j == 3 { assert("Control+Alt+Enter"@.len() != "Control+Alt+ArrowDown"@.len()); }
            if j == 4 { assert("Control+Alt+Enter"@.len() != "Control+Alt+U"@.len()); }
            if j == 5 { assert("Control+Alt+Enter"@.len() != "Control+Alt+I"@.len()); }
            if j == 6 { assert("Control+Alt+Enter"@.len() != "Control+Alt+J"@.len()); }
            if j == 7 { assert("Control+Alt+Enter"@.len() != "Control+Alt+K"@.len()); }
            if j == 8 { assert("Control+Alt+Enter"@.len() != "Control+Alt+Digit1"@.len()); }
            if j == 9 { assert("Control+Alt+Enter"@.len() != "Control+Alt+Digit2"@.len()); }
            if j == 10 { assert("Control+Alt+Enter"@.len() != "Control+Alt+Digit3"@.len()); }
            if j == 11 { assert("Control+Alt+Enter"@.len() != "Control+Alt+Digit4"@.len()); }
            if j == 12 { assert("Control+Alt+Enter"@.len() != "Control+Alt+Digit5"@.len()); }
            if j == 13 { assert("Control+Alt+Enter"@.len() != "Control+Alt+Digit6"@.len()); }
            if j == 15 { assert("Control+Alt+Enter"@.len() != "Control+Alt+A"@.len()); }
            if j == 16 { assert("Control+Alt+Enter"@.len() != "Control+Alt+H"@.len()); }
            if j == 17 { assert("Control+Alt+Enter"@.len() != "Control+Alt+C"@.len()); }
            if j == 18 { assert("Control+Alt+Enter"@.len() != "Control+Alt+Backspace"@.len()); }
            if j == 19 { assert("Control+Alt+Enter"@.len() != "Control+Alt+Shift+ArrowLeft"@.len()); }
            if j == 20 { assert("Control+Alt+Enter"@.len() != "Control+Alt+Shift+ArrowRight"@.len()); }
            if j == 21 { assert("Control+Alt+Enter"@.len() != "Control+Alt+Shift+ArrowUp"@.len()); }
            if j == 22 { assert("Control+Alt+Enter"@.len() != "Control+Alt+Shift+ArrowDown"@.len()); }
            if j == 23 { assert("Control+Alt+Enter"@[13] != "Control+Alt+Equal"@[13]); }
            if j == 24 { assert("Control+Alt+Enter"@[12] != "Control+Alt+Minus"@[12]); }
        }
        if i == 15 {
            if j == 0 { assert("Control+Alt+A"@.len() != "Control+Alt+ArrowLeft"@.len()); }
            if j == 1 { assert("Control+Alt+A"@.len() != "Control+Alt+ArrowRight"@.len()); }
            if j == 2 { assert("Control+Alt+A"@.len() != "Control+Alt+ArrowUp"@.len()); }
            if j == 3 { assert("Control+Alt+A"@.len() != "Control+Alt+ArrowDown"@.len()); }
            if j == 4 { assert("Control+Alt+A"@[12] != "Control+Alt+U"@[12]); }
            if j == 5 { assert("Control+Alt+A"@[12] != "Control+Alt+I"@[12]); }
            if j == 6 { assert("Control+Alt+A"@[12] != "Control+Alt+J"@[12]); }
            if j == 7 { assert("Control+Alt+A"@[12] != "Control+Alt+K"@[12]); }
            if j == 8 { assert("Control+Alt+A"@.len() != "Control+Alt+Digit1"@.len()); }
            if j == 9 { assert("Control+Alt+A"@.len() != "Control+Alt+Digit2"@.len()); }
            if j == 10 { assert("Control+Alt+A"@.len() != "Control+Alt+Digit3"@.len()); }
            if j == 11 { assert("Control+Alt+A"@.len() != "Control+Alt+Digit4"@.len()); }
            if j == 12 { assert("Control+Alt+A"@.len() != "Control+Alt+Digit5"@.len()); }
            if j == 13 { assert("Control+Alt+A"@.len() != "Control+Alt+Digit6"@.len()); }
            if j == 14 { assert("Control+Alt+A"@.len() != "Control+Alt+Enter"@.len()); }
            if j == 16 { assert("Control+Alt+A"@[12] != "Control+Alt+H"@[12]); }
            if j == 17 { assert("Control+Alt+A"@[12] != "Control+Alt+C"@[12]); }
            if j == 18 { assert("Control+Alt+A"@.len() != "Control+Alt+Backspace"@.len()); }
            if j == 19 { assert("Control+Alt+A"@.len() != "Control+Alt+Shift+ArrowLeft"@.len()); }
            if j == 20 { assert("Control+Alt+A"@.len() != "Control+Alt+Shift+ArrowRight"@.len()); }
            if j == 21 { assert("Control+Alt+A"@.len() != "Control+Alt+Shift+ArrowUp"@.len()); }
            if j == 22 { assert("Control+Alt+A"@.len() != "Control+Alt+Shift+ArrowDown"@.len()); }
            if j == 23 { assert("Control+Alt+A"@.len() != "Control+Alt+Equal"@.len()); }
            if j == 24 { assert("Control+Alt+A"@.len() != "Control+Alt+Minus"@.len()); }
        }
        if i == 16 {
            if j == 0 { assert("Control+Alt+H"@.len() != "Control+Alt+ArrowLeft"@.len()); }
            if j == 1 { assert("Control+Alt+H"@.len() != "Control+Alt+ArrowRight"@.len()); }
            if j == 2 { assert("Control+Alt+H"@.len() != "Control+Alt+ArrowUp"@.len()); }
            if j == 3 { assert("Control+Alt+H"@.len() != "Control+Alt+ArrowDown"@.len()); }
            if j == 4 { assert("Control+Alt+H"@[12] != "Control+Alt+U"@[12]); }
            if j == 5 { assert("Control+Alt+H"@[12] != "Control+Alt+I"@[12]); }
            if j == 6 { assert("Control+Alt+H"@[12] != "Control+Alt+J"@[12]); }
            if j == 7 { assert("Control+Alt+H"@[12] != "Control+Alt+K"@[12]); }
            if j == 8 { assert("Control+Alt+H"@.len() != "Control+Alt+Digit1"@.len()); }
            if j == 9 { assert("Control+Alt+H"@.len() != "Control+Alt+Digit2"@.len()); }
            if j == 10 { assert("Control+Alt+H"@.len() != "Control+Alt+Digit3"@.len()); }
            if j == 11 { assert("Control+Alt+H"@.len() != "Control+Alt+Digit4"@.len()); }
            if j == 12 { assert("Control+Alt+H"@.len() != "Control+Alt+Digit5"@.len()); }
            if j == 13 { assert("Control+Alt+H"@.len() != "Control+Alt+Digit6"@.len()); }
            if j == 14 { assert("Control+Alt+H"@.len() != "Control+Alt+Enter"@.len()); }
            if j == 15 { assert("Control+Alt+H"@[12] != "Control+Alt+A"@[12]); }
            if j == 17 { assert("Control+Alt+H"@[12] != "Control+Alt+C"@[12]); }
            if j == 18 { assert("Control+Alt+H"@.len() != "Control+Alt+Backspace"@.len()); }
            if j == 19 { assert("Control+Alt+H"@.len() != "Control+Alt+Shift+ArrowLeft"@.len()); }
            if j == 20 { assert("Control+Alt+H"@.len() != "Control+Alt+Shift+ArrowRight"@.len()); }
            if j == 21 { assert("Control+Alt+H"@.len() != "Control+Alt+Shift+ArrowUp"@.len()); }
            if j == 22 { assert("Control+Alt+H"@.len() != "Control+Alt+Shift+ArrowDown"@.len()); }
            if j == 23 { assert("Control+Alt+H"@.len() != "Control+Alt+Equal"@.len()); }
            if j == 24 { assert("Control+Alt+H"@.len() != "Control+Alt+Minus"@.len()); }
        }
        if i == 17 {
            if j == 0 { assert("Control+Alt+C"@.len() != "Control+Alt+ArrowLeft"@.len()); }
            if j == 1 { assert("Control+Alt+C"@.len() != "Control+Alt+ArrowRight"@.len()); }
            if j == 2 { assert("Control+Alt+C"@.len() != "Control+Alt+ArrowUp"@.len()); }
            if j == 3 { assert("Control+Alt+C"@.len() != "Control+Alt+ArrowDown"@.len()); }
            if j == 4 { assert("Control+Alt+C"@[12] != "Control+Alt+U"@[12]); }
            if j == 5 { assert("Control+Alt+C"@[12] != "Control+Alt+I"@[12]); }
            if j == 6 { assert("Control+Alt+C"@[12] != "Control+Alt+J"@[12]); }
            if j == 7 { assert("Control+Alt+C"@[12] != "Control+Alt+K"@[12]); }
            if j == 8 { assert("Control+Alt+C"@.len() != "Control+Alt+Digit1"@.len()); }
            if j == 9 { assert("Control+Alt+C"@.len() != "Control+Alt+Digit2"@.len()); }
            if j == 10 { assert("Control+Alt+C"@.len() != "Control+Alt+Digit3"@.len()); }
            if j == 11 { assert("Control+Alt+C"@.len() != "Control+Alt+Digit4"@.len()); }
            if j == 12 { assert("Control+Alt+C"@.len() != "Control+Alt+Digit5"@.len()); }
            if j == 13 { assert("Control+Alt+C"@.len() != "Control+Alt+Digit6"@.len()); }
            if j == 14 { assert("Control+Alt+C"@.len() != "Control+Alt+Enter"@.len()); }
            if j == 15 { assert("Control+Alt+C"@[12] != "Control+Alt+A"@[12]); }
            if j == 16 { assert("Control+Alt+C"@[12] != "Control+Alt+H"@[12]); }
            if j == 18 { assert("Control+Alt+C"@.len() != "Control+Alt+Backspace"@.len()); }
            if j == 19 { assert("Control+Alt+C"@.len() != "Control+Alt+Shift+ArrowLeft"@.len()); }
            if j == 20 { assert("Control+Alt+C"@.len() != "Control+Alt+Shift+ArrowRight"@.len()); }
            if j == 21 { assert("Control+Alt+C"@.len() != "Control+Alt+Shift+ArrowUp"@.len()); }
            if j == 22 { assert("Control+Alt+C"@.len() != "Control+Alt+Shift+ArrowDown"@.len()); }
            if j == 23 { assert("Control+Alt+C"@.len() != "Control+Alt+Equal"@.len()); }
            if j == 24 { assert("Control+Alt+C"@.len() != "Control+Alt+Minus"@.len()); }
        }
        if i == 18 {
            if j == 0 { assert("Control+Alt+Backspace"@[12] != "Control+Alt+ArrowLeft"@[12]); }
            if j == 1 { assert("Control+Alt+Backspace"@.len() != "Control+Alt+ArrowRight"@.len()); }
            if j == 2 { assert("Control+Alt+Backspace"@.len() != "Control+Alt+ArrowUp"@.len()); }
            if j == 3 { assert("Control+Alt+Backspace"@[12] != "Control+Alt+ArrowDown"@[12]); }
            if j == 4 { assert("Control+Alt+Backspace"@.len() != "Control+Alt+U"@.len()); }
            if j == 5 { assert("Control+Alt+Backspace"@.len() != "Control+Alt+I"@.len()); }
            if j == 6 { assert("Control+Alt+Backspace"@.len() != "Control+Alt+J"@.len()); }
            if j == 7 { assert("Control+Alt+Backspace"@.len() != "Control+Alt+K"@.len()); }
            if j == 8 { assert("Control+Alt+Backspace"@.len() != "Control+Alt+Digit1"@.len()); }
            if j == 9 { assert("Control+Alt+Backspace"@.len() != "Control+Alt+Digit2"@.len()); }
            if j == 10 { assert("Control+Alt+Backspace"@.len() != "Control+Alt+Digit3"@.len()); }
            if j == 11 { assert("Control+Alt+Backspace"@.len() != "Control+Alt+Digit4"@.len()); }
            if j == 12 { assert("Control+Alt+Backspace"@.len() != "Control+Alt+Digit5"@.len()); }
            if j == 13 { assert("Control+Alt+Backspace"@.len() != "Control+Alt+Digit6"@.len()); }
            if j == 14 { assert("Control+Alt+Backspace"@.len() != "Control+Alt+Enter"@.len()); }
            if j == 15 { assert("Control+Alt+Backspace"@.len() != "Control+Alt+A"@.len()); }
            if j == 16 { assert("Control+Alt+Backspace"@.len() != "Control+Alt+H"@.len()); }
            if j == 17 { assert("Control+Alt+Backspace"@.len() != "Control+Alt+C"@.len()); }
            if j == 19 { assert("Control+Alt+Backspace"@.len() != "Control+Alt+Shift+ArrowLeft"@.len()); }
            if j == 20 { assert("Control+Alt+Backspace"@.len() != "Control+Alt+Shift+ArrowRight"@.len()); }
            if j == 21 { assert("Control+Alt+Backspace"@.len() != "Control+Alt+Shift+ArrowUp"@.len()); }
            if j == 22 { assert("Control+Alt+Backspace"@.len() != "Control+Alt+Shift+ArrowDown"@.len()); }
            if j == 23 { assert("Control+Alt+Backspace"@.len() != "Control+Alt+Equal"@.len()); }
            if j == 24 { assert("Control+Alt+Backspace"@.len() != "Control+Alt+Minus"@.len()); }
        }
        if i == 19 {
            if j == 0 { assert("Control+Alt+Shift+ArrowLeft"@.len() != "Control+Alt+ArrowLeft"@.len()); }
            if j == 1 { assert("Control+Alt+Shift+ArrowLeft"@.len() != "Control+Alt+ArrowRight"@.len()); }
            if j == 2 { assert("Control+Alt+Shift+ArrowLeft"@.len() != "Control+Alt+ArrowUp"@.len()); }
            if j == 3 { assert("Control+Alt+Shift+ArrowLeft"@.len() != "Control+Alt+ArrowDown"@.len()); }
            if j == 4 { assert("Control+Alt+Shift+ArrowLeft"@.len() != "Control+Alt+U"@.len()); }
            if j == 5 { assert("Control+Alt+Shift+ArrowLeft"@.len() != "Control+Alt+I"@.len()); }
            if j == 6 { assert("Control+Alt+Shift+ArrowLeft"@.len() != "Control+Alt+J"@.len()); }
            if j == 7 { assert("Control+Alt+Shift+ArrowLeft"@.len() != "Control+Alt+K"@.len()); }
            if j == 8 { assert("Control+Alt+Shift+ArrowLeft"@.len() != "Control+Alt+Digit1"@.len()); }
            if j == 9 { assert("Control+Alt+Shift+ArrowLeft"@.len() != "Control+Alt+Digit2"@.len()); }
            if j == 10 { assert("Control+Alt+Shift+ArrowLeft"@.len() != "Control+Alt+Digit3"@.len()); }
            if j == 11 { assert("Control+Alt+Shift+ArrowLeft"@.len() != "Control+Alt+Digit4"@.len()); }
            if j == 12 { assert("Control+Alt+Shift+ArrowLeft"@.len() != "Control+Alt+Digit5"@.len()); }
            if j == 13 { assert("Control+Alt+Shift+ArrowLeft"@.len() != "Control+Alt+Digit6"@.len()); }
            if j == 14 { assert("Control+Alt+Shift+ArrowLeft"@.len() != "Control+Alt+Enter"@.len()); }
            if j == 15 { assert("Control+Alt+Shift+ArrowLeft"@.len() != "Control+Alt+A"@.len()); }
            if j == 16 { assert("Control+Alt+Shift+ArrowLeft"@.len() != "Control+Alt+H"@.len()); }
            if j == 17 { assert("Control+Alt+Shift+ArrowLeft"@.len() != "Control+Alt+C"@.len()); }
            if j == 18 { assert("Control+Alt+Shift+ArrowLeft"@.len() != "Control+Alt+Backspace"@.len()); }
            if j == 20 { assert("Control+Alt+Shift+ArrowLeft"@.len() != "Control+Alt+Shift+ArrowRight"@.len()); }
            if j == 21 { assert("Control+Alt+Shift+ArrowLeft"@.len() != "Control+Alt+Shift+ArrowUp"@.len()); }
            if j == 22 { assert("Control+Alt+Shift+ArrowLeft"@[23] != "Control+Alt+Shift+ArrowDown"@[23]); }
            if j == 23 { assert("Control+Alt+Shift+ArrowLeft"@.len() != "Control+Alt+Equal"@.len()); }
            if j == 24 { assert("Control+Alt+Shift+ArrowLeft"@.len() != "Control+Alt+Minus"@.len()); }
        }
        if i == 20 {
            if j == 0 { assert("Control+Alt+Shift+ArrowRight"@.len() != "Control+Alt+ArrowLeft"@.len()); }
            if j == 1 { assert("Control+Alt+Shift+ArrowRight"@.len() != "Control+Alt+ArrowRight"@.len()); }
            if j == 2 { assert("Control+Alt+Shift+ArrowRight"@.len() != "Control+Alt+ArrowUp"@.len()); }
            if j == 3 { assert("Control+Alt+Shift+ArrowRight"@.len() != "Control+Alt+ArrowDown"@.len()); }
            if j == 4 { assert("Control+Alt+Shift+ArrowRight"@.len() != "Control+Alt+U"@.len()); }
            if j == 5 { assert("Control+Alt+Shift+ArrowRight"@.len() != "Control+Alt+I"@.len()); }
            if j == 6 { assert("Control+Alt+Shift+ArrowRight"@.len() != "Control+Alt+J"@.len()); }
            if j == 7 { assert("Control+Alt+Shift+ArrowRight"@.len() != "Control+Alt+K"@.len()); }
            if j == 8 { assert("Control+Alt+Shift+ArrowRight"@.len() != "Control+Alt+Digit1"@.len()); }
            if j == 9 { assert("Control+Alt+Shift+ArrowRight"@.len() != "Control+Alt+Digit2"@.len()); }
            if j == 10 { assert("Control+Alt+Shift+ArrowRight"@.len() != "Control+Alt+Digit3"@.len()); }
            if j == 11 { assert("Control+Alt+Shift+ArrowRight"@.len() != "Control+Alt+Digit4"@.len()); }
            if j == 12 { assert("Control+Alt+Shift+ArrowRight"@.len() != "Control+Alt+Digit5"@.len()); }
            if j == 13 { assert("Control+Alt+Shift+ArrowRight"@.len() != "Control+Alt+Digit6"@.len()); }
            if j == 14 { assert("Control+Alt+Shift+ArrowRight"@.len() != "Control+Alt+Enter"@.len()); }
            if j == 15 { assert("Control+Alt+Shift+ArrowRight"@.len() != "Control+Alt+A"@.len()); }
            if j == 16 { assert("Control+Alt+Shift+ArrowRight"@.len() != "Control+Alt+H"@.len()); }
            if j == 17 { assert("Control+Alt+Shift+ArrowRight"@.len() != "Control+Alt+C"@.len()); }
            if j == 18 { assert("Control+Alt+Shift+ArrowRight"@.len() != "Control+Alt+Backspace"@.len()); }
            if j == 19 { assert("Control+Alt+Shift+ArrowRight"@.len() != "Control+Alt+Shift+ArrowLeft"@.len()); }
            if j == 21 { assert("Control+Alt+Shift+ArrowRight"@.len() != "Control+Alt+Shift+ArrowUp"@.len()); }
            if j == 22 { assert("Control+Alt+Shift+ArrowRight"@.len() != "Control+Alt+Shift+ArrowDown"@.len()); }
            if j == 23 { assert("Control+Alt+Shift+ArrowRight"@.len() != "Control+Alt+Equal"@.len()); }
            if j == 24 { assert("Control+Alt+Shift+ArrowRight"@.len() != "Control+Alt+Minus"@.len()); }
        }
        if i == 21 {
            if j == 0 { assert("Control+Alt+Shift+ArrowUp"@.len() != "Control+Alt+ArrowLeft"@.len()); }
            if j == 1 { assert("Control+Alt+Shift+ArrowUp"@.len() != "Control+Alt+ArrowRight"@.len()); }
            if j == 2 { assert("Control+Alt+Shift+ArrowUp"@.len() != "Control+Alt+ArrowUp"@.len()); }
            if j == 3 { assert("Control+Alt+Shift+ArrowUp"@.len() != "Control+Alt+ArrowDown"@.len()); }
            if j == 4 { assert("Control+Alt+Shift+ArrowUp"@.len() != "Control+Alt+U"@.len()); }
            if j == 5 { assert("Control+Alt+Shift+ArrowUp"@.len() != "Control+Alt+I"@.len()); }
            if j == 6 { assert("Control+Alt+Shift+ArrowUp"@.len() != "Control+Alt+J"@.len()); }
            if j == 7 { assert("Control+Alt+Shift+ArrowUp"@.len() != "Control+Alt+K"@.len()); }
            if j == 8 { assert("Control+Alt+Shift+ArrowUp"@.len() != "Control+Alt+Digit1"@.len()); }
            if j == 9 { assert("Control+Alt+Shift+ArrowUp"@.len() != "Control+Alt+Digit2"@.len()); }
            if j == 10 { assert("Control+Alt+Shift+ArrowUp"@.len() != "Control+Alt+Digit3"@.len()); }
            if j == 11 { assert("Control+Alt+Shift+ArrowUp"@.len() != "Control+Alt+Digit4"@.len()); }
            if j == 12 { assert("Control+Alt+Shift+ArrowUp"@.len() != "Control+Alt+Digit5"@.len()); }
            if j == 13 { assert("Control+Alt+Shift+ArrowUp"@.len() != "Control+Alt+Digit6"@.len()); }
            if j == 14 { assert("Control+Alt+Shift+ArrowUp"@.len() != "Control+Alt+Enter"@.len()); }
            if j == 15 { assert("Control+Alt+Shift+ArrowUp"@.len() != "Control+Alt+A"@.len()); }
            if j == 16 { assert("Control+Alt+Shift+ArrowUp"@.len() != "Control+Alt+H"@.len()); }
            if j == 17 { assert("Control+Alt+Shift+ArrowUp"@.len() != "Control+Alt+C"@.len()); }
            if j == 18 { assert("Control+Alt+Shift+ArrowUp"@.len() != "Control+Alt+Backspace"@.len()); }
            if j == 19 { assert("Control+Alt+Shift+ArrowUp"@.len() != "Control+Alt+Shift+ArrowLeft"@.len()); }
            if j == 20 { assert("Control+Alt+Shift+ArrowUp"@.len() != "Control+Alt+Shift+ArrowRight"@.len()); }
            if j == 22 { assert("Control+Alt+Shift+ArrowUp"@.len() != "Control+Alt+Shift+ArrowDown"@.len()); }
            if j == 23 { assert("Control+Alt+Shift+ArrowUp"@.len() != "Control+Alt+Equal"@.len()); }
            if j == 24 { assert("Control+Alt+Shift+ArrowUp"@.len() != "Control+Alt+Minus"@.len()); }
        }
        if i == 22 {
            if j == 0 { assert("Control+Alt+Shift+ArrowDown"@.len() != "Control+Alt+ArrowLeft"@.len()); }
            if j == 1 { assert("Control+Alt+Shift+ArrowDown"@.len() != "Control+Alt+ArrowRight"@.len()); }
            if j == 2 { assert("Control+Alt+Shift+ArrowDown"@.len() != "Control+Alt+ArrowUp"@.len()); }
            if j == 3 { assert("Control+Alt+Shift+ArrowDown"@.len() != "Control+Alt+ArrowDown"@.len()); }
            if j == 4 { assert("Control+Alt+Shift+ArrowDown"@.len() != "Control+Alt+U"@.len()); }
            if j == 5 { assert("Control+Alt+Shift+ArrowDown"@.len() != "Control+Alt+I"@.len()); }
            if j == 6 { assert("Control+Alt+Shift+ArrowDown"@.len() != "Control+Alt+J"@.len()); }
            if j == 7 { assert("Control+Alt+Shift+ArrowDown"@.len() != "Control+Alt+K"@.len()); }
            if j == 8 { assert("Control+Alt+Shift+ArrowDown"@.len() != "Control+Alt+Digit1"@.len()); }
            if j == 9 { assert("Control+Alt+Shift+ArrowDown"@.len() != "Control+Alt+Digit2"@.len()); }
            if j == 10 { assert("Control+Alt+Shift+ArrowDown"@.len() != "Control+Alt+Digit3"@.len()); }
            if j == 11 { assert("Control+Alt+Shift+ArrowDown"@.len() != "Control+Alt+Digit4"@.len()); }
            if j == 12 { assert("Control+Alt+Shift+ArrowDown"@.len() != "Control+Alt+Digit5"@.len()); }
            if j == 13 { assert("Control+Alt+Shift+ArrowDown"@.len() != "Control+Alt+Digit6"@.len()); }
            if j == 14 { assert("Control+Alt+Shift+ArrowDown"@.len() != "Control+Alt+Enter"@.len()); }
            if j == 15 { assert("Control+Alt+Shift+ArrowDown"@.len() != "Control+Alt+A"@.len()); }
            if j == 16 { assert("Control+Alt+Shift+ArrowDown"@.len() != "Control+Alt+H"@.len()); }
            if j == 17 { assert("Control+Alt+Shift+ArrowDown"@.len() != "Control+Alt+C"@.len()); }
            if j == 18 { assert("Control+Alt+Shift+ArrowDown"@.len() != "Control+Alt+Backspace"@.len()); }
            if j == 19 { assert("Control+Alt+Shift+ArrowDown"@[23] != "Control+Alt+Shift+ArrowLeft"@[23]); }
            if j == 20 { assert("Control+Alt+Shift+ArrowDown"@.len() != "Control+Alt+Shift+ArrowRight"@.len()); }
            if j == 21 { assert("Control+Alt+Shift+ArrowDown"@.len() != "Control+Alt+Shift+ArrowUp"@.len()); }
            if j == 23 { assert("Control+Alt+Shift+ArrowDown"@.len() != "Control+Alt+Equal"@.len()); }
            if j == 24 { assert("Control+Alt+Shift+ArrowDown"@.len() != "Control+Alt+Minus"@.len()); }
        }
        if i == 23 {
            if j == 0 { assert("Control+Alt+Equal"@.len() != "Control+Alt+ArrowLeft"@.len()); }
            if j == 1 { assert("Control+Alt+Equal"@.len() != "Control+Alt+ArrowRight"@.len()); }
            if j == 2 { assert("Control+Alt+Equal"@.len() != "Control+Alt+ArrowUp"@.len()); }
            if j == 3 { assert("Control+Alt+Equal"@.len() != "Control+Alt+ArrowDown"@.len()); }
            if j == 4 { assert("Control+Alt+Equal"@.len() != "Control+Alt+U"@.len()); }
            if j == 5 { assert("Control+Alt+Equal"@.len() != "Control+Alt+I"@.len()); }
            if j == 6 { assert("Control+Alt+Equal"@.len() != "Control+Alt+J"@.len()); }
            if j == 7 { assert("Control+Alt+Equal"@.len() != "Control+Alt+K"@.len()); }
            if j == 8 { assert("Control+Alt+Equal"@.len() != "Control+Alt+Digit1"@.len()); }
            if j == 9 { assert("Control+Alt+Equal"@.len() != "Control+Alt+Digit2"@.len()); }
            if j == 10 { assert("Control+Alt+Equal"@.len() != "Control+Alt+Digit3"@.len()); }
            if j == 11 { assert("Control+Alt+Equal"@.len() != "Control+Alt+Digit4"@.len()); }
            if j == 12 { assert("Control+Alt+Equal"@.len() != "Control+Alt+Digit5"@.len()); }
            if j == 13 { assert("Control+Alt+Equal"@.len() != "Control+Alt+Digit6"@.len()); }
            if j == 14 { assert("Control+Alt+Equal"@[13] != "Control+Alt+Enter"@[13]); }
            if j == 15 { assert("Control+Alt+Equal"@.len() != "Control+Alt+A"@.len()); }
            if j == 16 { assert("Control+Alt+Equal"@.len() != "Control+Alt+H"@.len()); }
            if j == 17 { assert("Control+Alt+Equal"@.len() != "Control+Alt+C"@.len()); }
            if j == 18 { assert("Control+Alt+Equal"@.len() != "Control+Alt+Backspace"@.len()); }
            if j == 19 { assert("Control+Alt+Equal"@.len() != "Control+Alt+Shift+ArrowLeft"@.len()); }
            if j == 20 { assert("Control+Alt+Equal"@.len() != "Control+Alt+Shift+ArrowRight"@.len()); }
            if j == 21 { assert("Control+Alt+Equal"@.len() != "Control+Alt+Shift+ArrowUp"@.len()); }
            if j == 22 { assert("Control+Alt+Equal"@.len() != "Control+Alt+Shift+ArrowDown"@.len()); }
            if j == 24 { assert("Control+Alt+Equal"@[12] != "Control+Alt+Minus"@[12]); }
        }
        if i == 24 {
            if j == 0 { assert("Control+Alt+Minus"@.len() != "Control+Alt+ArrowLeft"@.len()); }
            if j == 1 { assert("Control+Alt+Minus"@.len() != "Control+Alt+ArrowRight"@.len()); }
            if j == 2 { assert("Control+Alt+Minus"@.len() != "Control+Alt+ArrowUp"@.len()); }
            if j == 3 { assert("Control+Alt+Minus"@.len() != "Control+Alt+ArrowDown"@.len()); }
            if j == 4 { assert("Control+Alt+Minus"@.len() != "Control+Alt+U"@.len()); }
            if j == 5 { assert("Control+Alt+Minus"@.len() != "Control+Alt+I"@.len()); }
            if j == 6 { assert("Control+Alt+Minus"@.len() != "Control+Alt+J"@.len()); }
            if j == 7 { assert("Control+Alt+Minus"@.len() != "Control+Alt+K"@.len()); }
            if j == 8 { assert("Control+Alt+Minus"@.len() != "Control+Alt+Digit1"@.len()); }
            if j == 9 { assert("Control+Alt+Minus"@.len() != "Control+Alt+Digit2"@.len()); }
            if j == 10 { assert("Control+Alt+Minus"@.len() != "Control+Alt+Digit3"@.len()); }
            if j == 11 { assert("Control+Alt+Minus"@.len() != "Control+Alt+Digit4"@.len()); }
            if j == 12 { assert("Control+Alt+Minus"@.len() != "Control+Alt+Digit5"@.len()); }
            if j == 13 { assert("Control+Alt+Minus"@.len() != "Control+Alt+Digit6"@.len()); }
            if j == 14 { assert("Control+Alt+Minus"@[12] != "Control+Alt+Enter"@[12]); }
            if j == 15 { assert("Control+Alt+Minus"@.len() != "Control+Alt+A"@.len()); }
            if j == 16 { assert("Control+Alt+Minus"@.len() != "Control+Alt+H"@.len()); }
            if j == 17 { assert("Control+Alt+Minus"@.len() != "Control+Alt+C"@.len()); }
            if j == 18 { assert("Control+Alt+Minus"@.len() != "Control+Alt+Backspace"@.len()); }
            if j == 19 { assert("Control+Alt+Minus"@.len() != "Control+Alt+Shift+ArrowLeft"@.len()); }
            if j == 20 { assert("Control+Alt+Minus"@.len() != "Control+Alt+Shift+ArrowRight"@.len()); }
            if j == 21 { assert("Control+Alt+Minus"@.len() != "Control+Alt+Shift+ArrowUp"@.len()); }
            if j == 22 { assert("Control+Alt+Minus"@.len() != "Control+Alt+Shift+ArrowDown"@.len()); }
            if j == 23 { assert("Control+Alt+Minus"@[12] != "Control+Alt+Equal"@[12]); }
        }
    }
}

/// No two default Windows hotkeys share an accelerator.
#[verifier::rlimit(50)]
pub proof fn lemma_windows_default_accelerators_distinct()
    ensures
        forall|i: int, j: int|
            0 <= i < DEFAULT_BINDING_COUNT && 0 <= j < DEFAULT_BINDING_COUNT && i != j
                ==> #[trigger] default_accelerator(HotkeyPlatform::Windows, i) != #[trigger] default_accelerator(HotkeyPlatform::Windows, j),
{
    reveal_strlit("Control+Alt+ArrowDown");
    reveal_strlit("Control+Alt+ArrowLeft");
    reveal_strlit("Control+Alt+ArrowRight");
    reveal_strlit("Control+Alt+ArrowUp");
    reveal_strlit("Control+Alt+Backspace");
    reveal_strlit("Control+Alt+Enter");
    reveal_strlit("Control+Alt+Shift+ArrowDown");
    reveal_strlit("Control+Alt+Shift+ArrowLeft");
    reveal_strlit("Control+Alt+Shift+ArrowRight");
    reveal_strlit("Control+Alt+Shift+ArrowUp");
    reveal_strlit("Control+Alt+Shift+F1");
    reveal_strlit("Control+Alt+Shift+F2");
    reveal_strlit("Control+Alt+Shift+F3");
    reveal_strlit("Control+Alt+Shift+F4");
    reveal_strlit("Control+Shift+F1");
    reveal_strlit("Control+Shift+F10");
    reveal_strlit("Control+Shift+F11");
    reveal_strlit("Control+Shift+F2");
    reveal_strlit("Control+Shift+F3");
    reveal_strlit("Control+Shift+F4");
    reveal_strlit("Control+Shift+F5");
    reveal_strlit("Control+Shift+F6");
    reveal_strlit("Control+Shift+F7");
    reveal_strlit("Control+Shift+F8");
    reveal_strlit("Control+Shift+F9");
    assert forall|i: int, j: int|
        0 <= i < DEFAULT_BINDING_COUNT && 0 <= j < DEFAULT_BINDING_COUNT && i != j
        implies #[trigger] default_accelerator(HotkeyPlatform::Windows, i) != #[trigger] default_accelerator(HotkeyPlatform::Windows, j) by {
        if i == 0 {
            if j == 1 { assert("Control+Alt+ArrowLeft"@.len() != "Control+Alt+ArrowRight"@.len()); }
            if j == 2 { assert("Control+Alt+ArrowLeft"@.len() != "Control+Alt+ArrowUp"@.len()); }
            if j == 3 { assert("Control+Alt+ArrowLeft"@[17] != "Control+Alt+ArrowDown"@[17]); }
            if j == 4 { assert("Control+Alt+ArrowLeft"@.len() != "Control+Shift+F1"@.len()); }
            if j == 5 { assert("Control+Alt+ArrowLeft"@.len() != "Control+Shift+F2"@.len()); }
            if j == 6 { assert("Control+Alt+ArrowLeft"@.len() != "Control+Shift+F3"@.len()); }
            if j == 7 { assert("Control+Alt+ArrowLeft"@.len() != "Control+Shift+F4"@.len()); }
            if j == 8 { assert("Control+Alt+ArrowLeft"@.len() != "Control+Shift+F5"@.len()); }
            if j == 9 { assert("Control+Alt+ArrowLeft"@.len() != "Control+Shift+F6"@.len()); }
            if j == 10 { assert("Control+Alt+ArrowLeft"@.len() != "Control+Shift+F7"@.len()); }
            if j == 11 { assert("Control+Alt+ArrowLeft"@.len() != "Control+Shift+F8"@.len()); }
            if j == 12 { assert("Control+Alt+ArrowLeft"@.len() != "Control+Shift+F9"@.len()); }
            if j == 13 { assert("Control+Alt+ArrowLeft"@.len() != "Control+Shift+F10"@.len()); }
            if j == 14 { assert("Control+Alt+ArrowLeft"@.len() != "Control+Alt+Enter"@.len()); }
            if j == 15 { assert("Control+Alt+ArrowLeft"@.len() != "Control+Shift+F11"@.len()); }
            if j == 16 { assert("Control+Alt+ArrowLeft"@.len() != "Control+Alt+Shift+F1"@.len()); }
            if j == 17 { assert("Control+Alt+ArrowLeft"@.len() != "Control+Alt+Shift+F2"@.len()); }
            if j == 18 { assert("Control+Alt+ArrowLeft"@[12] != "Control+Alt+Backspace"@[12]); }
            if j == 19 { assert("Control+Alt+ArrowLeft"@.len() != "Control+Alt+Shift+ArrowLeft"@.len()); }
            if j == 20 { assert("Control+Alt+ArrowLeft"@.len() != "Control+Alt+Shift+ArrowRight"@.len()); }
            if j == 21 { assert("Control+Alt+ArrowLeft"@.len() != "Control+Alt+Shift+ArrowUp"@.len()); }
            if j == 22 { assert("Control+Alt+ArrowLeft"@.len() != "Control+Alt+Shift+ArrowDown"@.len()); }
            if j == 23 { assert("Control+Alt+ArrowLeft"@.len() != "Control+Alt+Shift+F3"@.len()); }
            if j == 24 { assert("Control+Alt+ArrowLeft"@.len() != "Control+Alt+Shift+F4"@.len()); }
        }
        if i == 1 {
            if j == 0 { assert("Control+Alt+ArrowRight"@.len() != "Control+Alt+ArrowLeft"@.len()); }
            if j == 2 { assert("Control+Alt+ArrowRight"@.len() != "Control+Alt+ArrowUp"@.len()); }
            if j == 3 { assert("Control+Alt+ArrowRight"@.len() != "Control+Alt+ArrowDown"@.len()); }
            if j == 4 { assert("Control+Alt+ArrowRight"@.len() != "Control+Shift+F1"@.len()); }
            if j == 5 { assert("Control+Alt+ArrowRight"@.len() != "Control+Shift+F2"@.len()); }
            if j == 6 { assert("Control+Alt+ArrowRight"@.len() != "Control+Shift+F3"@.len()); }
            if j == 7 { assert("Control+Alt+ArrowRight"@.len() != "Control+Shift+F4"@.len()); }
            if j == 8 { assert("Control+Alt+ArrowRight"@.len() != "Control+Shift+F5"@.len()); }
            if j == 9 { assert("Control+Alt+ArrowRight"@.len() != "Control+Shift+F6"@.len()); }
            if j == 10 { assert("Control+Alt+ArrowRight"@.len() != "Control+Shift+F7"@.len()); }
            if j == 11 { assert("Control+Alt+ArrowRight"@.len() != "Control+Shift+F8"@.len()); }
            if j == 12 { assert("Control+Alt+ArrowRight"@.len() != "Control+Shift+F9"@.len()); }
            if j == 13 { assert("Control+Alt+ArrowRight"@.len() != "Control+Shift+F10"@.len()); }
            if j == 14 { assert("Control+Alt+ArrowRight"@.len() != "Control+Alt+Enter"@.len()); }
            if j == 15 { assert("Control+Alt+ArrowRight"@.len() != "Control+Shift+F11"@.len()); }
            if j == 16 { assert("Control+Alt+ArrowRight"@.len() != "Control+Alt+Shift+F1"@.len()); }
            if j == 17 { assert("Control+Alt+ArrowRight"@.len() != "Control+Alt+Shift+F2"@.len()); }
            if j == 18 { assert("Control+Alt+ArrowRight"@.len() != "Control+Alt+Backspace"@.len()); }
            if j == 19 { assert("Control+Alt+ArrowRight"@.len() != "Control+Alt+Shift+ArrowLeft"@.len()); }
            if j == 20 { assert("Control+Alt+ArrowRight"@.len() != "Control+Alt+Shift+ArrowRight"@.len()); }
            if j == 21 { assert("Control+Alt+ArrowRight"@.len() != "Control+Alt+Shift+ArrowUp"@.len()); }
            if j == 22 { assert("Control+Alt+ArrowRight"@.len() != "Control+Alt+Shift+ArrowDown"@.len()); }
            if j == 23 { assert("Control+Alt+ArrowRight"@.len() != "Control+Alt+Shift+F3"@.len()); }
            if j == 24 { assert("Control+Alt+ArrowRight"@.len() != "Control+Alt+Shift+F4"@.len()); }
        }
        if i == 2 {
            if j == 0 { assert("Control+Alt+ArrowUp"@.len() != "Control+Alt+ArrowLeft"@.len()); }
            if j == 1 { assert("Control+Alt+ArrowUp"@.len() != "Control+Alt+ArrowRight"@.len()); }
            if j == 3 { assert("Control+Alt+ArrowUp"@.len() != "Control+Alt+ArrowDown"@.len()); }
            if j == 4 { assert("Control+Alt+ArrowUp"@.len() != "Control+Shift+F1"@.len()); }
            if j == 5 { assert("Control+Alt+ArrowUp"@.len() != "Control+Shift+F2"@.len()); }
            if j == 6 { assert("Control+Alt+ArrowUp"@.len() != "Control+Shift+F3"@.len()); }
            if j == 7 { assert("Control+Alt+ArrowUp"@.len() != "Control+Shift+F4"@.len()); }
            if j == 8 { assert("Control+Alt+ArrowUp"@.len() != "Control+Shift+F5"@.len()); }
            if j == 9 { assert("Control+Alt+ArrowUp"@.len() != "Control+Shift+F6"@.len()); }
            if j == 10 { assert("Control+Alt+ArrowUp"@.len() != "Control+Shift+F7"@.len()); }
            if j == 11 { assert("Control+Alt+ArrowUp"@.len() != "Control+Shift+F8"@.len()); }
            if j == 12 { assert("Control+Alt+ArrowUp"@.len() != "Control+Shift+F9"@.len()); }
            if j == 13 { assert("Control+Alt+ArrowUp"@.len() != "Control+Shift+F10"@.len()); }
            if j == 14 { assert("Control+Alt+ArrowUp"@.len() != "Control+Alt+Enter"@.len()); }
            if j == 15 { assert("Control+Alt+ArrowUp"@.len() != "Control+Shift+F11"@.len()); }
            if j == 16 { assert("Control+Alt+ArrowUp"@.len() != "Control+Alt+Shift+F1"@.len()); }
            if j == 17 { assert("Control+Alt+ArrowUp"@.len() != "Control+Alt+Shift+F2"@.len()); }
            if j == 18 { assert("Control+Alt+ArrowUp"@.len() != "Control+Alt+Backspace"@.len()); }
            if j == 19 { assert("Control+Alt+ArrowUp"@.len() != "Control+Alt+Shift+ArrowLeft"@.len()); }
            if j == 20 { assert("Control+Alt+ArrowUp"@.len() != "Control+Alt+Shift+ArrowRight"@.len()); }
            if j == 21 { assert("Control+Alt+ArrowUp"@.len() != "Control+Alt+Shift+ArrowUp"@.len()); }
            if j == 22 { assert("Control+Alt+ArrowUp"@.len() != "Control+Alt+Shift+ArrowDown"@.len()); }
            if j == 23 { assert("Control+Alt+ArrowUp"@.len() != "Control+Alt+Shift+F3"@.len()); }
            if j == 24 { assert("Control+Alt+ArrowUp"@.len() != "Control+Alt+Shift+F4"@.len()); }
        }
        if i == 3 {
            if j == 0 { assert("Control+Alt+ArrowDown"@[17] != "Control+Alt+ArrowLeft"@[17]); }
            if j == 1 { assert("Control+Alt+ArrowDown"@.len() != "Control+Alt+ArrowRight"@.len()); }
            if j == 2 { assert("Control+Alt+ArrowDown"@.len() != "Control+Alt+ArrowUp"@.len()); }
            if j == 4 { assert("Control+Alt+ArrowDown"@.len() != "Control+Shift+F1"@.len()); }
            if j == 5 { assert("Control+Alt+ArrowDown"@.len() != "Control+Shift+F2"@.len()); }
            if j == 6 { assert("Control+Alt+ArrowDown"@.len() != "Control+Shift+F3"@.len()); }
            if j == 7 { assert("Control+Alt+ArrowDown"@.len() != "Control+Shift+F4"@.len()); }
            if j == 8 { assert("Control+Alt+ArrowDown"@.len() != "Control+Shift+F5"@.len()); }
            if j == 9 { assert("Control+Alt+ArrowDown"@.len() != "Control+Shift+F6"@.len()); }
            if j == 10 { assert("Control+Alt+ArrowDown"@.len() != "Control+Shift+F7"@.len()); }
            if j == 11 { assert("Control+Alt+ArrowDown"@.len() != "Control+Shift+F8"@.len()); }
            if j == 12 { assert("Control+Alt+ArrowDown"@.len() != "Control+Shift+F9"@.len()); }
            if j == 13 { assert("Control+Alt+ArrowDown"@.len() != "Control+Shift+F10"@.len()); }
            if j == 14 { assert("Control+Alt+ArrowDown"@.len() != "Control+Alt+Enter"@.len()); }
            if j == 15 { assert("Control+Alt+ArrowDown"@.len() != "Control+Shift+F11"@.len()); }
            if j == 16 { assert("Control+Alt+ArrowDown"@.len() != "Control+Alt+Shift+F1"@.len()); }
            if j == 17 { assert("Control+Alt+ArrowDown"@.len() != "Control+Alt+Shift+F2"@.len()); }
            if j == 18 { assert("Control+Alt+ArrowDown"@[12] != "Control+Alt+Backspace"@[12]); }
            if j == 19 { assert("Control+Alt+ArrowDown"@.len() != "Control+Alt+Shift+ArrowLeft"@.len()); }
            if j == 20 { assert("Control+Alt+ArrowDown"@.len() != "Control+Alt+Shift+ArrowRight"@.len()); }
            if j == 21 { assert("Control+Alt+ArrowDown"@.len() != "Control+Alt+Shift+ArrowUp"@.len()); }
            if j == 22 { assert("Control+Alt+ArrowDown"@.len() != "Control+Alt+Shift+ArrowDown"@.len()); }
            if j == 23 { assert("Control+Alt+ArrowDown"@.len() != "Control+Alt+Shift+F3"@.len()); }
            if j == 24 { assert("Control+Alt+ArrowDown"@.len() != "Control+Alt+Shift+F4"@.len()); }
        }
        if i == 4 {
            if j == 0 { assert("Control+Shift+F1"@.len() != "Control+Alt+ArrowLeft"@.len()); }
            if j == 1 { assert("Control+Shift+F1"@.len() != "Control+Alt+ArrowRight"@.len()); }
            if j == 2 { assert("Control+Shift+F1"@.len() != "Control+Alt+ArrowUp"@.len()); }
            if j == 3 { assert("Control+Shift+F1"@.len() != "Control+Alt+ArrowDown"@.len()); }
            if j == 5 { assert("Control+Shift+F1"@[15] != "Control+Shift+F2"@[15]); }
            if j == 6 { assert("Control+Shift+F1"@[15] != "Control+Shift+F3"@[15]); }
            if j == 7 { assert("Control+Shift+F1"@[15] != "Control+Shift+F4"@[15]); }
            if j == 8 { assert("Control+Shift+F1"@[15] != "Control+Shift+F5"@[15]); }
            if j == 9 { assert("Control+Shift+F1"@[15] != "Control+Shift+F6"@[15]); }
            if j == 10 { assert("Control+Shift+F1"@[15] != "Control+Shift+F7"@[15]); }
            if j == 11 { assert("Control+Shift+F1"@[15] != "Control+Shift+F8"@[15]); }
            if j == 12 { assert("Control+Shift+F1"@[15] != "Control+Shift+F9"@[15]); }
            if j == 13 { assert("Control+Shift+F1"@.len() != "Control+Shift+F10"@.len()); }
            if j == 14 { assert("Control+Shift+F1"@.len() != "Control+Alt+Enter"@.len()); }
            if j == 15 { assert("Control+Shift+F1"@.len() != "Control+Shift+F11"@.len()); }
            if j == 16 { assert("Control+Shift+F1"@.len() != "Control+Alt+Shift+F1"@.len()); }
            if j == 17 { assert("Control+Shift+F1"@.len() != "Control+Alt+Shift+F2"@.len()); }
            if j == 18 { assert("Control+Shift+F1"@.len() != "Control+Alt+Backspace"@.len()); }
            if j == 19 { assert("Control+Shift+F1"@.len() != "Control+Alt+Shift+ArrowLeft"@.len()); }
            if j == 20 { assert("Control+Shift+F1"@.len() != "Control+Alt+Shift+ArrowRight"@.len()); }
            if j == 21 { assert("Control+Shift+F1"@.len() != "Control+Alt+Shift+ArrowUp"@.len()); }
            if j == 22 { assert("Control+Shift+F1"@.len() != "Control+Alt+Shift+ArrowDown"@.len()); }
            if j == 23 { assert("Control+Shift+F1"@.len() != "Control+Alt+Shift+F3"@.len()); }
            if j == 24 { assert("Control+Shift+F1"@.len() != "Control+Alt+Shift+F4"@.len()); }
        }
        if i == 5 {
            if j == 0 { assert("Control+Shift+F2"@.len() != "Control+Alt+ArrowLeft"@.len()); }
            if j == 1 { assert("Control+Shift+F2"@.len() != "Control+Alt+ArrowRight"@.len()); }
            if j == 2 { assert("Control+Shift+F2"@.len() != "Control+Alt+ArrowUp"@.len()); }
            if j == 3 { assert("Control+Shift+F2"@.len() != "Control+Alt+ArrowDown"@.len()); }
            if j == 4 { assert("Control+Shift+F2"@[15] != "Control+Shift+F1"@[15]); }
            if j == 6 { assert("Control+Shift+F2"@[15] != "Control+Shift+F3"@[15]); }
            if j == 7 { assert("Control+Shift+F2"@[15] != "Control+Shift+F4"@[15]); }
            if j == 8 { assert("Control+Shift+F2"@[15] != "Control+Shift+F5"@[15]); }
            if j == 9 { assert("Control+Shift+F2"@[15] != "Control+Shift+F6"@[15]); }
            if j == 10 { assert("Control+Shift+F2"@[15] != "Control+Shift+F7"@[15]); }
            if j == 11 { assert("Control+Shift+F2"@[15] != "Control+Shift+F8"@[15]); }
            if j == 12 { assert("Control+Shift+F2"@[15] != "Control+Shift+F9"@[15]); }
            if j == 13 { assert("Control+Shift+F2"@.len() != "Control+Shift+F10"@.len()); }
            if j == 14 { assert("Control+Shift+F2"@.len() != "Control+Alt+Enter"@.len()); }
            if j == 15 { assert("Control+Shift+F2"@.len() != "Control+Shift+F11"@.len()); }
            if j == 16 { assert("Control+Shift+F2"@.len() != "Control+Alt+Shift+F1"@.len()); }
            if j == 17 { assert("Control+Shift+F2"@.len() != "Control+Alt+Shift+F2"@.len()); }
            if j == 18 { assert("Control+Shift+F2"@.len() != "Control+Alt+Backspace"@.len()); }
            if j == 19 { assert("Control+Shift+F2"@.len() != "Control+Alt+Shift+ArrowLeft"@.len()); }
            if j == 20 { assert("Control+Shift+F2"@.len() != "Control+Alt+Shift+ArrowRight"@.len()); }
            if j == 21 { assert("Control+Shift+F2"@.len() != "Control+Alt+Shift+ArrowUp"@.len()); }
            if j == 22 { assert("Control+Shift+F2"@.len() != "Control+Alt+Shift+ArrowDown"@.len()); }
            if j == 23 { assert("Control+Shift+F2"@.len() != "Control+Alt+Shift+F3"@.len()); }
            if j == 24 { assert("Control+Shift+F2"@.len() != "Control+Alt+Shift+F4"@.len()); }
        }
        if i == 6 {
            if j == 0 { assert("Control+Shift+F3"@.len() != "Control+Alt+ArrowLeft"@.len()); }
            if j == 1 { assert("Control+Shift+F3"@.len() != "Control+Alt+ArrowRight"@.len()); }
            if j == 2 { assert("Control+Shift+F3"@.len() != "Control+Alt+ArrowUp"@.len()); }
            if j == 3 { assert("Control+Shift+F3"@.len() != "Control+Alt+ArrowDown"@.len()); }
            if j == 4 { assert("Control+Shift+F3"@[15] != "Control+Shift+F1"@[15]); }
            if j == 5 { assert("Control+Shift+F3"@[15] != "Control+Shift+F2"@[15]); }
            if j == 7 { assert("Control+Shift+F3"@[15] != "Control+Shift+F4"@[15]); }
            if j == 8 { assert("Control+Shift+F3"@[15] != "Control+Shift+F5"@[15]); }
            if j == 9 { assert("Control+Shift+F3"@[15] != "Control+Shift+F6"@[15]); }
            if j == 10 { assert("Control+Shift+F3"@[15] != "Control+Shift+F7"@[15]); }
            if j == 11 { assert("Control+Shift+F3"@[15] != "Control+Shift+F8"@[15]); }
            if j == 12 { assert("Control+Shift+F3"@[15] != "Control+Shift+F9"@[15]); }
            if j == 13 { assert("Control+Shift+F3"@.len() != "Control+Shift+F10"@.len()); }
            if j == 14 { assert("Control+Shift+F3"@.len() != "Control+Alt+Enter"@.len()); }
            if j == 15 { assert("Control+Shift+F3"@.len() != "Control+Shift+F11"@.len()); }
            if j == 16 { assert("Control+Shift+F3"@.len() != "Control+Alt+Shift+F1"@.len()); }
            if j == 17 { assert("Control+Shift+F3"@.len() != "Control+Alt+Shift+F2"@.len()); }
            if j == 18 { assert("Control+Shift+F3"@.len() != "Control+Alt+Backspace"@.len()); }
            if j == 19 { assert("Control+Shift+F3"@.len() != "Control+Alt+Shift+ArrowLeft"@.len()); }
            if j == 20 { assert("Control+Shift+F3"@.len() != "Control+Alt+Shift+ArrowRight"@.len()); }
            if j == 21 { assert("Control+Shift+F3"@.len() != "Control+Alt+Shift+ArrowUp"@.len()); }
            if j == 22 { assert("Control+Shift+F3"@.len() != "Control+Alt+Shift+ArrowDown"@.len()); }
            if j == 23 { assert("Control+Shift+F3"@.len() != "Control+Alt+Shift+F3"@.len()); }
            if j == 24 { assert("Control+Shift+F3"@.len() != "Control+Alt+Shift+F4"@.len()); }
        }
        if i == 7 {
            if j == 0 { assert("Control+Shift+F4"@.len() != "Control+Alt+ArrowLeft"@.len()); }
            if j == 1 { assert("Control+Shift+F4"@.len() != "Control+Alt+ArrowRight"@.len()); }
            if j == 2 { assert("Control+Shift+F4"@.len() != "Control+Alt+ArrowUp"@.len()); }
            if j == 3 { assert("Control+Shift+F4"@.len() != "Control+Alt+ArrowDown"@.len()); }
            if j == 4 { assert("Control+Shift+F4"@[15] != "Control+Shift+F1"@[15]); }
            if j == 5 { assert("Control+Shift+F4"@[15] != "Control+Shift+F2"@[15]); }
            if j == 6 { assert("Control+Shift+F4"@[15] != "Control+Shift+F3"@[15]); }
            if j == 8 { assert("Control+Shift+F4"@[15] != "Control+Shift+F5"@[15]); }
            if j == 9 { assert("Control+Shift+F4"@[15] != "Control+Shift+F6"@[15]); }
            if j == 10 { assert("Control+Shift+F4"@[15] != "Control+Shift+F7"@[15]); }
            if j == 11 { assert("Control+Shift+F4"@[15] != "Control+Shift+F8"@[15]); }
            if j == 12 { assert("Control+Shift+F4"@[15] != "Control+Shift+F9"@[15]); }
            if j == 13 { assert("Control+Shift+F4"@.len() != "Control+Shift+F10"@.len()); }
            if j == 14 { assert("Control+Shift+F4"@.len() != "Control+Alt+Enter"@.len()); }
            if j == 15 { assert("Control+Shift+F4"@.len() != "Control+Shift+F11"@.len()); }
            if j == 16 { assert("Control+Shift+F4"@.len() != "Control+Alt+Shift+F1"@.len()); }
            if j == 17 { assert("Control+Shift+F4"@.len() != "Control+Alt+Shift+F2"@.len()); }
            if j == 18 { assert("Control+Shift+F4"@.len() != "Control+Alt+Backspace"@.len()); }
            if j == 19 { assert("Control+Shift+F4"@.len() != "Control+Alt+Shift+ArrowLeft"@.len()); }
            if j == 20 { assert("Control+Shift+F4"@.len() != "Control+Alt+Shift+ArrowRight"@.len()); }
            if j == 21 { assert("Control+Shift+F4"@.len() != "Control+Alt+Shift+ArrowUp"@.len()); }
            if j == 22 { assert("Control+Shift+F4"@.len() != "Control+Alt+Shift+ArrowDown"@.len()); }
            if j == 23 { assert("Control+Shift+F4"@.len() != "Control+Alt+Shift+F3"@.len()); }
            if j == 24 { assert("Control+Shift+F4"@.len() != "Control+Alt+Shift+F4"@.len()); }
        }
        if i == 8 {
            if j == 0 { assert("Control+Shift+F5"@.len() != "Control+Alt+ArrowLeft"@.len()); }
            if j == 1 { assert("Control+Shift+F5"@.len() != "Control+Alt+ArrowRight"@.len()); }
            if j == 2 { assert("Control+Shift+F5"@.len() != "Control+Alt+ArrowUp"@.len()); }
            if j == 3 { assert("Control+Shift+F5"@.len() != "Control+Alt+ArrowDown"@.len()); }
            if j == 4 { assert("Control+Shift+F5"@[15] != "Control+Shift+F1"@[15]); }
            if j == 5 { assert("Control+Shift+F5"@[15] != "Control+Shift+F2"@[15]); }
            if j == 6 { assert("Control+Shift+F5"@[15] != "Control+Shift+F3"@[15]); }
            if j == 7 { assert("Control+Shift+F5"@[15] != "Control+Shift+F4"@[15]); }
            if j == 9 { assert("Control+Shift+F5"@[15] != "Control+Shift+F6"@[15]); }
            if j == 10 { assert("Control+Shift+F5"@[15] != "Control+Shift+F7"@[15]); }
            if j == 11 { assert("Control+Shift+F5"@[15] != "Control+Shift+F8"@[15]); }
            if j == 12 { assert("Control+Shift+F5"@[15] != "Control+Shift+F9"@[15]); }
            if j == 13 { assert("Control+Shift+F5"@.len() != "Control+Shift+F10"@.len()); }
            if j == 14 { assert("Control+Shift+F5"@.len() != "Control+Alt+Enter"@.len()); }
            if j == 15 { assert("Control+Shift+F5"@.len() != "Control+Shift+F11"@.len()); }
            if j == 16 { assert("Control+Shift+F5"@.len() != "Control+Alt+Shift+F1"@.len()); }
            if j == 17 { assert("Control+Shift+F5"@.len() != "Control+Alt+Shift+F2"@.len()); }
            if j == 18 { assert("Control+Shift+F5"@.len() != "Control+Alt+Backspace"@.len()); }
            if j == 19 { assert("Control+Shift+F5"@.len() != "Control+Alt+Shift+ArrowLeft"@.len()); }
            if j == 20 { assert("Control+Shift+F5"@.len() != "Control+Alt+Shift+ArrowRight"@.len()); }
            if j == 21 { assert("Control+Shift+F5"@.len() != "Control+Alt+Shift+ArrowUp"@.len()); }
            if j == 22 { assert("Control+Shift+F5"@.len() != "Control+Alt+Shift+ArrowDown"@.len()); }
            if j == 23 { assert("Control+Shift+F5"@.len() != "Control+Alt+Shift+F3"@.len()); }
            if j == 24 { assert("Control+Shift+F5"@.len() != "Control+Alt+Shift+F4"@.len()); }
        }
        if i == 9 {
            if j == 0 { assert("Control+Shift+F6"@.len() != "Control+Alt+ArrowLeft"@.len()); }
            if j == 1 { assert("Control+Shift+F6"@.len() != "Control+Alt+ArrowRight"@.len()); }
            if j == 2 { assert("Control+Shift+F6"@.len() != "Control+Alt+ArrowUp"@.len()); }
            if j == 3 { assert("Control+Shift+F6"@.len() != "Control+Alt+ArrowDown"@.len()); }
            if j == 4 { assert("Control+Shift+F6"@[15] != "Control+Shift+F1"@[15]); }
            if j == 5 { assert("Control+Shift+F6"@[15] != "Control+Shift+F2"@[15]); }
            if j == 6 { assert("Control+Shift+F6"@[15] != "Control+Shift+F3"@[15]); }
            if j == 7 { assert("Control+Shift+F6"@[15] != "Control+Shift+F4"@[15]); }
            if j == 8 { assert("Control+Shift+F6"@[15] != "Control+Shift+F5"@[15]); }
            if j == 10 { assert("Control+Shift+F6"@[15] != "Control+Shift+F7"@[15]); }
            if j == 11 { assert("Control+Shift+F6"@[15] != "Control+Shift+F8"@[15]); }
            if j == 12 { assert("Control+Shift+F6"@[15] != "Control+Shift+F9"@[15]); }
            if j == 13 { assert("Control+Shift+F6"@.len() != "Control+Shift+F10"@.len()); }
            if j == 14 { assert("Control+Shift+F6"@.len() != "Control+Alt+Enter"@.len()); }
            if j == 15 { assert("Control+Shift+F6"@.len() != "Control+Shift+F11"@.len()); }
            if j == 16 { assert("Control+Shift+F6"@.len() != "Control+Alt+Shift+F1"@.len()); }
            if j == 17 { assert("Control+Shift+F6"@.len() != "Control+Alt+Shift+F2"@.len()); }
            if j == 18 { assert("Control+Shift+F6"@.len() != "Control+Alt+Backspace"@.len()); }
            if j == 19 { assert("Control+Shift+F6"@.len() != "Control+Alt+Shift+ArrowLeft"@.len()); }
            if j == 20 { assert("Control+Shift+F6"@.len() != "Control+Alt+Shift+ArrowRight"@.len()); }
            if j == 21 { assert("Control+Shift+F6"@.len() != "Control+Alt+Shift+ArrowUp"@.len()); }
            if j == 22 { assert("Control+Shift+F6"@.len() != "Control+Alt+Shift+ArrowDown"@.len()); }
            if j == 23 { assert("Control+Shift+F6"@.len() != "Control+Alt+Shift+F3"@.len()); }
            if j == 24 { assert("Control+Shift+F6"@.len() != "Control+Alt+Shift+F4"@.len()); }
        }
        if i == 10 {
            if j == 0 { assert("Control+Shift+F7"@.len() != "Control+Alt+ArrowLeft"@.len()); }
            if j == 1 { assert("Control+Shift+F7"@.len() != "Control+Alt+ArrowRight"@.len()); }
            if j == 2 { assert("Control+Shift+F7"@.len() != "Control+Alt+ArrowUp"@.len()); }
            if j == 3 { assert("Control+Shift+F7"@.len() != "Control+Alt+ArrowDown"@.len()); }
            if j == 4 { assert("Control+Shift+F7"@[15] != "Control+Shift+F1"@[15]); }
            if j == 5 { assert("Control+Shift+F7"@[15] != "Control+Shift+F2"@[15]); }
            if j == 6 { assert("Control+Shift+F7"@[15] != "Control+Shift+F3"@[15]); }
            if j == 7 { assert("Control+Shift+F7"@[15] != "Control+Shift+F4"@[15]); }
            if j == 8 { assert("Control+Shift+F7"@[15] != "Control+Shift+F5"@[15]); }
            if j == 9 { assert("Control+Shift+F7"@[15] != "Control+Shift+F6"@[15]); }
            if j == 11 { assert("Control+Shift+F7"@[15] != "Control+Shift+F8"@[15]); }
            if j == 12 { assert("Control+Shift+F7"@[15] != "Control+Shift+F9"@[15]); }
            if j == 13 { assert("Control+Shift+F7"@.len() != "Control+Shift+F10"@.len()); }
            if j == 14 { assert("Control+Shift+F7"@.len() != "Control+Alt+Enter"@.len()); }
            if j == 15 { assert("Control+Shift+F7"@.len() != "Control+Shift+F11"@.len()); }
            if j == 16 { assert("Control+Shift+F7"@.len() != "Control+Alt+Shift+F1"@.len()); }
            if j == 17 { assert("Control+Shift+F7"@.len() != "Control+Alt+Shift+F2"@.len()); }
            if j == 18 { assert("Control+Shift+F7"@.len() != "Control+Alt+Backspace"@.len()); }
            if j == 19 { assert("Control+Shift+F7"@.len() != "Control+Alt+Shift+ArrowLeft"@.len()); }
            if j == 20 { assert("Control+Shift+F7"@.len() != "Control+Alt+Shift+ArrowRight"@.len()); }
            if j == 21 { assert("Control+Shift+F7"@.len() != "Control+Alt+Shift+ArrowUp"@.len()); }
            if j == 22 { assert("Control+Shift+F7"@.len() != "Control+Alt+Shift+ArrowDown"@.len()); }
            if j == 23 { assert("Control+Shift+F7"@.len() != "Control+Alt+Shift+F3"@.len()); }
            if j == 24 { assert("Control+Shift+F7"@.len() != "Control+Alt+Shift+F4"@.len()); }
        }
        if i == 11 {
            if j == 0 { assert("Control+Shift+F8"@.len() != "Control+Alt+ArrowLeft"@.len()); }
            if j == 1 { assert("Control+Shift+F8"@.len() != "Control+Alt+ArrowRight"@.len()); }
            if j == 2 { assert("Control+Shift+F8"@.len() != "Control+Alt+ArrowUp"@.len()); }
            if j == 3 { assert("Control+Shift+F8"@.len() != "Control+Alt+ArrowDown"@.len()); }
            if j == 4 { assert("Control+Shift+F8"@[15] != "Control+Shift+F1"@[15]); }
            if j == 5 { assert("Control+Shift+F8"@[15] != "Control+Shift+F2"@[15]); }
            if j == 6 { assert("Control+Shift+F8"@[15] != "Control+Shift+F3"@[15]); }
            if j == 7 { assert("Control+Shift+F8"@[15] != "Control+Shift+F4"@[15]); }
            if j == 8 { assert("Control+Shift+F8"@[15] != "Control+Shift+F5"@[15]); }
            if j == 9 { assert("Control+Shift+F8"@[15] != "Control+Shift+F6"@[15]); }
            if j == 10 { assert("Control+Shift+F8"@[15] != "Control+Shift+F7"@[15]); }
            if j == 12 { assert("Control+Shift+F8"@[15] != "Control+Shift+F9"@[15]); }
            if j == 13 { assert("Control+Shift+F8"@.len() != "Control+Shift+F10"@.len()); }
            if j == 14 { assert("Control+Shift+F8"@.len() != "Control+Alt+Enter"@.len()); }
            if j == 15 { assert("Control+Shift+F8"@.len() != "Control+Shift+F11"@.len()); }
            if j == 16 { assert("Control+Shift+F8"@.len() != "Control+Alt+Shift+F1"@.len()); }
            if j == 17 { assert("Control+Shift+F8"@.len() != "Control+Alt+Shift+F2"@.len()); }
            if j == 18 { assert("Control+Shift+F8"@.len() != "Control+Alt+Backspace"@.len()); }
            if j == 19 { assert("Control+Shift+F8"@.len() != "Control+Alt+Shift+ArrowLeft"@.len()); }
            if j == 20 { assert("Control+Shift+F8"@.len() != "Control+Alt+Shift+ArrowRight"@.len()); }
            if j == 21 { assert("Control+Shift+F8"@.len() != "Control+Alt+Shift+ArrowUp"@.len()); }
            if j == 22 { assert("Control+Shift+F8"@.len() != "Control+Alt+Shift+ArrowDown"@.len()); }
            if j == 23 { assert("Control+Shift+F8"@.len() != "Control+Alt+Shift+F3"@.len()); }
            if j == 24 { assert("Control+Shift+F8"@.len() != "Control+Alt+Shift+F4"@.len()); }
        }
        if i == 12 {
            if j == 0 { assert("Control+Shift+F9"@.len() != "Control+Alt+ArrowLeft"@.len()); }
            if j == 1 { assert("Control+Shift+F9"@.len() != "Control+Alt+ArrowRight"@.len()); }
            if j == 2 { assert("Control+Shift+F9"@.len() != "Control+Alt+ArrowUp"@.len()); }
            if j == 3 { assert("Control+Shift+F9"@.len() != "Control+Alt+ArrowDown"@.len()); }
            if j == 4 { assert("Control+Shift+F9"@[15] != "Control+Shift+F1"@[15]); }
            if j == 5 { assert("Control+Shift+F9"@[15] != "Control+Shift+F2"@[15]); }
            if j == 6 { assert("Control+Shift+F9"@[15] != "Control+Shift+F3"@[15]); }
            if j == 7 { assert("Control+Shift+F9"@[15] != "Control+Shift+F4"@[15]); }
            if j == 8 { assert("Control+Shift+F9"@[15] != "Control+Shift+F5"@[15]); }
            if j == 9 { assert("Control+Shift+F9"@[15] != "Control+Shift+F6"@[15]); }
            if j == 10 { assert("Control+Shift+F9"@[15] != "Control+Shift+F7"@[15]); }
            if j == 11 { assert("Control+Shift+F9"@[15] != "Control+Shift+F8"@[15]); }
            if j == 13 { assert("Control+Shift+F9"@.len() != "Control+Shift+F10"@.len()); }
            if j == 14 { assert("Control+Shift+F9"@.len() != "Control+Alt+Enter"@.len()); }
            if j == 15 { assert("Control+Shift+F9"@.len() != "Control+Shift+F11"@.len()); }
            if j == 16 { assert("Control+Shift+F9"@.len() != "Control+Alt+Shift+F1"@.len()); }
            if j == 17 { assert("Control+Shift+F9"@.len() != "Control+Alt+Shift+F2"@.len()); }
            if j == 18 { assert("Control+Shift+F9"@.len() != "Control+Alt+Backspace"@.len()); }
            if j == 19 { assert("Control+Shift+F9"@.len() != "Control+Alt+Shift+ArrowLeft"@.len()); }
            if j == 20 { assert("Control+Shift+F9"@.len() != "Control+Alt+Shift+ArrowRight"@.len()); }
            if j == 21 { assert("Control+Shift+F9"@.len() != "Control+Alt+Shift+ArrowUp"@.len()); }
            if j == 22 { assert("Control+Shift+F9"@.len() != "Control+Alt+Shift+ArrowDown"@.len()); }
            if j == 23 { assert("Control+Shift+F9"@.len() != "Control+Alt+Shift+F3"@.len()); }
            if j == 24 { assert("Control+Shift+F9"@.len() != "Control+Alt+Shift+F4"@.len()); }
        }
        if i == 13 {
            if j == 0 { assert("Control+Shift+F10"@.len() != "Control+Alt+ArrowLeft"@.len()); }
            if j == 1 { assert("Control+Shift+F10"@.len() != "Control+Alt+ArrowRight"@.len()); }
            if j == 2 { assert("Control+Shift+F10"@.len() != "Control+Alt+ArrowUp"@.len()); }
            if j == 3 { assert("Control+Shift+F10"@.len() != "Control+Alt+ArrowDown"@.len()); }
            if j == 4 { assert("Control+Shift+F10"@.len() != "Control+Shift+F1"@.len()); }
            if j == 5 { assert("Control+Shift+F10"@.len() != "Control+Shift+F2"@.len()); }
            if j == 6 { assert("Control+Shift+F10"@.len() != "Control+Shift+F3"@.len()); }
            if j == 7 { assert("Control+Shift+F10"@.len() != "Control+Shift+F4"@.len()); }
            if j == 8 { assert("Control+Shift+F10"@.len() != "Control+Shift+F5"@.len()); }
            if j == 9 { assert("Control+Shift+F10"@.len() != "Control+Shift+F6"@.len()); }
            if j == 10 { assert("Control+Shift+F10"@.len() != "Control+Shift+F7"@.len()); }
            if j == 11 { assert("Control+Shift+F10"@.len() != "Control+Shift+F8"@.len()); }
            if j == 12 { assert("Control+Shift+F10"@.len() != "Control+Shift+F9"@.len()); }
            if j == 14 { assert("Control+Shift+F10"@[8] != "Control+Alt+Enter"@[8]); }
            if j == 15 { assert("Control+Shift+F10"@[16] != "Control+Shift+F11"@[16]); }
            if j == 16 { assert("Control+Shift+F10"@.len() != "Control+Alt+Shift+F1"@.len()); }
            if j == 17 { assert("Control+Shift+F10"@.len() != "Control+Alt+Shift+F2"@.len()); }
            if j == 18 { assert("Control+Shift+F10"@.len() != "Control+Alt+Backspace"@.len()); }
            if j == 19 { assert("Control+Shift+F10"@.len() != "Control+Alt+Shift+ArrowLeft"@.len()); }
            if j == 20 { assert("Control+Shift+F10"@.len() != "Control+Alt+Shift+ArrowRight"@.len()); }
            if j == 21 { assert("Control+Shift+F10"@.len() != "Control+Alt+Shift+ArrowUp"@.len()); }
            if j == 22 { assert("Control+Shift+F10"@.len() != "Control+Alt+Shift+ArrowDown"@.len()); }
            if j == 23 { assert("Control+Shift+F10"@.len() != "Control+Alt+Shift+F3"@.len()); }
            if j == 24 { assert("Control+Shift+F10"@.len() != "Control+Alt+Shift+F4"@.len()); }
        }
        if i == 14 {
            if j == 0 { assert("Control+Alt+Enter"@.len() != "Control+Alt+ArrowLeft"@.len()); }
            if j == 1 { assert("Control+Alt+Enter"@.len() != "Control+Alt+ArrowRight"@.len()); }
            if j == 2 { assert("Control+Alt+Enter"@.len() != "Control+Alt+ArrowUp"@.len()); }
            if j == 3 { assert("Control+Alt+Enter"@.len() != "Control+Alt+ArrowDown"@.len()); }
            if j == 4 { assert("Control+Alt+Enter"@.len() != "Control+Shift+F1"@.len()); }
            if j == 5 { assert("Control+Alt+Enter"@.len() != "Control+Shift+F2"@.len()); }
            if j == 6 { assert("Control+Alt+Enter"@.len() != "Control+Shift+F3"@.len()); }
            if j == 7 { assert("Control+Alt+Enter"@.len() != "Control+Shift+F4"@.len()); }
            if j == 8 { assert("Control+Alt+Enter"@.len() != "Control+Shift+F5"@.len()); }
            if j == 9 { assert("Control+Alt+Enter"@.len() != "Control+Shift+F6"@.len()); }
            if j == 10 { assert("Control+Alt+Enter"@.len() != "Control+Shift+F7"@.len()); }
            if j == 11 { assert("Control+Alt+Enter"@.len() != "Control+Shift+F8"@.len()); }
            if j == 12 { assert("Control+Alt+Enter"@.len() != "Control+Shift+F9"@.len()); }
            if j == 13 { assert("Control+Alt+Enter"@[8] != "Control+Shift+F10"@[8]); }
            if j == 15 { assert("Control+Alt+Enter"@[8] != "Control+Shift+F11"@[8]); }
            if j == 16 { assert("Control+Alt+Enter"@.len() != "Control+Alt+Shift+F1"@.len()); }
            if j == 17 { assert("Control+Alt+Enter"@.len() != "Control+Alt+Shift+F2"@.len()); }
            if j == 18 { assert("Control+Alt+Enter"@.len() != "Control+Alt+Backspace"@.len()); }
            if j == 19 { assert("Control+Alt+Enter"@.len() != "Control+Alt+Shift+ArrowLeft"@.len()); }
            if j == 20 { assert("Control+Alt+Enter"@.len() != "Control+Alt+Shift+ArrowRight"@.len()); }
            if j == 21 { assert("Control+Alt+Enter"@.len() != "Control+Alt+Shift+ArrowUp"@.len()); }
            if j == 22 { assert("Control+Alt+Enter"@.len() != "Control+Alt+Shift+ArrowDown"@.len()); }
            if j == 23 { assert("Control+Alt+Enter"@.len() != "Control+Alt+Shift+F3"@.len()); }
            if j == 24 { assert("Control+Alt+Enter"@.len() != "Control+Alt+Shift+F4"@.len()); }
        }
        if i == 15 {
            if j == 0 { assert("Control+Shift+F11"@.len() != "Control+Alt+ArrowLeft"@.len()); }
            if j == 1 { assert("Control+Shift+F11"@.len() != "Control+Alt+ArrowRight"@.len()); }
            if j == 2 { assert("Control+Shift+F11"@.len() != "Control+Alt+ArrowUp"@.len()); }
            if j == 3 { assert("Control+Shift+F11"@.len() != "Control+Alt+ArrowDown"@.len()); }
            if j == 4 { assert("Control+Shift+F11"@.len() != "Control+Shift+F1"@.len()); }
            if j == 5 { assert("Control+Shift+F11"@.len() != "Control+Shift+F2"@.len()); }
            if j == 6 { assert("Control+Shift+F11"@.len() != "Control+Shift+F3"@.len()); }
            if j == 7 { assert("Control+Shift+F11"@.len() != "Control+Shift+F4"@.len()); }
            if j == 8 { assert("Control+Shift+F11"@.len() != "Control+Shift+F5"@.len()); }
            if j == 9 { assert("Control+Shift+F11"@.len() != "Control+Shift+F6"@.len()); }
            if j == 10 { assert("Control+Shift+F11"@.len() != "Control+Shift+F7"@.len()); }
            if j == 11 { assert("Control+Shift+F11"@.len() != "Control+Shift+F8"@.len()); }
            if j == 12 { assert("Control+Shift+F11"@.len() != "Control+Shift+F9"@.len()); }
            if j == 13 { assert("Control+Shift+F11"@[16] != "Control+Shift+F10"@[16]); }
            if j == 14 { assert("Control+Shift+F11"@[8] != "Control+Alt+Enter"@[8]); }
            if j == 16 { assert("Control+Shift+F11"@.len() != "Control+Alt+Shift+F1"@.len()); }
            if j == 17 { assert("Control+Shift+F11"@.len() != "Control+Alt+Shift+F2"@.len()); }
            if j == 18 { assert("Control+Shift+F11"@.len() != "Control+Alt+Backspace"@.len()); }
            if j == 19 { assert("Control+Shift+F11"@.len() != "Control+Alt+Shift+ArrowLeft"@.len()); }
            if j == 20 { assert("Control+Shift+F11"@.len() != "Control+Alt+Shift+ArrowRight"@.len()); }
            if j == 21 { assert("Control+Shift+F11"@.len() != "Control+Alt+Shift+ArrowUp"@.len()); }
            if j == 22 { assert("Control+Shift+F11"@.len() != "Control+Alt+Shift+ArrowDown"@.len()); }
            if j == 23 { assert("Control+Shift+F11"@.len() != "Control+Alt+Shift+F3"@.len()); }
            if j == 24 { assert("Control+Shift+F11"@.len() != "Control+Alt+Shift+F4"@.len()); }
        }
        if i == 16 {
            if j == 0 { assert("Control+Alt+Shift+F1"@.len() != "Control+Alt+ArrowLeft"@.len()); }
            if j == 1 { assert("Control+Alt+Shift+F1"@.len() != "Control+Alt+ArrowRight"@.len()); }
            if j == 2 { assert("Control+Alt+Shift+F1"@.len() != "Control+Alt+ArrowUp"@.len()); }
            if j == 3 { assert("Control+Alt+Shift+F1"@.len() != "Control+Alt+ArrowDown"@.len()); }
            if j == 4 { assert("Control+Alt+Shift+F1"@.len() != "Control+Shift+F1"@.len()); }
            if j == 5 { assert("Control+Alt+Shift+F1"@.len() != "Control+Shift+F2"@.len()); }
            if j == 6 { assert("Control+Alt+Shift+F1"@.len() != "Control+Shift+F3"@.len()); }
            if j == 7 { assert("Control+Alt+Shift+F1"@.len() != "Control+Shift+F4"@.len()); }
            if j == 8 { assert("Control+Alt+Shift+F1"@.len() != "Control+Shift+F5"@.len()); }
            if j == 9 { assert("Control+Alt+Shift+F1"@.len() != "Control+Shift+F6"@.len()); }
            if j == 10 { assert("Control+Alt+Shift+F1"@.len() != "Control+Shift+F7"@.len()); }
            if j == 11 { assert("Control+Alt+Shift+F1"@.len() != "Control+Shift+F8"@.len()); }
            if j == 12 { assert("Control+Alt+Shift+F1"@.len() != "Control+Shift+F9"@.len()); }
            if j == 13 { assert("Control+Alt+Shift+F1"@.len() != "Control+Shift+F10"@.len()); }
            if j == 14 { assert("Control+Alt+Shift+F1"@.len() != "Control+Alt+Enter"@.len()); }
            if j == 15 { assert("Control+Alt+Shift+F1"@.len() != "Control+Shift+F11"@.len()); }
            if j == 17 { assert("Control+Alt+Shift+F1"@[19] != "Control+Alt+Shift+F2"@[19]); }
            if j == 18 { assert("Control+Alt+Shift+F1"@.len() != "Control+Alt+Backspace"@.len()); }
            if j == 19 { assert("Control+Alt+Shift+F1"@.len() != "Control+Alt+Shift+ArrowLeft"@.len()); }
            if j == 20 { assert("Control+Alt+Shift+F1"@.len() != "Control+Alt+Shift+ArrowRight"@.len()); }
            if j == 21 { assert("Control+Alt+Shift+F1"@.len() != "Control+Alt+Shift+ArrowUp"@.len()); }
            if j == 22 { assert("Control+Alt+Shift+F1"@.len() != "Control+Alt+Shift+ArrowDown"@.len()); }
            if j == 23 { assert("Control+Alt+Shift+F1"@[19] != "Control+Alt+Shift+F3"@[19]); }
            if j == 24 { assert("Control+Alt+Shift+F1"@[19] != "Control+Alt+Shift+F4"@[19]); }
        }
        if i == 17 {
            if j == 0 { assert("Control+Alt+Shift+F2"@.len() != "Control+Alt+ArrowLeft"@.len()); }
            if j == 1 { assert("Control+Alt+Shift+F2"@.len() != "Control+Alt+ArrowRight"@.len()); }
            if j == 2 { assert("Control+Alt+Shift+F2"@.len() != "Control+Alt+ArrowUp"@.len()); }
            if j == 3 { assert("Control+Alt+Shift+F2"@.len() != "Control+Alt+ArrowDown"@.len()); }
            if j == 4 { assert("Control+Alt+Shift+F2"@.len() != "Control+Shift+F1"@.len()); }
            if j == 5 { assert("Control+Alt+Shift+F2"@.len() != "Control+Shift+F2"@.len()); }
            if j == 6 { assert("Control+Alt+Shift+F2"@.len() != "Control+Shift+F3"@.len()); }
            if j == 7 { assert("Control+Alt+Shift+F2"@.len() != "Control+Shift+F4"@.len()); }
            if j == 8 { assert("Control+Alt+Shift+F2"@.len() != "Control+Shift+F5"@.len()); }
            if j == 9 { assert("Control+Alt+Shift+F2"@.len() != "Control+Shift+F6"@.len()); }
            if j == 10 { assert("Control+Alt+Shift+F2"@.len() != "Control+Shift+F7"@.len()); }
            if j == 11 { assert("Control+Alt+Shift+F2"@.len() != "Control+Shift+F8"@.len()); }
            if j == 12 { assert("Control+Alt+Shift+F2"@.len() != "Control+Shift+F9"@.len()); }
            if j == 13 { assert("Control+Alt+Shift+F2"@.len() != "Control+Shift+F10"@.len()); }
            if j == 14 { assert("Control+Alt+Shift+F2"@.len() != "Control+Alt+Enter"@.len()); }
            if j == 15 { assert("Control+Alt+Shift+F2"@.len() != "Control+Shift+F11"@.len()); }
            if j == 16 { assert("Control+Alt+Shift+F2"@[19] != "Control+Alt+Shift+F1"@[19]); }
            if j == 18 { assert("Control+Alt+Shift+F2"@.len() != "Control+Alt+Backspace"@.len()); }
            if j == 19 { assert("Control+Alt+Shift+F2"@.len() != "Control+Alt+Shift+ArrowLeft"@.len()); }
            if j == 20 { assert("Control+Alt+Shift+F2"@.len() != "Control+Alt+Shift+ArrowRight"@.len()); }
            if j == 21 { assert("Control+Alt+Shift+F2"@.len() != "Control+Alt+Shift+ArrowUp"@.len()); }
            if j == 22 { assert("Control+Alt+Shift+F2"@.len() != "Control+Alt+Shift+ArrowDown"@.len()); }
            if j == 23 { assert("Control+Alt+Shift+F2"@[19] != "Control+Alt+Shift+F3"@[19]); }
            if j == 24 { assert("Control+Alt+Shift+F2"@[19] != "Control+Alt+Shift+F4"@[19]); }
        }
        if i == 18 {
            if j == 0 { assert("Control+Alt+Backspace"@[12] != "Control+Alt+ArrowLeft"@[12]); }
            if j == 1 { assert("Control+Alt+Backspace"@.len() != "Control+Alt+ArrowRight"@.len()); }
            if j == 2 { assert("Control+Alt+Backspace"@.len() != "Control+Alt+ArrowUp"@.len()); }
            if j == 3 { assert("Control+Alt+Backspace"@[12] != "Control+Alt+ArrowDown"@[12]); }
            if j == 4 { assert("Control+Alt+Backspace"@.len() != "Control+Shift+F1"@.len()); }
            if j == 5 { assert("Control+Alt+Backspace"@.len() != "Control+Shift+F2"@.len()); }
            if j == 6 { assert("Control+Alt+Backspace"@.len() != "Control+Shift+F3"@.len()); }
            if j == 7 { assert("Control+Alt+Backspace"@.len() != "Control+Shift+F4"@.len()); }
            if j == 8 { assert("Control+Alt+Backspace"@.len() != "Control+Shift+F5"@.len()); }
            if j == 9 { assert("Control+Alt+Backspace"@.len() != "Control+Shift+F6"@.len()); }
            if j == 10 { assert("Control+Alt+Backspace"@.len() != "Control+Shift+F7"@.len()); }
            if j == 11 { assert("Control+Alt+Backspace"@.len() != "Control+Shift+F8"@.len()); }
            if j == 12 { assert("Control+Alt+Backspace"@.len() != "Control+Shift+F9"@.len()); }
            if j == 13 { assert("Control+Alt+Backspace"@.len() != "Control+Shift+F10"@.len()); }
            if j == 14 { assert("Control+Alt+Backspace"@.len() != "Control+Alt+Enter"@.len()); }
            if j == 15 { assert("Control+Alt+Backspace"@.len() != "Control+Shift+F11"@.len()); }
            if j == 16 { assert("Control+Alt+Backspace"@.len() != "Control+Alt+Shift+F1"@.len()); }
            if j == 17 { assert("Control+Alt+Backspace"@.len() != "Control+Alt+Shift+F2"@.len()); }
            if j == 19 { assert("Control+Alt+Backspace"@.len() != "Control+Alt+Shift+ArrowLeft"@.len()); }
            if j == 20 { assert("Control+Alt+Backspace"@.len() != "Control+Alt+Shift+ArrowRight"@.len()); }
            if j == 21 { assert("Control+Alt+Backspace"@.len() != "Control+Alt+Shift+ArrowUp"@.len()); }
            if j == 22 { assert("Control+Alt+Backspace"@.len() != "Control+Alt+Shift+ArrowDown"@.len()); }
            if j == 23 { assert("Control+Alt+Backspace"@.len() != "Control+Alt+Shift+F3"@.len()); }
            if j == 24 { assert("Control+Alt+Backspace"@.len() != "Control+Alt+Shift+F4"@.len()); }
        }
        if i == 19 {
            if j == 0 { assert("Control+Alt+Shift+ArrowLeft"@.len() != "Control+Alt+ArrowLeft"@.len()); }
            if j == 1 { assert("Control+Alt+Shift+ArrowLeft"@.len() != "Control+Alt+ArrowRight"@.len()); }
            if j == 2 { assert("Control+Alt+Shift+ArrowLeft"@.len() != "Control+Alt+ArrowUp"@.len()); }
            if j == 3 { assert("Control+Alt+Shift+ArrowLeft"@.len() != "Control+Alt+ArrowDown"@.len()); }
            if j == 4 { assert("Control+Alt+Shift+ArrowLeft"@.len() != "Control+Shift+F1"@.len()); }
            if j == 5 { assert("Control+Alt+Shift+ArrowLeft"@.len() != "Control+Shift+F2"@.len()); }
            if j == 6 { assert("Control+Alt+Shift+ArrowLeft"@.len() != "Control+Shift+F3"@.len()); }
            if j == 7 { assert("Control+Alt+Shift+ArrowLeft"@.len() != "Control+Shift+F4"@.len()); }
            if j == 8 { assert("Control+Alt+Shift+ArrowLeft"@.len() != "Control+Shift+F5"@.len()); }
            if j == 9 { assert("Control+Alt+Shift+ArrowLeft"@.len() != "Control+Shift+F6"@.len()); }
            if j == 10 { assert("Control+Alt+Shift+ArrowLeft"@.len() != "Control+Shift+F7"@.len()); }
            if j == 11 { assert("Control+Alt+Shift+ArrowLeft"@.len() != "Control+Shift+F8"@.len()); }
            if j == 12 { assert("Control+Alt+Shift+ArrowLeft"@.len() != "Control+Shift+F9"@.len()); }
            if j == 13 { assert("Control+Alt+Shift+ArrowLeft"@.len() != "Control+Shift+F10"@.len()); }
            if j == 14 { assert("Control+Alt+Shift+ArrowLeft"@.len() != "Control+Alt+Enter"@.len()); }
            if j == 15 { assert("Control+Alt+Shift+ArrowLeft"@.len() != "Control+Shift+F11"@.len()); }
            if j == 16 { assert("Control+Alt+Shift+ArrowLeft"@.len() != "Control+Alt+Shift+F1"@.len()); }
            if j == 17 { assert("Control+Alt+Shift+ArrowLeft"@.len() != "Control+Alt+Shift+F2"@.len()); }
            if j == 18 { assert("Control+Alt+Shift+ArrowLeft"@.len() != "Control+Alt+Backspace"@.len()); }
            if j == 20 { assert("Control+Alt+Shift+ArrowLeft"@.len() != "Control+Alt+Shift+ArrowRight"@.len()); }
            if j == 21 { assert("Control+Alt+Shift+ArrowLeft"@.len() != "Control+Alt+Shift+ArrowUp"@.len()); }
            if j == 22 { assert("Control+Alt+Shift+ArrowLeft"@[23] != "Control+Alt+Shift+ArrowDown"@[23]); }
            if j == 23 { assert("Control+Alt+Shift+ArrowLeft"@.len() != "Control+Alt+Shift+F3"@.len()); }
            if j == 24 { assert("Control+Alt+Shift+ArrowLeft"@.len() != "Control+Alt+Shift+F4"@.len()); }
        }
        if i == 20 {
            if j == 0 { assert("Control+Alt+Shift+ArrowRight"@.len() != "Control+Alt+ArrowLeft"@.len()); }
            if j == 1 { assert("Control+Alt+Shift+ArrowRight"@.len() != "Control+Alt+ArrowRight"@.len()); }
            if j == 2 { assert("Control+Alt+Shift+ArrowRight"@.len() != "Control+Alt+ArrowUp"@.len()); }
            if j == 3 { assert("Control+Alt+Shift+ArrowRight"@.len() != "Control+Alt+ArrowDown"@.len()); }
            if j == 4 { assert("Control+Alt+Shift+ArrowRight"@.len() != "Control+Shift+F1"@.len()); }
            if j == 5 { assert("Control+Alt+Shift+ArrowRight"@.len() != "Control+Shift+F2"@.len()); }
            if j == 6 { assert("Control+Alt+Shift+ArrowRight"@.len() != "Control+Shift+F3"@.len()); }
            if j == 7 { assert("Control+Alt+Shift+ArrowRight"@.len() != "Control+Shift+F4"@.len()); }
            if j == 8 { assert("Control+Alt+Shift+ArrowRight"@.len() != "Control+Shift+F5"@.len()); }
            if j == 9 { assert("Control+Alt+Shift+ArrowRight"@.len() != "Control+Shift+F6"@.len()); }
            if j == 10 { assert("Control+Alt+Shift+ArrowRight"@.len() != "Control+Shift+F7"@.len()); }
            if j == 11 { assert("Control+Alt+Shift+ArrowRight"@.len() != "Control+Shift+F8"@.len()); }
            if j == 12 { assert("Control+Alt+Shift+ArrowRight"@.len() != "Control+Shift+F9"@.len()); }
            if j == 13 { assert("Control+Alt+Shift+ArrowRight"@.len() != "Control+Shift+F10"@.len()); }
            if j == 14 { assert("Control+Alt+Shift+ArrowRight"@.len() != "Control+Alt+Enter"@.len()); }
            if j == 15 { assert("Control+Alt+Shift+ArrowRight"@.len() != "Control+Shift+F11"@.len()); }
            if j == 16 { assert("Control+Alt+Shift+ArrowRight"@.len() != "Control+Alt+Shift+F1"@.len()); }
            if j == 17 { assert("Control+Alt+Shift+ArrowRight"@.len() != "Control+Alt+Shift+F2"@.len()); }
            if j == 18 { assert("Control+Alt+Shift+ArrowRight"@.len() != "Control+Alt+Backspace"@.len()); }
            if j == 19 { assert("Control+Alt+Shift+ArrowRight"@.len() != "Control+Alt+Shift+ArrowLeft"@.len()); }
            if j == 21 { assert("Control+Alt+Shift+ArrowRight"@.len() != "Control+Alt+Shift+ArrowUp"@.len()); }
            if j == 22 { assert("Control+Alt+Shift+ArrowRight"@.len() != "Control+Alt+Shift+ArrowDown"@.len()); }
            if j == 23 { assert("Control+Alt+Shift+ArrowRight"@.len() != "Control+Alt+Shift+F3"@.len()); }
            if j == 24 { assert("Control+Alt+Shift+ArrowRight"@.len() != "Control+Alt+Shift+F4"@.len()); }
        }
        if i == 21 {
            if j == 0 { assert("Control+Alt+Shift+ArrowUp"@.len() != "Control+Alt+ArrowLeft"@.len()); }
            if j == 1 { assert("Control+Alt+Shift+ArrowUp"@.len() != "Control+Alt+ArrowRight"@.len()); }
            if j == 2 { assert("Control+Alt+Shift+ArrowUp"@.len() != "Control+Alt+ArrowUp"@.len()); }
            if j == 3 { assert("Control+Alt+Shift+ArrowUp"@.len() != "Control+Alt+ArrowDown"@.len()); }
            if j == 4 { assert("Control+Alt+Shift+ArrowUp"@.len() != "Control+Shift+F1"@.len()); }
            if j == 5 { assert("Control+Alt+Shift+ArrowUp"@.len() != "Control+Shift+F2"@.len()); }
            if j == 6 { assert("Control+Alt+Shift+ArrowUp"@.len() != "Control+Shift+F3"@.len()); }
            if j == 7 { assert("Control+Alt+Shift+ArrowUp"@.len() != "Control+Shift+F4"@.len()); }
            if j == 8 { assert("Control+Alt+Shift+ArrowUp"@.len() != "Control+Shift+F5"@.len()); }
            if j == 9 { assert("Control+Alt+Shift+ArrowUp"@.len() != "Control+Shift+F6"@.len()); }
            if j == 10 { assert("Control+Alt+Shift+ArrowUp"@.len() != "Control+Shift+F7"@.len()); }
            if j == 11 { assert("Control+Alt+Shift+ArrowUp"@.len() != "Control+Shift+F8"@.len()); }
            if j == 12 { assert("Control+Alt+Shift+ArrowUp"@.len() != "Control+Shift+F9"@.len()); }
            if j == 13 { assert("Control+Alt+Shift+ArrowUp"@.len() != "Control+Shift+F10"@.len()); }
            if j == 14 { assert("Control+Alt+Shift+ArrowUp"@.len() != "Control+Alt+Enter"@.len()); }
            if j == 15 { assert("Control+Alt+Shift+ArrowUp"@.len() != "Control+Shift+F11"@.len()); }
            if j == 16 { assert("Control+Alt+Shift+ArrowUp"@.len() != "Control+Alt+Shift+F1"@.len()); }
            if j == 17 { assert("Control+Alt+Shift+ArrowUp"@.len() != "Control+Alt+Shift+F2"@.len()); }
            if j == 18 { assert("Control+Alt+Shift+ArrowUp"@.len() != "Control+Alt+Backspace"@.len()); }
            if j == 19 { assert("Control+Alt+Shift+ArrowUp"@.len() != "Control+Alt+Shift+ArrowLeft"@.len()); }
            if j == 20 { assert("Control+Alt+Shift+ArrowUp"@.len() != "Control+Alt+Shift+ArrowRight"@.len()); }
            if j == 22 { assert("Control+Alt+Shift+ArrowUp"@.len() != "Control+Alt+Shift+ArrowDown"@.len()); }
            if j == 23 { assert("Control+Alt+Shift+ArrowUp"@.len() != "Control+Alt+Shift+F3"@.len()); }
            if j == 24 { assert("Control+Alt+Shift+ArrowUp"@.len() != "Control+Alt+Shift+F4"@.len()); }
        }
        if i == 22 {
            if j == 0 { assert("Control+Alt+Shift+ArrowDown"@.len() != "Control+Alt+ArrowLeft"@.len()); }
            if j == 1 { assert("Control+Alt+Shift+ArrowDown"@.len() != "Control+Alt+ArrowRight"@.len()); }
            if j == 2 { assert("Control+Alt+Shift+ArrowDown"@.len() != "Control+Alt+ArrowUp"@.len()); }
            if j == 3 { assert("Control+Alt+Shift+ArrowDown"@.len() != "Control+Alt+ArrowDown"@.len()); }
            if j == 4 { assert("Control+Alt+Shift+ArrowDown"@.len() != "Control+Shift+F1"@.len()); }
            if j == 5 { assert("Control+Alt+Shift+ArrowDown"@.len() != "Control+Shift+F2"@.len()); }
            if j == 6 { assert("Control+Alt+Shift+ArrowDown"@.len() != "Control+Shift+F3"@.len()); }
            if j == 7 { assert("Control+Alt+Shift+ArrowDown"@.len() != "Control+Shift+F4"@.len()); }
            if j == 8 { assert("Control+Alt+Shift+ArrowDown"@.len() != "Control+Shift+F5"@.len()); }
            if j == 9 { assert("Control+Alt+Shift+ArrowDown"@.len() != "Control+Shift+F6"@.len()); }
            if j == 10 { assert("Control+Alt+Shift+ArrowDown"@.len() != "Control+Shift+F7"@.len()); }
            if j == 11 { assert("Control+Alt+Shift+ArrowDown"@.len() != "Control+Shift+F8"@.len()); }
            if j == 12 { assert("Control+Alt+Shift+ArrowDown"@.len() != "Control+Shift+F9"@.len()); }
            if j == 13 { assert("Control+Alt+Shift+ArrowDown"@.len() != "Control+Shift+F10"@.len()); }
            if j == 14 { assert("Control+Alt+Shift+ArrowDown"@.len() != "Control+Alt+Enter"@.len()); }
            if j == 15 { assert("Control+Alt+Shift+ArrowDown"@.len() != "Control+Shift+F11"@.len()); }
            if j == 16 { assert("Control+Alt+Shift+ArrowDown"@.len() != "Control+Alt+Shift+F1"@.len()); }
            if j == 17 { assert("Control+Alt+Shift+ArrowDown"@.len() != "Control+Alt+Shift+F2"@.len()); }
            if j == 18 { assert("Control+Alt+Shift+ArrowDown"@.len() != "Control+Alt+Backspace"@.len()); }
            if j == 19 { assert("Control+Alt+Shift+ArrowDown"@[23] != "Control+Alt+Shift+ArrowLeft"@[23]); }
            if j == 20 { assert("Control+Alt+Shift+ArrowDown"@.len() != "Control+Alt+Shift+ArrowRight"@.len()); }
            if j == 21 { assert("Control+Alt+Shift+ArrowDown"@.len() != "Control+Alt+Shift+ArrowUp"@.len()); }
            if j == 23 { assert("Control+Alt+Shift+ArrowDown"@.len() != "Control+Alt+Shift+F3"@.len()); }
            if j == 24 { assert("Control+Alt+Shift+ArrowDown"@.len() != "Control+Alt+Shift+F4"@.len()); }
        }
        if i == 23 {
            if j == 0 { assert("Control+Alt+Shift+F3"@.len() != "Control+Alt+ArrowLeft"@.len()); }
            if j == 1 { assert("Control+Alt+Shift+F3"@.len() != "Control+Alt+ArrowRight"@.len()); }
            if j == 2 { assert("Control+Alt+Shift+F3"@.len() != "Control+Alt+ArrowUp"@.len()); }
            if j == 3 { assert("Control+Alt+Shift+F3"@.len() != "Control+Alt+ArrowDown"@.len()); }
            if j == 4 { assert("Control+Alt+Shift+F3"@.len() != "Control+Shift+F1"@.len()); }
            if j == 5 { assert("Control+Alt+Shift+F3"@.len() != "Control+Shift+F2"@.len()); }
            if j == 6 { assert("Control+Alt+Shift+F3"@.len() != "Control+Shift+F3"@.len()); }
            if j == 7 { assert("Control+Alt+Shift+F3"@.len() != "Control+Shift+F4"@.len()); }
            if j == 8 { assert("Control+Alt+Shift+F3"@.len() != "Control+Shift+F5"@.len()); }
            if j == 9 { assert("Control+Alt+Shift+F3"@.len() != "Control+Shift+F6"@.len()); }
            if j == 10 { assert("Control+Alt+Shift+F3"@.len() != "Control+Shift+F7"@.len()); }
            if j == 11 { assert("Control+Alt+Shift+F3"@.len() != "Control+Shift+F8"@.len()); }
            if j == 12 { assert("Control+Alt+Shift+F3"@.len() != "Control+Shift+F9"@.len()); }
            if j == 13 { assert("Control+Alt+Shift+F3"@.len() != "Control+Shift+F10"@.len()); }
            if j == 14 { assert("Control+Alt+Shift+F3"@.len() != "Control+Alt+Enter"@.len()); }
            if j == 15 { assert("Control+Alt+Shift+F3"@.len() != "Control+Shift+F11"@.len()); }
            if j == 16 { assert("Control+Alt+Shift+F3"@[19] != "Control+Alt+Shift+F1"@[19]); }
            if j == 17 { assert("Control+Alt+Shift+F3"@[19] != "Control+Alt+Shift+F2"@[19]); }
            if j == 18 { assert("Control+Alt+Shift+F3"@.len() != "Control+Alt+Backspace"@.len()); }
            if j == 19 { assert("Control+Alt+Shift+F3"@.len() != "Control+Alt+Shift+ArrowLeft"@.len()); }
            if j == 20 { assert("Control+Alt+Shift+F3"@.len() != "Control+Alt+Shift+ArrowRight"@.len()); }
            if j == 21 { assert("Control+Alt+Shift+F3"@.len() != "Control+Alt+Shift+ArrowUp"@.len()); }
            if j == 22 { assert("Control+Alt+Shift+F3"@.len() != "Control+Alt+Shift+ArrowDown"@.len()); }
            if j == 24 { assert("Control+Alt+Shift+F3"@[19] != "Control+Alt+Shift+F4"@[19]); }
        }
        if i == 24 {
            if j == 0 { assert("Control+Alt+Shift+F4"@.len() != "Control+Alt+ArrowLeft"@.len()); }
            if j == 1 { assert("Control+Alt+Shift+F4"@.len() != "Control+Alt+ArrowRight"@.len()); }
            if j == 2 { assert("Control+Alt+Shift+F4"@.len() != "Control+Alt+ArrowUp"@.len()); }
            if j == 3 { assert("Control+Alt+Shift+F4"@.len() != "Control+Alt+ArrowDown"@.len()); }
            if j == 4 { assert("Control+Alt+Shift+F4"@.len() != "Control+Shift+F1"@.len()); }
            if j == 5 { assert("Control+Alt+Shift+F4"@.len() != "Control+Shift+F2"@.len()); }
            if j == 6 { assert("Control+Alt+Shift+F4"@.len() != "Control+Shift+F3"@.len()); }
            if j == 7 { assert("Control+Alt+Shift+F4"@.len() != "Control+Shift+F4"@.len()); }
            if j == 8 { assert("Control+Alt+Shift+F4"@.len() != "Control+Shift+F5"@.len()); }
            if j == 9 { assert("Control+Alt+Shift+F4"@.len() != "Control+Shift+F6"@.len()); }
            if j == 10 { assert("Control+Alt+Shift+F4"@.len() != "Control+Shift+F7"@.len()); }
            if j == 11 { assert("Control+Alt+Shift+F4"@.len() != "Control+Shift+F8"@.len()); }
            if j == 12 { assert("Control+Alt+Shift+F4"@.len() != "Control+Shift+F9"@.len()); }
            if j == 13 { assert("Control+Alt+Shift+F4"@.len() != "Control+Shift+F10"@.len()); }
            if j == 14 { assert("Control+Alt+Shift+F4"@.len() != "Control+Alt+Enter"@.len()); }
            if j == 15 { assert("Control+Alt+Shift+F4"@.len() != "Control+Shift+F11"@.len()); }
            if j == 16 { assert("Control+Alt+Shift+F4"@[19] != "Control+Alt+Shift+F1"@[19]); }
            if j == 17 { assert("Control+Alt+Shift+F4"@[19] != "Control+Alt+Shift+F2"@[19]); }
            if j == 18 { assert("Control+Alt+Shift+F4"@.len() != "Control+Alt+Backspace"@.len()); }
            if j == 19 { assert("Control+Alt+Shift+F4"@.len() != "Control+Alt+Shift+ArrowLeft"@.len()); }
            if j == 20 { assert("Control+Alt+Shift+F4"@.len() != "Control+Alt+Shift+ArrowRight"@.len()); }
            if j == 21 { assert("Control+Alt+Shift+F4"@.len() != "Control+Alt+Shift+ArrowUp"@.len()); }
            if j == 22 { assert("Control+Alt+Shift+F4"@.len() != "Control+Alt+Shift+ArrowDown"@.len()); }
            if j == 23 { assert("Control+Alt+Shift+F4"@[19] != "Control+Alt+Shift+F3"@[19]); }
        }
    }
}

} // verus!
