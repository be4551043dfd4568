//! What the tray shows: its submenus, menu item ids, the Accessibility item,
//! the guide text with keyboard symbols, and the tray icon's shape.

use vstd::prelude::*;

use crate::command::{CATEGORY_COUNT, Command, CommandCategory, lemma_category_all_index};
use crate::platform::{MenuEntry, menu_entry_view};
use crate::text::{push_text, str_equal};

verus! {

/// The menu item id of a command, such as `panes.command.left-half`.
pub open spec fn spec_command_menu_id(command: Command) -> Seq<char> {
    "panes.command."@ + command.spec_id()
}

/// Returns the tray menu item id of `command`.
pub fn command_menu_id(command: Command) -> (id: String)
    ensures
        id@ == spec_command_menu_id(command),
{
    let mut id = String::new();
    push_text(&mut id, "panes.command.");
    push_text(&mut id, command.id());
    id
}

/// The text of the Accessibility menu item and whether it can be chosen:
/// once the process is trusted there is nothing left to grant.
pub fn accessibility_menu_item_state(trusted: bool) -> (state: (&'static str, bool))
    ensures
        trusted ==> state.0@ == "Accessibility Permission Granted"@ && !state.1,
        !trusted ==> state.0@ == "Grant Accessibility Permission\u{2026}"@ && state.1,
{
    if trusted {
        ("Accessibility Permission Granted", false)
    } else {
        ("Grant Accessibility Permission\u{2026}", true)
    }
}

/// The position of the first `c` in `text`.
pub open spec fn first_index_of(text: Seq<char>, c: char) -> Option<int>
    decreases text.len(),
{
    if text.len() == 0 {
        None
    } else if text[0] == c {
        Some(0)
    } else {
        match first_index_of(text.drop_first(), c) {
            Some(k) => Some(k + 1),
            None => None,
        }
    }
}

/// `text` without `prefix` if it starts with it.
pub open spec fn strip_prefix(text: Seq<char>, prefix: Seq<char>) -> Option<Seq<char>> {
    if prefix.is_prefix_of(text) {
        Some(text.subrange(prefix.len() as int, text.len() as int))
    } else {
        None
    }
}

/// The macOS keyboard symbol for one `+`-separated part of an accelerator.
pub open spec fn key_symbol(part: Seq<char>) -> Seq<char> {
    if part == "Control"@ || part == "Ctrl"@ {
        "\u{2303}"@
    } else if part == "Alt"@ || part == "Option"@ {
        "\u{2325}"@
    } else if part == "Shift"@ {
        "\u{21e7}"@
    } else if part == "Super"@ || part == "Meta"@ || part == "Command"@ || part == "Cmd"@ {
        "\u{2318}"@
    } else if part == "ArrowLeft"@ {
        "\u{2190}"@
    } else if part == "ArrowRight"@ {
        "\u{2192}"@
    } else if part == "ArrowUp"@ {
        "\u{2191}"@
    } else if part == "ArrowDown"@ {
        "\u{2193}"@
    } else if part == "Enter"@ || part == "Return"@ {
        "\u{23ce}"@
    } else if part == "Backspace"@ {
        "\u{232b}"@
    } else if part == "Escape"@ {
        "\u{238b}"@
    } else if part == "Space"@ {
        "Space"@
    } else if part == "Equal"@ {
        "="@
    } else if part == "Minus"@ {
        "-"@
    } else {
        match strip_prefix(part, "Digit"@) {
            Some(rest) => rest,
            None => match strip_prefix(part, "Key"@) {
                Some(rest) => rest,
                None => part,
            },
        }
    }
}

/// Which key a named key part stands for, with the spellings of one key in
/// one group; -1 for a part that names no key of its own.
pub open spec fn key_group(part: Seq<char>) -> int {
    if part == "Control"@ || part == "Ctrl"@ {
        0
    } else if part == "Alt"@ || part == "Option"@ {
        1
    } else if part == "Shift"@ {
        2
    } else if part == "Super"@ || part == "Meta"@ || part == "Command"@ || part == "Cmd"@ {
        3
    } else if part == "ArrowLeft"@ {
        4
    } else if part == "ArrowRight"@ {
        5
    } else if part == "ArrowUp"@ {
        6
    } else if part == "ArrowDown"@ {
        7
    } else if part == "Enter"@ || part == "Return"@ {
        8
    } else if part == "Backspace"@ {
        9
    } else if part == "Escape"@ {
        10
    } else if part == "Space"@ {
        11
    } else if part == "Equal"@ {
        12
    } else if part == "Minus"@ {
        13
    } else {
        -1
    }
}

/// The macOS symbol of the key in group `g`: ⌃ for Control, ⌥ for Alt, ⇧
/// for Shift, ⌘ for the command key, ← → ↑ ↓ for the arrows, ⏎ for Enter,
/// ⌫ for Backspace, ⎋ for Escape, the word Space, and = and - for Equal and
/// Minus.
pub open spec fn group_symbol(g: int) -> Seq<char> {
    if g == 0 {
        seq!['\u{2303}']
    } else if g == 1 {
        seq!['\u{2325}']
    } else if g == 2 {
        seq!['\u{21e7}']
    } else if g == 3 {
        seq!['\u{2318}']
    } else if g == 4 {
        seq!['\u{2190}']
    } else if g == 5 {
        seq!['\u{2192}']
    } else if g == 6 {
        seq!['\u{2191}']
    } else if g == 7 {
        seq!['\u{2193}']
    } else if g == 8 {
        seq!['\u{23ce}']
    } else if g == 9 {
        seq!['\u{232b}']
    } else if g == 10 {
        seq!['\u{238b}']
    } else if g == 11 {
        "Space"@
    } else if g == 12 {
        seq!['=']
    } else {
        seq!['-']
    }
}

/// Every spelling of every named key.
pub proof fn lemma_key_groups()
    ensures
        key_group("Control"@) == 0,
        key_group("Ctrl"@) == 0,
        key_group("Alt"@) == 1,
        key_group("Option"@) == 1,
        key_group("Shift"@) == 2,
        key_group("Super"@) == 3,
        key_group("Meta"@) == 3,
        key_group("Command"@) == 3,
        key_group("Cmd"@) == 3,
        key_group("ArrowLeft"@) == 4,
        key_group("ArrowRight"@) == 5,
        key_group("ArrowUp"@) == 6,
        key_group("ArrowDown"@) == 7,
        key_group("Enter"@) == 8,
        key_group("Return"@) == 8,
        key_group("Backspace"@) == 9,
        key_group("Escape"@) == 10,
        key_group("Space"@) == 11,
        key_group("Equal"@) == 12,
        key_group("Minus"@) == 13,
{
    reveal_strlit("Control");
    reveal_strlit("Ctrl");
    reveal_strlit("Alt");
    reveal_strlit("Option");
    reveal_strlit("Shift");
    reveal_strlit("Super");
    reveal_strlit("Meta");
    reveal_strlit("Command");
    reveal_strlit("Cmd");
    reveal_strlit("ArrowLeft");
    reveal_strlit("ArrowRight");
    reveal_strlit("ArrowUp");
    reveal_strlit("ArrowDown");
    reveal_strlit("Enter");
    reveal_strlit("Return");
    reveal_strlit("Backspace");
    reveal_strlit("Escape");
    reveal_strlit("Space");
    reveal_strlit("Equal");
    reveal_strlit("Minus");
    assert("Ctrl"@.len() != "Control"@.len());
    assert("Alt"@.len() != "Control"@.len());
    assert("Alt"@.len() != "Ctrl"@.len());
    assert("Option"@.len() != "Control"@.len());
    assert("Option"@.len() != "Ctrl"@.len());
    assert("Option"@.len() != "Alt"@.len());
    assert("Shift"@.len() != "Control"@.len());
    assert("Shift"@.len() != "Ctrl"@.len());
    assert("Shift"@.len() != "Alt"@.len());
    assert("Shift"@.len() != "Option"@.len());
    assert("Super"@.len() != "Control"@.len());
    assert("Super"@.len() != "Ctrl"@.len());
    assert("Super"@.len() != "Alt"@.len());
    assert("Super"@.len() != "Option"@.len());
    assert("Super"@[1] != "Shift"@[1]);
    assert("Meta"@.len() != "Control"@.len());
    assert("Meta"@[0] != "Ctrl"@[0]);
    assert("Meta"@.len() != "Alt"@.len());
    assert("Meta"@.len() != "Option"@.len());
    assert("Meta"@.len() != "Shift"@.len());
    assert("Meta"@.len() != "Super"@.len());
    assert("Command"@[2] != "Control"@[2]);
    assert("Command"@.len() != "Ctrl"@.len());
    assert("Command"@.len() != "Alt"@.len());
    assert("Command"@.len() != "Option"@.len());
    assert("Command"@.len() != "Shift"@.len());
    assert("Command"@.len() != "Super"@.len());
    assert("Command"@.len() != "Meta"@.len());
    assert("Cmd"@.len() != "Control"@.len());
    assert("Cmd"@.len() != "Ctrl"@.len());
    assert("Cmd"@[0] != "Alt"@[0]);
    assert("Cmd"@.len() != "Option"@.len());
    assert("Cmd"@.len() != "Shift"@.len());
    assert("Cmd"@.len() != "Super"@.len());
    assert("Cmd"@.len() != "Meta"@.len());
    assert("Cmd"@.len() != "Command"@.len());
    assert("ArrowLeft"@.len() != "Control"@.len());
    assert("ArrowLeft"@.len() != "Ctrl"@.len());
    assert("ArrowLeft"@.len() != "Alt"@.len());
    assert("ArrowLeft"@.len() != "Option"@.len());
    assert("ArrowLeft"@.len() != "Shift"@.len());
    assert("ArrowLeft"@.len() != "Super"@.len());
    assert("ArrowLeft"@.len() != "Meta"@.len());
    assert("ArrowLeft"@.len() != "Command"@.len());
    assert("ArrowLeft"@.len() != "Cmd"@.len());
    assert("ArrowRight"@.len() != "Control"@.len());
    assert("ArrowRight"@.len() != "Ctrl"@.len());
    assert("ArrowRight"@.len() != "Alt"@.len());
    assert("ArrowRight"@.len() != "Option"@.len());
    assert("ArrowRight"@.len() != "Shift"@.len());
    assert("ArrowRight"@.len() != "Super"@.len());
    assert("ArrowRight"@.len() != "Meta"@.len());
    assert("ArrowRight"@.len() != "Command"@.len());
    assert("ArrowRight"@.len() != "Cmd"@.len());
    assert("ArrowRight"@.len() != "ArrowLeft"@.len());
    assert("ArrowUp"@[0] != "Control"@[0]);
    assert("ArrowUp"@.len() != "Ctrl"@.len());
    assert("ArrowUp"@.len() != "Alt"@.len());
    assert("ArrowUp"@.len() != "Option"@.len());
    assert("ArrowUp"@.len() != "Shift"@.len());
    assert("ArrowUp"@.len() != "Super"@.len());
    assert("ArrowUp"@.len() != "Meta"@.len());
    assert("ArrowUp"@[0] != "Command"@[0]);
    assert("ArrowUp"@.len() != "Cmd"@.len());
    assert("ArrowUp"@.len() != "ArrowLeft"@.len());
    assert("ArrowUp"@.len() != "ArrowRight"@.len());
    assert("ArrowDown"@.len() != "Control"@.len());
    assert("ArrowDown"@.len() != "Ctrl"@.len());
    assert("ArrowDown"@.len() != "Alt"@.len());
    assert("ArrowDown"@.len() != "Option"@.len());
    assert("ArrowDown"@.len() != "Shift"@.len());
    assert("ArrowDown"@.len() != "Super"@.len());
    assert("ArrowDown"@.len() != "Meta"@.len());
    assert("ArrowDown"@.len() != "Command"@.len());
    assert("ArrowDown"@.len() != "Cmd"@.len());
    assert("ArrowDown"@[5] != "ArrowLeft"@[5]);
    assert("ArrowDown"@.len() != "ArrowRight"@.len());
    assert("ArrowDown"@.len() != "ArrowUp"@.len());
    assert("Enter"@.len() != "Control"@.len());
    assert("Enter"@.len() != "Ctrl"@.len());
    assert("Enter"@.len() != "Alt"@.len());
    assert("Enter"@.len() != "Option"@.len());
    assert("Enter"@[0] != "Shift"@[0]);
    assert("Enter"@[0] != "Super"@[0]);
    assert("Enter"@.len() != "Meta"@.len());
    assert("Enter"@.len() != "Command"@.len());
    assert("Enter"@.len() != "Cmd"@.len());
    assert("Enter"@.len() != "ArrowLeft"@.len());
    assert("Enter"@.len() != "ArrowRight"@.len());
    assert("Enter"@.len() != "ArrowUp"@.len());
    assert("Enter"@.len() != "ArrowDown"@.len());
    assert("Return"@.len() != "Control"@.len());
    assert("Return"@.len() != "Ctrl"@.len());
    assert("Return"@.len() != "Alt"@.len());
    assert("Return"@[0] != "Option"@[0]);
    assert("Return"@.len() != "Shift"@.len());
    assert("Return"@.len() != "Super"@.len());
    assert("Return"@.len() != "Meta"@.len());
    assert("Return"@.len() != "Command"@.len());
    assert("Return"@.len() != "Cmd"@.len());
    assert("Return"@.len() != "ArrowLeft"@.len());
    assert("Return"@.len() != "ArrowRight"@.len());
    assert("Return"@.len() != "ArrowUp"@.len());
    assert("Return"@.len() != "ArrowDown"@.len());
    assert("Return"@.len() != "Enter"@.len());
    assert("Backspace"@.len() != "Control"@.len());
    assert("Backspace"@.len() != "Ctrl"@.len());
    assert("Backspace"@.len() != "Alt"@.len());
    assert("Backspace"@.len() != "Option"@.len());
    assert("Backspace"@.len() != "Shift"@.len());
    assert("Backspace"@.len() != "Super"@.len());
    assert("Backspace"@.len() != "Meta"@.len());
    assert("Backspace"@.len() != "Command"@.len());
    assert("Backspace"@.len() != "Cmd"@.len());
    assert("Backspace"@[0] != "ArrowLeft"@[0]);
    assert("Backspace"@.len() != "ArrowRight"@.len());
    assert("Backspace"@.len() != "ArrowUp"@.len());
    assert("Backspace"@[0] != "ArrowDown"@[0]);
    assert("Backspace"@.len() != "Enter"@.len());
    assert("Backspace"@.len() != "Return"@.len());
    assert("Escape"@.len() != "Control"@.len());
    assert("Escape"@.len() != "Ctrl"@.len());
    assert("Escape"@.len() != "Alt"@.len());
    assert("Escape"@[0] != "Option"@[0]);
    assert("Escape"@.len() != "Shift"@.len());
    assert("Escape"@.len() != "Super"@.len());
    assert("Escape"@.len() != "Meta"@.len());
    assert("Escape"@.len() != "Command"@.len());
    assert("Escape"@.len() != "Cmd"@.len());
    assert("Escape"@.len() != "ArrowLeft"@.len());
    assert("Escape"@.len() != "ArrowRight"@.len());
    assert("Escape"@.len() != "ArrowUp"@.len());
    assert("Escape"@.len() != "ArrowDown"@.len());
    assert("Escape"@.len() != "Enter"@.len());
    assert("Escape"@[0] != "Return"@[0]);
    assert("Escape"@.len() != "Backspace"@.len());
    assert("Space"@.len() != "Control"@.len());
    assert("Space"@.len() != "Ctrl"@.len());
    assert("Space"@.len() != "Alt"@.len());
    assert("Space"@.len() != "Option"@.len());
    assert("Space"@[1] != "Shift"@[1]);
    assert("Space"@[1] != "Super"@[1]);
    assert("Space"@.len() != "Meta"@.len());
    assert("Space"@.len() != "Command"@.len());
    assert("Space"@.len() != "Cmd"@.len());
    assert("Space"@.len() != "ArrowLeft"@.len());
    assert("Space"@.len() != "ArrowRight"@.len());
    assert("Space"@.len() != "ArrowUp"@.len());
    assert("Space"@.len() != "ArrowDown"@.len());
    assert("Space"@[0] != "Enter"@[0]);
    assert("Space"@.len() != "Return"@.len());
    assert("Space"@.len() != "Backspace"@.len());
    assert("Space"@.len() != "Escape"@.len());
    assert("Equal"@.len() != "Control"@.len());
    assert("Equal"@.len() != "Ctrl"@.len());
    assert("Equal"@.len() != "Alt"@.len());
    assert("Equal"@.len() != "Option"@.len());
    assert("Equal"@[0] != "Shift"@[0]);
    assert("Equal"@[0] != "Super"@[0]);
    assert("Equal"@.len() != "Meta"@.len());
    assert("Equal"@.len() != "Command"@.len());
    assert("Equal"@.len() != "Cmd"@.len());
    assert("Equal"@.len() != "ArrowLeft"@.len());
    assert("Equal"@.len() != "ArrowRight"@.len());
    assert("Equal"@.len() != "ArrowUp"@.len());
    assert("Equal"@.len() != "ArrowDown"@.len());
    assert("Equal"@[1] != "Enter"@[1]);
    assert("Equal"@.len() != "Return"@.len());
    assert("Equal"@.len() != "Backspace"@.len());
    assert("Equal"@.len() != "Escape"@.len());
    assert("Equal"@[0] != "Space"@[0]);
    assert("Minus"@.len() != "Control"@.len());
    assert("Minus"@.len() != "Ctrl"@.len());
    assert("Minus"@.len() != "Alt"@.len());
    assert("Minus"@.len() != "Option"@.len());
    assert("Minus"@[0] != "Shift"@[0]);
    assert("Minus"@[0] != "Super"@[0]);
    assert("Minus"@.len() != "Meta"@.len());
    assert("Minus"@.len() != "Command"@.len());
    assert("Minus"@.len() != "Cmd"@.len());
    assert("Minus"@.len() != "ArrowLeft"@.len());
    assert("Minus"@.len() != "ArrowRight"@.len());
    assert("Minus"@.len() != "ArrowUp"@.len());
    assert("Minus"@.len() != "ArrowDown"@.len());
    assert("Minus"@[0] != "Enter"@[0]);
    assert("Minus"@.len() != "Return"@.len());
    assert("Minus"@.len() != "Backspace"@.len());
    assert("Minus"@.len() != "Escape"@.len());
    assert("Minus"@[0] != "Space"@[0]);
    assert("Minus"@[0] != "Equal"@[0]);
}

/// Each named key shows the macOS symbol of its key.
pub proof fn lemma_key_symbols(part: Seq<char>)
    requires
        key_group(part) >= 0,
    ensures
        key_symbol(part) == group_symbol(key_group(part)),
{
    reveal_strlit("\u{2303}");
    reveal_strlit("\u{2325}");
    reveal_strlit("\u{21e7}");
    reveal_strlit("\u{2318}");
    reveal_strlit("\u{2190}");
    reveal_strlit("\u{2192}");
    reveal_strlit("\u{2191}");
    reveal_strlit("\u{2193}");
    reveal_strlit("\u{23ce}");
    reveal_strlit("\u{232b}");
    reveal_strlit("\u{238b}");
    reveal_strlit("Space");
    reveal_strlit("=");
    reveal_strlit("-");
}

/// Different keys show different symbols: only the spellings of one key
/// (Control and Ctrl, Alt and Option, the four names of the command key,
/// Enter and Return) share one.
pub proof fn lemma_key_symbols_are_distinct(a: Seq<char>, b: Seq<char>)
    requires
        key_group(a) >= 0,
        key_group(b) >= 0,
        key_group(a) != key_group(b),
    ensures
        key_symbol(a) != key_symbol(b),
{
    lemma_key_symbols(a);
    lemma_key_symbols(b);
    reveal_strlit("Space");
    let (g, h) = (key_group(a), key_group(b));
    assert(group_symbol(g)[0] != group_symbol(h)[0]);
}

/// An accelerator such as `Control+Alt+ArrowLeft` in macOS keyboard
/// symbols: each `+`-separated part becomes its symbol.
pub open spec fn pretty(accelerator: Seq<char>) -> Seq<char>
    decreases accelerator.len(),
{
    proof {
        lemma_first_index_of_bounds(accelerator, '+');
    }
    match first_index_of(accelerator, '+') {
        Some(k) => key_symbol(accelerator.subrange(0, k)) + pretty(
            accelerator.subrange(k + 1, accelerator.len() as int),
        ),
        None => key_symbol(accelerator),
    }
}

pub proof fn lemma_first_index_of_bounds(text: Seq<char>, c: char)
    ensures
        first_index_of(text, c) matches Some(k) ==> 0 <= k < text.len() && text[k] == c && forall|j: int|
            0 <= j < k ==> text[j] != c,
    decreases text.len(),
{
    if text.len() > 0 && text[0] != c {
        lemma_first_index_of_bounds(text.drop_first(), c);
        if let Some(k) = first_index_of(text.drop_first(), c) {
            assert forall|j: int| 0 <= j < k + 1 implies text[j] != c by {
                if j > 0 {
                    assert(text[j] == text.drop_first()[j - 1]);
                }
            }
        }
    }
}

proof fn lemma_first_index_of(text: Seq<char>, c: char, k: int)
    requires
        0 <= k < text.len(),
        text[k] == c,
        forall|j: int| 0 <= j < k ==> text[j] != c,
    ensures
        first_index_of(text, c) == Some(k),
    decreases k,
{
    if k > 0 {
        assert forall|j: int| 0 <= j < k - 1 implies text.drop_first()[j] != c by {
            assert(text.drop_first()[j] == text[j + 1]);
        }
        lemma_first_index_of(text.drop_first(), c, k - 1);
    }
}

proof fn lemma_no_index_of(text: Seq<char>, c: char)
    requires
        forall|j: int| 0 <= j < text.len() ==> text[j] != c,
    ensures
        first_index_of(text, c) is None,
    decreases text.len(),
{
    if text.len() > 0 {
        assert forall|j: int| 0 <= j < text.len() - 1 implies text.drop_first()[j] != c by {
            assert(text.drop_first()[j] == text[j + 1]);
        }
        lemma_no_index_of(text.drop_first(), c);
    }
}

/// Whether `text` starts with `prefix`.
fn starts_with(text: &str, prefix: &str) -> (starts: bool)
    ensures
        starts == prefix@.is_prefix_of(text@),
{
    let n = text.unicode_len();
    let m = prefix.unicode_len();
    if m > n {
        return false;
    }
    let head = text.substring_char(0, m);
    let equal = str_equal(head, prefix);
    proof {
        if equal {
            assert(prefix@ =~= text@.subrange(0, prefix@.len() as int));
        } else {
            assert(!(prefix@ =~= text@.subrange(0, prefix@.len() as int)));
        }
    }
    equal
}

fn push_key_symbol(out: &mut String, part: &str)
    ensures
        final(out)@ == old(out)@ + key_symbol(part@),
{
    let symbol: &str = if str_equal(part, "Control") || str_equal(part, "Ctrl") {
        "\u{2303}"
    } else if str_equal(part, "Alt") || str_equal(part, "Option") {
        "\u{2325}"
    } else if str_equal(part, "Shift") {
        "\u{21e7}"
    } else if str_equal(part, "Super") || str_equal(part, "Meta") || str_equal(part, "Command") || str_equal(
        part,
        "Cmd",
    ) {
        "\u{2318}"
    } else if str_equal(part, "ArrowLeft") {
        "\u{2190}"
    } else if str_equal(part, "ArrowRight") {
        "\u{2192}"
    } else if str_equal(part, "ArrowUp") {
        "\u{2191}"
    } else if str_equal(part, "ArrowDown") {
        "\u{2193}"
    } else if str_equal(part, "Enter") || str_equal(part, "Return") {
        "\u{23ce}"
    } else if str_equal(part, "Backspace") {
        "\u{232b}"
    } else if str_equal(part, "Escape") {
        "\u{238b}"
    } else if str_equal(part, "Space") {
        "Space"
    } else if str_equal(part, "Equal") {
        "="
    } else if str_equal(part, "Minus") {
        "-"
    } else if starts_with(part, "Digit") {
        proof {
            reveal_strlit("Digit");
        }
        part.substring_char(5, part.unicode_len())
    } else if starts_with(part, "Key") {
        proof {
            reveal_strlit("Key");
        }
        part.substring_char(3, part.unicode_len())
    } else {
        part
    };
    push_text(out, symbol);
}

/// Formats an accelerator string like `Control+Alt+ArrowLeft` with macOS
/// keyboard symbols.
pub fn pretty_accelerator(accelerator: &str) -> (pretty_text: String)
    ensures
        pretty_text@ == pretty(accelerator@),
{
    let mut out = String::new();
    let n = accelerator.unicode_len();
    let mut start: usize = 0;
    let mut i: usize = 0;
    proof {
        assert(accelerator@.subrange(0, n as int) =~= accelerator@);
    }
    while i < n
        invariant
            n == accelerator@.len(),
            start <= i <= n,
            forall|j: int| start <= j < i ==> accelerator@[j] != '+',
            out@ + pretty(accelerator@.subrange(start as int, n as int)) == pretty(accelerator@),
        decreases n - i,
    {
        if accelerator.get_char(i) == '+' {
            let ghost rest = accelerator@.subrange(start as int, n as int);
            proof {
                lemma_first_index_of(rest, '+', i - start);
                assert(rest.subrange(0, i - start) =~= accelerator@.subrange(start as int, i as int));
                assert(rest.subrange(i - start + 1, rest.len() as int) =~= accelerator@.subrange(i + 1, n as int));
            }
            let ghost before = out@;
            push_key_symbol(&mut out, accelerator.substring_char(start, i));
            proof {
                assert(out@ + pretty(accelerator@.subrange(i + 1, n as int)) =~= before + pretty(rest));
            }
            start = i + 1;
        }
        i = i + 1;
    }
    let ghost rest = accelerator@.subrange(start as int, n as int);
    proof {
        lemma_no_index_of(rest, '+');
    }
    push_key_symbol(&mut out, accelerator.substring_char(start, n));
    out
}

/// One guide line: the shortcut (or an em dash without one), two en spaces
/// and the label.
pub open spec fn guide_row(entry: (Command, Seq<char>, Option<Seq<char>>)) -> Seq<char> {
    let shortcut = match entry.2 {
        Some(accelerator) => pretty(accelerator),
        None => "\u{2014}"@,
    };
    shortcut + "\u{2002}\u{2002}"@ + entry.1 + "\n"@
}

/// The guide lines of the entries in `category`, in order.
pub open spec fn guide_rows(entries: Seq<(Command, Seq<char>, Option<Seq<char>>)>, category: CommandCategory) -> Seq<char>
    decreases entries.len(),
{
    if entries.len() == 0 {
        Seq::empty()
    } else {
        guide_rows(entries.drop_last(), category) + if entries.last().0.spec_category() == category {
            guide_row(entries.last())
        } else {
            Seq::empty()
        }
    }
}

/// The guide for the first `count` categories: each category with entries
/// gets its label line and its rows, separated from earlier ones by a blank
/// line.
pub open spec fn guide(entries: Seq<(Command, Seq<char>, Option<Seq<char>>)>, count: int) -> Seq<char>
    decreases count,
{
    if count <= 0 {
        Seq::empty()
    } else {
        let earlier = guide(entries, count - 1);
        let category = CommandCategory::ALL@[count - 1];
        let rows = guide_rows(entries, category);
        if rows.len() == 0 {
            earlier
        } else {
            earlier + (if earlier.len() == 0 { Seq::empty() } else { "\n"@ }) + category.spec_label() + "\n"@
                + rows
        }
    }
}

fn push_guide_rows(out: &mut String, entries: &Vec<MenuEntry>, category: CommandCategory)
    ensures
        final(out)@ == old(out)@ + guide_rows(entries@.map_values(|e: MenuEntry| menu_entry_view(e)), category),
{
    let ghost views = entries@.map_values(|e: MenuEntry| menu_entry_view(e));
    let mut i: usize = 0;
    while i < entries.len()
        invariant
            i <= entries@.len(),
            views == entries@.map_values(|e: MenuEntry| menu_entry_view(e)),
            out@ == old(out)@ + guide_rows(views.subrange(0, i as int), category),
        decreases entries.len() - i,
    {
        let ghost before = out@;
        proof {
            assert(views.subrange(0, i as int + 1).drop_last() =~= views.subrange(0, i as int));
            assert(views.subrange(0, i as int + 1).last() == menu_entry_view(entries@[i as int]));
        }
        let entry = &entries[i];
        if entry.command.category() == category {
            match &entry.accelerator {
                Some(accelerator) => {
                    let shortcut = pretty_accelerator(accelerator.as_str());
                    push_text(out, shortcut.as_str());
                },
                None => push_text(out, "\u{2014}"),
            }
            push_text(out, "\u{2002}\u{2002}");
            push_text(out, entry.label.as_str());
            push_text(out, "\n");
            proof {
                assert(out@ =~= before + guide_row(menu_entry_view(*entry)));
            }
        }
        proof {
            assert(out@ =~= old(out)@ + guide_rows(views.subrange(0, i as int + 1), category));
        }
        i = i + 1;
    }
    proof {
        assert(views.subrange(0, entries@.len() as int) =~= views);
    }
}

/// The guide text: every category that has entries, with one line per
/// entry showing its shortcut in macOS symbols and its label.
pub fn guide_text(entries: &Vec<MenuEntry>) -> (text: String)
    ensures
        text@ == guide(entries@.map_values(|e: MenuEntry| menu_entry_view(e)), CATEGORY_COUNT as int),
{
    let ghost views = entries@.map_values(|e: MenuEntry| menu_entry_view(e));
    let mut text = String::new();
    let mut k: usize = 0;
    while k < CATEGORY_COUNT
        invariant
            k <= CATEGORY_COUNT,
            views == entries@.map_values(|e: MenuEntry| menu_entry_view(e)),
            text@ == guide(views, k as int),
        decreases CATEGORY_COUNT - k,
    {
        let category = CommandCategory::ALL[k];
        let mut rows = String::new();
        push_guide_rows(&mut rows, entries, category);
        if rows.unicode_len() > 0 {
            if text.unicode_len() > 0 {
                push_text(&mut text, "\n");
            }
            push_text(&mut text, category.label());
            push_text(&mut text, "\n");
            push_text(&mut text, rows.as_str());
        }
        proof {
            assert(text@ =~= guide(views, k as int + 1));
        }
        k = k + 1;
    }
    text
}

/// The positions in `commands`, in order, of the commands in `category`.
pub open spec fn category_positions(commands: Seq<Command>, category: CommandCategory) -> Seq<int>
    decreases commands.len(),
{
    if commands.len() == 0 {
        Seq::empty()
    } else {
        let earlier = category_positions(commands.drop_last(), category);
        if commands.last().spec_category() == category {
            earlier.push(commands.len() - 1)
        } else {
            earlier
        }
    }
}

/// The tray menu's submenus for the first `count` categories: each category
/// that has commands, in category order, with the positions of its commands.
pub open spec fn menu_sections(commands: Seq<Command>, count: int) -> Seq<(CommandCategory, Seq<int>)>
    decreases count,
{
    if count <= 0 {
        Seq::empty()
    } else {
        let earlier = menu_sections(commands, count - 1);
        let category = CommandCategory::ALL@[count - 1];
        let positions = category_positions(commands, category);
        if positions.len() == 0 {
            earlier
        } else {
            earlier.push((category, positions))
        }
    }
}

/// The commands of the menu entries.
pub open spec fn entry_commands(entries: Seq<MenuEntry>) -> Seq<Command> {
    entries.map_values(|entry: MenuEntry| entry.command)
}

/// The sections with their positions as integers.
pub open spec fn sections_view(sections: Seq<(CommandCategory, Vec<usize>)>) -> Seq<(CommandCategory, Seq<int>)> {
    sections.map_values(|section: (CommandCategory, Vec<usize>)| (section.0, section.1@.map_values(|i: usize| i as int)))
}

fn positions_in(entries: &Vec<MenuEntry>, category: CommandCategory) -> (positions: Vec<usize>)
    ensures
        positions@.map_values(|i: usize| i as int) == category_positions(entry_commands(entries@), category),
{
    let ghost commands = entry_commands(entries@);
    let mut positions: Vec<usize> = Vec::new();
    let mut i: usize = 0;
    while i < entries.len()
        invariant
            i <= entries@.len(),
            commands == entry_commands(entries@),
            positions@.map_values(|i: usize| i as int) == category_positions(commands.subrange(0, i as int), category),
        decreases entries@.len() - i,
    {
        proof {
            assert(commands.subrange(0, i as int + 1).drop_last() =~= commands.subrange(0, i as int));
            assert(commands.subrange(0, i as int + 1).last() == entries@[i as int].command);
        }
        if entries[i].command.category() == category {
            let ghost before = positions@;
            positions.push(i);
            proof {
                assert(positions@.map_values(|i: usize| i as int) =~= before.map_values(|i: usize| i as int).push(
                    i as int,
                ));
            }
        }
        i = i + 1;
    }
    proof {
        assert(commands.subrange(0, entries@.len() as int) =~= commands);
    }
    positions
}

/// The tray menu's submenus: each category that has entries, in category
/// order, with the positions of its entries in `entries`.
pub fn tray_sections(entries: &Vec<MenuEntry>) -> (sections: Vec<(CommandCategory, Vec<usize>)>)
    ensures
        sections_view(sections@) == menu_sections(entry_commands(entries@), CATEGORY_COUNT as int),
{
    let ghost commands = entry_commands(entries@);
    let mut sections: Vec<(CommandCategory, Vec<usize>)> = Vec::new();
    let mut k: usize = 0;
    while k < CATEGORY_COUNT
        invariant
            k <= CATEGORY_COUNT,
            commands == entry_commands(entries@),
            sections_view(sections@) == menu_sections(commands, k as int),
        decreases CATEGORY_COUNT - k,
    {
        let category = CommandCategory::ALL[k];
        let positions = positions_in(entries, category);
        if positions.len() > 0 {
            let ghost before = sections@;
            sections.push((category, positions));
            proof {
                assert(sections_view(sections@) =~= sections_view(before).push(
                    (category, category_positions(commands, category)),
                ));
            }
        }
        k = k + 1;
    }
    sections
}

proof fn lemma_category_positions(commands: Seq<Command>, category: CommandCategory)
    ensures
        forall|i: int| 0 <= i < commands.len() ==> (category_positions(commands, category).contains(i) <==> (
        #[trigger] commands[i]).spec_category() == category),
        forall|k: int|
            0 <= k < category_positions(commands, category).len() ==> 0 <= #[trigger] category_positions(
                commands,
                category,
            )[k] < commands.len(),
    decreases commands.len(),
{
    if commands.len() > 0 {
        let rest = commands.drop_last();
        lemma_category_positions(rest, category);
        let earlier = category_positions(rest, category);
        assert forall|i: int| 0 <= i < commands.len() implies (category_positions(commands, category).contains(i) <==> (
        #[trigger] commands[i]).spec_category() == category) by {
            if i < rest.len() {
                assert(rest[i] == commands[i]);
                if commands.last().spec_category() == category {
                    let pushed = earlier.push(commands.len() - 1);
                    assert(pushed.contains(i) <==> earlier.contains(i)) by {
                        if pushed.contains(i) {
                            let k = choose|k: int| 0 <= k < pushed.len() && #[trigger] pushed[k] == i;
                            if k < earlier.len() {
                                assert(earlier[k] == i);
                            }
                        }
                        if earlier.contains(i) {
                            let k = choose|k: int| 0 <= k < earlier.len() && #[trigger] earlier[k] == i;
                            assert(pushed[k] == i);
                        }
                    }
                }
            } else {
                if commands.last().spec_category() == category {
                    assert(earlier.push(commands.len() - 1)[earlier.len() as int] == i);
                } else {
                    assert(!earlier.contains(i)) by {
                        if earlier.contains(i) {
                            let k = choose|k: int| 0 <= k < earlier.len() && #[trigger] earlier[k] == i;
                            assert(0 <= earlier[k] < rest.len());
                        }
                    }
                }
            }
        }
    }
}

proof fn lemma_menu_sections(commands: Seq<Command>, count: int)
    requires
        0 <= count <= CATEGORY_COUNT,
    ensures
        forall|s: int| 0 <= s < menu_sections(commands, count).len() ==> {
            let section = #[trigger] menu_sections(commands, count)[s];
            &&& 0 <= section.0.index() < count
            &&& section.1 == category_positions(commands, section.0)
        },
        forall|c: CommandCategory| 0 <= c.index() < count && #[trigger] category_positions(commands, c).len() > 0 ==> exists|
            s: int,
        | 0 <= s < menu_sections(commands, count).len() && (#[trigger] menu_sections(commands, count)[s]).0 == c,
        forall|s: int, t: int|
            0 <= s < t < menu_sections(commands, count).len() ==> (#[trigger] menu_sections(commands, count)[s]).0
                != (#[trigger] menu_sections(commands, count)[t]).0,
    decreases count,
{
    lemma_category_all_index(CommandCategory::Halves);
    if count > 0 {
        lemma_menu_sections(commands, count - 1);
        let earlier = menu_sections(commands, count - 1);
        let category = CommandCategory::ALL@[count - 1];
        let sections = menu_sections(commands, count);
        assert(category.index() == count - 1);
        assert forall|s: int| 0 <= s < sections.len() implies {
            let section = #[trigger] sections[s];
            &&& 0 <= section.0.index() < count
            &&& section.1 == category_positions(commands, section.0)
        } by {
            if s < earlier.len() {
                assert(sections[s] == earlier[s]);
            }
        }
        assert forall|c: CommandCategory| 0 <= c.index() < count && #[trigger] category_positions(commands, c).len() > 0 implies exists|
            s: int,
        | 0 <= s < sections.len() && (#[trigger] sections[s]).0 == c by {
            lemma_category_all_index(c);
            if c.index() < count - 1 {
                let s = choose|s: int| 0 <= s < earlier.len() && (#[trigger] earlier[s]).0 == c;
                assert(sections[s] == earlier[s]);
            } else {
                assert(c == category);
                assert(sections[sections.len() - 1].0 == c);
            }
        }
        assert forall|s: int, t: int| 0 <= s < t < sections.len() implies (#[trigger] sections[s]).0
            != (#[trigger] sections[t]).0 by {
            if t < earlier.len() {
                assert(sections[s] == earlier[s] && sections[t] == earlier[t]);
            } else {
                assert(sections[s] == earlier[s]);
                assert(earlier[s].0.index() < count - 1);
            }
        }
    }
}

/// Every tray menu entry sits in exactly one submenu: the one of its
/// command's category.
pub proof fn lemma_each_entry_has_one_submenu(commands: Seq<Command>, i: int)
    requires
        0 <= i < commands.len(),
    ensures
        ({
            let sections = menu_sections(commands, CATEGORY_COUNT as int);
            &&& exists|s: int| 0 <= s < sections.len() && (#[trigger] sections[s]).0 == commands[i].spec_category() && sections[s].1.contains(i)
            &&& forall|s: int| 0 <= s < sections.len() && (#[trigger] sections[s]).1.contains(i) ==> sections[s].0 == commands[i].spec_category()
        }),
{
    let category = commands[i].spec_category();
    let sections = menu_sections(commands, CATEGORY_COUNT as int);
    lemma_menu_sections(commands, CATEGORY_COUNT as int);
    lemma_category_positions(commands, category);
    lemma_category_all_index(category);
    assert(category_positions(commands, category).contains(i));
    assert(category_positions(commands, category).len() > 0);
    let s = choose|s: int| 0 <= s < sections.len() && (#[trigger] sections[s]).0 == category;
    assert(sections[s].1.contains(i));
    assert forall|t: int| 0 <= t < sections.len() && (#[trigger] sections[t]).1.contains(i) implies sections[t].0 == category by {
        lemma_category_positions(commands, sections[t].0);
    }
}

/// `value` limited to `low..=high`.
pub open spec fn clamped(value: int, low: int, high: int) -> int {
    if value < low {
        low
    } else if value > high {
        high
    } else {
        value
    }
}

/// Whether the point lies in the rectangle from (`left`, `top`) to
/// (`right`, `bottom`) whose corners are rounded with `radius`.
pub open spec fn in_rounded_rect(x: int, y: int, left: int, top: int, right: int, bottom: int, radius: int) -> bool {
    &&& left <= x <= right
    &&& top <= y <= bottom
    &&& {
        let dx = x - clamped(x, left + radius, right - radius);
        let dy = y - clamped(y, top + radius, bottom - radius);
        dx * dx + dy * dy <= radius * radius
    }
}

/// Whether the tray icon covers the point, with coordinates in eighths of an
/// icon pixel: a rounded square frame from 4 to 28 pixels (corner radius 5.5)
/// whose inside, from 7 to 25 pixels (corner radius 2.5), is open, crossed
/// by a vertical and a horizontal divider from 14.5 to 17.5 pixels.
pub open spec fn icon_covers(x: int, y: int) -> bool {
    let frame = in_rounded_rect(x, y, 32, 32, 224, 224, 44) && !in_rounded_rect(x, y, 56, 56, 200, 200, 20);
    let vertical_divider = 116 <= x <= 140 && 56 <= y <= 200;
    let horizontal_divider = 116 <= y <= 140 && 56 <= x <= 200;
    frame || vertical_divider || horizontal_divider
}

/// The coordinate, in eighths of a pixel, of sample `sample` (of four per
/// axis, at the centres of the quarters) of pixel `pixel`.
pub open spec fn sample_coordinate(pixel: int, sample: int) -> int {
    8 * pixel + 2 * sample + 1
}

/// How many of the first `count` samples of pixel (`x`, `y`) the icon
/// covers; sample `k` is column `k % 4` of row `k / 4`.
pub open spec fn covered_samples(x: int, y: int, count: int) -> nat
    decreases count,
{
    if count <= 0 {
        0
    } else {
        covered_samples(x, y, count - 1) + if icon_covers(
            sample_coordinate(x, (count - 1) % 4),
            sample_coordinate(y, (count - 1) / 4),
        ) {
            1nat
        } else {
            0nat
        }
    }
}

/// The opacity of icon pixel (`x`, `y`): the covered share of its sixteen
/// samples, scaled to 0..=255 and rounded down.
pub open spec fn spec_icon_alpha(x: int, y: int) -> int {
    (covered_samples(x, y, 16) * 255 / 16) as int
}

fn in_rounded_rect_at(x: i64, y: i64, left: i64, top: i64, right: i64, bottom: i64, radius: i64) -> (inside: bool)
    requires
        0 <= x <= 300,
        0 <= y <= 300,
        0 <= left <= 300,
        0 <= top <= 300,
        0 <= right <= 300,
        0 <= bottom <= 300,
        0 <= radius <= 100,
        left + radius <= right - radius,
        top + radius <= bottom - radius,
    ensures
        inside == in_rounded_rect(x as int, y as int, left as int, top as int, right as int, bottom as int, radius as int),
{
    if x < left || x > right || y < top || y > bottom {
        return false;
    }
    let nearest_x = if x < left + radius { left + radius } else if x > right - radius { right - radius } else { x };
    let nearest_y = if y < top + radius { top + radius } else if y > bottom - radius { bottom - radius } else { y };
    let dx = x - nearest_x;
    let dy = y - nearest_y;
    assert(0 <= dx * dx <= 90000) by (nonlinear_arith)
        requires
            -300 <= dx <= 300,
    ;
    assert(0 <= dy * dy <= 90000) by (nonlinear_arith)
        requires
            -300 <= dy <= 300,
    ;
    assert(0 <= radius * radius <= 10000) by (nonlinear_arith)
        requires
            0 <= radius <= 100,
    ;
    dx * dx + dy * dy <= radius * radius
}

fn icon_covers_at(x: i64, y: i64) -> (covered: bool)
    requires
        0 <= x <= 300,
        0 <= y <= 300,
    ensures
        covered == icon_covers(x as int, y as int),
{
    let frame = in_rounded_rect_at(x, y, 32, 32, 224, 224, 44) && !in_rounded_rect_at(x, y, 56, 56, 200, 200, 20);
    let vertical_divider = 116 <= x && x <= 140 && 56 <= y && y <= 200;
    let horizontal_divider = 116 <= y && y <= 140 && 56 <= x && x <= 200;
    frame || vertical_divider || horizontal_divider
}

proof fn lemma_far_pixels_are_clear(x: int, y: int, count: int)
    requires
        x >= 32 || y >= 32,
        x >= 0,
        y >= 0,
        0 <= count <= 16,
    ensures
        covered_samples(x, y, count) == 0,
    decreases count,
{
    if count > 0 {
        lemma_far_pixels_are_clear(x, y, count - 1);
    }
}

/// Whether the icon covers sample (`column`, `row`) of pixel (`x`, `y`).
#[verifier::opaque]
spec fn sample_covered(x: int, y: int, column: int, row: int) -> int {
    if icon_covers(sample_coordinate(x, column), sample_coordinate(y, row)) {
        1
    } else {
        0
    }
}

#[verifier::spinoff_prover]
proof fn lemma_covered_samples_expand(x: int, y: int)
    ensures
        covered_samples(x, y, 16) == sample_covered(x, y, 0, 0) + sample_covered(x, y, 1, 0) + sample_covered(x, y, 2, 0) + sample_covered(x, y, 3, 0) + sample_covered(x, y, 0, 1) + sample_covered(x, y, 1, 1) + sample_covered(x, y, 2, 1) + sample_covered(x, y, 3, 1) + sample_covered(x, y, 0, 2) + sample_covered(x, y, 1, 2) + sample_covered(x, y, 2, 2) + sample_covered(x, y, 3, 2) + sample_covered(x, y, 0, 3) + sample_covered(x, y, 1, 3) + sample_covered(x, y, 2, 3) + sample_covered(x, y, 3, 3),
{
    reveal(sample_covered);
    reveal_with_fuel(covered_samples, 17);
}

proof fn lemma_rounded_square_is_symmetric(x: int, y: int, low: int, high: int, radius: int)
    requires
        low + high == 256,
        0 <= radius,
        low + radius <= high - radius,
    ensures
        in_rounded_rect(256 - x, y, low, low, high, high, radius) == in_rounded_rect(x, y, low, low, high, high, radius),
        in_rounded_rect(y, x, low, low, high, high, radius) == in_rounded_rect(x, y, low, low, high, high, radius),
{
    let dx = x - clamped(x, low + radius, high - radius);
    let mirrored = (256 - x) - clamped(256 - x, low + radius, high - radius);
    assert(mirrored == -dx);
    assert(mirrored * mirrored == dx * dx) by (nonlinear_arith)
        requires
            mirrored == -dx,
    ;
}

/// The icon's shape, in eighths of a pixel, is the same mirrored left to
/// right and flipped along its diagonal.
proof fn lemma_icon_shape_is_symmetric(x: int, y: int)
    ensures
        icon_covers(256 - x, y) == icon_covers(x, y),
        icon_covers(y, x) == icon_covers(x, y),
{
    lemma_rounded_square_is_symmetric(x, y, 32, 224, 44);
    lemma_rounded_square_is_symmetric(x, y, 56, 200, 20);
}

proof fn lemma_sample_is_symmetric(x: int, y: int, column: int, row: int)
    requires
        0 <= column < 4,
        0 <= row < 4,
    ensures
        sample_covered(31 - x, y, column, row) == sample_covered(x, y, 3 - column, row),
        sample_covered(y, x, column, row) == sample_covered(x, y, row, column),
{
    reveal(sample_covered);
    assert(sample_coordinate(31 - x, column) == 256 - sample_coordinate(x, 3 - column));
    lemma_icon_shape_is_symmetric(sample_coordinate(x, 3 - column), sample_coordinate(y, row));
    lemma_icon_shape_is_symmetric(sample_coordinate(x, row), sample_coordinate(y, column));
}

/// The tray icon looks the same mirrored left to right and flipped along
/// its diagonal, so it is symmetric under every turn by a quarter.
pub proof fn lemma_icon_is_symmetric(x: int, y: int)
    requires
        0 <= x < 32,
        0 <= y < 32,
    ensures
        spec_icon_alpha(31 - x, y) == spec_icon_alpha(x, y),
        spec_icon_alpha(y, x) == spec_icon_alpha(x, y),
{
    lemma_covered_samples_expand(x, y);
    lemma_covered_samples_expand(31 - x, y);
    lemma_covered_samples_expand(y, x);
    lemma_sample_is_symmetric(x, y, 0, 0);
    lemma_sample_is_symmetric(x, y, 1, 0);
    lemma_sample_is_symmetric(x, y, 2, 0);
    lemma_sample_is_symmetric(x, y, 3, 0);
    lemma_sample_is_symmetric(x, y, 0, 1);
    lemma_sample_is_symmetric(x, y, 1, 1);
    lemma_sample_is_symmetric(x, y, 2, 1);
    lemma_sample_is_symmetric(x, y, 3, 1);
    lemma_sample_is_symmetric(x, y, 0, 2);
    lemma_sample_is_symmetric(x, y, 1, 2);
    lemma_sample_is_symmetric(x, y, 2, 2);
    lemma_sample_is_symmetric(x, y, 3, 2);
    lemma_sample_is_symmetric(x, y, 0, 3);
    lemma_sample_is_symmetric(x, y, 1, 3);
    lemma_sample_is_symmetric(x, y, 2, 3);
    lemma_sample_is_symmetric(x, y, 3, 3);
}

/// Returns the opacity of tray icon pixel (`x`, `y`), antialiased by
/// sampling each pixel at sixteen points.
pub fn icon_alpha(x: usize, y: usize) -> (alpha: u8)
    ensures
        alpha as int == spec_icon_alpha(x as int, y as int),
{
    if x >= 32 || y >= 32 {
        proof {
            lemma_far_pixels_are_clear(x as int, y as int, 16);
        }
        return 0;
    }
    let px = x as i64;
    let py = y as i64;
    let mut covered: u64 = 0;
    let mut k: i64 = 0;
    while k < 16
        invariant
            0 <= k <= 16,
            0 <= px < 32,
            0 <= py < 32,
            px == x as int,
            py == y as int,
            covered as nat == covered_samples(px as int, py as int, k as int),
            covered <= k,
        decreases 16 - k,
    {
        let sample_x = 8 * px + 2 * (k % 4) + 1;
        let sample_y = 8 * py + 2 * (k / 4) + 1;
        if icon_covers_at(sample_x, sample_y) {
            covered = covered + 1;
        }
        k = k + 1;
    }
    proof {
        assert(covered * 255 / 16 <= 255) by (nonlinear_arith)
            requires
                covered <= 16,
        ;
    }
    (covered * 255 / 16) as u8
}

} // verus!
