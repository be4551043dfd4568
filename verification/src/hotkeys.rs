//! Reading hotkey bindings as global hotkeys, and finding the command that a
//! pressed hotkey or a chosen menu item stands for.

use vstd::prelude::*;

use global_hotkey::hotkey::HotKey;

use crate::command::{Command, lemma_ids_distinct};
use crate::platform::{CommandInvocation, CommandSource, HotkeyBinding, MenuEntry, PlatformError};
use crate::text::{push_text, str_equal};
use crate::tray::{command_menu_id, spec_command_menu_id};

verus! {

#[verifier::external_type_specification]
#[verifier::external_body]
pub struct ExHotKey(global_hotkey::hotkey::HotKey);

/// What `global_hotkey` makes of `accelerator`: the id of the hotkey it
/// reads, or the text of its parse error.
pub uninterp spec fn hotkey_parse(accelerator: Seq<char>) -> Result<u32, Seq<char>>;

/// Reads `accelerator` with `HotKey`'s `FromStr` implementation of the
/// `global_hotkey` crate, and hands back the hotkey with its `id` field, or
/// the parse error's `Display` text. The parser is a function of the text
/// alone; what it accepts is not stated here.
#[verifier::external_body]
fn parse_accelerator(accelerator: &str) -> (parsed: Result<(HotKey, u32), String>)
    ensures
        hotkey_parse(accelerator@) == match parsed {
            Ok((_, id)) => Ok::<u32, Seq<char>>(id),
            Err(message) => Err::<u32, Seq<char>>(message@),
        },
{
    match accelerator.parse::<HotKey>() {
        Ok(hotkey) => Ok((hotkey, hotkey.id)),
        Err(error) => Err(error.to_string()),
    }
}

/// The error for a binding whose accelerator does not parse, where
/// `error` is the parser's message.
pub open spec fn spec_hotkey_parse_failure(binding: HotkeyBinding, error: Seq<char>) -> Seq<char> {
    "invalid hotkey "@ + binding.accelerator@ + " for "@ + binding.command.spec_label() + ": "@ + error
}

/// Returns the error for a binding whose accelerator does not parse.
pub fn hotkey_parse_failure(binding: &HotkeyBinding, error: &str) -> (failure: PlatformError)
    ensures
        failure matches PlatformError::Native(message) && message@ == spec_hotkey_parse_failure(*binding, error@),
{
    let mut message = String::new();
    push_text(&mut message, "invalid hotkey ");
    push_text(&mut message, binding.accelerator.as_str());
    push_text(&mut message, " for ");
    push_text(&mut message, binding.command.label());
    push_text(&mut message, ": ");
    push_text(&mut message, error);
    proof {
        assert(message@ =~= spec_hotkey_parse_failure(*binding, error@));
    }
    PlatformError::Native(message)
}

/// Reads a binding's accelerator as a global hotkey, with the hotkey's id.
pub fn parse_hotkey(binding: &HotkeyBinding) -> (parsed: Result<(HotKey, u32), PlatformError>)
    ensures
        match hotkey_parse(binding.accelerator@) {
            Ok(id) => parsed matches Ok((_, parsed_id)) && parsed_id == id,
            Err(error) => parsed matches Err(PlatformError::Native(message)) && message@
                == spec_hotkey_parse_failure(*binding, error),
        },
{
    match parse_accelerator(binding.accelerator.as_str()) {
        Ok(parsed) => Ok(parsed),
        Err(error) => Err(hotkey_parse_failure(binding, error.as_str())),
    }
}

/// The command registered last under hotkey id `id` in `registered`.
pub open spec fn registered_command(registered: Seq<(u32, Command)>, id: u32) -> Option<Command>
    decreases registered.len(),
{
    if registered.len() == 0 {
        None
    } else if registered.last().0 == id {
        Some(registered.last().1)
    } else {
        registered_command(registered.drop_last(), id)
    }
}

/// The invocation that pressing the hotkey with id `hotkey_id` asks for,
/// given the hotkeys registered so far (a later registration of an id
/// replaces an earlier one).
pub fn invocation_for_hotkey_id(registered: &Vec<(u32, Command)>, hotkey_id: u32) -> (invocation: Option<
    CommandInvocation,
>)
    ensures
        invocation == match registered_command(registered@, hotkey_id) {
            Some(command) => Some(CommandInvocation { command, source: CommandSource::Keyboard }),
            None => None,
        },
{
    let mut i = registered.len();
    proof {
        assert(registered@.subrange(0, i as int) =~= registered@);
    }
    while i > 0
        invariant
            i <= registered@.len(),
            registered_command(registered@, hotkey_id) == registered_command(registered@.subrange(0, i as int), hotkey_id),
        decreases i,
    {
        let (id, command) = registered[i - 1];
        proof {
            assert(registered@.subrange(0, i as int).drop_last() =~= registered@.subrange(0, i - 1));
        }
        if id == hotkey_id {
            return Some(CommandInvocation { command, source: CommandSource::Keyboard });
        }
        i = i - 1;
    }
    None
}

/// The first position in `entries` of a command whose menu item id is
/// `menu_id`.
pub open spec fn menu_position(entries: Seq<MenuEntry>, menu_id: Seq<char>) -> Option<int>
    decreases entries.len(),
{
    if entries.len() == 0 {
        None
    } else {
        match menu_position(entries.drop_last(), menu_id) {
            Some(k) => Some(k),
            None => if spec_command_menu_id(entries.last().command) == menu_id {
                Some(entries.len() - 1)
            } else {
                None
            },
        }
    }
}

/// The invocation that choosing the menu item `menu_id` asks for, in a
/// menu built from `entries`; ids of other items (such as Quit) give none.
pub fn invocation_for_menu_id(entries: &Vec<MenuEntry>, menu_id: &str) -> (invocation: Option<
    CommandInvocation,
>)
    ensures
        invocation == match menu_position(entries@, menu_id@) {
            Some(k) => Some(CommandInvocation { command: entries@[k].command, source: CommandSource::Menu }),
            None => None,
        },
        menu_position(entries@, menu_id@) matches Some(k) ==> 0 <= k < entries@.len(),
{
    let mut i: usize = 0;
    while i < entries.len()
        invariant
            i <= entries@.len(),
            menu_position(entries@.subrange(0, i as int), menu_id@) is None,
        decreases entries@.len() - i,
    {
        proof {
            assert(entries@.subrange(0, i as int + 1).drop_last() =~= entries@.subrange(0, i as int));
        }
        let command = entries[i].command;
        let id = command_menu_id(command);
        if str_equal(id.as_str(), menu_id) {
            proof {
                lemma_menu_position_prefix(entries@, menu_id@, i as int + 1, i as int);
            }
            return Some(CommandInvocation { command, source: CommandSource::Menu });
        }
        i = i + 1;
    }
    proof {
        assert(entries@.subrange(0, entries@.len() as int) =~= entries@);
    }
    None
}

proof fn lemma_menu_position_prefix(entries: Seq<MenuEntry>, menu_id: Seq<char>, n: int, k: int)
    requires
        0 < n <= entries.len(),
        menu_position(entries.subrange(0, n), menu_id) == Some(k),
    ensures
        menu_position(entries, menu_id) == Some(k),
    decreases entries.len() - n,
{
    if n < entries.len() {
        assert(entries.subrange(0, n + 1).drop_last() =~= entries.subrange(0, n));
        lemma_menu_position_prefix(entries, menu_id, n + 1, k);
    } else {
        assert(entries.subrange(0, n) =~= entries);
    }
}

/// Different commands have different menu item ids.
pub proof fn lemma_menu_ids_distinct(a: Command, b: Command)
    ensures
        spec_command_menu_id(a) == spec_command_menu_id(b) ==> a == b,
{
    let prefix = "panes.command."@;
    if spec_command_menu_id(a) == spec_command_menu_id(b) {
        assert(a.spec_id() =~= spec_command_menu_id(a).subrange(prefix.len() as int, spec_command_menu_id(a).len() as int));
        assert(b.spec_id() =~= spec_command_menu_id(b).subrange(prefix.len() as int, spec_command_menu_id(b).len() as int));
        lemma_ids_distinct(a, b);
    }
}

/// In a menu that lists each command at most once, choosing a command's
/// item finds that command's entry.
pub proof fn lemma_menu_item_invokes_its_command(entries: Seq<MenuEntry>, k: int)
    requires
        0 <= k < entries.len(),
        forall|i: int, j: int| 0 <= i < j < entries.len() ==> (#[trigger] entries[i]).command != (#[trigger] entries[j]).command,
    ensures
        menu_position(entries, spec_command_menu_id(entries[k].command)) == Some(k),
    decreases entries.len(),
{
    let id = spec_command_menu_id(entries[k].command);
    let rest = entries.drop_last();
    if k < entries.len() - 1 {
        assert(rest[k] == entries[k]);
        assert forall|i: int, j: int| 0 <= i < j < rest.len() implies (#[trigger] rest[i]).command != (#[trigger] rest[j]).command by {
            assert(rest[i] == entries[i] && rest[j] == entries[j]);
        }
        lemma_menu_item_invokes_its_command(rest, k);
    } else {
        lemma_menu_position_absent(rest, entries[k].command);
    }
}

proof fn lemma_menu_position_absent(entries: Seq<MenuEntry>, command: Command)
    requires
        forall|i: int| 0 <= i < entries.len() ==> (#[trigger] entries[i]).command != command,
    ensures
        menu_position(entries, spec_command_menu_id(command)) is None,
    decreases entries.len(),
{
    if entries.len() > 0 {
        let rest = entries.drop_last();
        assert forall|i: int| 0 <= i < rest.len() implies (#[trigger] rest[i]).command != command by {
            assert(rest[i] == entries[i]);
        }
        lemma_menu_position_absent(rest, command);
        lemma_menu_ids_distinct(entries.last().command, command);
    }
}

} // verus!
