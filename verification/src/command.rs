//! The window commands that panes offers, with their stable ids, menu labels
//! and menu categories.

use vstd::prelude::*;

use crate::text::str_equal;

verus! {

/// A window command. Every command has a stable kebab-case id (used by the
/// command line and the config file), a menu label and a menu category.
#[derive(Debug, Clone, Copy, PartialEq, Eq, Hash, Structural)]
pub enum Command {
    LeftHalf,
    RightHalf,
    CenterHalf,
    TopHalf,
    BottomHalf,
    TopLeft,
    TopRight,
    BottomLeft,
    BottomRight,
    FirstThird,
    CenterThird,
    LastThird,
    FirstTwoThirds,
    CenterTwoThirds,
    LastTwoThirds,
    Maximize,
    AlmostMaximize,
    MaximizeHeight,
    Center,
    Restore,
    MoveLeft,
    MoveRight,
    MoveUp,
    MoveDown,
    Grow,
    Shrink,
}

/// Number of commands in [`Command::ALL`].
pub const COMMAND_COUNT: usize = 26;

impl Command {
    /// Every command, in menu order.
    pub const ALL: &'static [Command; 26] = &[
        Command::LeftHalf,
        Command::RightHalf,
        Command::CenterHalf,
        Command::TopHalf,
        Command::BottomHalf,
        Command::TopLeft,
        Command::TopRight,
        Command::BottomLeft,
        Command::BottomRight,
        Command::FirstThird,
        Command::CenterThird,
        Command::LastThird,
        Command::FirstTwoThirds,
        Command::CenterTwoThirds,
        Command::LastTwoThirds,
        Command::Maximize,
        Command::AlmostMaximize,
        Command::MaximizeHeight,
        Command::Center,
        Command::Restore,
        Command::MoveLeft,
        Command::MoveRight,
        Command::MoveUp,
        Command::MoveDown,
        Command::Grow,
        Command::Shrink,
    ];

    /// Position of the command in [`Command::ALL`].
    pub open spec fn index(self) -> int {
        match self {
            Command::LeftHalf => 0,
            Command::RightHalf => 1,
            Command::CenterHalf => 2,
            Command::TopHalf => 3,
            Command::BottomHalf => 4,
            Command::TopLeft => 5,
            Command::TopRight => 6,
            Command::BottomLeft => 7,
            Command::BottomRight => 8,
            Command::FirstThird => 9,
            Command::CenterThird => 10,
            Command::LastThird => 11,
            Command::FirstTwoThirds => 12,
            Command::CenterTwoThirds => 13,
            Command::LastTwoThirds => 14,
            Command::Maximize => 15,
            Command::AlmostMaximize => 16,
            Command::MaximizeHeight => 17,
            Command::Center => 18,
            Command::Restore => 19,
            Command::MoveLeft => 20,
            Command::MoveRight => 21,
            Command::MoveUp => 22,
            Command::MoveDown => 23,
            Command::Grow => 24,
            Command::Shrink => 25,
        }
    }

    /// The stable id of the command.
    pub open spec fn spec_id(self) -> Seq<char> {
        match self {
            Command::LeftHalf => "left-half"@,
            Command::RightHalf => "right-half"@,
            Command::CenterHalf => "center-half"@,
            Command::TopHalf => "top-half"@,
            Command::BottomHalf => "bottom-half"@,
            Command::TopLeft => "top-left"@,
            Command::TopRight => "top-right"@,
            Command::BottomLeft => "bottom-left"@,
            Command::BottomRight => "bottom-right"@,
            Command::FirstThird => "first-third"@,
            Command::CenterThird => "center-third"@,
            Command::LastThird => "last-third"@,
            Command::FirstTwoThirds => "first-two-thirds"@,
            Command::CenterTwoThirds => "center-two-thirds"@,
            Command::LastTwoThirds => "last-two-thirds"@,
            Command::Maximize => "maximize"@,
            Command::AlmostMaximize => "almost-maximize"@,
            Command::MaximizeHeight => "maximize-height"@,
            Command::Center => "center"@,
            Command::Restore => "restore"@,
            Command::MoveLeft => "move-left"@,
            Command::MoveRight => "move-right"@,
            Command::MoveUp => "move-up"@,
            Command::MoveDown => "move-down"@,
            Command::Grow => "grow"@,
            Command::Shrink => "shrink"@,
        }
    }

    /// The menu label of the command.
    pub open spec fn spec_label(self) -> Seq<char> {
        match self {
            Command::LeftHalf => "Left Half"@,
            Command::RightHalf => "Right Half"@,
            Command::CenterHalf => "Center Half"@,
            Command::TopHalf => "Top Half"@,
            Command::BottomHalf => "Bottom Half"@,
            Command::TopLeft => "Top Left"@,
            Command::TopRight => "Top Right"@,
            Command::BottomLeft => "Bottom Left"@,
            Command::BottomRight => "Bottom Right"@,
            Command::FirstThird => "First Third"@,
            Command::CenterThird => "Center Third"@,
            Command::LastThird => "Last Third"@,
            Command::FirstTwoThirds => "First Two Thirds"@,
            Command::CenterTwoThirds => "Center Two Thirds"@,
            Command::LastTwoThirds => "Last Two Thirds"@,
            Command::Maximize => "Maximize"@,
            Command::AlmostMaximize => "Almost Maximize"@,
            Command::MaximizeHeight => "Maximize Height"@,
            Command::Center => "Center"@,
            Command::Restore => "Restore"@,
            Command::MoveLeft => "Move Left"@,
            Command::MoveRight => "Move Right"@,
            Command::MoveUp => "Move Up"@,
            Command::MoveDown => "Move Down"@,
            Command::Grow => "Grow"@,
            Command::Shrink => "Shrink"@,
        }
    }

    /// The menu category of the command.
    pub open spec fn spec_category(self) -> CommandCategory {
        match self {
            Command::LeftHalf => CommandCategory::Halves,
            Command::RightHalf => CommandCategory::Halves,
            Command::CenterHalf => CommandCategory::Halves,
            Command::TopHalf => CommandCategory::Halves,
            Command::BottomHalf => CommandCategory::Halves,
            Command::TopLeft => CommandCategory::Corners,
            Command::TopRight => CommandCategory::Corners,
            Command::BottomLeft => CommandCategory::Corners,
            Command::BottomRight => CommandCategory::Corners,
            Command::FirstThird => CommandCategory::Thirds,
            Command::CenterThird => CommandCategory::Thirds,
            Command::LastThird => CommandCategory::Thirds,
            Command::FirstTwoThirds => CommandCategory::Thirds,
            Command::CenterTwoThirds => CommandCategory::Thirds,
            Command::LastTwoThirds => CommandCategory::Thirds,
            Command::Maximize => CommandCategory::SizeAndPosition,
            Command::AlmostMaximize => CommandCategory::SizeAndPosition,
            Command::MaximizeHeight => CommandCategory::SizeAndPosition,
            Command::Center => CommandCategory::SizeAndPosition,
            Command::Restore => CommandCategory::SizeAndPosition,
            Command::MoveLeft => CommandCategory::Move,
            Command::MoveRight => CommandCategory::Move,
            Command::MoveUp => CommandCategory::Move,
            Command::MoveDown => CommandCategory::Move,
            Command::Grow => CommandCategory::Resize,
            Command::Shrink => CommandCategory::Resize,
        }
    }

    /// Returns the stable id of the command, such as `left-half`.
    pub fn id(self) -> (id: &'static str)
        ensures
            id@ == self.spec_id(),
    {
        match self {
            Command::LeftHalf => "left-half",
            Command::RightHalf => "right-half",
            Command::CenterHalf => "center-half",
            Command::TopHalf => "top-half",
            Command::BottomHalf => "bottom-half",
            Command::TopLeft => "top-left",
            Command::TopRight => "top-right",
            Command::BottomLeft => "bottom-left",
            Command::BottomRight => "bottom-right",
            Command::FirstThird => "first-third",
            Command::CenterThird => "center-third",
            Command::LastThird => "last-third",
            Command::FirstTwoThirds => "first-two-thirds",
            Command::CenterTwoThirds => "center-two-thirds",
            Command::LastTwoThirds => "last-two-thirds",
            Command::Maximize => "maximize",
            Command::AlmostMaximize => "almost-maximize",
            Command::MaximizeHeight => "maximize-height",
            Command::Center => "center",
            Command::Restore => "restore",
            Command::MoveLeft => "move-left",
            Command::MoveRight => "move-right",
            Command::MoveUp => "move-up",
            Command::MoveDown => "move-down",
            Command::Grow => "grow",
            Command::Shrink => "shrink",
        }
    }

    /// The command whose stable id is `id`, if any.
    pub open spec fn spec_from_id(id: Seq<char>) -> Option<Command> {
        if names_command(id) {
            Some(command_named(id))
        } else {
            None
        }
    }

    /// Looks a command up by its stable id; `None` for any other text.
    pub fn from_id(id: &str) -> (command: Option<Command>)
        ensures
            command == Self::spec_from_id(id@),
            match command {
                Some(c) => c.spec_id() == id@,
                None => forall|c: Command| #[trigger] c.spec_id() != id@,
            },
    {
        let mut i: usize = 0;
        while i < COMMAND_COUNT
            invariant
                0 <= i <= COMMAND_COUNT,
                forall|c: Command| c.index() < i ==> #[trigger] c.spec_id() != id@,
            decreases COMMAND_COUNT - i,
        {
            let candidate = Command::ALL[i];
            proof {
                lemma_all_index(candidate);
                lemma_index_in_all(i as int);
            }
            if str_equal(candidate.id(), id) {
                proof {
                    lemma_command_named(candidate, id@);
                }
                return Some(candidate);
            }
            i = i + 1;
        }
        proof {
            assert forall|c: Command| #[trigger] c.spec_id() != id@ by {
                lemma_all_index(c);
            }
        }
        None
    }

    /// Returns the position of the command in [`Command::ALL`].
    pub fn position(self) -> (position: usize)
        ensures
            position as int == self.index(),
            position < COMMAND_COUNT,
    {
        match self {
            Command::LeftHalf => 0,
            Command::RightHalf => 1,
            Command::CenterHalf => 2,
            Command::TopHalf => 3,
            Command::BottomHalf => 4,
            Command::TopLeft => 5,
            Command::TopRight => 6,
            Command::BottomLeft => 7,
            Command::BottomRight => 8,
            Command::FirstThird => 9,
            Command::CenterThird => 10,
            Command::LastThird => 11,
            Command::FirstTwoThirds => 12,
            Command::CenterTwoThirds => 13,
            Command::LastTwoThirds => 14,
            Command::Maximize => 15,
            Command::AlmostMaximize => 16,
            Command::MaximizeHeight => 17,
            Command::Center => 18,
            Command::Restore => 19,
            Command::MoveLeft => 20,
            Command::MoveRight => 21,
            Command::MoveUp => 22,
            Command::MoveDown => 23,
            Command::Grow => 24,
            Command::Shrink => 25,
        }
    }

    /// Returns the menu label of the command, such as `Left Half`.
    pub fn label(self) -> (label: &'static str)
        ensures
            label@ == self.spec_label(),
    {
        match self {
            Command::LeftHalf => "Left Half",
            Command::RightHalf => "Right Half",
            Command::CenterHalf => "Center Half",
            Command::TopHalf => "Top Half",
            Command::BottomHalf => "Bottom Half",
            Command::TopLeft => "Top Left",
            Command::TopRight => "Top Right",
            Command::BottomLeft => "Bottom Left",
            Command::BottomRight => "Bottom Right",
            Command::FirstThird => "First Third",
            Command::CenterThird => "Center Third",
            Command::LastThird => "Last Third",
            Command::FirstTwoThirds => "First Two Thirds",
            Command::CenterTwoThirds => "Center Two Thirds",
            Command::LastTwoThirds => "Last Two Thirds",
            Command::Maximize => "Maximize",
            Command::AlmostMaximize => "Almost Maximize",
            Command::MaximizeHeight => "Maximize Height",
            Command::Center => "Center",
            Command::Restore => "Restore",
            Command::MoveLeft => "Move Left",
            Command::MoveRight => "Move Right",
            Command::MoveUp => "Move Up",
            Command::MoveDown => "Move Down",
            Command::Grow => "Grow",
            Command::Shrink => "Shrink",
        }
    }

    /// Returns the menu category that the command is listed under.
    pub fn category(self) -> (category: CommandCategory)
        ensures
            category == self.spec_category(),
    {
        match self {
            Command::LeftHalf => CommandCategory::Halves,
            Command::RightHalf => CommandCategory::Halves,
            Command::CenterHalf => CommandCategory::Halves,
            Command::TopHalf => CommandCategory::Halves,
            Command::BottomHalf => CommandCategory::Halves,
            Command::TopLeft => CommandCategory::Corners,
            Command::TopRight => CommandCategory::Corners,
            Command::BottomLeft => CommandCategory::Corners,
            Command::BottomRight => CommandCategory::Corners,
            Command::FirstThird => CommandCategory::Thirds,
            Command::CenterThird => CommandCategory::Thirds,
            Command::LastThird => CommandCategory::Thirds,
            Command::FirstTwoThirds => CommandCategory::Thirds,
            Command::CenterTwoThirds => CommandCategory::Thirds,
            Command::LastTwoThirds => CommandCategory::Thirds,
            Command::Maximize => CommandCategory::SizeAndPosition,
            Command::AlmostMaximize => CommandCategory::SizeAndPosition,
            Command::MaximizeHeight => CommandCategory::SizeAndPosition,
            Command::Center => CommandCategory::SizeAndPosition,
            Command::Restore => CommandCategory::SizeAndPosition,
            Command::MoveLeft => CommandCategory::Move,
            Command::MoveRight => CommandCategory::Move,
            Command::MoveUp => CommandCategory::Move,
            Command::MoveDown => CommandCategory::Move,
            Command::Grow => CommandCategory::Resize,
            Command::Shrink => CommandCategory::Resize,
        }
    }
}

/// The categories under which commands are grouped in menus.
#[derive(Debug, Clone, Copy, PartialEq, Eq, Hash, Structural)]
pub enum CommandCategory {
    Halves,
    Corners,
    Thirds,
    SizeAndPosition,
    Move,
    Resize,
}

/// Number of categories in [`CommandCategory::ALL`].
pub const CATEGORY_COUNT: usize = 6;

impl CommandCategory {
    /// Every category, in menu order.
    pub const ALL: &'static [CommandCategory; 6] = &[
        CommandCategory::Halves,
        CommandCategory::Corners,
        CommandCategory::Thirds,
        CommandCategory::SizeAndPosition,
        CommandCategory::Move,
        CommandCategory::Resize,
    ];

    /// Position of the category in [`CommandCategory::ALL`].
    pub open spec fn index(self) -> int {
        match self {
            CommandCategory::Halves => 0,
            CommandCategory::Corners => 1,
            CommandCategory::Thirds => 2,
            CommandCategory::SizeAndPosition => 3,
            CommandCategory::Move => 4,
            CommandCategory::Resize => 5,
        }
    }

    /// The menu label of the category.
    pub open spec fn spec_label(self) -> Seq<char> {
        match self {
            CommandCategory::Halves => "Halves"@,
            CommandCategory::Corners => "Corners"@,
            CommandCategory::Thirds => "Thirds"@,
            CommandCategory::SizeAndPosition => "Size and Position"@,
            CommandCategory::Move => "Move"@,
            CommandCategory::Resize => "Resize"@,
        }
    }

    /// Returns the menu label of the category, such as `Size and Position`.
    pub fn label(self) -> (label: &'static str)
        ensures
            label@ == self.spec_label(),
    {
        match self {
            CommandCategory::Halves => "Halves",
            CommandCategory::Corners => "Corners",
            CommandCategory::Thirds => "Thirds",
            CommandCategory::SizeAndPosition => "Size and Position",
            CommandCategory::Move => "Move",
            CommandCategory::Resize => "Resize",
        }
    }
}

/// `Command::ALL` lists every command at its index.
pub proof fn lemma_all_index(c: Command)
    ensures
        0 <= c.index() < COMMAND_COUNT,
        Command::ALL@[c.index()] == c,
{
}

/// Each position of `Command::ALL` holds the command with that index.
pub proof fn lemma_index_in_all(i: int)
    requires
        0 <= i < COMMAND_COUNT,
    ensures
        Command::ALL@[i].index() == i,
{
}

/// `Command::ALL` lists every command exactly once.
pub proof fn lemma_all_lists_every_command_once()
    ensures
        Command::ALL@.len() == COMMAND_COUNT,
        Command::ALL@.no_duplicates(),
        forall|c: Command| #[trigger] Command::ALL@.contains(c),
{
    assert forall|i: int, j: int| 0 <= i < Command::ALL@.len() && 0 <= j < Command::ALL@.len() && i != j implies Command::ALL@[i]
        != Command::ALL@[j] by {
        lemma_index_in_all(i);
        lemma_index_in_all(j);
    }
    assert forall|c: Command| #[trigger] Command::ALL@.contains(c) by {
        lemma_all_index(c);
    }
}

/// Which commands each menu category holds: the five halves, the four
/// corners, the six thirds, the five size-and-position commands (the three
/// maximizes, Center and Restore), the four moves, and Grow and Shrink.
pub proof fn lemma_category_members(c: Command)
    ensures
        c.spec_category() == CommandCategory::Halves <==> (c is LeftHalf || c is RightHalf || c is CenterHalf
            || c is TopHalf || c is BottomHalf),
        c.spec_category() == CommandCategory::Corners <==> (c is TopLeft || c is TopRight || c is BottomLeft
            || c is BottomRight),
        c.spec_category() == CommandCategory::Thirds <==> (c is FirstThird || c is CenterThird || c is LastThird
            || c is FirstTwoThirds || c is CenterTwoThirds || c is LastTwoThirds),
        c.spec_category() == CommandCategory::SizeAndPosition <==> (c is Maximize || c is AlmostMaximize
            || c is MaximizeHeight || c is Center || c is Restore),
        c.spec_category() == CommandCategory::Move <==> (c is MoveLeft || c is MoveRight || c is MoveUp
            || c is MoveDown),
        c.spec_category() == CommandCategory::Resize <==> (c is Grow || c is Shrink),
{
}

/// The categories are consecutive runs of the menu order: listing the
/// commands in menu order goes through the categories in their own order.
pub proof fn lemma_categories_follow_menu_order(a: Command, b: Command)
    ensures
        a.index() <= b.index() ==> a.spec_category().index() <= b.spec_category().index(),
{
}

/// `CommandCategory::ALL` lists every category at its index.
pub proof fn lemma_category_all_index(c: CommandCategory)
    ensures
        0 <= c.index() < CATEGORY_COUNT,
        CommandCategory::ALL@[c.index()] == c,
        forall|i: int| 0 <= i < CATEGORY_COUNT ==> (#[trigger] CommandCategory::ALL@[i]).index() == i,
{
}

/// Whether `commands` holds `command`.
pub fn contains_command(commands: &Vec<Command>, command: Command) -> (found: bool)
    ensures
        found == commands@.contains(command),
{
    let mut i: usize = 0;
    while i < commands.len()
        invariant
            i <= commands@.len(),
            forall|k: int| 0 <= k < i ==> commands@[k] != command,
        decreases commands.len() - i,
    {
        if commands[i] == command {
            return true;
        }
        i = i + 1;
    }
    false
}

/// The command whose id is `id`, if any.
pub open spec fn command_named(id: Seq<char>) -> Command {
    choose|c: Command| c.spec_id() == id
}

/// Whether `id` is the id of some command.
pub open spec fn names_command(id: Seq<char>) -> bool {
    exists|c: Command| c.spec_id() == id
}

/// A command with the id `id` is the command named by it.
pub proof fn lemma_command_named(c: Command, id: Seq<char>)
    requires
        c.spec_id() == id,
    ensures
        names_command(id),
        command_named(id) == c,
{
    let named = command_named(id);
    lemma_ids_distinct(named, c);
}

/// No two commands share an id.
pub proof fn lemma_ids_distinct(a: Command, b: Command)
    ensures
        a.spec_id() == b.spec_id() ==> a == b,
{
    if a != b {
        match a {
            Command::LeftHalf => {
                reveal_strlit("left-half");
                match b {
                    Command::LeftHalf => {},
                    Command::RightHalf => { reveal_strlit("right-half"); assert("left-half"@.len() != "right-half"@.len()); },
                    Command::CenterHalf => { reveal_strlit("center-half"); assert("left-half"@.len() != "center-half"@.len()); },
                    Command::TopHalf => { reveal_strlit("top-half"); assert("left-half"@.len() != "top-half"@.len()); },
                    Command::BottomHalf => { reveal_strlit("bottom-half"); assert("left-half"@.len() != "bottom-half"@.len()); },
                    Command::TopLeft => { reveal_strlit("top-left"); assert("left-half"@.len() != "top-left"@.len()); },
                    Command::TopRight => { reveal_strlit("top-right"); assert("left-half"@[0] != "top-right"@[0]); },
                    Command::BottomLeft => { reveal_strlit("bottom-left"); assert("left-half"@.len() != "bottom-left"@.len()); },
                    Command::BottomRight => { reveal_strlit("bottom-right"); assert("left-half"@.len() != "bottom-right"@.len()); },
                    Command::FirstThird => { reveal_strlit("first-third"); assert("left-half"@.len() != "first-third"@.len()); },
                    Command::CenterThird => { reveal_strlit("center-third"); assert("left-half"@.len() != "center-third"@.len()); },
                    Command::LastThird => { reveal_strlit("last-third"); assert("left-half"@.len() != "last-third"@.len()); },
                    Command::FirstTwoThirds => { reveal_strlit("first-two-thirds"); assert("left-half"@.len() != "first-two-thirds"@.len()); },
                    Command::CenterTwoThirds => { reveal_strlit("center-two-thirds"); assert("left-half"@.len() != "center-two-thirds"@.len()); },
                    Command::LastTwoThirds => { reveal_strlit("last-two-thirds"); assert("left-half"@.len() != "last-two-thirds"@.len()); },
                    Command::Maximize => { reveal_strlit("maximize"); assert("left-half"@.len() != "maximize"@.len()); },
                    Command::AlmostMaximize => { reveal_strlit("almost-maximize"); assert("left-half"@.len() != "almost-maximize"@.len()); },
                    Command::MaximizeHeight => { reveal_strlit("maximize-height"); assert("left-half"@.len() != "maximize-height"@.len()); },
                    Command::Center => { reveal_strlit("center"); assert("left-half"@.len() != "center"@.len()); },
                    Command::Restore => { reveal_strlit("restore"); assert("left-half"@.len() != "restore"@.len()); },
                    Command::MoveLeft => { reveal_strlit("move-left"); assert("left-half"@[0] != "move-left"@[0]); },
                    Command::MoveRight => { reveal_strlit("move-right"); assert("left-half"@.len() != "move-right"@.len()); },
                    Command::MoveUp => { reveal_strlit("move-up"); assert("left-half"@.len() != "move-up"@.len()); },
                    Command::MoveDown => { reveal_strlit("move-down"); assert("left-half"@[0] != "move-down"@[0]); },
                    Command::Grow => { reveal_strlit("grow"); assert("left-half"@.len() != "grow"@.len()); },
                    Command::Shrink => { reveal_strlit("shrink"); assert("left-half"@.len() != "shrink"@.len()); },
                }
            },
            Command::RightHalf => {
                reveal_strlit("right-half");
                match b {
                    Command::LeftHalf => { reveal_strlit("left-half"); assert("right-half"@.len() != "left-half"@.len()); },
                    Command::RightHalf => {},
                    Command::CenterHalf => { reveal_strlit("center-half"); assert("right-half"@.len() != "center-half"@.len()); },
                    Command::TopHalf => { reveal_strlit("top-half"); assert("right-half"@.len() != "top-half"@.len()); },
                    Command::BottomHalf => { reveal_strlit("bottom-half"); assert("right-half"@.len() != "bottom-half"@.len()); },
                    Command::TopLeft => { reveal_strlit("top-left"); assert("right-half"@.len() != "top-left"@.len()); },
                    Command::TopRight => { reveal_strlit("top-right"); assert("right-half"@.len() != "top-right"@.len()); },
                    Command::BottomLeft => { reveal_strlit("bottom-left"); assert("right-half"@.len() != "bottom-left"@.len()); },
                    Command::BottomRight => { reveal_strlit("bottom-right"); assert("right-half"@.len() != "bottom-right"@.len()); },
                    Command::FirstThird => { reveal_strlit("first-third"); assert("right-half"@.len() != "first-third"@.len()); },
                    Command::CenterThird => { reveal_strlit("center-third"); assert("right-half"@.len() != "center-third"@.len()); },
                    Command::LastThird => { reveal_strlit("last-third"); assert("right-half"@[0] != "last-third"@[0]); },
                    Command::FirstTwoThirds => { reveal_strlit("first-two-thirds"); assert("right-half"@.len() != "first-two-thirds"@.len()); },
                    Command::CenterTwoThirds => { reveal_strlit("center-two-thirds"); assert("right-half"@.len() != "center-two-thirds"@.len()); },
                    Command::LastTwoThirds => { reveal_strlit("last-two-thirds"); assert("right-half"@.len() != "last-two-thirds"@.len()); },
                    Command::Maximize => { reveal_strlit("maximize"); assert("right-half"@.len() != "maximize"@.len()); },
                    Command::AlmostMaximize => { reveal_strlit("almost-maximize"); assert("right-half"@.len() != "almost-maximize"@.len()); },
                    Command::MaximizeHeight => { reveal_strlit("maximize-height"); assert("right-half"@.len() != "maximize-height"@.len()); },
                    Command::Center => { reveal_strlit("center"); assert("right-half"@.len() != "center"@.len()); },
                    Command::Restore => { reveal_strlit("restore"); assert("right-half"@.len() != "restore"@.len()); },
                    Command::MoveLeft => { reveal_strlit("move-left"); assert("right-half"@.len() != "move-left"@.len()); },
                    Command::MoveRight => { reveal_strlit("move-right"); assert("right-half"@[0] != "move-right"@[0]); },
                    Command::MoveUp => { reveal_strlit("move-up"); assert("right-half"@.len() != "move-up"@.len()); },
                    Command::MoveDown => { reveal_strlit("move-down"); assert("right-half"@.len() != "move-down"@.len()); },
                    Command::Grow => { reveal_strlit("grow"); assert("right-half"@.len() != "grow"@.len()); },
                    Command::Shrink => { reveal_strlit("shrink"); assert("right-half"@.len() != "shrink"@.len()); },
                }
            },
            Command::CenterHalf => {
                reveal_strlit("center-half");
                match b {
                    Command::LeftHalf => { reveal_strlit("left-half"); assert("center-half"@.len() != "left-half"@.len()); },
                    Command::RightHalf => { reveal_strlit("right-half"); assert("center-half"@.len() != "right-half"@.len()); },
                    Command::CenterHalf => {},
                    Command::TopHalf => { reveal_strlit("top-half"); assert("center-half"@.len() != "top-half"@.len()); },
                    Command::BottomHalf => { reveal_strlit("bottom-half"); assert("center-half"@[0] != "bottom-half"@[0]); },
                    Command::TopLeft => { reveal_strlit("top-left"); assert("center-half"@.len() != "top-left"@.len()); },
                    Command::TopRight => { reveal_strlit("top-right"); assert("center-half"@.len() != "top-right"@.len()); },
                    Command::BottomLeft => { reveal_strlit("bottom-left"); assert("center-half"@[0] != "bottom-left"@[0]); },
                    Command::BottomRight => { reveal_strlit("bottom-right"); assert("center-half"@.len() != "bottom-right"@.len()); },
                    Command::FirstThird => { reveal_strlit("first-third"); assert("center-half"@[0] != "first-third"@[0]); },
                    Command::CenterThird => { reveal_strlit("center-third"); assert("center-half"@.len() != "center-third"@.len()); },
                    Command::LastThird => { reveal_strlit("last-third"); assert("center-half"@.len() != "last-third"@.len()); },
                    Command::FirstTwoThirds => { reveal_strlit("first-two-thirds"); assert("center-half"@.len() != "first-two-thirds"@.len()); },
                    Command::CenterTwoThirds => { reveal_strlit("center-two-thirds"); assert("center-half"@.len() != "center-two-thirds"@.len()); },
                    Command::LastTwoThirds => { reveal_strlit("last-two-thirds"); assert("center-half"@.len() != "last-two-thirds"@.len()); },
                    Command::Maximize => { reveal_strlit("maximize"); assert("center-half"@.len() != "maximize"@.len()); },
                    Command::AlmostMaximize => { reveal_strlit("almost-maximize"); assert("center-half"@.len() != "almost-maximize"@.len()); },
                    Command::MaximizeHeight => { reveal_strlit("maximize-height"); assert("center-half"@.len() != "maximize-height"@.len()); },
                    Command::Center => { reveal_strlit("center"); assert("center-half"@.len() != "center"@.len()); },
                    Command::Restore => { reveal_strlit("restore"); assert("center-half"@.len() != "restore"@.len()); },
                    Command::MoveLeft => { reveal_strlit("move-left"); assert("center-half"@.len() != "move-left"@.len()); },
                    Command::MoveRight => { reveal_strlit("move-right"); assert("center-half"@.len() != "move-right"@.len()); },
                    Command::MoveUp => { reveal_strlit("move-up"); assert("center-half"@.len() != "move-up"@.len()); },
                    Command::MoveDown => { reveal_strlit("move-down"); assert("center-half"@.len() != "move-down"@.len()); },
                    Command::Grow => { reveal_strlit("grow"); assert("center-half"@.len() != "grow"@.len()); },
                    Command::Shrink => { reveal_strlit("shrink"); assert("center-half"@.len() != "shrink"@.len()); },
                }
            },
            Command::TopHalf => {
                reveal_strlit("top-half");
                match b {
                    Command::LeftHalf => { reveal_strlit("left-half"); assert("top-half"@.len() != "left-half"@.len()); },
                    Command::RightHalf => { reveal_strlit("right-half"); assert("top-half"@.len() != "right-half"@.len()); },
                    Command::CenterHalf => { reveal_strlit("center-half"); assert("top-half"@.len() != "center-half"@.len()); },
                    Command::TopHalf => {},
                    Command::BottomHalf => { reveal_strlit("bottom-half"); assert("top-half"@.len() != "bottom-half"@.len()); },
                    Command::TopLeft => { reveal_strlit("top-left"); assert("top-half"@[4] != "top-left"@[4]); },
                    Command::TopRight => { reveal_strlit("top-right"); assert("top-half"@.len() != "top-right"@.len()); },
                    Command::BottomLeft => { reveal_strlit("bottom-left"); assert("top-half"@.len() != "bottom-left"@.len()); },
                    Command::BottomRight => { reveal_strlit("bottom-right"); assert("top-half"@.len() != "bottom-right"@.len()); },
                    Command::FirstThird => { reveal_strlit("first-third"); assert("top-half"@.len() != "first-third"@.len()); },
                    Command::CenterThird => { reveal_strlit("center-third"); assert("top-half"@.len() != "center-third"@.len()); },
                    Command::LastThird => { reveal_strlit("last-third"); assert("top-half"@.len() != "last-third"@.len()); },
                    Command::FirstTwoThirds => { reveal_strlit("first-two-thirds"); assert("top-half"@.len() != "first-two-thirds"@.len()); },
                    Command::CenterTwoThirds => { reveal_strlit("center-two-thirds"); assert("top-half"@.len() != "center-two-thirds"@.len()); },
                    Command::LastTwoThirds => { reveal_strlit("last-two-thirds"); assert("top-half"@.len() != "last-two-thirds"@.len()); },
                    Command::Maximize => { reveal_strlit("maximize"); assert("top-half"@[0] != "maximize"@[0]); },
                    Command::AlmostMaximize => { reveal_strlit("almost-maximize"); assert("top-half"@.len() != "almost-maximize"@.len()); },
                    Command::MaximizeHeight => { reveal_strlit("maximize-height"); assert("top-half"@.len() != "maximize-height"@.len()); },
                    Command::Center => { reveal_strlit("center"); assert("top-half"@.len() != "center"@.len()); },
                    Command::Restore => { reveal_strlit("restore"); assert("top-half"@.len() != "restore"@.len()); },
                    Command::MoveLeft => { reveal_strlit("move-left"); assert("top-half"@.len() != "move-left"@.len()); },
                    Command::MoveRight => { reveal_strlit("move-right"); assert("top-half"@.len() != "move-right"@.len()); },
                    Command::MoveUp => { reveal_strlit("move-up"); assert("top-half"@.len() != "move-up"@.len()); },
                    Command::MoveDown => { reveal_strlit("move-down"); assert("top-half"@.len() != "move-down"@.len()); },
                    Command::Grow => { reveal_strlit("grow"); assert("top-half"@.len() != "grow"@.len()); },
                    Command::Shrink => { reveal_strlit("shrink"); assert("top-half"@.len() != "shrink"@.len()); },
                }
            },
            Command::BottomHalf => {
                reveal_strlit("bottom-half");
                match b {
                    Command::LeftHalf => { reveal_strlit("left-half"); assert("bottom-half"@.len() != "left-half"@.len()); },
                    Command::RightHalf => { reveal_strlit("right-half"); assert("bottom-half"@.len() != "right-half"@.len()); },
                    Command::CenterHalf => { reveal_strlit("center-half"); assert("bottom-half"@[0] != "center-half"@[0]); },
                    Command::TopHalf => { reveal_strlit("top-half"); assert("bottom-half"@.len() != "top-half"@.len()); },
                    Command::BottomHalf => {},
                    Command::TopLeft => { reveal_strlit("top-left"); assert("bottom-half"@.len() != "top-left"@.len()); },
                    Command::TopRight => { reveal_strlit("top-right"); assert("bottom-half"@.len() != "top-right"@.len()); },
                    Command::BottomLeft => { reveal_strlit("bottom-left"); assert("bottom-half"@[7] != "bottom-left"@[7]); },
                    Command::BottomRight => { reveal_strlit("bottom-right"); assert("bottom-half"@.len() != "bottom-right"@.len()); },
                    Command::FirstThird => { reveal_strlit("first-third"); assert("bottom-half"@[0] != "first-third"@[0]); },
                    Command::CenterThird => { reveal_strlit("center-third"); assert("bottom-half"@.len() != "center-third"@.len()); },
                    Command::LastThird => { reveal_strlit("last-third"); assert("bottom-half"@.len() != "last-third"@.len()); },
                    Command::FirstTwoThirds => { reveal_strlit("first-two-thirds"); assert("bottom-half"@.len() != "first-two-thirds"@.len()); },
                    Command::CenterTwoThirds => { reveal_strlit("center-two-thirds"); assert("bottom-half"@.len() != "center-two-thirds"@.len()); },
                    Command::LastTwoThirds => { reveal_strlit("last-two-thirds"); assert("bottom-half"@.len() != "last-two-thirds"@.len()); },
                    Command::Maximize => { reveal_strlit("maximize"); assert("bottom-half"@.len() != "maximize"@.len()); },
                    Command::AlmostMaximize => { reveal_strlit("almost-maximize"); assert("bottom-half"@.len() != "almost-maximize"@.len()); },
                    Command::MaximizeHeight => { reveal_strlit("maximize-height"); assert("bottom-half"@.len() != "maximize-height"@.len()); },
                    Command::Center => { reveal_strlit("center"); assert("bottom-half"@.len() != "center"@.len()); },
                    Command::Restore => { reveal_strlit("restore"); assert("bottom-half"@.len() != "restore"@.len()); },
                    Command::MoveLeft => { reveal_strlit("move-left"); assert("bottom-half"@.len() != "move-left"@.len()); },
                    Command::MoveRight => { reveal_strlit("move-right"); assert("bottom-half"@.len() != "move-right"@.len()); },
                    Command::MoveUp => { reveal_strlit("move-up"); assert("bottom-half"@.len() != "move-up"@.len()); },
                    Command::MoveDown => { reveal_strlit("move-down"); assert("bottom-half"@.len() != "move-down"@.len()); },
                    Command::Grow => { reveal_strlit("grow"); assert("bottom-half"@.len() != "grow"@.len()); },
                    Command::Shrink => { reveal_strlit("shrink"); assert("bottom-half"@.len() != "shrink"@.len()); },
                }
            },
            Command::TopLeft => {
                reveal_strlit("top-left");
                match b {
                    Command::LeftHalf => { reveal_strlit("left-half"); assert("top-left"@.len() != "left-half"@.len()); },
                    Command::RightHalf => { reveal_strlit("right-half"); assert("top-left"@.len() != "right-half"@.len()); },
                    Command::CenterHalf => { reveal_strlit("center-half"); assert("top-left"@.len() != "center-half"@.len()); },
                    Command::TopHalf => { reveal_strlit("top-half"); assert("top-left"@[4] != "top-half"@[4]); },
                    Command::BottomHalf => { reveal_strlit("bottom-half"); assert("top-left"@.len() != "bottom-half"@.len()); },
                    Command::TopLeft => {},
                    Command::TopRight => { reveal_strlit("top-right"); assert("top-left"@.len() != "top-right"@.len()); },
                    Command::BottomLeft => { reveal_strlit("bottom-left"); assert("top-left"@.len() != "bottom-left"@.len()); },
                    Command::BottomRight => { reveal_strlit("bottom-right"); assert("top-left"@.len() != "bottom-right"@.len()); },
                    Command::FirstThird => { reveal_strlit("first-third"); assert("top-left"@.len() != "first-third"@.len()); },
                    Command::CenterThird => { reveal_strlit("center-third"); assert("top-left"@.len() != "center-third"@.len()); },
                    Command::LastThird => { reveal_strlit("last-third"); assert("top-left"@.len() != "last-third"@.len()); },
                    Command::FirstTwoThirds => { reveal_strlit("first-two-thirds"); assert("top-left"@.len() != "first-two-thirds"@.len()); },
                    Command::CenterTwoThirds => { reveal_strlit("center-two-thirds"); assert("top-left"@.len() != "center-two-thirds"@.len()); },
                    Command::LastTwoThirds => { reveal_strlit("last-two-thirds"); assert("top-left"@.len() != "last-two-thirds"@.len()); },
                    Command::Maximize => { reveal_strlit("maximize"); assert("top-left"@[0] != "maximize"@[0]); },
                    Command::AlmostMaximize => { reveal_strlit("almost-maximize"); assert("top-left"@.len() != "almost-maximize"@.len()); },
                    Command::MaximizeHeight => { reveal_strlit("maximize-height"); assert("top-left"@.len() != "maximize-height"@.len()); },
                    Command::Center => { reveal_strlit("center"); assert("top-left"@.len() != "center"@.len()); },
                    Command::Restore => { reveal_strlit("restore"); assert("top-left"@.len() != "restore"@.len()); },
                    Command::MoveLeft => { reveal_strlit("move-left"); assert("top-left"@.len() != "move-left"@.len()); },
                    Command::MoveRight => { reveal_strlit("move-right"); assert("top-left"@.len() != "move-right"@.len()); },
                    Command::MoveUp => { reveal_strlit("move-up"); assert("top-left"@.len() != "move-up"@.len()); },
                    Command::MoveDown => { reveal_strlit("move-down"); assert("top-left"@.len() != "move-down"@.len()); },
                    Command::Grow => { reveal_strlit("grow"); assert("top-left"@.len() != "grow"@.len()); },
                    Command::Shrink => { reveal_strlit("shrink"); assert("top-left"@.len() != "shrink"@.len()); },
                }
            },
            Command::TopRight => {
                reveal_strlit("top-right");
                match b {
                    Command::LeftHalf => { reveal_strlit("left-half"); assert("top-right"@[0] != "left-half"@[0]); },
                    Command::RightHalf => { reveal_strlit("right-half"); assert("top-right"@.len() != "right-half"@.len()); },
                    Command::CenterHalf => { reveal_strlit("center-half"); assert("top-right"@.len() != "center-half"@.len()); },
                    Command::TopHalf => { reveal_strlit("top-half"); assert("top-right"@.len() != "top-half"@.len()); },
                    Command::BottomHalf => { reveal_strlit("bottom-half"); assert("top-right"@.len() != "bottom-half"@.len()); },
                    Command::TopLeft => { reveal_strlit("top-left"); assert("top-right"@.len() != "top-left"@.len()); },
                    Command::TopRight => {},
                    Command::BottomLeft => { reveal_strlit("bottom-left"); assert("top-right"@.len() != "bottom-left"@.len()); },
                    Command::BottomRight => { reveal_strlit("bottom-right"); assert("top-right"@.len() != "bottom-right"@.len()); },
                    Command::FirstThird => { reveal_strlit("first-third"); assert("top-right"@.len() != "first-third"@.len()); },
                    Command::CenterThird => { reveal_strlit("center-third"); assert("top-right"@.len() != "center-third"@.len()); },
                    Command::LastThird => { reveal_strlit("last-third"); assert("top-right"@.len() != "last-third"@.len()); },
                    Command::FirstTwoThirds => { reveal_strlit("first-two-thirds"); assert("top-right"@.len() != "first-two-thirds"@.len()); },
                    Command::CenterTwoThirds => { reveal_strlit("center-two-thirds"); assert("top-right"@.len() != "center-two-thirds"@.len()); },
                    Command::LastTwoThirds => { reveal_strlit("last-two-thirds"); assert("top-right"@.len() != "last-two-thirds"@.len()); },
                    Command::Maximize => { reveal_strlit("maximize"); assert("top-right"@.len() != "maximize"@.len()); },
                    Command::AlmostMaximize => { reveal_strlit("almost-maximize"); assert("top-right"@.len() != "almost-maximize"@.len()); },
                    Command::MaximizeHeight => { reveal_strlit("maximize-height"); assert("top-right"@.len() != "maximize-height"@.len()); },
                    Command::Center => { reveal_strlit("center"); assert("top-right"@.len() != "center"@.len()); },
                    Command::Restore => { reveal_strlit("restore"); assert("top-right"@.len() != "restore"@.len()); },
                    Command::MoveLeft => { reveal_strlit("move-left"); assert("top-right"@[0] != "move-left"@[0]); },
                    Command::MoveRight => { reveal_strlit("move-right"); assert("top-right"@.len() != "move-right"@.len()); },
                    Command::MoveUp => { reveal_strlit("move-up"); assert("top-right"@.len() != "move-up"@.len()); },
                    Command::MoveDown => { reveal_strlit("move-down"); assert("top-right"@[0] != "move-down"@[0]); },
                    Command::Grow => { reveal_strlit("grow"); assert("top-right"@.len() != "grow"@.len()); },
                    Command::Shrink => { reveal_strlit("shrink"); assert("top-right"@.len() != "shrink"@.len()); },
                }
            },
            Command::BottomLeft => {
                reveal_strlit("bottom-left");
                match b {
                    Command::LeftHalf => { reveal_strlit("left-half"); assert("bottom-left"@.len() != "left-half"@.len()); },
                    Command::RightHalf => { reveal_strlit("right-half"); assert("bottom-left"@.len() != "right-half"@.len()); },
                    Command::CenterHalf => { reveal_strlit("center-half"); assert("bottom-left"@[0] != "center-half"@[0]); },
                    Command::TopHalf => { reveal_strlit("top-half"); assert("bottom-left"@.len() != "top-half"@.len()); },
                    Command::BottomHalf => { reveal_strlit("bottom-half"); assert("bottom-left"@[7] != "bottom-half"@[7]); },
                    Command::TopLeft => { reveal_strlit("top-left"); assert("bottom-left"@.len() != "top-left"@.len()); },
                    Command::TopRight => { reveal_strlit("top-right"); assert("bottom-left"@.len() != "top-right"@.len()); },
                    Command::BottomLeft => {},
                    Command::BottomRight => { reveal_strlit("bottom-right"); assert("bottom-left"@.len() != "bottom-right"@.len()); },
                    Command::FirstThird => { reveal_strlit("first-third"); assert("bottom-left"@[0] != "first-third"@[0]); },
                    Command::CenterThird => { reveal_strlit("center-third"); assert("bottom-left"@.len() != "center-third"@.len()); },
                    Command::LastThird => { reveal_strlit("last-third"); assert("bottom-left"@.len() != "last-third"@.len()); },
                    Command::FirstTwoThirds => { reveal_strlit("first-two-thirds"); assert("bottom-left"@.len() != "first-two-thirds"@.len()); },
                    Command::CenterTwoThirds => { reveal_strlit("center-two-thirds"); assert("bottom-left"@.len() != "center-two-thirds"@.len()); },
                    Command::LastTwoThirds => { reveal_strlit("last-two-thirds"); assert("bottom-left"@.len() != "last-two-thirds"@.len()); },
                    Command::Maximize => { reveal_strlit("maximize"); assert("bottom-left"@.len() != "maximize"@.len()); },
                    Command::AlmostMaximize => { reveal_strlit("almost-maximize"); assert("bottom-left"@.len() != "almost-maximize"@.len()); },
                    Command::MaximizeHeight => { reveal_strlit("maximize-height"); assert("bottom-left"@.len() != "maximize-height"@.len()); },
                    Command::Center => { reveal_strlit("center"); assert("bottom-left"@.len() != "center"@.len()); },
                    Command::Restore => { reveal_strlit("restore"); assert("bottom-left"@.len() != "restore"@.len()); },
                    Command::MoveLeft => { reveal_strlit("move-left"); assert("bottom-left"@.len() != "move-left"@.len()); },
                    Command::MoveRight => { reveal_strlit("move-right"); assert("bottom-left"@.len() != "move-right"@.len()); },
                    Command::MoveUp => { reveal_strlit("move-up"); assert("bottom-left"@.len() != "move-up"@.len()); },
                    Command::MoveDown => { reveal_strlit("move-down"); assert("bottom-left"@.len() != "move-down"@.len()); },
                    Command::Grow => { reveal_strlit("grow"); assert("bottom-left"@.len() != "grow"@.len()); },
                    Command::Shrink => { reveal_strlit("shrink"); assert("bottom-left"@.len() != "shrink"@.len()); },
                }
            },
            Command::BottomRight => {
                reveal_strlit("bottom-right");
                match b {
                    Command::LeftHalf => { reveal_strlit("left-half"); assert("bottom-right"@.len() != "left-half"@.len()); },
                    Command::RightHalf => { reveal_strlit("right-half"); assert("bottom-right"@.len() != "right-half"@.len()); },
                    Command::CenterHalf => { reveal_strlit("center-half"); assert("bottom-right"@.len() != "center-half"@.len()); },
                    Command::TopHalf => { reveal_strlit("top-half"); assert("bottom-right"@.len() != "top-half"@.len()); },
                    Command::BottomHalf => { reveal_strlit("bottom-half"); assert("bottom-right"@.len() != "bottom-half"@.len()); },
                    Command::TopLeft => { reveal_strlit("top-left"); assert("bottom-right"@.len() != "top-left"@.len()); },
                    Command::TopRight => { reveal_strlit("top-right"); assert("bottom-right"@.len() != "top-right"@.len()); },
                    Command::BottomLeft => { reveal_strlit("bottom-left"); assert("bottom-right"@.len() != "bottom-left"@.len()); },
                    Command::BottomRight => {},
                    Command::FirstThird => { reveal_strlit("first-third"); assert("bottom-right"@.len() != "first-third"@.len()); },
                    Command::CenterThird => { reveal_strlit("center-third"); assert("bottom-right"@[0] != "center-third"@[0]); },
                    Command::LastThird => { reveal_strlit("last-third"); assert("bottom-right"@.len() != "last-third"@.len()); },
                    Command::FirstTwoThirds => { reveal_strlit("first-two-thirds"); assert("bottom-right"@.len() != "first-two-thirds"@.len()); },
                    Command::CenterTwoThirds => { reveal_strlit("center-two-thirds"); assert("bottom-right"@.len() != "center-two-thirds"@.len()); },
                    Command::LastTwoThirds => { reveal_strlit("last-two-thirds"); assert("bottom-right"@.len() != "last-two-thirds"@.len()); },
                    Command::Maximize => { reveal_strlit("maximize"); assert("bottom-right"@.len() != "maximize"@.len()); },
                    Command::AlmostMaximize => { reveal_strlit("almost-maximize"); assert("bottom-right"@.len() != "almost-maximize"@.len()); },
                    Command::MaximizeHeight => { reveal_strlit("maximize-height"); assert("bottom-right"@.len() != "maximize-height"@.len()); },
                    Command::Center => { reveal_strlit("center"); assert("bottom-right"@.len() != "center"@.len()); },
                    Command::Restore => { reveal_strlit("restore"); assert("bottom-right"@.len() != "restore"@.len()); },
                    Command::MoveLeft => { reveal_strlit("move-left"); assert("bottom-right"@.len() != "move-left"@.len()); },
                    Command::MoveRight => { reveal_strlit("move-right"); assert("bottom-right"@.len() != "move-right"@.len()); },
                    Command::MoveUp => { reveal_strlit("move-up"); assert("bottom-right"@.len() != "move-up"@.len()); },
                    Command::MoveDown => { reveal_strlit("move-down"); assert("bottom-right"@.len() != "move-down"@.len()); },
                    Command::Grow => { reveal_strlit("grow"); assert("bottom-right"@.len() != "grow"@.len()); },
                    Command::Shrink => { reveal_strlit("shrink"); assert("bottom-right"@.len() != "shrink"@.len()); },
                }
            },
            Command::FirstThird => {
                reveal_strlit("first-third");
                match b {
                    Command::LeftHalf => { reveal_strlit("left-half"); assert("first-third"@.len() != "left-half"@.len()); },
                    Command::RightHalf => { reveal_strlit("right-half"); assert("first-third"@.len() != "right-half"@.len()); },
                    Command::CenterHalf => { reveal_strlit("center-half"); assert("first-third"@[0] != "center-half"@[0]); },
                    Command::TopHalf => { reveal_strlit("top-half"); assert("first-third"@.len() != "top-half"@.len()); },
                    Command::BottomHalf => { reveal_strlit("bottom-half"); assert("first-third"@[0] != "bottom-half"@[0]); },
                    Command::TopLeft => { reveal_strlit("top-left"); assert("first-third"@.len() != "top-left"@.len()); },
                    Command::TopRight => { reveal_strlit("top-right"); assert("first-third"@.len() != "top-right"@.len()); },
                    Command::BottomLeft => { reveal_strlit("bottom-left"); assert("first-third"@[0] != "bottom-left"@[0]); },
                    Command::BottomRight => { reveal_strlit("bottom-right"); assert("first-third"@.len() != "bottom-right"@.len()); },
                    Command::FirstThird => {},
                    Command::CenterThird => { reveal_strlit("center-third"); assert("first-third"@.len() != "center-third"@.len()); },
                    Command::LastThird => { reveal_strlit("last-third"); assert("first-third"@.len() != "last-third"@.len()); },
                    Command::FirstTwoThirds => { reveal_strlit("first-two-thirds"); assert("first-third"@.len() != "first-two-thirds"@.len()); },
                    Command::CenterTwoThirds => { reveal_strlit("center-two-thirds"); assert("first-third"@.len() != "center-two-thirds"@.len()); },
                    Command::LastTwoThirds => { reveal_strlit("last-two-thirds"); assert("first-third"@.len() != "last-two-thirds"@.len()); },
                    Command::Maximize => { reveal_strlit("maximize"); assert("first-third"@.len() != "maximize"@.len()); },
                    Command::AlmostMaximize => { reveal_strlit("almost-maximize"); assert("first-third"@.len() != "almost-maximize"@.len()); },
                    Command::MaximizeHeight => { reveal_strlit("maximize-height"); assert("first-third"@.len() != "maximize-height"@.len()); },
                    Command::Center => { reveal_strlit("center"); assert("first-third"@.len() != "center"@.len()); },
                    Command::Restore => { reveal_strlit("restore"); assert("first-third"@.len() != "restore"@.len()); },
                    Command::MoveLeft => { reveal_strlit("move-left"); assert("first-third"@.len() != "move-left"@.len()); },
                    Command::MoveRight => { reveal_strlit("move-right"); assert("first-third"@.len() != "move-right"@.len()); },
                    Command::MoveUp => { reveal_strlit("move-up"); assert("first-third"@.len() != "move-up"@.len()); },
                    Command::MoveDown => { reveal_strlit("move-down"); assert("first-third"@.len() != "move-down"@.len()); },
                    Command::Grow => { reveal_strlit("grow"); assert("first-third"@.len() != "grow"@.len()); },
                    Command::Shrink => { reveal_strlit("shrink"); assert("first-third"@.len() != "shrink"@.len()); },
                }
            },
            Command::CenterThird => {
                reveal_strlit("center-third");
                match b {
                    Command::LeftHalf => { reveal_strlit("left-half"); assert("center-third"@.len() != "left-half"@.len()); },
                    Command::RightHalf => { reveal_strlit("right-half"); assert("center-third"@.len() != "right-half"@.len()); },
                    Command::CenterHalf => { reveal_strlit("center-half"); assert("center-third"@.len() != "center-half"@.len()); },
                    Command::TopHalf => { reveal_strlit("top-half"); assert("center-third"@.len() != "top-half"@.len()); },
                    Command::BottomHalf => { reveal_strlit("bottom-half"); assert("center-third"@.len() != "bottom-half"@.len()); },
                    Command::TopLeft => { reveal_strlit("top-left"); assert("center-third"@.len() != "top-left"@.len()); },
                    Command::TopRight => { reveal_strlit("top-right"); assert("center-third"@.len() != "top-right"@.len()); },
                    Command::BottomLeft => { reveal_strlit("bottom-left"); assert("center-third"@.len() != "bottom-left"@.len()); },
                    Command::BottomRight => { reveal_strlit("bottom-right"); assert("center-third"@[0] != "bottom-right"@[0]); },
                    Command::FirstThird => { reveal_strlit("first-third"); assert("center-third"@.len() != "first-third"@.len()); },
                    Command::CenterThird => {},
                    Command::LastThird => { reveal_strlit("last-third"); assert("center-third"@.len() != "last-third"@.len()); },
                    Command::FirstTwoThirds => { reveal_strlit("first-two-thirds"); assert("center-third"@.len() != "first-two-thirds"@.len()); },
                    Command::CenterTwoThirds => { reveal_strlit("center-two-thirds"); assert("center-third"@.len() != "center-two-thirds"@.len()); },
                    Command::LastTwoThirds => { reveal_strlit("last-two-thirds"); assert("center-third"@.len() != "last-two-thirds"@.len()); },
                    Command::Maximize => { reveal_strlit("maximize"); assert("center-third"@.len() != "maximize"@.len()); },
                    Command::AlmostMaximize => { reveal_strlit("almost-maximize"); assert("center-third"@.len() != "almost-maximize"@.len()); },
                    Command::MaximizeHeight => { reveal_strlit("maximize-height"); assert("center-third"@.len() != "maximize-height"@.len()); },
                    Command::Center => { reveal_strlit("center"); assert("center-third"@.len() != "center"@.len()); },
                    Command::Restore => { reveal_strlit("restore"); assert("center-third"@.len() != "restore"@.len()); },
                    Command::MoveLeft => { reveal_strlit("move-left"); assert("center-third"@.len() != "move-left"@.len()); },
                    Command::MoveRight => { reveal_strlit("move-right"); assert("center-third"@.len() != "move-right"@.len()); },
                    Command::MoveUp => { reveal_strlit("move-up"); assert("center-third"@.len() != "move-up"@.len()); },
                    Command::MoveDown => { reveal_strlit("move-down"); assert("center-third"@.len() != "move-down"@.len()); },
                    Command::Grow => { reveal_strlit("grow"); assert("center-third"@.len() != "grow"@.len()); },
                    Command::Shrink => { reveal_strlit("shrink"); assert("center-third"@.len() != "shrink"@.len()); },
                }
            },
            Command::LastThird => {
                reveal_strlit("last-third");
                match b {
                    Command::LeftHalf => { reveal_strlit("left-half"); assert("last-third"@.len() != "left-half"@.len()); },
                    Command::RightHalf => { reveal_strlit("right-half"); assert("last-third"@[0] != "right-half"@[0]); },
                    Command::CenterHalf => { reveal_strlit("center-half"); assert("last-third"@.len() != "center-half"@.len()); },
                    Command::TopHalf => { reveal_strlit("top-half"); assert("last-third"@.len() != "top-half"@.len()); },
                    Command::BottomHalf => { reveal_strlit("bottom-half"); assert("last-third"@.len() != "bottom-half"@.len()); },
                    Command::TopLeft => { reveal_strlit("top-left"); assert("last-third"@.len() != "top-left"@.len()); },
                    Command::TopRight => { reveal_strlit("top-right"); assert("last-third"@.len() != "top-right"@.len()); },
                    Command::BottomLeft => { reveal_strlit("bottom-left"); assert("last-third"@.len() != "bottom-left"@.len()); },
                    Command::BottomRight => { reveal_strlit("bottom-right"); assert("last-third"@.len() != "bottom-right"@.len()); },
                    Command::FirstThird => { reveal_strlit("first-third"); assert("last-third"@.len() != "first-third"@.len()); },
                    Command::CenterThird => { reveal_strlit("center-third"); assert("last-third"@.len() != "center-third"@.len()); },
                    Command::LastThird => {},
                    Command::FirstTwoThirds => { reveal_strlit("first-two-thirds"); assert("last-third"@.len() != "first-two-thirds"@.len()); },
                    Command::CenterTwoThirds => { reveal_strlit("center-two-thirds"); assert("last-third"@.len() != "center-two-thirds"@.len()); },
                    Command::LastTwoThirds => { reveal_strlit("last-two-thirds"); assert("last-third"@.len() != "last-two-thirds"@.len()); },
                    Command::Maximize => { reveal_strlit("maximize"); assert("last-third"@.len() != "maximize"@.len()); },
                    Command::AlmostMaximize => { reveal_strlit("almost-maximize"); assert("last-third"@.len() != "almost-maximize"@.len()); },
                    Command::MaximizeHeight => { reveal_strlit("maximize-height"); assert("last-third"@.len() != "maximize-height"@.len()); },
                    Command::Center => { reveal_strlit("center"); assert("last-third"@.len() != "center"@.len()); },
                    Command::Restore => { reveal_strlit("restore"); assert("last-third"@.len() != "restore"@.len()); },
                    Command::MoveLeft => { reveal_strlit("move-left"); assert("last-third"@.len() != "move-left"@.len()); },
                    Command::MoveRight => { reveal_strlit("move-right"); assert("last-third"@[0] != "move-right"@[0]); },
                    Command::MoveUp => { reveal_strlit("move-up"); assert("last-third"@.len() != "move-up"@.len()); },
                    Command::MoveDown => { reveal_strlit("move-down"); assert("last-third"@.len() != "move-down"@.len()); },
                    Command::Grow => { reveal_strlit("grow"); assert("last-third"@.len() != "grow"@.len()); },
                    Command::Shrink => { reveal_strlit("shrink"); assert("last-third"@.len() != "shrink"@.len()); },
                }
            },
            Command::FirstTwoThirds => {
                reveal_strlit("first-two-thirds");
                match b {
                    Command::LeftHalf => { reveal_strlit("left-half"); assert("first-two-thirds"@.len() != "left-half"@.len()); },
                    Command::RightHalf => { reveal_strlit("right-half"); assert("first-two-thirds"@.len() != "right-half"@.len()); },
                    Command::CenterHalf => { reveal_strlit("center-half"); assert("first-two-thirds"@.len() != "center-half"@.len()); },
                    Command::TopHalf => { reveal_strlit("top-half"); assert("first-two-thirds"@.len() != "top-half"@.len()); },
                    Command::BottomHalf => { reveal_strlit("bottom-half"); assert("first-two-thirds"@.len() != "bottom-half"@.len()); },
                    Command::TopLeft => { reveal_strlit("top-left"); assert("first-two-thirds"@.len() != "top-left"@.len()); },
                    Command::TopRight => { reveal_strlit("top-right"); assert("first-two-thirds"@.len() != "top-right"@.len()); },
                    Command::BottomLeft => { reveal_strlit("bottom-left"); assert("first-two-thirds"@.len() != "bottom-left"@.len()); },
                    Command::BottomRight => { reveal_strlit("bottom-right"); assert("first-two-thirds"@.len() != "bottom-right"@.len()); },
                    Command::FirstThird => { reveal_strlit("first-third"); assert("first-two-thirds"@.len() != "first-third"@.len()); },
                    Command::CenterThird => { reveal_strlit("center-third"); assert("first-two-thirds"@.len() != "center-third"@.len()); },
                    Command::LastThird => { reveal_strlit("last-third"); assert("first-two-thirds"@.len() != "last-third"@.len()); },
                    Command::FirstTwoThirds => {},
                    Command::CenterTwoThirds => { reveal_strlit("center-two-thirds"); assert("first-two-thirds"@.len() != "center-two-thirds"@.len()); },
                    Command::LastTwoThirds => { reveal_strlit("last-two-thirds"); assert("first-two-thirds"@.len() != "last-two-thirds"@.len()); },
                    Command::Maximize => { reveal_strlit("maximize"); assert("first-two-thirds"@.len() != "maximize"@.len()); },
                    Command::AlmostMaximize => { reveal_strlit("almost-maximize"); assert("first-two-thirds"@.len() != "almost-maximize"@.len()); },
                    Command::MaximizeHeight => { reveal_strlit("maximize-height"); assert("first-two-thirds"@.len() != "maximize-height"@.len()); },
                    Command::Center => { reveal_strlit("center"); assert("first-two-thirds"@.len() != "center"@.len()); },
                    Command::Restore => { reveal_strlit("restore"); assert("first-two-thirds"@.len() != "restore"@.len()); },
                    Command::MoveLeft => { reveal_strlit("move-left"); assert("first-two-thirds"@.len() != "move-left"@.len()); },
                    Command::MoveRight => { reveal_strlit("move-right"); assert("first-two-thirds"@.len() != "move-right"@.len()); },
                    Command::MoveUp => { reveal_strlit("move-up"); assert("first-two-thirds"@.len() != "move-up"@.len()); },
                    Command::MoveDown => { reveal_strlit("move-down"); assert("first-two-thirds"@.len() != "move-down"@.len()); },
                    Command::Grow => { reveal_strlit("grow"); assert("first-two-thirds"@.len() != "grow"@.len()); },
                    Command::Shrink => { reveal_strlit("shrink"); assert("first-two-thirds"@.len() != "shrink"@.len()); },
                }
            },
            Command::CenterTwoThirds => {
                reveal_strlit("center-two-thirds");
                match b {
                    Command::LeftHalf => { reveal_strlit("left-half"); assert("center-two-thirds"@.len() != "left-half"@.len()); },
                    Command::RightHalf => { reveal_strlit("right-half"); assert("center-two-thirds"@.len() != "right-half"@.len()); },
                    Command::CenterHalf => { reveal_strlit("center-half"); assert("center-two-thirds"@.len() != "center-half"@.len()); },
                    Command::TopHalf => { reveal_strlit("top-half"); assert("center-two-thirds"@.len() != "top-half"@.len()); },
                    Command::BottomHalf => { reveal_strlit("bottom-half"); assert("center-two-thirds"@.len() != "bottom-half"@.len()); },
                    Command::TopLeft => { reveal_strlit("top-left"); assert("center-two-thirds"@.len() != "top-left"@.len()); },
                    Command::TopRight => { reveal_strlit("top-right"); assert("center-two-thirds"@.len() != "top-right"@.len()); },
                    Command::BottomLeft => { reveal_strlit("bottom-left"); assert("center-two-thirds"@.len() != "bottom-left"@.len()); },
                    Command::BottomRight => { reveal_strlit("bottom-right"); assert("center-two-thirds"@.len() != "bottom-right"@.len()); },
                    Command::FirstThird => { reveal_strlit("first-third"); assert("center-two-thirds"@.len() != "first-third"@.len()); },
                    Command::CenterThird => { reveal_strlit("center-third"); assert("center-two-thirds"@.len() != "center-third"@.len()); },
                    Command::LastThird => { reveal_strlit("last-third"); assert("center-two-thirds"@.len() != "last-third"@.len()); },
                    Command::FirstTwoThirds => { reveal_strlit("first-two-thirds"); assert("center-two-thirds"@.len() != "first-two-thirds"@.len()); },
                    Command::CenterTwoThirds => {},
                    Command::LastTwoThirds => { reveal_strlit("last-two-thirds"); assert("center-two-thirds"@.len() != "last-two-thirds"@.len()); },
                    Command::Maximize => { reveal_strlit("maximize"); assert("center-two-thirds"@.len() != "maximize"@.len()); },
                    Command::AlmostMaximize => { reveal_strlit("almost-maximize"); assert("center-two-thirds"@.len() != "almost-maximize"@.len()); },
                    Command::MaximizeHeight => { reveal_strlit("maximize-height"); assert("center-two-thirds"@.len() != "maximize-height"@.len()); },
                    Command::Center => { reveal_strlit("center"); assert("center-two-thirds"@.len() != "center"@.len()); },
                    Command::Restore => { reveal_strlit("restore"); assert("center-two-thirds"@.len() != "restore"@.len()); },
                    Command::MoveLeft => { reveal_strlit("move-left"); assert("center-two-thirds"@.len() != "move-left"@.len()); },
                    Command::MoveRight => { reveal_strlit("move-right"); assert("center-two-thirds"@.len() != "move-right"@.len()); },
                    Command::MoveUp => { reveal_strlit("move-up"); assert("center-two-thirds"@.len() != "move-up"@.len()); },
                    Command::MoveDown => { reveal_strlit("move-down"); assert("center-two-thirds"@.len() != "move-down"@.len()); },
                    Command::Grow => { reveal_strlit("grow"); assert("center-two-thirds"@.len() != "grow"@.len()); },
                    Command::Shrink => { reveal_strlit("shrink"); assert("center-two-thirds"@.len() != "shrink"@.len()); },
                }
            },
            Command::LastTwoThirds => {
                reveal_strlit("last-two-thirds");
                match b {
                    Command::LeftHalf => { reveal_strlit("left-half"); assert("last-two-thirds"@.len() != "left-half"@.len()); },
                    Command::RightHalf => { reveal_strlit("right-half"); assert("last-two-thirds"@.len() != "right-half"@.len()); },
                    Command::CenterHalf => { reveal_strlit("center-half"); assert("last-two-thirds"@.len() != "center-half"@.len()); },
                    Command::TopHalf => { reveal_strlit("top-half"); assert("last-two-thirds"@.len() != "top-half"@.len()); },
                    Command::BottomHalf => { reveal_strlit("bottom-half"); assert("last-two-thirds"@.len() != "bottom-half"@.len()); },
                    Command::TopLeft => { reveal_strlit("top-left"); assert("last-two-thirds"@.len() != "top-left"@.len()); },
                    Command::TopRight => { reveal_strlit("top-right"); assert("last-two-thirds"@.len() != "top-right"@.len()); },
                    Command::BottomLeft => { reveal_strlit("bottom-left"); assert("last-two-thirds"@.len() != "bottom-left"@.len()); },
                    Command::BottomRight => { reveal_strlit("bottom-right"); assert("last-two-thirds"@.len() != "bottom-right"@.len()); },
                    Command::FirstThird => { reveal_strlit("first-third"); assert("last-two-thirds"@.len() != "first-third"@.len()); },
                    Command::CenterThird => { reveal_strlit("center-third"); assert("last-two-thirds"@.len() != "center-third"@.len()); },
                    Command::LastThird => { reveal_strlit("last-third"); assert("last-two-thirds"@.len() != "last-third"@.len()); },
                    Command::FirstTwoThirds => { reveal_strlit("first-two-thirds"); assert("last-two-thirds"@.len() != "first-two-thirds"@.len()); },
                    Command::CenterTwoThirds => { reveal_strlit("center-two-thirds"); assert("last-two-thirds"@.len() != "center-two-thirds"@.len()); },
                    Command::LastTwoThirds => {},
                    Command::Maximize => { reveal_strlit("maximize"); assert("last-two-thirds"@.len() != "maximize"@.len()); },
                    Command::AlmostMaximize => { reveal_strlit("almost-maximize"); assert("last-two-thirds"@[0] != "almost-maximize"@[0]); },
                    Command::MaximizeHeight => { reveal_strlit("maximize-height"); assert("last-two-thirds"@[0] != "maximize-height"@[0]); },
                    Command::Center => { reveal_strlit("center"); assert("last-two-thirds"@.len() != "center"@.len()); },
                    Command::Restore => { reveal_strlit("restore"); assert("last-two-thirds"@.len() != "restore"@.len()); },
                    Command::MoveLeft => { reveal_strlit("move-left"); assert("last-two-thirds"@.len() != "move-left"@.len()); },
                    Command::MoveRight => { reveal_strlit("move-right"); assert("last-two-thirds"@.len() != "move-right"@.len()); },
                    Command::MoveUp => { reveal_strlit("move-up"); assert("last-two-thirds"@.len() != "move-up"@.len()); },
                    Command::MoveDown => { reveal_strlit("move-down"); assert("last-two-thirds"@.len() != "move-down"@.len()); },
                    Command::Grow => { reveal_strlit("grow"); assert("last-two-thirds"@.len() != "grow"@.len()); },
                    Command::Shrink => { reveal_strlit("shrink"); assert("last-two-thirds"@.len() != "shrink"@.len()); },
                }
            },
            Command::Maximize => {
                reveal_strlit("maximize");
                match b {
                    Command::LeftHalf => { reveal_strlit("left-half"); assert("maximize"@.len() != "left-half"@.len()); },
                    Command::RightHalf => { reveal_strlit("right-half"); assert("maximize"@.len() != "right-half"@.len()); },
                    Command::CenterHalf => { reveal_strlit("center-half"); assert("maximize"@.len() != "center-half"@.len()); },
                    Command::TopHalf => { reveal_strlit("top-half"); assert("maximize"@[0] != "top-half"@[0]); },
                    Command::BottomHalf => { reveal_strlit("bottom-half"); assert("maximize"@.len() != "bottom-half"@.len()); },
                    Command::TopLeft => { reveal_strlit("top-left"); assert("maximize"@[0] != "top-left"@[0]); },
                    Command::TopRight => { reveal_strlit("top-right"); assert("maximize"@.len() != "top-right"@.len()); },
                    Command::BottomLeft => { reveal_strlit("bottom-left"); assert("maximize"@.len() != "bottom-left"@.len()); },
                    Command::BottomRight => { reveal_strlit("bottom-right"); assert("maximize"@.len() != "bottom-right"@.len()); },
                    Command::FirstThird => { reveal_strlit("first-third"); assert("maximize"@.len() != "first-third"@.len()); },
                    Command::CenterThird => { reveal_strlit("center-third"); assert("maximize"@.len() != "center-third"@.len()); },
                    Command::LastThird => { reveal_strlit("last-third"); assert("maximize"@.len() != "last-third"@.len()); },
                    Command::FirstTwoThirds => { reveal_strlit("first-two-thirds"); assert("maximize"@.len() != "first-two-thirds"@.len()); },
                    Command::CenterTwoThirds => { reveal_strlit("center-two-thirds"); assert("maximize"@.len() != "center-two-thirds"@.len()); },
                    Command::LastTwoThirds => { reveal_strlit("last-two-thirds"); assert("maximize"@.len() != "last-two-thirds"@.len()); },
                    Command::Maximize => {},
                    Command::AlmostMaximize => { reveal_strlit("almost-maximize"); assert("maximize"@.len() != "almost-maximize"@.len()); },
                    Command::MaximizeHeight => { reveal_strlit("maximize-height"); assert("maximize"@.len() != "maximize-height"@.len()); },
                    Command::Center => { reveal_strlit("center"); assert("maximize"@.len() != "center"@.len()); },
                    Command::Restore => { reveal_strlit("restore"); assert("maximize"@.len() != "restore"@.len()); },
                    Command::MoveLeft => { reveal_strlit("move-left"); assert("maximize"@.len() != "move-left"@.len()); },
                    Command::MoveRight => { reveal_strlit("move-right"); assert("maximize"@.len() != "move-right"@.len()); },
                    Command::MoveUp => { reveal_strlit("move-up"); assert("maximize"@.len() != "move-up"@.len()); },
                    Command::MoveDown => { reveal_strlit("move-down"); assert("maximize"@.len() != "move-down"@.len()); },
                    Command::Grow => { reveal_strlit("grow"); assert("maximize"@.len() != "grow"@.len()); },
                    Command::Shrink => { reveal_strlit("shrink"); assert("maximize"@.len() != "shrink"@.len()); },
                }
            },
            Command::AlmostMaximize => {
                reveal_strlit("almost-maximize");
                match b {
                    Command::LeftHalf => { reveal_strlit("left-half"); assert("almost-maximize"@.len() != "left-half"@.len()); },
                    Command::RightHalf => { reveal_strlit("right-half"); assert("almost-maximize"@.len() != "right-half"@.len()); },
                    Command::CenterHalf => { reveal_strlit("center-half"); assert("almost-maximize"@.len() != "center-half"@.len()); },
                    Command::TopHalf => { reveal_strlit("top-half"); assert("almost-maximize"@.len() != "top-half"@.len()); },
                    Command::BottomHalf => { reveal_strlit("bottom-half"); assert("almost-maximize"@.len() != "bottom-half"@.len()); },
                    Command::TopLeft => { reveal_strlit("top-left"); assert("almost-maximize"@.len() != "top-left"@.len()); },
                    Command::TopRight => { reveal_strlit("top-right"); assert("almost-maximize"@.len() != "top-right"@.len()); },
                    Command::BottomLeft => { reveal_strlit("bottom-left"); assert("almost-maximize"@.len() != "bottom-left"@.len()); },
                    Command::BottomRight => { reveal_strlit("bottom-right"); assert("almost-maximize"@.len() != "bottom-right"@.len()); },
                    Command::FirstThird => { reveal_strlit("first-third"); assert("almost-maximize"@.len() != "first-third"@.len()); },
                    Command::CenterThird => { reveal_strlit("center-third"); assert("almost-maximize"@.len() != "center-third"@.len()); },
                    Command::LastThird => { reveal_strlit("last-third"); assert("almost-maximize"@.len() != "last-third"@.len()); },
                    Command::FirstTwoThirds => { reveal_strlit("first-two-thirds"); assert("almost-maximize"@.len() != "first-two-thirds"@.len()); },
                    Command::CenterTwoThirds => { reveal_strlit("center-two-thirds"); assert("almost-maximize"@.len() != "center-two-thirds"@.len()); },
                    Command::LastTwoThirds => { reveal_strlit("last-two-thirds"); assert("almost-maximize"@[0] != "last-two-thirds"@[0]); },
                    Command::Maximize => { reveal_strlit("maximize"); assert("almost-maximize"@.len() != "maximize"@.len()); },
                    Command::AlmostMaximize => {},
                    Command::MaximizeHeight => { reveal_strlit("maximize-height"); assert("almost-maximize"@[0] != "maximize-height"@[0]); },
                    Command::Center => { reveal_strlit("center"); assert("almost-maximize"@.len() != "center"@.len()); },
                    Command::Restore => { reveal_strlit("restore"); assert("almost-maximize"@.len() != "restore"@.len()); },
                    Command::MoveLeft => { reveal_strlit("move-left"); assert("almost-maximize"@.len() != "move-left"@.len()); },
                    Command::MoveRight => { reveal_strlit("move-right"); assert("almost-maximize"@.len() != "move-right"@.len()); },
                    Command::MoveUp => { reveal_strlit("move-up"); assert("almost-maximize"@.len() != "move-up"@.len()); },
                    Command::MoveDown => { reveal_strlit("move-down"); assert("almost-maximize"@.len() != "move-down"@.len()); },
                    Command::Grow => { reveal_strlit("grow"); assert("almost-maximize"@.len() != "grow"@.len()); },
                    Command::Shrink => { reveal_strlit("shrink"); assert("almost-maximize"@.len() != "shrink"@.len()); },
                }
            },
            Command::MaximizeHeight => {
                reveal_strlit("maximize-height");
                match b {
                    Command::LeftHalf => { reveal_strlit("left-half"); assert("maximize-height"@.len() != "left-half"@.len()); },
                    Command::RightHalf => { reveal_strlit("right-half"); assert("maximize-height"@.len() != "right-half"@.len()); },
                    Command::CenterHalf => { reveal_strlit("center-half"); assert("maximize-height"@.len() != "center-half"@.len()); },
                    Command::TopHalf => { reveal_strlit("top-half"); assert("maximize-height"@.len() != "top-half"@.len()); },
                    Command::BottomHalf => { reveal_strlit("bottom-half"); assert("maximize-height"@.len() != "bottom-half"@.len()); },
                    Command::TopLeft => { reveal_strlit("top-left"); assert("maximize-height"@.len() != "top-left"@.len()); },
                    Command::TopRight => { reveal_strlit("top-right"); assert("maximize-height"@.len() != "top-right"@.len()); },
                    Command::BottomLeft => { reveal_strlit("bottom-left"); assert("maximize-height"@.len() != "bottom-left"@.len()); },
                    Command::BottomRight => { reveal_strlit("bottom-right"); assert("maximize-height"@.len() != "bottom-right"@.len()); },
                    Command::FirstThird => { reveal_strlit("first-third"); assert("maximize-height"@.len() != "first-third"@.len()); },
                    Command::CenterThird => { reveal_strlit("center-third"); assert("maximize-height"@.len() != "center-third"@.len()); },
                    Command::LastThird => { reveal_strlit("last-third"); assert("maximize-height"@.len() != "last-third"@.len()); },
                    Command::FirstTwoThirds => { reveal_strlit("first-two-thirds"); assert("maximize-height"@.len() != "first-two-thirds"@.len()); },
                    Command::CenterTwoThirds => { reveal_strlit("center-two-thirds"); assert("maximize-height"@.len() != "center-two-thirds"@.len()); },
                    Command::LastTwoThirds => { reveal_strlit("last-two-thirds"); assert("maximize-height"@[0] != "last-two-thirds"@[0]); },
                    Command::Maximize => { reveal_strlit("maximize"); assert("maximize-height"@.len() != "maximize"@.len()); },
                    Command::AlmostMaximize => { reveal_strlit("almost-maximize"); assert("maximize-height"@[0] != "almost-maximize"@[0]); },
                    Command::MaximizeHeight => {},
                    Command::Center => { reveal_strlit("center"); assert("maximize-height"@.len() != "center"@.len()); },
                    Command::Restore => { reveal_strlit("restore"); assert("maximize-height"@.len() != "restore"@.len()); },
                    Command::MoveLeft => { reveal_strlit("move-left"); assert("maximize-height"@.len() != "move-left"@.len()); },
                    Command::MoveRight => { reveal_strlit("move-right"); assert("maximize-height"@.len() != "move-right"@.len()); },
                    Command::MoveUp => { reveal_strlit("move-up"); assert("maximize-height"@.len() != "move-up"@.len()); },
                    Command::MoveDown => { reveal_strlit("move-down"); assert("maximize-height"@.len() != "move-down"@.len()); },
                    Command::Grow => { reveal_strlit("grow"); assert("maximize-height"@.len() != "grow"@.len()); },
                    Command::Shrink => { reveal_strlit("shrink"); assert("maximize-height"@.len() != "shrink"@.len()); },
                }
            },
            Command::Center => {
                reveal_strlit("center");
                match b {
                    Command::LeftHalf => { reveal_strlit("left-half"); assert("center"@.len() != "left-half"@.len()); },
                    Command::RightHalf => { reveal_strlit("right-half"); assert("center"@.len() != "right-half"@.len()); },
                    Command::CenterHalf => { reveal_strlit("center-half"); assert("center"@.len() != "center-half"@.len()); },
                    Command::TopHalf => { reveal_strlit("top-half"); assert("center"@.len() != "top-half"@.len()); },
                    Command::BottomHalf => { reveal_strlit("bottom-half"); assert("center"@.len() != "bottom-half"@.len()); },
                    Command::TopLeft => { reveal_strlit("top-left"); assert("center"@.len() != "top-left"@.len()); },
                    Command::TopRight => { reveal_strlit("top-right"); assert("center"@.len() != "top-right"@.len()); },
                    Command::BottomLeft => { reveal_strlit("bottom-left"); assert("center"@.len() != "bottom-left"@.len()); },
                    Command::BottomRight => { reveal_strlit("bottom-right"); assert("center"@.len() != "bottom-right"@.len()); },
                    Command::FirstThird => { reveal_strlit("first-third"); assert("center"@.len() != "first-third"@.len()); },
                    Command::CenterThird => { reveal_strlit("center-third"); assert("center"@.len() != "center-third"@.len()); },
                    Command::LastThird => { reveal_strlit("last-third"); assert("center"@.len() != "last-third"@.len()); },
                    Command::FirstTwoThirds => { reveal_strlit("first-two-thirds"); assert("center"@.len() != "first-two-thirds"@.len()); },
                    Command::CenterTwoThirds => { reveal_strlit("center-two-thirds"); assert("center"@.len() != "center-two-thirds"@.len()); },
                    Command::LastTwoThirds => { reveal_strlit("last-two-thirds"); assert("center"@.len() != "last-two-thirds"@.len()); },
                    Command::Maximize => { reveal_strlit("maximize"); assert("center"@.len() != "maximize"@.len()); },
                    Command::AlmostMaximize => { reveal_strlit("almost-maximize"); assert("center"@.len() != "almost-maximize"@.len()); },
                    Command::MaximizeHeight => { reveal_strlit("maximize-height"); assert("center"@.len() != "maximize-height"@.len()); },
                    Command::Center => {},
                    Command::Restore => { reveal_strlit("restore"); assert("center"@.len() != "restore"@.len()); },
                    Command::MoveLeft => { reveal_strlit("move-left"); assert("center"@.len() != "move-left"@.len()); },
                    Command::MoveRight => { reveal_strlit("move-right"); assert("center"@.len() != "move-right"@.len()); },
                    Command::MoveUp => { reveal_strlit("move-up"); assert("center"@.len() != "move-up"@.len()); },
                    Command::MoveDown => { reveal_strlit("move-down"); assert("center"@.len() != "move-down"@.len()); },
                    Command::Grow => { reveal_strlit("grow"); assert("center"@.len() != "grow"@.len()); },
                    Command::Shrink => { reveal_strlit("shrink"); assert("center"@[0] != "shrink"@[0]); },
                }
            },
            Command::Restore => {
                reveal_strlit("restore");
                match b {
                    Command::LeftHalf => { reveal_strlit("left-half"); assert("restore"@.len() != "left-half"@.len()); },
                    Command::RightHalf => { reveal_strlit("right-half"); assert("restore"@.len() != "right-half"@.len()); },
                    Command::CenterHalf => { reveal_strlit("center-half"); assert("restore"@.len() != "center-half"@.len()); },
                    Command::TopHalf => { reveal_strlit("top-half"); assert("restore"@.len() != "top-half"@.len()); },
                    Command::BottomHalf => { reveal_strlit("bottom-half"); assert("restore"@.len() != "bottom-half"@.len()); },
                    Command::TopLeft => { reveal_strlit("top-left"); assert("restore"@.len() != "top-left"@.len()); },
                    Command::TopRight => { reveal_strlit("top-right"); assert("restore"@.len() != "top-right"@.len()); },
                    Command::BottomLeft => { reveal_strlit("bottom-left"); assert("restore"@.len() != "bottom-left"@.len()); },
                    Command::BottomRight => { reveal_strlit("bottom-right"); assert("restore"@.len() != "bottom-right"@.len()); },
                    Command::FirstThird => { reveal_strlit("first-third"); assert("restore"@.len() != "first-third"@.len()); },
                    Command::CenterThird => { reveal_strlit("center-third"); assert("restore"@.len() != "center-third"@.len()); },
                    Command::LastThird => { reveal_strlit("last-third"); assert("restore"@.len() != "last-third"@.len()); },
                    Command::FirstTwoThirds => { reveal_strlit("first-two-thirds"); assert("restore"@.len() != "first-two-thirds"@.len()); },
                    Command::CenterTwoThirds => { reveal_strlit("center-two-thirds"); assert("restore"@.len() != "center-two-thirds"@.len()); },
                    Command::LastTwoThirds => { reveal_strlit("last-two-thirds"); assert("restore"@.len() != "last-two-thirds"@.len()); },
                    Command::Maximize => { reveal_strlit("maximize"); assert("restore"@.len() != "maximize"@.len()); },
                    Command::AlmostMaximize => { reveal_strlit("almost-maximize"); assert("restore"@.len() != "almost-maximize"@.len()); },
                    Command::MaximizeHeight => { reveal_strlit("maximize-height"); assert("restore"@.len() != "maximize-height"@.len()); },
                    Command::Center => { reveal_strlit("center"); assert("restore"@.len() != "center"@.len()); },
                    Command::Restore => {},
                    Command::MoveLeft => { reveal_strlit("move-left"); assert("restore"@.len() != "move-left"@.len()); },
                    Command::MoveRight => { reveal_strlit("move-right"); assert("restore"@.len() != "move-right"@.len()); },
                    Command::MoveUp => { reveal_strlit("move-up"); assert("restore"@[0] != "move-up"@[0]); },
                    Command::MoveDown => { reveal_strlit("move-down"); assert("restore"@.len() != "move-down"@.len()); },
                    Command::Grow => { reveal_strlit("grow"); assert("restore"@.len() != "grow"@.len()); },
                    Command::Shrink => { reveal_strlit("shrink"); assert("restore"@.len() != "shrink"@.len()); },
                }
            },
            Command::MoveLeft => {
                reveal_strlit("move-left");
                match b {
                    Command::LeftHalf => { reveal_strlit("left-half"); assert("move-left"@[0] != "left-half"@[0]); },
                    Command::RightHalf => { reveal_strlit("right-half"); assert("move-left"@.len() != "right-half"@.len()); },
                    Command::CenterHalf => { reveal_strlit("center-half"); assert("move-left"@.len() != "center-half"@.len()); },
                    Command::TopHalf => { reveal_strlit("top-half"); assert("move-left"@.len() != "top-half"@.len()); },
                    Command::BottomHalf => { reveal_strlit("bottom-half"); assert("move-left"@.len() != "bottom-half"@.len()); },
                    Command::TopLeft => { reveal_strlit("top-left"); assert("move-left"@.len() != "top-left"@.len()); },
                    Command::TopRight => { reveal_strlit("top-right"); assert("move-left"@[0] != "top-right"@[0]); },
                    Command::BottomLeft => { reveal_strlit("bottom-left"); assert("move-left"@.len() != "bottom-left"@.len()); },
                    Command::BottomRight => { reveal_strlit("bottom-right"); assert("move-left"@.len() != "bottom-right"@.len()); },
                    Command::FirstThird => { reveal_strlit("first-third"); assert("move-left"@.len() != "first-third"@.len()); },
                    Command::CenterThird => { reveal_strlit("center-third"); assert("move-left"@.len() != "center-third"@.len()); },
                    Command::LastThird => { reveal_strlit("last-third"); assert("move-left"@.len() != "last-third"@.len()); },
                    Command::FirstTwoThirds => { reveal_strlit("first-two-thirds"); assert("move-left"@.len() != "first-two-thirds"@.len()); },
                    Command::CenterTwoThirds => { reveal_strlit("center-two-thirds"); assert("move-left"@.len() != "center-two-thirds"@.len()); },
                    Command::LastTwoThirds => { reveal_strlit("last-two-thirds"); assert("move-left"@.len() != "last-two-thirds"@.len()); },
                    Command::Maximize => { reveal_strlit("maximize"); assert("move-left"@.len() != "maximize"@.len()); },
                    Command::AlmostMaximize => { reveal_strlit("almost-maximize"); assert("move-left"@.len() != "almost-maximize"@.len()); },
                    Command::MaximizeHeight => { reveal_strlit("maximize-height"); assert("move-left"@.len() != "maximize-height"@.len()); },
                    Command::Center => { reveal_strlit("center"); assert("move-left"@.len() != "center"@.len()); },
                    Command::Restore => { reveal_strlit("restore"); assert("move-left"@.len() != "restore"@.len()); },
                    Command::MoveLeft => {},
                    Command::MoveRight => { reveal_strlit("move-right"); assert("move-left"@.len() != "move-right"@.len()); },
                    Command::MoveUp => { reveal_strlit("move-up"); assert("move-left"@.len() != "move-up"@.len()); },
                    Command::MoveDown => { reveal_strlit("move-down"); assert("move-left"@[5] != "move-down"@[5]); },
                    Command::Grow => { reveal_strlit("grow"); assert("move-left"@.len() != "grow"@.len()); },
                    Command::Shrink => { reveal_strlit("shrink"); assert("move-left"@.len() != "shrink"@.len()); },
                }
            },
            Command::MoveRight => {
                reveal_strlit("move-right");
                match b {
                    Command::LeftHalf => { reveal_strlit("left-half"); assert("move-right"@.len() != "left-half"@.len()); },
                    Command::RightHalf => { reveal_strlit("right-half"); assert("move-right"@[0] != "right-half"@[0]); },
                    Command::CenterHalf => { reveal_strlit("center-half"); assert("move-right"@.len() != "center-half"@.len()); },
                    Command::TopHalf => { reveal_strlit("top-half"); assert("move-right"@.len() != "top-half"@.len()); },
                    Command::BottomHalf => { reveal_strlit("bottom-half"); assert("move-right"@.len() != "bottom-half"@.len()); },
                    Command::TopLeft => { reveal_strlit("top-left"); assert("move-right"@.len() != "top-left"@.len()); },
                    Command::TopRight => { reveal_strlit("top-right"); assert("move-right"@.len() != "top-right"@.len()); },
                    Command::BottomLeft => { reveal_strlit("bottom-left"); assert("move-right"@.len() != "bottom-left"@.len()); },
                    Command::BottomRight => { reveal_strlit("bottom-right"); assert("move-right"@.len() != "bottom-right"@.len()); },
                    Command::FirstThird => { reveal_strlit("first-third"); assert("move-right"@.len() != "first-third"@.len()); },
                    Command::CenterThird => { reveal_strlit("center-third"); assert("move-right"@.len() != "center-third"@.len()); },
                    Command::LastThird => { reveal_strlit("last-third"); assert("move-right"@[0] != "last-third"@[0]); },
                    Command::FirstTwoThirds => { reveal_strlit("first-two-thirds"); assert("move-right"@.len() != "first-two-thirds"@.len()); },
                    Command::CenterTwoThirds => { reveal_strlit("center-two-thirds"); assert("move-right"@.len() != "center-two-thirds"@.len()); },
                    Command::LastTwoThirds => { reveal_strlit("last-two-thirds"); assert("move-right"@.len() != "last-two-thirds"@.len()); },
                    Command::Maximize => { reveal_strlit("maximize"); assert("move-right"@.len() != "maximize"@.len()); },
                    Command::AlmostMaximize => { reveal_strlit("almost-maximize"); assert("move-right"@.len() != "almost-maximize"@.len()); },
                    Command::MaximizeHeight => { reveal_strlit("maximize-height"); assert("move-right"@.len() != "maximize-height"@.len()); },
                    Command::Center => { reveal_strlit("center"); assert("move-right"@.len() != "center"@.len()); },
                    Command::Restore => { reveal_strlit("restore"); assert("move-right"@.len() != "restore"@.len()); },
                    Command::MoveLeft => { reveal_strlit("move-left"); assert("move-right"@.len() != "move-left"@.len()); },
                    Command::MoveRight => {},
                    Command::MoveUp => { reveal_strlit("move-up"); assert("move-right"@.len() != "move-up"@.len()); },
                    Command::MoveDown => { reveal_strlit("move-down"); assert("move-right"@.len() != "move-down"@.len()); },
                    Command::Grow => { reveal_strlit("grow"); assert("move-right"@.len() != "grow"@.len()); },
                    Command::Shrink => { reveal_strlit("shrink"); assert("move-right"@.len() != "shrink"@.len()); },
                }
            },
            Command::MoveUp => {
                reveal_strlit("move-up");
                match b {
                    Command::LeftHalf => { reveal_strlit("left-half"); assert("move-up"@.len() != "left-half"@.len()); },
                    Command::RightHalf => { reveal_strlit("right-half"); assert("move-up"@.len() != "right-half"@.len()); },
                    Command::CenterHalf => { reveal_strlit("center-half"); assert("move-up"@.len() != "center-half"@.len()); },
                    Command::TopHalf => { reveal_strlit("top-half"); assert("move-up"@.len() != "top-half"@.len()); },
                    Command::BottomHalf => { reveal_strlit("bottom-half"); assert("move-up"@.len() != "bottom-half"@.len()); },
                    Command::TopLeft => { reveal_strlit("top-left"); assert("move-up"@.len() != "top-left"@.len()); },
                    Command::TopRight => { reveal_strlit("top-right"); assert("move-up"@.len() != "top-right"@.len()); },
                    Command::BottomLeft => { reveal_strlit("bottom-left"); assert("move-up"@.len() != "bottom-left"@.len()); },
                    Command::BottomRight => { reveal_strlit("bottom-right"); assert("move-up"@.len() != "bottom-right"@.len()); },
                    Command::FirstThird => { reveal_strlit("first-third"); assert("move-up"@.len() != "first-third"@.len()); },
                    Command::CenterThird => { reveal_strlit("center-third"); assert("move-up"@.len() != "center-third"@.len()); },
                    Command::LastThird => { reveal_strlit("last-third"); assert("move-up"@.len() != "last-third"@.len()); },
                    Command::FirstTwoThirds => { reveal_strlit("first-two-thirds"); assert("move-up"@.len() != "first-two-thirds"@.len()); },
                    Command::CenterTwoThirds => { reveal_strlit("center-two-thirds"); assert("move-up"@.len() != "center-two-thirds"@.len()); },
                    Command::LastTwoThirds => { reveal_strlit("last-two-thirds"); assert("move-up"@.len() != "last-two-thirds"@.len()); },
                    Command::Maximize => { reveal_strlit("maximize"); assert("move-up"@.len() != "maximize"@.len()); },
                    Command::AlmostMaximize => { reveal_strlit("almost-maximize"); assert("move-up"@.len() != "almost-maximize"@.len()); },
                    Command::MaximizeHeight => { reveal_strlit("maximize-height"); assert("move-up"@.len() != "maximize-height"@.len()); },
                    Command::Center => { reveal_strlit("center"); assert("move-up"@.len() != "center"@.len()); },
                    Command::Restore => { reveal_strlit("restore"); assert("move-up"@[0] != "restore"@[0]); },
                    Command::MoveLeft => { reveal_strlit("move-left"); assert("move-up"@.len() != "move-left"@.len()); },
                    Command::MoveRight => { reveal_strlit("move-right"); assert("move-up"@.len() != "move-right"@.len()); },
                    Command::MoveUp => {},
                    Command::MoveDown => { reveal_strlit("move-down"); assert("move-up"@.len() != "move-down"@.len()); },
                    Command::Grow => { reveal_strlit("grow"); assert("move-up"@.len() != "grow"@.len()); },
                    Command::Shrink => { reveal_strlit("shrink"); assert("move-up"@.len() != "shrink"@.len()); },
                }
            },
            Command::MoveDown => {
                reveal_strlit("move-down");
                match b {
                    Command::LeftHalf => { reveal_strlit("left-half"); assert("move-down"@[0] != "left-half"@[0]); },
                    Command::RightHalf => { reveal_strlit("right-half"); assert("move-down"@.len() != "right-half"@.len()); },
                    Command::CenterHalf => { reveal_strlit("center-half"); assert("move-down"@.len() != "center-half"@.len()); },
                    Command::TopHalf => { reveal_strlit("top-half"); assert("move-down"@.len() != "top-half"@.len()); },
                    Command::BottomHalf => { reveal_strlit("bottom-half"); assert("move-down"@.len() != "bottom-half"@.len()); },
                    Command::TopLeft => { reveal_strlit("top-left"); assert("move-down"@.len() != "top-left"@.len()); },
                    Command::TopRight => { reveal_strlit("top-right"); assert("move-down"@[0] != "top-right"@[0]); },
                    Command::BottomLeft => { reveal_strlit("bottom-left"); assert("move-down"@.len() != "bottom-left"@.len()); },
                    Command::BottomRight => { reveal_strlit("bottom-right"); assert("move-down"@.len() != "bottom-right"@.len()); },
                    Command::FirstThird => { reveal_strlit("first-third"); assert("move-down"@.len() != "first-third"@.len()); },
                    Command::CenterThird => { reveal_strlit("center-third"); assert("move-down"@.len() != "center-third"@.len()); },
                    Command::LastThird => { reveal_strlit("last-third"); assert("move-down"@.len() != "last-third"@.len()); },
                    Command::FirstTwoThirds => { reveal_strlit("first-two-thirds"); assert("move-down"@.len() != "first-two-thirds"@.len()); },
                    Command::CenterTwoThirds => { reveal_strlit("center-two-thirds"); assert("move-down"@.len() != "center-two-thirds"@.len()); },
                    Command::LastTwoThirds => { reveal_strlit("last-two-thirds"); assert("move-down"@.len() != "last-two-thirds"@.len()); },
                    Command::Maximize => { reveal_strlit("maximize"); assert("move-down"@.len() != "maximize"@.len()); },
                    Command::AlmostMaximize => { reveal_strlit("almost-maximize"); assert("move-down"@.len() != "almost-maximize"@.len()); },
                    Command::MaximizeHeight => { reveal_strlit("maximize-height"); assert("move-down"@.len() != "maximize-height"@.len()); },
                    Command::Center => { reveal_strlit("center"); assert("move-down"@.len() != "center"@.len()); },
                    Command::Restore => { reveal_strlit("restore"); assert("move-down"@.len() != "restore"@.len()); },
                    Command::MoveLeft => { reveal_strlit("move-left"); assert("move-down"@[5] != "move-left"@[5]); },
                    Command::MoveRight => { reveal_strlit("move-right"); assert("move-down"@.len() != "move-right"@.len()); },
                    Command::MoveUp => { reveal_strlit("move-up"); assert("move-down"@.len() != "move-up"@.len()); },
                    Command::MoveDown => {},
                    Command::Grow => { reveal_strlit("grow"); assert("move-down"@.len() != "grow"@.len()); },
                    Command::Shrink => { reveal_strlit("shrink"); assert("move-down"@.len() != "shrink"@.len()); },
                }
            },
            Command::Grow => {
                reveal_strlit("grow");
                match b {
                    Command::LeftHalf => { reveal_strlit("left-half"); assert("grow"@.len() != "left-half"@.len()); },
                    Command::RightHalf => { reveal_strlit("right-half"); assert("grow"@.len() != "right-half"@.len()); },
                    Command::CenterHalf => { reveal_strlit("center-half"); assert("grow"@.len() != "center-half"@.len()); },
                    Command::TopHalf => { reveal_strlit("top-half"); assert("grow"@.len() != "top-half"@.len()); },
                    Command::BottomHalf => { reveal_strlit("bottom-half"); assert("grow"@.len() != "bottom-half"@.len()); },
                    Command::TopLeft => { reveal_strlit("top-left"); assert("grow"@.len() != "top-left"@.len()); },
                    Command::TopRight => { reveal_strlit("top-right"); assert("grow"@.len() != "top-right"@.len()); },
                    Command::BottomLeft => { reveal_strlit("bottom-left"); assert("grow"@.len() != "bottom-left"@.len()); },
                    Command::BottomRight => { reveal_strlit("bottom-right"); assert("grow"@.len() != "bottom-right"@.len()); },
                    Command::FirstThird => { reveal_strlit("first-third"); assert("grow"@.len() != "first-third"@.len()); },
                    Command::CenterThird => { reveal_strlit("center-third"); assert("grow"@.len() != "center-third"@.len()); },
                    Command::LastThird => { reveal_strlit("last-third"); assert("grow"@.len() != "last-third"@.len()); },
                    Command::FirstTwoThirds => { reveal_strlit("first-two-thirds"); assert("grow"@.len() != "first-two-thirds"@.len()); },
                    Command::CenterTwoThirds => { reveal_strlit("center-two-thirds"); assert("grow"@.len() != "center-two-thirds"@.len()); },
                    Command::LastTwoThirds => { reveal_strlit("last-two-thirds"); assert("grow"@.len() != "last-two-thirds"@.len()); },
                    Command::Maximize => { reveal_strlit("maximize"); assert("grow"@.len() != "maximize"@.len()); },
                    Command::AlmostMaximize => { reveal_strlit("almost-maximize"); assert("grow"@.len() != "almost-maximize"@.len()); },
                    Command::MaximizeHeight => { reveal_strlit("maximize-height"); assert("grow"@.len() != "maximize-height"@.len()); },
                    Command::Center => { reveal_strlit("center"); assert("grow"@.len() != "center"@.len()); },
                    Command::Restore => { reveal_strlit("restore"); assert("grow"@.len() != "restore"@.len()); },
                    Command::MoveLeft => { reveal_strlit("move-left"); assert("grow"@.len() != "move-left"@.len()); },
                    Command::MoveRight => { reveal_strlit("move-right"); assert("grow"@.len() != "move-right"@.len()); },
                    Command::MoveUp => { reveal_strlit("move-up"); assert("grow"@.len() != "move-up"@.len()); },
                    Command::MoveDown => { reveal_strlit("move-down"); assert("grow"@.len() != "move-down"@.len()); },
                    Command::Grow => {},
                    Command::Shrink => { reveal_strlit("shrink"); assert("grow"@.len() != "shrink"@.len()); },
                }
            },
            Command::Shrink => {
                reveal_strlit("shrink");
                match b {
                    Command::LeftHalf => { reveal_strlit("left-half"); assert("shrink"@.len() != "left-half"@.len()); },
                    Command::RightHalf => { reveal_strlit("right-half"); assert("shrink"@.len() != "right-half"@.len()); },
                    Command::CenterHalf => { reveal_strlit("center-half"); assert("shrink"@.len() != "center-half"@.len()); },
                    Command::TopHalf => { reveal_strlit("top-half"); assert("shrink"@.len() != "top-half"@.len()); },
                    Command::BottomHalf => { reveal_strlit("bottom-half"); assert("shrink"@.len() != "bottom-half"@.len()); },
                    Command::TopLeft => { reveal_strlit("top-left"); assert("shrink"@.len() != "top-left"@.len()); },
                    Command::TopRight => { reveal_strlit("top-right"); assert("shrink"@.len() != "top-right"@.len()); },
                    Command::BottomLeft => { reveal_strlit("bottom-left"); assert("shrink"@.len() != "bottom-left"@.len()); },
                    Command::BottomRight => { reveal_strlit("bottom-right"); assert("shrink"@.len() != "bottom-right"@.len()); },
                    Command::FirstThird => { reveal_strlit("first-third"); assert("shrink"@.len() != "first-third"@.len()); },
                    Command::CenterThird => { reveal_strlit("center-third"); assert("shrink"@.len() != "center-third"@.len()); },
                    Command::LastThird => { reveal_strlit("last-third"); assert("shrink"@.len() != "last-third"@.len()); },
                    Command::FirstTwoThirds => { reveal_strlit("first-two-thirds"); assert("shrink"@.len() != "first-two-thirds"@.len()); },
                    Command::CenterTwoThirds => { reveal_strlit("center-two-thirds"); assert("shrink"@.len() != "center-two-thirds"@.len()); },
                    Command::LastTwoThirds => { reveal_strlit("last-two-thirds"); assert("shrink"@.len() != "last-two-thirds"@.len()); },
                    Command::Maximize => { reveal_strlit("maximize"); assert("shrink"@.len() != "maximize"@.len()); },
                    Command::AlmostMaximize => { reveal_strlit("almost-maximize"); assert("shrink"@.len() != "almost-maximize"@.len()); },
                    Command::MaximizeHeight => { reveal_strlit("maximize-height"); assert("shrink"@.len() != "maximize-height"@.len()); },
                    Command::Center => { reveal_strlit("center"); assert("shrink"@[0] != "center"@[0]); },
                    Command::Restore => { reveal_strlit("restore"); assert("shrink"@.len() != "restore"@.len()); },
                    Command::MoveLeft => { reveal_strlit("move-left"); assert("shrink"@.len() != "move-left"@.len()); },
                    Command::MoveRight => { reveal_strlit("move-right"); assert("shrink"@.len() != "move-right"@.len()); },
                    Command::MoveUp => { reveal_strlit("move-up"); assert("shrink"@.len() != "move-up"@.len()); },
                    Command::MoveDown => { reveal_strlit("move-down"); assert("shrink"@.len() != "move-down"@.len()); },
                    Command::Grow => { reveal_strlit("grow"); assert("shrink"@.len() != "grow"@.len()); },
                    Command::Shrink => {},
                }
            },
        }
    }
}

/// Every command id is a lowercase word list: it never starts like a flag.
pub proof fn lemma_id_is_not_a_flag(c: Command)
    ensures
        c.spec_id().len() > 0,
        'a' <= c.spec_id()[0] <= 'z',
{
    match c {
        Command::LeftHalf => reveal_strlit("left-half"),
        Command::RightHalf => reveal_strlit("right-half"),
        Command::CenterHalf => reveal_strlit("center-half"),
        Command::TopHalf => reveal_strlit("top-half"),
        Command::BottomHalf => reveal_strlit("bottom-half"),
        Command::TopLeft => reveal_strlit("top-left"),
        Command::TopRight => reveal_strlit("top-right"),
        Command::BottomLeft => reveal_strlit("bottom-left"),
        Command::BottomRight => reveal_strlit("bottom-right"),
        Command::FirstThird => reveal_strlit("first-third"),
        Command::CenterThird => reveal_strlit("center-third"),
        Command::LastThird => reveal_strlit("last-third"),
        Command::FirstTwoThirds => reveal_strlit("first-two-thirds"),
        Command::CenterTwoThirds => reveal_strlit("center-two-thirds"),
        Command::LastTwoThirds => reveal_strlit("last-two-thirds"),
        Command::Maximize => reveal_strlit("maximize"),
        Command::AlmostMaximize => reveal_strlit("almost-maximize"),
        Command::MaximizeHeight => reveal_strlit("maximize-height"),
        Command::Center => reveal_strlit("center"),
        Command::Restore => reveal_strlit("restore"),
        Command::MoveLeft => reveal_strlit("move-left"),
        Command::MoveRight => reveal_strlit("move-right"),
        Command::MoveUp => reveal_strlit("move-up"),
        Command::MoveDown => reveal_strlit("move-down"),
        Command::Grow => reveal_strlit("grow"),
        Command::Shrink => reveal_strlit("shrink"),
    }
}

/// Looking up the id of any command gives back that command.
pub proof fn lemma_from_id_round_trip(c: Command)
    ensures
        Command::spec_from_id(c.spec_id()) == Some(c),
{
    lemma_command_named(c, c.spec_id());
}

} // verus!
