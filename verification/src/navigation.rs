//! The commands that move a window on to a neighbouring display when they
//! are repeated, and the command that places it on the display it enters.

use vstd::prelude::*;

use crate::command::Command;

verus! {

/// Left/Right Half and the four Move commands move to the next display when
/// repeated on a window they already placed.
pub open spec fn spec_navigates_between_screens(command: Command) -> bool {
    command is LeftHalf || command is RightHalf || command is MoveLeft || command is MoveRight
        || command is MoveUp || command is MoveDown
}

/// Returns whether repeating `command` moves the window to the next display.
pub fn navigates_between_screens(command: Command) -> (navigates: bool)
    ensures
        navigates == spec_navigates_between_screens(command),
{
    matches!(
        command,
        Command::LeftHalf | Command::RightHalf | Command::MoveLeft | Command::MoveRight | Command::MoveUp
            | Command::MoveDown
    )
}

/// The command that places a window at the near edge of the display it
/// enters: moving right enters at the left, moving up enters at the bottom.
pub open spec fn spec_destination_edge_command(command: Command) -> Command {
    match command {
        Command::LeftHalf => Command::RightHalf,
        Command::RightHalf => Command::LeftHalf,
        Command::MoveLeft => Command::MoveRight,
        Command::MoveRight => Command::MoveLeft,
        Command::MoveUp => Command::MoveDown,
        _ => Command::MoveUp,
    }
}

/// Returns the command that places a window entering the next display in
/// the direction of `command`.
pub fn destination_edge_command(command: Command) -> (destination: Command)
    requires
        spec_navigates_between_screens(command),
    ensures
        destination == spec_destination_edge_command(command),
{
    match command {
        Command::LeftHalf => Command::RightHalf,
        Command::RightHalf => Command::LeftHalf,
        Command::MoveLeft => Command::MoveRight,
        Command::MoveRight => Command::MoveLeft,
        Command::MoveUp => Command::MoveDown,
        _ => Command::MoveUp,
    }
}

/// The destination of a navigating command navigates the other way: it
/// navigates too, differs from the command, and leads back to it.
pub proof fn lemma_destination_is_the_opposite(command: Command)
    requires
        spec_navigates_between_screens(command),
    ensures
        spec_navigates_between_screens(spec_destination_edge_command(command)),
        spec_destination_edge_command(command) != command,
        spec_destination_edge_command(spec_destination_edge_command(command)) == command,
{
}

} // verus!
