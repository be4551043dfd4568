use panes::command::{Command, CommandCategory, contains_command};

#[test]
fn from_id_round_trips_every_command() {
    for &command in Command::ALL {
        assert_eq!(Command::from_id(command.id()), Some(command));
    }
}

#[test]
fn from_id_rejects_unknown_ids() {
    assert_eq!(Command::from_id("left-halff"), None);
    assert_eq!(Command::from_id(""), None);
    assert_eq!(Command::from_id("Left Half"), None);
}

#[test]
fn labels_ids_and_categories_of_sample_commands() {
    assert_eq!(Command::CenterTwoThirds.id(), "center-two-thirds");
    assert_eq!(Command::CenterTwoThirds.label(), "Center Two Thirds");
    assert_eq!(Command::CenterTwoThirds.category(), CommandCategory::Thirds);
    assert_eq!(Command::Restore.category(), CommandCategory::SizeAndPosition);
    assert_eq!(CommandCategory::SizeAndPosition.label(), "Size and Position");
    assert_eq!(Command::Shrink.category().label(), "Resize");
}

#[test]
fn ids_are_distinct_and_positions_follow_all() {
    for (index, &command) in Command::ALL.iter().enumerate() {
        assert_eq!(command.position(), index);
        for &other in &Command::ALL[index + 1..] {
            assert_ne!(command.id(), other.id());
        }
    }
    assert_eq!(Command::ALL.len(), 26);
    assert_eq!(CommandCategory::ALL.len(), 6);
}

#[test]
fn contains_command_finds_listed_commands() {
    let commands = vec![Command::Grow, Command::TopLeft];
    assert!(contains_command(&commands, Command::TopLeft));
    assert!(!contains_command(&commands, Command::Shrink));
    assert!(!contains_command(&Vec::new(), Command::Grow));
}
