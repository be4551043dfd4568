use panes::command::Command;
use panes::geometry::Edge;
use panes::navigation::{destination_edge_command, navigates_between_screens};

#[test]
fn edges_are_sets_of_sides() {
    let horizontal = Edge::left().union(Edge::right());
    assert!(horizontal.contains(Edge::left()));
    assert!(horizontal.contains(Edge::right()));
    assert!(!horizontal.contains(Edge::top()));
    assert!(horizontal.contains(Edge::none()));
    assert!(!Edge::left().contains(Edge::right()));
    assert!(!Edge::top().contains(Edge::bottom()));
    let all = horizontal.union(Edge::top()).union(Edge::bottom());
    assert!(all.contains(horizontal));
    assert!(all.contains(Edge::bottom().union(Edge::top())));
    assert_eq!(Edge::none().union(Edge::none()), Edge::none());
}

#[test]
fn navigation_enters_the_next_display_from_the_near_edge() {
    let navigating = [
        (Command::LeftHalf, Command::RightHalf),
        (Command::RightHalf, Command::LeftHalf),
        (Command::MoveLeft, Command::MoveRight),
        (Command::MoveRight, Command::MoveLeft),
        (Command::MoveUp, Command::MoveDown),
        (Command::MoveDown, Command::MoveUp),
    ];
    for (command, destination) in navigating {
        assert!(navigates_between_screens(command));
        assert_eq!(destination_edge_command(command), destination);
        assert_eq!(destination_edge_command(destination), command);
    }
    let navigating_count = Command::ALL
        .iter()
        .filter(|command| navigates_between_screens(**command))
        .count();
    assert_eq!(navigating_count, 6);
    assert!(!navigates_between_screens(Command::TopHalf));
    assert!(!navigates_between_screens(Command::Restore));
}
