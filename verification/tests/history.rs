use std::collections::VecDeque;

use panes::command::Command;
use panes::failure::CommandExecutionError;
use panes::history::{
    MAX_TRACKED_WINDOWS, RecordedCommand, WindowHistory, WindowId, WindowIdentities,
    WindowIdentity, remove_recent_window, restore_target, touch_recent_window,
};

#[derive(Debug, Clone, Copy, PartialEq)]
struct Rect {
    x: f64,
    y: f64,
    width: f64,
    height: f64,
}

impl Rect {
    fn new(x: f64, y: f64, width: f64, height: f64) -> Self {
        Self { x, y, width, height }
    }
}

#[test]
fn records_requested_and_applied_rects_separately() {
    let mut history = WindowHistory::default();
    let requested = Rect::new(10.5, 20.5, 300.0, 200.0);
    let applied = Rect::new(11.0, 21.0, 300.0, 200.0);

    history.record_applied_command(WindowId(1), Command::Grow, requested, applied);

    let record = history.last_command(WindowId(1)).unwrap();
    assert_eq!(record.requested_rect, requested);
    assert_eq!(record.rect, applied);
}

#[test]
fn clears_all_history_for_one_window() {
    let mut history = WindowHistory::default();
    history.set_restore_rect(WindowId(1), Rect::new(0.0, 0.0, 100.0, 100.0));
    history.record_command(
        WindowId(1),
        Command::Maximize,
        Rect::new(0.0, 0.0, 500.0, 500.0),
    );

    history.clear_window(WindowId(1));

    assert_eq!(history.restore_rect(WindowId(1)), None);
    assert_eq!(history.last_command(WindowId(1)), None);
}

#[test]
fn repeated_commands_count_up_and_others_start_over() {
    let mut history = WindowHistory::new();
    let rect = Rect::new(0.0, 0.0, 10.0, 10.0);
    history.record_command(WindowId(2), Command::LeftHalf, rect);
    history.record_command(WindowId(2), Command::LeftHalf, rect);
    assert_eq!(
        history.last_command(WindowId(2)),
        Some(RecordedCommand {
            command: Command::LeftHalf,
            rect,
            requested_rect: rect,
            count: 2,
        })
    );
    history.record_command(WindowId(2), Command::RightHalf, rect);
    assert_eq!(history.last_command(WindowId(2)).unwrap().count, 1);
    history.clear_last_command(WindowId(2));
    assert_eq!(history.last_command(WindowId(2)), None);
}

#[test]
fn the_first_restore_rect_survives_later_commands() {
    let mut history = WindowHistory::new();
    let first_rect = Rect::new(5.0, 5.0, 50.0, 50.0);
    let half = Rect::new(0.0, 0.0, 500.0, 1000.0);
    history.record_execution(WindowId(9), Command::LeftHalf, first_rect, half, half);
    history.record_execution(WindowId(9), Command::Maximize, half, half, half);
    assert_eq!(history.restore_rect(WindowId(9)), Some(first_rect));
    assert_eq!(history.last_command(WindowId(9)).unwrap().command, Command::Maximize);
    assert_eq!(history.restore_rect(WindowId(8)), None);
    history.clear_restore_rect(WindowId(9));
    assert_eq!(history.restore_rect(WindowId(9)), None);
    history.clear();
    assert_eq!(history.last_command(WindowId(9)), None);
}

#[test]
fn recent_windows_stay_bounded_and_most_recent_last() {
    let mut recent = VecDeque::new();
    let mut evicted = Vec::new();
    for id in 0..(MAX_TRACKED_WINDOWS as u64 + 3) {
        evicted.extend(touch_recent_window(&mut recent, WindowId(id)));
    }
    assert_eq!(recent.len(), MAX_TRACKED_WINDOWS);
    assert_eq!(evicted, [WindowId(0), WindowId(1), WindowId(2)]);
    assert_eq!(recent.back(), Some(&WindowId(MAX_TRACKED_WINDOWS as u64 + 2)));

    let evicted = touch_recent_window(&mut recent, WindowId(10));
    assert!(evicted.is_empty());
    assert_eq!(recent.len(), MAX_TRACKED_WINDOWS);
    assert_eq!(recent.back(), Some(&WindowId(10)));
    assert_eq!(recent.iter().filter(|id| **id == WindowId(10)).count(), 1);

    remove_recent_window(&mut recent, WindowId(10));
    assert_eq!(recent.len(), MAX_TRACKED_WINDOWS - 1);
    assert!(!recent.contains(&WindowId(10)));
    remove_recent_window(&mut recent, WindowId(10));
    assert_eq!(recent.len(), MAX_TRACKED_WINDOWS - 1);
}

fn identity(app_id: &str, title: &str) -> WindowIdentity {
    WindowIdentity { app_id: app_id.to_owned(), title: title.to_owned() }
}

#[test]
fn a_reused_window_id_loses_the_history_of_the_old_window() {
    let mut history = WindowHistory::new();
    let mut identities = WindowIdentities::new();
    let rect = Rect::new(0.0, 0.0, 10.0, 10.0);

    assert!(identities.observe(&mut history, WindowId(1), identity("editor", "notes")).is_empty());
    history.record_execution(WindowId(1), Command::LeftHalf, rect, rect, rect);

    identities.observe(&mut history, WindowId(1), identity("editor", "notes"));
    assert_eq!(history.restore_rect(WindowId(1)), Some(rect));

    identities.observe(&mut history, WindowId(1), identity("browser", "notes"));
    assert_eq!(history.restore_rect(WindowId(1)), None);
    assert_eq!(history.last_command(WindowId(1)), None);
}

#[test]
fn identities_drop_the_least_recently_used_window() {
    let mut history = WindowHistory::new();
    let mut identities = WindowIdentities::new();
    let rect = Rect::new(1.0, 2.0, 3.0, 4.0);
    for id in 0..MAX_TRACKED_WINDOWS as u64 {
        identities.observe(&mut history, WindowId(id), identity("app", &id.to_string()));
        history.set_restore_rect(WindowId(id), rect);
    }
    identities.observe(&mut history, WindowId(0), identity("app", "0"));
    let evicted = identities.observe(&mut history, WindowId(999), identity("app", "new"));
    assert_eq!(evicted, [WindowId(1)]);
    assert_eq!(history.restore_rect(WindowId(1)), None);
    assert_eq!(history.restore_rect(WindowId(0)), Some(rect));

    identities.forget(&mut history, WindowId(0));
    assert_eq!(history.restore_rect(WindowId(0)), None);
    let evicted = identities.observe(&mut history, WindowId(1000), identity("app", "later"));
    assert!(evicted.is_empty());
}

#[test]
fn restore_refuses_missing_and_stale_history() {
    use_restore_target();
}

fn use_restore_target() {
    let mut history = WindowHistory::new();
    let before = Rect::new(1.0, 1.0, 10.0, 10.0);
    let after = Rect::new(0.0, 0.0, 20.0, 20.0);
    assert_eq!(
        restore_target(&mut history, WindowId(3), true),
        Err(CommandExecutionError::NoRestoreRect { window_id: WindowId(3) })
    );

    history.record_execution(WindowId(3), Command::Maximize, before, after, after);
    assert_eq!(restore_target(&mut history, WindowId(3), true), Ok(before));
    assert_eq!(history.restore_rect(WindowId(3)), Some(before));

    assert_eq!(
        restore_target(&mut history, WindowId(3), false),
        Err(CommandExecutionError::StaleWindowHistory { window_id: WindowId(3) })
    );
    assert_eq!(history.restore_rect(WindowId(3)), None);
    assert_eq!(history.last_command(WindowId(3)), None);
}
