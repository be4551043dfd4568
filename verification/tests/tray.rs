use panes::command::{Command, CommandCategory};
use panes::platform::{HotkeyPlatform, MenuEntry, default_menu_entries};
use panes::tray::{
    accessibility_menu_item_state, command_menu_id, guide_text, icon_alpha, pretty_accelerator,
    tray_sections,
};

#[test]
fn pretty_accelerator_uses_macos_symbols() {
    assert_eq!(
        pretty_accelerator("Control+Alt+ArrowLeft"),
        "\u{2303}\u{2325}\u{2190}"
    );
    assert_eq!(
        pretty_accelerator("Control+Alt+Shift+ArrowUp"),
        "\u{2303}\u{2325}\u{21e7}\u{2191}"
    );
    assert_eq!(
        pretty_accelerator("Control+Alt+Digit1"),
        "\u{2303}\u{2325}1"
    );
    assert_eq!(pretty_accelerator("Control+Alt+U"), "\u{2303}\u{2325}U");
    assert_eq!(pretty_accelerator("Control+Alt+Equal"), "\u{2303}\u{2325}=");
}

#[test]
fn pretty_accelerator_keeps_unknown_parts_and_strips_key_prefixes() {
    assert_eq!(pretty_accelerator("Cmd+KeyQ"), "\u{2318}Q");
    assert_eq!(pretty_accelerator("Super+Backspace"), "\u{2318}\u{232b}");
    assert_eq!(pretty_accelerator("Option+F5"), "\u{2325}F5");
    assert_eq!(pretty_accelerator("Ctrl+Space+Minus"), "\u{2303}Space-");
    assert_eq!(pretty_accelerator(""), "");
    assert_eq!(pretty_accelerator("A++B"), "AB");
    assert_eq!(pretty_accelerator("Digit"), "");
}

#[test]
fn guide_text_groups_actions_by_category_with_shortcuts() {
    let entries = vec![
        MenuEntry {
            command: Command::LeftHalf,
            label: "Left Half".to_owned(),
            accelerator: Some("Control+Alt+ArrowLeft".to_owned()),
        },
        MenuEntry {
            command: Command::CenterHalf,
            label: "Center Half".to_owned(),
            accelerator: None,
        },
        MenuEntry {
            command: Command::Grow,
            label: "Grow".to_owned(),
            accelerator: Some("Control+Alt+Equal".to_owned()),
        },
    ];

    let text = guide_text(&entries);

    assert_eq!(
        text,
        "Halves\n\u{2303}\u{2325}\u{2190}\u{2002}\u{2002}Left Half\n\u{2014}\u{2002}\u{2002}Center Half\n\nResize\n\u{2303}\u{2325}=\u{2002}\u{2002}Grow\n"
    );
}

#[test]
fn guide_text_of_no_entries_is_empty() {
    assert_eq!(guide_text(&Vec::new()), "");
}

#[test]
fn command_menu_ids_are_namespaced() {
    assert_eq!(
        command_menu_id(Command::LeftHalf),
        "panes.command.left-half"
    );
}

#[test]
fn accessibility_menu_item_reflects_trust() {
    assert_eq!(
        accessibility_menu_item_state(false),
        ("Grant Accessibility Permission…", true)
    );
    assert_eq!(
        accessibility_menu_item_state(true),
        ("Accessibility Permission Granted", false)
    );
}

#[test]
fn tray_icon_uses_antialiased_rounded_geometry() {
    assert_eq!(icon_alpha(0, 0), 0);
    assert_eq!(icon_alpha(10, 5), u8::MAX);
    assert_eq!(icon_alpha(5, 10), u8::MAX);
    assert_eq!(icon_alpha(10, 10), 0);
    assert_eq!(icon_alpha(16, 10), u8::MAX);
    assert_eq!(icon_alpha(10, 16), u8::MAX);
    assert!((1..u8::MAX).contains(&icon_alpha(5, 5)));
}

#[test]
fn tray_icon_is_symmetric_and_clear_outside_its_frame() {
    for y in 0..32 {
        for x in 0..32 {
            assert_eq!(icon_alpha(x, y), icon_alpha(y, x));
            assert_eq!(icon_alpha(x, y), icon_alpha(31 - x, y));
        }
    }
    assert_eq!(icon_alpha(3, 16), 0);
    assert_eq!(icon_alpha(40, 16), 0);
    assert_eq!(icon_alpha(usize::MAX, usize::MAX), 0);
    assert_eq!(icon_alpha(5, 5), 95);
}

fn rounded_rect_contains_f32(x: f32, y: f32, left: f32, top: f32, right: f32, bottom: f32, radius: f32) -> bool {
    if !(left..=right).contains(&x) || !(top..=bottom).contains(&y) {
        return false;
    }
    let nearest_x = x.clamp(left + radius, right - radius);
    let nearest_y = y.clamp(top + radius, bottom - radius);
    let horizontal_distance = x - nearest_x;
    let vertical_distance = y - nearest_y;
    horizontal_distance.mul_add(horizontal_distance, vertical_distance * vertical_distance) <= radius * radius
}

fn icon_contains_f32(x: f32, y: f32) -> bool {
    let outer_frame = rounded_rect_contains_f32(x, y, 4.0, 4.0, 28.0, 28.0, 5.5)
        && !rounded_rect_contains_f32(x, y, 7.0, 7.0, 25.0, 25.0, 2.5);
    let vertical_divider = (14.5..=17.5).contains(&x) && (7.0..=25.0).contains(&y);
    let horizontal_divider = (14.5..=17.5).contains(&y) && (7.0..=25.0).contains(&x);
    outer_frame || vertical_divider || horizontal_divider
}

fn icon_alpha_f32(x: usize, y: usize) -> u8 {
    let mut covered_samples = 0;
    for sample_y in 0..4 {
        for sample_x in 0..4 {
            let point_x = x as f32 + (sample_x as f32 + 0.5) / 4.0;
            let point_y = y as f32 + (sample_y as f32 + 0.5) / 4.0;
            if icon_contains_f32(point_x, point_y) {
                covered_samples += 1;
            }
        }
    }
    (covered_samples * 255 / 16) as u8
}

#[test]
fn tray_icon_matches_sampling_in_pixel_units() {
    for y in 0..40 {
        for x in 0..40 {
            assert_eq!(icon_alpha(x, y), icon_alpha_f32(x, y), "pixel ({x}, {y})");
        }
    }
}

#[test]
fn tray_submenus_group_entries_by_category_in_order() {
    let entries = vec![
        MenuEntry { command: Command::Maximize, label: "Maximize".to_owned(), accelerator: None },
        MenuEntry { command: Command::LeftHalf, label: "Left Half".to_owned(), accelerator: None },
        MenuEntry { command: Command::Grow, label: "Grow".to_owned(), accelerator: None },
        MenuEntry { command: Command::RightHalf, label: "Right Half".to_owned(), accelerator: None },
    ];
    let sections = tray_sections(&entries);
    assert_eq!(
        sections,
        [
            (CommandCategory::Halves, vec![1, 3]),
            (Command::Maximize.category(), vec![0]),
            (Command::Grow.category(), vec![2]),
        ]
    );
    assert!(tray_sections(&Vec::new()).is_empty());

    let all = default_menu_entries(HotkeyPlatform::MacOs);
    let mut seen: Vec<usize> = tray_sections(&all)
        .into_iter()
        .flat_map(|(category, positions)| {
            for position in &positions {
                assert_eq!(all[*position].command.category(), category);
            }
            positions
        })
        .collect();
    assert_eq!(seen.len(), all.len());
    seen.sort_unstable();
    seen.dedup();
    assert_eq!(seen.len(), all.len());
}
