use tray_shell::geometry::{anchored_position, Position, TrayRect, WindowSize};

#[test]
fn anchor_centers_window_under_icon() {
    let rect = TrayRect { x: 100, y: 20, width: 24, height: 24 };
    let size = WindowSize { width: 300, height: 400 };
    // x = 100 + 24/2 - 300/2 = -38, y = 20 + 24 = 44.
    assert_eq!(
        anchored_position(&rect, &size),
        Some(Position { x: -38, y: 44 })
    );
}

#[test]
fn anchor_halves_widths_by_integer_division() {
    let rect = TrayRect { x: 10, y: 5, width: 25, height: 3 };
    let size = WindowSize { width: 301, height: 50 };
    // x = 10 + 25/2 - 301/2 = 10 + 12 - 150 = -128, y = 5 + 3 = 8.
    assert_eq!(
        anchored_position(&rect, &size),
        Some(Position { x: -128, y: 8 })
    );
}

#[test]
fn anchor_at_origin_icon() {
    let rect = TrayRect { x: 0, y: 0, width: 0, height: 0 };
    let size = WindowSize { width: 0, height: 0 };
    assert_eq!(anchored_position(&rect, &size), Some(Position { x: 0, y: 0 }));
}

#[test]
fn unrepresentable_anchor_is_not_requested() {
    // y = i32::MAX + 1 overflows the coordinate range: no position.
    let rect = TrayRect { x: 0, y: i32::MAX, width: 2, height: 1 };
    let size = WindowSize { width: 2, height: 1 };
    assert_eq!(anchored_position(&rect, &size), None);

    // x far below i32::MIN: no position.
    let rect = TrayRect { x: i32::MIN, y: 0, width: 0, height: 0 };
    let size = WindowSize { width: u32::MAX, height: 1 };
    assert_eq!(anchored_position(&rect, &size), None);
}

#[test]
fn anchor_accepts_extreme_but_representable_values() {
    // y = i32::MAX - 1 + 1 = i32::MAX stays representable.
    let rect = TrayRect { x: 7, y: i32::MAX - 1, width: 10, height: 1 };
    let size = WindowSize { width: 10, height: 1 };
    assert_eq!(
        anchored_position(&rect, &size),
        Some(Position { x: 7, y: i32::MAX })
    );
}
