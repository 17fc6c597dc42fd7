use watchful_ui::controls::{MenuControl, MenuItem};
use watchful_ui::clock::DateTime;
use watchful_ui::details::{FirmwareDetails, TimeDetails};
use watchful_ui::geometry::Point;
use watchful_ui::input::{InputEvent, TouchGesture};
use watchful_ui::menu::{MenuAction, MenuView, Widget};

fn tap(x: i32, y: i32) -> InputEvent {
    InputEvent::Touch(TouchGesture::SingleTap(Point::new(x, y)))
}

fn details(validated: bool) -> FirmwareDetails {
    FirmwareDetails::new("watchful", "0.1.0", "abc123", "2024-01-01", 80, false, validated)
}

#[test]
fn item_rows_follow_the_grid() {
    let rows: Vec<(Point, Point)> = (0..4).map(|i| MenuItem::new("x", i).placement()).collect();
    assert_eq!(rows[0], (Point::new(10, 10), Point::new(230, 50)));
    assert_eq!(rows[1], (Point::new(10, 70), Point::new(230, 110)));
    assert_eq!(rows[2], (Point::new(10, 130), Point::new(230, 170)));
    assert_eq!(rows[3], (Point::new(10, 190), Point::new(230, 230)));
    for i in 0..4 {
        for j in 0..4 {
            if i != j {
                let (a, b) = (rows[i], rows[j]);
                assert!(a.1.y < b.0.y || b.1.y < a.0.y);
            }
        }
        assert!(rows[i].0.x >= 0 && rows[i].1.x < 240 && rows[i].0.y >= 0 && rows[i].1.y < 240);
    }
}

#[test]
fn item_label_anchor_sits_in_its_row() {
    assert_eq!(MenuItem::new("x", 2).label_anchor(), Point::new(120, 160));
}

#[test]
fn control_quadrants_are_fixed() {
    assert_eq!(MenuControl::new("+", 0).placement(), (Point::new(20, 20), Point::new(110, 70)));
    assert_eq!(MenuControl::new("-", 1).placement(), (Point::new(130, 20), Point::new(220, 70)));
    assert_eq!(MenuControl::new("+", 2).placement(), (Point::new(20, 170), Point::new(110, 220)));
    assert_eq!(MenuControl::new("-", 3).placement(), (Point::new(130, 170), Point::new(220, 220)));
    assert_eq!(
        MenuControl::new("a", 2).placement(),
        MenuControl::new("b", 2).placement()
    );
    assert_eq!(MenuControl::new("+", 0).label_anchor(), Point::new(65, 53));
}

#[test]
fn stray_control_is_empty_and_never_hit() {
    let c = MenuControl::new("?", 7);
    assert_eq!(c.placement(), (Point::new(0, 0), Point::new(0, 0)));
    assert!(!c.is_clicked(tap(0, 0)));
    assert!(!c.is_clicked(tap(5, 5)));
}

#[test]
fn taps_inside_and_on_corners_hit() {
    let item = MenuItem::new("Timer", 1);
    assert!(item.is_clicked(tap(100, 90)));
    assert!(item.is_clicked(tap(10, 70)));
    assert!(item.is_clicked(tap(230, 110)));
    assert!(!item.is_clicked(tap(9, 90)));
    assert!(!item.is_clicked(tap(100, 111)));
    let control = MenuControl::new("+", 3);
    assert!(control.is_clicked(tap(130, 170)));
    assert!(control.is_clicked(tap(220, 220)));
    assert!(control.is_clicked(tap(150, 200)));
    assert!(!control.is_clicked(tap(129, 200)));
    assert!(!control.is_clicked(tap(150, 221)));
}

#[test]
fn gestures_other_than_a_tap_never_hit() {
    let p = Point::new(100, 90);
    let item = MenuItem::new("Timer", 1);
    let control = MenuControl::new("+", 0);
    let q = Point::new(50, 50);
    for g in [
        TouchGesture::DoubleTap(p),
        TouchGesture::SwipeUp(p),
        TouchGesture::SwipeDown(p),
        TouchGesture::SwipeLeft(p),
        TouchGesture::SwipeRight(p),
    ] {
        assert!(!item.is_clicked(InputEvent::Touch(g)));
    }
    for g in [
        TouchGesture::DoubleTap(q),
        TouchGesture::SwipeUp(q),
        TouchGesture::SwipeDown(q),
        TouchGesture::SwipeLeft(q),
        TouchGesture::SwipeRight(q),
    ] {
        assert!(!control.is_clicked(InputEvent::Touch(g)));
    }
    assert!(control.is_clicked(tap(50, 50)));
}

#[test]
fn main_menu_tap_on_timer_row() {
    let menu = MenuView::main();
    assert_eq!(menu.on_event(tap(120, 90)), Some(MenuAction::Timer));
    assert_eq!(menu.on_event(tap(120, 30)), Some(MenuAction::Workout));
    assert_eq!(menu.on_event(tap(120, 150)), Some(MenuAction::FindPhone));
    assert_eq!(menu.on_event(tap(120, 210)), Some(MenuAction::Settings));
    assert_eq!(menu.on_event(tap(120, 60)), None);
    assert_eq!(menu.on_event(tap(5, 90)), None);
    assert_eq!(menu.on_event(tap(120, 235)), None);
}

#[test]
fn settings_menu_actions() {
    let menu = MenuView::settings();
    assert_eq!(menu.on_event(tap(120, 30)), Some(MenuAction::FirmwareSettings));
    assert_eq!(menu.on_event(tap(120, 90)), Some(MenuAction::Brightness));
    assert_eq!(menu.on_event(tap(120, 150)), Some(MenuAction::TimeSettings));
    assert_eq!(menu.on_event(tap(120, 210)), Some(MenuAction::Reset));
    assert_eq!(
        menu.on_event(InputEvent::Touch(TouchGesture::SwipeLeft(Point::new(120, 30)))),
        None
    );
}

#[test]
fn firmware_menu_validates_from_last_row() {
    let menu = MenuView::firmware_settings(details(false));
    assert_eq!(menu.on_event(tap(120, 210)), Some(MenuAction::ValidateFirmware));
    assert_eq!(menu.on_event(tap(120, 30)), None);
}

#[test]
fn time_settings_controls_by_quadrant() {
    let t = DateTime::new(2024, 1, 1, 9, 5, 0).unwrap();
    let menu = MenuView::time_settings(TimeDetails::new(t));
    assert_eq!(menu.on_event(tap(50, 50)), Some(MenuAction::ChangeTimeHourInc));
    assert_eq!(menu.on_event(tap(150, 50)), Some(MenuAction::ChangeTimeMinInc));
    assert_eq!(menu.on_event(tap(50, 200)), Some(MenuAction::ChangeTimeMinDec));
    assert_eq!(menu.on_event(tap(150, 200)), Some(MenuAction::ChangeTimeHourDec));
    assert_eq!(menu.on_event(tap(120, 120)), None);
}

#[test]
fn firmware_screen_is_repeatable() {
    let a = MenuView::firmware_settings(details(true));
    let b = MenuView::firmware_settings(details(true));
    assert_eq!(a, b);
    assert_eq!(a.widgets(), b.widgets());
}

#[test]
fn validation_relabels_the_button_only() {
    let before = MenuView::firmware_settings(details(false));
    let after = MenuView::firmware_settings(details(true));
    match (before, after) {
        (MenuView::Firmware { item: b, .. }, MenuView::Firmware { item: a, .. }) => {
            assert_eq!(b.label(), "Validate");
            assert_eq!(a.label(), "Validated");
            assert_eq!(b.index(), 3);
            assert_eq!(a.index(), 3);
            assert_eq!(a.placement(), b.placement());
        }
        _ => panic!("not a firmware screen"),
    }
}

#[test]
fn widgets_follow_field_order() {
    let w = MenuView::main().widgets();
    let labels: Vec<&str> = w
        .iter()
        .map(|x| match x {
            Widget::Item(i) => i.label(),
            _ => "",
        })
        .collect();
    assert_eq!(labels, vec!["Workout", "Timer", "Find Phone", "Settings"]);
    let t = DateTime::new(2024, 1, 1, 9, 5, 0).unwrap();
    let w = MenuView::time_settings(TimeDetails::new(t)).widgets();
    assert_eq!(w.len(), 5);
    assert!(matches!(w[0], Widget::Clock(_)));
    let idx: Vec<u32> = w[1..]
        .iter()
        .map(|x| match x {
            Widget::Control(c) => c.index(),
            _ => 99,
        })
        .collect();
    assert_eq!(idx, vec![1, 0, 2, 3]);
}

#[test]
fn firmware_details_equal_by_value() {
    assert_eq!(details(true), details(true));
    assert_ne!(details(true), details(false));
    assert_ne!(
        FirmwareDetails::new("a", "1", "c", "b", 7, false, false),
        FirmwareDetails::new("a", "1", "c", "b", 8, false, false)
    );
}
