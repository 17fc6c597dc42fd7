use watchful_ui::clock::{DateTime, Duration, Weekday};
use watchful_ui::details::{FirmwareDetails, TimeDetails};
use watchful_ui::views::{BatteryGlyph, TimeView, TimerView, WorkoutView};

fn noon() -> DateTime {
    DateTime::new(2024, 1, 1, 12, 0, 0).unwrap()
}

#[test]
fn battery_glyph_bands() {
    let g = |level: u32, charging: bool| TimeView::new(noon(), level, charging).battery_glyph();
    assert_eq!(g(86, false), BatteryGlyph::Full);
    assert_eq!(g(85, false), BatteryGlyph::ThreeQuarters);
    assert_eq!(g(66, false), BatteryGlyph::ThreeQuarters);
    assert_eq!(g(65, false), BatteryGlyph::Half);
    assert_eq!(g(35, false), BatteryGlyph::Quarter);
    assert_eq!(g(11, false), BatteryGlyph::Quarter);
    assert_eq!(g(10, false), BatteryGlyph::Empty);
    assert_eq!(g(0, false), BatteryGlyph::Empty);
    assert_eq!(g(0, true), BatteryGlyph::Charging);
    assert_eq!(g(100, true), BatteryGlyph::Charging);
}

#[test]
fn timer_shows_total_minutes() {
    let t = TimerView::new(Duration::from_seconds(125), true);
    assert_eq!(t.remaining_text(), "02:05");
    let t = TimerView::new(Duration::from_seconds(3661), false);
    assert_eq!(t.remaining_text(), "61:01");
    let t = TimerView::new(Duration::from_seconds(0), false);
    assert_eq!(t.remaining_text(), "00:00");
    let t = TimerView::new(Duration::from_seconds(-65), false);
    assert_eq!(t.remaining_text(), "-1:-5");
}

#[test]
fn timer_text_cut_to_a_line() {
    let t = TimerView::new(Duration::from_seconds(i64::MAX), false);
    assert_eq!(t.remaining_text(), "1537228672809129");
}

#[test]
fn workout_lines() {
    let w = WorkoutView::new(72, Duration::from_seconds(125));
    assert_eq!(w.heart_rate_text(), "072");
    assert_eq!(w.duration_text(), "002:125");
    let w = WorkoutView::new(1234, Duration::from_seconds(5));
    assert_eq!(w.heart_rate_text(), "1234");
    assert_eq!(w.duration_text(), "000:05");
    let w = WorkoutView::new(0, Duration::from_seconds(i64::MIN));
    assert_eq!(w.duration_text(), "-153722867280912");
}

#[test]
fn time_view_lines() {
    let t = DateTime::new(2024, 1, 1, 9, 5, 30).unwrap();
    let v = TimeView::new(t, 50, false);
    assert_eq!(v.time_text(), "09:05");
    assert_eq!(v.date_text(), "Mon 1");
    let t = DateTime::new(2000, 1, 15, 23, 59, 59).unwrap();
    assert_eq!(TimeView::new(t, 50, false).date_text(), "Sat 15");
    assert_eq!(TimeDetails::new(t).time_text(), "23:59");
}

#[test]
fn date_time_weekday_from_calendar() {
    assert_eq!(DateTime::new(2024, 2, 29, 0, 0, 0).unwrap().weekday(), Weekday::Thursday);
    assert_eq!(DateTime::new(2026, 10, 16, 0, 0, 0).unwrap().weekday(), Weekday::Friday);
    assert_eq!(DateTime::new(2000, 1, 1, 0, 0, 0).unwrap().weekday(), Weekday::Saturday);
}

#[test]
fn date_time_rejects_out_of_range() {
    assert_eq!(DateTime::new(2023, 2, 29, 0, 0, 0), None);
    assert_eq!(DateTime::new(2024, 13, 1, 0, 0, 0), None);
    assert_eq!(DateTime::new(2024, 0, 1, 0, 0, 0), None);
    assert_eq!(DateTime::new(2024, 4, 31, 0, 0, 0), None);
    assert_eq!(DateTime::new(2024, 4, 0, 0, 0, 0), None);
    assert_eq!(DateTime::new(10000, 1, 1, 0, 0, 0), None);
    assert_eq!(DateTime::new(2024, 1, 1, 24, 0, 0), None);
    assert_eq!(DateTime::new(2024, 1, 1, 0, 60, 0), None);
    assert_eq!(DateTime::new(2024, 1, 1, 0, 0, 60), None);
    assert!(DateTime::new(1900, 2, 28, 0, 0, 0).is_some());
    assert_eq!(DateTime::new(1900, 2, 29, 0, 0, 0), None);
    assert!(DateTime::new(-9999, 1, 1, 0, 0, 0).is_some());
}

#[test]
fn firmware_paragraph() {
    let d = FirmwareDetails::new("watchful", "0.1.0", "abc123", "2024-01-01", 80, false, false);
    assert_eq!(
        d.info_text(),
        "Name: watchful\nVersion: 0.1.0\nCommit: abc123\nBuild: 2024-01-01\nBattery: 80%"
    );
    let d = FirmwareDetails::new("w", "1", "c", "b", 7, true, true);
    assert_eq!(
        d.info_text(),
        "Name: w\nVersion: 1\nCommit: c\nBuild: b\nBattery: 7%(Charging)"
    );
    assert!(d.validated());
}

#[test]
fn firmware_paragraph_cut_to_capacity() {
    let long: &'static str = Box::leak("x".repeat(500).into_boxed_str());
    let d = FirmwareDetails::new(long, "1", "c", "b", 7, false, false);
    let expected = format!("Name: {}\nVersi", long);
    assert_eq!(d.info_text(), expected);
    assert_eq!(d.info_text().chars().count(), 512);
}
