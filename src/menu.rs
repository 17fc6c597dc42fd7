use vstd::prelude::*;

use crate::controls::{
    item_rect, lemma_item_rows_on_canvas_and_apart, tap_in, MenuControl, MenuItem,
};
use crate::geometry::{disjoint, on_canvas, within, Point};
use crate::details::{FirmwareDetails, TimeDetails};
use crate::input::{InputEvent, TouchGesture};

verus! {

/// What a tap on a menu asks the application to do.
#[derive(Debug, Clone, Copy, PartialEq, Eq, Structural)]
pub enum MenuAction {
    Workout,
    Timer,
    FindPhone,
    Settings,
    FirmwareSettings,
    ValidateFirmware,
    Brightness,
    TimeSettings,
    ChangeTimeMinInc,
    ChangeTimeHourInc,
    ChangeTimeMinDec,
    ChangeTimeHourDec,
    Reset,
}

/// One element of a menu screen, in the order it is drawn.
#[derive(Debug, Clone, Copy, PartialEq, Eq)]
pub enum Widget {
    Item(MenuItem),
    Control(MenuControl),
    Firmware(FirmwareDetails),
    Clock(TimeDetails),
}

/// A menu screen and the controls it shows.
#[derive(Debug, Clone, Copy, PartialEq, Eq)]
pub enum MenuView {
    Main { workout: MenuItem, timer: MenuItem, find_phone: MenuItem, settings: MenuItem },
    Settings {
        firmware: MenuItem,
        brightness: MenuItem,
        time_settings: MenuItem,
        reset: MenuItem,
    },
    Firmware { details: FirmwareDetails, item: MenuItem },
    TimeSettings {
        details: TimeDetails,
        min_inc: MenuControl,
        hour_inc: MenuControl,
        min_dec: MenuControl,
        hour_dec: MenuControl,
    },
}

/// The label of the firmware screen's button: it says whether the running
/// firmware has already been validated.
pub open spec fn validate_label(validated: bool) -> &'static str {
    if validated {
        "Validated"
    } else {
        "Validate"
    }
}

/// `item` carries `label` in row `idx`.
pub open spec fn item_is(item: MenuItem, label: Seq<char>, idx: u32) -> bool {
    item.spec_label() == label && item.spec_index() == idx
}

/// `control` carries `label` in quadrant `idx`.
pub open spec fn control_is(control: MenuControl, label: Seq<char>, idx: u32) -> bool {
    control.spec_label() == label && control.spec_index() == idx
}

/// The main menu.
pub open spec fn main_menu() -> MenuView {
    MenuView::Main {
        workout: MenuItem::spec_new("Workout", 0),
        timer: MenuItem::spec_new("Timer", 1),
        find_phone: MenuItem::spec_new("Find Phone", 2),
        settings: MenuItem::spec_new("Settings", 3),
    }
}

/// The settings menu.
pub open spec fn settings_menu() -> MenuView {
    MenuView::Settings {
        firmware: MenuItem::spec_new("Firmware", 0),
        brightness: MenuItem::spec_new("Brightness", 1),
        time_settings: MenuItem::spec_new("Time", 2),
        reset: MenuItem::spec_new("Reset", 3),
    }
}

/// The firmware screen for `details`: its one button sits in the last row.
pub open spec fn firmware_menu(details: FirmwareDetails) -> MenuView {
    MenuView::Firmware {
        details,
        item: MenuItem::spec_new(validate_label(details.spec_validated()), 3),
    }
}

/// The clock-setting screen for `details`: hour up top-left, minute up
/// top-right, minute down bottom-left, hour down bottom-right.
pub open spec fn time_menu(details: TimeDetails) -> MenuView {
    MenuView::TimeSettings {
        details,
        hour_inc: MenuControl::spec_new("+", 0),
        min_inc: MenuControl::spec_new("+", 1),
        min_dec: MenuControl::spec_new("-", 2),
        hour_dec: MenuControl::spec_new("-", 3),
    }
}

/// The action of the first control of the screen, in field order, that the
/// event selects; `None` where it selects none.
pub open spec fn action_for(view: MenuView, event: InputEvent) -> Option<MenuAction> {
    match view {
        MenuView::Main { workout, timer, find_phone, settings } => {
            if tap_in(event, workout.rect()) {
                Some(MenuAction::Workout)
            } else if tap_in(event, timer.rect()) {
                Some(MenuAction::Timer)
            } else if tap_in(event, find_phone.rect()) {
                Some(MenuAction::FindPhone)
            } else if tap_in(event, settings.rect()) {
                Some(MenuAction::Settings)
            } else {
                None
            }
        },
        MenuView::Settings { firmware, brightness, time_settings, reset } => {
            if tap_in(event, firmware.rect()) {
                Some(MenuAction::FirmwareSettings)
            } else if tap_in(event, brightness.rect()) {
                Some(MenuAction::Brightness)
            } else if tap_in(event, time_settings.rect()) {
                Some(MenuAction::TimeSettings)
            } else if tap_in(event, reset.rect()) {
                Some(MenuAction::Reset)
            } else {
                None
            }
        },
        MenuView::Firmware { details, item } => {
            if tap_in(event, item.rect()) {
                Some(MenuAction::ValidateFirmware)
            } else {
                None
            }
        },
        MenuView::TimeSettings { details, min_inc, hour_inc, min_dec, hour_dec } => {
            if min_inc.hit(event) {
                Some(MenuAction::ChangeTimeMinInc)
            } else if hour_inc.hit(event) {
                Some(MenuAction::ChangeTimeHourInc)
            } else if min_dec.hit(event) {
                Some(MenuAction::ChangeTimeMinDec)
            } else if hour_dec.hit(event) {
                Some(MenuAction::ChangeTimeHourDec)
            } else {
                None
            }
        },
    }
}

/// The elements of the screen in the order they are drawn: the variant's
/// fields in declaration order.
pub open spec fn widgets_of(view: MenuView) -> Seq<Widget> {
    match view {
        MenuView::Main { workout, timer, find_phone, settings } => seq![
            Widget::Item(workout),
            Widget::Item(timer),
            Widget::Item(find_phone),
            Widget::Item(settings),
        ],
        MenuView::Settings { firmware, brightness, time_settings, reset } => seq![
            Widget::Item(firmware),
            Widget::Item(brightness),
            Widget::Item(time_settings),
            Widget::Item(reset),
        ],
        MenuView::Firmware { details, item } => seq![Widget::Firmware(details), Widget::Item(item)],
        MenuView::TimeSettings { details, min_inc, hour_inc, min_dec, hour_dec } => seq![
            Widget::Clock(details),
            Widget::Control(min_inc),
            Widget::Control(hour_inc),
            Widget::Control(min_dec),
            Widget::Control(hour_dec),
        ],
    }
}

impl MenuView {
    pub fn main() -> (r: MenuView)
        ensures
            r == main_menu(),
            r matches MenuView::Main { workout, timer, find_phone, settings } && item_is(
                workout,
                "Workout"@,
                0,
            ) && item_is(timer, "Timer"@, 1) && item_is(find_phone, "Find Phone"@, 2) && item_is(
                settings,
                "Settings"@,
                3,
            ),
    {
        MenuView::Main {
            workout: MenuItem::new("Workout", 0),
            timer: MenuItem::new("Timer", 1),
            find_phone: MenuItem::new("Find Phone", 2),
            settings: MenuItem::new("Settings", 3),
        }
    }

    pub fn settings() -> (r: MenuView)
        ensures
            r == settings_menu(),
            r matches MenuView::Settings { firmware, brightness, time_settings, reset } && item_is(
                firmware,
                "Firmware"@,
                0,
            ) && item_is(brightness, "Brightness"@, 1) && item_is(time_settings, "Time"@, 2)
                && item_is(reset, "Reset"@, 3),
    {
        MenuView::Settings {
            firmware: MenuItem::new("Firmware", 0),
            brightness: MenuItem::new("Brightness", 1),
            time_settings: MenuItem::new("Time", 2),
            reset: MenuItem::new("Reset", 3),
        }
    }

    pub fn firmware_settings(details: FirmwareDetails) -> (r: MenuView)
        ensures
            r == firmware_menu(details),
            r matches MenuView::Firmware { details: d, item } && d == details && item_is(
                item,
                validate_label(details.spec_validated())@,
                3,
            ),
    {
        let valid = details.validated();
        MenuView::Firmware {
            details,
            item: MenuItem::new(if valid { "Validated" } else { "Validate" }, 3),
        }
    }

    pub fn time_settings(details: TimeDetails) -> (r: MenuView)
        ensures
            r == time_menu(details),
            r matches MenuView::TimeSettings { details: d, min_inc, hour_inc, min_dec, hour_dec }
                && d == details && control_is(hour_inc, "+"@, 0) && control_is(min_inc, "+"@, 1)
                && control_is(min_dec, "-"@, 2) && control_is(hour_dec, "-"@, 3),
    {
        MenuView::TimeSettings {
            details,
            hour_inc: MenuControl::new("+", 0),
            min_inc: MenuControl::new("+", 1),
            min_dec: MenuControl::new("-", 2),
            hour_dec: MenuControl::new("-", 3),
        }
    }

    /// The elements to draw, after clearing the canvas, in order.
    pub fn widgets(&self) -> (r: Vec<Widget>)
        ensures
            r@ == widgets_of(*self),
    {
        match *self {
            MenuView::Main { workout, timer, find_phone, settings } => vec![
                Widget::Item(workout),
                Widget::Item(timer),
                Widget::Item(find_phone),
                Widget::Item(settings),
            ],
            MenuView::Settings { firmware, brightness, time_settings, reset } => vec![
                Widget::Item(firmware),
                Widget::Item(brightness),
                Widget::Item(time_settings),
                Widget::Item(reset),
            ],
            MenuView::Firmware { details, item } => vec![
                Widget::Firmware(details),
                Widget::Item(item),
            ],
            MenuView::TimeSettings { details, min_inc, hour_inc, min_dec, hour_dec } => vec![
                Widget::Clock(details),
                Widget::Control(min_inc),
                Widget::Control(hour_inc),
                Widget::Control(min_dec),
                Widget::Control(hour_dec),
            ],
        }
    }

    /// The action that the event selects on this screen, if any.
    pub fn on_event(&self, input: InputEvent) -> (r: Option<MenuAction>)
        ensures
            r == action_for(*self, input),
    {
        match self {
            MenuView::Main { workout, timer, find_phone, settings } => {
                if workout.is_clicked(input) {
                    Some(MenuAction::Workout)
                } else if timer.is_clicked(input) {
                    Some(MenuAction::Timer)
                } else if find_phone.is_clicked(input) {
                    Some(MenuAction::FindPhone)
                } else if settings.is_clicked(input) {
                    Some(MenuAction::Settings)
                } else {
                    None
                }
            },
            MenuView::Settings { firmware, brightness, time_settings, reset } => {
                if firmware.is_clicked(input) {
                    Some(MenuAction::FirmwareSettings)
                } else if brightness.is_clicked(input) {
                    Some(MenuAction::Brightness)
                } else if time_settings.is_clicked(input) {
                    Some(MenuAction::TimeSettings)
                } else if reset.is_clicked(input) {
                    Some(MenuAction::Reset)
                } else {
                    None
                }
            },
            MenuView::Firmware { details: _, item } => {
                if item.is_clicked(input) {
                    Some(MenuAction::ValidateFirmware)
                } else {
                    None
                }
            },
            MenuView::TimeSettings { details: _, min_inc, hour_inc, min_dec, hour_dec } => {
                if min_inc.is_clicked(input) {
                    Some(MenuAction::ChangeTimeMinInc)
                } else if hour_inc.is_clicked(input) {
                    Some(MenuAction::ChangeTimeHourInc)
                } else if min_dec.is_clicked(input) {
                    Some(MenuAction::ChangeTimeMinDec)
                } else if hour_dec.is_clicked(input) {
                    Some(MenuAction::ChangeTimeHourDec)
                } else {
                    None
                }
            },
        }
    }
}

/// The rows of the main menu and of the settings menu are the four rows of
/// the grid: on the canvas, and no two sharing a point.
pub proof fn lemma_list_menus_rows_apart(i: u32, j: u32)
    requires
        i < 4,
        j < 4,
        i != j,
    ensures
        widgets_of(main_menu()) == seq![
            Widget::Item(MenuItem::spec_new("Workout", 0)),
            Widget::Item(MenuItem::spec_new("Timer", 1)),
            Widget::Item(MenuItem::spec_new("Find Phone", 2)),
            Widget::Item(MenuItem::spec_new("Settings", 3)),
        ],
        widgets_of(settings_menu()) == seq![
            Widget::Item(MenuItem::spec_new("Firmware", 0)),
            Widget::Item(MenuItem::spec_new("Brightness", 1)),
            Widget::Item(MenuItem::spec_new("Time", 2)),
            Widget::Item(MenuItem::spec_new("Reset", 3)),
        ],
        on_canvas(item_rect(i as int).0, item_rect(i as int).1),
        disjoint(item_rect(i as int), item_rect(j as int)),
{
    lemma_item_rows_on_canvas_and_apart(i, j);
    assert(widgets_of(main_menu()) =~= seq![
        Widget::Item(MenuItem::spec_new("Workout", 0)),
        Widget::Item(MenuItem::spec_new("Timer", 1)),
        Widget::Item(MenuItem::spec_new("Find Phone", 2)),
        Widget::Item(MenuItem::spec_new("Settings", 3)),
    ]);
    assert(widgets_of(settings_menu()) =~= seq![
        Widget::Item(MenuItem::spec_new("Firmware", 0)),
        Widget::Item(MenuItem::spec_new("Brightness", 1)),
        Widget::Item(MenuItem::spec_new("Time", 2)),
        Widget::Item(MenuItem::spec_new("Reset", 3)),
    ]);
}

/// On the main menu a tap in the second row asks for the timer, and a tap
/// in none of the four rows asks for nothing.
pub proof fn lemma_main_menu_timer_row(p: Point)
    ensures
        within(p, item_rect(1).0, item_rect(1).1) ==> action_for(
            main_menu(),
            InputEvent::Touch(TouchGesture::SingleTap(p)),
        ) == Some(MenuAction::Timer),
        (forall|i: int| 0 <= i < 4 ==> !within(p, #[trigger] item_rect(i).0, item_rect(i).1))
            ==> action_for(main_menu(), InputEvent::Touch(TouchGesture::SingleTap(p))) is None,
{
    MenuItem::lemma_spec_new("Workout", 0);
    MenuItem::lemma_spec_new("Timer", 1);
    MenuItem::lemma_spec_new("Find Phone", 2);
    MenuItem::lemma_spec_new("Settings", 3);
    if within(p, item_rect(1).0, item_rect(1).1) {
        lemma_item_rows_on_canvas_and_apart(0, 1);
    }
    if forall|i: int| 0 <= i < 4 ==> !within(p, #[trigger] item_rect(i).0, item_rect(i).1) {
        assert(!within(p, item_rect(0).0, item_rect(0).1));
        assert(!within(p, item_rect(1).0, item_rect(1).1));
        assert(!within(p, item_rect(2).0, item_rect(2).1));
        assert(!within(p, item_rect(3).0, item_rect(3).1));
    }
}

/// Screens built from equal details are equal and draw the same elements in
/// the same order.
pub proof fn lemma_firmware_screen_repeatable(d1: FirmwareDetails, d2: FirmwareDetails)
    requires
        d1 == d2,
    ensures
        firmware_menu(d1) == firmware_menu(d2),
        widgets_of(firmware_menu(d1)) == widgets_of(firmware_menu(d2)),
{
}

/// Equal screens draw the same elements in the same order and select the
/// same action for the same event.
pub proof fn lemma_screen_deterministic(v1: MenuView, v2: MenuView, event: InputEvent)
    requires
        v1 == v2,
    ensures
        widgets_of(v1) == widgets_of(v2),
        action_for(v1, event) == action_for(v2, event),
{
}

/// Rebuilding the firmware screen after validation relabels its button from
/// "Validate" to "Validated" and leaves its row and band as they were.
pub proof fn lemma_validation_relabels(before: FirmwareDetails, after: FirmwareDetails)
    requires
        !before.spec_validated(),
        after.spec_validated(),
    ensures
        firmware_menu(before)->item.spec_label() == "Validate"@,
        firmware_menu(after)->item.spec_label() == "Validated"@,
        firmware_menu(before)->item.spec_index() == 3,
        firmware_menu(after)->item.spec_index() == 3,
        firmware_menu(before)->item.rect() == firmware_menu(after)->item.rect(),
{
    broadcast use MenuItem::lemma_spec_new;

}

} // verus!
