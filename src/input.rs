use vstd::prelude::*;

use crate::geometry::Point;

verus! {

/// A press of the hardware button.
#[derive(Debug, Clone, Copy, PartialEq, Eq, Structural)]
pub enum ButtonEvent {
    ShortPress,
    LongPress,
}

/// A touch gesture, already classified, at a canvas point.
#[derive(Debug, Clone, Copy, PartialEq, Eq, Structural)]
pub enum TouchGesture {
    SingleTap(Point),
    DoubleTap(Point),
    SwipeUp(Point),
    SwipeDown(Point),
    SwipeLeft(Point),
    SwipeRight(Point),
}

/// One input handed to a screen.
#[derive(Debug, Clone, Copy, PartialEq, Eq, Structural)]
pub enum InputEvent {
    Touch(TouchGesture),
}

/// The event is a single tap, wherever it landed.
pub open spec fn is_single_tap(event: InputEvent) -> bool {
    event matches InputEvent::Touch(TouchGesture::SingleTap(_))
}

} // verus!
