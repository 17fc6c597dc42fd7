use vstd::prelude::*;

use crate::clock::{abbreviation, div_toward_zero, rem_toward_zero, DateTime, Duration};
use crate::text::{append_padded, decimal, lemma_two_places, padded};

verus! {

/// Characters that a line of a screen view holds; a longer text is cut.
pub const LINE_CAPACITY: usize = 16;

/// `h` and `m` as `HH:MM`.
pub open spec fn clock_text(h: int, m: int) -> Seq<char> {
    padded(h, 2) + seq![':'] + padded(m, 2)
}

/// The first `capacity` characters of `s`, or all of it where it is shorter.
pub open spec fn clip(s: Seq<char>, capacity: nat) -> Seq<char> {
    if s.len() <= capacity {
        s
    } else {
        s.subrange(0, capacity as int)
    }
}

/// Cuts `s` down to its first `capacity` characters.
pub fn clip_text(s: String, capacity: usize) -> (r: String)
    ensures
        r@ == clip(s@, capacity as nat),
{
    let len = s.as_str().unicode_len();
    if len <= capacity {
        s
    } else {
        String::from_str(s.as_str().substring_char(0, capacity))
    }
}

/// Writes `HH:MM`.
pub fn format_clock(h: i64, m: i64) -> (r: String)
    ensures
        r@ == clock_text(h as int, m as int),
{
    let mut s = String::new();
    append_padded(&mut s, h, 2);
    s.append(":");
    append_padded(&mut s, m, 2);
    proof {
        reveal_strlit(":");
    }
    assert(s@ =~= clock_text(h as int, m as int));
    s
}

/// The glyph that shows the battery's state.
#[derive(Debug, Clone, Copy, PartialEq, Eq, Structural)]
pub enum BatteryGlyph {
    Charging,
    Full,
    ThreeQuarters,
    Half,
    Quarter,
    Empty,
}

/// Charging shows its own glyph whatever the level; otherwise the level
/// picks a band, each bound exclusive.
pub open spec fn glyph_for(level: int, charging: bool) -> BatteryGlyph {
    if charging {
        BatteryGlyph::Charging
    } else if level > 85 {
        BatteryGlyph::Full
    } else if level > 65 {
        BatteryGlyph::ThreeQuarters
    } else if level > 35 {
        BatteryGlyph::Half
    } else if level > 10 {
        BatteryGlyph::Quarter
    } else {
        BatteryGlyph::Empty
    }
}

/// The watch face: time of day, date and battery state.
#[derive(Debug, Clone, Copy, PartialEq, Eq)]
pub struct TimeView {
    pub time: DateTime,
    pub battery_level: u32,
    pub battery_charging: bool,
}

impl TimeView {
    pub fn new(time: DateTime, battery_level: u32, battery_charging: bool) -> (r: TimeView)
        ensures
            r.time == time,
            r.battery_level == battery_level,
            r.battery_charging == battery_charging,
    {
        TimeView { time, battery_level, battery_charging }
    }

    /// The large line: hour and minute as `HH:MM`.
    pub fn time_text(&self) -> (r: String)
        ensures
            r@ == clock_text(self.time.spec_hour(), self.time.spec_minute()),
            r@.len() == 5,
    {
        let h = self.time.hour();
        let m = self.time.minute();
        proof {
            lemma_two_places(h as int);
            lemma_two_places(m as int);
        }
        format_clock(h as i64, m as i64)
    }

    /// The small line: the weekday's first three letters, a space and the
    /// day of the month.
    pub fn date_text(&self) -> (r: String)
        ensures
            r@ == abbreviation(self.time.spec_weekday()) + seq![' '] + decimal(
                self.time.spec_day(),
            ),
    {
        let mut s = String::from_str(self.time.weekday().abbreviation());
        s.append(" ");
        append_padded(&mut s, self.time.day() as i64, 0);
        proof {
            reveal_strlit(" ");
        }
        assert(s@ =~= abbreviation(self.time.spec_weekday()) + seq![' '] + decimal(
            self.time.spec_day(),
        ));
        s
    }

    /// The battery glyph in the top-right corner.
    pub fn battery_glyph(&self) -> (r: BatteryGlyph)
        ensures
            r == glyph_for(self.battery_level as int, self.battery_charging),
    {
        if self.battery_charging {
            BatteryGlyph::Charging
        } else if self.battery_level > 85 {
            BatteryGlyph::Full
        } else if self.battery_level > 65 {
            BatteryGlyph::ThreeQuarters
        } else if self.battery_level > 35 {
            BatteryGlyph::Half
        } else if self.battery_level > 10 {
            BatteryGlyph::Quarter
        } else {
            BatteryGlyph::Empty
        }
    }
}

/// The text of a workout's duration: whole minutes, at least three digits,
/// then the whole seconds of the span, at least two digits, not reduced
/// below sixty.
pub open spec fn workout_duration_text(seconds: int) -> Seq<char> {
    padded(div_toward_zero(seconds, 60), 3) + seq![':'] + padded(seconds, 2)
}

/// The text of a countdown: whole minutes, then the seconds left over, each
/// at least two digits.
pub open spec fn countdown_text(seconds: int) -> Seq<char> {
    padded(div_toward_zero(seconds, 60), 2) + seq![':'] + padded(rem_toward_zero(seconds, 60), 2)
}

/// A workout in progress: heart rate and time elapsed.
#[derive(Debug, Clone, Copy, PartialEq, Eq)]
pub struct WorkoutView {
    hr: u32,
    duration: Duration,
}

impl WorkoutView {
    pub closed spec fn spec_hr(&self) -> u32 {
        self.hr
    }

    pub closed spec fn spec_duration(&self) -> Duration {
        self.duration
    }

    pub fn new(hr: u32, duration: Duration) -> (r: WorkoutView)
        ensures
            r.spec_hr() == hr,
            r.spec_duration() == duration,
    {
        WorkoutView { hr, duration }
    }

    /// The heart rate, zero-padded to three digits.
    pub fn heart_rate_text(&self) -> (r: String)
        ensures
            r@ == padded(self.spec_hr() as int, 3),
    {
        let mut s = String::new();
        append_padded(&mut s, self.hr as i64, 3);
        assert(s@ =~= padded(self.spec_hr() as int, 3));
        s
    }

    /// The elapsed time as minutes and seconds, cut to a line.
    pub fn duration_text(&self) -> (r: String)
        ensures
            r@ == clip(
                workout_duration_text(self.spec_duration().seconds as int),
                LINE_CAPACITY as nat,
            ),
    {
        let mut s = String::new();
        append_padded(&mut s, self.duration.whole_minutes(), 3);
        s.append(":");
        append_padded(&mut s, self.duration.whole_seconds(), 2);
        proof {
            reveal_strlit(":");
        }
        assert(s@ =~= workout_duration_text(self.duration.seconds as int));
        clip_text(s, LINE_CAPACITY)
    }
}

/// A countdown timer.
#[derive(Debug, Clone, Copy, PartialEq, Eq)]
pub struct TimerView {
    pub remaining: Duration,
    pub running: bool,
}

impl TimerView {
    pub fn new(remaining: Duration, running: bool) -> (r: TimerView)
        ensures
            r.remaining == remaining,
            r.running == running,
    {
        TimerView { remaining, running }
    }

    /// The time left as `MM:SS`, minutes not wrapped into hours, cut to a
    /// line.
    pub fn remaining_text(&self) -> (r: String)
        ensures
            r@ == clip(countdown_text(self.remaining.seconds as int), LINE_CAPACITY as nat),
    {
        let minutes = self.remaining.whole_minutes();
        let seconds: i64 = self.remaining.whole_seconds() - 60 * minutes;
        let mut s = String::new();
        append_padded(&mut s, minutes, 2);
        s.append(":");
        append_padded(&mut s, seconds, 2);
        proof {
            reveal_strlit(":");
        }
        assert(s@ =~= countdown_text(self.remaining.seconds as int));
        clip_text(s, LINE_CAPACITY)
    }
}

/// While charging, the charging glyph shows whatever the level.
pub proof fn lemma_charging_overrides_level(a: u32, b: u32)
    ensures
        glyph_for(a as int, true) == BatteryGlyph::Charging,
        glyph_for(a as int, true) == glyph_for(b as int, true),
{
}

} // verus!
