use vstd::prelude::*;

use crate::clock::DateTime;
use crate::text::{append_padded, decimal, lemma_two_places};
use crate::views::{clip, clip_text, clock_text, format_clock};

verus! {

/// Characters that the firmware paragraph holds; a longer text is cut.
pub const PARAGRAPH_CAPACITY: usize = 512;

/// The firmware paragraph: one line each for name, version, commit and
/// build, then the battery level in percent, marked while charging.
pub open spec fn firmware_text(
    name: Seq<char>,
    version: Seq<char>,
    commit: Seq<char>,
    build: Seq<char>,
    level: int,
    charging: bool,
) -> Seq<char> {
    "Name: "@ + name + "\nVersion: "@ + version + "\nCommit: "@ + commit + "\nBuild: "@ + build
        + "\nBattery: "@ + decimal(level) + "%"@ + if charging {
        "(Charging)"@
    } else {
        Seq::empty()
    }
}

/// What the running firmware reports about itself, with the battery state.
#[derive(Debug, Clone, Copy, PartialEq, Eq)]
pub struct FirmwareDetails {
    name: &'static str,
    version: &'static str,
    commit: &'static str,
    build_timestamp: &'static str,
    battery_level: u32,
    battery_charging: bool,
    validated: bool,
}

impl FirmwareDetails {
    pub closed spec fn spec_validated(&self) -> bool {
        self.validated
    }

    /// The paragraph that describes these details.
    pub closed spec fn spec_text(&self) -> Seq<char> {
        firmware_text(
            self.name@,
            self.version@,
            self.commit@,
            self.build_timestamp@,
            self.battery_level as int,
            self.battery_charging,
        )
    }

    /// The details built from these values.
    pub closed spec fn spec_new(
        name: &'static str,
        version: &'static str,
        commit: &'static str,
        build_timestamp: &'static str,
        battery_level: u32,
        battery_charging: bool,
        validated: bool,
    ) -> FirmwareDetails {
        FirmwareDetails {
            name,
            version,
            commit,
            build_timestamp,
            battery_level,
            battery_charging,
            validated,
        }
    }

    /// Details are equal exactly when they were built from equal values.
    pub proof fn lemma_equal_by_value(
        a: (&'static str, &'static str, &'static str, &'static str, u32, bool, bool),
        b: (&'static str, &'static str, &'static str, &'static str, u32, bool, bool),
    )
        ensures
            FirmwareDetails::spec_new(a.0, a.1, a.2, a.3, a.4, a.5, a.6)
                == FirmwareDetails::spec_new(b.0, b.1, b.2, b.3, b.4, b.5, b.6) <==> a == b,
    {
    }

    pub fn new(
        name: &'static str,
        version: &'static str,
        commit: &'static str,
        build_timestamp: &'static str,
        battery_level: u32,
        battery_charging: bool,
        validated: bool,
    ) -> (r: FirmwareDetails)
        ensures
            r == FirmwareDetails::spec_new(
                name,
                version,
                commit,
                build_timestamp,
                battery_level,
                battery_charging,
                validated,
            ),
            r.spec_validated() == validated,
            r.spec_text() == firmware_text(
                name@,
                version@,
                commit@,
                build_timestamp@,
                battery_level as int,
                battery_charging,
            ),
    {
        FirmwareDetails {
            name,
            version,
            commit,
            build_timestamp,
            battery_level,
            battery_charging,
            validated,
        }
    }

    /// Whether the running firmware has been marked good.
    pub fn validated(&self) -> (r: bool)
        ensures
            r == self.spec_validated(),
    {
        self.validated
    }

    /// The paragraph, cut to the paragraph capacity.
    pub fn info_text(&self) -> (r: String)
        ensures
            r@ == clip(self.spec_text(), PARAGRAPH_CAPACITY as nat),
    {
        let mut s = String::from_str("Name: ");
        s.append(self.name);
        s.append("\nVersion: ");
        s.append(self.version);
        s.append("\nCommit: ");
        s.append(self.commit);
        s.append("\nBuild: ");
        s.append(self.build_timestamp);
        s.append("\nBattery: ");
        append_padded(&mut s, self.battery_level as i64, 0);
        s.append("%");
        if self.battery_charging {
            s.append("(Charging)");
        }
        assert(s@ =~= self.spec_text());
        clip_text(s, PARAGRAPH_CAPACITY)
    }
}

/// The time of day shown above the clock-setting controls.
#[derive(Debug, Clone, Copy, PartialEq, Eq)]
pub struct TimeDetails {
    pub time: DateTime,
}

impl TimeDetails {
    pub fn new(time: DateTime) -> (r: TimeDetails)
        ensures
            r.time == time,
    {
        TimeDetails { time }
    }

    /// Hour and minute as `HH:MM`.
    pub fn time_text(&self) -> (r: String)
        ensures
            r@ == clock_text(self.time.spec_hour(), self.time.spec_minute()),
            r@.len() == 5,
    {
        let h = self.time.hour();
        let m = self.time.minute();
        proof {
            lemma_two_places(h as int);
            lemma_two_places(m as int);
        }
        format_clock(h as i64, m as i64)
    }
}

} // verus!
