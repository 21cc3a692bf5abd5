//! The two telemetry snapshots, as the library reads them.
use vstd::prelude::*;

verus! {

/// Discrete session and event telemetry for one tick.
pub struct EventSnapshot {
    pub aa_missile_fired: u8,
    pub bomb_dropped: u8,
    pub bullets_fired: u8,
    pub on_ground: bool,
    pub paused: bool,
    pub ejecting: bool,
    pub end_flight: bool,
    pub exit_game: bool,
}

/// Flight-dynamics quantities for one tick, each in its textual form.
///
/// `gear_value` and `afterburner` are the derived gear and afterburner
/// cues; the rest are the snapshot's own values.
pub struct FlightReadings {
    pub rpm: String,
    pub left_gear_pos: String,
    pub nose_gear_pos: String,
    pub right_gear_pos: String,
    pub x_dot: String,
    pub y_dot: String,
    pub z_dot: String,
    pub vt: String,
    pub kias: String,
    pub alpha: String,
    pub current_heading: String,
    pub pitch: String,
    pub roll: String,
    pub gear_value: String,
    pub speed_brake: String,
    pub afterburner: String,
    pub flare_count: String,
    pub chaff_count: String,
    pub mach: String,
}

} // verus!
