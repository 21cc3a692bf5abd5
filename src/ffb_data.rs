//! The device parameter set: its derivation from the telemetry snapshots
//! and its encoding as a `key,value;` frame.
use vstd::prelude::*;
use crate::decimal::{nat_digits, u64_text};
use crate::snapshot::{EventSnapshot, FlightReadings};
use crate::weapons::{
    cannon_shells, descriptor_listed, latch_step, latched, tilde_joined, weapon_list, weapon_text,
    FULL_CANNON_LOAD,
};

verus! {

/// The one supported aircraft profile.
pub const AIRCRAFT_NAME: &'static str = "F-16C_50";
/// Number of values the parameter set holds.
pub const FIELD_COUNT: usize = 43;
/// Number of `key,value;` tokens in a frame: the values and the rotor token.
pub const FRAME_TOKEN_COUNT: usize = 44;
/// Position in the frame of the rotor token, whose value is fixed.
pub const ROTOR_POSITION: usize = 26;
/// Altitude above sea level; not yet sourced from telemetry.
pub const ALTITUDE_SEA_LEVEL: &'static str = "245";
/// Position of the weapon field among the values.
pub const WEAPON_POSITION: usize = 32;
/// Position of the cannon rounds field among the values.
pub const CANNON_POSITION: usize = 35;
/// Value of the fields that telemetry does not yet populate.
pub const UNSOURCED: &'static str = "0";

/// The texts held by a sequence of strings.
pub open spec fn texts(v: Seq<String>) -> Seq<Seq<char>> {
    Seq::new(v.len(), |i: int| v[i]@)
}

/// The values a tick derives, in frame order.
pub open spec fn computed_values(f: FlightReadings, weapon: Seq<char>, shells: nat) -> Seq<Seq<char>> {
    seq![
        AIRCRAFT_NAME@, f.rpm@, UNSOURCED@, f.left_gear_pos@, f.nose_gear_pos@, f.right_gear_pos@,
        // acceleration and wind vectors
        UNSOURCED@, UNSOURCED@, UNSOURCED@, UNSOURCED@, UNSOURCED@, UNSOURCED@,
        f.x_dot@, f.y_dot@, f.z_dot@, f.vt@, f.kias@, f.z_dot@,
        f.alpha@, f.current_heading@, f.pitch@, f.roll@,
        // side-slip angle, Euler rates, canopy and flaps
        UNSOURCED@, UNSOURCED@, UNSOURCED@, UNSOURCED@, UNSOURCED@, UNSOURCED@,
        f.gear_value@, f.speed_brake@, UNSOURCED@, f.afterburner@,
        weapon, f.flare_count@, f.chaff_count@, nat_digits(shells), f.mach@,
        ALTITUDE_SEA_LEVEL@,
        // console and instrument lighting cues
        UNSOURCED@, UNSOURCED@, UNSOURCED@, UNSOURCED@, UNSOURCED@
    ]
}

/// The values of a parameter set that no tick has touched yet.
pub open spec fn initial_values() -> Seq<Seq<char>> {
    Seq::new(FIELD_COUNT as nat, |i: int| if i == 0 || i == 32 { Seq::empty() } else { UNSOURCED@ })
}

/// The keys of a frame, in protocol order.
pub open spec fn frame_keys() -> Seq<Seq<char>> {
    seq![
        "aircraft_name"@,
        "engine_rpm_left"@,
        "engine_rpm_right"@,
        "left_gear"@,
        "nose_gear"@,
        "right_gear"@,
        "acc_x"@,
        "acc_y"@,
        "acc_z"@,
        "wind_x"@,
        "wind_y"@,
        "wind_z"@,
        "vector_velocity_x"@,
        "vector_velocity_y"@,
        "vector_velocity_z"@,
        "tas"@,
        "ias"@,
        "vertical_velocity_speed"@,
        "aoa"@,
        "heading"@,
        "pitch"@,
        "bank"@,
        "aos"@,
        "euler_vx"@,
        "euler_vy"@,
        "euler_vz"@,
        "helicopter_rotor_rpm"@,
        "canopy_pos"@,
        "flap_pos"@,
        "gear_value"@,
        "speedbrake_value"@,
        "afterburner_1"@,
        "afterburner_2"@,
        "weapon"@,
        "flare"@,
        "chaff"@,
        "cannon_shells"@,
        "mach"@,
        "h_above_sea_level"@,
        "led_console"@,
        "led_instruments_result"@,
        "light_apu_ready"@,
        "light_gear_warning"@,
        "light_gear_indicator"@
    ]
}

/// The value of frame token `i`: the rotor token is fixed, the others
/// take the held values in order.
pub open spec fn wire_value(values: Seq<Seq<char>>, i: int) -> Seq<char> {
    if i < ROTOR_POSITION {
        values[i]
    } else if i == ROTOR_POSITION {
        UNSOURCED@
    } else {
        values[i - 1]
    }
}

/// One `key,value;` token.
pub open spec fn token(key: Seq<char>, value: Seq<char>) -> Seq<char> {
    key + seq![','] + value + seq![';']
}

/// The first `n` tokens of the frame for `values`.
pub open spec fn frame_prefix(values: Seq<Seq<char>>, n: nat) -> Seq<char>
    decreases n,
{
    if n == 0 {
        Seq::empty()
    } else {
        frame_prefix(values, (n - 1) as nat) + token(frame_keys()[n - 1], wire_value(values, n - 1))
    }
}

/// The whole frame for `values`.
pub open spec fn frame_text(values: Seq<Seq<char>>) -> Seq<char> {
    frame_prefix(values, FRAME_TOKEN_COUNT as nat)
}

/// The number of `;` characters in `s`.
pub open spec fn semicolon_count(s: Seq<char>) -> nat
    decreases s.len(),
{
    if s.len() == 0 {
        0
    } else {
        semicolon_count(s.drop_last()) + if s.last() == ';' { 1nat } else { 0nat }
    }
}

proof fn lemma_semicolon_count_concat(a: Seq<char>, b: Seq<char>)
    ensures
        semicolon_count(a + b) == semicolon_count(a) + semicolon_count(b),
    decreases b.len(),
{
    if b.len() == 0 {
        assert(a + b =~= a);
    } else {
        assert((a + b).drop_last() =~= a + b.drop_last());
        lemma_semicolon_count_concat(a, b.drop_last());
    }
}

proof fn lemma_semicolon_free(s: Seq<char>)
    requires
        !s.contains(';'),
    ensures
        semicolon_count(s) == 0,
    decreases s.len(),
{
    if s.len() > 0 {
        assert(s[s.len() - 1] == s.last());
        assert(!s.drop_last().contains(';')) by {
            if s.drop_last().contains(';') {
                let j = choose|j: int| 0 <= j < s.drop_last().len() && s.drop_last()[j] == ';';
                assert(s[j] == ';');
            }
        }
        lemma_semicolon_free(s.drop_last());
    }
}

proof fn lemma_keys_semicolon_free()
    ensures
        forall|i: int| 0 <= i < FRAME_TOKEN_COUNT ==> !#[trigger] frame_keys()[i].contains(';'),
{
    reveal_strlit("aircraft_name");
    reveal_strlit("engine_rpm_left");
    reveal_strlit("engine_rpm_right");
    reveal_strlit("left_gear");
    reveal_strlit("nose_gear");
    reveal_strlit("right_gear");
    reveal_strlit("acc_x");
    reveal_strlit("acc_y");
    reveal_strlit("acc_z");
    reveal_strlit("wind_x");
    reveal_strlit("wind_y");
    reveal_strlit("wind_z");
    reveal_strlit("vector_velocity_x");
    reveal_strlit("vector_velocity_y");
    reveal_strlit("vector_velocity_z");
    reveal_strlit("tas");
    reveal_strlit("ias");
    reveal_strlit("vertical_velocity_speed");
    reveal_strlit("aoa");
    reveal_strlit("heading");
    reveal_strlit("pitch");
    reveal_strlit("bank");
    reveal_strlit("aos");
    reveal_strlit("euler_vx");
    reveal_strlit("euler_vy");
    reveal_strlit("euler_vz");
    reveal_strlit("helicopter_rotor_rpm");
    reveal_strlit("canopy_pos");
    reveal_strlit("flap_pos");
    reveal_strlit("gear_value");
    reveal_strlit("speedbrake_value");
    reveal_strlit("afterburner_1");
    reveal_strlit("afterburner_2");
    reveal_strlit("weapon");
    reveal_strlit("flare");
    reveal_strlit("chaff");
    reveal_strlit("cannon_shells");
    reveal_strlit("mach");
    reveal_strlit("h_above_sea_level");
    reveal_strlit("led_console");
    reveal_strlit("led_instruments_result");
    reveal_strlit("light_apu_ready");
    reveal_strlit("light_gear_warning");
    reveal_strlit("light_gear_indicator");
}

proof fn lemma_prefix_semicolons(values: Seq<Seq<char>>, n: nat)
    requires
        values.len() == FIELD_COUNT,
        forall|i: int| 0 <= i < values.len() ==> !#[trigger] values[i].contains(';'),
        n <= FRAME_TOKEN_COUNT,
    ensures
        semicolon_count(frame_prefix(values, n)) == n,
    decreases n,
{
    if n > 0 {
        let k = frame_keys()[n - 1];
        let v = wire_value(values, n - 1);
        lemma_prefix_semicolons(values, (n - 1) as nat);
        lemma_keys_semicolon_free();
        reveal_strlit("0");
        lemma_semicolon_free(k);
        lemma_semicolon_free(v);
        lemma_semicolon_free(seq![',']);
        assert(semicolon_count(seq![';']) == 1) by {
            assert(seq![';'].drop_last() =~= Seq::<char>::empty());
            assert(semicolon_count(Seq::<char>::empty()) == 0);
            assert(seq![';'].last() == ';');
        }
        lemma_semicolon_count_concat(k, seq![',']);
        lemma_semicolon_count_concat(k + seq![','], v);
        lemma_semicolon_count_concat(k + seq![','] + v, seq![';']);
        lemma_semicolon_count_concat(frame_prefix(values, (n - 1) as nat), token(k, v));
    }
}

/// When no value holds a `;`, as the protocol assumes, a frame holds exactly
/// one `;` per token and ends with one: the fixed number of fields, whatever
/// the values are. The rotor token always carries `0`.
pub proof fn lemma_frame_field_count(values: Seq<Seq<char>>)
    requires
        values.len() == FIELD_COUNT,
        forall|i: int| 0 <= i < values.len() ==> !#[trigger] values[i].contains(';'),
    ensures
        semicolon_count(frame_text(values)) == FRAME_TOKEN_COUNT,
        frame_text(values).last() == ';',
        frame_keys().len() == FRAME_TOKEN_COUNT,
        wire_value(values, ROTOR_POSITION as int) == UNSOURCED@,
{
    lemma_prefix_semicolons(values, FRAME_TOKEN_COUNT as nat);
}

/// The key of frame token `i`.
pub fn frame_key(i: usize) -> (r: &'static str)
    requires
        i < FRAME_TOKEN_COUNT,
    ensures
        r@ == frame_keys()[i as int],
{
    match i {
        0 => "aircraft_name",
        1 => "engine_rpm_left",
        2 => "engine_rpm_right",
        3 => "left_gear",
        4 => "nose_gear",
        5 => "right_gear",
        6 => "acc_x",
        7 => "acc_y",
        8 => "acc_z",
        9 => "wind_x",
        10 => "wind_y",
        11 => "wind_z",
        12 => "vector_velocity_x",
        13 => "vector_velocity_y",
        14 => "vector_velocity_z",
        15 => "tas",
        16 => "ias",
        17 => "vertical_velocity_speed",
        18 => "aoa",
        19 => "heading",
        20 => "pitch",
        21 => "bank",
        22 => "aos",
        23 => "euler_vx",
        24 => "euler_vy",
        25 => "euler_vz",
        26 => "helicopter_rotor_rpm",
        27 => "canopy_pos",
        28 => "flap_pos",
        29 => "gear_value",
        30 => "speedbrake_value",
        31 => "afterburner_1",
        32 => "afterburner_2",
        33 => "weapon",
        34 => "flare",
        35 => "chaff",
        36 => "cannon_shells",
        37 => "mach",
        38 => "h_above_sea_level",
        39 => "led_console",
        40 => "led_instruments_result",
        41 => "light_apu_ready",
        42 => "light_gear_warning",
        _ => "light_gear_indicator",
    }
}

/// Derives the parameter set from one tick's snapshots.
pub trait ComputeData: Sized {
    /// `self` is what the derivation makes of `prev` and the snapshots.
    spec fn computed_from(&self, prev: Self, flight: FlightReadings, event: EventSnapshot) -> bool;

    fn compute_ffb_data(&mut self, flight: &FlightReadings, event: &EventSnapshot)
        ensures
            final(self).computed_from(*old(self), *flight, *event),
    ;
}

/// Encodes the parameter set as one wire frame.
pub trait FrameTelemetryString {
    /// Whether the value can be encoded.
    spec fn frame_ready(&self) -> bool;

    /// The frame that encodes the value.
    spec fn telemetry_text(&self) -> Seq<char>;

    fn telemetry_string(&self) -> (r: String)
        requires
            self.frame_ready(),
        ensures
            r@ == self.telemetry_text(),
    ;
}

/// The device-facing parameter set, with the latches that persist
/// across ticks.
pub struct MozaFFBData {
    /// The field values, in frame order without the rotor token.
    pub values: Vec<String>,
    pub last_aa_missile_count: u8,
    /// Kept for the protocol's air-to-ground missiles; no rule reads it yet.
    pub last_ag_missile_count: u8,
    pub last_bomb_count: u8,
}

impl MozaFFBData {
    /// Holds one value per field.
    pub open spec fn wf(&self) -> bool {
        self.values.len() == FIELD_COUNT
    }

    pub open spec fn value_texts(&self) -> Seq<Seq<char>> {
        texts(self.values@)
    }
}

impl Default for MozaFFBData {
    fn default() -> (r: Self)
        ensures
            r.wf(),
            r.value_texts() == initial_values(),
            r.last_aa_missile_count == 0,
            r.last_ag_missile_count == 0,
            r.last_bomb_count == 0,
    {
        let mut values: Vec<String> = Vec::new();
        let mut i: usize = 0;
        while i < FIELD_COUNT
            invariant
                i <= FIELD_COUNT,
                values.len() == i,
                forall|j: int| 0 <= j < i ==> #[trigger] values@[j]@ == initial_values()[j],
            decreases FIELD_COUNT - i,
        {
            if i == 0 || i == 32 {
                values.push(String::new());
            } else {
                values.push(String::from_str(UNSOURCED));
            }
            i += 1;
        }
        let r = MozaFFBData {
            values,
            last_aa_missile_count: 0,
            last_ag_missile_count: 0,
            last_bomb_count: 0,
        };
        assert(r.value_texts() =~= initial_values());
        r
    }
}

impl ComputeData for MozaFFBData {
    open spec fn computed_from(&self, prev: Self, flight: FlightReadings, event: EventSnapshot) -> bool {
        let aa_listed = descriptor_listed(prev.last_aa_missile_count, event.aa_missile_fired);
        let ag_listed = descriptor_listed(prev.last_bomb_count, event.bomb_dropped);
        let weapon = tilde_joined(weapon_list(aa_listed, ag_listed));
        let shells = (FULL_CANNON_LOAD - event.bullets_fired) as nat;
        &&& self.wf()
        &&& self.value_texts() == computed_values(flight, weapon, shells)
        &&& self.last_aa_missile_count == latched(prev.last_aa_missile_count, event.aa_missile_fired)
        &&& self.last_bomb_count == latched(prev.last_bomb_count, event.bomb_dropped)
        &&& self.last_ag_missile_count == prev.last_ag_missile_count
    }

    fn compute_ffb_data(&mut self, flight: &FlightReadings, event: &EventSnapshot) {
        let (aa_latch, aa_listed) = latch_step(self.last_aa_missile_count, event.aa_missile_fired);
        let (bomb_latch, ag_listed) = latch_step(self.last_bomb_count, event.bomb_dropped);
        let weapon = weapon_text(aa_listed, ag_listed);
        let shells = u64_text(cannon_shells(event.bullets_fired) as u64);
        let ghost weapon_view = weapon@;

        let mut v: Vec<String> = Vec::new();
        v.push(String::from_str(AIRCRAFT_NAME));
        v.push(flight.rpm.clone());
        v.push(String::from_str(UNSOURCED));
        v.push(flight.left_gear_pos.clone());
        v.push(flight.nose_gear_pos.clone());
        v.push(flight.right_gear_pos.clone());
        v.push(String::from_str(UNSOURCED));
        v.push(String::from_str(UNSOURCED));
        v.push(String::from_str(UNSOURCED));
        v.push(String::from_str(UNSOURCED));
        v.push(String::from_str(UNSOURCED));
        v.push(String::from_str(UNSOURCED));
        v.push(flight.x_dot.clone());
        v.push(flight.y_dot.clone());
        v.push(flight.z_dot.clone());
        v.push(flight.vt.clone());
        v.push(flight.kias.clone());
        v.push(flight.z_dot.clone());
        v.push(flight.alpha.clone());
        v.push(flight.current_heading.clone());
        v.push(flight.pitch.clone());
        v.push(flight.roll.clone());
        v.push(String::from_str(UNSOURCED));
        v.push(String::from_str(UNSOURCED));
        v.push(String::from_str(UNSOURCED));
        v.push(String::from_str(UNSOURCED));
        v.push(String::from_str(UNSOURCED));
        v.push(String::from_str(UNSOURCED));
        v.push(flight.gear_value.clone());
        v.push(flight.speed_brake.clone());
        v.push(String::from_str(UNSOURCED));
        v.push(flight.afterburner.clone());
        v.push(weapon);
        v.push(flight.flare_count.clone());
        v.push(flight.chaff_count.clone());
        v.push(shells);
        v.push(flight.mach.clone());
        v.push(String::from_str(ALTITUDE_SEA_LEVEL));
        v.push(String::from_str(UNSOURCED));
        v.push(String::from_str(UNSOURCED));
        v.push(String::from_str(UNSOURCED));
        v.push(String::from_str(UNSOURCED));
        v.push(String::from_str(UNSOURCED));
        assert(texts(v@) =~= computed_values(
            *flight,
            weapon_view,
            (FULL_CANNON_LOAD - event.bullets_fired) as nat,
        ));

        self.values = v;
        self.last_aa_missile_count = aa_latch;
        self.last_bomb_count = bomb_latch;
    }
}

/// After a tick, the weapon field joins the list that the latches chose:
/// the air-to-air descriptor when the missile count has not passed its
/// latch, the ground descriptor when the bomb count has not passed its own.
/// A latch moves only when its count strictly exceeds it, and never down.
pub proof fn lemma_tick_latches(next: MozaFFBData, prev: MozaFFBData, flight: FlightReadings, event: EventSnapshot)
    requires
        next.computed_from(prev, flight, event),
    ensures
        next.value_texts()[WEAPON_POSITION as int] == tilde_joined(weapon_list(
            event.aa_missile_fired <= prev.last_aa_missile_count,
            event.bomb_dropped <= prev.last_bomb_count,
        )),
        next.last_aa_missile_count != prev.last_aa_missile_count <==> prev.last_aa_missile_count < event.aa_missile_fired,
        next.last_bomb_count != prev.last_bomb_count <==> prev.last_bomb_count < event.bomb_dropped,
        next.last_aa_missile_count >= prev.last_aa_missile_count,
        next.last_bomb_count >= prev.last_bomb_count,
        next.last_ag_missile_count == prev.last_ag_missile_count,
{
}

/// After a tick the cannon field holds the full load less the rounds fired,
/// in decimal.
pub proof fn lemma_tick_cannon_shells(next: MozaFFBData, prev: MozaFFBData, flight: FlightReadings, event: EventSnapshot)
    requires
        next.computed_from(prev, flight, event),
    ensures
        next.value_texts()[CANNON_POSITION as int] == nat_digits((FULL_CANNON_LOAD - event.bullets_fired) as nat),
{
}

impl FrameTelemetryString for MozaFFBData {
    open spec fn frame_ready(&self) -> bool {
        self.wf()
    }

    open spec fn telemetry_text(&self) -> Seq<char> {
        frame_text(self.value_texts())
    }

    fn telemetry_string(&self) -> (r: String) {
        let mut s = String::new();
        let mut i: usize = 0;
        while i < FRAME_TOKEN_COUNT
            invariant
                self.wf(),
                i <= FRAME_TOKEN_COUNT,
                s@ == frame_prefix(self.value_texts(), i as nat),
            decreases FRAME_TOKEN_COUNT - i,
        {
            let key = frame_key(i);
            let value: &str = if i < ROTOR_POSITION {
                self.values[i].as_str()
            } else if i == ROTOR_POSITION {
                UNSOURCED
            } else {
                self.values[i - 1].as_str()
            };
            assert(value@ == wire_value(self.value_texts(), i as int));
            let ghost prev = s@;
            s.append(key);
            s.append(",");
            s.append(value);
            s.append(";");
            assert(frame_prefix(self.value_texts(), (i + 1) as nat) == prev + token(
                frame_keys()[i as int],
                wire_value(self.value_texts(), i as int),
            ));
            proof {
                reveal_strlit(",");
                reveal_strlit(";");
            }
            assert(s@ =~= frame_prefix(self.value_texts(), (i + 1) as nat));
            i += 1;
        }
        s
    }
}

} // verus!
