//! The decision the session loop takes on each tick.
use vstd::prelude::*;
use crate::ffb_data::{ComputeData, FrameTelemetryString, MozaFFBData};
use crate::snapshot::{EventSnapshot, FlightReadings};

verus! {

/// What a tick does, given its event snapshot.
#[derive(PartialEq, Eq, Structural, Clone, Copy, Debug)]
pub enum TickAction {
    /// The simulator has exited: the session ends.
    Terminate,
    /// Paused, ejecting or at the end of a flight: nothing is sent.
    Skip,
    /// Derive, encode and send a frame.
    Send,
}

/// Whether the event snapshot holds the session back without ending it.
pub open spec fn held(event: EventSnapshot) -> bool {
    event.paused || event.ejecting || event.end_flight
}

pub open spec fn tick_action(event: EventSnapshot) -> TickAction {
    if event.exit_game {
        TickAction::Terminate
    } else if held(event) {
        TickAction::Skip
    } else {
        TickAction::Send
    }
}

/// Chooses what a tick does: exit wins over the holding flags.
pub fn decide_tick(event: &EventSnapshot) -> (r: TickAction)
    ensures
        r == tick_action(*event),
{
    if event.exit_game {
        TickAction::Terminate
    } else if event.paused || event.ejecting || event.end_flight {
        TickAction::Skip
    } else {
        TickAction::Send
    }
}

/// The result of one tick.
pub enum TickOutcome {
    Terminated,
    Skipped,
    /// The frame to send on the connection.
    Frame(String),
}

/// Runs one tick on the parameter set: only a tick that sends touches it.
pub fn run_tick(data: &mut MozaFFBData, flight: &FlightReadings, event: &EventSnapshot) -> (r: TickOutcome)
    requires
        old(data).wf(),
    ensures
        event.exit_game ==> r is Terminated && *final(data) == *old(data),
        !event.exit_game && held(*event) ==> r is Skipped && *final(data) == *old(data),
        tick_action(*event) == TickAction::Send ==> {
            &&& final(data).computed_from(*old(data), *flight, *event)
            &&& r matches TickOutcome::Frame(frame) && frame@ == final(data).telemetry_text()
        },
{
    match decide_tick(event) {
        TickAction::Terminate => TickOutcome::Terminated,
        TickAction::Skip => TickOutcome::Skipped,
        TickAction::Send => {
            data.compute_ffb_data(flight, event);
            TickOutcome::Frame(data.telemetry_string())
        },
    }
}

} // verus!
