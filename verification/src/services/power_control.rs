//! Raspberry Pi power-control decisions.
//!
//! The board drives two active-low lines that behave like the power buttons
//! of the controlled Raspberry Pi: a low pulse asserts the action, the lines
//! idle high. [`PowerState`] is the firmware's power flag shared by the HTTP
//! handlers, the LED task and the power task (initially on). Requests reach
//! the power task as a signalled boolean; the task pulses the matching line
//! when the board is not already in the requested state. [`PowerController`]
//! keeps the flag together with the state the board was last driven to.

use vstd::prelude::*;

verus! {

/// The firmware's power-state flag.
#[derive(Debug, Clone, Copy)]
pub struct PowerState {
    /// Whether the target is considered powered on.
    pub power_on: bool,
}

impl PowerState {
    /// Initial state: the target is considered on.
    pub fn new() -> (r: Self)
        ensures
            r.power_on,
    {
        PowerState { power_on: true }
    }
}

/// Records a power-state change request; the result is the value to signal
/// to the power task.
pub fn set_power_state(power: &mut PowerState, state: bool) -> (signal: bool)
    ensures
        final(power).power_on == state,
        signal == state,
{
    power.power_on = state;
    state
}

/// Reads the latest power-state flag.
pub fn is_power_on(power: &PowerState) -> (r: bool)
    ensures
        r == power.power_on,
{
    power.power_on
}

/// A pin pulse to assert (drive low for three seconds, then release high).
#[derive(Debug, Clone, Copy, PartialEq, Eq, Structural)]
pub enum PowerPulse {
    /// Pulse the power-on line.
    PowerOn,
    /// Pulse the force-off line.
    PowerOff,
}

/// Pulse asked for by a power-on request in state `p`.
pub open spec fn power_on_decision(p: PowerState) -> Option<PowerPulse> {
    if p.power_on { None } else { Some(PowerPulse::PowerOn) }
}

/// Pulse asked for by a power-off request in state `p`.
pub open spec fn power_off_decision(p: PowerState) -> Option<PowerPulse> {
    if p.power_on { Some(PowerPulse::PowerOff) } else { None }
}

/// Decision of `PowerControl::power_on`: pulse the power-on line only if the
/// target is currently considered off.
pub fn power_on_pulse(power: &PowerState) -> (r: Option<PowerPulse>)
    ensures
        r == power_on_decision(*power),
{
    if is_power_on(power) {
        None
    } else {
        Some(PowerPulse::PowerOn)
    }
}

/// Decision of `PowerControl::power_off`: pulse the force-off line only if
/// the target is currently considered on.
pub fn power_off_pulse(power: &PowerState) -> (r: Option<PowerPulse>)
    ensures
        r == power_off_decision(*power),
{
    if !is_power_on(power) {
        None
    } else {
        Some(PowerPulse::PowerOff)
    }
}

/// One iteration of the power task on a signalled request: the line that
/// matches the request is pulsed when the board is not already in the
/// requested state, and the flag then records the requested state.
pub fn power_task_step(power: &mut PowerState, requested: bool) -> (r: Option<PowerPulse>)
    ensures
        final(power).power_on == requested,
        r == if requested { power_on_decision(*old(power)) } else { power_off_decision(*old(power)) },
{
    let pulse = if requested {
        power_on_pulse(power)
    } else {
        power_off_pulse(power)
    };
    power.power_on = requested;
    pulse
}

#[derive(Debug, Clone, Copy, PartialEq, Eq, Structural)]
pub enum PowerAction {
    On,
    ForceOff,
    ForceRestart,
}

/// Applies a power action to the flag: `On` and `ForceOff` set it on and off
/// and yield the value to signal to the power task; `ForceRestart` has no
/// power transition of its own and leaves the flag unchanged.
pub fn request_power_action(power: &mut PowerState, action: PowerAction) -> (signal: Option<bool>)
    ensures
        action == PowerAction::On ==> final(power).power_on && signal == Some(true),
        action == PowerAction::ForceOff ==> !final(power).power_on && signal == Some(false),
        action == PowerAction::ForceRestart ==> final(power).power_on == old(power).power_on
            && signal is None,
{
    match action {
        PowerAction::On => Some(set_power_state(power, true)),
        PowerAction::ForceOff => Some(set_power_state(power, false)),
        PowerAction::ForceRestart => None,
    }
}

/// Flag after a reset action, and the power signal the action raises.
pub open spec fn action_effect(p: PowerState, action: PowerAction) -> (PowerState, Option<bool>) {
    match action {
        PowerAction::On => (PowerState { power_on: true }, Some(true)),
        PowerAction::ForceOff => (PowerState { power_on: false }, Some(false)),
        PowerAction::ForceRestart => (p, None),
    }
}

/// The power flag shown to the management interface together with the state
/// the board was last driven to by the power task.
#[derive(Debug, Clone, Copy)]
pub struct PowerController {
    /// Shared power flag (what `is_power_on` reports).
    pub flag: PowerState,
    /// State the power buttons last put the board in.
    pub board: PowerState,
}

/// Controller after a reset action, and the signal raised for the power task.
pub open spec fn after_request(c: PowerController, action: PowerAction) -> (PowerController, Option<bool>) {
    let (flag, signal) = action_effect(c.flag, action);
    (PowerController { flag, ..c }, signal)
}

/// Controller after the power task handled a signalled request, and the
/// pulse it gives: one only when the board is in the other state.
pub open spec fn after_signal(c: PowerController, requested: bool) -> (PowerController, Option<PowerPulse>) {
    let pulse = if requested { power_on_decision(c.board) } else { power_off_decision(c.board) };
    (
        PowerController {
            flag: PowerState { power_on: requested },
            board: PowerState { power_on: requested },
        },
        pulse,
    )
}

impl PowerController {
    /// Board and flag both on, as at power-up.
    pub fn new() -> (r: Self)
        ensures
            r.flag.power_on && r.board.power_on,
    {
        PowerController { flag: PowerState::new(), board: PowerState::new() }
    }

    /// The shared power flag.
    pub fn is_power_on(&self) -> (r: bool)
        ensures
            r == self.flag.power_on,
    {
        is_power_on(&self.flag)
    }

    /// Applies a reset action to the flag; returns the signal for the power task.
    pub fn request(&mut self, action: PowerAction) -> (signal: Option<bool>)
        ensures
            (*final(self), signal) == after_request(*old(self), action),
    {
        request_power_action(&mut self.flag, action)
    }

    /// The power task's handling of a signalled request: pulse the matching
    /// line if the board is in the other state, then record the request in
    /// both the board state and the flag.
    pub fn on_signal(&mut self, requested: bool) -> (pulse: Option<PowerPulse>)
        ensures
            (*final(self), pulse) == after_signal(*old(self), requested),
    {
        let pulse = power_task_step(&mut self.board, requested);
        set_power_state(&mut self.flag, requested);
        pulse
    }
}

/// A power-on request to a board that is off gives exactly one power-on
/// pulse: the request raises the on signal, the power task then pulses the
/// power-on line and both states read on, and a repeated request gives no
/// further pulse. The same holds for power-off with the roles swapped.
pub proof fn lemma_request_pulses_once(c: PowerController, on: bool)
    requires
        c.board.power_on != on,
    ensures
        ({
            let action = if on { PowerAction::On } else { PowerAction::ForceOff };
            let (c1, signal) = after_request(c, action);
            let (c2, pulse) = after_signal(c1, on);
            let (c3, again) = after_signal(c2, on);
            &&& signal == Some(on)
            &&& pulse == Some(if on { PowerPulse::PowerOn } else { PowerPulse::PowerOff })
            &&& c2.flag.power_on == on && c2.board.power_on == on
            &&& again is None
            &&& c3 == c2
        }),
{
}

} // verus!
