//! The typestate kettle: its type names the state it is in, and only the transitions of the
//! legality table exist as methods, so an illegal transition does not compile.
use vstd::prelude::*;

use crate::device::{
    empty, fill, heat, read_level, read_temperature, Command, Device, DeviceView, EMPTY, FULL,
    MAX_TEMPERATURE,
};
use crate::states::{
    advance_edge, error_edge, Emptying, Filling, Heating, Phase, SafetyCutOff, StateKind,
};

verus! {

/// A kettle in the state whose payload type is `S`. Outside this module a kettle is made
/// only by `new` and by the transitions, which consume the kettle they start from.
#[derive(Debug)]
pub struct GlorifiedKettle<S> {
    state: S,
}

impl<S> View for GlorifiedKettle<S> {
    type V = S;

    closed spec fn view(&self) -> S {
        self.state
    }
}

impl<S> GlorifiedKettle<S> {
    /// The payload of the current state.
    pub fn state(&self) -> (r: &S)
        ensures
            *r == self@,
    {
        &self.state
    }
}

impl GlorifiedKettle<Filling> {
    /// A kettle that starts by filling.
    pub fn new() -> (k: Self)
        ensures
            k@ == Filling::initial(),
    {
        GlorifiedKettle { state: Filling {} }
    }
}

/// The behaviour shared by the working states: a control step and an end condition read
/// from the device.
pub trait StateMachine: Sized {
    /// Which state this is.
    spec fn kind(&self) -> StateKind;

    /// Whether the readings in `device` complete this state.
    spec fn end_condition(&self, device: DeviceView) -> bool;

    /// The actuator command that works towards the end condition.
    spec fn command(&self) -> Command;

    /// Issues this state's command once, unless the end condition already holds.
    fn run(&self, device: &mut Device)
        requires
            old(device).wf(),
        ensures
            final(device).wf(),
            final(device)@ == if self.end_condition(old(device)@) {
                old(device)@
            } else {
                old(device)@.issue(self.command())
            },
    ;

    /// Reads the sensor this state watches and compares it with the target.
    fn end_condition_met(&self, device: &Device) -> (r: bool)
        requires
            device.wf(),
        ensures
            r == self.end_condition(device@),
    ;
}

/// The transitions out of a working state: `next` to its successor `S` once the end
/// condition holds, and `error` to the safety cut-off at any time. Both consume the kettle.
pub trait NextState<S: Phase>: StateMachine {
    /// Moves on to the successor, entered afresh. Callable only where the device shows
    /// that the end condition holds.
    fn next(self, device: &Device) -> (r: GlorifiedKettle<S>)
        requires
            self.end_condition(device@),
        ensures
            advance_edge(self.kind(), S::kind()),
            r@ == S::initial(),
    ;

    /// Trips the safety cut-off.
    fn error(self) -> (r: GlorifiedKettle<SafetyCutOff>)
        ensures
            error_edge(self.kind(), StateKind::ErrorState),
            r@ == SafetyCutOff::initial(),
    ;
}

impl StateMachine for GlorifiedKettle<Filling> {
    open spec fn kind(&self) -> StateKind {
        StateKind::Filling
    }

    open spec fn end_condition(&self, device: DeviceView) -> bool {
        device.level == FULL
    }

    open spec fn command(&self) -> Command {
        Command::Fill
    }

    fn run(&self, device: &mut Device) {
        if !self.end_condition_met(device) {
            fill(device);
        }
    }

    fn end_condition_met(&self, device: &Device) -> (r: bool) {
        read_level(device) == FULL
    }
}

impl StateMachine for GlorifiedKettle<Heating> {
    open spec fn kind(&self) -> StateKind {
        StateKind::Heating
    }

    open spec fn end_condition(&self, device: DeviceView) -> bool {
        device.temperature == self@.end_temperature
    }

    open spec fn command(&self) -> Command {
        Command::Heat
    }

    fn run(&self, device: &mut Device) {
        if !self.end_condition_met(device) {
            heat(device);
        }
    }

    fn end_condition_met(&self, device: &Device) -> (r: bool) {
        read_temperature(device) == self.state.end_temperature
    }
}

impl StateMachine for GlorifiedKettle<Emptying> {
    open spec fn kind(&self) -> StateKind {
        StateKind::Emptying
    }

    open spec fn end_condition(&self, device: DeviceView) -> bool {
        device.level == EMPTY
    }

    open spec fn command(&self) -> Command {
        Command::Empty
    }

    fn run(&self, device: &mut Device) {
        if !self.end_condition_met(device) {
            empty(device);
        }
    }

    fn end_condition_met(&self, device: &Device) -> (r: bool) {
        read_level(device) == EMPTY
    }
}

impl NextState<Heating> for GlorifiedKettle<Filling> {
    #[allow(unused_variables)]
    fn next(self, device: &Device) -> (r: GlorifiedKettle<Heating>) {
        GlorifiedKettle { state: Heating { end_temperature: MAX_TEMPERATURE, actual_temperature: 0 } }
    }

    fn error(self) -> (r: GlorifiedKettle<SafetyCutOff>) {
        GlorifiedKettle { state: SafetyCutOff {} }
    }
}

impl NextState<Emptying> for GlorifiedKettle<Heating> {
    #[allow(unused_variables)]
    fn next(self, device: &Device) -> (r: GlorifiedKettle<Emptying>) {
        GlorifiedKettle { state: Emptying {} }
    }

    fn error(self) -> (r: GlorifiedKettle<SafetyCutOff>) {
        GlorifiedKettle { state: SafetyCutOff {} }
    }
}

impl NextState<Filling> for GlorifiedKettle<Emptying> {
    #[allow(unused_variables)]
    fn next(self, device: &Device) -> (r: GlorifiedKettle<Filling>) {
        GlorifiedKettle { state: Filling {} }
    }

    fn error(self) -> (r: GlorifiedKettle<SafetyCutOff>) {
        GlorifiedKettle { state: SafetyCutOff {} }
    }
}

} // verus!
