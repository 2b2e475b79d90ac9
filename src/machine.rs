//! A machine in any one of the four states, for a control loop that does not know the
//! state statically, and the step that loop repeats.
use vstd::prelude::*;

use crate::device::{Command, Device, DeviceView};
use crate::kettle::{GlorifiedKettle, NextState, StateMachine};
use crate::states::{
    advance_edge, legal_edge, Emptying, Filling, Heating, Phase, SafetyCutOff, StateKind,
};

verus! {

/// Exactly one kettle, in whichever state it is.
#[derive(Debug)]
pub enum Machine {
    Filling(GlorifiedKettle<Filling>),
    Heating(GlorifiedKettle<Heating>),
    Emptying(GlorifiedKettle<Emptying>),
    ErrorState(GlorifiedKettle<SafetyCutOff>),
}

impl Machine {
    /// The state the machine is in.
    pub open spec fn kind(&self) -> StateKind {
        match self {
            Machine::Filling(_) => StateKind::Filling,
            Machine::Heating(_) => StateKind::Heating,
            Machine::Emptying(_) => StateKind::Emptying,
            Machine::ErrorState(_) => StateKind::ErrorState,
        }
    }

    /// The state holds the payload it was entered with.
    pub open spec fn is_fresh(&self) -> bool {
        match self {
            Machine::Filling(k) => k@ == Filling::initial(),
            Machine::Heating(k) => k@ == Heating::initial(),
            Machine::Emptying(k) => k@ == Emptying::initial(),
            Machine::ErrorState(k) => k@ == SafetyCutOff::initial(),
        }
    }

    /// Whether the readings in `device` complete the current working state.
    pub open spec fn end_condition(&self, device: DeviceView) -> bool {
        match self {
            Machine::Filling(k) => k.end_condition(device),
            Machine::Heating(k) => k.end_condition(device),
            Machine::Emptying(k) => k.end_condition(device),
            Machine::ErrorState(_) => false,
        }
    }

    /// The command the current working state issues while its end condition does not hold.
    pub open spec fn command(&self) -> Command {
        match self {
            Machine::Filling(k) => k.command(),
            Machine::Heating(k) => k.command(),
            Machine::Emptying(k) => k.command(),
            Machine::ErrorState(_) => arbitrary(),
        }
    }

    /// A machine that starts by filling.
    pub fn new() -> (m: Machine)
        ensures
            m.kind() == StateKind::Filling,
            m.is_fresh(),
    {
        Machine::Filling(GlorifiedKettle::new())
    }

    /// The state the machine is in.
    pub fn state_kind(&self) -> (k: StateKind)
        ensures
            k == self.kind(),
    {
        match self {
            Machine::Filling(_) => StateKind::Filling,
            Machine::Heating(_) => StateKind::Heating,
            Machine::Emptying(_) => StateKind::Emptying,
            Machine::ErrorState(_) => StateKind::ErrorState,
        }
    }

    /// Whether the machine has reached the error state, after which the control loop stops.
    pub fn is_terminal(&self) -> (r: bool)
        ensures
            r == (self.kind() == StateKind::ErrorState),
    {
        match self {
            Machine::ErrorState(_) => true,
            _ => false,
        }
    }

    /// Issues the current state's command once, unless its end condition already holds.
    pub fn run(&self, device: &mut Device)
        requires
            self.kind() != StateKind::ErrorState,
            old(device).wf(),
        ensures
            final(device).wf(),
            final(device)@ == if self.end_condition(old(device)@) {
                old(device)@
            } else {
                old(device)@.issue(self.command())
            },
    {
        match self {
            Machine::Filling(k) => k.run(device),
            Machine::Heating(k) => k.run(device),
            Machine::Emptying(k) => k.run(device),
            Machine::ErrorState(_) => {},
        }
    }

    /// Reads the sensor the current state watches and compares it with the target.
    pub fn end_condition_met(&self, device: &Device) -> (r: bool)
        requires
            self.kind() != StateKind::ErrorState,
            device.wf(),
        ensures
            r == self.end_condition(device@),
    {
        match self {
            Machine::Filling(k) => k.end_condition_met(device),
            Machine::Heating(k) => k.end_condition_met(device),
            Machine::Emptying(k) => k.end_condition_met(device),
            Machine::ErrorState(_) => false,
        }
    }

    /// Moves on to the successor of the current state, entered afresh. Callable only where
    /// the device shows that the end condition holds, which it never does in the error state.
    pub fn advance(self, device: &Device) -> (r: Machine)
        requires
            self.end_condition(device@),
        ensures
            advance_edge(self.kind(), r.kind()),
            r.is_fresh(),
    {
        match self {
            Machine::Filling(k) => Machine::Heating(k.next(device)),
            Machine::Heating(k) => Machine::Emptying(k.next(device)),
            Machine::Emptying(k) => Machine::Filling(k.next(device)),
            Machine::ErrorState(k) => Machine::ErrorState(k),
        }
    }

    /// Trips the safety cut-off from any working state, whatever the end condition says.
    pub fn force_error(self) -> (r: Machine)
        requires
            self.kind() != StateKind::ErrorState,
        ensures
            r.kind() == StateKind::ErrorState,
            legal_edge(self.kind(), r.kind()),
            r.is_fresh(),
    {
        match self {
            Machine::Filling(k) => Machine::ErrorState(k.error()),
            Machine::Heating(k) => Machine::ErrorState(k.error()),
            Machine::Emptying(k) => Machine::ErrorState(k.error()),
            Machine::ErrorState(k) => Machine::ErrorState(k),
        }
    }

    /// One pass of the control loop: run the current state, then advance if its end
    /// condition holds. In the error state nothing happens and the device is left alone.
    pub fn step(self, device: &mut Device) -> (r: Machine)
        requires
            old(device).wf(),
        ensures
            final(device).wf(),
            self.kind() == StateKind::ErrorState ==> r == self && final(device)@ == old(device)@,
            self.kind() != StateKind::ErrorState && self.end_condition(old(device)@) ==> {
                &&& final(device)@ == old(device)@
                &&& advance_edge(self.kind(), r.kind())
                &&& r.is_fresh()
            },
            self.kind() != StateKind::ErrorState && !self.end_condition(old(device)@) ==> {
                &&& final(device)@ == old(device)@.issue(self.command())
                &&& r == self
            },
    {
        if self.is_terminal() {
            return self;
        }
        self.run(device);
        if self.end_condition_met(device) {
            self.advance(device)
        } else {
            self
        }
    }
}

} // verus!
