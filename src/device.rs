//! The device boundary: the last sensor readings and the actuator commands issued since
//! they were last collected.
use vstd::prelude::*;

verus! {

/// Water level of an empty kettle.
pub const EMPTY: u8 = 0;

/// Water level of a full kettle; the level sensor never reports more.
pub const FULL: u8 = 100;

/// Target temperature of every heating phase.
pub const MAX_TEMPERATURE: u8 = 90;

/// An actuator command.
#[derive(Clone, Copy, Debug, PartialEq, Eq, Structural)]
pub enum Command {
    Fill,
    Heat,
    Empty,
}

/// What the logic sees of the device.
pub ghost struct DeviceView {
    pub level: u8,
    pub temperature: u8,
    pub commands: Seq<Command>,
}

impl DeviceView {
    /// The same device after one more command was issued.
    pub open spec fn issue(self, c: Command) -> DeviceView {
        DeviceView { commands: self.commands.push(c), ..self }
    }
}

/// Sensor readings as last refreshed, and the commands issued since they were last taken.
pub struct Device {
    level: u8,
    temperature: u8,
    commands: Vec<Command>,
}

impl View for Device {
    type V = DeviceView;

    closed spec fn view(&self) -> DeviceView {
        DeviceView { level: self.level, temperature: self.temperature, commands: self.commands@ }
    }
}

impl Device {
    /// The level sensor reports a level between EMPTY and FULL.
    pub open spec fn wf(&self) -> bool {
        self@.level <= FULL
    }

    /// A device with the given readings and no pending command.
    pub fn new(level: u8, temperature: u8) -> (d: Device)
        requires
            level <= FULL,
        ensures
            d.wf(),
            d@ == (DeviceView { level, temperature, commands: Seq::empty() }),
    {
        Device { level, temperature, commands: Vec::new() }
    }

    /// Records a fresh level reading.
    pub fn set_level(&mut self, level: u8)
        requires
            level <= FULL,
        ensures
            final(self).wf(),
            final(self)@ == (DeviceView { level, ..old(self)@ }),
    {
        self.level = level;
    }

    /// Records a fresh temperature reading.
    pub fn set_temperature(&mut self, temperature: u8)
        requires
            old(self).wf(),
        ensures
            final(self).wf(),
            final(self)@ == (DeviceView { temperature, ..old(self)@ }),
    {
        self.temperature = temperature;
    }

    /// The commands issued since they were last taken, oldest first.
    pub fn commands(&self) -> (r: &Vec<Command>)
        ensures
            r@ == self@.commands,
    {
        &self.commands
    }

    /// Hands out the pending commands, oldest first, and clears them.
    pub fn take_commands(&mut self) -> (r: Vec<Command>)
        requires
            old(self).wf(),
        ensures
            r@ == old(self)@.commands,
            final(self).wf(),
            final(self)@ == (DeviceView { commands: Seq::empty(), ..old(self)@ }),
    {
        let mut taken: Vec<Command> = Vec::new();
        std::mem::swap(&mut taken, &mut self.commands);
        taken
    }
}

/// Commands the fill actuator.
pub fn fill(device: &mut Device)
    requires
        old(device).wf(),
    ensures
        final(device).wf(),
        final(device)@ == old(device)@.issue(Command::Fill),
{
    device.commands.push(Command::Fill);
}

/// Commands the heat actuator.
pub fn heat(device: &mut Device)
    requires
        old(device).wf(),
    ensures
        final(device).wf(),
        final(device)@ == old(device)@.issue(Command::Heat),
{
    device.commands.push(Command::Heat);
}

/// Commands the drain actuator.
pub fn empty(device: &mut Device)
    requires
        old(device).wf(),
    ensures
        final(device).wf(),
        final(device)@ == old(device)@.issue(Command::Empty),
{
    device.commands.push(Command::Empty);
}

/// The water level, between EMPTY and FULL.
pub fn read_level(device: &Device) -> (r: u8)
    requires
        device.wf(),
    ensures
        r == device@.level,
        r <= FULL,
{
    device.level
}

/// The water temperature.
pub fn read_temperature(device: &Device) -> (r: u8)
    ensures
        r == device@.temperature,
{
    device.temperature
}

} // verus!
