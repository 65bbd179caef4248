//! Latched digital inputs and outputs of the controller.
//!
//! The raw pin drivers are outside collaborators and are supplied through
//! the [`OutputPin`] and [`InputPin`] traits.  [`Outputs`] latches the three
//! actuator values and pushes them to the pins on demand; [`Inputs`] latches
//! the three input levels sampled once per cycle.  Equality on either type
//! compares the latched logical state only, never the pins.

use vstd::prelude::*;

verus! {

/// One digital output line; setting the level cannot fail.
pub trait OutputPin {
    /// Drive the line high.
    fn set_high(&mut self);

    /// Drive the line low.
    fn set_low(&mut self);
}

/// One digital input line; sampling the level cannot fail.
pub trait InputPin {
    /// Sample the line level; `true` means high.
    fn is_high(&self) -> bool;
}

/// The three actuator output lines with their latched logical values.
pub struct Outputs<O: OutputPin> {
    pub pump_buffer_pin: O,
    /// Latched state of the buffer pump line.
    pub pump_buffer: bool,
    pub magnet_valve_buffer_pin: O,
    /// Latched state of the buffer magnet-valve line.
    pub magnet_valve_buffer: bool,
    pub burner_inhibit_pin: O,
    /// Latched state of the burner-inhibit line.
    pub burner_inhibit: bool,
}

impl<O: OutputPin> PartialEq for Outputs<O> {
    /// Equality of the logical state only.
    fn eq(&self, other: &Self) -> (r: bool) {
        (self.pump_buffer == other.pump_buffer) && (self.magnet_valve_buffer
            == other.magnet_valve_buffer) && (self.burner_inhibit == other.burner_inhibit)
    }
}

impl<O: OutputPin> vstd::std_specs::cmp::PartialEqSpecImpl for Outputs<O> {
    open spec fn obeys_eq_spec() -> bool {
        true
    }

    open spec fn eq_spec(&self, other: &Self) -> bool {
        self.pump_buffer == other.pump_buffer && self.magnet_valve_buffer
            == other.magnet_valve_buffer && self.burner_inhibit == other.burner_inhibit
    }
}

impl<O: OutputPin> Outputs<O> {
    /// Take ownership of the three output pins; every latched value starts
    /// off.
    pub fn new(burner_inhibit_pin: O, pump_buffer_pin: O, magnet_valve_buffer_pin: O) -> (r: Self)
        ensures
            !r.burner_inhibit,
            !r.pump_buffer,
            !r.magnet_valve_buffer,
    {
        Self {
            burner_inhibit: false,
            burner_inhibit_pin,
            pump_buffer: false,
            pump_buffer_pin,
            magnet_valve_buffer: false,
            magnet_valve_buffer_pin,
        }
    }

    /// Push every latched value to its physical pin; the latched state is
    /// unchanged.
    pub fn set_outputs(&mut self)
        ensures
            final(self).burner_inhibit == old(self).burner_inhibit,
            final(self).magnet_valve_buffer == old(self).magnet_valve_buffer,
            final(self).pump_buffer == old(self).pump_buffer,
    {
        if self.burner_inhibit {
            self.burner_inhibit_pin.set_high();
        } else {
            self.burner_inhibit_pin.set_low();
        }

        if self.magnet_valve_buffer {
            self.magnet_valve_buffer_pin.set_high();
        } else {
            self.magnet_valve_buffer_pin.set_low();
        }

        if self.pump_buffer {
            self.pump_buffer_pin.set_high();
        } else {
            self.pump_buffer_pin.set_low();
        }
    }

    /// Latch the magnet-valve value; the other lines keep theirs.
    pub fn set_magnet_valve_buffer(&mut self, value: bool)
        ensures
            final(self).magnet_valve_buffer == value,
            final(self).burner_inhibit == old(self).burner_inhibit,
            final(self).pump_buffer == old(self).pump_buffer,
    {
        self.magnet_valve_buffer = value
    }

    /// Latch the burner-inhibit value; the other lines keep theirs.
    pub fn set_burner_inhibit(&mut self, value: bool)
        ensures
            final(self).burner_inhibit == value,
            final(self).magnet_valve_buffer == old(self).magnet_valve_buffer,
            final(self).pump_buffer == old(self).pump_buffer,
    {
        self.burner_inhibit = value;
    }

    /// Latch the buffer-pump value; the other lines keep theirs.
    pub fn set_pump_buffer(&mut self, value: bool)
        ensures
            final(self).pump_buffer == value,
            final(self).burner_inhibit == old(self).burner_inhibit,
            final(self).magnet_valve_buffer == old(self).magnet_valve_buffer,
    {
        self.pump_buffer = value
    }

    /// The latched magnet-valve value.
    pub fn get_magnet_valve_buffer(&self) -> (r: bool)
        ensures
            r == self.magnet_valve_buffer,
    {
        self.magnet_valve_buffer
    }

    /// The latched burner-inhibit value.
    pub fn get_burner_inhibit(&self) -> (r: bool)
        ensures
            r == self.burner_inhibit,
    {
        self.burner_inhibit
    }

    /// The latched buffer-pump value.
    pub fn get_pump_buffer(&self) -> (r: bool)
        ensures
            r == self.pump_buffer,
    {
        self.pump_buffer
    }
}

/// The three digital input lines with the levels sampled last cycle.
pub struct Inputs<I: InputPin> {
    /// Latched start-burner request level.
    pub start_burner: bool,
    pub start_burner_pin: I,
    /// Latched warm-water-pump running level.
    pub warm_water_pump: bool,
    pub warm_water_pump_pin: I,
    /// Latched heating-pump running level.
    pub heating_pump: bool,
    pub heating_pump_pin: I,
}

impl<I: InputPin> Inputs<I> {
    /// Take ownership of the three input pins; every latched level starts
    /// low.
    pub fn new(start_burner_pin: I, warm_water_pump_pin: I, heating_pump_pin: I) -> (r: Self)
        ensures
            !r.start_burner,
            !r.warm_water_pump,
            !r.heating_pump,
    {
        Self {
            start_burner: false,
            start_burner_pin,
            warm_water_pump: false,
            warm_water_pump_pin,
            heating_pump: false,
            heating_pump_pin,
        }
    }

    /// Sample all three input lines into the latched levels.  What is read
    /// is decided by the outside world, so nothing is promised of the new
    /// values.
    pub fn get_inputs(&mut self) {
        self.start_burner = self.start_burner_pin.is_high();
        self.warm_water_pump = self.warm_water_pump_pin.is_high();
        self.heating_pump = self.heating_pump_pin.is_high();
    }

    /// The latched start-burner level.
    pub fn get_start_burner(&self) -> (r: bool)
        ensures
            r == self.start_burner,
    {
        self.start_burner
    }

    /// The latched warm-water-pump level.
    pub fn get_warm_water_pump(&self) -> (r: bool)
        ensures
            r == self.warm_water_pump,
    {
        self.warm_water_pump
    }

    /// The latched heating-pump level.
    pub fn get_heating_pump(&self) -> (r: bool)
        ensures
            r == self.heating_pump,
    {
        self.heating_pump
    }
}

impl<I: InputPin> PartialEq for Inputs<I> {
    /// Equality of the latched levels only.
    fn eq(&self, other: &Self) -> (r: bool) {
        (self.start_burner == other.start_burner) && (self.warm_water_pump
            == other.warm_water_pump) && (self.heating_pump == other.heating_pump)
    }
}

impl<I: InputPin> vstd::std_specs::cmp::PartialEqSpecImpl for Inputs<I> {
    open spec fn obeys_eq_spec() -> bool {
        true
    }

    open spec fn eq_spec(&self, other: &Self) -> bool {
        self.start_burner == other.start_burner && self.warm_water_pump == other.warm_water_pump
            && self.heating_pump == other.heating_pump
    }
}

} // verus!
