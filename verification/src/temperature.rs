//! Plant temperature sampling: the fixed set of DS18B20 sensors bound to
//! known bus addresses and the per-cycle "start all conversions, wait, read
//! all" pass that produces one [`PlantTemperatures`] sample.
//!
//! A failed read degrades to `None` for that sensor only; the whole pass
//! yields no sample only when the broadcast conversion trigger itself fails.

use crate::ds18b20::{DS18B20, MeasureResolution};
use crate::onewire::{BusLine, OneWire};
use vstd::prelude::*;

verus! {

/// Lowest buffer-top reading at which the buffer may feed the heating
/// circuit, in the raw sensor unit (raw value divided by the resolution
/// divisor).
pub const MIN_BUFFER_TEMPERATURE: i16 = 550;

/// Hysteresis added on top of [`MIN_BUFFER_TEMPERATURE`] before the buffer
/// is enabled again, in the same unit.
pub const BUFFER_HYSTERESIS: i16 = 50;

/// The ROM address of the warm-water sensor.
pub open spec fn warm_water_rom() -> Seq<u8> {
    seq![0x28u8, 0xFFu8, 0x2Cu8, 0x99u8, 0x74u8, 0x16u8, 0x04u8, 0xB5u8]
}

/// The ROM address of the sensor at the bottom of the buffer.
pub open spec fn buffer_buttom_rom() -> Seq<u8> {
    seq![0x28u8, 0xFFu8, 0x2Fu8, 0x96u8, 0x74u8, 0x16u8, 0x04u8, 0x61u8]
}

/// The ROM address of the sensor at the top of the buffer.
pub open spec fn buffer_top_rom() -> Seq<u8> {
    seq![0x28u8, 0xFFu8, 0x4Bu8, 0x96u8, 0x74u8, 0x16u8, 0x04u8, 0x6Fu8]
}

/// The ROM address of the boiler sensor.
pub open spec fn boiler_rom() -> Seq<u8> {
    seq![0x28u8, 0xFFu8, 0x7Bu8, 0x58u8, 0x55u8, 0x16u8, 0x03u8, 0x7Bu8]
}

/// Temperatures in the plant, one optional reading per sensor; `None` means
/// the sensor was absent or its read failed this cycle.
#[derive(Clone, Copy, Debug, PartialEq, Eq)]
pub struct PlantTemperatures {
    pub warm_water: Option<i16>,
    pub buffer_top: Option<i16>,
    pub buffer_buttom: Option<i16>,
    pub boiler: Option<i16>,
}

impl Default for PlantTemperatures {
    /// A sample with every reading absent.
    fn default() -> (r: Self)
        ensures
            r.warm_water is None,
            r.buffer_top is None,
            r.buffer_buttom is None,
            r.boiler is None,
    {
        PlantTemperatures { warm_water: None, buffer_top: None, buffer_buttom: None, boiler: None }
    }
}

/// The resolution all plant sensors are assumed to run at; its conversion
/// time is waited between triggering and reading a measurement.
pub const MEASURERESOLUTION: MeasureResolution = MeasureResolution::Bit09;

/// The fixed sensors of the plant, bound to the shared bus.
pub struct Sensors<W: BusLine> {
    /// The shared single-wire bus all sensors hang on.
    pub bus: OneWire<W>,
    /// Warm-water sensor, when its address binds a DS18B20.
    pub warm_water: Option<DS18B20>,
    /// Buffer-top sensor, when its address binds a DS18B20.
    pub buffer_top: Option<DS18B20>,
    /// Buffer-bottom sensor, when its address binds a DS18B20.
    pub buffer_buttom: Option<DS18B20>,
    /// Boiler sensor, when its address binds a DS18B20.
    pub boiler: Option<DS18B20>,
}

impl<W: BusLine> Sensors<W> {
    /// Bind every known sensor address on a fresh bus over `pin`.
    pub fn setup(pin: W) -> (r: Self)
        ensures
            match r.warm_water {
                Some(s) => s.rom()@ == warm_water_rom(),
                None => false,
            },
            match r.buffer_top {
                Some(s) => s.rom()@ == buffer_top_rom(),
                None => false,
            },
            match r.buffer_buttom {
                Some(s) => s.rom()@ == buffer_buttom_rom(),
                None => false,
            },
            match r.boiler {
                Some(s) => s.rom()@ == boiler_rom(),
                None => false,
            },
    {
        let mut bus = OneWire::new(pin);

        let warm_water_add: [u8; 8] = [0x28, 0xFF, 0x2C, 0x99, 0x74, 0x16, 0x04, 0xB5];
        let buffer_buttom_add: [u8; 8] = [0x28, 0xFF, 0x2F, 0x96, 0x74, 0x16, 0x04, 0x61];
        let buffer_top_add: [u8; 8] = [0x28, 0xFF, 0x4B, 0x96, 0x74, 0x16, 0x04, 0x6F];
        let boiler_add: [u8; 8] = [0x28, 0xFF, 0x7B, 0x58, 0x55, 0x16, 0x03, 0x7B];

        let warm_water = init_sensor(warm_water_add, &mut bus);
        let buffer_top = init_sensor(buffer_top_add, &mut bus);
        let buffer_buttom = init_sensor(buffer_buttom_add, &mut bus);
        let boiler = init_sensor(boiler_add, &mut bus);

        proof {
            assert(warm_water_add@ =~= warm_water_rom());
            assert(buffer_top_add@ =~= buffer_top_rom());
            assert(buffer_buttom_add@ =~= buffer_buttom_rom());
            assert(boiler_add@ =~= boiler_rom());
        }

        Sensors { bus, warm_water, buffer_top, buffer_buttom, boiler }
    }

    /// Run one sampling cycle: trigger a conversion on every device at once,
    /// wait the conversion time, then read each bound sensor.
    ///
    /// A sensor whose read fails contributes `None`; only a failure of the
    /// broadcast trigger aborts the cycle with no sample at all.  The sensor
    /// bindings themselves survive every cycle unchanged.
    pub fn read_temperatures(&mut self) -> (r: Option<PlantTemperatures>)
        ensures
            match (final(self).warm_water, old(self).warm_water) {
                (Some(a), Some(b)) => a.rom() == b.rom(),
                (None, None) => true,
                _ => false,
            },
            match (final(self).buffer_top, old(self).buffer_top) {
                (Some(a), Some(b)) => a.rom() == b.rom(),
                (None, None) => true,
                _ => false,
            },
            match (final(self).buffer_buttom, old(self).buffer_buttom) {
                (Some(a), Some(b)) => a.rom() == b.rom(),
                (None, None) => true,
                _ => false,
            },
            match (final(self).boiler, old(self).boiler) {
                (Some(a), Some(b)) => a.rom() == b.rom(),
                (None, None) => true,
                _ => false,
            },
    {
        let mut temperatures = PlantTemperatures::default();

        match DS18B20::start_measurement(&mut self.bus) {
            Err(_) => {
                return None;
            },
            Ok(()) => {},
        }

        // The measurement is valid only after the resolution's conversion
        // time has fully passed.
        self.bus.wait_ms(MEASURERESOLUTION.conversion_time());

        if let Some(mut sensor) = self.warm_water.take() {
            temperatures.warm_water = match sensor.read_temperature(&mut self.bus) {
                Ok(t) => Some(t),
                Err(_) => None,
            };
            self.warm_water = Some(sensor);
        }
        if let Some(mut sensor) = self.buffer_buttom.take() {
            temperatures.buffer_buttom = match sensor.read_temperature(&mut self.bus) {
                Ok(t) => Some(t),
                Err(_) => None,
            };
            self.buffer_buttom = Some(sensor);
        }
        if let Some(mut sensor) = self.buffer_top.take() {
            temperatures.buffer_top = match sensor.read_temperature(&mut self.bus) {
                Ok(t) => Some(t),
                Err(_) => None,
            };
            self.buffer_top = Some(sensor);
        }
        if let Some(mut sensor) = self.boiler.take() {
            temperatures.boiler = match sensor.read_temperature(&mut self.bus) {
                Ok(t) => Some(t),
                Err(_) => None,
            };
            self.boiler = Some(sensor);
        }

        Some(temperatures)
    }
}

/// Bind one sensor address; `None` when the address is not a DS18B20's.
fn init_sensor<W: BusLine>(add: [u8; 8], _bus: &mut OneWire<W>) -> (r: Option<DS18B20>)
    ensures
        r is Some <==> add[0] == 0x28,
        match r {
            Some(s) => s.rom() == add,
            None => true,
        },
{
    match DS18B20::new(add) {
        Ok(s) => Some(s),
        Err(_) => None,
    }
}

} // verus!
