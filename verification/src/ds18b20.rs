//! Command and readout layer for the DS18B20 temperature-sensor family,
//! built on the single-wire bus of [`crate::onewire`].
//!
//! A sensor is addressed by its 8-byte ROM (family code `0x28`).  A
//! measurement is triggered for all devices at once; after the resolution's
//! conversion time the scratchpad is read back per device and decoded: byte
//! 4 names the configured resolution, bytes 0..2 hold the raw signed
//! little-endian reading, and the reported temperature is the raw value
//! divided (toward zero) by the resolution's divisor.  The all-ones raw
//! value is the "no response" pattern and is rejected as data error.

use crate::onewire::{BusLine, Device, Error, OneWire};
use vstd::prelude::*;

verus! {

/// DS18B20 function commands, as named in the datasheet.
#[derive(Debug, Clone, Copy, PartialEq, Eq)]
pub enum Command {
    /// Start a conversion.
    Convert,
    /// Write alarm and configuration bytes to the scratchpad.
    WriteScratchpad,
    /// Read the whole scratchpad.
    ReadScratchpad,
    /// Copy the scratchpad to EEPROM.
    CopyScratchpad,
    /// Recall the scratchpad from EEPROM.
    RecallE2,
    /// Query parasite-power use.
    ReadPowerSupply,
}

impl Command {
    /// The byte sent on the bus for this command.
    pub fn code(&self) -> (r: u8)
        ensures
            r == match self {
                Command::Convert => 0x44u8,
                Command::WriteScratchpad => 0x4Eu8,
                Command::ReadScratchpad => 0xBEu8,
                Command::CopyScratchpad => 0x48u8,
                Command::RecallE2 => 0xB8u8,
                Command::ReadPowerSupply => 0xB4u8,
            },
    {
        match self {
            Command::Convert => 0x44,
            Command::WriteScratchpad => 0x4E,
            Command::ReadScratchpad => 0xBE,
            Command::CopyScratchpad => 0x48,
            Command::RecallE2 => 0xB8,
            Command::ReadPowerSupply => 0xB4,
        }
    }
}

/// Measurement resolutions of the sensor family.
#[derive(Debug, Clone, Copy, PartialEq, Eq)]
pub enum MeasureResolution {
    /// 9 bit, 0.5 K steps.
    Bit09,
    /// 10 bit, 0.25 K steps.
    Bit10,
    /// 11 bit, 0.125 K steps.
    Bit11,
    /// 12 bit, 0.0625 K steps.
    Bit12,
}

/// The resolution named by a configuration register byte, if any.
pub open spec fn config_resolution(num: u8) -> Option<MeasureResolution> {
    if num == 0x1F {
        Some(MeasureResolution::Bit09)
    } else if num == 0x3F {
        Some(MeasureResolution::Bit10)
    } else if num == 0x5F {
        Some(MeasureResolution::Bit11)
    } else if num == 0x7F {
        Some(MeasureResolution::Bit12)
    } else {
        None
    }
}

/// The divisor turning a raw reading into the reported unit: one division
/// step per bit of resolution below the raw scale.
pub open spec fn divisor_of(res: MeasureResolution) -> int {
    match res {
        MeasureResolution::Bit09 => 2,
        MeasureResolution::Bit10 => 4,
        MeasureResolution::Bit11 => 8,
        MeasureResolution::Bit12 => 16,
    }
}

impl MeasureResolution {
    /// Recognize a configuration register byte.
    pub fn try_from(num: u8) -> (r: Result<MeasureResolution, ()>)
        ensures
            match r {
                Ok(res) => config_resolution(num) == Some(res),
                Err(_) => config_resolution(num) is None,
            },
    {
        match num {
            0x1F => Ok(MeasureResolution::Bit09),
            0x3F => Ok(MeasureResolution::Bit10),
            0x5F => Ok(MeasureResolution::Bit11),
            0x7F => Ok(MeasureResolution::Bit12),
            _ => Err(()),
        }
    }

    /// The configuration register byte selecting this resolution; feeding it
    /// back through [`config_resolution`] names this resolution again.
    pub fn config_byte(&self) -> (r: u8)
        ensures
            config_resolution(r) == Some(*self),
    {
        match self {
            MeasureResolution::Bit09 => 0x1F,
            MeasureResolution::Bit10 => 0x3F,
            MeasureResolution::Bit11 => 0x5F,
            MeasureResolution::Bit12 => 0x7F,
        }
    }

    /// The conversion time in milliseconds that must pass between starting a
    /// measurement at this resolution and reading its result.
    pub fn conversion_time(&self) -> (r: u16)
        ensures
            r == match self {
                MeasureResolution::Bit09 => 94u16,
                MeasureResolution::Bit10 => 188u16,
                MeasureResolution::Bit11 => 375u16,
                MeasureResolution::Bit12 => 750u16,
            },
    {
        match self {
            MeasureResolution::Bit09 => 94,
            MeasureResolution::Bit10 => 188,
            MeasureResolution::Bit11 => 375,
            MeasureResolution::Bit12 => 750,
        }
    }

    /// The raw-to-reported divisor of this resolution.
    pub fn divisor(&self) -> (r: i16)
        ensures
            r == divisor_of(*self),
    {
        match self {
            MeasureResolution::Bit09 => 2,
            MeasureResolution::Bit10 => 4,
            MeasureResolution::Bit11 => 8,
            MeasureResolution::Bit12 => 16,
        }
    }
}

/// The signed 16-bit value stored little-endian in two bytes, as an integer.
pub open spec fn raw_of(lo: u8, hi: u8) -> int {
    if hi >= 128 {
        lo + 256 * hi - 65536
    } else {
        lo + 256 * hi
    }
}

/// Integer division rounding toward zero, as the sensor's scaling uses it.
pub open spec fn div_toward_zero(a: int, b: int) -> int
    recommends
        b > 0,
{
    if a >= 0 {
        a / b
    } else {
        -((-a) / b)
    }
}

/// The reading encoded in an 8-byte scratchpad: `None` when the
/// configuration byte names no resolution or the raw value is the all-ones
/// "no response" pattern, else the raw value divided by the resolution's
/// divisor.
pub open spec fn spec_decode(s: Seq<u8>) -> Option<i16> {
    match config_resolution(s[4]) {
        None => None,
        Some(res) => if raw_of(s[0], s[1]) == -1 {
            None
        } else {
            Some(div_toward_zero(raw_of(s[0], s[1]), divisor_of(res)) as i16)
        },
    }
}

/// A scratchpad whose raw value is the all-ones "no response" pattern never
/// decodes to a reading, whatever its resolution byte says.
pub proof fn lemma_no_response_never_decodes(s: Seq<u8>)
    requires
        s[0] == 0xFF,
        s[1] == 0xFF,
    ensures
        spec_decode(s) is None,
{
}

proof fn lemma_le_combine(lo: u8, hi: u8)
    by (bit_vector)
    ensures
        (((lo as u16) | ((hi as u16) << 8)) as int) == lo + 256 * (hi as int),
{
}

proof fn lemma_u16_as_i16(v: u16)
    by (bit_vector)
    ensures
        ((v as i16) as int) == if v < 32768 {
            v as int
        } else {
            v - 65536
        },
{
}

/// Divide by a small positive divisor, rounding toward zero as the
/// hardware's scaling does.
fn div_trunc(a: i16, divisor: i16) -> (r: i16)
    requires
        2 <= divisor <= 16,
    ensures
        r == div_toward_zero(a as int, divisor as int),
{
    if a >= 0 {
        let q = (a as u16) / (divisor as u16);
        proof {
            vstd::arithmetic::div_mod::lemma_div_nonincreasing(a as int, divisor as int);
        }
        q as i16
    } else {
        let mag = -(a as i32);
        let q = (mag as u32) / (divisor as u32);
        proof {
            vstd::arithmetic::div_mod::lemma_div_nonincreasing(mag as int, divisor as int);
            vstd::arithmetic::div_mod::lemma_div_pos_is_pos(mag as int, divisor as int);
        }
        (-(q as i32)) as i16
    }
}

/// Decode an 8-byte scratchpad into a temperature reading.
pub fn decode_scratchpad(scratchpad: &[u8; 8]) -> (r: Option<i16>)
    ensures
        r == spec_decode(scratchpad@),
{
    let resolution = match MeasureResolution::try_from(scratchpad[4]) {
        Ok(res) => res,
        Err(_) => {
            return None;
        },
    };
    let divisor = resolution.divisor();

    let lo = scratchpad[0];
    let hi = scratchpad[1];
    let v: u16 = (lo as u16) | ((hi as u16) << 8);
    proof {
        lemma_le_combine(lo, hi);
        lemma_u16_as_i16(v);
    }
    if v == 0xFFFF {
        // All ones: the device did not answer.
        return None;
    }
    let raw: i16 = v as i16;

    Some(div_trunc(raw, divisor))
}

/// One DS18B20 sensor: its bus address and, once known, its configured
/// resolution.
pub struct DS18B20 {
    resolution: Option<MeasureResolution>,
    device: Device,
}

impl DS18B20 {
    /// The ROM address the sensor is bound to.
    pub closed spec fn rom(&self) -> [u8; 8] {
        self.device.rom_no
    }

    /// The resolution last read from or written to the sensor, if any.
    pub closed spec fn configured_resolution(&self) -> Option<MeasureResolution> {
        self.resolution
    }

    /// The ROM family code of the DS18B20.
    pub fn family_code() -> (r: u8)
        ensures
            r == 0x28u8,
    {
        0x28
    }

    /// Bind an enumerated device as a DS18B20; hands the device back when
    /// its family code does not match.
    pub fn from_device(device: Device) -> (r: Result<Self, Device>)
        ensures
            device.rom_no[0] == 0x28 <==> r is Ok,
            match r {
                Ok(s) => s.rom() == device.rom_no && s.configured_resolution() is None,
                Err(d) => d == device,
            },
    {
        if device.rom_no[0] == 0x28 {
            Ok(Self { device, resolution: None })
        } else {
            Err(device)
        }
    }

    /// Bind a ROM address as a DS18B20; fails when its family code does not
    /// match.
    pub fn new(rom_no: [u8; 8]) -> (r: Result<Self, ()>)
        ensures
            rom_no[0] == 0x28 <==> r is Ok,
            match r {
                Ok(s) => s.rom() == rom_no && s.configured_resolution() is None,
                Err(_) => true,
            },
    {
        if rom_no[0] == 0x28 {
            Ok(Self { device: Device { rom_no }, resolution: None })
        } else {
            Err(())
        }
    }

    /// Read and decode this sensor's scratchpad.
    ///
    /// Remembers the resolution reported in the scratchpad; an unknown
    /// configuration byte or the all-ones "no response" raw value fails with
    /// `DataError`.  Every `Ok` value is the decoding of some 8-byte
    /// scratchpad.
    pub fn read_temperature<W: BusLine>(&mut self, bus: &mut OneWire<W>) -> (r: Result<
        i16,
        Error<W::Fault>,
    >)
        ensures
            final(self).rom() == old(self).rom(),
            match r {
                Ok(t) => final(self).configured_resolution() is Some && exists|sp: Seq<u8>|
                    sp.len() == 8 && #[trigger] spec_decode(sp) == Some(t),
                Err(e) => e is WireNotHigh || e is PortError || e is DataError,
            },
    {
        bus.reset_and_select_rom(&self.device.rom_no)?;

        bus.write_byte(Command::ReadScratchpad.code())?;

        let mut scratchpad: [u8; 8] = [0; 8];
        bus.read_bytes(&mut scratchpad)?;

        // Remember the resolution the device reports.
        self.resolution = match MeasureResolution::try_from(scratchpad[4]) {
            Ok(res) => Some(res),
            Err(_) => None,
        };

        match decode_scratchpad(&scratchpad) {
            Some(t) => {
                proof {
                    assert(spec_decode(scratchpad@) == Some(t));
                }
                Ok(t)
            },
            None => Err(Error::DataError),
        }
    }

    /// Start a conversion on every device on the bus at once.  The caller
    /// must wait the configured resolution's conversion time before reading.
    pub fn start_measurement<W: BusLine>(bus: &mut OneWire<W>) -> (r: Result<(), Error<W::Fault>>)
        ensures
            match r {
                Ok(_) => true,
                Err(e) => e is WireNotHigh || e is PortError,
            },
    {
        bus.reset()?;
        bus.write_byte(crate::onewire::Command::SkipRom.code())?;
        bus.write_byte(Command::Convert.code())?;
        Ok(())
    }

    /// Write the sensor's configuration register to select `resolution`;
    /// the two alarm bytes are left zero.
    pub fn set_resolution<W: BusLine>(
        &mut self,
        bus: &mut OneWire<W>,
        resolution: MeasureResolution,
    ) -> (r: Result<MeasureResolution, Error<W::Fault>>)
        ensures
            final(self).rom() == old(self).rom(),
            match r {
                Ok(res) => res == resolution && final(self).configured_resolution() == Some(
                    resolution),
                Err(e) => final(self).configured_resolution() is None && (e is WireNotHigh
                    || e is PortError),
            },
    {
        self.resolution = None;

        bus.reset_and_select_rom(&self.device.rom_no)?;

        bus.write_byte(Command::WriteScratchpad.code())?;
        let payload: [u8; 3] = [0, 0, resolution.config_byte()];
        bus.write_bytes(&payload)?;

        self.resolution = Some(resolution);

        Ok(resolution)
    }
}

} // verus!
