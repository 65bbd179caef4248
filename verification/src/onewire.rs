//! Bit-banged single-wire bus protocol over one shared, open-drain digital
//! line.
//!
//! The physical line is abstracted as a [`BusLine`]: the caller supplies the
//! pin driver, and [`OneWire`] implements the signaling protocol on top of
//! it — reset with presence detection, exactly timed bit slots, LSB-first
//! byte transfer, and the iterative binary-tree ROM search with CRC-8
//! validation of every fully enumerated address.
//!
//! What a transaction returns depends on the devices on the bus, so the
//! contracts here state what holds of every outcome: which errors each
//! operation can surface, how a search call changes the [`SearchState`], and
//! that an address completing a full search pass carries a valid checksum.

use vstd::prelude::*;

verus! {

/// One shared, open-drain bus line together with a microsecond timer.
///
/// This is the interface the protocol driver demands of the outside world:
/// drive the line low, release it to its pulled-up idle level, sample it,
/// and busy-wait a number of microseconds.  Pin operations may fail with the
/// driver's own fault type.  Nothing is assumed about the sampled level: it
/// is decided by the devices on the bus.
pub trait BusLine {
    /// Fault type of the underlying pin driver.
    type Fault;

    /// Drive the line low.
    fn set_low(&mut self) -> Result<(), Self::Fault>;

    /// Release the line to high impedance (pulled up to idle-high).
    fn set_high(&mut self) -> Result<(), Self::Fault>;

    /// Sample the line level; `true` means high.
    fn is_high(&self) -> Result<bool, Self::Fault>;

    /// Busy-wait for `us` microseconds.
    fn delay_us(&mut self, us: u16);
}

/// Errors of the bus and sensor layers.
#[derive(Debug, Clone, Copy, PartialEq, Eq)]
pub enum Error<E> {
    /// The line is not pulled up; it may be shorted or missing its resistor.
    WireNotHigh,
    /// The underlying pin driver failed.
    PortError(E),
    /// Device enumeration is already exhausted (a sentinel, not a fault).
    SearchEnd,
    /// A discovered address failed its checksum: (computed, received).
    CrcError(u8, u8),
    /// A device answered with data that makes no sense.
    DataError,
}

/// Bus-level command bytes.
#[derive(Debug, Clone, Copy, PartialEq, Eq)]
pub enum Command {
    /// Start the ROM search.
    Search,
    /// Address one device by its ROM.
    SelectRom,
    /// Address all devices at once.
    SkipRom,
}

impl Command {
    /// The byte sent on the bus for this command.
    pub fn code(&self) -> (r: u8)
        ensures
            r == match self {
                Command::Search => 0xF0u8,
                Command::SelectRom => 0x55u8,
                Command::SkipRom => 0xCCu8,
            },
    {
        match self {
            Command::Search => 0xF0,
            Command::SelectRom => 0x55,
            Command::SkipRom => 0xCC,
        }
    }
}

/// The CRC-8 of the "Maxim/Dallas" polynomial variant over a byte sequence.
/// Its value is pinned down only by the outside implementation; the
/// contracts here use it by name.
pub uninterp spec fn crc8_of(data: Seq<u8>) -> u8;

/// Relies on `crc_any::CRCu8::crc8maxim`, `digest` and `get_crc`: the CRC-8
/// "Maxim/Dallas" checksum of the given bytes, a function of the bytes
/// alone.
#[verifier::external_body]
fn crc8_maxim(data: &[u8]) -> (r: u8)
    ensures
        r == crc8_of(data@),
{
    let mut crc = crc_any::CRCu8::crc8maxim();
    crc.digest(data);
    crc.get_crc()
}

/// An 8-byte device address is well formed when its last byte equals the
/// CRC-8 of the first seven.
pub open spec fn rom_crc_ok(addr: Seq<u8>) -> bool {
    crc8_of(addr.take(7)) == addr[7]
}

/// Check the checksum byte of an 8-byte device address; `Err` carries the
/// (computed, received) pair.
pub fn check_rom_crc(add: &[u8; 8]) -> (r: Result<(), (u8, u8)>)
    ensures
        r is Ok <==> rom_crc_ok(add@),
        r matches Err((computed, received)) ==> computed == crc8_of(add@.take(7))
            && received == add@[7] && computed != received,
{
    let mut prefix: Vec<u8> = Vec::new();
    let mut i: usize = 0;
    while i < 7
        invariant
            i <= 7,
            prefix@ == add@.take(i as int),
        decreases 7 - i,
    {
        prefix.push(add[i]);
        proof {
            assert(prefix@ =~= add@.take(i + 1));
        }
        i = i + 1;
    }
    let crc_calc = crc8_maxim(prefix.as_slice());
    let crc_rec = add[7];
    if crc_calc == crc_rec {
        Ok(())
    } else {
        Err((crc_calc, crc_rec))
    }
}

/// For a fixed 7-byte address prefix, exactly the checksum byte equal to the
/// prefix's CRC-8 passes the address check.
pub proof fn lemma_crc_accepts_exactly_one(prefix: Seq<u8>, b: u8)
    requires
        prefix.len() == 7,
    ensures
        rom_crc_ok(prefix.push(b)) <==> b == crc8_of(prefix),
{
    assert(prefix.push(b).take(7) =~= prefix);
}

/// No two distinct checksum bytes can both complete the same 7-byte prefix
/// to a well-formed address.
pub proof fn lemma_crc_rejects_every_other(prefix: Seq<u8>, b1: u8, b2: u8)
    requires
        prefix.len() == 7,
        b1 != b2,
    ensures
        !(rom_crc_ok(prefix.push(b1)) && rom_crc_ok(prefix.push(b2))),
{
    lemma_crc_accepts_exactly_one(prefix, b1);
    lemma_crc_accepts_exactly_one(prefix, b2);
}

/// Bit `i` (0-based, LSB-first within each byte) of an address given as a
/// byte sequence.
pub open spec fn addr_bit(rom: Seq<u8>, i: int) -> bool {
    (rom[i / 8] >> ((i % 8) as u8)) & 1u8 == 1u8
}

proof fn lemma_byte_bit_test(b: u8, o: u8)
    by (bit_vector)
    requires
        o < 8,
    ensures
        ((b & (1u8 << o)) != 0) == (((b >> o) & 1u8) == 1u8),
{
}

proof fn lemma_byte_bit_update(b: u8, o: u8, p: u8, v: bool)
    by (bit_vector)
    requires
        o < 8,
        p < 8,
    ensures
        ({
            let nb = if v {
                b | (1u8 << o)
            } else {
                b & (!(1u8 << o))
            };
            (((nb >> p) & 1u8) == 1u8) == (if p == o {
                v
            } else {
                ((b >> p) & 1u8) == 1u8
            })
        }),
{
}

/// Read bit `bit` of the 64-bit address `array`; positions past the end
/// read as `false`.
pub fn is_bit_set(array: &[u8; 8], bit: u8) -> (r: bool)
    ensures
        r == (bit < 64 && addr_bit(array@, bit as int)),
{
    if bit / 8 >= 8 {
        return false;
    }
    let index = (bit / 8) as usize;
    let offset = bit % 8;
    let b = array[index];
    proof {
        lemma_byte_bit_test(b, offset);
    }
    (b & (1u8 << offset)) != 0
}

/// Set bit `bit` of the 64-bit address `array` to `value`, leaving every
/// other bit as it was; positions past the end change nothing.
pub fn set_bit(array: &mut [u8; 8], bit: u8, value: bool)
    ensures
        bit >= 64 ==> final(array)@ == old(array)@,
        forall|j: int| 0 <= j < 64 ==> #[trigger] addr_bit(final(array)@, j) == (
            if bit < 64 && j == bit as int {
                value
            } else {
                addr_bit(old(array)@, j)
            }
        ),
{
    if bit / 8 >= 8 {
        return;
    }
    let index = (bit / 8) as usize;
    let offset = bit % 8;
    let b = array[index];
    let nb = if value {
        b | (1u8 << offset)
    } else {
        b & (!(1u8 << offset))
    };
    array[index] = nb;
    proof {
        assert forall|j: int| 0 <= j < 64 implies #[trigger] addr_bit(array@, j) == (
            if j == bit as int {
                value
            } else {
                addr_bit(old(array)@, j)
            }
        ) by {
            vstd::arithmetic::div_mod::lemma_fundamental_div_mod(j, 8);
            vstd::arithmetic::div_mod::lemma_fundamental_div_mod(bit as int, 8);
            let p = (j % 8) as u8;
            if j / 8 == index as int {
                lemma_byte_bit_update(b, offset, p, value);
            }
        }
    }
}

/// Transient cursor of the iterative binary-tree device enumeration.
///
/// `rom_no` accumulates the address of the pass under way; bits before the
/// last recorded discrepancy are replayed from it on the next pass.
/// `pass_complete` marks (in ghost state) whether the last search call ran
/// all 64 bit positions, as opposed to aborting on a bus conflict: only a
/// completed pass validates the accumulated address's checksum.
pub struct SearchState {
    pub last_discrepancy: u8,
    pub rom_no: [u8; 8],
    pub status: SearchStatus,
    pub pass_complete: Ghost<bool>,
}

/// Whether another search pass may follow.
#[derive(Debug, Clone, Copy, PartialEq, Eq)]
pub enum SearchStatus {
    /// More devices may remain.
    Next,
    /// Enumeration is exhausted.
    End,
}

impl SearchState {
    /// The cursor invariant of the enumeration: the last recorded
    /// discrepancy is an index into 0..=64 (0 meaning none).
    pub open spec fn wf(&self) -> bool {
        self.last_discrepancy <= 64
    }

    /// A fresh cursor for a new enumeration of the bus.
    pub fn new() -> (r: Self)
        ensures
            r.last_discrepancy == 0,
            r.rom_no@ == Seq::<u8>::new(8, |i: int| 0u8),
            r.status == SearchStatus::Next,
            !r.pass_complete@,
            r.wf(),
    {
        let rom_no: [u8; 8] = [0; 8];
        proof {
            assert(rom_no@ =~= Seq::<u8>::new(8, |i: int| 0u8));
        }
        SearchState {
            last_discrepancy: 0,
            rom_no,
            status: SearchStatus::Next,
            pass_complete: Ghost(false),
        }
    }
}

/// The branch the search takes at one bit position, from the true bit and
/// its complement as read off the bus: `None` on a bus conflict (both bits
/// high), the forced bit when the two differ, and at a discrepancy the `1`
/// branch when this position is the recorded one, the `0` branch when it is
/// a new discrepancy past it, and the replayed address bit when it lies
/// before it.
pub open spec fn search_direction(
    id_bit: bool,
    comp_id_bit: bool,
    id_bit_number: u8,
    last_discrepancy: u8,
    rom_no: Seq<u8>,
) -> Option<bool> {
    if id_bit && comp_id_bit {
        None
    } else if id_bit != comp_id_bit {
        Some(id_bit)
    } else if id_bit_number == last_discrepancy {
        Some(true)
    } else if id_bit_number > last_discrepancy {
        Some(false)
    } else {
        Some(addr_bit(rom_no, id_bit_number - 1))
    }
}

/// Decide the branch at bit position `id_bit_number` (1-based) of a search
/// pass.
pub fn choose_search_direction(
    id_bit: bool,
    comp_id_bit: bool,
    id_bit_number: u8,
    last_discrepancy: u8,
    rom_no: &[u8; 8],
) -> (r: Option<bool>)
    requires
        1 <= id_bit_number <= 64,
    ensures
        r == search_direction(id_bit, comp_id_bit, id_bit_number, last_discrepancy, rom_no@),
{
    if id_bit && comp_id_bit {
        None
    } else if id_bit != comp_id_bit {
        Some(id_bit)
    } else if id_bit_number == last_discrepancy {
        Some(true)
    } else if id_bit_number > last_discrepancy {
        Some(false)
    } else {
        Some(is_bit_set(rom_no, id_bit_number - 1))
    }
}

/// Map a pin-driver result onto the bus error type.
fn map_port_err<T, F>(r: Result<T, F>) -> (out: Result<T, Error<F>>)
    ensures
        match r {
            Ok(v) => out == Ok::<T, Error<F>>(v),
            Err(e) => out == Err::<T, Error<F>>(Error::PortError(e)),
        },
{
    match r {
        Ok(v) => Ok(v),
        Err(e) => Err(Error::PortError(e)),
    }
}

/// The single-wire protocol driver; it owns the bus line exclusively.
pub struct OneWire<W: BusLine> {
    io_pin: W,
}

impl<W: BusLine> OneWire<W> {
    /// Take ownership of the bus line.
    pub fn new(io_pin: W) -> Self {
        Self { io_pin }
    }

    /// Reset the bus and detect device presence.
    ///
    /// Drives the line low for the reset pulse, releases it, and samples the
    /// presence window; `Ok(true)` means some device pulled the line low.
    pub fn reset(&mut self) -> (r: Result<bool, Error<W::Fault>>)
        ensures
            match r {
                Ok(_) => true,
                Err(e) => e is WireNotHigh || e is PortError,
            },
    {
        // The line must be released and idle-high before the reset pulse.
        map_port_err(self.io_pin.set_high())?;
        self.is_line_high()?;

        // Reset pulse of at least 480 us.
        map_port_err(self.io_pin.set_low())?;
        self.io_pin.delay_us(480);
        map_port_err(self.io_pin.set_high())?;

        // Let the devices react to the rising edge, then sample the
        // 60..120 us presence window.
        let mut line = false;
        self.io_pin.delay_us(60);
        let mut i: u8 = 0;
        while i < 6
            invariant
                i <= 6,
            decreases 6 - i,
        {
            let high = map_port_err(self.io_pin.is_high())?;
            line = line || !high;
            self.io_pin.delay_us(10);
            i = i + 1;
        }

        Ok(line)
    }

    /// Wait for the released line to return high, polling in 2 us steps.
    fn is_line_high(&mut self) -> (r: Result<(), Error<W::Fault>>)
        ensures
            match r {
                Ok(_) => true,
                Err(e) => e is WireNotHigh || e is PortError,
            },
    {
        let mut i: u8 = 0;
        while i < 125
            invariant
                i <= 125,
            decreases 125 - i,
        {
            let high = map_port_err(self.io_pin.is_high())?;
            if high {
                return Ok(());
            }
            self.io_pin.delay_us(2);
            i = i + 1;
        }
        Err(Error::WireNotHigh)
    }

    /// Write one bit in its 80 us slot: a `1` holds the line low for 10 us,
    /// a `0` for 65 us.
    fn write_bit(&mut self, bit: bool) -> (r: Result<(), Error<W::Fault>>)
        ensures
            match r {
                Ok(_) => true,
                Err(e) => e is PortError,
            },
    {
        map_port_err(self.io_pin.set_low())?;
        self.io_pin.delay_us(if bit { 10 } else { 65 });
        map_port_err(self.io_pin.set_high())?;
        self.io_pin.delay_us(if bit { 70 } else { 5 });
        Ok(())
    }

    /// Read one bit: pull low for 2 us, release, sample 5 us later, and pad
    /// out the rest of the 60 us slot.
    fn read_bit(&mut self) -> (r: Result<bool, Error<W::Fault>>)
        ensures
            match r {
                Ok(_) => true,
                Err(e) => e is PortError,
            },
    {
        map_port_err(self.io_pin.set_low())?;
        self.io_pin.delay_us(2);
        map_port_err(self.io_pin.set_high())?;
        self.io_pin.delay_us(5);
        let bit = map_port_err(self.io_pin.is_high())?;
        self.io_pin.delay_us(53);
        Ok(bit)
    }

    /// Write one byte, least-significant bit first.
    pub(crate) fn write_byte(&mut self, byte: u8) -> (r: Result<(), Error<W::Fault>>)
        ensures
            match r {
                Ok(_) => true,
                Err(e) => e is PortError,
            },
    {
        let mut b = byte;
        let mut i: u8 = 0;
        while i < 8
            invariant
                i <= 8,
            decreases 8 - i,
        {
            self.write_bit((b & 0x01) == 0x01)?;
            b = b >> 1;
            i = i + 1;
        }
        Ok(())
    }

    /// Read one byte, least-significant bit first.
    fn read_byte(&mut self) -> (r: Result<u8, Error<W::Fault>>)
        ensures
            match r {
                Ok(_) => true,
                Err(e) => e is PortError,
            },
    {
        let mut byte: u8 = 0;
        let mut i: u8 = 0;
        while i < 8
            invariant
                i <= 8,
            decreases 8 - i,
        {
            byte = byte >> 1;
            if self.read_bit()? {
                byte = byte | 0x80;
            }
            i = i + 1;
        }
        Ok(byte)
    }

    /// Write a fixed-size run of bytes.
    pub fn write_bytes<const N: usize>(&mut self, bytes: &[u8; N]) -> (r: Result<
        (),
        Error<W::Fault>,
    >)
        ensures
            match r {
                Ok(_) => true,
                Err(e) => e is PortError,
            },
    {
        let mut i: usize = 0;
        while i < N
            invariant
                i <= N,
            decreases N - i,
        {
            self.write_byte(bytes[i])?;
            i = i + 1;
        }
        Ok(())
    }

    /// Read a fixed-size run of bytes into `bytes`.
    pub fn read_bytes<const N: usize>(&mut self, bytes: &mut [u8; N]) -> (r: Result<
        (),
        Error<W::Fault>,
    >)
        ensures
            match r {
                Ok(_) => true,
                Err(e) => e is PortError,
            },
    {
        let mut i: usize = 0;
        while i < N
            invariant
                i <= N,
            decreases N - i,
        {
            bytes[i] = self.read_byte()?;
            i = i + 1;
        }
        Ok(())
    }

    /// Reset the bus and address one device by its ROM.
    pub fn reset_and_select_rom(&mut self, rom_no: &[u8; 8]) -> (r: Result<(), Error<W::Fault>>)
        ensures
            match r {
                Ok(_) => true,
                Err(e) => e is WireNotHigh || e is PortError,
            },
    {
        self.reset()?;
        self.write_byte(Command::SelectRom.code())?;
        self.write_bytes(rom_no)?;
        Ok(())
    }

    /// One pass of the binary-tree device search, over all 64 bit positions
    /// unless a bus conflict aborts it.
    ///
    /// Feeding the returned state back into repeated calls visits every
    /// device address once; the pass after the last device marks the state
    /// exhausted, and a further call fails with `SearchEnd`.  Every address
    /// from a completed pass (`pass_complete`) carries a valid checksum — a
    /// completed pass that fails the check is a `CrcError` instead; a bus
    /// conflict returns the partial address accumulated so far, not
    /// validated, and ends the enumeration with the cursor's discrepancy
    /// position untouched.
    pub fn search(&mut self, search_state: &mut SearchState) -> (r: Result<
        Option<[u8; 8]>,
        Error<W::Fault>,
    >)
        ensures
            old(search_state).status == SearchStatus::End <==> r == Err::<
                Option<[u8; 8]>,
                Error<W::Fault>,
            >(Error::SearchEnd),
            old(search_state).status == SearchStatus::End ==> *final(search_state) == *old(
                search_state),
            old(search_state).wf() ==> final(search_state).wf(),
            r is Ok && final(search_state).last_discrepancy == 0 ==> final(search_state).status
                == SearchStatus::End,
            match r {
                Ok(Some(addr)) => addr == final(search_state).rom_no && (final(
                    search_state).pass_complete@ ==> rom_crc_ok(addr@)) && (final(
                    search_state).status == SearchStatus::Next ==> final(
                    search_state).pass_complete@) && (!final(search_state).pass_complete@
                    ==> final(search_state).status == SearchStatus::End && final(
                    search_state).last_discrepancy == old(search_state).last_discrepancy),
                Ok(None) => final(search_state).status == SearchStatus::End && final(
                    search_state).rom_no == old(search_state).rom_no && final(
                    search_state).last_discrepancy == old(search_state).last_discrepancy && !final(
                    search_state).pass_complete@,
                Err(e) => match e {
                    Error::SearchEnd => true,
                    Error::CrcError(computed, received) => computed == crc8_of(
                        final(search_state).rom_no@.take(7)) && received == final(
                        search_state).rom_no@[7] && computed != received,
                    Error::WireNotHigh => true,
                    Error::PortError(_) => true,
                    Error::DataError => false,
                },
            },
    {
        if matches!(search_state.status, SearchStatus::End) {
            return Err(Error::SearchEnd);
        }

        // Nothing of this pass has run yet.
        search_state.pass_complete = Ghost(false);

        // Reset; a silent bus ends the enumeration with no device found.
        if !self.reset()? {
            search_state.status = SearchStatus::End;
            return Ok(None);
        }

        let mut last_zero: u8 = 0;

        self.write_byte(Command::Search.code())?;

        let mut id_bit_number: u8 = 1;
        while id_bit_number <= 64
            invariant
                1 <= id_bit_number <= 65,
                last_zero <= 64,
                old(search_state).status == SearchStatus::Next,
                search_state.status == SearchStatus::Next,
                search_state.last_discrepancy == old(search_state).last_discrepancy,
                !search_state.pass_complete@,
            decreases 65 - id_bit_number,
        {
            // Read the true bit and its complement.
            let id_bit = self.read_bit()?;
            let comp_id_bit = self.read_bit()?;

            let direction = match choose_search_direction(
                id_bit,
                comp_id_bit,
                id_bit_number,
                search_state.last_discrepancy,
                &search_state.rom_no,
            ) {
                None => {
                    // Bus conflict: no device answered this slot.
                    search_state.status = SearchStatus::End;
                    return Ok(Some(search_state.rom_no));
                },
                Some(d) => d,
            };

            // Remember the most recent position where the 0 branch of a
            // discrepancy was taken.
            if !id_bit && !comp_id_bit && !direction {
                last_zero = id_bit_number;
            }

            // Every device not matching the chosen bit drops off the bus.
            self.write_bit(direction)?;

            set_bit(&mut search_state.rom_no, id_bit_number - 1, direction);

            id_bit_number = id_bit_number + 1;
        }

        // All 64 positions were walked: the pass is complete.
        search_state.pass_complete = Ghost(true);
        search_state.last_discrepancy = last_zero;

        // No discrepancy left to explore: this pass visited the last device.
        if search_state.last_discrepancy == 0 {
            search_state.status = SearchStatus::End;
        }

        match check_rom_crc(&search_state.rom_no) {
            Ok(()) => Ok(Some(search_state.rom_no)),
            Err((computed, received)) => Err(Error::CrcError(computed, received)),
        }
    }

    /// Busy-wait `ms` milliseconds on the bus line's timer.
    pub fn wait_ms(&mut self, ms: u16) {
        let mut i: u16 = 0;
        while i < ms
            invariant
                i <= ms,
            decreases ms - i,
        {
            self.io_pin.delay_us(1000);
            i = i + 1;
        }
    }
}

/// One enumerated bus device, identified by its 8-byte ROM address.
pub struct Device {
    pub rom_no: [u8; 8],
}

impl Device {
    pub fn new(rom_no: [u8; 8]) -> (r: Self)
        ensures
            r.rom_no == rom_no,
    {
        Self { rom_no }
    }
}

} // verus!
