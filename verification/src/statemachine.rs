//! Supervisory state machine of the heating plant.
//!
//! The controller is always in exactly one [`HeatControl`] state; states that
//! are left after a fixed dwell time carry the millisecond timestamp at which
//! they were entered.  Transitions are total functions of the current state
//! and one event; the per-cycle event selection from a sensor sample and the
//! digital inputs is [`control_step`], and the actuator outputs commanded in
//! each state are [`actuator_policy`].  All time comparisons use wrapping
//! subtraction against the monotonically increasing millisecond counter, so
//! they stay correct across counter overflow.

use crate::temperature::{BUFFER_HYSTERESIS, MIN_BUFFER_TEMPERATURE};
use vstd::prelude::*;

verus! {

/// Milliseconds from `entry` to `now` on a wrapping millisecond counter.
pub open spec fn elapsed_ms(now: u32, entry: u32) -> u32 {
    now.wrapping_sub(entry)
}

/// A periodic event carrying the current millisecond counter value.
#[derive(Debug, Copy, Clone, Eq, PartialEq)]
pub struct Tick {
    pub time: u32,
}

/// Request to enable the buffer circuit.
#[derive(Debug, Copy, Clone, Eq, PartialEq)]
pub struct Enable {}

/// Request to disable the buffer circuit.
#[derive(Debug, Copy, Clone, Eq, PartialEq)]
pub struct Disable {}

/// Request to start the buffer pump, carrying the current time.
#[derive(Debug, Copy, Clone, Eq, PartialEq)]
pub struct ActivatePump {
    pub time: u32,
}

/// Start-up settling state, entered at power-on.
#[derive(Debug, Copy, Clone, Eq, PartialEq)]
pub struct Init {
    pub time: u32,
}

/// The buffer circuit is shut off.
#[derive(Debug, Copy, Clone, Eq, PartialEq)]
pub struct BufferDisabled {}

/// The buffer feeds the heating circuit; the pump is off.
#[derive(Debug, Copy, Clone, Eq, PartialEq)]
pub struct BufferEnabled {}

/// The buffer pump runs, since the time stored here.
#[derive(Debug, Copy, Clone, Eq, PartialEq)]
pub struct PumpActive {
    pub time: u32,
}

/// Rest period after a pump run, since the time stored here.
#[derive(Debug, Copy, Clone, Eq, PartialEq)]
pub struct PumpPause {
    pub time: u32,
}

/// The operating state of the heating-plant controller.
///
/// `Error` is reserved: it is displayed and reported but no transition
/// reaches it from the states used by [`control_step`].
#[derive(Debug, Copy, Clone, Eq, PartialEq)]
pub enum HeatControl {
    Error,
    Init(Init),
    BufferDisabled(BufferDisabled),
    BufferEnabled(BufferEnabled),
    PumpActive(PumpActive),
    PumpPause(PumpPause),
}

/// Milliseconds the controller settles in `Init` before operating.
pub const INIT_SETTLE_TIME: u32 = 5_000;

/// Milliseconds of one pump run, and of the pause that follows it.
pub const PUMP_RUN_TIME: u32 = 60_000;

impl Init {
    /// State reached from `Init` by a tick: leave for `BufferDisabled` once
    /// more than [`INIT_SETTLE_TIME`] has passed since entry.
    pub open spec fn tick_target(self, input: Tick) -> HeatControl {
        if elapsed_ms(input.time, self.time) > INIT_SETTLE_TIME {
            HeatControl::BufferDisabled(BufferDisabled {  })
        } else {
            HeatControl::Init(self)
        }
    }

    pub fn on_tick(self, input: Tick) -> (r: HeatControl)
        ensures
            r == self.tick_target(input),
    {
        if input.time.wrapping_sub(self.time) > INIT_SETTLE_TIME {
            HeatControl::BufferDisabled(BufferDisabled {  })
        } else {
            HeatControl::Init(self)
        }
    }
}

impl BufferDisabled {
    pub fn on_enable(self, _event: Enable) -> (r: BufferEnabled)
        ensures
            r == (BufferEnabled {  }),
    {
        BufferEnabled {  }
    }
}

impl BufferEnabled {
    pub fn on_disable(self, _event: Disable) -> (r: BufferDisabled)
        ensures
            r == (BufferDisabled {  }),
    {
        BufferDisabled {  }
    }

    pub fn on_activate_pump(self, input: ActivatePump) -> (r: PumpActive)
        ensures
            r == (PumpActive { time: input.time }),
    {
        PumpActive { time: input.time }
    }
}

impl PumpActive {
    /// State reached from `PumpActive` by a tick: rest in `PumpPause` once
    /// the pump has run for more than [`PUMP_RUN_TIME`].
    pub open spec fn tick_target(self, input: Tick) -> HeatControl {
        if elapsed_ms(input.time, self.time) > PUMP_RUN_TIME {
            HeatControl::PumpPause(PumpPause { time: input.time })
        } else {
            HeatControl::PumpActive(self)
        }
    }

    pub fn on_tick(self, input: Tick) -> (r: HeatControl)
        ensures
            r == self.tick_target(input),
    {
        if input.time.wrapping_sub(self.time) > PUMP_RUN_TIME {
            HeatControl::PumpPause(PumpPause { time: input.time })
        } else {
            HeatControl::PumpActive(self)
        }
    }
}

impl PumpPause {
    /// State reached from `PumpPause` by a tick: return to `BufferEnabled`
    /// once the pause has lasted more than [`PUMP_RUN_TIME`].
    pub open spec fn tick_target(self, input: Tick) -> HeatControl {
        if elapsed_ms(input.time, self.time) > PUMP_RUN_TIME {
            HeatControl::BufferEnabled(BufferEnabled {  })
        } else {
            HeatControl::PumpPause(self)
        }
    }

    pub fn on_tick(self, input: Tick) -> (r: HeatControl)
        ensures
            r == self.tick_target(input),
    {
        if input.time.wrapping_sub(self.time) > PUMP_RUN_TIME {
            HeatControl::BufferEnabled(BufferEnabled {  })
        } else {
            HeatControl::PumpPause(self)
        }
    }
}

impl HeatControl {
    /// The controller's initial state at time `time`.
    pub fn init(time: u32) -> (r: HeatControl)
        ensures
            r == HeatControl::Init(Init { time }),
    {
        HeatControl::Init(Init { time })
    }

    /// Short display label of the state.
    pub fn to_string(&self) -> (r: &'static str)
        ensures
            match self {
                HeatControl::Error => r@ == "Error"@,
                HeatControl::Init(_) => r@ == "Init"@,
                HeatControl::BufferDisabled(_) => r@ == "Buffer Disabled"@,
                HeatControl::BufferEnabled(_) => r@ == "Buffer Enabled"@,
                HeatControl::PumpActive(_) => r@ == "Pump Active"@,
                HeatControl::PumpPause(_) => r@ == "Pump Pause"@,
            },
    {
        match self {
            HeatControl::Error => "Error",
            HeatControl::Init(_) => "Init",
            HeatControl::BufferDisabled(_) => "Buffer Disabled",
            HeatControl::BufferEnabled(_) => "Buffer Enabled",
            HeatControl::PumpActive(_) => "Pump Active",
            HeatControl::PumpPause(_) => "Pump Pause",
        }
    }

    /// Numeric code of the state, used to detect state changes.
    pub fn to_u8(&self) -> (r: u8)
        ensures
            r == match self {
                HeatControl::Error => 0u8,
                HeatControl::Init(_) => 1u8,
                HeatControl::BufferDisabled(_) => 2u8,
                HeatControl::BufferEnabled(_) => 3u8,
                HeatControl::PumpActive(_) => 4u8,
                HeatControl::PumpPause(_) => 5u8,
            },
    {
        match self {
            HeatControl::Error => 0,
            HeatControl::Init(_) => 1,
            HeatControl::BufferDisabled(_) => 2,
            HeatControl::BufferEnabled(_) => 3,
            HeatControl::PumpActive(_) => 4,
            HeatControl::PumpPause(_) => 5,
        }
    }
}

/// The state reached from `state` in one control cycle, given the
/// top-of-buffer reading, the start-burner and heating-pump inputs, and the
/// current time.
///
/// In `BufferDisabled`, the buffer is enabled only when a reading exists, it
/// is at least [`MIN_BUFFER_TEMPERATURE`] plus [`BUFFER_HYSTERESIS`], the
/// burner is not requested and the heating pump runs.  In `BufferEnabled`,
/// the disable conditions (reading absent, reading below
/// [`MIN_BUFFER_TEMPERATURE`], heating pump off) are evaluated before pump
/// activation, so a missing or low reading always wins over a burner
/// request.
pub open spec fn next_state(
    state: HeatControl,
    buffer_top: Option<i16>,
    start_burner: bool,
    heating_pump: bool,
    time: u32,
) -> HeatControl {
    match state {
        HeatControl::Init(s) => s.tick_target(Tick { time }),
        HeatControl::BufferDisabled(_) => match buffer_top {
            Some(temp) => if temp >= MIN_BUFFER_TEMPERATURE + BUFFER_HYSTERESIS && !start_burner
                && heating_pump {
                HeatControl::BufferEnabled(BufferEnabled {  })
            } else {
                state
            },
            None => state,
        },
        HeatControl::BufferEnabled(_) => match buffer_top {
            None => HeatControl::BufferDisabled(BufferDisabled {  }),
            Some(temp) => if temp < MIN_BUFFER_TEMPERATURE {
                HeatControl::BufferDisabled(BufferDisabled {  })
            } else if !heating_pump {
                HeatControl::BufferDisabled(BufferDisabled {  })
            } else if start_burner {
                HeatControl::PumpActive(PumpActive { time })
            } else {
                state
            },
        },
        HeatControl::PumpActive(s) => s.tick_target(Tick { time }),
        HeatControl::PumpPause(s) => s.tick_target(Tick { time }),
        HeatControl::Error => state,
    }
}

/// Advance the state machine by one control cycle.
pub fn control_step(
    state: HeatControl,
    buffer_top: Option<i16>,
    start_burner: bool,
    heating_pump: bool,
    time: u32,
) -> (r: HeatControl)
    ensures
        r == next_state(state, buffer_top, start_burner, heating_pump, time),
{
    match state {
        HeatControl::Init(s) => s.on_tick(Tick { time }),
        HeatControl::BufferDisabled(s) => match buffer_top {
            Some(temp) => if temp >= MIN_BUFFER_TEMPERATURE + BUFFER_HYSTERESIS && !start_burner
                && heating_pump {
                HeatControl::BufferEnabled(s.on_enable(Enable {  }))
            } else {
                state
            },
            None => state,
        },
        HeatControl::BufferEnabled(s) => match buffer_top {
            None => HeatControl::BufferDisabled(s.on_disable(Disable {  })),
            Some(temp) => if temp < MIN_BUFFER_TEMPERATURE {
                HeatControl::BufferDisabled(s.on_disable(Disable {  }))
            } else if !heating_pump {
                HeatControl::BufferDisabled(s.on_disable(Disable {  }))
            } else if start_burner {
                HeatControl::PumpActive(s.on_activate_pump(ActivatePump { time }))
            } else {
                state
            },
        },
        HeatControl::PumpActive(s) => s.on_tick(Tick { time }),
        HeatControl::PumpPause(s) => s.on_tick(Tick { time }),
        HeatControl::Error => state,
    }
}

/// The three actuator lines commanded in one state.
#[derive(Debug, Copy, Clone, Eq, PartialEq)]
pub struct ActuatorCommand {
    pub burner_inhibit: bool,
    pub magnet_valve_buffer: bool,
    pub pump_buffer: bool,
}

/// The actuator lines commanded in `state`; a pure function of the state
/// alone, so repeated evaluation in one state always commands the same
/// outputs.  States outside normal operation (`Error`) fall back to the safe
/// "inhibited, valve open, no pump" command.
pub open spec fn policy(state: HeatControl) -> ActuatorCommand {
    match state {
        HeatControl::Init(_) => ActuatorCommand {
            burner_inhibit: false,
            magnet_valve_buffer: false,
            pump_buffer: false,
        },
        HeatControl::BufferDisabled(_) => ActuatorCommand {
            burner_inhibit: false,
            magnet_valve_buffer: false,
            pump_buffer: false,
        },
        HeatControl::BufferEnabled(_) => ActuatorCommand {
            burner_inhibit: true,
            magnet_valve_buffer: true,
            pump_buffer: false,
        },
        HeatControl::PumpActive(_) => ActuatorCommand {
            burner_inhibit: true,
            magnet_valve_buffer: true,
            pump_buffer: true,
        },
        HeatControl::PumpPause(_) => ActuatorCommand {
            burner_inhibit: true,
            magnet_valve_buffer: true,
            pump_buffer: false,
        },
        HeatControl::Error => ActuatorCommand {
            burner_inhibit: true,
            magnet_valve_buffer: true,
            pump_buffer: false,
        },
    }
}

/// Evaluate the actuator policy for `state`.
pub fn actuator_policy(state: &HeatControl) -> (r: ActuatorCommand)
    ensures
        r == policy(*state),
{
    match state {
        HeatControl::Init(_) => ActuatorCommand {
            burner_inhibit: false,
            magnet_valve_buffer: false,
            pump_buffer: false,
        },
        HeatControl::BufferDisabled(_) => ActuatorCommand {
            burner_inhibit: false,
            magnet_valve_buffer: false,
            pump_buffer: false,
        },
        HeatControl::BufferEnabled(_) => ActuatorCommand {
            burner_inhibit: true,
            magnet_valve_buffer: true,
            pump_buffer: false,
        },
        HeatControl::PumpActive(_) => ActuatorCommand {
            burner_inhibit: true,
            magnet_valve_buffer: true,
            pump_buffer: true,
        },
        HeatControl::PumpPause(_) => ActuatorCommand {
            burner_inhibit: true,
            magnet_valve_buffer: true,
            pump_buffer: false,
        },
        HeatControl::Error => ActuatorCommand {
            burner_inhibit: true,
            magnet_valve_buffer: true,
            pump_buffer: false,
        },
    }
}

/// Whether a periodic refresh (display, telemetry) is due: the wrapped
/// elapsed time since the last refresh has reached the period, or the state
/// code changed since the last cycle.
pub fn refresh_due(now: u32, last: u32, period: u32, current_state: u8, old_state: u8) -> (r: bool)
    ensures
        r == (elapsed_ms(now, last) >= period || current_state != old_state),
{
    now.wrapping_sub(last) >= period || current_state != old_state
}

/// In every state, the buffer pump is commanded on only with the magnet
/// valve open and the burner inhibited.
pub proof fn lemma_pump_runs_only_inhibited(state: HeatControl)
    ensures
        policy(state).pump_buffer ==> policy(state).magnet_valve_buffer && policy(
            state).burner_inhibit,
{
}

/// An absent top-of-buffer reading always disables an enabled buffer, no
/// matter what the burner and pump inputs request.
pub proof fn lemma_absent_reading_disables(
    state: BufferEnabled,
    start_burner: bool,
    heating_pump: bool,
    time: u32,
)
    ensures
        next_state(HeatControl::BufferEnabled(state), None, start_burner, heating_pump, time)
            == HeatControl::BufferDisabled(BufferDisabled {  }),
{
}

/// The disable conditions are evaluated before pump activation: a reading
/// below [`MIN_BUFFER_TEMPERATURE`] or a stopped heating pump disables an
/// enabled buffer even while the burner is requested.
pub proof fn lemma_disable_takes_precedence(
    state: BufferEnabled,
    temp: i16,
    start_burner: bool,
    heating_pump: bool,
    time: u32,
)
    requires
        temp < MIN_BUFFER_TEMPERATURE || !heating_pump,
    ensures
        next_state(HeatControl::BufferEnabled(state), Some(temp), start_burner, heating_pump, time)
            == HeatControl::BufferDisabled(BufferDisabled {  }),
{
}

/// Wrapping subtraction measures the elapsed time correctly even when the
/// millisecond counter overflows between state entry and now.
pub proof fn lemma_elapsed_across_wrap(entry: u32, now: u32)
    requires
        now < entry,
    ensures
        elapsed_ms(now, entry) == now + (u32::MAX - entry) + 1,
{
}

} // verus!
