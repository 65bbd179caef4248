use heat_control::statemachine::{
    actuator_policy, control_step, refresh_due, ActivatePump, BufferDisabled, BufferEnabled,
    Disable, Enable, HeatControl, Init, PumpActive, PumpPause, Tick,
};
use heat_control::temperature::{BUFFER_HYSTERESIS, MIN_BUFFER_TEMPERATURE};

#[test]
fn init_waits_out_the_settle_time() {
    let s = Init { time: 0 };
    assert_eq!(s.on_tick(Tick { time: 5000 }), HeatControl::Init(Init { time: 0 }));
    assert_eq!(
        s.on_tick(Tick { time: 5001 }),
        HeatControl::BufferDisabled(BufferDisabled {})
    );
}

#[test]
fn explicit_transitions() {
    assert_eq!(BufferDisabled {}.on_enable(Enable {}), BufferEnabled {});
    assert_eq!(BufferEnabled {}.on_disable(Disable {}), BufferDisabled {});
    assert_eq!(
        BufferEnabled {}.on_activate_pump(ActivatePump { time: 77 }),
        PumpActive { time: 77 }
    );
}

#[test]
fn pump_run_and_pause_take_a_minute_each() {
    let run = PumpActive { time: 1000 };
    assert_eq!(
        run.on_tick(Tick { time: 61_000 }),
        HeatControl::PumpActive(PumpActive { time: 1000 })
    );
    assert_eq!(
        run.on_tick(Tick { time: 61_001 }),
        HeatControl::PumpPause(PumpPause { time: 61_001 })
    );
    let pause = PumpPause { time: 61_001 };
    assert_eq!(
        pause.on_tick(Tick { time: 121_001 }),
        HeatControl::PumpPause(PumpPause { time: 61_001 })
    );
    assert_eq!(
        pause.on_tick(Tick { time: 121_002 }),
        HeatControl::BufferEnabled(BufferEnabled {})
    );
}

#[test]
fn end_to_end_literal_scenario() {
    // Start in Init at t=0; a tick at t=5001 moves to BufferDisabled.
    let s0 = HeatControl::init(0);
    assert_eq!(s0.to_string(), "Init");
    let s1 = control_step(s0, None, false, true, 5001);
    assert_eq!(s1, HeatControl::BufferDisabled(BufferDisabled {}));

    // A reading at exactly MIN + hysteresis with burner off and heating
    // pump on enables the buffer.
    let enable_temp = MIN_BUFFER_TEMPERATURE + BUFFER_HYSTERESIS;
    let s2 = control_step(s1, Some(enable_temp), false, true, 5002);
    assert_eq!(s2, HeatControl::BufferEnabled(BufferEnabled {}));
    let p = actuator_policy(&s2);
    assert!(p.burner_inhibit);
    assert!(p.magnet_valve_buffer);
    assert!(!p.pump_buffer);

    // The burner request starts the pump.
    let t = 6000;
    let s3 = control_step(s2, Some(enable_temp), true, true, t);
    assert_eq!(s3, HeatControl::PumpActive(PumpActive { time: t }));
    let p = actuator_policy(&s3);
    assert!(p.burner_inhibit && p.magnet_valve_buffer && p.pump_buffer);

    // After a minute the pump rests, after another it may run again.
    let s4 = control_step(s3, Some(enable_temp), true, true, t + 60_001);
    assert_eq!(s4, HeatControl::PumpPause(PumpPause { time: t + 60_001 }));
    let p = actuator_policy(&s4);
    assert!(p.burner_inhibit && p.magnet_valve_buffer && !p.pump_buffer);
    let s5 = control_step(s4, Some(enable_temp), true, true, t + 120_002);
    assert_eq!(s5, HeatControl::BufferEnabled(BufferEnabled {}));
}

#[test]
fn absent_reading_disables_despite_burner_request() {
    // Disable wins over pump activation when the reading is gone.
    let s = HeatControl::BufferEnabled(BufferEnabled {});
    let next = control_step(s, None, true, true, 9999);
    assert_eq!(next, HeatControl::BufferDisabled(BufferDisabled {}));
}

#[test]
fn low_reading_or_stopped_pump_disables() {
    let s = HeatControl::BufferEnabled(BufferEnabled {});
    let low = MIN_BUFFER_TEMPERATURE - 1;
    assert_eq!(
        control_step(s, Some(low), true, true, 1),
        HeatControl::BufferDisabled(BufferDisabled {})
    );
    assert_eq!(
        control_step(s, Some(MIN_BUFFER_TEMPERATURE), false, false, 1),
        HeatControl::BufferDisabled(BufferDisabled {})
    );
}

#[test]
fn buffer_stays_disabled_below_threshold_with_hysteresis() {
    let s = HeatControl::BufferDisabled(BufferDisabled {});
    let just_below = MIN_BUFFER_TEMPERATURE + BUFFER_HYSTERESIS - 1;
    assert_eq!(control_step(s, Some(just_below), false, true, 1), s);
    // A burner request or a stopped heating pump also blocks enabling.
    let high = MIN_BUFFER_TEMPERATURE + BUFFER_HYSTERESIS;
    assert_eq!(control_step(s, Some(high), true, true, 1), s);
    assert_eq!(control_step(s, Some(high), false, false, 1), s);
    assert_eq!(control_step(s, None, false, true, 1), s);
}

#[test]
fn elapsed_time_is_correct_across_counter_wrap() {
    // The counter wraps between state entry and now; the elapsed time is
    // still the short positive duration.
    let entry = u32::MAX - 100;
    let s = Init { time: entry };
    // 151 ms have passed: stay in Init.
    assert_eq!(s.on_tick(Tick { time: 50 }), HeatControl::Init(s));
    // 5101 ms have passed: move on.
    assert_eq!(
        s.on_tick(Tick { time: 5000 }),
        HeatControl::BufferDisabled(BufferDisabled {})
    );

    // Entered 30001 ms before the wrap: exactly 60000 ms have passed at
    // now=29999, one more at now=30000.
    let pump = PumpActive { time: u32::MAX - 30_000 };
    assert_eq!(
        pump.on_tick(Tick { time: 29_999 }),
        HeatControl::PumpActive(pump)
    );
    assert_eq!(
        pump.on_tick(Tick { time: 30_000 }),
        HeatControl::PumpPause(PumpPause { time: 30_000 })
    );
}

#[test]
fn refresh_fires_on_elapsed_period_or_state_change() {
    // Not yet due, same state.
    assert!(!refresh_due(9_999, 0, 10_000, 3, 3));
    // The period has fully elapsed.
    assert!(refresh_due(10_000, 0, 10_000, 3, 3));
    // A state change forces a refresh early.
    assert!(refresh_due(1, 0, 10_000, 4, 3));
    // Elapsed time is measured with wrapping subtraction: 100 ms before the
    // wrap plus 9 900 after it reach the period, one less does not.
    assert!(refresh_due(9_900, u32::MAX - 99, 10_000, 3, 3));
    assert!(!refresh_due(9_899, u32::MAX - 99, 10_000, 3, 3));
}

#[test]
fn policy_is_a_pure_function_of_the_state() {
    // Evaluating the policy twice in the same state with the same inputs
    // yields identical outputs.
    let states = [
        HeatControl::Error,
        HeatControl::init(42),
        HeatControl::BufferDisabled(BufferDisabled {}),
        HeatControl::BufferEnabled(BufferEnabled {}),
        HeatControl::PumpActive(PumpActive { time: 3 }),
        HeatControl::PumpPause(PumpPause { time: 4 }),
    ];
    for s in states.iter() {
        let first = actuator_policy(s);
        let second = actuator_policy(s);
        assert_eq!(first, second);
    }
}

#[test]
fn policy_table() {
    let off = |s: &HeatControl| {
        let p = actuator_policy(s);
        (p.burner_inhibit, p.magnet_valve_buffer, p.pump_buffer)
    };
    assert_eq!(off(&HeatControl::init(0)), (false, false, false));
    assert_eq!(off(&HeatControl::BufferDisabled(BufferDisabled {})), (false, false, false));
    assert_eq!(off(&HeatControl::BufferEnabled(BufferEnabled {})), (true, true, false));
    assert_eq!(off(&HeatControl::PumpActive(PumpActive { time: 0 })), (true, true, true));
    assert_eq!(off(&HeatControl::PumpPause(PumpPause { time: 0 })), (true, true, false));
    // The reserved state falls back to the safe command.
    assert_eq!(off(&HeatControl::Error), (true, true, false));
}

#[test]
fn state_labels_and_codes() {
    assert_eq!(HeatControl::Error.to_string(), "Error");
    assert_eq!(HeatControl::init(1).to_string(), "Init");
    assert_eq!(HeatControl::BufferDisabled(BufferDisabled {}).to_string(), "Buffer Disabled");
    assert_eq!(HeatControl::BufferEnabled(BufferEnabled {}).to_string(), "Buffer Enabled");
    assert_eq!(HeatControl::PumpActive(PumpActive { time: 0 }).to_string(), "Pump Active");
    assert_eq!(HeatControl::PumpPause(PumpPause { time: 0 }).to_string(), "Pump Pause");

    assert_eq!(HeatControl::Error.to_u8(), 0);
    assert_eq!(HeatControl::init(1).to_u8(), 1);
    assert_eq!(HeatControl::BufferDisabled(BufferDisabled {}).to_u8(), 2);
    assert_eq!(HeatControl::BufferEnabled(BufferEnabled {}).to_u8(), 3);
    assert_eq!(HeatControl::PumpActive(PumpActive { time: 0 }).to_u8(), 4);
    assert_eq!(HeatControl::PumpPause(PumpPause { time: 0 }).to_u8(), 5);
}
