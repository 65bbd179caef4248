use heat_control::io::{InputPin, Inputs, OutputPin, Outputs};
use std::cell::Cell;
use std::rc::Rc;

#[derive(Default)]
struct RecordingPin {
    level: Rc<Cell<bool>>,
}

impl RecordingPin {
    fn new() -> (Self, Rc<Cell<bool>>) {
        let level = Rc::new(Cell::new(false));
        (RecordingPin { level: level.clone() }, level)
    }
}

impl OutputPin for RecordingPin {
    fn set_high(&mut self) {
        self.level.set(true);
    }

    fn set_low(&mut self) {
        self.level.set(false);
    }
}

struct LevelPin {
    level: Rc<Cell<bool>>,
}

impl InputPin for LevelPin {
    fn is_high(&self) -> bool {
        self.level.get()
    }
}

#[test]
fn outputs_start_off_and_latch_values() {
    let (p1, _) = RecordingPin::new();
    let (p2, _) = RecordingPin::new();
    let (p3, _) = RecordingPin::new();
    let mut outputs = Outputs::new(p1, p2, p3);
    assert!(!outputs.get_burner_inhibit());
    assert!(!outputs.get_pump_buffer());
    assert!(!outputs.get_magnet_valve_buffer());

    outputs.set_burner_inhibit(true);
    outputs.set_magnet_valve_buffer(true);
    assert!(outputs.get_burner_inhibit());
    assert!(outputs.get_magnet_valve_buffer());
    assert!(!outputs.get_pump_buffer());

    outputs.set_burner_inhibit(false);
    assert!(!outputs.get_burner_inhibit());
}

#[test]
fn set_outputs_pushes_latched_values_to_the_pins() {
    let (burner, burner_level) = RecordingPin::new();
    let (pump, pump_level) = RecordingPin::new();
    let (valve, valve_level) = RecordingPin::new();
    let mut outputs = Outputs::new(burner, pump, valve);

    outputs.set_burner_inhibit(true);
    outputs.set_pump_buffer(true);
    outputs.set_magnet_valve_buffer(false);
    outputs.set_outputs();
    assert!(burner_level.get());
    assert!(pump_level.get());
    assert!(!valve_level.get());

    outputs.set_burner_inhibit(false);
    outputs.set_outputs();
    assert!(!burner_level.get());
}

#[test]
fn outputs_equality_compares_logical_state_only() {
    let (a1, _) = RecordingPin::new();
    let (a2, _) = RecordingPin::new();
    let (a3, _) = RecordingPin::new();
    let (b1, _) = RecordingPin::new();
    let (b2, _) = RecordingPin::new();
    let (b3, _) = RecordingPin::new();
    let mut a = Outputs::new(a1, a2, a3);
    let mut b = Outputs::new(b1, b2, b3);
    assert!(a == b);
    a.set_pump_buffer(true);
    assert!(a != b);
    b.set_pump_buffer(true);
    assert!(a == b);
}

#[test]
fn inputs_sample_their_pins() {
    let burner_level = Rc::new(Cell::new(false));
    let water_level = Rc::new(Cell::new(true));
    let heating_level = Rc::new(Cell::new(true));
    let mut inputs = Inputs::new(
        LevelPin { level: burner_level.clone() },
        LevelPin { level: water_level.clone() },
        LevelPin { level: heating_level.clone() },
    );
    // Latched levels start low until the first sample.
    assert!(!inputs.get_start_burner());
    assert!(!inputs.get_warm_water_pump());
    assert!(!inputs.get_heating_pump());

    inputs.get_inputs();
    assert!(!inputs.get_start_burner());
    assert!(inputs.get_warm_water_pump());
    assert!(inputs.get_heating_pump());

    burner_level.set(true);
    heating_level.set(false);
    inputs.get_inputs();
    assert!(inputs.get_start_burner());
    assert!(inputs.get_warm_water_pump());
    assert!(!inputs.get_heating_pump());
}

#[test]
fn inputs_equality_compares_latched_levels_only() {
    let level = Rc::new(Cell::new(true));
    let mk = || {
        Inputs::new(
            LevelPin { level: level.clone() },
            LevelPin { level: level.clone() },
            LevelPin { level: level.clone() },
        )
    };
    let mut a = mk();
    let b = mk();
    assert!(a == b);
    a.get_inputs();
    assert!(a != b);
}
