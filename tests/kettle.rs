use glorified_kettle::device::{
    empty, fill, heat, read_level, read_temperature, Command, Device, EMPTY, FULL,
    MAX_TEMPERATURE,
};
use glorified_kettle::kettle::{GlorifiedKettle, NextState, StateMachine};
use glorified_kettle::machine::Machine;
use glorified_kettle::states::{Heating, StateKind};

const KINDS: [StateKind; 4] = [
    StateKind::Filling,
    StateKind::Heating,
    StateKind::Emptying,
    StateKind::ErrorState,
];

fn heating_machine() -> Machine {
    let device = Device::new(FULL, 0);
    Machine::new().advance(&device)
}

fn emptying_machine() -> Machine {
    let device = Device::new(FULL, MAX_TEMPERATURE);
    heating_machine().advance(&device)
}

#[test]
fn constants_match_the_device_interface() {
    assert_eq!(EMPTY, 0);
    assert_eq!(FULL, 100);
    assert_eq!(MAX_TEMPERATURE, 90);
}

#[test]
fn filling_full_level_advances_to_fresh_heating() {
    let mut device = Device::new(100, 20);
    let kettle = GlorifiedKettle::new();
    assert!(kettle.end_condition_met(&device));
    kettle.run(&mut device);
    assert!(device.commands().is_empty());
    let heating: GlorifiedKettle<Heating> = kettle.next(&device);
    assert_eq!(heating.state().end_temperature, 90);
    assert_eq!(heating.state().actual_temperature, 0);
}

#[test]
fn machine_filling_full_level_advances_to_heating() {
    let device = Device::new(100, 20);
    let machine = Machine::new();
    assert_eq!(machine.state_kind(), StateKind::Filling);
    assert!(machine.end_condition_met(&device));
    let machine = machine.advance(&device);
    assert_eq!(machine.state_kind(), StateKind::Heating);
    match &machine {
        Machine::Heating(k) => {
            assert_eq!(k.state().end_temperature, 90);
            assert_eq!(k.state().actual_temperature, 0);
        }
        _ => panic!("expected the heating state"),
    }
}

#[test]
fn heating_target_temperature_advances_to_emptying() {
    let device = Device::new(100, 90);
    let heating = GlorifiedKettle::new().next(&device);
    assert!(heating.end_condition_met(&device));
    let _emptying = heating.next(&device);

    let machine = heating_machine();
    assert!(machine.end_condition_met(&device));
    let machine = machine.advance(&device);
    assert_eq!(machine.state_kind(), StateKind::Emptying);
}

#[test]
fn heating_below_target_keeps_heating() {
    let mut device = Device::new(100, 60);
    let heating = GlorifiedKettle::new().next(&device);
    assert!(!heating.end_condition_met(&device));
    heating.run(&mut device);
    assert_eq!(device.commands(), &vec![Command::Heat]);
}

#[test]
fn heating_overshoot_does_not_count_as_done() {
    let device = Device::new(100, 91);
    let machine = heating_machine();
    assert!(!machine.end_condition_met(&device));
}

#[test]
fn filling_half_level_fills_once_without_transition() {
    let mut device = Device::new(50, 0);
    let machine = Machine::new();
    assert!(!machine.end_condition_met(&device));
    machine.run(&mut device);
    assert_eq!(device.commands(), &vec![Command::Fill]);
    assert_eq!(machine.state_kind(), StateKind::Filling);

    let machine = machine.step(&mut device);
    assert_eq!(machine.state_kind(), StateKind::Filling);
    assert_eq!(device.commands(), &vec![Command::Fill, Command::Fill]);
}

#[test]
fn step_on_half_level_issues_one_fill() {
    let mut device = Device::new(50, 0);
    let machine = Machine::new().step(&mut device);
    assert_eq!(machine.state_kind(), StateKind::Filling);
    assert_eq!(device.take_commands(), vec![Command::Fill]);
    assert!(device.commands().is_empty());
}

#[test]
fn emptying_drains_until_empty() {
    let mut device = Device::new(30, 90);
    let machine = emptying_machine();
    assert_eq!(machine.state_kind(), StateKind::Emptying);
    let machine = machine.step(&mut device);
    assert_eq!(machine.state_kind(), StateKind::Emptying);
    assert_eq!(device.take_commands(), vec![Command::Empty]);

    device.set_level(0);
    let machine = machine.step(&mut device);
    assert_eq!(machine.state_kind(), StateKind::Filling);
    assert!(device.commands().is_empty());
}

#[test]
fn run_is_idempotent_once_done() {
    let mut device = Device::new(100, 0);
    let machine = Machine::new();
    machine.run(&mut device);
    machine.run(&mut device);
    assert!(device.commands().is_empty());
}

#[test]
fn heating_force_error_is_terminal() {
    let machine = heating_machine();
    let machine = machine.force_error();
    assert_eq!(machine.state_kind(), StateKind::ErrorState);
    assert!(machine.is_terminal());

    let mut device = Device::new(100, 90);
    let machine = machine.step(&mut device);
    assert!(machine.is_terminal());
    assert!(device.commands().is_empty());
}

#[test]
fn force_error_from_every_working_state() {
    let unmet = Device::new(50, 10);
    let met = Device::new(100, 90);
    for make in [Machine::new as fn() -> Machine, heating_machine, emptying_machine] {
        for device in [&unmet, &met] {
            let machine = make();
            assert!(!machine.is_terminal());
            let _ = machine.end_condition_met(device);
            assert!(machine.force_error().is_terminal());
        }
    }
    let _cut_off = GlorifiedKettle::new().error();
}

#[test]
fn full_cycle_visits_states_in_order() {
    let mut device = Device::new(100, 90);
    let mut machine = Machine::new();
    let expected = [
        StateKind::Heating,
        StateKind::Emptying,
        StateKind::Filling,
        StateKind::Heating,
        StateKind::Emptying,
        StateKind::Filling,
    ];
    for kind in expected {
        let level = if machine.state_kind() == StateKind::Emptying { 0 } else { 100 };
        device.set_level(level);
        assert!(machine.end_condition_met(&device));
        machine = machine.step(&mut device);
        assert_eq!(machine.state_kind(), kind);
    }
    assert!(device.commands().is_empty());
}

#[test]
fn typestate_cycle_returns_to_filling() {
    let full = Device::new(100, 90);
    let empty_tank = Device::new(0, 90);
    let heating = GlorifiedKettle::new().next(&full);
    let emptying = heating.next(&full);
    let filling = emptying.next(&empty_tank);
    assert!(filling.end_condition_met(&full));
}

#[test]
fn legality_table_holds_exactly_the_listed_edges() {
    let legal = [
        (StateKind::Filling, StateKind::Heating),
        (StateKind::Heating, StateKind::Emptying),
        (StateKind::Emptying, StateKind::Filling),
        (StateKind::Filling, StateKind::ErrorState),
        (StateKind::Heating, StateKind::ErrorState),
        (StateKind::Emptying, StateKind::ErrorState),
    ];
    let mut count = 0;
    for from in KINDS {
        for to in KINDS {
            let expected = legal.contains(&(from, to));
            assert_eq!(from.can_transition_to(to), expected, "{:?} -> {:?}", from, to);
            if expected {
                count += 1;
            }
        }
    }
    assert_eq!(count, 6);
}

#[test]
fn error_state_has_no_outgoing_edge() {
    for to in KINDS {
        assert!(!StateKind::ErrorState.can_transition_to(to));
    }
}

#[test]
fn device_operations_record_commands_in_order() {
    let mut device = Device::new(42, 17);
    assert_eq!(read_level(&device), 42);
    assert_eq!(read_temperature(&device), 17);
    fill(&mut device);
    heat(&mut device);
    empty(&mut device);
    assert_eq!(device.commands(), &vec![Command::Fill, Command::Heat, Command::Empty]);
    device.set_temperature(255);
    device.set_level(100);
    assert_eq!(read_temperature(&device), 255);
    assert_eq!(read_level(&device), 100);
    assert_eq!(device.take_commands().len(), 3);
    assert!(device.take_commands().is_empty());
}
