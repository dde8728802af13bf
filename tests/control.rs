use blinky::control::{
    enable_led, nop_handler, panic_handler, perform, reset_handler, step, trap, turn_led_off,
    turn_led_on, Action, Phase, BLINK_PERIOD, DELAY_ITERATIONS, LED_GROUP, LED_PIN,
};
use blinky::registers::Port;

fn led_bit(word: u32) -> bool {
    (word >> LED_PIN) & 1 == 1
}

#[test]
fn led_routines_write_the_led_pin() {
    let mut port = Port::reset();
    enable_led(&mut port);
    assert_eq!(port.groups[1].pin_configuration[8], 0b10);
    assert_eq!(port.groups[1].data_direction, 0x100);
    port.groups[1].data_output_value = 0x101;
    turn_led_on(&mut port);
    assert_eq!(port.groups[1].data_output_value, 0x001);
    assert_eq!(port.groups[1].data_output_value_clear, 0x100);
    turn_led_off(&mut port);
    assert_eq!(port.groups[1].data_output_value, 0x101);
    assert_eq!(port.groups[1].data_output_value_set, 0x100);
    assert_eq!(port.groups[0].data_direction, 0);
}

#[test]
fn delay_reads_each_counter_value_once() {
    let (mut p, a) = step(Phase::TurnLedOn);
    assert_eq!(a, Action::LedOn);
    for i in 0..DELAY_ITERATIONS {
        let (next, a) = step(p);
        assert_eq!(a, Action::ReadCounter { counter: i });
        p = next;
    }
    assert_eq!(p, Phase::TurnLedOff);
}

#[test]
fn power_on_to_blinking() {
    let mut port = Port::reset();
    let mut p = reset_handler();
    let mut direction_changes = 0u32;
    let mut first_output_write: Option<u64> = None;
    let mut direction_set_at: Option<u64> = None;
    let mut writes: Vec<(u64, Action)> = Vec::new();
    let steps: u64 = 1 + 2 * BLINK_PERIOD as u64 + 1;
    for n in 0..steps {
        let before = port.groups[LED_GROUP].data_direction;
        let (next, a) = step(p);
        perform(&mut port, a);
        let after = port.groups[LED_GROUP].data_direction;
        if led_bit(before) != led_bit(after) {
            assert!(!led_bit(before) && led_bit(after));
            direction_changes += 1;
            direction_set_at = Some(n);
        }
        if matches!(a, Action::LedOn | Action::LedOff) {
            first_output_write.get_or_insert(n);
            writes.push((n, a));
        }
        p = next;
    }
    assert_eq!(direction_changes, 1);
    assert_eq!(direction_set_at, Some(0));
    assert_eq!(first_output_write, Some(1));
    let d = DELAY_ITERATIONS as u64;
    let period = BLINK_PERIOD as u64;
    assert_eq!(period, 2 * d + 2);
    assert_eq!(
        writes,
        vec![
            (1, Action::LedOn),
            (2 + d, Action::LedOff),
            (1 + period, Action::LedOn),
            (2 + d + period, Action::LedOff),
            (1 + 2 * period, Action::LedOn),
        ]
    );
    assert!(!led_bit(port.groups[LED_GROUP].data_output_value));
}

#[test]
fn fault_and_panic_handlers_never_return() {
    for entry in [trap(), panic_handler()] {
        let mut p = entry;
        for _ in 0..10_000 {
            let (next, a) = step(p);
            assert_eq!(a, Action::Spin);
            assert_ne!(next, Phase::Returned);
            p = next;
        }
    }
}

#[test]
fn reset_handler_never_returns_over_many_steps() {
    let mut p = reset_handler();
    for _ in 0..(3 * BLINK_PERIOD) {
        let (next, a) = step(p);
        assert_ne!(a, Action::Return);
        assert_ne!(next, Phase::Returned);
        p = next;
    }
}

#[test]
fn nop_handler_returns_at_once() {
    let (next, a) = step(nop_handler());
    assert_eq!(a, Action::Return);
    assert_eq!(next, Phase::Returned);
}

#[test]
fn actions_without_registers_leave_port() {
    let mut port = Port::reset();
    port.groups[1].data_output_value = 0x55;
    perform(&mut port, Action::Spin);
    perform(&mut port, Action::ReadCounter { counter: 3 });
    perform(&mut port, Action::Return);
    assert_eq!(port.groups[1].data_output_value, 0x55);
    assert_eq!(port.groups[1].data_direction, 0);
}
