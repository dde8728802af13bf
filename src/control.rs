//! The firmware's control flow as a state machine: each handler starts in a
//! phase, and each step decides the next phase and the one action that the
//! processor performs outside itself (a register write, a counter read).
use vstd::prelude::*;
use crate::registers::{configure_changes_only_its_direction_bit, pin_bit, pin_mask, Port};

verus! {

/// Group of the pin that drives the LED.
pub const LED_GROUP: usize = 1;

/// Pin, within its group, that drives the LED.
pub const LED_PIN: u32 = 8;

/// Configuration byte written to the LED pin: plain GPIO, every other bit off.
pub const LED_PIN_CONFIG: u8 = 0b0000_0010;

/// Counter reads in one delay.
pub const DELAY_ITERATIONS: u32 = 100000;

/// Steps in one blink period: LED on, a delay, LED off, a delay.
pub const BLINK_PERIOD: u32 = 200002;

/// Where a handler's control flow stands.
#[derive(Clone, Copy, PartialEq, Eq, Structural, Debug)]
pub enum Phase {
    /// Reset handler, before the one-time pin setup.
    EnableLed,
    /// Main loop, about to drive the LED on.
    TurnLedOn,
    /// Main loop, delaying with the LED on; `counter` is the next value read.
    DelayOn { counter: u32 },
    /// Main loop, about to drive the LED off.
    TurnLedOff,
    /// Main loop, delaying with the LED off; `counter` is the next value read.
    DelayOff { counter: u32 },
    /// A handler with nothing to do, about to return.
    NopBody,
    /// The halt loop of the fault and panic handlers.
    Halted,
    /// Control is back with the interrupted code.
    Returned,
}

/// The one thing a step does outside the processor.
#[derive(Clone, Copy, PartialEq, Eq, Structural, Debug)]
pub enum Action {
    /// Writes the LED pin's configuration byte, then sets its direction bit.
    ConfigureLed,
    /// Writes the LED pin's bit to the output-value-clear register (LED on).
    LedOn,
    /// Writes the LED pin's bit to the output-value-set register (LED off).
    LedOff,
    /// Reads the delay counter through a volatile access.
    ReadCounter { counter: u32 },
    /// One turn of the halt loop.
    Spin,
    /// Returns to the interrupted code.
    Return,
}

impl Phase {
    /// Whether a delay counter is in range.
    pub open spec fn wf(self) -> bool {
        match self {
            Phase::DelayOn { counter } => counter < DELAY_ITERATIONS,
            Phase::DelayOff { counter } => counter < DELAY_ITERATIONS,
            _ => true,
        }
    }

    /// Whether the phase is one of the main loop's.
    pub open spec fn in_main_loop(self) -> bool {
        &&& self.wf()
        &&& match self {
            Phase::TurnLedOn | Phase::DelayOn { .. } | Phase::TurnLedOff
            | Phase::DelayOff { .. } => true,
            _ => false,
        }
    }
}

/// The next phase of `p`, and the action taken on the way there.
pub open spec fn spec_step(p: Phase) -> (Phase, Action) {
    match p {
        Phase::EnableLed => (Phase::TurnLedOn, Action::ConfigureLed),
        Phase::TurnLedOn => (Phase::DelayOn { counter: 0 }, Action::LedOn),
        Phase::DelayOn { counter } => (
            if counter + 1 < DELAY_ITERATIONS {
                Phase::DelayOn { counter: (counter + 1) as u32 }
            } else {
                Phase::TurnLedOff
            },
            Action::ReadCounter { counter },
        ),
        Phase::TurnLedOff => (Phase::DelayOff { counter: 0 }, Action::LedOff),
        Phase::DelayOff { counter } => (
            if counter + 1 < DELAY_ITERATIONS {
                Phase::DelayOff { counter: (counter + 1) as u32 }
            } else {
                Phase::TurnLedOn
            },
            Action::ReadCounter { counter },
        ),
        Phase::NopBody => (Phase::Returned, Action::Return),
        Phase::Halted => (Phase::Halted, Action::Spin),
        Phase::Returned => (Phase::Returned, Action::Return),
    }
}

/// The phase reached from `p` after `n` steps.
pub open spec fn run(p: Phase, n: nat) -> Phase
    decreases n,
{
    if n == 0 {
        p
    } else {
        run(spec_step(p).0, (n - 1) as nat)
    }
}

/// The action taken at step `n` (counting from 0) when starting from `p`.
pub open spec fn action_at(p: Phase, n: nat) -> Action {
    spec_step(run(p, n)).1
}

/// Takes one step from `p`: the next phase and the action to perform.
pub fn step(p: Phase) -> (r: (Phase, Action))
    requires
        p.wf(),
        p != Phase::Returned,
    ensures
        r == spec_step(p),
        r.0.wf(),
{
    match p {
        Phase::EnableLed => (Phase::TurnLedOn, Action::ConfigureLed),
        Phase::TurnLedOn => (Phase::DelayOn { counter: 0 }, Action::LedOn),
        Phase::DelayOn { counter } => {
            let next = if counter + 1 < DELAY_ITERATIONS {
                Phase::DelayOn { counter: counter + 1 }
            } else {
                Phase::TurnLedOff
            };
            (next, Action::ReadCounter { counter })
        },
        Phase::TurnLedOff => (Phase::DelayOff { counter: 0 }, Action::LedOff),
        Phase::DelayOff { counter } => {
            let next = if counter + 1 < DELAY_ITERATIONS {
                Phase::DelayOff { counter: counter + 1 }
            } else {
                Phase::TurnLedOn
            };
            (next, Action::ReadCounter { counter })
        },
        Phase::NopBody => (Phase::Returned, Action::Return),
        Phase::Halted => (Phase::Halted, Action::Spin),
        Phase::Returned => (Phase::Returned, Action::Return),
    }
}

/// Entry of the reset handler: the one-time pin setup comes first.
pub fn reset_handler() -> (r: Phase)
    ensures
        r == Phase::EnableLed,
{
    Phase::EnableLed
}

/// Entry of the handler for NMI and the scheduler calls: it returns at once.
pub fn nop_handler() -> (r: Phase)
    ensures
        r == Phase::NopBody,
{
    Phase::NopBody
}

/// Entry of the hard-fault handler: it halts forever.
pub fn trap() -> (r: Phase)
    ensures
        r == Phase::Halted,
{
    Phase::Halted
}

/// Entry of the panic handler: it halts forever.
pub fn panic_handler() -> (r: Phase)
    ensures
        r == Phase::Halted,
{
    Phase::Halted
}

/// Sets the LED pin up as a plain output.
pub fn enable_led(port: &mut Port)
    ensures
        *final(port) == old(port).configured_as_output(LED_GROUP, LED_PIN, LED_PIN_CONFIG),
{
    port.configure_pin_as_output(LED_GROUP, LED_PIN, LED_PIN_CONFIG);
}

/// Drives the LED pin low, which lights the LED.
pub fn turn_led_on(port: &mut Port)
    ensures
        *final(port) == old(port).output_cleared(LED_GROUP, LED_PIN),
{
    port.clear_output(LED_GROUP, LED_PIN);
}

/// Drives the LED pin high, which darkens the LED.
pub fn turn_led_off(port: &mut Port)
    ensures
        *final(port) == old(port).output_set(LED_GROUP, LED_PIN),
{
    port.set_output(LED_GROUP, LED_PIN);
}

/// The port after `a` is performed on it; actions that write no register
/// leave it as it was.
pub open spec fn apply(port: Port, a: Action) -> Port {
    match a {
        Action::ConfigureLed => port.configured_as_output(LED_GROUP, LED_PIN, LED_PIN_CONFIG),
        Action::LedOn => port.output_cleared(LED_GROUP, LED_PIN),
        Action::LedOff => port.output_set(LED_GROUP, LED_PIN),
        _ => port,
    }
}

/// Performs `a` on the port model.
pub fn perform(port: &mut Port, a: Action)
    ensures
        *final(port) == apply(*old(port), a),
{
    match a {
        Action::ConfigureLed => enable_led(port),
        Action::LedOn => turn_led_on(port),
        Action::LedOff => turn_led_off(port),
        _ => {},
    }
}

proof fn lemma_main_loop_closed(p: Phase, n: nat)
    requires
        p.in_main_loop(),
    ensures
        run(p, n).in_main_loop(),
        action_at(p, n) is LedOn || action_at(p, n) is LedOff || action_at(p, n) is ReadCounter,
    decreases n,
{
    if n > 0 {
        lemma_main_loop_closed(spec_step(p).0, (n - 1) as nat);
    }
}

proof fn lemma_run_add(p: Phase, a: nat, b: nat)
    ensures
        run(p, a + b) == run(run(p, a), b),
    decreases a,
{
    if a > 0 {
        lemma_run_add(spec_step(p).0, (a - 1) as nat, b);
        assert((a + b - 1) as nat == ((a - 1) as nat) + b);
    }
}

proof fn lemma_delay_on(counter: u32)
    requires
        counter < DELAY_ITERATIONS,
    ensures
        run(Phase::DelayOn { counter }, (DELAY_ITERATIONS - counter) as nat) == Phase::TurnLedOff,
    decreases DELAY_ITERATIONS - counter,
{
    reveal_with_fuel(run, 2);
    if counter + 1 < DELAY_ITERATIONS {
        lemma_delay_on((counter + 1) as u32);
    }
}

proof fn lemma_delay_off(counter: u32)
    requires
        counter < DELAY_ITERATIONS,
    ensures
        run(Phase::DelayOff { counter }, (DELAY_ITERATIONS - counter) as nat) == Phase::TurnLedOn,
    decreases DELAY_ITERATIONS - counter,
{
    reveal_with_fuel(run, 2);
    if counter + 1 < DELAY_ITERATIONS {
        lemma_delay_off((counter + 1) as u32);
    }
}

proof fn lemma_one_period()
    ensures
        run(Phase::TurnLedOn, 1 + DELAY_ITERATIONS as nat) == Phase::TurnLedOff,
        run(Phase::TurnLedOn, BLINK_PERIOD as nat) == Phase::TurnLedOn,
{
    reveal_with_fuel(run, 2);
    let d = DELAY_ITERATIONS as nat;
    lemma_delay_on(0);
    lemma_delay_off(0);
    lemma_run_add(Phase::TurnLedOn, 1, d);
    assert(run(Phase::TurnLedOn, 1) == Phase::DelayOn { counter: 0 });
    assert(run(Phase::TurnLedOff, 1) == Phase::DelayOff { counter: 0 });
    lemma_run_add(Phase::TurnLedOn, 1 + d, 1);
    lemma_run_add(Phase::TurnLedOn, 2 + d, d);
}

/// The reset handler never returns: from its entry, no number of steps
/// reaches the returned phase or a return action.
pub proof fn reset_handler_never_returns(n: nat)
    ensures
        run(Phase::EnableLed, n) != Phase::Returned,
        action_at(Phase::EnableLed, n) != Action::Return,
{
    if n > 0 {
        lemma_main_loop_closed(Phase::TurnLedOn, (n - 1) as nat);
    }
}

/// The fault and panic handlers never return: from the halt loop, every
/// step spins and stays in it.
pub proof fn halt_loop_never_returns(n: nat)
    ensures
        run(Phase::Halted, n) == Phase::Halted,
        action_at(Phase::Halted, n) == Action::Spin,
    decreases n,
{
    if n > 0 {
        halt_loop_never_returns((n - 1) as nat);
    }
}

/// The no-op handler returns after its single step.
pub proof fn nop_handler_returns()
    ensures
        action_at(Phase::NopBody, 0) == Action::Return,
        run(Phase::NopBody, 1) == Phase::Returned,
{
    reveal_with_fuel(run, 2);
}

/// From power-on the reset handler first configures the LED pin, and never
/// again; from then on each blink period starts with the LED driven on (the
/// clear register), drives it off (the set register) after the delay, and
/// comes back to the same phase.
pub proof fn power_on_blink_sequence(k: nat)
    ensures
        BLINK_PERIOD == 2 * DELAY_ITERATIONS + 2,
        action_at(Phase::EnableLed, 0) == Action::ConfigureLed,
        forall|n: nat| n > 0 ==> #[trigger] action_at(Phase::EnableLed, n) != Action::ConfigureLed,
        run(Phase::EnableLed, (1 + k * BLINK_PERIOD) as nat) == Phase::TurnLedOn,
        action_at(Phase::EnableLed, (1 + k * BLINK_PERIOD) as nat) == Action::LedOn,
        action_at(Phase::EnableLed, (2 + k * BLINK_PERIOD + DELAY_ITERATIONS) as nat) == Action::LedOff,
    decreases k,
{
    assert forall|n: nat| n > 0 implies #[trigger] action_at(Phase::EnableLed, n)
        != Action::ConfigureLed by {
        lemma_main_loop_closed(Phase::TurnLedOn, (n - 1) as nat);
    }
    let start = 1 + k * BLINK_PERIOD;
    if k == 0 {
        reveal_with_fuel(run, 2);
        assert(run(Phase::EnableLed, 1) == Phase::TurnLedOn);
    } else {
        power_on_blink_sequence((k - 1) as nat);
        let prev = 1 + (k - 1) * BLINK_PERIOD;
        assert(start == prev + BLINK_PERIOD) by (nonlinear_arith)
            requires
                start == 1 + k * BLINK_PERIOD,
                prev == 1 + (k - 1) * BLINK_PERIOD,
                k > 0,
        ;
        lemma_run_add(Phase::EnableLed, prev as nat, BLINK_PERIOD as nat);
        lemma_one_period();
    }
    lemma_one_period();
    lemma_run_add(Phase::EnableLed, start as nat, 1 + DELAY_ITERATIONS as nat);
}

/// The port after the actions of `n` steps from phase `p`.
pub open spec fn port_after(p: Phase, port: Port, n: nat) -> Port
    decreases n,
{
    if n == 0 {
        port
    } else {
        port_after(spec_step(p).0, apply(port, spec_step(p).1), (n - 1) as nat)
    }
}

proof fn lemma_main_loop_keeps_direction(p: Phase, port: Port, n: nat)
    requires
        p.in_main_loop(),
    ensures
        port_after(p, port, n).groups[LED_GROUP as int].data_direction
            == port.groups[LED_GROUP as int].data_direction,
    decreases n,
{
    if n > 0 {
        lemma_main_loop_keeps_direction(spec_step(p).0, apply(port, spec_step(p).1), (n - 1) as nat);
    }
}

/// From power-on, the first step's action is the only one that changes the
/// LED group's direction register: it sets the LED pin's bit (turning it
/// from 0 to 1 when the pin was an input) and the register keeps that value
/// for every later step, while the output writes come.
pub proof fn led_direction_set_once(port: Port, n: nat)
    requires
        n >= 1,
    ensures
        ({
            let before = port.groups[LED_GROUP as int].data_direction;
            let after = port_after(Phase::EnableLed, port, n).groups[LED_GROUP as int].data_direction;
            &&& after == before | pin_mask(LED_PIN)
            &&& pin_bit(after, LED_PIN)
            &&& !pin_bit(before, LED_PIN) ==> after ^ before
                == pin_mask(LED_PIN)
        }),
{
    let configured = apply(port, Action::ConfigureLed);
    lemma_main_loop_keeps_direction(Phase::TurnLedOn, configured, (n - 1) as nat);
    configure_changes_only_its_direction_bit(port, LED_GROUP, LED_PIN, LED_PIN_CONFIG);
}

} // verus!
