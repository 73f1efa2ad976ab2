use mcpwm::comparator::{Comparator, ComparatorConfig, ComparatorFlags};
use mcpwm::driver::{
    ComparatorHandle, DriverCall, DriverReply, GeneratorFlags, GeneratorHandle, McpwmError,
    OperatorFlags, OperatorHandle, Pending, Step, TimerDirection, TimerEvent, TimerHandle,
};
use mcpwm::generator::{
    CountingDirection, GenA, GenB, Generator, GeneratorAction, GeneratorConfig, NoGen, NoGenCfg,
    OptionalGen,
};
use mcpwm::gpio::{AnyOutputPin, Level};
use mcpwm::group::{Group0, Group1};
use mcpwm::operator::{new, Operator, OperatorConfig, OPERATOR};

type Actions = CountingDirection;

type GenCfgA = GeneratorConfig<GenA, Actions, Actions, AnyOutputPin>;

type GenCfgB = GeneratorConfig<GenB, Actions, Actions, AnyOutputPin>;

type OutputA = Generator<GenA, Actions, Actions, AnyOutputPin>;

type OutputB = Generator<GenB, Actions, Actions, AnyOutputPin>;

const NOTHING: Actions = CountingDirection {
    counting_up: GeneratorAction::Nothing,
    counting_down: GeneratorAction::Nothing,
};

const NO_FLAGS: GeneratorFlags = GeneratorFlags { invert_pwm: false, io_loop_back: false };

const ON_TEZ: ComparatorFlags =
    ComparatorFlags { update_cmp_on_tez: true, update_cmp_on_tep: false, update_cmp_on_sync: false };

const ON_TEP: ComparatorFlags =
    ComparatorFlags { update_cmp_on_tez: false, update_cmp_on_tep: true, update_cmp_on_sync: false };

const CLEARED: OperatorFlags = OperatorFlags {
    update_gen_action_on_tez: false,
    update_gen_action_on_tep: false,
    update_gen_action_on_sync: false,
    update_dead_time_on_tez: false,
    update_dead_time_on_tep: false,
    update_dead_time_on_sync: false,
};

fn ok(handle: usize) -> DriverReply {
    DriverReply { status: 0, handle }
}

fn failed(status: i32) -> DriverReply {
    DriverReply { status, handle: 0 }
}

/// Answers the calls of an operation with `replies`, in order: the calls made,
/// and the result if the operation got to its end.
fn converse<P: Pending>(
    mut step: Step<P, P::Output>,
    replies: &[DriverReply],
) -> (Vec<DriverCall>, Option<P::Output>) {
    let mut calls = Vec::new();
    let mut answered = 0;
    loop {
        match step {
            Step::Done(result) => return (calls, Some(result)),
            Step::Call(pending, call) => {
                calls.push(call);
                if answered == replies.len() {
                    return (calls, None);
                }
                step = pending.resume(replies[answered]);
                answered += 1;
            }
        }
    }
}

fn config<A, B>(generator_a: A, generator_b: B) -> OperatorConfig<A, B>
where
    A: mcpwm::generator::OptionalGenCfg,
    B: mcpwm::generator::OptionalGenCfg,
{
    OperatorConfig {
        comparator_x: ComparatorConfig { flags: ON_TEZ },
        comparator_y: ComparatorConfig { flags: ON_TEP },
        generator_a,
        generator_b,
    }
}

/// The first four calls of the creation of an operator in group `group_id`
/// whose handle is 0x40, driven by timer 0x30.
fn opening(group_id: i32) -> Vec<DriverCall> {
    vec![
        DriverCall::NewOperator { group_id, flags: CLEARED },
        DriverCall::NewComparator { operator: OperatorHandle(0x40), flags: ON_TEZ },
        DriverCall::NewComparator { operator: OperatorHandle(0x40), flags: ON_TEP },
        DriverCall::OperatorConnectTimer { operator: OperatorHandle(0x40), timer: TimerHandle(0x30) },
    ]
}

/// The calls that create, on operator 0x40 with comparators 0x51 and 0x52, a
/// generator that drives `pin` high when the timer is empty and low on a
/// match of `x_stops` (comparator X if set, else comparator Y), and whose
/// handle is `generator`.
fn pulse_script(generator: usize, pin: i32, x_stops: bool) -> Vec<DriverCall> {
    let stop =
        Actions { counting_up: GeneratorAction::SetLow, counting_down: GeneratorAction::Nothing };
    let timer_event = |direction, event, action| DriverCall::GeneratorSetActionsOnTimerEvent {
        generator: GeneratorHandle(generator),
        direction,
        event,
        action,
    };
    vec![
        DriverCall::NewGenerator {
            operator: OperatorHandle(0x40),
            gen_gpio_num: pin,
            flags: NO_FLAGS,
        },
        timer_event(TimerDirection::Up, TimerEvent::Empty, GeneratorAction::SetHigh),
        timer_event(TimerDirection::Down, TimerEvent::Empty, GeneratorAction::Nothing),
        timer_event(TimerDirection::Up, TimerEvent::Full, GeneratorAction::Nothing),
        timer_event(TimerDirection::Down, TimerEvent::Full, GeneratorAction::Nothing),
        DriverCall::GeneratorSetActionsOnCompareEvent {
            generator: GeneratorHandle(generator),
            comparator: ComparatorHandle(0x51),
            actions: if x_stops { stop } else { NOTHING },
        },
        DriverCall::GeneratorSetActionsOnCompareEvent {
            generator: GeneratorHandle(generator),
            comparator: ComparatorHandle(0x52),
            actions: if x_stops { NOTHING } else { stop },
        },
    ]
}

/// Successes that carry the handles of the operator (0x40) and of its
/// comparators (0x51, 0x52), then `more` further successes without a handle.
fn opening_replies(more: usize) -> Vec<DriverReply> {
    let mut replies = vec![ok(0x40), ok(0x51), ok(0x52), ok(0)];
    for _ in 0..more {
        replies.push(ok(0));
    }
    replies
}

fn bare_operator() -> Operator<0, Group0, NoGen, NoGen> {
    let step = new(OPERATOR::<0, Group0>::new(), TimerHandle(0x30), config(NoGenCfg, NoGenCfg));
    converse(step, &opening_replies(0)).1.unwrap().unwrap()
}

fn full_operator() -> Operator<2, Group1, OutputA, OutputB> {
    let cfg = config(
        GenCfgA::active_high(AnyOutputPin::new(12)),
        GenCfgB::active_high(AnyOutputPin::new(13)),
    );
    let mut replies = opening_replies(14);
    replies[4] = ok(0x61);
    replies[11] = ok(0x62);
    let step = new(OPERATOR::<2, Group1>::new(), TimerHandle(0x30), cfg);
    converse(step, &replies).1.unwrap().unwrap()
}

#[test]
fn new_begins_with_the_operator_in_its_group() {
    let step = new(OPERATOR::<1, Group1>::new(), TimerHandle(0x30), config(NoGenCfg, NoGenCfg));
    match step {
        Step::Call(_, call) => {
            assert_eq!(call, DriverCall::NewOperator { group_id: 1, flags: CLEARED })
        }
        Step::Done(_) => panic!("no call was made"),
    }
}

#[test]
fn new_without_generators_makes_four_calls() {
    let step = new(OPERATOR::<0, Group0>::new(), TimerHandle(0x30), config(NoGenCfg, NoGenCfg));
    let (calls, outcome) = converse(step, &opening_replies(0));
    assert_eq!(calls, opening(0));
    let operator = outcome.unwrap().unwrap();
    assert_eq!(operator._handle, OperatorHandle(0x40));
    assert_eq!(operator.comparator_x, Comparator(ComparatorHandle(0x51)));
    assert_eq!(operator.comparator_y, Comparator(ComparatorHandle(0x52)));
    assert_eq!(operator.generator_a.handle(), None);
    assert_eq!(operator.generator_b.handle(), None);
}

#[test]
fn new_with_both_generators_makes_eighteen_calls_in_order() {
    let cfg = config(
        GenCfgA::active_high(AnyOutputPin::new(12)),
        GenCfgB::active_high(AnyOutputPin::new(13)),
    );
    let mut replies = opening_replies(14);
    replies[4] = ok(0x61);
    replies[11] = ok(0x62);
    let step = new(OPERATOR::<2, Group1>::new(), TimerHandle(0x30), cfg);
    let (calls, outcome) = converse(step, &replies);
    let mut script = opening(1);
    script.extend(pulse_script(0x61, 12, true));
    script.extend(pulse_script(0x62, 13, false));
    assert_eq!(calls.len(), 18);
    assert_eq!(calls, script);
    let operator = outcome.unwrap().unwrap();
    assert_eq!(operator._handle, OperatorHandle(0x40));
    assert_eq!(operator.comparator_x, Comparator(ComparatorHandle(0x51)));
    assert_eq!(operator.comparator_y, Comparator(ComparatorHandle(0x52)));
    assert_eq!(operator.generator_a._handle, GeneratorHandle(0x61));
    assert_eq!(operator.generator_a._pin, AnyOutputPin { pin: 12 });
    assert_eq!(operator.generator_b._handle, GeneratorHandle(0x62));
    assert_eq!(operator.generator_b._pin, AnyOutputPin { pin: 13 });
}

#[test]
fn new_with_a_generator_on_channel_b_only() {
    let cfg = config(NoGenCfg, GenCfgB::active_high(AnyOutputPin::new(13)));
    let mut replies = opening_replies(7);
    replies[4] = ok(0x62);
    let step = new(OPERATOR::<0, Group0>::new(), TimerHandle(0x30), cfg);
    let (calls, outcome) = converse(step, &replies);
    let mut script = opening(0);
    script.extend(pulse_script(0x62, 13, false));
    assert_eq!(calls, script);
    let operator = outcome.unwrap().unwrap();
    assert_eq!(operator.generator_a.handle(), None);
    assert_eq!(operator.generator_b.handle(), Some(GeneratorHandle(0x62)));
}

#[test]
fn new_with_a_generator_on_channel_a_only() {
    let cfg = config(GenCfgA::active_low(AnyOutputPin::new(12)), NoGenCfg);
    let mut replies = opening_replies(7);
    replies[4] = ok(0x61);
    let step = new(OPERATOR::<0, Group0>::new(), TimerHandle(0x30), cfg);
    let (calls, outcome) = converse(step, &replies);
    assert_eq!(calls.len(), 11);
    assert_eq!(calls[..4].to_vec(), opening(0));
    assert_eq!(
        calls[4],
        DriverCall::NewGenerator { operator: OperatorHandle(0x40), gen_gpio_num: 12, flags: NO_FLAGS }
    );
    assert_eq!(
        calls[5],
        DriverCall::GeneratorSetActionsOnTimerEvent {
            generator: GeneratorHandle(0x61),
            direction: TimerDirection::Up,
            event: TimerEvent::Empty,
            action: GeneratorAction::SetLow,
        }
    );
    assert_eq!(
        calls[9],
        DriverCall::GeneratorSetActionsOnCompareEvent {
            generator: GeneratorHandle(0x61),
            comparator: ComparatorHandle(0x51),
            actions: Actions {
                counting_up: GeneratorAction::SetHigh,
                counting_down: GeneratorAction::Nothing
            },
        }
    );
    let operator = outcome.unwrap().unwrap();
    assert_eq!(operator.generator_a.handle(), Some(GeneratorHandle(0x61)));
    assert_eq!(operator.generator_b.handle(), None);
}

#[test]
fn new_waits_for_each_reply() {
    let mut script = opening(1);
    script.extend(pulse_script(0x61, 12, true));
    script.extend(pulse_script(0x62, 13, false));
    let mut replies = opening_replies(14);
    replies[4] = ok(0x61);
    replies[11] = ok(0x62);
    for answered in 0..18 {
        let cfg = config(
            GenCfgA::active_high(AnyOutputPin::new(12)),
            GenCfgB::active_high(AnyOutputPin::new(13)),
        );
        let step = new(OPERATOR::<2, Group1>::new(), TimerHandle(0x30), cfg);
        let (calls, outcome) = converse(step, &replies[..answered]);
        assert_eq!(calls, script[..answered + 1].to_vec());
        assert!(outcome.is_none());
    }
}

#[test]
fn new_ends_with_the_first_failure() {
    let mut script = opening(1);
    script.extend(pulse_script(0x61, 12, true));
    script.extend(pulse_script(0x62, 13, false));
    for failing in 0..18 {
        let mut replies = opening_replies(14);
        replies[4] = ok(0x61);
        replies[11] = ok(0x62);
        replies[failing] = failed(-(failing as i32) - 1);
        let cfg = config(
            GenCfgA::active_high(AnyOutputPin::new(12)),
            GenCfgB::active_high(AnyOutputPin::new(13)),
        );
        let step = new(OPERATOR::<2, Group1>::new(), TimerHandle(0x30), cfg);
        let (calls, outcome) = converse(step, &replies);
        assert_eq!(calls, script[..failing + 1].to_vec());
        match outcome {
            Some(Err(e)) => assert_eq!(e, McpwmError::Driver(-(failing as i32) - 1)),
            _ => panic!("the failure of call {} was not reported", failing),
        }
    }
}

#[test]
fn new_does_not_connect_the_timer_when_a_comparator_fails() {
    let step = new(OPERATOR::<0, Group0>::new(), TimerHandle(0x30), config(NoGenCfg, NoGenCfg));
    let (calls, outcome) = converse(step, &[ok(0x40), ok(0x51), failed(0x103), ok(0)]);
    assert_eq!(calls, opening(0)[..3].to_vec());
    assert!(matches!(outcome, Some(Err(McpwmError::Driver(0x103)))));
}

#[test]
fn set_compare_value_x_addresses_comparator_x() {
    let mut operator = bare_operator();
    assert_eq!(
        operator.set_compare_value_x(1234),
        DriverCall::ComparatorSetCompareValue { comparator: ComparatorHandle(0x51), value: 1234 }
    );
    assert_eq!(operator.comparator_x, Comparator(ComparatorHandle(0x51)));
}

#[test]
fn set_compare_value_y_addresses_comparator_y() {
    let mut operator = bare_operator();
    assert_eq!(
        operator.set_compare_value_y(1),
        DriverCall::ComparatorSetCompareValue { comparator: ComparatorHandle(0x52), value: 1 }
    );
    assert_eq!(operator.comparator_y, Comparator(ComparatorHandle(0x52)));
}

#[test]
fn set_compare_value_widens_the_value() {
    let mut operator = bare_operator();
    assert_eq!(
        operator.set_compare_value_x(0),
        DriverCall::ComparatorSetCompareValue { comparator: ComparatorHandle(0x51), value: 0 }
    );
    assert_eq!(
        operator.set_compare_value_y(u16::MAX),
        DriverCall::ComparatorSetCompareValue { comparator: ComparatorHandle(0x52), value: 65535 }
    );
}

#[test]
fn set_force_level_without_a_generator_is_an_error() {
    let mut operator = bare_operator();
    assert_eq!(operator.set_force_level_a(Some(Level::High)), Err(McpwmError::MissingGenerator));
    assert_eq!(operator.set_force_level_a(None), Err(McpwmError::MissingGenerator));
    assert_eq!(operator.set_force_level_b(Some(Level::Low)), Err(McpwmError::MissingGenerator));
    assert_eq!(operator.set_force_level_b(None), Err(McpwmError::MissingGenerator));
}

#[test]
fn set_force_level_a_numbers_the_levels() {
    let mut operator = full_operator();
    let force = |level| {
        Ok(DriverCall::GeneratorSetForceLevel {
            generator: GeneratorHandle(0x61),
            level,
            hold_on: true,
        })
    };
    assert_eq!(operator.set_force_level_a(Some(Level::High)), force(1));
    assert_eq!(operator.set_force_level_a(Some(Level::Low)), force(0));
    assert_eq!(operator.set_force_level_a(None), force(-1));
}

#[test]
fn set_force_level_b_numbers_the_levels() {
    let mut operator = full_operator();
    let force = |level| {
        Ok(DriverCall::GeneratorSetForceLevel {
            generator: GeneratorHandle(0x62),
            level,
            hold_on: true,
        })
    };
    assert_eq!(operator.set_force_level_b(Some(Level::High)), force(1));
    assert_eq!(operator.set_force_level_b(Some(Level::Low)), force(0));
    assert_eq!(operator.set_force_level_b(None), force(-1));
}

#[test]
fn set_force_level_holds_for_the_channel_that_has_a_generator() {
    let cfg = config(NoGenCfg, GenCfgB::active_high(AnyOutputPin::new(13)));
    let mut replies = opening_replies(7);
    replies[4] = ok(0x62);
    let step = new(OPERATOR::<0, Group0>::new(), TimerHandle(0x30), cfg);
    let mut operator = converse(step, &replies).1.unwrap().unwrap();
    assert_eq!(operator.set_force_level_a(Some(Level::High)), Err(McpwmError::MissingGenerator));
    assert_eq!(
        operator.set_force_level_b(Some(Level::High)),
        Ok(DriverCall::GeneratorSetForceLevel {
            generator: GeneratorHandle(0x62),
            level: 1,
            hold_on: true
        })
    );
}
