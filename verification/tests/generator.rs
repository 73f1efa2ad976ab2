use mcpwm::comparator::Comparator;
use mcpwm::driver::{
    ComparatorHandle, DriverCall, DriverReply, GeneratorFlags, GeneratorHandle, McpwmError,
    OperatorHandle, Pending, Step, TimerDirection, TimerEvent,
};
use mcpwm::generator::{
    CountingDirection, GenA, GenB, GenInit, Generator, GeneratorAction, GeneratorChannel,
    GeneratorConfig, NoCmpMatchConfig, NoGen, NoGenCfg, OnMatchCfg, OptionalGen, OptionalGenCfg,
};
use mcpwm::gpio::{AnyOutputPin, OutputPin};

type Actions = CountingDirection;

const NOTHING: Actions = CountingDirection {
    counting_up: GeneratorAction::Nothing,
    counting_down: GeneratorAction::Nothing,
};

const NO_FLAGS: GeneratorFlags = GeneratorFlags { invert_pwm: false, io_loop_back: false };

fn ok(handle: usize) -> DriverReply {
    DriverReply { status: 0, handle }
}

fn failed(status: i32) -> DriverReply {
    DriverReply { status, handle: 0 }
}

/// Answers the calls of an operation with `replies`, in order: the calls made,
/// and the result if the operation got to its end.
fn converse<P: Pending>(
    mut step: Step<P, P::Output>,
    replies: &[DriverReply],
) -> (Vec<DriverCall>, Option<P::Output>) {
    let mut calls = Vec::new();
    let mut answered = 0;
    loop {
        match step {
            Step::Done(result) => return (calls, Some(result)),
            Step::Call(pending, call) => {
                calls.push(call);
                if answered == replies.len() {
                    return (calls, None);
                }
                step = pending.resume(replies[answered]);
                answered += 1;
            }
        }
    }
}

fn on_timer(
    generator: usize,
    direction: TimerDirection,
    event: TimerEvent,
    action: GeneratorAction,
) -> DriverCall {
    DriverCall::GeneratorSetActionsOnTimerEvent {
        generator: GeneratorHandle(generator),
        direction,
        event,
        action,
    }
}

fn on_compare(generator: usize, comparator: usize, actions: Actions) -> DriverCall {
    DriverCall::GeneratorSetActionsOnCompareEvent {
        generator: GeneratorHandle(generator),
        comparator: ComparatorHandle(comparator),
        actions,
    }
}

/// A configuration in which every action is a different one, so that a call
/// that carries the wrong action shows.
fn telling_config() -> GeneratorConfig<GenA, Actions, Actions, AnyOutputPin> {
    let mut cfg: GeneratorConfig<GenA, Actions, Actions, AnyOutputPin> =
        GeneratorConfig::empty(AnyOutputPin::new(18));
    cfg.flags = GeneratorFlags { invert_pwm: true, io_loop_back: false };
    cfg.on_is_empty =
        Actions { counting_up: GeneratorAction::SetHigh, counting_down: GeneratorAction::Toggle };
    cfg.on_is_full =
        Actions { counting_up: GeneratorAction::SetLow, counting_down: GeneratorAction::Nothing };
    cfg.on_matches_cmp_x =
        Actions { counting_up: GeneratorAction::Toggle, counting_down: GeneratorAction::SetHigh };
    cfg.on_matches_cmp_y =
        Actions { counting_up: GeneratorAction::Nothing, counting_down: GeneratorAction::SetLow };
    cfg
}

fn telling_script(x: Option<usize>, y: Option<usize>) -> Vec<DriverCall> {
    let mut script = vec![
        DriverCall::NewGenerator {
            operator: OperatorHandle(0x40),
            gen_gpio_num: 18,
            flags: GeneratorFlags { invert_pwm: true, io_loop_back: false },
        },
        on_timer(0x77, TimerDirection::Up, TimerEvent::Empty, GeneratorAction::SetHigh),
        on_timer(0x77, TimerDirection::Down, TimerEvent::Empty, GeneratorAction::Toggle),
        on_timer(0x77, TimerDirection::Up, TimerEvent::Full, GeneratorAction::SetLow),
        on_timer(0x77, TimerDirection::Down, TimerEvent::Full, GeneratorAction::Nothing),
    ];
    if let Some(x) = x {
        script.push(on_compare(
            0x77,
            x,
            Actions {
                counting_up: GeneratorAction::Toggle,
                counting_down: GeneratorAction::SetHigh,
            },
        ));
    }
    if let Some(y) = y {
        script.push(on_compare(
            0x77,
            y,
            Actions {
                counting_up: GeneratorAction::Nothing,
                counting_down: GeneratorAction::SetLow,
            },
        ));
    }
    script
}

/// `n` successes, the first of which carries the handle 0x77.
fn all_ok(n: usize) -> Vec<DriverReply> {
    let mut replies = Vec::new();
    while replies.len() < n {
        replies.push(ok(if replies.is_empty() { 0x77 } else { 0 }));
    }
    replies
}

#[test]
fn counting_direction_empty_does_nothing() {
    let actions = CountingDirection::empty();
    assert_eq!(actions.counting_up, GeneratorAction::Nothing);
    assert_eq!(actions.counting_down, GeneratorAction::Nothing);
    assert_eq!(actions, NOTHING);
}

#[test]
fn on_match_cfg_empty_of_counting_direction() {
    let actions = <CountingDirection as OnMatchCfg>::empty();
    assert_eq!(actions, NOTHING);
}

#[test]
fn counting_direction_converts_to_itself() {
    let actions =
        Actions { counting_up: GeneratorAction::Toggle, counting_down: GeneratorAction::SetLow };
    assert_eq!(actions.to_counting_direction(), actions);
}

#[test]
fn no_cmp_match_config_converts_to_nothing() {
    assert_eq!(NoCmpMatchConfig.to_counting_direction(), NOTHING);
    assert_eq!(<NoCmpMatchConfig as OnMatchCfg>::empty().to_counting_direction(), NOTHING);
}

#[test]
fn channels_know_which_they_are() {
    assert!(<GenA as GeneratorChannel>::IS_A);
    assert!(!<GenB as GeneratorChannel>::IS_A);
}

#[test]
fn empty_config_does_nothing_on_any_event() {
    let cfg: GeneratorConfig<GenA, Actions, NoCmpMatchConfig, AnyOutputPin> =
        GeneratorConfig::empty(AnyOutputPin::new(5));
    assert_eq!(cfg.flags, NO_FLAGS);
    assert_eq!(cfg.on_matches_cmp_x, NOTHING);
    assert_eq!(cfg.on_is_empty, NOTHING);
    assert_eq!(cfg.on_is_full, NOTHING);
    assert_eq!(cfg.pin, AnyOutputPin { pin: 5 });
}

#[test]
fn active_high_on_channel_a() {
    let cfg = GeneratorConfig::<GenA, Actions, Actions, AnyOutputPin>::active_high(
        AnyOutputPin::new(4),
    );
    assert_eq!(cfg.flags, NO_FLAGS);
    assert_eq!(
        cfg.on_is_empty,
        Actions { counting_up: GeneratorAction::SetHigh, counting_down: GeneratorAction::Nothing }
    );
    assert_eq!(
        cfg.on_matches_cmp_x,
        Actions { counting_up: GeneratorAction::SetLow, counting_down: GeneratorAction::Nothing }
    );
    assert_eq!(cfg.on_matches_cmp_y, NOTHING);
    assert_eq!(cfg.on_is_full, NOTHING);
    assert_eq!(cfg.pin.pin(), 4);
}

#[test]
fn active_high_on_channel_b() {
    let cfg = GeneratorConfig::<GenB, Actions, Actions, AnyOutputPin>::active_high(
        AnyOutputPin::new(4),
    );
    assert_eq!(cfg.flags, NO_FLAGS);
    assert_eq!(
        cfg.on_is_empty,
        Actions { counting_up: GeneratorAction::SetHigh, counting_down: GeneratorAction::Nothing }
    );
    assert_eq!(cfg.on_matches_cmp_x, NOTHING);
    assert_eq!(
        cfg.on_matches_cmp_y,
        Actions { counting_up: GeneratorAction::SetLow, counting_down: GeneratorAction::Nothing }
    );
    assert_eq!(cfg.on_is_full, NOTHING);
}

#[test]
fn active_low_on_channel_a() {
    let cfg =
        GeneratorConfig::<GenA, Actions, Actions, AnyOutputPin>::active_low(AnyOutputPin::new(9));
    assert_eq!(cfg.flags, NO_FLAGS);
    assert_eq!(
        cfg.on_is_empty,
        Actions { counting_up: GeneratorAction::SetLow, counting_down: GeneratorAction::Nothing }
    );
    assert_eq!(
        cfg.on_matches_cmp_x,
        Actions { counting_up: GeneratorAction::SetHigh, counting_down: GeneratorAction::Nothing }
    );
    assert_eq!(cfg.on_matches_cmp_y, NOTHING);
    assert_eq!(cfg.on_is_full, NOTHING);
    assert_eq!(cfg.pin.pin(), 9);
}

#[test]
fn active_low_on_channel_b() {
    let cfg =
        GeneratorConfig::<GenB, Actions, Actions, AnyOutputPin>::active_low(AnyOutputPin::new(9));
    assert_eq!(
        cfg.on_is_empty,
        Actions { counting_up: GeneratorAction::SetLow, counting_down: GeneratorAction::Nothing }
    );
    assert_eq!(cfg.on_matches_cmp_x, NOTHING);
    assert_eq!(
        cfg.on_matches_cmp_y,
        Actions { counting_up: GeneratorAction::SetHigh, counting_down: GeneratorAction::Nothing }
    );
    assert_eq!(cfg.on_is_full, NOTHING);
}

#[test]
fn init_begins_with_the_creation_of_the_generator() {
    let x = Comparator(ComparatorHandle(0x51));
    let step = telling_config().init(OperatorHandle(0x40), Some(&x), None);
    match step {
        Step::Call(_, call) => assert_eq!(
            call,
            DriverCall::NewGenerator {
                operator: OperatorHandle(0x40),
                gen_gpio_num: 18,
                flags: GeneratorFlags { invert_pwm: true, io_loop_back: false },
            }
        ),
        Step::Done(_) => panic!("no call was made"),
    }
}

#[test]
fn init_with_both_comparators_makes_seven_calls_in_order() {
    let x = Comparator(ComparatorHandle(0x51));
    let y = Comparator(ComparatorHandle(0x52));
    let step = telling_config().init(OperatorHandle(0x40), Some(&x), Some(&y));
    let (calls, outcome) = converse(step, &all_ok(7));
    assert_eq!(calls, telling_script(Some(0x51), Some(0x52)));
    let generator = outcome.expect("the script is through").expect("no call failed");
    assert_eq!(generator._handle, GeneratorHandle(0x77));
    assert_eq!(generator._pin, AnyOutputPin { pin: 18 });
    assert_eq!(generator.handle(), Some(GeneratorHandle(0x77)));
}

#[test]
fn init_configures_all_four_timer_events_before_the_generator_is_there() {
    let step = telling_config().init(OperatorHandle(0x40), None, None);
    let (calls, outcome) = converse(step, &all_ok(4));
    assert_eq!(calls, telling_script(None, None));
    assert!(outcome.is_none());
    let step = telling_config().init(OperatorHandle(0x40), None, None);
    let (calls, outcome) = converse(step, &all_ok(5));
    assert_eq!(calls.len(), 5);
    assert_eq!(calls, telling_script(None, None));
    assert!(matches!(outcome, Some(Ok(_))));
}

#[test]
fn init_with_comparator_x_only() {
    let x = Comparator(ComparatorHandle(0x51));
    let step = telling_config().init(OperatorHandle(0x40), Some(&x), None);
    let (calls, outcome) = converse(step, &all_ok(6));
    assert_eq!(calls, telling_script(Some(0x51), None));
    assert!(matches!(outcome, Some(Ok(_))));
}

#[test]
fn init_with_comparator_y_only() {
    let y = Comparator(ComparatorHandle(0x52));
    let step = telling_config().init(OperatorHandle(0x40), None, Some(&y));
    let (calls, outcome) = converse(step, &all_ok(6));
    assert_eq!(calls, telling_script(None, Some(0x52)));
    assert!(matches!(outcome, Some(Ok(_))));
}

#[test]
fn init_waits_for_each_reply() {
    let x = Comparator(ComparatorHandle(0x51));
    let y = Comparator(ComparatorHandle(0x52));
    let script = telling_script(Some(0x51), Some(0x52));
    for answered in 0..7 {
        let step = telling_config().init(OperatorHandle(0x40), Some(&x), Some(&y));
        let (calls, outcome) = converse(step, &all_ok(answered));
        assert_eq!(calls, script[..answered + 1].to_vec());
        assert!(outcome.is_none());
    }
}

#[test]
fn init_ends_with_the_first_failure() {
    let x = Comparator(ComparatorHandle(0x51));
    let y = Comparator(ComparatorHandle(0x52));
    let script = telling_script(Some(0x51), Some(0x52));
    for failing in 0..7 {
        let mut replies = all_ok(7);
        replies[failing] = failed(0x100 + failing as i32);
        let step = telling_config().init(OperatorHandle(0x40), Some(&x), Some(&y));
        let (calls, outcome) = converse(step, &replies);
        assert_eq!(calls, script[..failing + 1].to_vec());
        match outcome {
            Some(Err(e)) => assert_eq!(e, McpwmError::Driver(0x100 + failing as i32)),
            _ => panic!("the failure of call {} was not reported", failing),
        }
    }
}

#[test]
fn init_takes_the_handle_from_the_first_reply_only() {
    let step = telling_config().init(OperatorHandle(0x40), None, None);
    let replies = [ok(0x77), ok(0x1), ok(0x2), ok(0x3), ok(0x4)];
    let (calls, outcome) = converse(step, &replies);
    assert_eq!(calls, telling_script(None, None));
    let generator = outcome.unwrap().unwrap();
    assert_eq!(generator._handle, GeneratorHandle(0x77));
}

#[test]
fn init_resolves_a_match_configuration_that_does_nothing() {
    let cfg: GeneratorConfig<GenB, NoCmpMatchConfig, Actions, AnyOutputPin> = GeneratorConfig {
        _channel: core::marker::PhantomData,
        flags: NO_FLAGS,
        on_matches_cmp_x: NoCmpMatchConfig,
        on_matches_cmp_y: Actions {
            counting_up: GeneratorAction::SetLow,
            counting_down: GeneratorAction::SetHigh,
        },
        on_is_empty: NOTHING,
        on_is_full: NOTHING,
        pin: AnyOutputPin::new(2),
    };
    let x = Comparator(ComparatorHandle(0x51));
    let y = Comparator(ComparatorHandle(0x52));
    let (calls, outcome) =
        converse(cfg.init(OperatorHandle(0x41), Some(&x), Some(&y)), &all_ok(7));
    assert_eq!(calls.len(), 7);
    assert_eq!(
        calls[0],
        DriverCall::NewGenerator { operator: OperatorHandle(0x41), gen_gpio_num: 2, flags: NO_FLAGS }
    );
    assert_eq!(calls[5], on_compare(0x77, 0x51, NOTHING));
    assert_eq!(
        calls[6],
        on_compare(
            0x77,
            0x52,
            Actions {
                counting_up: GeneratorAction::SetLow,
                counting_down: GeneratorAction::SetHigh
            }
        )
    );
    let generator: Generator<GenB, NoCmpMatchConfig, Actions, AnyOutputPin> =
        outcome.unwrap().unwrap();
    assert_eq!(generator._pin.pin(), 2);
}

#[test]
fn no_gen_cfg_needs_no_call() {
    let x = Comparator(ComparatorHandle(0x51));
    let step = NoGenCfg.init(OperatorHandle(0x40), Some(&x), None);
    let (calls, outcome) = converse(step, &[failed(7)]);
    assert!(calls.is_empty());
    assert!(matches!(outcome, Some(Ok(NoGen))));
}

#[test]
fn no_gen_has_no_handle() {
    assert_eq!(NoGen.handle(), None);
}

#[test]
fn gen_init_without_a_generator() {
    let mut x = Comparator(ComparatorHandle(0x51));
    let mut y = Comparator(ComparatorHandle(0x52));
    let generator = (&mut x, &mut y, NoGenCfg).init(OperatorHandle(0x40));
    assert_eq!(generator.handle(), None);
    assert_eq!(x, Comparator(ComparatorHandle(0x51)));
    assert_eq!(y, Comparator(ComparatorHandle(0x52)));
}
