//! Timers: the counters that pace an operator.

use core::marker::PhantomData;
use vstd::prelude::*;
use vstd::std_specs::convert::IntoSpec;

use crate::driver::{
    handle_at, lemma_successes, run, successes, walk, DriverCall, DriverReply, McpwmError, Pending,
    Step, TimerHandle, ESP_OK,
};
use crate::group::Group;
use crate::operator::NoOperator;
use crate::timer_connection::TimerConnection;
use crate::units::Hertz;

verus! {

/// How a timer is to be created.
#[derive(Clone, Copy, Debug, PartialEq, Eq, Structural)]
pub struct TimerConfig {
    pub frequency: Hertz,
    pub resolution: Hertz,
    pub counter_mode: CounterMode,
}

impl TimerConfig {
    /// The same configuration with the counter's resolution replaced.
    #[must_use]
    pub fn resolution<R: Into<Hertz>>(self, resolution: R) -> (cfg: Self)
        ensures
            R::obeys_into_spec() ==> cfg.resolution == resolution.into_spec(),
            cfg.frequency == self.frequency,
            cfg.counter_mode == self.counter_mode,
    {
        TimerConfig { resolution: resolution.into(), ..self }
    }

    /// The same configuration with the frequency at which the operator will
    /// run replaced.
    #[must_use]
    pub fn frequency<F: Into<Hertz>>(self, frequency: F) -> (cfg: Self)
        ensures
            F::obeys_into_spec() ==> cfg.frequency == frequency.into_spec(),
            cfg.resolution == self.resolution,
            cfg.counter_mode == self.counter_mode,
    {
        TimerConfig { frequency: frequency.into(), ..self }
    }

    /// The same configuration with the counter mode replaced.
    #[must_use]
    pub fn counter_mode(self, counter_mode: CounterMode) -> (cfg: Self)
        ensures
            cfg == (TimerConfig { counter_mode, ..self }),
    {
        TimerConfig { counter_mode, ..self }
    }
}

/// A hardware timer of group `G`, as a token: who holds it may create the timer.
pub trait HwTimer<G: Group> {
    /// The number of the timer within its group.
    spec fn timer_spec() -> u8;

    fn timer() -> (n: u8)
        ensures
            n == Self::timer_spec(),
    ;
}

/// The hardware timer `N` of group `G`.
pub struct TIMER<const N: u8, G: Group> {
    pub _group: PhantomData<G>,
}

impl<const N: u8, G: Group> TIMER<N, G> {
    /// The token of the timer. Nothing keeps a second token of the same timer
    /// from being made: the caller sees to it that none is made while one is
    /// in use.
    pub fn new() -> (token: Self)
        ensures
            token == (TIMER::<N, G> { _group: PhantomData }),
    {
        Self { _group: PhantomData }
    }
}

impl<const N: u8, G: Group> HwTimer<G> for TIMER<N, G> {
    open spec fn timer_spec() -> u8 {
        N
    }

    fn timer() -> (n: u8) {
        N
    }
}

/// A timer that exists in the native driver and is enabled, together with the
/// token of the hardware timer behind it.
pub struct Timer<G: Group, T: HwTimer<G>> {
    pub handle: TimerHandle,
    pub _timer: T,
    pub _group: PhantomData<G>,
}

/// The creation of a timer while it waits for the driver: for the timer's
/// handle as long as `handle` is `None`, and after that for the timer to be
/// enabled.
pub struct TimerInit<G: Group, T: HwTimer<G>> {
    pub timer: T,
    pub handle: Option<TimerHandle>,
    pub _group: PhantomData<G>,
}

impl<G: Group, T: HwTimer<G>> Pending for TimerInit<G, T> {
    type Output = Result<Timer<G, T>, McpwmError>;

    /// A failure ends the creation with the driver's status. Once created, the
    /// timer is enabled; once enabled, it is there.
    open spec fn resumed(self, reply: DriverReply) -> Step<Self, Self::Output> {
        if reply.status != ESP_OK {
            Step::Done(Err(McpwmError::Driver(reply.status)))
        } else {
            match self.handle {
                None => Step::Call(
                    TimerInit { handle: Some(TimerHandle(reply.handle)), ..self },
                    DriverCall::TimerEnable { timer: TimerHandle(reply.handle) },
                ),
                Some(handle) => Step::Done(
                    Ok(Timer { handle, _timer: self.timer, _group: PhantomData }),
                ),
            }
        }
    }

    fn resume(self, reply: DriverReply) -> (step: Step<Self, Self::Output>) {
        if reply.status != ESP_OK {
            return Step::Done(Err(McpwmError::Driver(reply.status)));
        }
        match self.handle {
            None => {
                let handle = TimerHandle(reply.handle);
                Step::Call(
                    TimerInit { handle: Some(handle), ..self },
                    DriverCall::TimerEnable { timer: handle },
                )
            },
            Some(handle) => Step::Done(
                Ok(Timer { handle, _timer: self.timer, _group: PhantomData }),
            ),
        }
    }
}

impl<G: Group, T: HwTimer<G>> Timer<G, T> {
    /// Where the creation of a timer stands before the driver has answered
    /// anything: at the creation itself, in group `G`.
    pub open spec fn new_spec(timer: T, config: TimerConfig) -> Step<
        TimerInit<G, T>,
        Result<Timer<G, T>, McpwmError>,
    > {
        Step::Call(
            TimerInit { timer, handle: None, _group: PhantomData },
            DriverCall::NewTimer { group_id: G::id(), config },
        )
    }

    /// The calls that create a timer, in the order in which they are made,
    /// where `handle` is the handle that the first call yields: the creation,
    /// then the enabling.
    pub open spec fn script(config: TimerConfig, handle: TimerHandle) -> Seq<DriverCall> {
        seq![
            DriverCall::NewTimer { group_id: G::id(), config },
            DriverCall::TimerEnable { timer: handle },
        ]
    }

    /// Begins the creation of a timer on the hardware timer `timer`.
    pub fn new(timer: T, config: TimerConfig) -> (step: Step<
        TimerInit<G, T>,
        Result<Timer<G, T>, McpwmError>,
    >)
        ensures
            step == Self::new_spec(timer, config),
    {
        proof {
            G::id_is_the_constant();
        }
        Step::Call(
            TimerInit { timer, handle: None, _group: PhantomData },
            DriverCall::NewTimer { group_id: G::ID, config },
        )
    }

    /// Whatever the driver answers, the creation of a timer makes the calls of
    /// its script in order, each once the one before it has succeeded. It ends
    /// with the status of the first call that fails, and yields the timer when
    /// both have succeeded.
    pub proof fn new_follows_script(timer: T, config: TimerConfig, replies: Seq<DriverReply>)
        ensures
            run(Self::new_spec(timer, config), replies) == walk(
                Self::script(config, TimerHandle(handle_at(replies, 0))),
                replies,
                Timer::<G, T> {
                    handle: TimerHandle(handle_at(replies, 0)),
                    _timer: timer,
                    _group: PhantomData,
                },
            ),
    {
        let script = Self::script(config, TimerHandle(handle_at(replies, 0)));
        let k = successes(replies) as int;
        lemma_successes(replies);
        reveal_with_fuel(run, 3);
        if k >= 2 {
            assert(replies.drop_first()[0] == replies[1]);
            assert(script =~= seq![script[0]] + (seq![script[1]] + Seq::<DriverCall>::empty()));
        } else if k == 1 {
            assert(replies.len() > 1 ==> replies.drop_first()[0] == replies[1]);
            assert(script.take(2) =~= seq![script[0]] + seq![script[1]]);
            assert(script.take(2) =~= seq![script[0]] + (seq![script[1]] + Seq::<
                DriverCall,
            >::empty()));
        } else {
            assert(script.take(1) =~= seq![script[0]]);
            assert(script.take(1) =~= seq![script[0]] + Seq::<DriverCall>::empty());
        }
    }

    /// The number of the hardware timer within its group.
    pub fn timer(&self) -> (n: u8)
        ensures
            n == T::timer_spec(),
    {
        T::timer()
    }

    /// Gives up the timer: the token of the hardware timer, which is free
    /// again once the call that deletes the timer has been made.
    pub fn release(self) -> (parts: (T, DriverCall))
        ensures
            parts.0 == self._timer,
            parts.1 == (DriverCall::DelTimer { timer: self.handle }),
    {
        let Self { _timer, handle, _group } = self;
        (_timer, DriverCall::DelTimer { timer: handle })
    }

    /// The timer with no operator connected to it yet.
    pub fn into_connection(self) -> (connection: TimerConnection<
        G,
        T,
        NoOperator,
        NoOperator,
        NoOperator,
    >)
        ensures
            connection == (TimerConnection::<G, T, NoOperator, NoOperator, NoOperator> {
                timer: self,
                operator0: NoOperator,
                operator1: NoOperator,
                operator2: NoOperator,
            }),
    {
        TimerConnection::new(self)
    }
}

/// Counter mode of an operator's timer.
#[derive(Clone, Copy, Debug, PartialEq, Eq, Structural)]
pub enum CounterMode {
    /// The timer is frozen or paused.
    Frozen,
    /// Edge aligned. The counter starts from its lowest value and increments
    /// every clock cycle until the period is reached.
    Up,
    /// Edge aligned. The counter starts from its highest value, the period,
    /// and decrements every clock cycle until zero is reached.
    Down,
    /// Symmetric. The counter starts from its lowest value, increments until
    /// the period is reached and then decrements back to zero. In this mode
    /// the frequency is half of that specified.
    UpDown,
}

} // verus!
