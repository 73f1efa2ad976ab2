//! Generators: each produces one output signal from timer events and
//! comparator matches.
//!
//! A [`GeneratorConfig`] says what the output does on each event. Its
//! [`init`](OptionalGenCfg::init) creates the generator on an operator and
//! hands the configuration to the driver, call by call, in the order given by
//! its [`script`](OptionalGenCfg::script).

use core::marker::PhantomData;
use vstd::prelude::*;

use crate::comparator::{handle_of, Comparator, OptionalCmp};
use crate::driver::{
    call_at, handle_at, lemma_walk_empty, lemma_walk_failure, lemma_walk_success,
    lemma_walk_unanswered, run, walk, ComparatorHandle, DriverCall, DriverReply, GeneratorFlags,
    GeneratorHandle, McpwmError, OperatorHandle, Pending, Step, TimerDirection, TimerEvent, ESP_OK,
};
use crate::gpio::OutputPin;

verus! {

/// The absence of a generator on a channel of an operator.
pub struct NoGen;

/// Either a generator or the absence of one.
pub trait OptionalGen {
    /// The handle of the generator, if there is one.
    spec fn handle_spec(&self) -> Option<GeneratorHandle>;

    fn handle(&self) -> (h: Option<GeneratorHandle>)
        ensures
            h == self.handle_spec(),
    ;
}

impl OptionalGen for NoGen {
    open spec fn handle_spec(&self) -> Option<GeneratorHandle> {
        None
    }

    fn handle(&self) -> (h: Option<GeneratorHandle>) {
        None
    }
}

impl<G, CMPX, CMPY, P> OptionalGen for Generator<G, CMPX, CMPY, P> where
    G: GeneratorChannel,
    CMPX: OnMatchCfg,
    CMPY: OnMatchCfg,
    P: OutputPin,
 {
    open spec fn handle_spec(&self) -> Option<GeneratorHandle> {
        Some(self._handle)
    }

    fn handle(&self) -> (h: Option<GeneratorHandle>) {
        Some(self._handle)
    }
}

/// One of the two output channels of an operator.
pub trait GeneratorChannel {
    const IS_A: bool;

    /// Whether this is channel A, for use in contracts.
    spec fn is_a() -> bool;

    /// The contracts speak of the channel that this is.
    proof fn is_a_is_the_constant()
        ensures
            Self::is_a() == Self::IS_A,
    ;
}

/// Channel A of an operator.
pub struct GenA;

impl GeneratorChannel for GenA {
    const IS_A: bool = true;

    open spec fn is_a() -> bool {
        true
    }

    proof fn is_a_is_the_constant() {
    }
}

/// Channel B of an operator.
pub struct GenB;

impl GeneratorChannel for GenB {
    const IS_A: bool = false;

    open spec fn is_a() -> bool {
        false
    }

    proof fn is_a_is_the_constant() {
    }
}

/// A generator that exists in the native driver, together with the pin that
/// it drives.
pub struct Generator<G, CMPX, CMPY, P: OutputPin> {
    pub channel: PhantomData<G>,
    pub cmp_x: PhantomData<CMPX>,
    pub cmp_y: PhantomData<CMPY>,
    pub _handle: GeneratorHandle,
    pub _pin: P,
}

/// How a generator on channel `G` is to be created: the pin it drives and what
/// it does to the pin on each event.
pub struct GeneratorConfig<G: GeneratorChannel, CMPX, CMPY, P> {
    pub _channel: PhantomData<G>,
    pub flags: GeneratorFlags,
    pub on_matches_cmp_x: CMPX,
    pub on_matches_cmp_y: CMPY,
    pub on_is_empty: CountingDirection,
    pub on_is_full: CountingDirection,
    pub pin: P,
}

/// The configuration of a channel that is to have no generator.
pub struct NoGenCfg;

/// Either the configuration of a generator or that of an unused channel.
pub trait OptionalGenCfg: Sized {
    /// What the configuration gives rise to.
    type Gen: OptionalGen;

    /// The creation while it waits for the driver.
    type Init: Pending<Output = Result<Self::Gen, McpwmError>>;

    /// The calls of the creation, in the order in which they are made, on the
    /// operator `operator` with the comparators `cmp_x` and `cmp_y`, where
    /// `generator` is the handle that the first call yields.
    spec fn script(
        self,
        operator: OperatorHandle,
        cmp_x: Option<ComparatorHandle>,
        cmp_y: Option<ComparatorHandle>,
        generator: GeneratorHandle,
    ) -> Seq<DriverCall>;

    /// What the creation yields once the driver has created it under the
    /// handle `generator`.
    spec fn created(self, generator: GeneratorHandle) -> Self::Gen;

    /// Where the creation stands before the driver has answered anything.
    spec fn init_spec(
        self,
        operator_handle: OperatorHandle,
        cmp_x: Option<&Comparator>,
        cmp_y: Option<&Comparator>,
    ) -> Step<Self::Init, Result<Self::Gen, McpwmError>>;

    /// Begins the creation of what `self` describes on the operator
    /// `operator_handle`, whose comparators, as far as it has them, are
    /// `cmp_x` and `cmp_y`.
    fn init(
        self,
        operator_handle: OperatorHandle,
        cmp_x: Option<&Comparator>,
        cmp_y: Option<&Comparator>,
    ) -> (step: Step<Self::Init, Result<Self::Gen, McpwmError>>)
        ensures
            step == self.init_spec(operator_handle, cmp_x, cmp_y),
    ;

    /// Whatever the driver answers, the creation makes the calls of the script
    /// in order, each once the one before it has succeeded. It ends with the
    /// status of the first call that fails, and yields what was to be created
    /// when all have succeeded.
    proof fn init_follows_script(
        self,
        operator_handle: OperatorHandle,
        cmp_x: Option<&Comparator>,
        cmp_y: Option<&Comparator>,
        replies: Seq<DriverReply>,
    )
        ensures
            run(self.init_spec(operator_handle, cmp_x, cmp_y), replies) == walk(
                self.script(
                    operator_handle,
                    handle_of(cmp_x),
                    handle_of(cmp_y),
                    GeneratorHandle(handle_at(replies, 0)),
                ),
                replies,
                self.created(GeneratorHandle(handle_at(replies, 0))),
            ),
    ;
}

/// On a channel without a generator no call is ever pending: whatever is
/// handed in, the creation is over.
impl Pending for NoGen {
    type Output = Result<NoGen, McpwmError>;

    open spec fn resumed(self, reply: DriverReply) -> Step<Self, Self::Output> {
        Step::Done(Ok(NoGen))
    }

    fn resume(self, reply: DriverReply) -> (step: Step<Self, Self::Output>) {
        Step::Done(Ok(NoGen))
    }
}

impl OptionalGenCfg for NoGenCfg {
    type Gen = NoGen;

    type Init = NoGen;

    /// An unused channel needs no call.
    open spec fn script(
        self,
        operator: OperatorHandle,
        cmp_x: Option<ComparatorHandle>,
        cmp_y: Option<ComparatorHandle>,
        generator: GeneratorHandle,
    ) -> Seq<DriverCall> {
        Seq::empty()
    }

    open spec fn created(self, generator: GeneratorHandle) -> NoGen {
        NoGen
    }

    open spec fn init_spec(
        self,
        operator_handle: OperatorHandle,
        cmp_x: Option<&Comparator>,
        cmp_y: Option<&Comparator>,
    ) -> Step<NoGen, Result<NoGen, McpwmError>> {
        Step::Done(Ok(NoGen))
    }

    fn init(
        self,
        _operator_handle: OperatorHandle,
        _cmp_x: Option<&Comparator>,
        _cmp_y: Option<&Comparator>,
    ) -> (step: Step<NoGen, Result<NoGen, McpwmError>>) {
        Step::Done(Ok(NoGen))
    }

    proof fn init_follows_script(
        self,
        operator_handle: OperatorHandle,
        cmp_x: Option<&Comparator>,
        cmp_y: Option<&Comparator>,
        replies: Seq<DriverReply>,
    ) {
        lemma_walk_empty(Seq::<DriverCall>::empty(), replies, NoGen);
    }
}

/// The call that tells `generator` to perform `action` when the timer,
/// counting in `direction`, raises `event`.
pub open spec fn on_timer_event(
    generator: GeneratorHandle,
    direction: TimerDirection,
    event: TimerEvent,
    action: GeneratorAction,
) -> DriverCall {
    DriverCall::GeneratorSetActionsOnTimerEvent { generator, direction, event, action }
}

/// The calls that tell `generator` to perform `actions` when the timer count
/// matches `comparator`: one call if there is a comparator, none if not.
pub open spec fn on_compare_event(
    generator: GeneratorHandle,
    comparator: Option<ComparatorHandle>,
    actions: CountingDirection,
) -> Seq<DriverCall> {
    match comparator {
        Some(comparator) => seq![
            DriverCall::GeneratorSetActionsOnCompareEvent { generator, comparator, actions },
        ],
        None => Seq::empty(),
    }
}

impl<G: GeneratorChannel, CMPX: OnMatchCfg, CMPY: OnMatchCfg, P: OutputPin> GeneratorConfig<
    G,
    CMPX,
    CMPY,
    P,
> {
    /// What the generator does when the timer, counting in `direction`, raises
    /// `event`.
    pub open spec fn on_timer(self, direction: TimerDirection, event: TimerEvent) -> GeneratorAction {
        match (event, direction) {
            (TimerEvent::Empty, TimerDirection::Up) => self.on_is_empty.counting_up,
            (TimerEvent::Empty, TimerDirection::Down) => self.on_is_empty.counting_down,
            (TimerEvent::Full, TimerDirection::Up) => self.on_is_full.counting_up,
            (TimerEvent::Full, TimerDirection::Down) => self.on_is_full.counting_down,
        }
    }

    /// The script begins with the creation of the generator, and among the four
    /// calls that follow it there is, for every timer event and every counting
    /// direction, the call that hands the driver the action of the
    /// configuration. At most two calls come after these.
    pub proof fn script_covers_every_timer_event(
        self,
        operator: OperatorHandle,
        cmp_x: Option<ComparatorHandle>,
        cmp_y: Option<ComparatorHandle>,
        generator: GeneratorHandle,
        direction: TimerDirection,
        event: TimerEvent,
    )
        ensures
            ({
                let script = self.script(operator, cmp_x, cmp_y, generator);
                &&& 5 <= script.len() <= 7
                &&& script[0] == (DriverCall::NewGenerator {
                    operator,
                    gen_gpio_num: self.pin.pin_spec(),
                    flags: self.flags,
                })
                &&& exists|i: int|
                    1 <= i <= 4 && #[trigger] script[i] == on_timer_event(
                        generator,
                        direction,
                        event,
                        self.on_timer(direction, event),
                    )
            }),
    {
        let script = self.script(operator, cmp_x, cmp_y, generator);
        let i: int = match (event, direction) {
            (TimerEvent::Empty, TimerDirection::Up) => 1,
            (TimerEvent::Empty, TimerDirection::Down) => 2,
            (TimerEvent::Full, TimerDirection::Up) => 3,
            (TimerEvent::Full, TimerDirection::Down) => 4,
        };
        assert(script[i] == on_timer_event(
            generator,
            direction,
            event,
            self.on_timer(direction, event),
        ));
    }

    /// The same configuration with the actions on comparator matches written
    /// out for both counting directions.
    pub open spec fn resolved(self) -> GeneratorConfig<G, CountingDirection, CountingDirection, P> {
        GeneratorConfig {
            _channel: PhantomData,
            flags: self.flags,
            on_matches_cmp_x: self.on_matches_cmp_x.counting_direction(),
            on_matches_cmp_y: self.on_matches_cmp_y.counting_direction(),
            on_is_empty: self.on_is_empty,
            on_is_full: self.on_is_full,
            pin: self.pin,
        }
    }
}

/// The creation of a generator while it waits for the driver: `issued` calls of
/// the script have been made, and the reply to the last of them is awaited.
pub struct GeneratorInit<G: GeneratorChannel, CMPX, CMPY, P> {
    pub config: GeneratorConfig<G, CountingDirection, CountingDirection, P>,
    pub operator: OperatorHandle,
    pub cmp_x: Option<ComparatorHandle>,
    pub cmp_y: Option<ComparatorHandle>,
    /// The handle of the generator, from the second call on.
    pub generator: GeneratorHandle,
    pub issued: u8,
    pub cmp_x_cfg: PhantomData<CMPX>,
    pub cmp_y_cfg: PhantomData<CMPY>,
}

impl<G: GeneratorChannel, CMPX: OnMatchCfg, CMPY: OnMatchCfg, P: OutputPin> GeneratorInit<
    G,
    CMPX,
    CMPY,
    P,
> {
    /// The script that is being followed, if the generator's handle is
    /// `generator`.
    pub open spec fn script(self, generator: GeneratorHandle) -> Seq<DriverCall> {
        self.config.script(self.operator, self.cmp_x, self.cmp_y, generator)
    }

    /// The generator that results once the script is through.
    pub open spec fn generator(self, handle: GeneratorHandle) -> Generator<G, CMPX, CMPY, P> {
        Generator {
            channel: PhantomData,
            cmp_x: PhantomData,
            cmp_y: PhantomData,
            _handle: handle,
            _pin: self.config.pin,
        }
    }

    /// From any place in the script, the creation carries out the rest of the
    /// script.
    proof fn lemma_resume_follows_script(self, handle: GeneratorHandle, replies: Seq<DriverReply>)
        requires
            1 <= self.issued <= self.script(handle).len(),
            self.issued > 1 ==> self.generator == handle,
            self.issued == 1 ==> handle == GeneratorHandle(handle_at(replies, 0)),
        ensures
            run(Step::Call(self, self.script(handle)[self.issued - 1]), replies) == walk(
                self.script(handle).skip(self.issued - 1),
                replies,
                self.generator(handle),
            ),
        decreases replies.len(),
    {
        let script = self.script(handle);
        let ahead = script.skip(self.issued - 1);
        let call = script[self.issued - 1];
        let result = self.generator(handle);
        reveal_with_fuel(run, 2);
        if replies.len() == 0 {
            lemma_walk_unanswered(ahead, replies, result);
        } else if replies[0].status != ESP_OK {
            lemma_walk_failure(ahead, replies, result);
            assert(seq![call] + Seq::<DriverCall>::empty() =~= seq![call]);
        } else {
            lemma_walk_success(ahead, replies, result);
            let tail = replies.drop_first();
            assert(ahead.skip(1) =~= script.skip(self.issued + 0));
            if self.issued < script.len() {
                let next = self.resumed(replies[0])->Call_0;
                assert(next.script(handle) == script);
                next.lemma_resume_follows_script(handle, tail);
            } else {
                lemma_walk_empty(ahead.skip(1), tail, result);
                assert(seq![call] + Seq::<DriverCall>::empty() =~= seq![call]);
            }
        }
    }

    /// The call at place `k` of the script, if the script is that long.
    fn call_at(&self, generator: GeneratorHandle, k: u8) -> (call: Option<DriverCall>)
        ensures
            call == call_at(self.script(generator), k),
    {
        let on_x = self.config.on_matches_cmp_x;
        let on_y = self.config.on_matches_cmp_y;
        if k == 0 {
            Some(
                DriverCall::NewGenerator {
                    operator: self.operator,
                    gen_gpio_num: self.config.pin.pin(),
                    flags: self.config.flags,
                },
            )
        } else if k == 1 {
            Some(
                DriverCall::GeneratorSetActionsOnTimerEvent {
                    generator,
                    direction: TimerDirection::Up,
                    event: TimerEvent::Empty,
                    action: self.config.on_is_empty.counting_up,
                },
            )
        } else if k == 2 {
            Some(
                DriverCall::GeneratorSetActionsOnTimerEvent {
                    generator,
                    direction: TimerDirection::Down,
                    event: TimerEvent::Empty,
                    action: self.config.on_is_empty.counting_down,
                },
            )
        } else if k == 3 {
            Some(
                DriverCall::GeneratorSetActionsOnTimerEvent {
                    generator,
                    direction: TimerDirection::Up,
                    event: TimerEvent::Full,
                    action: self.config.on_is_full.counting_up,
                },
            )
        } else if k == 4 {
            Some(
                DriverCall::GeneratorSetActionsOnTimerEvent {
                    generator,
                    direction: TimerDirection::Down,
                    event: TimerEvent::Full,
                    action: self.config.on_is_full.counting_down,
                },
            )
        } else if k == 5 {
            match (self.cmp_x, self.cmp_y) {
                (Some(comparator), _) => Some(
                    DriverCall::GeneratorSetActionsOnCompareEvent {
                        generator,
                        comparator,
                        actions: on_x,
                    },
                ),
                (None, Some(comparator)) => Some(
                    DriverCall::GeneratorSetActionsOnCompareEvent {
                        generator,
                        comparator,
                        actions: on_y,
                    },
                ),
                (None, None) => None,
            }
        } else if k == 6 {
            match (self.cmp_x, self.cmp_y) {
                (Some(_), Some(comparator)) => Some(
                    DriverCall::GeneratorSetActionsOnCompareEvent {
                        generator,
                        comparator,
                        actions: on_y,
                    },
                ),
                _ => None,
            }
        } else {
            None
        }
    }
}

impl<G: GeneratorChannel, CMPX: OnMatchCfg, CMPY: OnMatchCfg, P: OutputPin> Pending for GeneratorInit<
    G,
    CMPX,
    CMPY,
    P,
> {
    type Output = Result<Generator<G, CMPX, CMPY, P>, McpwmError>;

    /// A failure ends the creation with the driver's status. A success is
    /// followed by the next call of the script or, when the script is through,
    /// by the generator. The reply to the first call tells the generator's
    /// handle.
    open spec fn resumed(self, reply: DriverReply) -> Step<Self, Self::Output> {
        let generator = if self.issued == 1 {
            GeneratorHandle(reply.handle)
        } else {
            self.generator
        };
        if reply.status != ESP_OK {
            Step::Done(Err(McpwmError::Driver(reply.status)))
        } else {
            match call_at(self.script(generator), self.issued) {
                Some(call) => Step::Call(
                    GeneratorInit { generator, issued: (self.issued + 1) as u8, ..self },
                    call,
                ),
                None => Step::Done(Ok(self.generator(generator))),
            }
        }
    }

    fn resume(self, reply: DriverReply) -> (step: Step<Self, Self::Output>) {
        if reply.status != ESP_OK {
            return Step::Done(Err(McpwmError::Driver(reply.status)));
        }
        let generator = if self.issued == 1 {
            GeneratorHandle(reply.handle)
        } else {
            self.generator
        };
        match self.call_at(generator, self.issued) {
            Some(call) => {
                let issued: u8 = self.issued + 1;
                Step::Call(GeneratorInit { generator, issued, ..self }, call)
            },
            None => Step::Done(
                Ok(
                    Generator {
                        channel: PhantomData,
                        cmp_x: PhantomData,
                        cmp_y: PhantomData,
                        _handle: generator,
                        _pin: self.config.pin,
                    },
                ),
            ),
        }
    }
}

impl<G: GeneratorChannel, CMPX: OnMatchCfg, CMPY: OnMatchCfg, P: OutputPin> OptionalGenCfg for GeneratorConfig<
    G,
    CMPX,
    CMPY,
    P,
> {
    type Gen = Generator<G, CMPX, CMPY, P>;

    type Init = GeneratorInit<G, CMPX, CMPY, P>;

    /// The calls that create and configure the generator, in the order in which
    /// they are made, where `generator` is the handle that the first of them
    /// yields: the creation; the action for each of the four combinations of
    /// timer event and counting direction; then the actions on a match of each
    /// comparator that the operator has.
    open spec fn script(
        self,
        operator: OperatorHandle,
        cmp_x: Option<ComparatorHandle>,
        cmp_y: Option<ComparatorHandle>,
        generator: GeneratorHandle,
    ) -> Seq<DriverCall> {
        seq![
            DriverCall::NewGenerator {
                operator,
                gen_gpio_num: self.pin.pin_spec(),
                flags: self.flags,
            },
            on_timer_event(
                generator,
                TimerDirection::Up,
                TimerEvent::Empty,
                self.on_is_empty.counting_up,
            ),
            on_timer_event(
                generator,
                TimerDirection::Down,
                TimerEvent::Empty,
                self.on_is_empty.counting_down,
            ),
            on_timer_event(
                generator,
                TimerDirection::Up,
                TimerEvent::Full,
                self.on_is_full.counting_up,
            ),
            on_timer_event(
                generator,
                TimerDirection::Down,
                TimerEvent::Full,
                self.on_is_full.counting_down,
            ),
        ] + on_compare_event(generator, cmp_x, self.on_matches_cmp_x.counting_direction())
            + on_compare_event(generator, cmp_y, self.on_matches_cmp_y.counting_direction())
    }

    open spec fn created(self, generator: GeneratorHandle) -> Generator<G, CMPX, CMPY, P> {
        Generator {
            channel: PhantomData,
            cmp_x: PhantomData,
            cmp_y: PhantomData,
            _handle: generator,
            _pin: self.pin,
        }
    }

    /// The creation starts with the first call of the script.
    open spec fn init_spec(
        self,
        operator_handle: OperatorHandle,
        cmp_x: Option<&Comparator>,
        cmp_y: Option<&Comparator>,
    ) -> Step<Self::Init, Result<Self::Gen, McpwmError>> {
        Step::Call(
            GeneratorInit {
                config: self.resolved(),
                operator: operator_handle,
                cmp_x: handle_of(cmp_x),
                cmp_y: handle_of(cmp_y),
                generator: GeneratorHandle(0),
                issued: 1,
                cmp_x_cfg: PhantomData,
                cmp_y_cfg: PhantomData,
            },
            DriverCall::NewGenerator {
                operator: operator_handle,
                gen_gpio_num: self.pin.pin_spec(),
                flags: self.flags,
            },
        )
    }

    fn init(
        self,
        operator_handle: OperatorHandle,
        cmp_x: Option<&Comparator>,
        cmp_y: Option<&Comparator>,
    ) -> (step: Step<Self::Init, Result<Self::Gen, McpwmError>>) {
        let call = DriverCall::NewGenerator {
            operator: operator_handle,
            gen_gpio_num: self.pin.pin(),
            flags: self.flags,
        };
        let config = GeneratorConfig {
            _channel: PhantomData,
            flags: self.flags,
            on_matches_cmp_x: self.on_matches_cmp_x.to_counting_direction(),
            on_matches_cmp_y: self.on_matches_cmp_y.to_counting_direction(),
            on_is_empty: self.on_is_empty,
            on_is_full: self.on_is_full,
            pin: self.pin,
        };
        let cmp_x = match cmp_x {
            Some(c) => Some(c.0),
            None => None,
        };
        let cmp_y = match cmp_y {
            Some(c) => Some(c.0),
            None => None,
        };
        Step::Call(
            GeneratorInit {
                config,
                operator: operator_handle,
                cmp_x,
                cmp_y,
                generator: GeneratorHandle(0),
                issued: 1,
                cmp_x_cfg: PhantomData,
                cmp_y_cfg: PhantomData,
            },
            call,
        )
    }

    proof fn init_follows_script(
        self,
        operator_handle: OperatorHandle,
        cmp_x: Option<&Comparator>,
        cmp_y: Option<&Comparator>,
        replies: Seq<DriverReply>,
    ) {
        let handle = GeneratorHandle(handle_at(replies, 0));
        let step = self.init_spec(operator_handle, cmp_x, cmp_y);
        let first = step->Call_0;
        let script = first.script(handle);
        assert(script =~= self.script(operator_handle, handle_of(cmp_x), handle_of(cmp_y), handle));
        assert(script.skip(0) =~= script);
        first.lemma_resume_follows_script(handle, replies);
    }
}

/// A configuration together with the comparators of the operator, from which
/// what is on a channel can be had without a call.
pub trait GenInit {
    type Gen: OptionalGen;

    /// What the configuration gives rise to on the operator `operator_handle`.
    spec fn created(self, operator_handle: OperatorHandle) -> Self::Gen;

    fn init(self, operator_handle: OperatorHandle) -> (generator: Self::Gen)
        ensures
            generator == self.created(operator_handle),
    ;
}

impl<CMPX, CMPY> GenInit for (&mut CMPX, &mut CMPY, NoGenCfg) where
    CMPX: OptionalCmp,
    CMPY: OptionalCmp,
 {
    type Gen = NoGen;

    /// An unused channel has no generator.
    open spec fn created(self, operator_handle: OperatorHandle) -> NoGen {
        NoGen
    }

    fn init(self, _operator_handle: OperatorHandle) -> (generator: Self::Gen) {
        NoGen
    }
}

impl<G: GeneratorChannel, P> GeneratorConfig<G, CountingDirection, CountingDirection, P> {
    /// A generator whose output is high from the moment the timer is empty
    /// until the count matches the channel's comparator: comparator X on
    /// channel A, comparator Y on channel B.
    pub fn active_high(pin: P) -> (cfg: Self)
        ensures
            cfg == Self::pulse(pin, GeneratorAction::SetHigh, GeneratorAction::SetLow),
    {
        let mut result: Self = GeneratorConfig::empty(pin);
        proof {
            G::is_a_is_the_constant();
        }

        result.on_is_empty.counting_up = GeneratorAction::SetHigh;
        if G::IS_A {
            result.on_matches_cmp_x.counting_up = GeneratorAction::SetLow;
        } else {
            result.on_matches_cmp_y.counting_up = GeneratorAction::SetLow;
        }
        result
    }

    /// A generator whose output is low from the moment the timer is empty
    /// until the count matches the channel's comparator: comparator X on
    /// channel A, comparator Y on channel B.
    pub fn active_low(pin: P) -> (cfg: Self)
        ensures
            cfg == Self::pulse(pin, GeneratorAction::SetLow, GeneratorAction::SetHigh),
    {
        let mut result: Self = GeneratorConfig::empty(pin);
        proof {
            G::is_a_is_the_constant();
        }
        result.on_is_empty.counting_up = GeneratorAction::SetLow;
        if G::IS_A {
            result.on_matches_cmp_x.counting_up = GeneratorAction::SetHigh;
        } else {
            result.on_matches_cmp_y.counting_up = GeneratorAction::SetHigh;
        }
        result
    }

    /// The configuration that, while the timer counts up, performs `start`
    /// when the timer is empty and `stop` when the count matches the channel's
    /// comparator, and that does nothing on any other event. No flag is set.
    pub open spec fn pulse(pin: P, start: GeneratorAction, stop: GeneratorAction) -> Self {
        let on_match = CountingDirection { counting_up: stop, counting_down: GeneratorAction::Nothing };
        GeneratorConfig {
            _channel: PhantomData,
            flags: GeneratorFlags { invert_pwm: false, io_loop_back: false },
            on_matches_cmp_x: if G::is_a() {
                on_match
            } else {
                CountingDirection::nothing()
            },
            on_matches_cmp_y: if G::is_a() {
                CountingDirection::nothing()
            } else {
                on_match
            },
            on_is_empty: CountingDirection {
                counting_up: start,
                counting_down: GeneratorAction::Nothing,
            },
            on_is_full: CountingDirection::nothing(),
            pin,
        }
    }
}

impl<G, CMPX, CMPY, P> GeneratorConfig<G, CMPX, CMPY, P> where
    G: GeneratorChannel,
    CMPX: OnMatchCfg,
    CMPY: OnMatchCfg,
 {
    /// The configuration that drives `pin` and does nothing on any event, with
    /// no flag set.
    pub fn empty(pin: P) -> (cfg: Self)
        ensures
            cfg == (GeneratorConfig::<G, CMPX, CMPY, P> {
                _channel: PhantomData,
                flags: GeneratorFlags { invert_pwm: false, io_loop_back: false },
                on_matches_cmp_x: CMPX::empty_spec(),
                on_matches_cmp_y: CMPY::empty_spec(),
                on_is_empty: CountingDirection::nothing(),
                on_is_full: CountingDirection::nothing(),
                pin,
            }),
    {
        let flags = GeneratorFlags { invert_pwm: false, io_loop_back: false };

        GeneratorConfig {
            _channel: PhantomData,
            flags,
            on_matches_cmp_x: OnMatchCfg::empty(),
            on_matches_cmp_y: OnMatchCfg::empty(),
            on_is_empty: CountingDirection {
                counting_up: GeneratorAction::Nothing,
                counting_down: GeneratorAction::Nothing,
            },
            on_is_full: CountingDirection {
                counting_up: GeneratorAction::Nothing,
                counting_down: GeneratorAction::Nothing,
            },
            pin,
        }
    }
}

/// What a generator does on a comparator match when the operator has no such
/// comparator, or when the match is of no interest: nothing.
pub struct NoCmpMatchConfig;

impl OnMatchCfg for NoCmpMatchConfig {
    open spec fn empty_spec() -> Self {
        NoCmpMatchConfig
    }

    open spec fn counting_direction(self) -> CountingDirection {
        CountingDirection::nothing()
    }

    fn empty() -> (cfg: Self) {
        NoCmpMatchConfig
    }

    fn to_counting_direction(self) -> (actions: CountingDirection) {
        CountingDirection::empty()
    }
}

/// What a generator does on some event, for each direction in which the timer
/// may be counting when the event occurs.
#[derive(Clone, Copy, Debug, PartialEq, Eq, Structural)]
pub struct CountingDirection {
    pub counting_up: GeneratorAction,
    pub counting_down: GeneratorAction,
}

impl CountingDirection {
    /// Nothing is done, whichever way the timer counts.
    pub open spec fn nothing() -> CountingDirection {
        CountingDirection {
            counting_up: GeneratorAction::Nothing,
            counting_down: GeneratorAction::Nothing,
        }
    }

    /// The actions that leave the output alone, whichever way the timer
    /// counts.
    pub fn empty() -> (actions: Self)
        ensures
            actions == Self::nothing(),
    {
        CountingDirection {
            counting_up: GeneratorAction::Nothing,
            counting_down: GeneratorAction::Nothing,
        }
    }
}

impl OnMatchCfg for CountingDirection {
    open spec fn empty_spec() -> Self {
        CountingDirection::nothing()
    }

    open spec fn counting_direction(self) -> CountingDirection {
        self
    }

    fn empty() -> (cfg: Self) {
        CountingDirection::empty()
    }

    fn to_counting_direction(self) -> (actions: CountingDirection) {
        self
    }
}

/// What a generator does when the timer count matches a comparator.
pub trait OnMatchCfg: Sized {
    /// The configuration under which a match changes nothing.
    spec fn empty_spec() -> Self;

    /// The action for each counting direction.
    spec fn counting_direction(self) -> CountingDirection;

    fn empty() -> (cfg: Self)
        ensures
            cfg == Self::empty_spec(),
    ;

    fn to_counting_direction(self) -> (actions: CountingDirection)
        ensures
            actions == self.counting_direction(),
    ;
}

/// What a generator does to its output when an event occurs.
#[derive(Clone, Copy, Debug, PartialEq, Eq, Structural)]
pub enum GeneratorAction {
    /// Keep the level as it is.
    Nothing,
    SetLow,
    SetHigh,
    Toggle,
}

} // verus!
