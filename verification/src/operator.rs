//! Operators: each pairs a timer with two comparators and up to two
//! generators.
//!
//! [`new`] creates an operator, its comparators and its generators and
//! connects the operator to its timer, call by call.

use core::marker::PhantomData;
use vstd::prelude::*;

use crate::comparator::{Comparator, ComparatorConfig};
use crate::driver::{
    handle_at, lemma_successes, lemma_walk_concat, run, successes, walk, ComparatorHandle,
    DriverCall, DriverReply, GeneratorHandle, McpwmError, OperatorFlags, OperatorHandle, Pending,
    Step, TimerHandle, ESP_OK,
};
use crate::generator::{OptionalGen, OptionalGenCfg};
use crate::gpio::Level;
use crate::group::Group;

verus! {

/// The operator slot `N` of group `G`, as a token: who holds it may create the
/// operator.
pub struct OPERATOR<const N: u8, G: Group> {
    pub _group: PhantomData<G>,
}

impl<const N: u8, G: Group> OPERATOR<N, G> {
    /// The token of the slot. Nothing keeps a second token of the same slot
    /// from being made: the caller sees to it that none is made while one is
    /// in use.
    #[inline(always)]
    pub fn new() -> (token: Self)
        ensures
            token == (OPERATOR::<N, G> { _group: PhantomData }),
    {
        Self { _group: PhantomData }
    }
}

/// Motor control operator.
///
/// Every MCPWM group has three operators. Every operator can generate two
/// output signals, A and B, which share the operator's timer, and with it
/// frequency and phase, but have a duty of their own.
pub struct Operator<const N: u8, G: Group, GENA: OptionalGen, GENB: OptionalGen> {
    pub _instance: OPERATOR<N, G>,
    pub _handle: OperatorHandle,
    pub comparator_x: Comparator,
    pub comparator_y: Comparator,
    pub generator_a: GENA,
    pub generator_b: GENB,
}

/// How an operator is to be created: its two comparators and what is to be on
/// each of its two channels.
pub struct OperatorConfig<GENA: OptionalGenCfg, GENB: OptionalGenCfg> {
    pub comparator_x: ComparatorConfig,
    pub comparator_y: ComparatorConfig,
    pub generator_a: GENA,
    pub generator_b: GENB,
}

/// The creation of an operator while it waits for the driver. Each variant is
/// named after the call whose reply is awaited and holds what has been
/// created so far and what is still to be created.
#[allow(inconsistent_fields)]
pub enum OperatorInit<const N: u8, G: Group, GENA: OptionalGenCfg, GENB: OptionalGenCfg> {
    NewOperator { instance: OPERATOR<N, G>, timer: TimerHandle, cfg: OperatorConfig<GENA, GENB> },
    NewComparatorX {
        instance: OPERATOR<N, G>,
        timer: TimerHandle,
        handle: OperatorHandle,
        cfg: OperatorConfig<GENA, GENB>,
    },
    NewComparatorY {
        instance: OPERATOR<N, G>,
        timer: TimerHandle,
        handle: OperatorHandle,
        comparator_x: Comparator,
        cfg: OperatorConfig<GENA, GENB>,
    },
    ConnectTimer {
        instance: OPERATOR<N, G>,
        handle: OperatorHandle,
        comparator_x: Comparator,
        comparator_y: Comparator,
        generator_a: GENA,
        generator_b: GENB,
    },
    GeneratorA {
        instance: OPERATOR<N, G>,
        handle: OperatorHandle,
        comparator_x: Comparator,
        comparator_y: Comparator,
        pending: GENA::Init,
        generator_b: GENB,
    },
    GeneratorB {
        instance: OPERATOR<N, G>,
        handle: OperatorHandle,
        comparator_x: Comparator,
        comparator_y: Comparator,
        generator_a: GENA::Gen,
        pending: GENB::Init,
    },
}

/// Where the creation of an operator stands when what is on channel A stands
/// at `step`: it waits with channel A, goes on to channel B, or ends with the
/// failure of channel A.
pub open spec fn with_generator_a<const N: u8, G: Group, GENA: OptionalGenCfg, GENB: OptionalGenCfg>(
    instance: OPERATOR<N, G>,
    handle: OperatorHandle,
    comparator_x: Comparator,
    comparator_y: Comparator,
    step: Step<GENA::Init, Result<GENA::Gen, McpwmError>>,
    generator_b: GENB,
) -> Step<
    OperatorInit<N, G, GENA, GENB>,
    Result<Operator<N, G, GENA::Gen, GENB::Gen>, McpwmError>,
> {
    match step {
        Step::Call(pending, call) => Step::Call(
            OperatorInit::GeneratorA {
                instance,
                handle,
                comparator_x,
                comparator_y,
                pending,
                generator_b,
            },
            call,
        ),
        Step::Done(Ok(generator_a)) => with_generator_b::<N, G, GENA, GENB>(
            instance,
            handle,
            comparator_x,
            comparator_y,
            generator_a,
            generator_b.init_spec(handle, Some(&comparator_x), Some(&comparator_y)),
        ),
        Step::Done(Err(e)) => Step::Done(Err(e)),
    }
}

/// Where the creation of an operator stands when channel A is settled and what
/// is on channel B stands at `step`: it waits with channel B, or ends with the
/// operator or with the failure of channel B.
pub open spec fn with_generator_b<const N: u8, G: Group, GENA: OptionalGenCfg, GENB: OptionalGenCfg>(
    instance: OPERATOR<N, G>,
    handle: OperatorHandle,
    comparator_x: Comparator,
    comparator_y: Comparator,
    generator_a: GENA::Gen,
    step: Step<GENB::Init, Result<GENB::Gen, McpwmError>>,
) -> Step<
    OperatorInit<N, G, GENA, GENB>,
    Result<Operator<N, G, GENA::Gen, GENB::Gen>, McpwmError>,
> {
    match step {
        Step::Call(pending, call) => Step::Call(
            OperatorInit::GeneratorB {
                instance,
                handle,
                comparator_x,
                comparator_y,
                generator_a,
                pending,
            },
            call,
        ),
        Step::Done(Ok(generator_b)) => Step::Done(
            Ok(
                Operator {
                    _instance: instance,
                    _handle: handle,
                    comparator_x,
                    comparator_y,
                    generator_a,
                    generator_b,
                },
            ),
        ),
        Step::Done(Err(e)) => Step::Done(Err(e)),
    }
}

fn go_on_with_generator_a<const N: u8, G: Group, GENA: OptionalGenCfg, GENB: OptionalGenCfg>(
    instance: OPERATOR<N, G>,
    handle: OperatorHandle,
    comparator_x: Comparator,
    comparator_y: Comparator,
    step: Step<GENA::Init, Result<GENA::Gen, McpwmError>>,
    generator_b: GENB,
) -> (next: Step<
    OperatorInit<N, G, GENA, GENB>,
    Result<Operator<N, G, GENA::Gen, GENB::Gen>, McpwmError>,
>)
    ensures
        next == with_generator_a::<N, G, GENA, GENB>(
            instance,
            handle,
            comparator_x,
            comparator_y,
            step,
            generator_b,
        ),
{
    match step {
        Step::Call(pending, call) => Step::Call(
            OperatorInit::GeneratorA {
                instance,
                handle,
                comparator_x,
                comparator_y,
                pending,
                generator_b,
            },
            call,
        ),
        Step::Done(Ok(generator_a)) => {
            let step = generator_b.init(handle, Some(&comparator_x), Some(&comparator_y));
            go_on_with_generator_b::<N, G, GENA, GENB>(
                instance,
                handle,
                comparator_x,
                comparator_y,
                generator_a,
                step,
            )
        },
        Step::Done(Err(e)) => Step::Done(Err(e)),
    }
}

fn go_on_with_generator_b<const N: u8, G: Group, GENA: OptionalGenCfg, GENB: OptionalGenCfg>(
    instance: OPERATOR<N, G>,
    handle: OperatorHandle,
    comparator_x: Comparator,
    comparator_y: Comparator,
    generator_a: GENA::Gen,
    step: Step<GENB::Init, Result<GENB::Gen, McpwmError>>,
) -> (next: Step<
    OperatorInit<N, G, GENA, GENB>,
    Result<Operator<N, G, GENA::Gen, GENB::Gen>, McpwmError>,
>)
    ensures
        next == with_generator_b::<N, G, GENA, GENB>(
            instance,
            handle,
            comparator_x,
            comparator_y,
            generator_a,
            step,
        ),
{
    match step {
        Step::Call(pending, call) => Step::Call(
            OperatorInit::GeneratorB {
                instance,
                handle,
                comparator_x,
                comparator_y,
                generator_a,
                pending,
            },
            call,
        ),
        Step::Done(Ok(generator_b)) => Step::Done(
            Ok(
                Operator {
                    _instance: instance,
                    _handle: handle,
                    comparator_x,
                    comparator_y,
                    generator_a,
                    generator_b,
                },
            ),
        ),
        Step::Done(Err(e)) => Step::Done(Err(e)),
    }
}

impl<const N: u8, G: Group, GENA: OptionalGenCfg, GENB: OptionalGenCfg> Pending for OperatorInit<
    N,
    G,
    GENA,
    GENB,
> {
    type Output = Result<Operator<N, G, GENA::Gen, GENB::Gen>, McpwmError>;

    /// A failure ends the creation with the driver's status. After a success
    /// the creation goes on: from the operator to comparator X, to comparator
    /// Y, to the connection with the timer, to what is on channel A, to what is
    /// on channel B, and from there to the operator.
    open spec fn resumed(self, reply: DriverReply) -> Step<Self, Self::Output> {
        match self {
            OperatorInit::NewOperator { instance, timer, cfg } => {
                if reply.status != ESP_OK {
                    Step::Done(Err(McpwmError::Driver(reply.status)))
                } else {
                    let handle = OperatorHandle(reply.handle);
                    Step::Call(
                        OperatorInit::NewComparatorX { instance, timer, handle, cfg },
                        DriverCall::NewComparator {
                            operator: handle,
                            flags: cfg.comparator_x.flags,
                        },
                    )
                }
            },
            OperatorInit::NewComparatorX { instance, timer, handle, cfg } => {
                if reply.status != ESP_OK {
                    Step::Done(Err(McpwmError::Driver(reply.status)))
                } else {
                    let comparator_x = Comparator(ComparatorHandle(reply.handle));
                    Step::Call(
                        OperatorInit::NewComparatorY { instance, timer, handle, comparator_x, cfg },
                        DriverCall::NewComparator {
                            operator: handle,
                            flags: cfg.comparator_y.flags,
                        },
                    )
                }
            },
            OperatorInit::NewComparatorY { instance, timer, handle, comparator_x, cfg } => {
                if reply.status != ESP_OK {
                    Step::Done(Err(McpwmError::Driver(reply.status)))
                } else {
                    let comparator_y = Comparator(ComparatorHandle(reply.handle));
                    Step::Call(
                        OperatorInit::ConnectTimer {
                            instance,
                            handle,
                            comparator_x,
                            comparator_y,
                            generator_a: cfg.generator_a,
                            generator_b: cfg.generator_b,
                        },
                        DriverCall::OperatorConnectTimer { operator: handle, timer },
                    )
                }
            },
            OperatorInit::ConnectTimer {
                instance,
                handle,
                comparator_x,
                comparator_y,
                generator_a,
                generator_b,
            } => {
                if reply.status != ESP_OK {
                    Step::Done(Err(McpwmError::Driver(reply.status)))
                } else {
                    with_generator_a::<N, G, GENA, GENB>(
                        instance,
                        handle,
                        comparator_x,
                        comparator_y,
                        generator_a.init_spec(handle, Some(&comparator_x), Some(&comparator_y)),
                        generator_b,
                    )
                }
            },
            OperatorInit::GeneratorA {
                instance,
                handle,
                comparator_x,
                comparator_y,
                pending,
                generator_b,
            } => with_generator_a::<N, G, GENA, GENB>(
                instance,
                handle,
                comparator_x,
                comparator_y,
                pending.resumed(reply),
                generator_b,
            ),
            OperatorInit::GeneratorB {
                instance,
                handle,
                comparator_x,
                comparator_y,
                generator_a,
                pending,
            } => with_generator_b::<N, G, GENA, GENB>(
                instance,
                handle,
                comparator_x,
                comparator_y,
                generator_a,
                pending.resumed(reply),
            ),
        }
    }

    fn resume(self, reply: DriverReply) -> (step: Step<Self, Self::Output>) {
        match self {
            OperatorInit::NewOperator { instance, timer, cfg } => {
                if reply.status != ESP_OK {
                    return Step::Done(Err(McpwmError::Driver(reply.status)));
                }
                let handle = OperatorHandle(reply.handle);
                let call = DriverCall::NewComparator {
                    operator: handle,
                    flags: cfg.comparator_x.flags,
                };
                Step::Call(OperatorInit::NewComparatorX { instance, timer, handle, cfg }, call)
            },
            OperatorInit::NewComparatorX { instance, timer, handle, cfg } => {
                if reply.status != ESP_OK {
                    return Step::Done(Err(McpwmError::Driver(reply.status)));
                }
                let comparator_x = Comparator(ComparatorHandle(reply.handle));
                let call = DriverCall::NewComparator {
                    operator: handle,
                    flags: cfg.comparator_y.flags,
                };
                Step::Call(
                    OperatorInit::NewComparatorY { instance, timer, handle, comparator_x, cfg },
                    call,
                )
            },
            OperatorInit::NewComparatorY { instance, timer, handle, comparator_x, cfg } => {
                if reply.status != ESP_OK {
                    return Step::Done(Err(McpwmError::Driver(reply.status)));
                }
                let comparator_y = Comparator(ComparatorHandle(reply.handle));
                Step::Call(
                    OperatorInit::ConnectTimer {
                        instance,
                        handle,
                        comparator_x,
                        comparator_y,
                        generator_a: cfg.generator_a,
                        generator_b: cfg.generator_b,
                    },
                    DriverCall::OperatorConnectTimer { operator: handle, timer },
                )
            },
            OperatorInit::ConnectTimer {
                instance,
                handle,
                comparator_x,
                comparator_y,
                generator_a,
                generator_b,
            } => {
                if reply.status != ESP_OK {
                    return Step::Done(Err(McpwmError::Driver(reply.status)));
                }
                let step = generator_a.init(handle, Some(&comparator_x), Some(&comparator_y));
                go_on_with_generator_a::<N, G, GENA, GENB>(
                    instance,
                    handle,
                    comparator_x,
                    comparator_y,
                    step,
                    generator_b,
                )
            },
            OperatorInit::GeneratorA {
                instance,
                handle,
                comparator_x,
                comparator_y,
                pending,
                generator_b,
            } => {
                let step = pending.resume(reply);
                go_on_with_generator_a::<N, G, GENA, GENB>(
                    instance,
                    handle,
                    comparator_x,
                    comparator_y,
                    step,
                    generator_b,
                )
            },
            OperatorInit::GeneratorB {
                instance,
                handle,
                comparator_x,
                comparator_y,
                generator_a,
                pending,
            } => {
                let step = pending.resume(reply);
                go_on_with_generator_b::<N, G, GENA, GENB>(
                    instance,
                    handle,
                    comparator_x,
                    comparator_y,
                    generator_a,
                    step,
                )
            },
        }
    }
}

/// Where the creation of an operator stands before the driver has answered
/// anything: at the creation of the operator itself, in the group of the
/// slot, with no flag set.
pub open spec fn new_spec<const N: u8, G: Group, GENA: OptionalGenCfg, GENB: OptionalGenCfg>(
    instance: OPERATOR<N, G>,
    timer_handle: TimerHandle,
    cfg: OperatorConfig<GENA, GENB>,
) -> Step<
    OperatorInit<N, G, GENA, GENB>,
    Result<Operator<N, G, GENA::Gen, GENB::Gen>, McpwmError>,
> {
    Step::Call(
        OperatorInit::NewOperator { instance, timer: timer_handle, cfg },
        DriverCall::NewOperator { group_id: G::id(), flags: OperatorFlags::cleared() },
    )
}

/// Begins the creation of the operator of slot `instance`, driven by the
/// timer `timer_handle`, with the comparators and generators that `cfg`
/// describes.
pub fn new<const N: u8, G: Group, GENA: OptionalGenCfg, GENB: OptionalGenCfg>(
    instance: OPERATOR<N, G>,
    timer_handle: TimerHandle,
    cfg: OperatorConfig<GENA, GENB>,
) -> (step: Step<
    OperatorInit<N, G, GENA, GENB>,
    Result<Operator<N, G, GENA::Gen, GENB::Gen>, McpwmError>,
>)
    ensures
        step == new_spec(instance, timer_handle, cfg),
{
    let flags = OperatorFlags {
        update_gen_action_on_tez: false,
        update_gen_action_on_tep: false,
        update_gen_action_on_sync: false,
        update_dead_time_on_tez: false,
        update_dead_time_on_tep: false,
        update_dead_time_on_sync: false,
    };
    proof {
        G::id_is_the_constant();
    }
    let call = DriverCall::NewOperator { group_id: G::ID, flags };
    Step::Call(OperatorInit::NewOperator { instance, timer: timer_handle, cfg }, call)
}

impl<GENA: OptionalGenCfg, GENB: OptionalGenCfg> OperatorConfig<GENA, GENB> {
    /// The calls that create what is on the two channels of the operator
    /// `handle` with the comparators `x` and `y`, channel A first, where the
    /// handles of the generators are those that the replies carry: reply
    /// `from` answers the first of these calls.
    pub open spec fn generators_script(
        self,
        handle: OperatorHandle,
        x: ComparatorHandle,
        y: ComparatorHandle,
        replies: Seq<DriverReply>,
        from: int,
    ) -> Seq<DriverCall> {
        let on_a = self.generator_a.script(
            handle,
            Some(x),
            Some(y),
            GeneratorHandle(handle_at(replies, from)),
        );
        let on_b = self.generator_b.script(
            handle,
            Some(x),
            Some(y),
            GeneratorHandle(handle_at(replies, from + on_a.len())),
        );
        on_a + on_b
    }

    /// The calls that create the operator and all that belongs to it, in the
    /// order in which they are made, where the handles are those that the
    /// replies to the calls carry: the operator, in group `group_id` and with
    /// no flag set; comparator X; comparator Y; the connection to `timer`;
    /// what is on channel A; what is on channel B.
    pub open spec fn script(self, group_id: i32, timer: TimerHandle, replies: Seq<DriverReply>) -> Seq<
        DriverCall,
    > {
        let handle = OperatorHandle(handle_at(replies, 0));
        let x = ComparatorHandle(handle_at(replies, 1));
        let y = ComparatorHandle(handle_at(replies, 2));
        seq![
            DriverCall::NewOperator { group_id, flags: OperatorFlags::cleared() },
            DriverCall::NewComparator { operator: handle, flags: self.comparator_x.flags },
            DriverCall::NewComparator { operator: handle, flags: self.comparator_y.flags },
            DriverCall::OperatorConnectTimer { operator: handle, timer },
        ] + self.generators_script(handle, x, y, replies, 4)
    }

    /// The operator that the creation yields when the replies to its calls
    /// carry the handles.
    pub open spec fn created<const N: u8, G: Group>(
        self,
        instance: OPERATOR<N, G>,
        replies: Seq<DriverReply>,
    ) -> Operator<N, G, GENA::Gen, GENB::Gen> {
        let handle = OperatorHandle(handle_at(replies, 0));
        let x = ComparatorHandle(handle_at(replies, 1));
        let y = ComparatorHandle(handle_at(replies, 2));
        let on_a = self.generator_a.script(
            handle,
            Some(x),
            Some(y),
            GeneratorHandle(handle_at(replies, 4)),
        );
        Operator {
            _instance: instance,
            _handle: handle,
            comparator_x: Comparator(x),
            comparator_y: Comparator(y),
            generator_a: self.generator_a.created(GeneratorHandle(handle_at(replies, 4))),
            generator_b: self.generator_b.created(
                GeneratorHandle(handle_at(replies, 4int + on_a.len())),
            ),
        }
    }
}

/// While channel B is being set up, the operator's creation makes the calls of
/// channel B and ends as channel B ends.
proof fn lemma_generator_b_runs<const N: u8, G: Group, GENA: OptionalGenCfg, GENB: OptionalGenCfg>(
    instance: OPERATOR<N, G>,
    handle: OperatorHandle,
    comparator_x: Comparator,
    comparator_y: Comparator,
    generator_a: GENA::Gen,
    step: Step<GENB::Init, Result<GENB::Gen, McpwmError>>,
    replies: Seq<DriverReply>,
)
    ensures
        ({
            let inner = run(step, replies);
            let outer = run(
                with_generator_b::<N, G, GENA, GENB>(
                    instance,
                    handle,
                    comparator_x,
                    comparator_y,
                    generator_a,
                    step,
                ),
                replies,
            );
            &&& outer.0 == inner.0
            &&& outer.1 == match inner.1 {
                None => None,
                Some(Err(e)) => Some(Err(e)),
                Some(Ok(generator_b)) => Some(
                    Ok(
                        Operator {
                            _instance: instance,
                            _handle: handle,
                            comparator_x,
                            comparator_y,
                            generator_a,
                            generator_b,
                        },
                    ),
                ),
            }
        }),
    decreases replies.len(),
{
    match step {
        Step::Call(pending, call) => {
            if replies.len() > 0 {
                lemma_generator_b_runs::<N, G, GENA, GENB>(
                    instance,
                    handle,
                    comparator_x,
                    comparator_y,
                    generator_a,
                    pending.resumed(replies[0]),
                    replies.drop_first(),
                );
            }
        },
        Step::Done(_) => {},
    }
}

/// While channel A is being set up, the operator's creation makes the calls of
/// channel A. It ends as channel A ends where that is a failure, and goes on to
/// channel B, with the replies that are left, where channel A succeeds.
proof fn lemma_generator_a_runs<const N: u8, G: Group, GENA: OptionalGenCfg, GENB: OptionalGenCfg>(
    instance: OPERATOR<N, G>,
    handle: OperatorHandle,
    comparator_x: Comparator,
    comparator_y: Comparator,
    step: Step<GENA::Init, Result<GENA::Gen, McpwmError>>,
    generator_b: GENB,
    replies: Seq<DriverReply>,
)
    ensures
        ({
            let inner = run(step, replies);
            let outer = run(
                with_generator_a::<N, G, GENA, GENB>(
                    instance,
                    handle,
                    comparator_x,
                    comparator_y,
                    step,
                    generator_b,
                ),
                replies,
            );
            match inner.1 {
                None => outer == (inner.0, None::<Result<Operator<N, G, GENA::Gen, GENB::Gen>, McpwmError>>),
                Some(Err(e)) => outer == (
                    inner.0,
                    Some(Err::<Operator<N, G, GENA::Gen, GENB::Gen>, McpwmError>(e)),
                ),
                Some(Ok(generator_a)) => {
                    let then = run(
                        with_generator_b::<N, G, GENA, GENB>(
                            instance,
                            handle,
                            comparator_x,
                            comparator_y,
                            generator_a,
                            generator_b.init_spec(handle, Some(&comparator_x), Some(&comparator_y)),
                        ),
                        replies.skip(inner.0.len() as int),
                    );
                    &&& inner.0.len() <= replies.len()
                    &&& outer == (inner.0 + then.0, then.1)
                },
            }
        }),
    decreases replies.len(),
{
    let inner = run(step, replies);
    let outer = run(
        with_generator_a::<N, G, GENA, GENB>(
            instance,
            handle,
            comparator_x,
            comparator_y,
            step,
            generator_b,
        ),
        replies,
    );
    match step {
        Step::Call(pending, call) => {
            if replies.len() > 0 {
                let tail = replies.drop_first();
                let next = pending.resumed(replies[0]);
                lemma_generator_a_runs::<N, G, GENA, GENB>(
                    instance,
                    handle,
                    comparator_x,
                    comparator_y,
                    next,
                    generator_b,
                    tail,
                );
                let inner_tail = run(next, tail);
                match inner_tail.1 {
                    Some(Ok(generator_a)) => {
                        let then = run(
                            with_generator_b::<N, G, GENA, GENB>(
                                instance,
                                handle,
                                comparator_x,
                                comparator_y,
                                generator_a,
                                generator_b.init_spec(
                                    handle,
                                    Some(&comparator_x),
                                    Some(&comparator_y),
                                ),
                            ),
                            tail.skip(inner_tail.0.len() as int),
                        );
                        assert(tail.skip(inner_tail.0.len() as int) =~= replies.skip(
                            inner.0.len() as int,
                        ));
                        assert(seq![call] + (inner_tail.0 + then.0) =~= (seq![call] + inner_tail.0)
                            + then.0);
                    },
                    _ => {},
                }
            }
        },
        Step::Done(Ok(generator_a)) => {
            assert(replies.skip(0) =~= replies);
            let then = run(
                with_generator_b::<N, G, GENA, GENB>(
                    instance,
                    handle,
                    comparator_x,
                    comparator_y,
                    generator_a,
                    generator_b.init_spec(handle, Some(&comparator_x), Some(&comparator_y)),
                ),
                replies,
            );
            assert(Seq::<DriverCall>::empty() + then.0 =~= then.0);
        },
        Step::Done(Err(_)) => {},
    }
}

/// Once the operator is connected to its timer, its creation makes the calls
/// of channel A and then those of channel B.
proof fn lemma_generators_follow_script<
    const N: u8,
    G: Group,
    GENA: OptionalGenCfg,
    GENB: OptionalGenCfg,
>(
    instance: OPERATOR<N, G>,
    handle: OperatorHandle,
    comparator_x: Comparator,
    comparator_y: Comparator,
    cfg: OperatorConfig<GENA, GENB>,
    replies: Seq<DriverReply>,
)
    ensures
        run(
            with_generator_a::<N, G, GENA, GENB>(
                instance,
                handle,
                comparator_x,
                comparator_y,
                cfg.generator_a.init_spec(handle, Some(&comparator_x), Some(&comparator_y)),
                cfg.generator_b,
            ),
            replies,
        ) == walk(
            cfg.generators_script(handle, comparator_x.0, comparator_y.0, replies, 0),
            replies,
            Operator {
                _instance: instance,
                _handle: handle,
                comparator_x,
                comparator_y,
                generator_a: cfg.generator_a.created(GeneratorHandle(handle_at(replies, 0))),
                generator_b: cfg.generator_b.created(
                    GeneratorHandle(
                        handle_at(
                            replies,
                            cfg.generator_a.script(
                                handle,
                                Some(comparator_x.0),
                                Some(comparator_y.0),
                                GeneratorHandle(handle_at(replies, 0)),
                            ).len() as int,
                        ),
                    ),
                ),
            },
        ),
{
    let x = Some(&comparator_x);
    let y = Some(&comparator_y);
    let on_a = cfg.generator_a.script(
        handle,
        Some(comparator_x.0),
        Some(comparator_y.0),
        GeneratorHandle(handle_at(replies, 0)),
    );
    let n = on_a.len() as int;
    let on_b = cfg.generator_b.script(
        handle,
        Some(comparator_x.0),
        Some(comparator_y.0),
        GeneratorHandle(handle_at(replies, n)),
    );
    let generator_a = cfg.generator_a.created(GeneratorHandle(handle_at(replies, 0)));
    let generator_b = cfg.generator_b.created(GeneratorHandle(handle_at(replies, n)));
    let operator = Operator {
        _instance: instance,
        _handle: handle,
        comparator_x,
        comparator_y,
        generator_a,
        generator_b,
    };
    cfg.generator_a.init_follows_script(handle, x, y, replies);
    lemma_generator_a_runs::<N, G, GENA, GENB>(
        instance,
        handle,
        comparator_x,
        comparator_y,
        cfg.generator_a.init_spec(handle, x, y),
        cfg.generator_b,
        replies,
    );
    lemma_walk_concat(on_a, on_b, replies, operator, generator_a);
    lemma_successes(replies);
    if successes(replies) >= n {
        let left = replies.skip(n);
        assert(handle_at(left, 0) == handle_at(replies, n));
        cfg.generator_b.init_follows_script(handle, x, y, left);
        lemma_generator_b_runs::<N, G, GENA, GENB>(
            instance,
            handle,
            comparator_x,
            comparator_y,
            generator_a,
            cfg.generator_b.init_spec(handle, x, y),
            left,
        );
    }
}

/// Whatever the driver answers, the creation of an operator makes the calls of
/// its script in order, each once the one before it has succeeded. It ends with
/// the status of the first call that fails, and yields the operator, with its
/// comparators and generators, when all have succeeded.
pub proof fn new_follows_script<const N: u8, G: Group, GENA: OptionalGenCfg, GENB: OptionalGenCfg>(
    instance: OPERATOR<N, G>,
    timer_handle: TimerHandle,
    cfg: OperatorConfig<GENA, GENB>,
    replies: Seq<DriverReply>,
)
    ensures
        run(new_spec(instance, timer_handle, cfg), replies) == walk(
            cfg.script(G::id(), timer_handle, replies),
            replies,
            cfg.created(instance, replies),
        ),
{
    let handle = OperatorHandle(handle_at(replies, 0));
    let x = ComparatorHandle(handle_at(replies, 1));
    let y = ComparatorHandle(handle_at(replies, 2));
    let first = seq![
        DriverCall::NewOperator { group_id: G::id(), flags: OperatorFlags::cleared() },
        DriverCall::NewComparator { operator: handle, flags: cfg.comparator_x.flags },
        DriverCall::NewComparator { operator: handle, flags: cfg.comparator_y.flags },
        DriverCall::OperatorConnectTimer { operator: handle, timer: timer_handle },
    ];
    let second = cfg.generators_script(handle, x, y, replies, 4);
    let script = cfg.script(G::id(), timer_handle, replies);
    let result = cfg.created(instance, replies);
    let k = successes(replies) as int;
    lemma_successes(replies);
    lemma_walk_concat(first, second, replies, result, ());
    reveal_with_fuel(run, 5);
    let r1 = replies.drop_first();
    let r2 = r1.drop_first();
    let r3 = r2.drop_first();
    let r4 = r3.drop_first();
    if k >= 4 {
        assert(r4 =~= replies.skip(4));
        assert(r1[0] == replies[1] && r2[0] == replies[2] && r3[0] == replies[3]);
        lemma_generators_follow_script(instance, handle, Comparator(x), Comparator(y), cfg, r4);
        assert forall|i: int| handle_at(r4, i) == handle_at(replies, 4 + i) || i < 0 by {}
        assert(cfg.generators_script(handle, x, y, r4, 0) == second);
        let then = walk(second, r4, result);
        assert(first + then.0 =~= seq![first[0]] + (seq![first[1]] + (seq![first[2]] + (seq![
            first[3],
        ] + then.0))));
    } else {
        assert(script.take(k + 1) =~= first.take(k + 1));
        if k == 0 {
            assert(first.take(1) =~= seq![first[0]]);
            assert(seq![first[0]] + Seq::<DriverCall>::empty() =~= seq![first[0]]);
        } else if k == 1 {
            assert(r1.len() > 0 ==> r1[0] == replies[1]);
            assert(first.take(2) =~= seq![first[0]] + seq![first[1]]);
            assert(seq![first[0]] + (seq![first[1]] + Seq::<DriverCall>::empty()) =~= seq![
                first[0],
            ] + seq![first[1]]);
        } else if k == 2 {
            assert(r1[0] == replies[1]);
            assert(r2.len() > 0 ==> r2[0] == replies[2]);
            assert(first.take(3) =~= seq![first[0]] + (seq![first[1]] + seq![first[2]]));
            assert(seq![first[0]] + (seq![first[1]] + (seq![first[2]] + Seq::<
                DriverCall,
            >::empty())) =~= seq![first[0]] + (seq![first[1]] + seq![first[2]]));
        } else {
            assert(r1[0] == replies[1]);
            assert(r2[0] == replies[2]);
            assert(r3.len() > 0 ==> r3[0] == replies[3]);
            assert(first.take(4) =~= seq![first[0]] + (seq![first[1]] + (seq![first[2]] + seq![
                first[3],
            ])));
            assert(seq![first[0]] + (seq![first[1]] + (seq![first[2]] + (seq![first[3]] + Seq::<
                DriverCall,
            >::empty()))) =~= seq![first[0]] + (seq![first[1]] + (seq![first[2]] + seq![
                first[3],
            ])));
        }
    }
}

/// The level that the native driver is handed to force a generator's output:
/// 1 for high, 0 for low, and -1 to lift the force.
pub open spec fn force_level(level: Option<Level>) -> i32 {
    match level {
        None => -1i32,
        Some(Level::High) => 1i32,
        Some(Level::Low) => 0i32,
    }
}

/// The call that forces the output of `generator` to `level` and holds it
/// there; without a generator, the error that says so.
pub open spec fn force_level_call(generator: Option<GeneratorHandle>, level: Option<Level>) -> Result<
    DriverCall,
    McpwmError,
> {
    match generator {
        None => Err(McpwmError::MissingGenerator),
        Some(generator) => Ok(
            DriverCall::GeneratorSetForceLevel {
                generator,
                level: force_level(level),
                hold_on: true,
            },
        ),
    }
}

fn set_force_level(generator: Option<GeneratorHandle>, level: Option<Level>) -> (call: Result<
    DriverCall,
    McpwmError,
>)
    ensures
        call == force_level_call(generator, level),
{
    let generator = match generator {
        Some(generator) => generator,
        None => {
            return Err(McpwmError::MissingGenerator);
        },
    };
    let level: i32 = match level {
        None => -1,
        Some(Level::High) => 1,
        Some(Level::Low) => 0,
    };
    Ok(DriverCall::GeneratorSetForceLevel { generator, level, hold_on: true })
}

impl<const N: u8, G, GENA, GENB> Operator<N, G, GENA, GENB> where
    G: Group,
    GENA: OptionalGen,
    GENB: OptionalGen,
 {
    /// The call that sets the compare value of comparator X, which in the most
    /// common configuration is the duty of output A.
    ///
    /// `value` ranges from 0 to the timer's peak. A compare value beyond the
    /// peak never triggers a compare event.
    #[inline(always)]
    pub fn set_compare_value_x(&mut self, value: u16) -> (call: DriverCall)
        ensures
            call == (DriverCall::ComparatorSetCompareValue {
                comparator: old(self).comparator_x.0,
                value: value as u32,
            }),
            *final(self) == *old(self),
    {
        DriverCall::ComparatorSetCompareValue { comparator: self.comparator_x.0, value: value.into() }
    }

    /// The call that sets the compare value of comparator Y, which in the most
    /// common configuration is the duty of output B.
    ///
    /// `value` ranges from 0 to the timer's peak. A compare value beyond the
    /// peak never triggers a compare event.
    #[inline(always)]
    pub fn set_compare_value_y(&mut self, value: u16) -> (call: DriverCall)
        ensures
            call == (DriverCall::ComparatorSetCompareValue {
                comparator: old(self).comparator_y.0,
                value: value as u32,
            }),
            *final(self) == *old(self),
    {
        DriverCall::ComparatorSetCompareValue { comparator: self.comparator_y.0, value: value.into() }
    }

    /// The call that forces the level of output A, or lifts the force where
    /// `level` is `None`. An operator without a generator on channel A has no
    /// such call.
    pub fn set_force_level_a(&mut self, level: Option<Level>) -> (call: Result<
        DriverCall,
        McpwmError,
    >)
        ensures
            call == force_level_call(old(self).generator_a.handle_spec(), level),
            *final(self) == *old(self),
    {
        set_force_level(self.generator_a.handle(), level)
    }

    /// The call that forces the level of output B, or lifts the force where
    /// `level` is `None`. An operator without a generator on channel B has no
    /// such call.
    pub fn set_force_level_b(&mut self, level: Option<Level>) -> (call: Result<
        DriverCall,
        McpwmError,
    >)
        ensures
            call == force_level_call(old(self).generator_b.handle_spec(), level),
            *final(self) == *old(self),
    {
        set_force_level(self.generator_b.handle(), level)
    }
}

/// Either an operator in slot `N` of group `G` or the absence of one.
pub trait OptionalOperator<const N: u8, G: Group> {
}

impl<const N: u8, G, GENA, GENB> OptionalOperator<N, G> for Operator<N, G, GENA, GENB> where
    G: Group,
    GENA: OptionalGen,
    GENB: OptionalGen,
 {
}

/// The absence of an operator in a slot.
pub struct NoOperator;

impl<const N: u8, G: Group> OptionalOperator<N, G> for NoOperator {
}

} // verus!
