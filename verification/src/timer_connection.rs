//! A timer together with the operators that it drives.
//!
//! The three operator slots of a timer's group are tracked in the type of the
//! connection: an operator can be attached only to a slot that is still
//! empty.

use vstd::prelude::*;

use crate::driver::{run, walk, DriverReply, McpwmError, Pending, Step};
use crate::generator::OptionalGenCfg;
use crate::gpio::OutputPin;
use crate::group::Group;
use crate::operator::{
    new, new_follows_script, new_spec, NoOperator, Operator, OperatorConfig, OperatorInit,
    OptionalOperator, OPERATOR,
};
use crate::timer::{HwTimer, Timer};

verus! {

/// Created by [`Timer::into_connection`].
pub struct TimerConnection<G: Group, T: HwTimer<G>, O0, O1, O2> where
    O0: OptionalOperator<0, G>,
    O1: OptionalOperator<1, G>,
    O2: OptionalOperator<2, G>,
 {
    pub timer: Timer<G, T>,
    pub operator0: O0,
    pub operator1: O1,
    pub operator2: O2,
}

impl<G: Group, T: HwTimer<G>> TimerConnection<G, T, NoOperator, NoOperator, NoOperator> {
    /// The connection of `timer` with no operator attached.
    pub fn new(timer: Timer<G, T>) -> (connection: Self)
        ensures
            connection == (TimerConnection::<G, T, NoOperator, NoOperator, NoOperator> {
                timer,
                operator0: NoOperator,
                operator1: NoOperator,
                operator2: NoOperator,
            }),
    {
        Self { timer, operator0: NoOperator, operator1: NoOperator, operator2: NoOperator }
    }
}

// There is only ever one operator of each slot, so what `split` hands out cannot
// be exchanged for parts of another connection: operators are neither added
// nor removed while the parts are borrowed, and none outlives the timer.
impl<
    G: Group,
    T: HwTimer<G>,
    O0: OptionalOperator<0, G>,
    O1: OptionalOperator<1, G>,
    O2: OptionalOperator<2, G>,
> TimerConnection<G, T, O0, O1, O2> {
    /// The timer and the three operator slots, each to be used on its own.
    pub fn split(&mut self) -> (parts: (&mut Timer<G, T>, &mut O0, &mut O1, &mut O2))
        ensures
            *parts.0 == old(self).timer,
            *parts.1 == old(self).operator0,
            *parts.2 == old(self).operator1,
            *parts.3 == old(self).operator2,
            *final(self) == (TimerConnection::<G, T, O0, O1, O2> {
                timer: *final(parts.0),
                operator0: *final(parts.1),
                operator1: *final(parts.2),
                operator2: *final(parts.3),
            }),
    {
        (&mut self.timer, &mut self.operator0, &mut self.operator1, &mut self.operator2)
    }
}

/// The attachment of an operator to slot `N` of a connection, while the
/// creation of the operator waits for the driver.
pub struct OperatorAttach<
    const N: u8,
    G: Group,
    T: HwTimer<G>,
    O0,
    O1,
    O2,
    GENA: OptionalGenCfg,
    GENB: OptionalGenCfg,
> where O0: OptionalOperator<0, G>, O1: OptionalOperator<1, G>, O2: OptionalOperator<2, G> {
    pub connection: TimerConnection<G, T, O0, O1, O2>,
    pub init: OperatorInit<N, G, GENA, GENB>,
}

impl<G: Group, T: HwTimer<G>, O1: OptionalOperator<1, G>, O2: OptionalOperator<2, G>> TimerConnection<G, T, NoOperator, O1, O2> {
    /// The connection with `operator` in slot 0.
    pub open spec fn with_operator0<O: OptionalOperator<0, G>>(
        self,
        operator: O,
    ) -> TimerConnection<G, T, O, O1, O2> {
        TimerConnection {
            timer: self.timer,
            operator0: operator,
            operator1: self.operator1,
            operator2: self.operator2,
        }
    }

    /// Where the attachment to slot 0 stands when the creation of the operator
    /// stands at `step`: it waits with the creation, or ends with the operator
    /// in its slot or with the failure of the creation.
    pub open spec fn attaching0<GENA: OptionalGenCfg, GENB: OptionalGenCfg>(
        self,
        step: Step<
            OperatorInit<0, G, GENA, GENB>,
            Result<Operator<0, G, GENA::Gen, GENB::Gen>, McpwmError>,
        >,
    ) -> Step<
        OperatorAttach<0, G, T, NoOperator, O1, O2, GENA, GENB>,
        Result<TimerConnection<G, T, Operator<0, G, GENA::Gen, GENB::Gen>, O1, O2>, McpwmError>,
    > {
        match step {
            Step::Call(init, call) => Step::Call(OperatorAttach { connection: self, init }, call),
            Step::Done(Ok(operator)) => Step::Done(Ok(self.with_operator0(operator))),
            Step::Done(Err(e)) => Step::Done(Err(e)),
        }
    }

    fn go_on_attaching0<GENA: OptionalGenCfg, GENB: OptionalGenCfg>(
        self,
        step: Step<
            OperatorInit<0, G, GENA, GENB>,
            Result<Operator<0, G, GENA::Gen, GENB::Gen>, McpwmError>,
        >,
    ) -> (next: Step<
        OperatorAttach<0, G, T, NoOperator, O1, O2, GENA, GENB>,
        Result<TimerConnection<G, T, Operator<0, G, GENA::Gen, GENB::Gen>, O1, O2>, McpwmError>,
    >)
        ensures
            next == self.attaching0(step),
    {
        match step {
            Step::Call(init, call) => Step::Call(OperatorAttach { connection: self, init }, call),
            Step::Done(Ok(operator)) => Step::Done(
                Ok(
                    TimerConnection {
                        timer: self.timer,
                        operator0: operator,
                        operator1: self.operator1,
                        operator2: self.operator2,
                    },
                ),
            ),
            Step::Done(Err(e)) => Step::Done(Err(e)),
        }
    }

    /// Begins the creation of the operator of slot 0, driven by the timer of
    /// this connection, and its attachment to the connection.
    pub fn attatch_operator0<GENA: OptionalGenCfg, GENB: OptionalGenCfg>(
        self,
        operator_handle: OPERATOR<0, G>,
        operator_cfg: OperatorConfig<GENA, GENB>,
    ) -> (step: Step<
        OperatorAttach<0, G, T, NoOperator, O1, O2, GENA, GENB>,
        Result<TimerConnection<G, T, Operator<0, G, GENA::Gen, GENB::Gen>, O1, O2>, McpwmError>,
    >)
        ensures
            step == self.attaching0(new_spec(operator_handle, self.timer.handle, operator_cfg)),
    {
        let step = new(operator_handle, self.timer.handle, operator_cfg);
        self.go_on_attaching0(step)
    }

    /// The attachment makes the calls that the creation of the operator makes,
    /// and ends as the creation ends.
    proof fn lemma_attaching0_runs<GENA: OptionalGenCfg, GENB: OptionalGenCfg>(
        self,
        step: Step<
            OperatorInit<0, G, GENA, GENB>,
            Result<Operator<0, G, GENA::Gen, GENB::Gen>, McpwmError>,
        >,
        replies: Seq<DriverReply>,
    )
        ensures
            ({
                let inner = run(step, replies);
                let outer = run(self.attaching0(step), replies);
                &&& outer.0 == inner.0
                &&& outer.1 == match inner.1 {
                    None => None,
                    Some(Err(e)) => Some(Err(e)),
                    Some(Ok(operator)) => Some(Ok(self.with_operator0(operator))),
                }
            }),
        decreases replies.len(),
    {
        match step {
            Step::Call(init, call) => {
                if replies.len() > 0 {
                    self.lemma_attaching0_runs(init.resumed(replies[0]), replies.drop_first());
                }
            },
            Step::Done(_) => {},
        }
    }

    /// Whatever the driver answers, attaching an operator to slot 0 makes the
    /// calls of the operator's script, against the timer of this connection,
    /// in order, each once the one before it has succeeded. It ends with the
    /// status of the first call that fails, and yields the connection with the
    /// operator in slot 0, and the rest as it was, when all have succeeded.
    pub proof fn attatch_operator0_follows_script<GENA: OptionalGenCfg, GENB: OptionalGenCfg>(
        self,
        operator_handle: OPERATOR<0, G>,
        operator_cfg: OperatorConfig<GENA, GENB>,
        replies: Seq<DriverReply>,
    )
        ensures
            run(
                self.attaching0(new_spec(operator_handle, self.timer.handle, operator_cfg)),
                replies,
            ) == walk(
                operator_cfg.script(G::id(), self.timer.handle, replies),
                replies,
                self.with_operator0(operator_cfg.created(operator_handle, replies)),
            ),
    {
        new_follows_script(operator_handle, self.timer.handle, operator_cfg, replies);
        self.lemma_attaching0_runs(
            new_spec(operator_handle, self.timer.handle, operator_cfg),
            replies,
        );
    }
}

impl<
    G: Group,
    T: HwTimer<G>,
    O1: OptionalOperator<1, G>, O2: OptionalOperator<2, G>,
    GENA: OptionalGenCfg,
    GENB: OptionalGenCfg,
> Pending for OperatorAttach<0, G, T, NoOperator, O1, O2, GENA, GENB> {
    type Output = Result<TimerConnection<G, T, Operator<0, G, GENA::Gen, GENB::Gen>, O1, O2>, McpwmError>;

    /// The attachment goes as the creation of the operator goes.
    open spec fn resumed(self, reply: DriverReply) -> Step<Self, Self::Output> {
        self.connection.attaching0(self.init.resumed(reply))
    }

    fn resume(self, reply: DriverReply) -> (step: Step<Self, Self::Output>) {
        let step = self.init.resume(reply);
        self.connection.go_on_attaching0(step)
    }
}

impl<G: Group, T: HwTimer<G>, O0: OptionalOperator<0, G>, O2: OptionalOperator<2, G>> TimerConnection<G, T, O0, NoOperator, O2> {
    /// The connection with `operator` in slot 1.
    pub open spec fn with_operator1<O: OptionalOperator<1, G>>(
        self,
        operator: O,
    ) -> TimerConnection<G, T, O0, O, O2> {
        TimerConnection {
            timer: self.timer,
            operator0: self.operator0,
            operator1: operator,
            operator2: self.operator2,
        }
    }

    /// Where the attachment to slot 1 stands when the creation of the operator
    /// stands at `step`: it waits with the creation, or ends with the operator
    /// in its slot or with the failure of the creation.
    pub open spec fn attaching1<GENA: OptionalGenCfg, GENB: OptionalGenCfg>(
        self,
        step: Step<
            OperatorInit<1, G, GENA, GENB>,
            Result<Operator<1, G, GENA::Gen, GENB::Gen>, McpwmError>,
        >,
    ) -> Step<
        OperatorAttach<1, G, T, O0, NoOperator, O2, GENA, GENB>,
        Result<TimerConnection<G, T, O0, Operator<1, G, GENA::Gen, GENB::Gen>, O2>, McpwmError>,
    > {
        match step {
            Step::Call(init, call) => Step::Call(OperatorAttach { connection: self, init }, call),
            Step::Done(Ok(operator)) => Step::Done(Ok(self.with_operator1(operator))),
            Step::Done(Err(e)) => Step::Done(Err(e)),
        }
    }

    fn go_on_attaching1<GENA: OptionalGenCfg, GENB: OptionalGenCfg>(
        self,
        step: Step<
            OperatorInit<1, G, GENA, GENB>,
            Result<Operator<1, G, GENA::Gen, GENB::Gen>, McpwmError>,
        >,
    ) -> (next: Step<
        OperatorAttach<1, G, T, O0, NoOperator, O2, GENA, GENB>,
        Result<TimerConnection<G, T, O0, Operator<1, G, GENA::Gen, GENB::Gen>, O2>, McpwmError>,
    >)
        ensures
            next == self.attaching1(step),
    {
        match step {
            Step::Call(init, call) => Step::Call(OperatorAttach { connection: self, init }, call),
            Step::Done(Ok(operator)) => Step::Done(
                Ok(
                    TimerConnection {
                        timer: self.timer,
                        operator0: self.operator0,
                        operator1: operator,
                        operator2: self.operator2,
                    },
                ),
            ),
            Step::Done(Err(e)) => Step::Done(Err(e)),
        }
    }

    /// Begins the creation of the operator of slot 1, driven by the timer of
    /// this connection, and its attachment to the connection.
    pub fn attatch_operator1<GENA: OptionalGenCfg, GENB: OptionalGenCfg>(
        self,
        operator_handle: OPERATOR<1, G>,
        operator_cfg: OperatorConfig<GENA, GENB>,
    ) -> (step: Step<
        OperatorAttach<1, G, T, O0, NoOperator, O2, GENA, GENB>,
        Result<TimerConnection<G, T, O0, Operator<1, G, GENA::Gen, GENB::Gen>, O2>, McpwmError>,
    >)
        ensures
            step == self.attaching1(new_spec(operator_handle, self.timer.handle, operator_cfg)),
    {
        let step = new(operator_handle, self.timer.handle, operator_cfg);
        self.go_on_attaching1(step)
    }

    /// The attachment makes the calls that the creation of the operator makes,
    /// and ends as the creation ends.
    proof fn lemma_attaching1_runs<GENA: OptionalGenCfg, GENB: OptionalGenCfg>(
        self,
        step: Step<
            OperatorInit<1, G, GENA, GENB>,
            Result<Operator<1, G, GENA::Gen, GENB::Gen>, McpwmError>,
        >,
        replies: Seq<DriverReply>,
    )
        ensures
            ({
                let inner = run(step, replies);
                let outer = run(self.attaching1(step), replies);
                &&& outer.0 == inner.0
                &&& outer.1 == match inner.1 {
                    None => None,
                    Some(Err(e)) => Some(Err(e)),
                    Some(Ok(operator)) => Some(Ok(self.with_operator1(operator))),
                }
            }),
        decreases replies.len(),
    {
        match step {
            Step::Call(init, call) => {
                if replies.len() > 0 {
                    self.lemma_attaching1_runs(init.resumed(replies[0]), replies.drop_first());
                }
            },
            Step::Done(_) => {},
        }
    }

    /// Whatever the driver answers, attaching an operator to slot 1 makes the
    /// calls of the operator's script, against the timer of this connection,
    /// in order, each once the one before it has succeeded. It ends with the
    /// status of the first call that fails, and yields the connection with the
    /// operator in slot 1, and the rest as it was, when all have succeeded.
    pub proof fn attatch_operator1_follows_script<GENA: OptionalGenCfg, GENB: OptionalGenCfg>(
        self,
        operator_handle: OPERATOR<1, G>,
        operator_cfg: OperatorConfig<GENA, GENB>,
        replies: Seq<DriverReply>,
    )
        ensures
            run(
                self.attaching1(new_spec(operator_handle, self.timer.handle, operator_cfg)),
                replies,
            ) == walk(
                operator_cfg.script(G::id(), self.timer.handle, replies),
                replies,
                self.with_operator1(operator_cfg.created(operator_handle, replies)),
            ),
    {
        new_follows_script(operator_handle, self.timer.handle, operator_cfg, replies);
        self.lemma_attaching1_runs(
            new_spec(operator_handle, self.timer.handle, operator_cfg),
            replies,
        );
    }
}

impl<
    G: Group,
    T: HwTimer<G>,
    O0: OptionalOperator<0, G>, O2: OptionalOperator<2, G>,
    GENA: OptionalGenCfg,
    GENB: OptionalGenCfg,
> Pending for OperatorAttach<1, G, T, O0, NoOperator, O2, GENA, GENB> {
    type Output = Result<TimerConnection<G, T, O0, Operator<1, G, GENA::Gen, GENB::Gen>, O2>, McpwmError>;

    /// The attachment goes as the creation of the operator goes.
    open spec fn resumed(self, reply: DriverReply) -> Step<Self, Self::Output> {
        self.connection.attaching1(self.init.resumed(reply))
    }

    fn resume(self, reply: DriverReply) -> (step: Step<Self, Self::Output>) {
        let step = self.init.resume(reply);
        self.connection.go_on_attaching1(step)
    }
}

impl<G: Group, T: HwTimer<G>, O0: OptionalOperator<0, G>, O1: OptionalOperator<1, G>> TimerConnection<G, T, O0, O1, NoOperator> {
    /// The connection with `operator` in slot 2.
    pub open spec fn with_operator2<O: OptionalOperator<2, G>>(
        self,
        operator: O,
    ) -> TimerConnection<G, T, O0, O1, O> {
        TimerConnection {
            timer: self.timer,
            operator0: self.operator0,
            operator1: self.operator1,
            operator2: operator,
        }
    }

    /// Where the attachment to slot 2 stands when the creation of the operator
    /// stands at `step`: it waits with the creation, or ends with the operator
    /// in its slot or with the failure of the creation.
    pub open spec fn attaching2<GENA: OptionalGenCfg, GENB: OptionalGenCfg>(
        self,
        step: Step<
            OperatorInit<2, G, GENA, GENB>,
            Result<Operator<2, G, GENA::Gen, GENB::Gen>, McpwmError>,
        >,
    ) -> Step<
        OperatorAttach<2, G, T, O0, O1, NoOperator, GENA, GENB>,
        Result<TimerConnection<G, T, O0, O1, Operator<2, G, GENA::Gen, GENB::Gen>>, McpwmError>,
    > {
        match step {
            Step::Call(init, call) => Step::Call(OperatorAttach { connection: self, init }, call),
            Step::Done(Ok(operator)) => Step::Done(Ok(self.with_operator2(operator))),
            Step::Done(Err(e)) => Step::Done(Err(e)),
        }
    }

    fn go_on_attaching2<GENA: OptionalGenCfg, GENB: OptionalGenCfg>(
        self,
        step: Step<
            OperatorInit<2, G, GENA, GENB>,
            Result<Operator<2, G, GENA::Gen, GENB::Gen>, McpwmError>,
        >,
    ) -> (next: Step<
        OperatorAttach<2, G, T, O0, O1, NoOperator, GENA, GENB>,
        Result<TimerConnection<G, T, O0, O1, Operator<2, G, GENA::Gen, GENB::Gen>>, McpwmError>,
    >)
        ensures
            next == self.attaching2(step),
    {
        match step {
            Step::Call(init, call) => Step::Call(OperatorAttach { connection: self, init }, call),
            Step::Done(Ok(operator)) => Step::Done(
                Ok(
                    TimerConnection {
                        timer: self.timer,
                        operator0: self.operator0,
                        operator1: self.operator1,
                        operator2: operator,
                    },
                ),
            ),
            Step::Done(Err(e)) => Step::Done(Err(e)),
        }
    }

    /// Begins the creation of the operator of slot 2, driven by the timer of
    /// this connection, and its attachment to the connection.
    pub fn attatch_operator2<GENA: OptionalGenCfg, GENB: OptionalGenCfg>(
        self,
        operator_handle: OPERATOR<2, G>,
        operator_cfg: OperatorConfig<GENA, GENB>,
    ) -> (step: Step<
        OperatorAttach<2, G, T, O0, O1, NoOperator, GENA, GENB>,
        Result<TimerConnection<G, T, O0, O1, Operator<2, G, GENA::Gen, GENB::Gen>>, McpwmError>,
    >)
        ensures
            step == self.attaching2(new_spec(operator_handle, self.timer.handle, operator_cfg)),
    {
        let step = new(operator_handle, self.timer.handle, operator_cfg);
        self.go_on_attaching2(step)
    }

    /// The attachment makes the calls that the creation of the operator makes,
    /// and ends as the creation ends.
    proof fn lemma_attaching2_runs<GENA: OptionalGenCfg, GENB: OptionalGenCfg>(
        self,
        step: Step<
            OperatorInit<2, G, GENA, GENB>,
            Result<Operator<2, G, GENA::Gen, GENB::Gen>, McpwmError>,
        >,
        replies: Seq<DriverReply>,
    )
        ensures
            ({
                let inner = run(step, replies);
                let outer = run(self.attaching2(step), replies);
                &&& outer.0 == inner.0
                &&& outer.1 == match inner.1 {
                    None => None,
                    Some(Err(e)) => Some(Err(e)),
                    Some(Ok(operator)) => Some(Ok(self.with_operator2(operator))),
                }
            }),
        decreases replies.len(),
    {
        match step {
            Step::Call(init, call) => {
                if replies.len() > 0 {
                    self.lemma_attaching2_runs(init.resumed(replies[0]), replies.drop_first());
                }
            },
            Step::Done(_) => {},
        }
    }

    /// Whatever the driver answers, attaching an operator to slot 2 makes the
    /// calls of the operator's script, against the timer of this connection,
    /// in order, each once the one before it has succeeded. It ends with the
    /// status of the first call that fails, and yields the connection with the
    /// operator in slot 2, and the rest as it was, when all have succeeded.
    pub proof fn attatch_operator2_follows_script<GENA: OptionalGenCfg, GENB: OptionalGenCfg>(
        self,
        operator_handle: OPERATOR<2, G>,
        operator_cfg: OperatorConfig<GENA, GENB>,
        replies: Seq<DriverReply>,
    )
        ensures
            run(
                self.attaching2(new_spec(operator_handle, self.timer.handle, operator_cfg)),
                replies,
            ) == walk(
                operator_cfg.script(G::id(), self.timer.handle, replies),
                replies,
                self.with_operator2(operator_cfg.created(operator_handle, replies)),
            ),
    {
        new_follows_script(operator_handle, self.timer.handle, operator_cfg, replies);
        self.lemma_attaching2_runs(
            new_spec(operator_handle, self.timer.handle, operator_cfg),
            replies,
        );
    }
}

impl<
    G: Group,
    T: HwTimer<G>,
    O0: OptionalOperator<0, G>, O1: OptionalOperator<1, G>,
    GENA: OptionalGenCfg,
    GENB: OptionalGenCfg,
> Pending for OperatorAttach<2, G, T, O0, O1, NoOperator, GENA, GENB> {
    type Output = Result<TimerConnection<G, T, O0, O1, Operator<2, G, GENA::Gen, GENB::Gen>>, McpwmError>;

    /// The attachment goes as the creation of the operator goes.
    open spec fn resumed(self, reply: DriverReply) -> Step<Self, Self::Output> {
        self.connection.attaching2(self.init.resumed(reply))
    }

    fn resume(self, reply: DriverReply) -> (step: Step<Self, Self::Output>) {
        let step = self.init.resume(reply);
        self.connection.go_on_attaching2(step)
    }
}

/// The absence of a pin.
pub struct NoPin;

/// Either an output pin or the absence of one.
pub trait OptionalOutputPin {
}

impl OptionalOutputPin for NoPin {
}

impl<P: OutputPin> OptionalOutputPin for P {
}

} // verus!
