//! The boundary with the native MCPWM driver.
//!
//! Nothing in this crate calls the driver. An operation that needs it is a
//! conversation: the library names the next call ([`DriverCall`]), the caller
//! makes it and hands back what the driver answered ([`DriverReply`]), and the
//! library says what comes next ([`Step`]). [`run`] is the mathematical account
//! of such a conversation, and the contracts of the crate are stated over it.

use vstd::prelude::*;

use crate::comparator::ComparatorFlags;
use crate::generator::{CountingDirection, GeneratorAction};
use crate::timer::TimerConfig;

verus! {

/// The status with which the native driver reports success.
pub const ESP_OK: i32 = 0;

/// Identifies a native timer.
#[derive(Clone, Copy, Debug, PartialEq, Eq, Structural)]
pub struct TimerHandle(pub usize);

/// Identifies a native operator.
#[derive(Clone, Copy, Debug, PartialEq, Eq, Structural)]
pub struct OperatorHandle(pub usize);

/// Identifies a native comparator.
#[derive(Clone, Copy, Debug, PartialEq, Eq, Structural)]
pub struct ComparatorHandle(pub usize);

/// Identifies a native generator.
#[derive(Clone, Copy, Debug, PartialEq, Eq, Structural)]
pub struct GeneratorHandle(pub usize);

/// The direction in which a timer is counting when an event occurs.
#[derive(Clone, Copy, Debug, PartialEq, Eq, Structural)]
pub enum TimerDirection {
    Up,
    Down,
}

/// A timer event that a generator can act on.
#[derive(Clone, Copy, Debug, PartialEq, Eq, Structural)]
pub enum TimerEvent {
    /// The counter reached zero.
    Empty,
    /// The counter reached its peak.
    Full,
}

/// The flag bits of the native operator configuration.
#[derive(Clone, Copy, Debug, PartialEq, Eq, Structural)]
pub struct OperatorFlags {
    pub update_gen_action_on_tez: bool,
    pub update_gen_action_on_tep: bool,
    pub update_gen_action_on_sync: bool,
    pub update_dead_time_on_tez: bool,
    pub update_dead_time_on_tep: bool,
    pub update_dead_time_on_sync: bool,
}

impl OperatorFlags {
    /// No flag set.
    pub open spec fn cleared() -> OperatorFlags {
        OperatorFlags {
            update_gen_action_on_tez: false,
            update_gen_action_on_tep: false,
            update_gen_action_on_sync: false,
            update_dead_time_on_tez: false,
            update_dead_time_on_tep: false,
            update_dead_time_on_sync: false,
        }
    }
}

/// The flag bits of the native generator configuration.
#[derive(Clone, Copy, Debug, PartialEq, Eq, Structural)]
pub struct GeneratorFlags {
    pub invert_pwm: bool,
    pub io_loop_back: bool,
}

/// One call into the native driver, with the arguments it is made with.
#[derive(Clone, Copy, Debug, PartialEq, Eq)]
#[allow(inconsistent_fields)]
pub enum DriverCall {
    /// Create a timer in group `group_id`. The reply carries its handle.
    NewTimer { group_id: i32, config: TimerConfig },
    /// Enable a timer.
    TimerEnable { timer: TimerHandle },
    /// Delete a timer.
    DelTimer { timer: TimerHandle },
    /// Create an operator in group `group_id`. The reply carries its handle.
    NewOperator { group_id: i32, flags: OperatorFlags },
    /// Create a comparator on an operator. The reply carries its handle.
    NewComparator { operator: OperatorHandle, flags: ComparatorFlags },
    /// Connect an operator to the timer that drives it.
    OperatorConnectTimer { operator: OperatorHandle, timer: TimerHandle },
    /// Create a generator on an operator, driving GPIO `gen_gpio_num`. The
    /// reply carries its handle.
    NewGenerator { operator: OperatorHandle, gen_gpio_num: i32, flags: GeneratorFlags },
    /// Tell a generator what to do when the timer, counting in `direction`,
    /// raises `event`.
    GeneratorSetActionsOnTimerEvent {
        generator: GeneratorHandle,
        direction: TimerDirection,
        event: TimerEvent,
        action: GeneratorAction,
    },
    /// Tell a generator what to do when the timer count matches a comparator,
    /// for either counting direction.
    GeneratorSetActionsOnCompareEvent {
        generator: GeneratorHandle,
        comparator: ComparatorHandle,
        actions: CountingDirection,
    },
    /// Set the threshold of a comparator.
    ComparatorSetCompareValue { comparator: ComparatorHandle, value: u32 },
    /// Force a generator's output to `level` (-1 lifts the force), held until
    /// it is lifted when `hold_on` is set.
    GeneratorSetForceLevel { generator: GeneratorHandle, level: i32, hold_on: bool },
}

/// What the native driver answered to one call.
#[derive(Clone, Copy, Debug, PartialEq, Eq, Structural)]
pub struct DriverReply {
    /// The status code that the call returned.
    pub status: i32,
    /// The handle that the call wrote, for a call that creates a resource and
    /// succeeded; of no meaning otherwise.
    pub handle: usize,
}

/// Why an operation did not go through.
#[derive(Clone, Copy, Debug, PartialEq, Eq, Structural)]
pub enum McpwmError {
    /// The operator has no generator on the channel that was addressed.
    MissingGenerator,
    /// The native driver answered a call with this status, which is not
    /// [`ESP_OK`].
    Driver(i32),
}

/// What a status code means: success for [`ESP_OK`], else the code as an error.
pub open spec fn status_result(status: i32) -> Result<(), McpwmError> {
    if status == ESP_OK {
        Ok(())
    } else {
        Err(McpwmError::Driver(status))
    }
}

/// Turns the status code of a native call into a result.
pub fn to_result(status: i32) -> (r: Result<(), McpwmError>)
    ensures
        r == status_result(status),
{
    if status == ESP_OK {
        Ok(())
    } else {
        Err(McpwmError::Driver(status))
    }
}

/// Where an operation stands.
pub enum Step<S, R> {
    /// The call is to be made now, and the driver's reply handed to the state
    /// (see [`Pending::resume`]).
    Call(S, DriverCall),
    /// The operation is over, with this result.
    Done(R),
}

/// An operation that waits for the driver's reply to the call it last named.
pub trait Pending: Sized {
    /// What the operation yields when it is over.
    type Output;

    /// Where the operation stands once the driver has answered `reply`.
    spec fn resumed(self, reply: DriverReply) -> Step<Self, Self::Output>;

    /// Takes the driver's reply to the pending call.
    fn resume(self, reply: DriverReply) -> (step: Step<Self, Self::Output>)
        ensures
            step == self.resumed(reply),
    ;
}

/// The conversation that starts at `step` when the driver answers the calls,
/// in order, with `replies`: the calls made, and the result if the operation
/// got to its end. Replies left over when the operation is over are not looked
/// at; when the replies run out first, the last call listed is unanswered.
pub open spec fn run<P: Pending>(step: Step<P, P::Output>, replies: Seq<DriverReply>) -> (
    Seq<DriverCall>,
    Option<P::Output>,
)
    decreases replies.len(),
{
    match step {
        Step::Done(result) => (Seq::empty(), Some(result)),
        Step::Call(pending, call) => {
            if replies.len() == 0 {
                (seq![call], None)
            } else {
                let rest = run(pending.resumed(replies[0]), replies.drop_first());
                (seq![call] + rest.0, rest.1)
            }
        },
    }
}

/// The call at place `k` of `script`, if the script is that long.
pub open spec fn call_at(script: Seq<DriverCall>, k: u8) -> Option<DriverCall> {
    if k < script.len() {
        Some(script[k as int])
    } else {
        None
    }
}

/// The number of replies before the first that reports a failure.
pub open spec fn successes(replies: Seq<DriverReply>) -> nat
    decreases replies.len(),
{
    if replies.len() == 0 || replies[0].status != ESP_OK {
        0
    } else {
        1 + successes(replies.drop_first())
    }
}

/// The handle in reply `i`, and 0 where the replies do not reach that far.
pub open spec fn handle_at(replies: Seq<DriverReply>, i: int) -> usize {
    if 0 <= i < replies.len() {
        replies[i].handle
    } else {
        0
    }
}

/// What becomes of an operation that makes the calls of `script` in order,
/// each once the one before it has succeeded, and that yields `result` when
/// the last has succeeded, if the driver answers with `replies`.
///
/// With enough successes all of the script is carried out and the result is
/// there. Otherwise the calls end with the first that fails, whose status is
/// the error, or with the one for which the replies have run out.
pub open spec fn walk<R>(script: Seq<DriverCall>, replies: Seq<DriverReply>, result: R) -> (
    Seq<DriverCall>,
    Option<Result<R, McpwmError>>,
) {
    let k = successes(replies) as int;
    if k >= script.len() {
        (script, Some(Ok(result)))
    } else if k < replies.len() {
        (script.take(k + 1), Some(Err(McpwmError::Driver(replies[k].status))))
    } else {
        (script.take(k + 1), None)
    }
}

/// An operation that follows a script fails only with a status that the
/// driver gave, and that status is not the one of success.
pub proof fn lemma_walk_fails_with_a_failure<R>(
    script: Seq<DriverCall>,
    replies: Seq<DriverReply>,
    result: R,
)
    ensures
        walk(script, replies, result).1 matches Some(Err(error)) ==> {
            &&& successes(replies) < replies.len()
            &&& error == McpwmError::Driver(replies[successes(replies) as int].status)
            &&& replies[successes(replies) as int].status != ESP_OK
        },
{
    lemma_successes(replies);
}

/// The leading successes are successes, and what follows them, if anything,
/// is a failure.
pub proof fn lemma_successes(replies: Seq<DriverReply>)
    ensures
        successes(replies) <= replies.len(),
        forall|i: int| 0 <= i < successes(replies) ==> (#[trigger] replies[i]).status == ESP_OK,
        successes(replies) < replies.len() ==> replies[successes(replies) as int].status != ESP_OK,
    decreases replies.len(),
{
    if replies.len() > 0 && replies[0].status == ESP_OK {
        let rest = replies.drop_first();
        lemma_successes(rest);
        assert forall|i: int| 0 <= i < successes(replies) implies (#[trigger] replies[i]).status
            == ESP_OK by {
            if i > 0 {
                assert(replies[i] == rest[i - 1]);
            }
        }
        if successes(rest) < rest.len() {
            assert(rest[successes(rest) as int] == replies[successes(replies) as int]);
        }
    }
}

/// Skipping replies that are all successes takes that many off the count.
pub proof fn lemma_successes_skip(replies: Seq<DriverReply>, n: int)
    requires
        0 <= n <= successes(replies),
    ensures
        n <= replies.len(),
        successes(replies.skip(n)) == successes(replies) - n,
    decreases n,
{
    lemma_successes(replies);
    if n == 0 {
        assert(replies.skip(0) =~= replies);
    } else {
        let rest = replies.drop_first();
        lemma_successes_skip(rest, n - 1);
        assert(rest.skip(n - 1) =~= replies.skip(n));
    }
}

/// A script that is empty is through at once.
pub proof fn lemma_walk_empty<R>(script: Seq<DriverCall>, replies: Seq<DriverReply>, result: R)
    requires
        script.len() == 0,
    ensures
        walk(script, replies, result) == (Seq::<DriverCall>::empty(), Some(Ok::<R, McpwmError>(result))),
{
    assert(script =~= Seq::<DriverCall>::empty());
}

/// Without a reply, the first call of the script stands unanswered.
pub proof fn lemma_walk_unanswered<R>(script: Seq<DriverCall>, replies: Seq<DriverReply>, result: R)
    requires
        script.len() > 0,
        replies.len() == 0,
    ensures
        walk(script, replies, result) == (seq![script[0]], None::<Result<R, McpwmError>>),
{
    assert(script.take(1) =~= seq![script[0]]);
}

/// A failure of the first call ends the script there.
pub proof fn lemma_walk_failure<R>(script: Seq<DriverCall>, replies: Seq<DriverReply>, result: R)
    requires
        script.len() > 0,
        replies.len() > 0,
        replies[0].status != ESP_OK,
    ensures
        walk(script, replies, result) == (
            seq![script[0]],
            Some(Err::<R, McpwmError>(McpwmError::Driver(replies[0].status))),
        ),
{
    assert(script.take(1) =~= seq![script[0]]);
}

/// After a success of the first call, the rest of the script is carried out
/// with the rest of the replies.
pub proof fn lemma_walk_success<R>(script: Seq<DriverCall>, replies: Seq<DriverReply>, result: R)
    requires
        script.len() > 0,
        replies.len() > 0,
        replies[0].status == ESP_OK,
    ensures
        walk(script, replies, result) == ({
            let rest = walk(script.skip(1), replies.drop_first(), result);
            (seq![script[0]] + rest.0, rest.1)
        }),
{
    let tail = replies.drop_first();
    let k = successes(tail) as int;
    lemma_successes(tail);
    assert(successes(replies) == k + 1);
    if k + 1 >= script.len() {
        assert(script =~= seq![script[0]] + script.skip(1));
    } else {
        assert(script.take(k + 2) =~= seq![script[0]] + script.skip(1).take(k + 1));
        if k < tail.len() {
            assert(tail[k] == replies[k + 1]);
        }
    }
}

/// A script in two parts. If the replies do not get through the first part,
/// the operation makes the calls and ends as the first part alone would, short
/// of its result. If they do, the second part is carried out with the replies
/// that the first part has left.
pub proof fn lemma_walk_concat<R, Q>(
    first: Seq<DriverCall>,
    second: Seq<DriverCall>,
    replies: Seq<DriverReply>,
    result: R,
    interim: Q,
)
    ensures
        successes(replies) < first.len() ==> walk(first + second, replies, result) == (
            walk(first, replies, interim).0,
            match walk(first, replies, interim).1 {
                None => None,
                Some(Err(e)) => Some(Err(e)),
                Some(Ok(_)) => Some(Ok(result)),
            },
        ) && !(walk(first, replies, interim).1 matches Some(Ok(_))),
        successes(replies) >= first.len() ==> {
            &&& first.len() <= replies.len()
            &&& walk(first, replies, interim) == (first, Some(Ok::<Q, McpwmError>(interim)))
            &&& walk(first + second, replies, result) == ({
                let rest = walk(second, replies.skip(first.len() as int), result);
                (first + rest.0, rest.1)
            })
        },
{
    let k = successes(replies) as int;
    let n = first.len() as int;
    lemma_successes(replies);
    if k < n {
        assert((first + second).take(k + 1) =~= first.take(k + 1));
    } else {
        lemma_successes_skip(replies, n);
        let left = replies.skip(n);
        if k - n >= second.len() {
        } else {
            assert((first + second).take(k + 1) =~= first + second.take(k - n + 1));
            if k < replies.len() {
                assert(left[k - n] == replies[k]);
            }
        }
    }
}

} // verus!
