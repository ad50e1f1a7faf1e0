//! Keeping the stream of assigned actions open.
use vstd::prelude::*;

use crate::duration::Duration;
use crate::error::{ErrorView, HatchetError};
use crate::text::{decimal_text, joined};

verus! {

/// How long to wait before reopening the action stream after it first drops, in
/// milliseconds. Doubles with each consecutive failure, up to [`MAX_RECONNECT_BACKOFF_SECS`].
pub const INITIAL_RECONNECT_BACKOFF_MILLIS: u64 = 500;

/// The longest to wait between attempts to reopen the action stream, in seconds.
pub const MAX_RECONNECT_BACKOFF_SECS: u64 = 30;

/// How many times the stream may fail to carry a single action, one attempt after another,
/// before the listener gives up and reports the worker unable to receive work.
pub const MAX_RECONNECT_ATTEMPTS: usize = 10;

/// The wait after the stream first drops, in nanoseconds.
pub open spec fn initial_wait() -> nat {
    (INITIAL_RECONNECT_BACKOFF_MILLIS as nat) * 1_000_000
}

/// The longest wait, in nanoseconds.
pub open spec fn longest_wait() -> nat {
    (MAX_RECONNECT_BACKOFF_SECS as nat) * 1_000_000_000
}

/// The wait before the next attempt, in nanoseconds: the initial half second doubled once for
/// every consecutive failure after the first, but never more than the longest wait.
pub open spec fn backoff_nanos(consecutive_failures: nat) -> nat {
    let doublings = if consecutive_failures == 0 {
        0nat
    } else {
        (consecutive_failures - 1) as nat
    };
    let doubled = 500_000_000 * vstd::arithmetic::power2::pow2(doublings);
    if doubled <= longest_wait() {
        doubled
    } else {
        longest_wait()
    }
}

/// From the seventh failure on, the longest wait has taken over.
proof fn lemma_backoff_levels_off(consecutive_failures: nat)
    requires
        consecutive_failures > 6,
    ensures
        backoff_nanos(consecutive_failures) == longest_wait(),
{
    vstd::arithmetic::power2::lemma2_to64();
    if consecutive_failures > 7 {
        vstd::arithmetic::power2::lemma_pow2_strictly_increases(
            6,
            (consecutive_failures - 1) as nat,
        );
    }
}

/// How long to wait before the next attempt to reopen the stream, doubling with each
/// consecutive failure and levelling off at the longest wait.
pub fn reconnect_backoff(consecutive_failures: usize) -> (wait: Duration)
    ensures
        wait@ == backoff_nanos(consecutive_failures as nat),
{
    // Sixteen doublings are far past the point where the longest wait takes over, and keep
    // the shift in range.
    let further: usize = consecutive_failures.saturating_sub(1);
    let doublings: u32 = if further < 16 {
        further as u32
    } else {
        16
    };
    proof {
        vstd::arithmetic::power2::lemma2_to64();
        if doublings < 16 {
            vstd::arithmetic::power2::lemma_pow2_strictly_increases(doublings as nat, 16);
        } else {
            lemma_backoff_levels_off(consecutive_failures as nat);
        }
        vstd::bits::lemma_u32_shl_is_mul(1, doublings);
    }
    let factor: u32 = 1u32 << doublings;
    Duration::from_millis(INITIAL_RECONNECT_BACKOFF_MILLIS).saturating_mul(factor).min(
        Duration::from_secs(MAX_RECONNECT_BACKOFF_SECS),
    )
}

/// The wait starts at the initial wait, whether nothing has failed yet or one attempt has.
pub proof fn law_backoff_starts_at_the_initial_wait()
    ensures
        backoff_nanos(0) == initial_wait(),
        backoff_nanos(1) == initial_wait(),
{
    vstd::arithmetic::power2::lemma2_to64();
}

/// Each further failure doubles the wait, until the longest wait takes over.
pub proof fn law_backoff_doubles_up_to_the_longest_wait(consecutive_failures: nat)
    requires
        consecutive_failures > 0,
    ensures
        backoff_nanos(consecutive_failures + 1) == (if 2 * backoff_nanos(consecutive_failures)
            <= longest_wait() {
            2 * backoff_nanos(consecutive_failures)
        } else {
            longest_wait()
        }),
{
    vstd::arithmetic::power2::lemma_pow2_unfold(consecutive_failures);
}

/// The wait is never shorter than the initial wait and never longer than the longest one.
pub proof fn law_backoff_is_bounded(consecutive_failures: nat)
    ensures
        initial_wait() <= backoff_nanos(consecutive_failures),
        backoff_nanos(consecutive_failures) <= longest_wait(),
{
    let doublings = if consecutive_failures == 0 {
        0nat
    } else {
        (consecutive_failures - 1) as nat
    };
    vstd::arithmetic::power2::lemma_pow2_pos(doublings);
}

/// More consecutive failures never shorten the wait.
pub proof fn law_backoff_never_shrinks(fewer: nat, more: nat)
    requires
        fewer <= more,
    ensures
        backoff_nanos(fewer) <= backoff_nanos(more),
    decreases more - fewer,
{
    if fewer < more {
        law_backoff_starts_at_the_initial_wait();
        law_backoff_is_bounded(fewer);
        law_backoff_is_bounded((fewer + 1) as nat);
        if fewer > 0 {
            law_backoff_doubles_up_to_the_longest_wait(fewer);
        }
        law_backoff_never_shrinks((fewer + 1) as nat, more);
    }
}

/// How one opening of the stream ended: with the number of actions that it carried, or with
/// an error.
pub type StreamOutcome = Result<u64, HatchetError>;

/// The model of a [`StreamOutcome`].
pub open spec fn outcome_view(outcome: StreamOutcome) -> Result<u64, ErrorView> {
    match outcome {
        Ok(actions_received) => Ok(actions_received),
        Err(e) => Err(e@),
    }
}

/// The stream carried at least one action before it ended.
pub open spec fn carried(outcome: Result<u64, ErrorView>) -> bool {
    outcome matches Ok(actions_received) && actions_received > 0
}

/// The dispatcher can no longer be sent to.
pub open spec fn dispatcher_gone(outcome: Result<u64, ErrorView>) -> bool {
    outcome matches Err(ErrorView::DispatchError(_))
}

/// What the listener says when it gives up.
pub open spec fn gave_up() -> ErrorView {
    ErrorView::InternalError(
        "action stream could not be reopened after "@ + crate::text::decimal(
            MAX_RECONNECT_ATTEMPTS as nat,
        ) + " attempts"@,
    )
}

/// What becomes of the count of consecutive failures when a stream ends, or the error with
/// which the listener stops.
pub open spec fn after_outcome(failures: nat, outcome: Result<u64, ErrorView>) -> Result<
    nat,
    ErrorView,
> {
    if dispatcher_gone(outcome) {
        Err(outcome->Err_0)
    } else if carried(outcome) {
        Ok(0)
    } else if failures + 1 >= MAX_RECONNECT_ATTEMPTS {
        Err(gave_up())
    } else {
        Ok(failures + 1)
    }
}

/// Decides what to do each time the action stream ends.
///
/// The engine ends this stream as a matter of course, so a stream ending is not by itself a
/// reason to stop working. Its view is the number of times in a row that the stream has
/// ended without carrying anything.
pub struct ActionListener {
    consecutive_failures: usize,
}

impl View for ActionListener {
    type V = nat;

    closed spec fn view(&self) -> nat {
        self.consecutive_failures as nat
    }
}

impl ActionListener {
    #[verifier::type_invariant]
    spec fn wf(self) -> bool {
        self.consecutive_failures < MAX_RECONNECT_ATTEMPTS
    }

    /// A listener whose stream has not failed yet.
    pub fn new() -> (listener: ActionListener)
        ensures
            listener@ == 0,
    {
        ActionListener { consecutive_failures: 0 }
    }

    /// Takes note of how a stream ended: gives the listener as it goes on and the wait before
    /// the stream is to be reopened, or the error with which it stops.
    pub fn after_stream(self, outcome: StreamOutcome) -> (res: Result<
        (ActionListener, Duration),
        HatchetError,
    >)
        ensures
            match res {
                Ok((listener, wait)) => after_outcome(self@, outcome_view(outcome)) == Ok::<
                    nat,
                    ErrorView,
                >(listener@) && wait@ == backoff_nanos(listener@),
                Err(e) => after_outcome(self@, outcome_view(outcome)) == Err::<nat, ErrorView>(e@),
            },
    {
        proof {
            use_type_invariant(&self);
        }
        let consecutive_failures: usize = match outcome {
            Ok(actions_received) => {
                if actions_received > 0 {
                    // The stream did its job before it ended, so whatever ended it was not a
                    // standing fault.
                    0
                } else {
                    self.consecutive_failures + 1
                }
            },
            Err(HatchetError::DispatchError(message)) => {
                return Err(HatchetError::DispatchError(message));
            },
            Err(_) => self.consecutive_failures + 1,
        };
        if consecutive_failures >= MAX_RECONNECT_ATTEMPTS {
            let attempts: String = decimal_text(MAX_RECONNECT_ATTEMPTS as u64);
            let message = joined("action stream could not be reopened after ", attempts.as_str());
            return Err(HatchetError::InternalError(message.concat(" attempts")));
        }
        Ok((ActionListener { consecutive_failures }, reconnect_backoff(consecutive_failures)))
    }
}

/// Where a listener stands after a series of streams, or `None` once it has stopped.
pub open spec fn after_outcomes(failures: nat, outcomes: Seq<Result<u64, ErrorView>>) -> Option<nat>
    decreases outcomes.len(),
{
    if outcomes.len() == 0 {
        Some(failures)
    } else {
        match after_outcomes(failures, outcomes.drop_last()) {
            Some(before) => match after_outcome(before, outcomes.last()) {
                Ok(after) => Some(after),
                Err(_) => None,
            },
            None => None,
        }
    }
}

/// How many of the last streams in a row carried nothing.
pub open spec fn failing_tail(outcomes: Seq<Result<u64, ErrorView>>) -> nat
    decreases outcomes.len(),
{
    if outcomes.len() == 0 || carried(outcomes.last()) {
        0
    } else {
        failing_tail(outcomes.drop_last()) + 1
    }
}

/// Somewhere in the series, as many streams in a row as the budget allows carried nothing.
pub open spec fn budget_exhausted(outcomes: Seq<Result<u64, ErrorView>>) -> bool {
    exists|end: int|
        0 <= end <= outcomes.len() && #[trigger] failing_tail(outcomes.take(end))
            >= MAX_RECONNECT_ATTEMPTS
}

/// A listener stops only once the stream has failed [`MAX_RECONNECT_ATTEMPTS`] times in a row
/// without carrying anything, or once the dispatcher can no longer be sent to; and then it
/// does stop. Until it stops, it counts exactly the failures since a stream last carried
/// something.
pub proof fn law_listener_stops_exactly_when_the_budget_is_exhausted(
    outcomes: Seq<Result<u64, ErrorView>>,
)
    ensures
        after_outcomes(0, outcomes) is None <==> (budget_exhausted(outcomes) || exists|i: int|
            0 <= i < outcomes.len() && dispatcher_gone(#[trigger] outcomes[i])),
        after_outcomes(0, outcomes) matches Some(failures) ==> failures == failing_tail(outcomes)
            && failures < MAX_RECONNECT_ATTEMPTS,
    decreases outcomes.len(),
{
    let gone = exists|i: int| 0 <= i < outcomes.len() && dispatcher_gone(#[trigger] outcomes[i]);
    if outcomes.len() == 0 {
        assert forall|end: int| 0 <= end <= outcomes.len() implies #[trigger] failing_tail(
            outcomes.take(end),
        ) == 0 by {}
    } else {
        let earlier = outcomes.drop_last();
        law_listener_stops_exactly_when_the_budget_is_exhausted(earlier);
        assert(outcomes.take(outcomes.len() as int) =~= outcomes);
        assert forall|end: int| 0 <= end <= earlier.len() implies outcomes.take(end)
            == #[trigger] earlier.take(end) by {
            assert(outcomes.take(end) =~= earlier.take(end));
        }
        if budget_exhausted(earlier) {
            let end = choose|end: int|
                0 <= end <= earlier.len() && #[trigger] failing_tail(earlier.take(end))
                    >= MAX_RECONNECT_ATTEMPTS;
            assert(outcomes.take(end) == earlier.take(end));
            assert(failing_tail(outcomes.take(end)) >= MAX_RECONNECT_ATTEMPTS);
        }
        if exists|i: int| 0 <= i < earlier.len() && dispatcher_gone(#[trigger] earlier[i]) {
            let i = choose|i: int| 0 <= i < earlier.len() && dispatcher_gone(#[trigger] earlier[i]);
            assert(dispatcher_gone(outcomes[i]));
        }
        if after_outcomes(0, earlier) is Some {
            let last = outcomes.last();
            assert(outcomes[outcomes.len() - 1] == last);
            if after_outcomes(0, outcomes) is None && !dispatcher_gone(last) {
                assert(failing_tail(outcomes.take(outcomes.len() as int))
                    >= MAX_RECONNECT_ATTEMPTS);
            }
            if after_outcomes(0, outcomes) is Some {
                assert forall|end: int| 0 <= end <= outcomes.len() implies #[trigger] failing_tail(
                    outcomes.take(end),
                ) < MAX_RECONNECT_ATTEMPTS by {
                    if end <= earlier.len() {
                        assert(outcomes.take(end) == earlier.take(end));
                    }
                }
                assert forall|i: int| 0 <= i < outcomes.len() implies !dispatcher_gone(
                    #[trigger] outcomes[i],
                ) by {
                    if i < earlier.len() {
                        assert(earlier[i] == outcomes[i]);
                    }
                }
            }
        }
    }
}

/// A worker whose streams each carry something before they end goes on listening, however
/// often they end.
pub proof fn law_routine_reconnects_never_exhaust_the_budget(
    outcomes: Seq<Result<u64, ErrorView>>,
)
    requires
        forall|i: int| 0 <= i < outcomes.len() ==> carried(#[trigger] outcomes[i]),
    ensures
        after_outcomes(0, outcomes) == Some(0nat),
    decreases outcomes.len(),
{
    if outcomes.len() > 0 {
        let earlier = outcomes.drop_last();
        assert forall|i: int| 0 <= i < earlier.len() implies carried(#[trigger] earlier[i]) by {
            assert(earlier[i] == outcomes[i]);
        }
        law_routine_reconnects_never_exhaust_the_budget(earlier);
        assert(carried(outcomes[outcomes.len() - 1]));
    }
}

/// What the open stream gives next.
pub enum StreamEvent {
    /// An action came, and was handed on to the dispatcher or could not be.
    Action { forwarded: Result<(), String> },
    /// The engine closed the stream.
    Ended,
    /// The stream broke, with the engine's message.
    Failed(String),
}

/// How many actions one opening of the stream has carried so far.
///
/// Its view is that number.
pub struct StreamProgress {
    actions_received: u64,
}

impl View for StreamProgress {
    type V = nat;

    closed spec fn view(&self) -> nat {
        self.actions_received as nat
    }
}

/// How an opening of the stream that has carried `received` actions ends upon an event, or
/// `None` where it goes on.
pub open spec fn stream_end(received: nat, event: StreamEvent) -> Option<Result<nat, ErrorView>> {
    match event {
        StreamEvent::Action { forwarded: Ok(_) } => None,
        StreamEvent::Action { forwarded: Err(message) } => Some(
            Err(ErrorView::DispatchError(message@)),
        ),
        StreamEvent::Ended => Some(Ok(received)),
        StreamEvent::Failed(message) => if received > 0 {
            Some(Ok(received))
        } else {
            Some(Err(ErrorView::GrpcErrorStatus(message@)))
        },
    }
}

impl StreamProgress {
    /// A stream that has just been opened.
    pub fn new() -> (progress: StreamProgress)
        ensures
            progress@ == 0,
    {
        StreamProgress { actions_received: 0 }
    }

    /// How many actions the stream has carried.
    pub fn actions_received(&self) -> (received: u64)
        ensures
            received == self@,
    {
        self.actions_received
    }

    /// Takes note of an event: gives how the stream ended, or `None` where it goes on. A
    /// stream that failed part way through still carried what it carried, so the count is
    /// given rather than lost with the error.
    pub fn observe(&mut self, event: StreamEvent) -> (end: Option<StreamOutcome>)
        requires
            event is Action ==> old(self)@ < u64::MAX,
        ensures
            final(self)@ == (if event is Action {
                old(self)@ + 1
            } else {
                old(self)@
            }),
            match end {
                None => stream_end(old(self)@, event) is None,
                Some(Ok(received)) => stream_end(old(self)@, event) == Some(
                    Ok::<nat, ErrorView>(received as nat),
                ),
                Some(Err(e)) => stream_end(old(self)@, event) == Some(Err::<nat, ErrorView>(e@)),
            },
    {
        match event {
            StreamEvent::Action { forwarded } => {
                self.actions_received = self.actions_received + 1;
                match forwarded {
                    Ok(_) => None,
                    Err(message) => Some(Err(HatchetError::DispatchError(message))),
                }
            },
            StreamEvent::Ended => Some(Ok(self.actions_received)),
            StreamEvent::Failed(message) => {
                if self.actions_received > 0 {
                    Some(Ok(self.actions_received))
                } else {
                    Some(Err(HatchetError::GrpcErrorStatus(message)))
                }
            },
        }
    }
}

/// How many actions a series of events brought.
pub open spec fn received(events: Seq<StreamEvent>) -> nat
    decreases events.len(),
{
    if events.len() == 0 {
        0
    } else {
        received(events.drop_last()) + if events.last() is Action {
            1nat
        } else {
            0nat
        }
    }
}

/// A stream that broke after it had carried something is no failure: what it carried is
/// counted, and the count of consecutive failures starts again.
pub proof fn law_a_stream_that_breaks_part_way_is_no_failure(
    events: Seq<StreamEvent>,
    message: String,
    failures: nat,
)
    requires
        0 < received(events) <= u64::MAX,
    ensures
        stream_end(received(events), StreamEvent::Failed(message)) == Some(
            Ok::<nat, ErrorView>(received(events)),
        ),
        after_outcome(failures, Ok(received(events) as u64)) == Ok::<nat, ErrorView>(0),
{
}

/// The first wait is half a second, the longest is half a minute, and the stream may fail ten
/// times in a row.
pub proof fn law_limits_of_reconnecting()
    ensures
        initial_wait() == 500_000_000,
        longest_wait() == 30_000_000_000,
        MAX_RECONNECT_ATTEMPTS == 10,
{
}

/// The count of consecutive failures starts again after a stream that carried something, and
/// grows by one with every other end of a stream; the tenth failure in a row stops the listener
/// with a word on that. A dispatcher that is gone stops it at once, with its own error.
pub proof fn law_what_the_end_of_a_stream_leads_to(
    failures: nat,
    received: u64,
    error: ErrorView,
    message: Seq<char>,
)
    ensures
        received > 0 ==> after_outcome(failures, Ok(received)) == Ok::<nat, ErrorView>(0),
        failures < 9 ==> after_outcome(failures, Ok(0)) == Ok::<nat, ErrorView>(failures + 1),
        failures < 9 && error !is DispatchError ==> after_outcome(failures, Err(error)) == Ok::<
            nat,
            ErrorView,
        >(failures + 1),
        failures >= 9 ==> after_outcome(failures, Ok(0)) == Err::<nat, ErrorView>(
            ErrorView::InternalError("action stream could not be reopened after 10 attempts"@),
        ),
        failures >= 9 && error !is DispatchError ==> after_outcome(failures, Err(error)) == Err::<
            nat,
            ErrorView,
        >(ErrorView::InternalError("action stream could not be reopened after 10 attempts"@)),
        after_outcome(failures, Err(ErrorView::DispatchError(message))) == Err::<nat, ErrorView>(
            ErrorView::DispatchError(message),
        ),
{
    reveal_strlit("action stream could not be reopened after ");
    reveal_strlit(" attempts");
    reveal_strlit("action stream could not be reopened after 10 attempts");
    reveal_with_fuel(crate::text::decimal, 3);
    crate::text::law_digits_have_their_usual_characters(1);
    crate::text::law_digits_have_their_usual_characters(0);
    assert(crate::text::decimal(10) =~= seq!['1', '0']);
    assert("action stream could not be reopened after "@ + crate::text::decimal(10) + " attempts"@
        =~= "action stream could not be reopened after 10 attempts"@);
}

/// A stream carried something exactly if it ended with a count above zero, and the dispatcher is
/// gone exactly if the stream ended with the error of handing an action to it.
pub proof fn law_how_the_end_of_a_stream_is_read(outcome: StreamOutcome)
    ensures
        outcome matches Ok(received) ==> outcome_view(outcome) == Ok::<u64, ErrorView>(received)
            && (carried(outcome_view(outcome)) <==> received > 0) && !dispatcher_gone(
            outcome_view(outcome),
        ),
        outcome matches Err(e) ==> outcome_view(outcome) == Err::<u64, ErrorView>(e@) && !carried(
            outcome_view(outcome),
        ) && (dispatcher_gone(outcome_view(outcome)) <==> e is DispatchError),
{
}

/// A stream goes on after an action that was handed on. It ends with the error where one could
/// not be, with its count where the engine closed it or it broke after it had carried something,
/// and with the engine's message where it broke before.
pub proof fn law_when_and_how_a_stream_ends(received: nat, message: String)
    ensures
        stream_end(received, StreamEvent::Action { forwarded: Ok(()) }) is None,
        stream_end(received, StreamEvent::Action { forwarded: Err(message) }) == Some(
            Err::<nat, ErrorView>(ErrorView::DispatchError(message@)),
        ),
        stream_end(received, StreamEvent::Ended) == Some(Ok::<nat, ErrorView>(received)),
        received > 0 ==> stream_end(received, StreamEvent::Failed(message)) == Some(
            Ok::<nat, ErrorView>(received),
        ),
        stream_end(0, StreamEvent::Failed(message)) == Some(
            Err::<nat, ErrorView>(ErrorView::GrpcErrorStatus(message@)),
        ),
{
}

/// The waits between attempts: half a second after the first failure, each further one twice as
/// long as the last until half a minute is reached, and never more than that.
pub proof fn law_waits_double_up_to_half_a_minute(
    failures: usize,
    wait: Duration,
    first: Duration,
    next: Duration,
)
    requires
        0 < failures < usize::MAX,
        call_ensures(reconnect_backoff, (1usize,), first),
        call_ensures(reconnect_backoff, (failures,), wait),
        call_ensures(reconnect_backoff, ((failures + 1) as usize,), next),
    ensures
        first@ == 500_000_000,
        500_000_000 <= wait@ <= 30_000_000_000,
        next@ == (if 2 * wait@ <= 30_000_000_000 {
            2 * wait@
        } else {
            30_000_000_000
        }),
{
    law_backoff_starts_at_the_initial_wait();
    law_backoff_is_bounded(failures as nat);
    law_backoff_doubles_up_to_the_longest_wait(failures as nat);
}

/// Every action that comes counts, and a stream that ends gives the count of those that came:
/// also where it breaks, once one has come.
pub proof fn law_a_stream_gives_its_count(
    before: &mut StreamProgress,
    after: &mut StreamProgress,
    message: String,
    went_on: Option<StreamOutcome>,
    end: Option<StreamOutcome>,
)
    requires
        call_ensures(
            StreamProgress::observe,
            (before, StreamEvent::Action { forwarded: Ok(()) }),
            went_on,
        ),
        *final(before) == *old(after),
        call_ensures(StreamProgress::observe, (after, StreamEvent::Failed(message)), end),
    ensures
        went_on is None,
        final(before)@ == old(before)@ + 1,
        end matches Some(Ok(received)) && received == old(before)@ + 1,
{
}

/// A listener goes on counting from zero, waiting half a second, after a stream that carried
/// something, however often streams failed before.
pub proof fn law_a_listener_starts_over_after_a_stream_that_carried_something(
    listener: ActionListener,
    received: u64,
    res: Result<(ActionListener, Duration), HatchetError>,
    message: String,
    gone: Result<(ActionListener, Duration), HatchetError>,
)
    requires
        received > 0,
        call_ensures(ActionListener::after_stream, (listener, Ok(received)), res),
        call_ensures(
            ActionListener::after_stream,
            (listener, Err(HatchetError::DispatchError(message))),
            gone,
        ),
    ensures
        res matches Ok((next, wait)) && next@ == 0 && wait@ == 500_000_000,
        gone matches Err(e) && e@ == ErrorView::DispatchError(message@),
{
    law_backoff_starts_at_the_initial_wait();
}

} // verus!
