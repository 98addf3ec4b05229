//! The signal-forwarding loop of the background listening task.
//!
//! Once the subscriptions are in place, the task repeatedly reads the next
//! bus message and invokes the application callback once per message, with
//! a success outcome and no payload. When the stream ends, or a read fails,
//! the task stops silently: no further invocations, no error callback.

use vstd::prelude::*;

verus! {

/// One observation of the read loop: either the next matched signal
/// arrived, or the stream is over (end of stream and read error are not
/// distinguished).
#[derive(Clone, Copy, Debug, PartialEq, Eq, Structural)]
pub enum StreamEvent {
    Signal,
    Closed,
}

/// What the loop does with one observation: invoke the callback once, or
/// stop for good.
#[derive(Clone, Copy, Debug, PartialEq, Eq, Structural)]
pub enum ForwardAction {
    Deliver,
    Stop,
}

/// The loop's decision on one observation, at the specification level.
pub open spec fn spec_forward_step(event: StreamEvent) -> ForwardAction {
    match event {
        StreamEvent::Signal => ForwardAction::Deliver,
        StreamEvent::Closed => ForwardAction::Stop,
    }
}

/// The loop's decision on one observation: a signal is delivered, whatever
/// its origin or payload; a closed stream stops the task.
pub fn forward_step(event: &StreamEvent) -> (action: ForwardAction)
    ensures
        action == spec_forward_step(*event),
{
    match event {
        StreamEvent::Signal => ForwardAction::Deliver,
        StreamEvent::Closed => ForwardAction::Stop,
    }
}

/// How many callback invocations the loop issues in total when the bus
/// would present the observations `events` in order: one per step decided
/// `Deliver`, and nothing once a step decides `Stop`.
pub open spec fn invocation_count(events: Seq<StreamEvent>) -> nat
    decreases events.len(),
{
    if events.len() == 0 {
        0
    } else {
        match spec_forward_step(events[0]) {
            ForwardAction::Deliver => 1 + invocation_count(events.drop_first()),
            ForwardAction::Stop => 0,
        }
    }
}

/// The forwarding loop over a recorded observation sequence, returning how
/// often the callback was invoked.
pub fn run_forward(events: &Vec<StreamEvent>) -> (count: usize)
    ensures
        count == invocation_count(events@),
{
    let mut count: usize = 0;
    let n: usize = events.len();
    assert(events@.skip(0) =~= events@);
    loop
        invariant_except_break
            count <= n,
            n == events@.len(),
            invocation_count(events@) == count + invocation_count(events@.skip(count as int)),
        ensures
            count == invocation_count(events@),
        decreases n - count,
    {
        if count == n {
            assert(events@.skip(count as int) =~= Seq::<StreamEvent>::empty());
            break ;
        }
        assert(events@.skip(count as int)[0] == events@[count as int]);
        match forward_step(&events[count]) {
            ForwardAction::Deliver => {
                assert(events@.skip(count as int).drop_first() =~= events@.skip(count as int + 1));
                count = count + 1;
            },
            ForwardAction::Stop => {
                break ;
            },
        }
    }
    count
}

/// Law: every signal that arrives before the stream ends produces exactly
/// one invocation, in arrival order: while the first `k` observations are
/// all signals, exactly `k` invocations have been issued, and the next
/// signal adds exactly one more.
pub proof fn lemma_one_invocation_per_signal(events: Seq<StreamEvent>, k: int)
    requires
        0 <= k <= events.len(),
        forall|i: int| 0 <= i < k ==> events[i] is Signal,
    ensures
        invocation_count(events.take(k)) == k,
        k < events.len() && events[k] is Signal ==> invocation_count(events.take(k + 1))
            == invocation_count(events.take(k)) + 1,
{
    lemma_count_of_all_signals(events.take(k));
    if k < events.len() && events[k] is Signal {
        lemma_count_of_all_signals(events.take(k + 1));
    }
}

/// Law: once the stream ends, the loop stops for good. If the first `n`
/// observations are signals and observation `n` closes the stream, the
/// whole run invokes the callback exactly `n` times, whatever follows: no
/// further invocation and no error callback exists to be issued.
pub proof fn lemma_no_invocation_after_stream_end(events: Seq<StreamEvent>, n: int)
    requires
        0 <= n < events.len(),
        forall|i: int| 0 <= i < n ==> events[i] is Signal,
        events[n] is Closed,
    ensures
        invocation_count(events) == n,
    decreases n,
{
    if n == 0 {
    } else {
        lemma_no_invocation_after_stream_end(events.drop_first(), n - 1);
    }
}

/// A sequence of signals alone is delivered in full: one invocation each.
proof fn lemma_count_of_all_signals(events: Seq<StreamEvent>)
    requires
        forall|i: int| 0 <= i < events.len() ==> events[i] is Signal,
    ensures
        invocation_count(events) == events.len(),
    decreases events.len(),
{
    if events.len() > 0 {
        lemma_count_of_all_signals(events.drop_first());
    }
}

} // verus!
