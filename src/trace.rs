use vstd::prelude::*;

use crate::state::{Event, Followup, State};

verus! {

/// The state reached from `s` by taking `events` in order.
pub open spec fn replay(s: State, events: Seq<Event>) -> State
    decreases events.len(),
{
    if events.len() == 0 {
        s
    } else {
        replay(s, events.drop_last()).after(events.last())
    }
}

/// Every event of `events` finds counters that can take it.
pub open spec fn replayable(s: State, events: Seq<Event>) -> bool
    decreases events.len(),
{
    events.len() == 0 || (replayable(s, events.drop_last()) && replay(
        s,
        events.drop_last(),
    ).can_take(events.last()))
}

/// A prefix of a replayable trace is replayable.
pub proof fn replayable_prefix(s: State, events: Seq<Event>, k: int)
    requires
        replayable(s, events),
        0 <= k <= events.len(),
    ensures
        replayable(s, events.take(k)),
    decreases events.len(),
{
    if k < events.len() {
        assert(events.take(k) =~= events.drop_last().take(k));
        replayable_prefix(s, events.drop_last(), k);
    } else {
        assert(events.take(k) =~= events);
    }
}

/// One step never lowers the term nor the tick, and a step that changes the
/// role raises the tick.
pub proof fn step_is_monotone(s: State, e: Event)
    requires
        s.can_take(e),
    ensures
        s.after(e).term >= s.term,
        s.after(e).tick >= s.tick,
        s.after(e).role != s.role ==> s.after(e).tick > s.tick,
{
}

/// Along any trace the term never decreases.
pub proof fn term_never_decreases(s: State, events: Seq<Event>, i: int, j: int)
    requires
        replayable(s, events),
        0 <= i <= j <= events.len(),
    ensures
        replay(s, events.take(i)).term <= replay(s, events.take(j)).term,
    decreases j - i,
{
    if i < j {
        term_never_decreases(s, events, i, j - 1);
        let t = events.take(j);
        replayable_prefix(s, events, j);
        assert(t.drop_last() =~= events.take(j - 1));
        step_is_monotone(replay(s, t.drop_last()), t.last());
    }
}

/// Along any trace the tick never decreases.
pub proof fn tick_never_decreases(s: State, events: Seq<Event>, i: int, j: int)
    requires
        replayable(s, events),
        0 <= i <= j <= events.len(),
    ensures
        replay(s, events.take(i)).tick <= replay(s, events.take(j)).tick,
    decreases j - i,
{
    if i < j {
        tick_never_decreases(s, events, i, j - 1);
        let t = events.take(j);
        replayable_prefix(s, events, j);
        assert(t.drop_last() =~= events.take(j - 1));
        step_is_monotone(replay(s, t.drop_last()), t.last());
    }
}

/// Along any trace, two points at which the role differs are two points at
/// which the tick differs, the later one higher.
pub proof fn role_change_raises_tick(s: State, events: Seq<Event>, i: int, j: int)
    requires
        replayable(s, events),
        0 <= i <= j <= events.len(),
    ensures
        replay(s, events.take(i)).role != replay(s, events.take(j)).role ==> replay(
            s,
            events.take(i),
        ).tick < replay(s, events.take(j)).tick,
    decreases j - i,
{
    if i < j {
        role_change_raises_tick(s, events, i, j - 1);
        tick_never_decreases(s, events, i, j - 1);
        let t = events.take(j);
        replayable_prefix(s, events, j);
        assert(t.drop_last() =~= events.take(j - 1));
        step_is_monotone(replay(s, t.drop_last()), t.last());
    }
}

/// A watchdog whose captured tick is not the current one changes nothing and
/// leaves nothing to do.
pub proof fn stale_watchdog_is_inert(s: State, expected_tick: u64)
    requires
        expected_tick != s.tick,
    ensures
        s.after(Event::HeartbeatTimeout { expected_tick }) == s,
        s.after(Event::ElectionTimeout { expected_tick }) == s,
        s.followup(Event::HeartbeatTimeout { expected_tick }) == Followup::Nothing,
        s.followup(Event::ElectionTimeout { expected_tick }) == Followup::Nothing,
{
}

/// A node grants at most one vote per term: once it has granted a request of
/// term `t`, every later request of term `t` along the trace is denied and
/// changes nothing.
pub proof fn one_vote_per_term(s: State, events: Seq<Event>, i: int, j: int, t: u64)
    requires
        replayable(s, events),
        0 <= i < j < events.len(),
        events[i] == (Event::VoteRequest { term: t }),
        events[j] == (Event::VoteRequest { term: t }),
        replay(s, events.take(i)).term < t,
    ensures
        replay(s, events.take(j)).term >= t,
        replay(s, events.take(j)).after(events[j]) == replay(s, events.take(j)),
{
    let t1 = events.take(i + 1);
    replayable_prefix(s, events, i + 1);
    assert(t1.drop_last() =~= events.take(i));
    assert(t1.last() == events[i]);
    assert(replay(s, t1).term == t);
    term_never_decreases(s, events, i + 1, j);
}

} // verus!
