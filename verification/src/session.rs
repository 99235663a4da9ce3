//! Whole sessions: what the handler does over a sequence of events.

use vstd::prelude::*;
use crate::connection::{next, start, step, Action, ActionView, Event, EventView, Phase};
use crate::message::Frame;

verus! {

/// The phase a freshly opened handler ends in, and the actions it asks for,
/// when it is fed `events` in order. The `i`-th action answers the `i`-th
/// event.
pub open spec fn run(events: Seq<EventView>) -> (Phase, Seq<ActionView>)
    decreases events.len(),
{
    if events.len() == 0 {
        (Phase::Receiving, Seq::empty())
    } else {
        let before = run(events.drop_last());
        let (phase, action) = next(before.0, events.last());
        (phase, before.1.push(action))
    }
}

/// The views of a sequence of events.
pub open spec fn event_views(events: Seq<Event>) -> Seq<EventView> {
    events.map_values(|event: Event| event@)
}

/// The views of a sequence of actions.
pub open spec fn action_views(actions: Seq<Action>) -> Seq<ActionView> {
    actions.map_values(|action: Action| action@)
}

/// Feeds a recorded sequence of events to a freshly opened handler and
/// returns the phase it ends in together with the action it asked for after
/// each event.
pub fn replay(events: Vec<Event>) -> (r: (Phase, Vec<Action>))
    ensures
        r.0 == run(event_views(events@)).0,
        action_views(r.1@) == run(event_views(events@)).1,
        r.1@.len() == events@.len(),
{
    let ghost script = event_views(events@);
    let (mut phase, _) = start();
    let mut actions: Vec<Action> = Vec::new();
    for event in it: events
        invariant
            event_views(it.seq()) == script,
            phase == run(script.take(it.index())).0,
            action_views(actions@) == run(script.take(it.index())).1,
    {
        proof {
            let done = it.index();
            assert(script.take(done + 1).drop_last() == script.take(done));
            assert(script.take(done + 1).last() == event@);
        }
        let (after, action) = step(phase, event);
        proof {
            assert(action_views(actions@.push(action)) == action_views(actions@).push(action@));
        }
        phase = after;
        actions.push(action);
    }
    proof {
        assert(script.take(script.len() as int) == script);
        lemma_run_len(script);
    }
    (phase, actions)
}

/// The messages that arrive in `events`, in order of arrival.
pub open spec fn incoming(events: Seq<EventView>) -> Seq<Frame>
    decreases events.len(),
{
    if events.len() == 0 {
        Seq::empty()
    } else {
        let before = incoming(events.drop_last());
        match events.last() {
            EventView::Message(frame) => before.push(frame),
            _ => before,
        }
    }
}

/// The messages that `actions` ask to be sent, in order.
pub open spec fn outgoing(actions: Seq<ActionView>) -> Seq<Frame>
    decreases actions.len(),
{
    if actions.len() == 0 {
        Seq::empty()
    } else {
        let before = outgoing(actions.drop_last());
        match actions.last() {
            ActionView::Send(frame) => before.push(frame),
            _ => before,
        }
    }
}

/// The messages a freshly opened handler sends back to its peer over
/// `events`, in order.
pub open spec fn echoes(events: Seq<EventView>) -> Seq<Frame> {
    outgoing(run(events).1)
}

/// One more event extends a session by one transition.
pub proof fn lemma_run_push(history: Seq<EventView>, event: EventView)
    ensures
        run(history.push(event)).0 == next(run(history).0, event).0,
        run(history.push(event)).1 == run(history).1.push(next(run(history).0, event).1),
        incoming(history.push(event)) == (match event {
            EventView::Message(frame) => incoming(history).push(frame),
            _ => incoming(history),
        }),
        echoes(history.push(event)) == (match next(run(history).0, event).1 {
            ActionView::Send(frame) => echoes(history).push(frame),
            _ => echoes(history),
        }),
{
    assert(history.push(event).drop_last() == history);
    let action = next(run(history).0, event).1;
    assert(run(history).1.push(action).drop_last() == run(history).1);
}

/// A session answers every event with exactly one action.
pub proof fn lemma_run_len(events: Seq<EventView>)
    ensures
        run(events).1.len() == events.len(),
    decreases events.len(),
{
    if events.len() > 0 {
        lemma_run_len(events.drop_last());
    }
}

} // verus!
