//! What the echo handler guarantees, proved for every session.

use vstd::prelude::*;
use crate::connection::{ActionView, EventView, Phase};
use crate::message::Frame;
use crate::session::{echoes, incoming, lemma_run_len, lemma_run_push, run};

verus! {

/// The events of an orderly exchange: each of `frames` arrives in turn, and
/// the send that answers it completes before the next one arrives.
pub open spec fn exchange(frames: Seq<Frame>) -> Seq<EventView>
    decreases frames.len(),
{
    if frames.len() == 0 {
        Seq::empty()
    } else {
        exchange(frames.drop_last()).push(EventView::Message(frames.last())).push(EventView::Sent)
    }
}

/// The events after which the handler gives the connection up whatever its
/// phase: the peer closing, and a failure of the transport.
pub open spec fn ends_connection(event: EventView) -> bool {
    event is CloseFrame || event is EndOfStream || event is ReceiveFailed || event is SendFailed
}

/// A message that arrives while the handler waits for one is sent back
/// exactly as it came, same kind and same payload, whether text, binary or
/// control: it is the very next thing the handler does, and the next thing
/// the peer gets.
pub proof fn lemma_message_is_echoed(history: Seq<EventView>, frame: Frame)
    requires
        run(history).0 == Phase::Receiving,
    ensures
        run(history.push(EventView::Message(frame))).0 == Phase::Echoing,
        run(history.push(EventView::Message(frame))).1.last() == ActionView::Send(frame),
        echoes(history.push(EventView::Message(frame))) == echoes(history).push(frame),
{
    lemma_run_push(history, EventView::Message(frame));
}

/// As long as the connection is open, the handler has sent back every message
/// it received, each once and in the order of arrival. After it has closed,
/// what it sent is still an initial part of what arrived: it never invents,
/// repeats or reorders a message.
pub proof fn lemma_echoes_follow_arrivals(events: Seq<EventView>)
    ensures
        run(events).0.is_open() ==> echoes(events) == incoming(events),
        echoes(events).is_prefix_of(incoming(events)),
    decreases events.len(),
{
    if events.len() > 0 {
        let history = events.drop_last();
        lemma_echoes_follow_arrivals(history);
        lemma_run_push(history, events.last());
        assert(history.push(events.last()) == events);
    }
}

/// An orderly exchange of any number of messages, begun while the handler
/// waits for one, leaves the connection open and sends back exactly those
/// messages, as many as arrived and in the same order.
pub proof fn lemma_exchange_is_echoed(history: Seq<EventView>, frames: Seq<Frame>)
    requires
        run(history).0 == Phase::Receiving,
    ensures
        run(history + exchange(frames)).0 == Phase::Receiving,
        incoming(history + exchange(frames)) == incoming(history) + frames,
        echoes(history + exchange(frames)) == echoes(history) + frames,
    decreases frames.len(),
{
    if frames.len() == 0 {
        assert(history + exchange(frames) == history);
        assert(echoes(history) + frames == echoes(history));
        assert(incoming(history) + frames == incoming(history));
    } else {
        let earlier = frames.drop_last();
        let arrival = EventView::Message(frames.last());
        let so_far = history + exchange(earlier);
        lemma_exchange_is_echoed(history, earlier);
        lemma_run_push(so_far, arrival);
        lemma_run_push(so_far.push(arrival), EventView::Sent);
        assert(history + exchange(frames) == so_far.push(arrival).push(EventView::Sent));
        assert(echoes(history) + frames == (echoes(history) + earlier).push(frames.last()));
        assert(incoming(history) + frames == (incoming(history) + earlier).push(frames.last()));
    }
}

/// The actions that answer an initial part of a session do not depend on
/// what comes later.
pub proof fn lemma_prefix_actions(history: Seq<EventView>, later: Seq<EventView>)
    ensures
        run(history).1.is_prefix_of(run(history + later).1),
    decreases later.len(),
{
    if later.len() == 0 {
        assert(history + later == history);
    } else {
        let so_far = history + later.drop_last();
        lemma_prefix_actions(history, later.drop_last());
        lemma_run_push(so_far, later.last());
        assert(history + later == so_far.push(later.last()));
    }
}

/// Once the handler has closed the connection it stays closed: whatever is
/// reported afterwards, it asks only for release and sends nothing more.
pub proof fn lemma_closed_is_final(history: Seq<EventView>, later: Seq<EventView>)
    requires
        run(history).0 == Phase::Closed,
    ensures
        run(history + later).0 == Phase::Closed,
        echoes(history + later) == echoes(history),
        forall|i: int|
            history.len() <= i < history.len() + later.len()
                ==> #[trigger] run(history + later).1[i] == ActionView::Release,
    decreases later.len(),
{
    if later.len() == 0 {
        assert(history + later == history);
    } else {
        let so_far = history + later.drop_last();
        lemma_closed_is_final(history, later.drop_last());
        lemma_run_push(so_far, later.last());
        lemma_run_len(so_far);
        assert(history + later == so_far.push(later.last()));
    }
}

/// When the peer closes its side, or the transport fails, the handler
/// terminates at once: it asks for release, and nothing that is reported
/// afterwards makes it send anything.
pub proof fn lemma_disconnect_terminates(
    history: Seq<EventView>,
    closing: EventView,
    later: Seq<EventView>,
)
    requires
        ends_connection(closing),
    ensures
        run(history.push(closing)).0 == Phase::Closed,
        run(history.push(closing)).1.last() == ActionView::Release,
        run(history.push(closing) + later).0 == Phase::Closed,
        echoes(history.push(closing) + later) == echoes(history),
        forall|i: int|
            history.len() <= i <= history.len() + later.len()
                ==> #[trigger] run(history.push(closing) + later).1[i] == ActionView::Release,
{
    lemma_run_push(history, closing);
    lemma_run_len(history);
    lemma_closed_is_final(history.push(closing), later);
    lemma_prefix_actions(history.push(closing), later);
}

/// The handler echoes one message at a time. After it has asked for a send
/// it waits for the report of that send, and what it asks for next is never
/// another send: it is the next message if the send is reported complete, and
/// the release of the connection otherwise.
pub proof fn lemma_one_echo_at_a_time(history: Seq<EventView>, event: EventView)
    requires
        history.len() > 0,
        run(history).1.last() is Send,
    ensures
        run(history).0 == Phase::Echoing,
        run(history.push(event)).1.last() == (if event is Sent {
            ActionView::Receive
        } else {
            ActionView::Release
        }),
{
    lemma_run_push(history.drop_last(), history.last());
    assert(history.drop_last().push(history.last()) == history);
    lemma_run_push(history, event);
}

/// Connections do not leak into one another: a message that arrived only on
/// another connection is never sent on this one.
pub proof fn lemma_no_cross_talk(ours: Seq<EventView>, theirs: Seq<EventView>, frame: Frame)
    requires
        incoming(theirs).contains(frame),
        !incoming(ours).contains(frame),
    ensures
        !echoes(ours).contains(frame),
{
    lemma_echoes_follow_arrivals(ours);
    if echoes(ours).contains(frame) {
        let i = choose|i: int| 0 <= i < echoes(ours).len() && echoes(ours)[i] == frame;
        assert(incoming(ours)[i] == frame);
    }
}

} // verus!
