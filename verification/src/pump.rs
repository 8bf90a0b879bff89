use vstd::prelude::*;

use crate::dispatch::Delivery;
use crate::dispatch::Message;
use crate::dispatch::PumpState;
use crate::dispatch::VK_ESCAPE;
use crate::dispatch::quit_delivery;
use crate::dispatch::step_event;
use crate::dispatch::step_state;
use crate::dispatch::wnd_process;

verus! {

/// The events one dispatch contributes to the pump's output: one or none.
pub open spec fn opt_event_seq(e: Option<Delivery>) -> Seq<Delivery> {
    match e {
        Some(d) => seq![d],
        None => Seq::empty(),
    }
}

/// The state after a whole batch of messages has been dispatched in order.
pub open spec fn run_state(s: PumpState, ms: Seq<Message>) -> PumpState
    decreases ms.len(),
{
    if ms.len() == 0 {
        s
    } else {
        run_state(step_state(s, ms[0]), ms.subrange(1, ms.len() as int))
    }
}

/// The events a whole batch of messages delivers, in dispatch order.
pub open spec fn run_events(s: PumpState, ms: Seq<Message>) -> Seq<Delivery>
    decreases ms.len(),
{
    if ms.len() == 0 {
        Seq::empty()
    } else {
        opt_event_seq(step_event(s, ms[0])) + run_events(
            step_state(s, ms[0]),
            ms.subrange(1, ms.len() as int),
        )
    }
}

/// Dispatching a batch and then one more message is the batch followed by one
/// step from the state the batch reached.
pub proof fn lemma_run_snoc(s: PumpState, ms: Seq<Message>, m: Message)
    ensures
        run_state(s, ms.push(m)) == step_state(run_state(s, ms), m),
        run_events(s, ms.push(m)) == run_events(s, ms) + opt_event_seq(
            step_event(run_state(s, ms), m),
        ),
    decreases ms.len(),
{
    if ms.len() == 0 {
        reveal_with_fuel(run_state, 2);
        reveal_with_fuel(run_events, 2);
        assert(ms.push(m)[0] == m);
        assert(ms.push(m).subrange(1, ms.push(m).len() as int) =~= Seq::<Message>::empty());
        assert(run_events(s, ms.push(m)) =~= run_events(s, ms) + opt_event_seq(
            step_event(run_state(s, ms), m),
        ));
    } else {
        assert(ms.push(m)[0] == ms[0]);
        assert(ms.push(m).subrange(1, ms.push(m).len() as int) =~= ms.subrange(
            1,
            ms.len() as int,
        ).push(m));
        lemma_run_snoc(step_state(s, ms[0]), ms.subrange(1, ms.len() as int), m);
        assert(run_events(s, ms.push(m)) =~= run_events(s, ms) + opt_event_seq(
            step_event(run_state(s, ms), m),
        ));
    }
}

/// Drain one batch of already-queued messages through the dispatch entry
/// point, in order, collecting the events to hand to the owner. This is the
/// message pump's translation step; the surrounding program polls the host
/// queue, feeds each batch here, performs the outcomes' host actions, and
/// stops once `state.quit_posted` holds.
pub fn pump_messages(state: &mut PumpState, msgs: &Vec<Message>) -> (events: Vec<Delivery>)
    ensures
        *final(state) == run_state(*old(state), msgs@),
        events@ == run_events(*old(state), msgs@),
{
    let mut events: Vec<Delivery> = Vec::new();
    let mut i: usize = 0;
    while i < msgs.len()
        invariant
            i <= msgs.len(),
            *state == run_state(*old(state), msgs@.take(i as int)),
            events@ == run_events(*old(state), msgs@.take(i as int)),
        decreases msgs.len() - i,
    {
        let m = msgs[i];
        let out = wnd_process(state, m);
        match out.event {
            Some(d) => events.push(d),
            None => {},
        }
        proof {
            lemma_run_snoc(*old(state), msgs@.take(i as int), m);
            assert(msgs@.take(i as int).push(m) =~= msgs@.take(i + 1 as int));
        }
        i = i + 1;
    }
    proof {
        assert(msgs@.take(msgs@.len() as int) =~= msgs@);
    }
    events
}

/// While no owner is associated, a message
/// sequence that holds no creation message delivers no event to anyone, and
/// leaves the association absent. Every such message is only logged and
/// forwarded to the default handler; the owner is never reached.
pub proof fn lemma_association_precedes_use(s: PumpState, ms: Seq<Message>)
    requires
        s.owner == 0,
        forall|i: int| 0 <= i < ms.len() ==> !(ms[i] is Creation),
    ensures
        run_events(s, ms) =~= Seq::<Delivery>::empty(),
        run_state(s, ms).owner == 0,
    decreases ms.len(),
{
    if ms.len() > 0 {
        assert(!(ms[0] is Creation));
        let rest = ms.subrange(1, ms.len() as int);
        assert(forall|i: int| 0 <= i < rest.len() ==> rest[i] == ms[i + 1]);
        lemma_association_precedes_use(step_state(s, ms[0]), rest);
    }
}

/// Once the surface is destroyed, the handle stays silent: no later message
/// changes the state or reaches an owner.
pub proof fn lemma_destroyed_handle_is_silent(s: PumpState, ms: Seq<Message>)
    requires
        s.destroyed,
    ensures
        run_events(s, ms) =~= Seq::<Delivery>::empty(),
        run_state(s, ms) == s,
    decreases ms.len(),
{
    if ms.len() > 0 {
        lemma_destroyed_handle_is_silent(step_state(s, ms[0]), ms.subrange(1, ms.len() as int));
    }
}

/// A close request handled for an associated owner,
/// followed by any further messages to the same — now destroyed — handle,
/// delivers exactly the one `Quit` event and nothing more; every later
/// message falls into the association-absent path.
pub proof fn lemma_quit_idempotence(s: PumpState, rest: Seq<Message>)
    requires
        !s.destroyed,
        s.owner != 0,
    ensures
        run_events(s, seq![Message::CloseRequest] + rest) =~= opt_event_seq(
            quit_delivery(s.owner),
        ),
        run_state(s, seq![Message::CloseRequest] + rest).destroyed,
{
    let ms = seq![Message::CloseRequest] + rest;
    assert(ms[0] == Message::CloseRequest);
    assert(ms.subrange(1, ms.len() as int) =~= rest);
    lemma_destroyed_handle_is_silent(step_state(s, Message::CloseRequest), rest);
}

/// A surface's lifetime holds at most one event: whatever the batch and
/// whatever state it starts from, the first quit destroys the surface, and a
/// destroyed handle delivers nothing further.
pub proof fn lemma_at_most_one_event(s: PumpState, ms: Seq<Message>)
    ensures
        run_events(s, ms).len() <= 1,
    decreases ms.len(),
{
    if ms.len() > 0 {
        let rest = ms.subrange(1, ms.len() as int);
        if step_event(s, ms[0]) is Some {
            lemma_destroyed_handle_is_silent(step_state(s, ms[0]), rest);
        } else {
            lemma_at_most_one_event(step_state(s, ms[0]), rest);
        }
    }
}

/// Over a whole batch: an Escape key-down handled
/// while an owner is associated delivers exactly one `Quit` event to that
/// owner, and the messages after it deliver nothing.
pub proof fn lemma_escape_batch(s: PumpState, rest: Seq<Message>)
    requires
        !s.destroyed,
        s.owner != 0,
    ensures
        run_events(s, seq![Message::KeyDown { key: VK_ESCAPE }] + rest) =~= opt_event_seq(
            quit_delivery(s.owner),
        ),
{
    let m = Message::KeyDown { key: VK_ESCAPE };
    let ms = seq![m] + rest;
    assert(ms[0] == m);
    assert(ms.subrange(1, ms.len() as int) =~= rest);
    lemma_destroyed_handle_is_silent(step_state(s, m), rest);
}

} // verus!
