use crate::renderer::RenderContext;
use vstd::prelude::*;

verus! {

/// What the window reports, as far as the game tells events apart.
#[derive(Clone, Copy, Debug, PartialEq, Eq, Structural)]
pub enum Event {
    Quit,
    Escape,
    Return,
    Other,
}

/// Whether the game ends on this event.
pub open spec fn stops(event: Event) -> bool {
    event == Event::Quit || event == Event::Escape
}

/// Whether the game ends while these events are handled in order.
pub open spec fn exits(events: Seq<Event>) -> bool
    decreases events.len(),
{
    if events.len() == 0 {
        false
    } else {
        stops(events[0]) || exits(events.skip(1))
    }
}

/// Whether the banner is still shown after these events were handled in
/// order, up to the first that ends the game.
pub open spec fn waiting_after(waiting: bool, events: Seq<Event>) -> bool
    decreases events.len(),
{
    if events.len() == 0 || stops(events[0]) {
        waiting
    } else {
        waiting_after(waiting && events[0] != Event::Return, events.skip(1))
    }
}

/// The context of a game that has just started: waiting, no frame rendered.
pub fn start() -> (context: RenderContext)
    ensures
        context == (RenderContext { waiting: true, frame: 0 }),
{
    RenderContext { waiting: true, frame: 0 }
}

/// Handles one event. Quit and Escape end the game, Return takes the banner
/// away, anything else changes nothing.
pub fn handle(context: &mut RenderContext, event: Event) -> (exit: bool)
    ensures
        exit == stops(event),
        final(context).frame == old(context).frame,
        final(context).waiting == (old(context).waiting && event != Event::Return),
{
    match event {
        Event::Quit => true,
        Event::Escape => true,
        Event::Return => {
            context.waiting = false;
            false
        },
        Event::Other => false,
    }
}

/// Handles the events of one iteration in order and stops at the first that
/// ends the game.
pub fn dispatch(context: &mut RenderContext, events: &Vec<Event>) -> (exit: bool)
    ensures
        exit == exits(events@),
        final(context).frame == old(context).frame,
        final(context).waiting == waiting_after(old(context).waiting, events@),
{
    let mut i: usize = 0;
    proof {
        assert(events@.skip(0) =~= events@);
    }
    while i < events.len()
        invariant
            i <= events.len(),
            context.frame == old(context).frame,
            exits(events@) == exits(events@.skip(i as int)),
            waiting_after(old(context).waiting, events@) == waiting_after(
                context.waiting,
                events@.skip(i as int),
            ),
        decreases events.len() - i,
    {
        let event = events[i];
        let ghost rest = events@.skip(i as int);
        let ghost shown = context.waiting;
        proof {
            assert(rest[0] == event);
            assert(rest.skip(1) =~= events@.skip(i + 1));
        }
        let exit = handle(context, event);
        if exit {
            proof {
                assert(exits(rest));
                assert(waiting_after(shown, rest) == shown);
            }
            return true;
        }
        proof {
            assert(exits(rest) == exits(rest.skip(1)));
            assert(waiting_after(shown, rest) == waiting_after(context.waiting, rest.skip(1)));
        }
        i = i + 1;
    }
    false
}

/// Once the banner is gone no event brings it back.
pub proof fn lemma_started_stays_started(events: Seq<Event>)
    ensures
        !waiting_after(false, events),
    decreases events.len(),
{
    if events.len() > 0 && !stops(events[0]) {
        lemma_started_stays_started(events.skip(1));
    }
}

/// While no Return arrives and nothing ends the game, the banner stays.
pub proof fn lemma_waits_for_return(events: Seq<Event>)
    requires
        forall|i: int| 0 <= i < events.len() ==> events[i] != Event::Return,
    ensures
        waiting_after(true, events),
    decreases events.len(),
{
    if events.len() > 0 && !stops(events[0]) {
        assert forall|i: int| 0 <= i < events.skip(1).len() implies events.skip(1)[i]
            != Event::Return by {
            assert(events.skip(1)[i] == events[i + 1]);
        }
        lemma_waits_for_return(events.skip(1));
    }
}

/// The game ends exactly when one of the events ends it.
pub proof fn lemma_exits_on_some_stop(events: Seq<Event>)
    ensures
        exits(events) <==> exists|i: int| 0 <= i < events.len() && stops(#[trigger] events[i]),
    decreases events.len(),
{
    if events.len() > 0 {
        let rest = events.skip(1);
        lemma_exits_on_some_stop(rest);
        if exits(rest) {
            let i = choose|i: int| 0 <= i < rest.len() && stops(#[trigger] rest[i]);
            assert(stops(events[i + 1]));
        }
        if exists|i: int| 0 <= i < events.len() && stops(#[trigger] events[i]) {
            let i = choose|i: int| 0 <= i < events.len() && stops(#[trigger] events[i]);
            if i > 0 {
                assert(stops(rest[i - 1]));
            }
        }
    }
}

} // verus!
