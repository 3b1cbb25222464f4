//! The render loop's state machine: two states, RUNNING and TERMINATED,
//! with the only transition taken on a quit event. Each frame drains the
//! pending events first and renders only if no quit was seen, so no frame
//! is drawn after quit is observed.

use vstd::prelude::*;

verus! {

/// State of the render loop.
#[derive(Clone, Copy, PartialEq, Eq, Structural, Debug)]
pub enum LoopState {
    /// The loop keeps polling and drawing.
    Running,
    /// A quit event was seen; the loop draws nothing further and exits.
    Terminated,
}

/// One event read from the input queue, reduced to what the loop
/// distinguishes: a quit request, or anything else.
#[derive(Clone, Copy, PartialEq, Eq, Structural, Debug)]
pub enum LoopEvent {
    /// The window was asked to close.
    Quit,
    /// Any other event kind; the loop ignores it.
    Other,
}

/// Whether a polling pass's events contain a quit request.
pub open spec fn contains_quit(events: Seq<LoopEvent>) -> bool {
    exists|i: int| 0 <= i < events.len() && events[i] is Quit
}

/// Drain one polling pass's events: the loop leaves `Running` exactly
/// when a quit event is among them, and never leaves `Terminated`.
pub fn drain_events(state: LoopState, events: &Vec<LoopEvent>) -> (r: LoopState)
    ensures
        r is Terminated <==> (state is Terminated || contains_quit(events@)),
{
    let mut next = state;
    let mut i: usize = 0;
    while i < events.len()
        invariant
            0 <= i <= events@.len(),
            next is Terminated <==> (state is Terminated || contains_quit(events@.take(i as int))),
        decreases events@.len() - i,
    {
        if matches!(events[i], LoopEvent::Quit) {
            assert(events@.take(i + 1)[i as int] is Quit);
            next = LoopState::Terminated;
        } else {
            assert(contains_quit(events@.take(i + 1)) ==> contains_quit(events@.take(i as int)))
            by {
                if contains_quit(events@.take(i + 1)) {
                    let j = choose|j: int|
                        0 <= j < events@.take(i + 1).len() && #[trigger] events@.take(i + 1)[j] is Quit;
                    assert(j < i ==> events@.take(i as int)[j] is Quit);
                }
            }
        }
        assert(events@.take(i as int) == events@.take(i + 1).take(i as int));
        i = i + 1;
    }
    assert(events@.take(events@.len() as int) == events@);
    next
}

/// The fixed color every frame is cleared to, in thousandths of full
/// intensity: red, green, blue, alpha. A stored 200 stands for 0.2.
pub fn clear_color_permille() -> (r: (u16, u16, u16, u16))
    ensures
        r == (200u16, 300u16, 300u16, 1000u16),
{
    (200, 300, 300, 1000)
}

/// One iteration of the render loop: drain the pending events, then
/// report whether this iteration renders a frame. A frame is rendered
/// exactly when the loop is still running after the polling pass, so a
/// quit event suppresses the frame of the very pass that carried it.
pub fn frame_step(state: LoopState, events: &Vec<LoopEvent>) -> (r: (LoopState, bool))
    ensures
        r.0 is Terminated <==> (state is Terminated || contains_quit(events@)),
        r.1 <==> r.0 is Running,
{
    let next = drain_events(state, events);
    let render = matches!(next, LoopState::Running);
    (next, render)
}

} // verus!
