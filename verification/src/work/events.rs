//! The conditions that a future waits for.
use crate::raw::PollEvent;
use vstd::prelude::*;

verus! {

/// How many conditions a future can wait for at once.
pub const MAX_EVENTS: usize = 1;

#[verifier::external_type_specification]
#[verifier::external_body]
#[verifier::reject_recursive_types(T)]
pub struct ExArrayVec<T, const CAP: usize>(arrayvec::ArrayVec<T, CAP>);

/// The conditions, in the order in which they were added.
pub type EventArray = arrayvec::ArrayVec<PollEvent, 1>;

/// The conditions in an array.
pub uninterp spec fn event_list(events: arrayvec::ArrayVec<(u32, usize), 1>) -> Seq<(u32, usize)>;

/// `arrayvec::ArrayVec::new`: no conditions.
#[verifier::external_body]
pub(crate) fn events_new() -> (events: EventArray)
    ensures
        event_list(events) == Seq::<(u32, usize)>::empty(),
{
    arrayvec::ArrayVec::new()
}

/// `arrayvec::ArrayVec::push`: the condition comes last.  It panics where there is no room.
#[verifier::external_body]
pub(crate) fn events_push(events: &mut EventArray, event: PollEvent)
    requires
        event_list(*old(events)).len() < MAX_EVENTS,
    ensures
        event_list(*final(events)) == event_list(*old(events)).push(event),
{
    events.push(event)
}

/// `arrayvec::ArrayVec::clear`: all conditions are removed.
#[verifier::external_body]
pub(crate) fn events_clear(events: &mut EventArray)
    ensures
        event_list(*final(events)) == Seq::<(u32, usize)>::empty(),
{
    events.clear()
}

/// `arrayvec::ArrayVec::len`: how many conditions there are.
#[verifier::external_body]
pub(crate) fn events_len(events: &EventArray) -> (len: usize)
    ensures
        len == event_list(*events).len(),
{
    events.len()
}

/// `arrayvec::ArrayVec::as_slice`: the condition that was added first, of which there must be one.
#[verifier::external_body]
pub(crate) fn events_first(events: &EventArray) -> (event: PollEvent)
    requires
        event_list(*events).len() > 0,
    ensures
        event == event_list(*events)[0],
{
    events.as_slice()[0]
}

} // verus!
