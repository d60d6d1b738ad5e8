//! What holds of every handle, whatever is loaded and in whatever order.
//!
//! Loads that run side by side reach the handle as one sequence of events,
//! since each call of `SCC::load` has the handle to itself. The laws below
//! are therefore stated of arbitrary sequences of events.

use vstd::prelude::*;

use crate::handle::SCCView;
use crate::protocol::{EventView, StepView};

verus! {

/// The handle after a sequence of events, taken in order.
pub open spec fn replay<T>(handle: SCCView<T>, events: Seq<EventView<T>>) -> SCCView<T>
    decreases events.len(),
{
    if events.len() == 0 {
        handle
    } else {
        replay(handle, events.drop_last()).after(events.last())
    }
}

/// The value of the last `Decoded` event of a sequence, if it has one.
pub open spec fn last_decoded<T>(events: Seq<EventView<T>>) -> Option<T>
    decreases events.len(),
{
    if events.len() == 0 {
        None
    } else {
        match events.last() {
            EventView::Decoded(value) => Some(value),
            _ => last_decoded(events.drop_last()),
        }
    }
}

/// A load that fails leaves the handle as it was: whenever the answer to an
/// event is an error, the handle after the event is the handle before it.
pub proof fn law_failure_keeps_cache<T>(handle: SCCView<T>, event: EventView<T>)
    requires
        handle.answer(event) is Err,
    ensures
        handle.after(event) == handle,
{
}

/// The cached value changes exactly when a load completes, and then it is
/// the value that was decoded.
pub proof fn law_only_completion_replaces<T>(handle: SCCView<T>, event: EventView<T>)
    ensures
        handle.answer(event) == Ok::<StepView, Seq<char>>(StepView::Done) <==> event is Decoded,
        event matches EventView::Decoded(value) ==> handle.after(event).configuration == value,
        !(event is Decoded) ==> handle.after(event) == handle,
{
}

/// No event changes the names of a handle, so every load of a handle
/// fetches the same address.
pub proof fn law_names_are_fixed<T>(handle: SCCView<T>, events: Seq<EventView<T>>)
    ensures
        replay(handle, events).service == handle.service,
        replay(handle, events).label == handle.label,
        replay(handle, events).application == handle.application,
        replay(handle, events).endpoint() == handle.endpoint(),
    decreases events.len(),
{
    if events.len() > 0 {
        law_names_are_fixed(handle, events.drop_last());
    }
}

/// The last writer wins: after any sequence of events the cached value is
/// the one of the last load that completed, and the value from before if
/// none did.
pub proof fn law_last_completed_load_wins<T>(handle: SCCView<T>, events: Seq<EventView<T>>)
    ensures
        replay(handle, events).configuration == match last_decoded(events) {
            Some(value) => value,
            None => handle.configuration,
        },
    decreases events.len(),
{
    if events.len() > 0 {
        law_last_completed_load_wins(handle, events.drop_last());
    }
}

/// A load that is abandoned before it completes changes nothing: a sequence
/// of events without a decoded value leaves the handle as it was.
pub proof fn law_unfinished_loads_change_nothing<T>(handle: SCCView<T>, events: Seq<EventView<T>>)
    requires
        forall|i: int| 0 <= i < events.len() ==> !(#[trigger] events[i] is Decoded),
    ensures
        replay(handle, events) == handle,
    decreases events.len(),
{
    if events.len() > 0 {
        assert(!(events[events.len() - 1] is Decoded));
        law_unfinished_loads_change_nothing(handle, events.drop_last());
    }
}

/// The value of the last completed load is one that some event of the
/// sequence carried.
pub proof fn law_last_decoded_was_decoded<T>(events: Seq<EventView<T>>)
    ensures
        last_decoded(events) matches Some(value) ==> exists|i: int|
            0 <= i < events.len() && events[i] == EventView::Decoded(value),
    decreases events.len(),
{
    if events.len() > 0 {
        match events.last() {
            EventView::Decoded(value) => {
                assert(events[events.len() - 1] == EventView::Decoded(value));
            },
            _ => {
                law_last_decoded_was_decoded(events.drop_last());
                if let Some(value) = last_decoded(events.drop_last()) {
                    let i = choose|i: int|
                        0 <= i < events.drop_last().len() && events.drop_last()[i]
                            == EventView::Decoded(value);
                    assert(events[i] == EventView::Decoded(value));
                }
            },
        }
    }
}

/// Readers never see a mixture. After any sequence of events, and so after
/// every prefix of the events of loads that run side by side, the cached
/// value is either the value from before or, whole, a value that one of the
/// loads decoded.
pub proof fn law_cache_is_one_whole_value<T>(handle: SCCView<T>, events: Seq<EventView<T>>)
    ensures
        replay(handle, events).configuration == handle.configuration || exists|i: int|
            0 <= i < events.len() && events[i] == EventView::Decoded(
                replay(handle, events).configuration,
            ),
{
    law_last_completed_load_wins(handle, events);
    law_last_decoded_was_decoded(events);
}

/// Of two loads that decode `first` and `second`, in whatever order their
/// events reach the handle: the cached value is never anything but the value
/// from before, `first` or `second`.
pub proof fn law_two_loads_never_mix<T>(
    handle: SCCView<T>,
    events: Seq<EventView<T>>,
    first: T,
    second: T,
)
    requires
        forall|i: int|
            0 <= i < events.len() ==> (#[trigger] events[i] matches EventView::Decoded(value)
                ==> value == first || value == second),
    ensures
        replay(handle, events).configuration == handle.configuration || replay(
            handle,
            events,
        ).configuration == first || replay(handle, events).configuration == second,
{
    law_cache_is_one_whole_value(handle, events);
}

/// Loading the same thing again changes nothing: a sequence of events
/// replayed a second time leaves the handle as the first replay left it.
pub proof fn law_reload_is_idempotent<T>(handle: SCCView<T>, events: Seq<EventView<T>>)
    ensures
        replay(replay(handle, events), events) == replay(handle, events),
{
    let once = replay(handle, events);
    let twice = replay(once, events);
    law_last_completed_load_wins(handle, events);
    law_last_completed_load_wins(once, events);
    law_names_are_fixed(handle, events);
    law_names_are_fixed(once, events);
}

} // verus!
