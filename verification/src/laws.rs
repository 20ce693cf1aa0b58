//! What holds of every event, proved of the models that the contracts of
//! the events are stated over.

use vstd::prelude::*;
use crate::delayed_event::{DelayedModel, Fired, TicketModel};
use crate::event::EventModel;
use crate::dispatch::Route;
use crate::once_event::OnceModel;

verus! {

/// Persistent delivery. Each of a sequence of triggers on an event with a
/// persistent callback goes to that callback and hands it the value of the
/// trigger, once: the record of the callback grows by the triggered values,
/// in their order, and nothing else changes.
pub proof fn lemma_persistent_callback_hears_every_trigger<T>(m: EventModel<T>, values: Seq<T>)
    requires
        m.persistent is Some,
    ensures
        m.trigger_all(values) == (EventModel { persistent: Some(m.persistent->0 + values), ..m }),
        m.trigger_all(values).route() == Route::Persistent,
    decreases values.len(),
{
    if values.len() == 0 {
        assert(m.persistent->0 + values =~= m.persistent->0);
    } else {
        lemma_persistent_callback_hears_every_trigger(m, values.drop_last());
        assert((m.persistent->0 + values.drop_last()).push(values.last()) =~= m.persistent->0
            + values);
    }
}

/// One subscriber at a time. An installation asks for a vacant event.
/// After an installation of any kind the event is not vacant, so no second
/// installation can follow it; an event with a persistent callback stays
/// occupied whatever is triggered; and after the subscribers were removed
/// the event is vacant again, so that an installation can follow.
pub proof fn lemma_occupied_event_refuses_installation<T>(
    m: EventModel<T>,
    fired: spec_fn(T) -> bool,
    values: Seq<T>,
)
    ensures
        !m.with_persistent().vacant(),
        !m.with_callback(fired).vacant(),
        !m.with_channel().vacant(),
        !m.with_persistent().trigger_all(values).vacant(),
        EventModel::<T>::empty().vacant(),
{
    lemma_persistent_callback_hears_every_trigger(m.with_persistent(), values);
}

/// One-shot delivery. A one-shot callback or channel takes the first
/// trigger and is gone: the event is empty after it, and the triggers that
/// follow go nowhere and change nothing.
pub proof fn lemma_one_shot_takes_one_trigger<T>(m: EventModel<T>, first: T, later: Seq<T>)
    requires
        m.wf(),
        m.route() == Route::Callback || m.route() == Route::Channel,
    ensures
        m.trigger(first) == EventModel::<T>::empty(),
        m.trigger(first).trigger_all(later) == EventModel::<T>::empty(),
        m.trigger(first).trigger_all(later).route() == Route::Nowhere,
{
    lemma_empty_event_ignores_triggers(later);
}

/// The same of an event that has one-shot consumers only: a trigger leaves
/// it empty, and a trigger on an empty one changes nothing.
pub proof fn lemma_once_event_takes_one_trigger<T>(m: OnceModel<T>)
    requires
        m.wf(),
    ensures
        m.trigger() == OnceModel::<T>::empty(),
        m.trigger().trigger() == m.trigger(),
        m.trigger().route() == Route::Nowhere,
{
}

/// Removal. After its subscribers were removed an event is empty, and a
/// trigger on an empty event goes nowhere and changes nothing.
pub proof fn lemma_empty_event_ignores_triggers<T>(values: Seq<T>)
    ensures
        EventModel::<T>::empty().trigger_all(values) == EventModel::<T>::empty(),
        EventModel::<T>::empty().trigger_all(values).route() == Route::Nowhere,
    decreases values.len(),
{
    if values.len() > 0 {
        lemma_empty_event_ignores_triggers(values.drop_last());
    }
}

/// A burst of deferring triggers changes neither the subscriber nor the
/// delay; it issues one stamp for each trigger, and the stamp of the last
/// trigger is the one left outstanding.
pub proof fn lemma_burst_defers<T>(m: DelayedModel<T>, values: Seq<T>)
    requires
        m.defers(),
    ensures
        m.burst(values) == (DelayedModel {
            pending: if values.len() == 0 {
                m.pending
            } else {
                Some((m.issued + values.len() - 1) as nat)
            },
            issued: m.issued + values.len(),
            ..m
        }),
    decreases values.len(),
{
    if values.len() > 0 {
        lemma_burst_defers(m, values.drop_last());
    }
}

/// Stamps are strictly increasing: in a burst of deferring triggers the
/// trigger at position `i` is stamped with the `i`-th stamp after those
/// already issued, and its ticket carries its own value.
pub proof fn lemma_burst_stamps_increase<T>(m: DelayedModel<T>, values: Seq<T>, i: int)
    requires
        m.defers(),
        0 <= i < values.len(),
    ensures
        m.burst_ticket(values, i) == (TicketModel {
            stamp: (m.issued + i) as nat,
            delay: m.delay,
            value: values[i],
        }),
{
    lemma_burst_defers(m, values.take(i));
}

/// Staleness. A deferred check delivers only while the trigger that issued
/// it is the latest one that was scheduled: the check of any earlier
/// trigger changes nothing, so no value but the latest is ever delivered,
/// and none twice.
pub proof fn lemma_stale_check_changes_nothing<T>(m: DelayedModel<T>, ticket: TicketModel<T>)
    requires
        m.wf(),
        ticket.stamp + 1 != m.issued,
    ensures
        m.fire(ticket) == m,
        m.outcome(ticket.stamp) != Fired::Delivered,
        m.fire(ticket).wf(),
{
}

/// A trigger and a deferred check keep the state well formed, and after a
/// check that delivered, the same check changes nothing.
pub proof fn lemma_steps_keep_well_formed<T>(m: DelayedModel<T>, value: T, ticket: TicketModel<T>)
    requires
        m.wf(),
    ensures
        m.trigger(value).wf(),
        m.fire(ticket).wf(),
        m.fire(ticket).fire(ticket) == m.fire(ticket),
{
}

/// No delivery is missed. After a trigger was scheduled, the deferred checks
/// of all earlier triggers may run, in any order and number: they change
/// nothing, and the check of the trigger itself then delivers its value.
pub proof fn lemma_latest_check_delivers<T>(
    m: DelayedModel<T>,
    value: T,
    earlier: Seq<TicketModel<T>>,
)
    requires
        m.wf(),
        m.defers(),
        !m.dropped,
        forall|k: int| 0 <= k < earlier.len() ==> (#[trigger] earlier[k]).stamp < m.issued,
    ensures
        m.trigger(value).fire_all(earlier) == m.trigger(value),
        m.trigger(value).fire_all(earlier).outcome(m.ticket(value).stamp) == Fired::Delivered,
        m.trigger(value).fire_all(earlier).fire(m.ticket(value)) == (DelayedModel {
            subscriber: m.heard(value),
            pending: None,
            ..m.trigger(value)
        }),
    decreases earlier.len(),
{
    if earlier.len() > 0 {
        lemma_latest_check_delivers(m, value, earlier.drop_last());
        assert(earlier[earlier.len() - 1].stamp < m.issued);
    }
}

/// Coalescing. After a burst of triggers within one quiet period, let the
/// deferred checks of the burst run in any order, each any number of times.
/// Then the subscriber is handed the value of the last trigger, once, when
/// the check of the last trigger runs, and nothing else: no earlier value is
/// ever delivered.
pub proof fn lemma_burst_delivers_last_value<T>(
    m: DelayedModel<T>,
    values: Seq<T>,
    tickets: Seq<TicketModel<T>>,
)
    requires
        m.wf(),
        m.defers(),
        !m.dropped,
        values.len() > 0,
        forall|k: int| 0 <= k < tickets.len() ==> m.issued_in_burst(values, #[trigger] tickets[k]),
    ensures
        tickets.contains(m.burst_ticket(values, values.len() - 1)) ==> m.burst(values).fire_all(
            tickets,
        ) == (DelayedModel {
            subscriber: m.heard(values.last()),
            pending: None,
            ..m.burst(values)
        }),
        !tickets.contains(m.burst_ticket(values, values.len() - 1)) ==> m.burst(values).fire_all(
            tickets,
        ) == m.burst(values),
    decreases tickets.len(),
{
    let last = m.burst_ticket(values, values.len() - 1);
    lemma_burst_defers(m, values);
    lemma_burst_stamps_increase(m, values, values.len() - 1);
    if tickets.len() > 0 {
        let earlier = tickets.drop_last();
        let ticket = tickets.last();
        lemma_burst_delivers_last_value(m, values, earlier);
        let i = choose|i: int| 0 <= i < values.len() && ticket == m.burst_ticket(values, i);
        lemma_burst_stamps_increase(m, values, i);
        if earlier.contains(last) {
            let k = choose|k: int| 0 <= k < earlier.len() && earlier[k] == last;
            assert(tickets[k] == last);
        } else if ticket == last {
            assert(tickets[tickets.len() - 1] == last);
        } else {
            assert forall|k: int| 0 <= k < tickets.len() implies tickets[k] != last by {
                if k < earlier.len() {
                    assert(earlier[k] == tickets[k]);
                }
            }
        }
    }
}

/// Spacing. Where the deferred check of each trigger runs before the next
/// trigger, each trigger has its own delivery: the subscriber is handed
/// every value, in the order of the triggers.
pub proof fn lemma_spaced_triggers_all_deliver<T>(m: DelayedModel<T>, values: Seq<T>)
    requires
        m.wf(),
        m.defers(),
        !m.dropped,
    ensures
        m.spaced(values) == (DelayedModel {
            subscriber: Some(m.subscriber->0 + values),
            pending: if values.len() == 0 {
                m.pending
            } else {
                None
            },
            issued: m.issued + values.len(),
            ..m
        }),
    decreases values.len(),
{
    if values.len() == 0 {
        assert(m.subscriber->0 + values =~= m.subscriber->0);
    } else {
        lemma_spaced_triggers_all_deliver(m, values.drop_last());
        assert((m.subscriber->0 + values.drop_last()).push(values.last()) =~= m.subscriber->0
            + values);
    }
}

/// Drop. Once the event is marked as dropped, no deferred check delivers:
/// each ends as `Dropped` and leaves the state as it was, whatever was
/// outstanding. The mark is final: no trigger and no check takes it away.
pub proof fn lemma_dropped_event_delivers_nothing<T>(
    m: DelayedModel<T>,
    values: Seq<T>,
    tickets: Seq<TicketModel<T>>,
)
    requires
        m.dropped,
    ensures
        m.fire_all(tickets) == m,
        forall|stamp: nat| m.outcome(stamp) == Fired::Dropped,
        m.burst(values).dropped,
        m.burst(values).fire_all(tickets) == m.burst(values),
    decreases values.len() + tickets.len(),
{
    if tickets.len() > 0 {
        lemma_dropped_event_delivers_nothing(m, Seq::empty(), tickets.drop_last());
    }
    if values.len() > 0 {
        lemma_dropped_event_delivers_nothing(m, values.drop_last(), Seq::empty());
        lemma_dropped_event_delivers_nothing(m.burst(values), Seq::empty(), tickets);
    }
}

/// Removal. With no subscriber installed, triggers change nothing and issue
/// no stamp, before or after any deferred check, and the deferred checks
/// that were scheduled before the removal deliver nothing: none ends as
/// `Delivered`, and no subscriber appears.
pub proof fn lemma_removed_subscriber_hears_nothing<T>(
    m: DelayedModel<T>,
    values: Seq<T>,
    tickets: Seq<TicketModel<T>>,
)
    requires
        m.subscriber is None,
    ensures
        m.burst(values) == m,
        m.fire_all(tickets).subscriber is None,
        m.fire_all(tickets).issued == m.issued,
        m.fire_all(tickets).burst(values) == m.fire_all(tickets),
        forall|stamp: nat| m.outcome(stamp) != Fired::Delivered,
    decreases tickets.len(),
{
    lemma_idle_triggers_change_nothing(m, values);
    if tickets.len() > 0 {
        lemma_removed_subscriber_hears_nothing(m, values, tickets.drop_last());
    }
    lemma_idle_triggers_change_nothing(m.fire_all(tickets), values);
}

/// With no subscriber installed a burst of triggers changes nothing.
pub proof fn lemma_idle_triggers_change_nothing<T>(m: DelayedModel<T>, values: Seq<T>)
    requires
        m.subscriber is None,
    ensures
        m.burst(values) == m,
    decreases values.len(),
{
    if values.len() > 0 {
        lemma_idle_triggers_change_nothing(m, values.drop_last());
    }
}

/// Zero delay. With a delay of zero a delayed event is a plain event: each
/// trigger hands its value to the subscriber before it returns, as a plain
/// event with the same persistent callback does, and no stamp is issued or
/// left outstanding.
pub proof fn lemma_zero_delay_is_plain_event<T>(m: DelayedModel<T>, values: Seq<T>)
    requires
        m.delay == 0,
    ensures
        m.burst(values) == (DelayedModel {
            subscriber: (EventModel {
                persistent: m.subscriber,
                once: OnceModel::<T>::empty(),
            }).trigger_all(values).persistent,
            ..m
        }),
    decreases values.len(),
{
    if values.len() > 0 {
        lemma_zero_delay_is_plain_event(m, values.drop_last());
    }
}

} // verus!
