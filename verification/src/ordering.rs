//! Delivery order: what a subscriber takes from the hub, seen over whole
//! histories of publishing, attaching, detaching and taking.

use vstd::prelude::*;
use vstd::set_lib::lemma_set_subset_finite;
use crate::distribution::DistributionState;
use crate::hub::HubState;
use crate::reading::HeartRateData;

verus! {

/// One thing that happens to the distribution state.
pub enum Step {
    /// The acquisition loop publishes a reading.
    Publish(HeartRateData),
    /// A subscriber attaches.
    Attach,
    /// The subscriber with this identifier detaches.
    Detach(u64),
    /// The subscriber with this identifier takes its next reading.
    Take(u64),
}

/// The state after one step.
pub open spec fn after(s: DistributionState, step: Step) -> DistributionState {
    match step {
        Step::Publish(reading) => s.published(reading),
        Step::Attach => if s.hub.has_room() {
            s.attached_one()
        } else {
            s
        },
        Step::Detach(id) => s.detached(id),
        Step::Take(id) => s.delivered(id),
    }
}

/// The state after a history of steps.
pub open spec fn run(s: DistributionState, steps: Seq<Step>) -> DistributionState
    decreases steps.len(),
{
    if steps.len() == 0 {
        s
    } else {
        after(run(s, steps.drop_last()), steps.last())
    }
}

/// The readings that a history publishes, in order.
pub open spec fn sent(steps: Seq<Step>) -> Seq<HeartRateData>
    decreases steps.len(),
{
    if steps.len() == 0 {
        Seq::empty()
    } else {
        match steps.last() {
            Step::Publish(reading) => sent(steps.drop_last()).push(reading),
            _ => sent(steps.drop_last()),
        }
    }
}

/// The readings that subscriber `id` takes during a history, in order.
pub open spec fn taken(s: DistributionState, steps: Seq<Step>, id: u64) -> Seq<HeartRateData>
    decreases steps.len(),
{
    if steps.len() == 0 {
        Seq::empty()
    } else {
        let earlier = taken(s, steps.drop_last(), id);
        let front = run(s, steps.drop_last()).hub.front(id);
        if steps.last() == Step::Take(id) && front is Some {
            earlier.push(front->Some_0)
        } else {
            earlier
        }
    }
}

/// The history that publishes `readings` one after the other and does
/// nothing else.
pub open spec fn publishing(readings: Seq<HeartRateData>) -> Seq<Step> {
    Seq::new(readings.len(), |i: int| Step::Publish(readings[i]))
}

/// The history in which subscriber `id` takes `n` times in a row.
pub open spec fn taking(id: u64, n: nat) -> Seq<Step> {
    Seq::new(n, |i: int| Step::Take(id))
}

/// Every step keeps a valid hub valid, never lowers the next identifier and
/// never changes the capacity.
pub proof fn lemma_step_keeps_valid(s: DistributionState, step: Step)
    requires
        s.hub.valid(),
    ensures
        after(s, step).hub.valid(),
        after(s, step).hub.next_id >= s.hub.next_id,
        after(s, step).hub.capacity == s.hub.capacity,
{
    let t = after(s, step);
    match step {
        Step::Publish(reading) => {
            assert(t.hub.queues.dom().subset_of(s.hub.queues.dom()));
            lemma_set_subset_finite(s.hub.queues.dom(), t.hub.queues.dom());
            assert forall|id: u64| #[trigger] t.hub.attached(id) implies id < t.hub.next_id
                && t.hub.pending(id).len() <= t.hub.capacity by {
                assert(s.hub.attached(id));
            }
        },
        Step::Attach => {
            if s.hub.has_room() {
                assert forall|id: u64| #[trigger] t.hub.attached(id) implies id < t.hub.next_id
                    && t.hub.pending(id).len() <= t.hub.capacity by {
                    if id != s.hub.next_id as u64 {
                        assert(s.hub.attached(id));
                    }
                }
            }
        },
        Step::Detach(gone) => {
            assert forall|id: u64| #[trigger] t.hub.attached(id) implies id < t.hub.next_id
                && t.hub.pending(id).len() <= t.hub.capacity by {
                assert(s.hub.attached(id));
            }
        },
        Step::Take(who) => {
            assert forall|id: u64| #[trigger] t.hub.attached(id) implies id < t.hub.next_id
                && t.hub.pending(id).len() <= t.hub.capacity by {
                assert(s.hub.attached(id));
            }
        },
    }
}

/// Every history keeps a valid hub valid, never lowers the next identifier
/// and never changes the capacity.
pub proof fn lemma_run_keeps_valid(s: DistributionState, steps: Seq<Step>)
    requires
        s.hub.valid(),
    ensures
        run(s, steps).hub.valid(),
        run(s, steps).hub.next_id >= s.hub.next_id,
        run(s, steps).hub.capacity == s.hub.capacity,
    decreases steps.len(),
{
    if steps.len() > 0 {
        lemma_run_keeps_valid(s, steps.drop_last());
        lemma_step_keeps_valid(run(s, steps.drop_last()), steps.last());
    }
}

/// A subscriber that is attached after a history was attached all along:
/// identifiers are never handed out twice.
pub proof fn lemma_attached_all_along(s: DistributionState, steps: Seq<Step>, id: u64)
    requires
        s.hub.valid(),
        s.hub.attached(id),
        steps.len() > 0,
        run(s, steps).hub.attached(id),
    ensures
        run(s, steps.drop_last()).hub.attached(id),
{
    let prev = run(s, steps.drop_last());
    lemma_run_keeps_valid(s, steps.drop_last());
    match steps.last() {
        Step::Publish(reading) => {},
        Step::Attach => {
            assert(id < s.hub.next_id);
        },
        Step::Detach(gone) => {},
        Step::Take(who) => {},
    }
}

/// Delivery in order, without gaps and without repeats.
///
/// Take any history of publishing, attaching, detaching and taking, and a
/// subscriber that is attached before it and still attached after it. What
/// the subscriber took during the history, followed by what still waits for
/// it, is what waited for it at the start followed by the readings that the
/// history published, in the order of publication.
///
/// A subscriber that is no longer attached at the end has detached or has
/// fallen behind, and nothing is claimed for it.
pub proof fn lemma_delivery_in_order(s: DistributionState, steps: Seq<Step>, id: u64)
    requires
        s.hub.valid(),
        s.hub.attached(id),
        run(s, steps).hub.attached(id),
    ensures
        taken(s, steps, id) + run(s, steps).hub.pending(id) == s.hub.pending(id) + sent(steps),
    decreases steps.len(),
{
    if steps.len() == 0 {
        assert(taken(s, steps, id) + s.hub.pending(id) =~= s.hub.pending(id) + sent(steps));
    } else {
        let init = steps.drop_last();
        let prev = run(s, init);
        let cur = run(s, steps);
        lemma_attached_all_along(s, steps, id);
        lemma_run_keeps_valid(s, init);
        lemma_delivery_in_order(s, init, id);
        let heard = taken(s, init, id);
        let waiting = prev.hub.pending(id);
        assert(heard + waiting == s.hub.pending(id) + sent(init));
        match steps.last() {
            Step::Publish(reading) => {
                assert(cur.hub.pending(id) == waiting.push(reading));
                assert(heard + waiting.push(reading) =~= (heard + waiting).push(reading));
                assert(s.hub.pending(id) + sent(init).push(reading) =~= (s.hub.pending(id) + sent(
                    init,
                )).push(reading));
            },
            Step::Attach => {
                assert(id < s.hub.next_id);
                assert(cur.hub.pending(id) == waiting);
            },
            Step::Detach(gone) => {
                assert(cur.hub.pending(id) == waiting);
            },
            Step::Take(who) => {
                if who == id {
                    if prev.hub.front(id) is Some {
                        assert(cur.hub.pending(id) == waiting.drop_first());
                        assert(heard.push(waiting[0]) + waiting.drop_first() =~= heard + waiting);
                    }
                } else {
                    assert(cur.hub.pending(id) == waiting);
                }
            },
        }
    }
}

/// After a history the store holds the last reading that the history
/// published, or what it held before if the history published none.
pub proof fn lemma_latest_is_last_sent(s: DistributionState, steps: Seq<Step>)
    ensures
        sent(steps).len() == 0 ==> run(s, steps).latest == s.latest,
        sent(steps).len() > 0 ==> run(s, steps).latest == Some(sent(steps).last()),
    decreases steps.len(),
{
    if steps.len() > 0 {
        lemma_latest_is_last_sent(s, steps.drop_last());
    }
}

/// A history that only publishes sends exactly those readings.
pub proof fn lemma_publishing_sends(readings: Seq<HeartRateData>)
    ensures
        sent(publishing(readings)) == readings,
    decreases readings.len(),
{
    let steps = publishing(readings);
    if readings.len() == 0 {
        assert(sent(steps) =~= readings);
    } else {
        assert(steps.drop_last() =~= publishing(readings.drop_last()));
        lemma_publishing_sends(readings.drop_last());
        assert(steps.last() == Step::Publish(readings.last()));
        assert(readings.drop_last().push(readings.last()) =~= readings);
    }
}

/// Readings published in a row reach an attached subscriber whose queue has
/// room for all of them: it stays attached, and they wait for it in the order
/// of publication behind what waited before.
pub proof fn lemma_published_in_a_row(s: DistributionState, readings: Seq<HeartRateData>, id: u64)
    requires
        s.hub.valid(),
        s.hub.attached(id),
        s.hub.pending(id).len() + readings.len() <= s.hub.capacity,
    ensures
        run(s, publishing(readings)).hub.attached(id),
        run(s, publishing(readings)).hub.pending(id) == s.hub.pending(id) + readings,
        run(s, publishing(readings)).latest == if readings.len() == 0 {
            s.latest
        } else {
            Some(readings.last())
        },
    decreases readings.len(),
{
    let steps = publishing(readings);
    if readings.len() == 0 {
        assert(s.hub.pending(id) + readings =~= s.hub.pending(id));
    } else {
        let init = readings.drop_last();
        assert(steps.drop_last() =~= publishing(init));
        assert(steps.last() == Step::Publish(readings.last()));
        lemma_published_in_a_row(s, init, id);
        let prev = run(s, publishing(init));
        lemma_run_keeps_valid(s, publishing(init));
        assert(prev.hub.keeps_up(id));
        assert((s.hub.pending(id) + init).push(readings.last()) =~= s.hub.pending(id) + readings);
    }
}

/// A subscriber that takes `n` times in a row, with at least `n` readings
/// waiting, takes the `n` oldest in their order and leaves the rest.
pub proof fn lemma_taken_in_a_row(s: DistributionState, id: u64, n: nat)
    requires
        s.hub.attached(id),
        n <= s.hub.pending(id).len(),
    ensures
        run(s, taking(id, n)).hub.attached(id),
        taken(s, taking(id, n), id) == s.hub.pending(id).take(n as int),
        run(s, taking(id, n)).hub.pending(id) == s.hub.pending(id).skip(n as int),
        run(s, taking(id, n)).latest == s.latest,
    decreases n,
{
    let steps = taking(id, n);
    let waiting = s.hub.pending(id);
    if n == 0 {
        assert(taken(s, steps, id) =~= waiting.take(0));
        assert(waiting.skip(0) =~= waiting);
    } else {
        let m = (n - 1) as nat;
        assert(steps.drop_last() =~= taking(id, m));
        assert(steps.last() == Step::Take(id));
        lemma_taken_in_a_row(s, id, m);
        let prev = run(s, taking(id, m));
        assert(prev.hub.pending(id) == waiting.skip(m as int));
        assert(prev.hub.front(id) == Some(waiting[m as int]));
        assert(waiting.take(m as int).push(waiting[m as int]) =~= waiting.take(n as int));
        assert(waiting.skip(m as int).drop_first() =~= waiting.skip(n as int));
    }
}

/// A subscriber attached before publishing starts receives what is
/// published, exactly and in order.
///
/// The subscriber is attached with nothing waiting. The readings are
/// published in a row and fit into its queue. It then takes as many times as
/// readings were published: what it takes is the published sequence, and
/// nothing is left waiting.
pub proof fn lemma_subscriber_receives_sequence(
    s: DistributionState,
    readings: Seq<HeartRateData>,
    id: u64,
)
    requires
        s.hub.valid(),
        s.hub.attached(id),
        s.hub.pending(id).len() == 0,
        readings.len() <= s.hub.capacity,
    ensures
        ({
            let full = run(s, publishing(readings));
            &&& full.hub.attached(id)
            &&& taken(full, taking(id, readings.len()), id) == readings
            &&& run(full, taking(id, readings.len())).hub.pending(id).len() == 0
        }),
{
    lemma_published_in_a_row(s, readings, id);
    let full = run(s, publishing(readings));
    assert(full.hub.pending(id) =~= readings);
    lemma_taken_in_a_row(full, id, readings.len());
    assert(readings.take(readings.len() as int) =~= readings);
}

/// Attaching late: the snapshot is the latest reading, and the live stream
/// starts right behind it.
///
/// Some readings are published during `before`, at least one. A subscriber
/// then attaches. Its snapshot is the last reading published during
/// `before`, and nothing waits for it. If it is still attached after the
/// history `later`, then what it took during `later`, followed by what still
/// waits for it, is exactly what `later` published, in order: the reading of
/// the snapshot does not come again, and the one published next is the first
/// to come.
pub proof fn lemma_late_attach(
    s: DistributionState,
    before: Seq<Step>,
    later: Seq<Step>,
)
    requires
        s.hub.valid(),
        sent(before).len() > 0,
        run(s, before).hub.has_room(),
    ensures
        ({
            let at_attach = run(s, before);
            let joined = at_attach.attached_one();
            let attachment = at_attach.attachment();
            &&& attachment is Some
            &&& attachment->Some_0.snapshot == Some(sent(before).last())
            &&& joined.hub.attached(attachment->Some_0.id)
            &&& joined.hub.pending(attachment->Some_0.id).len() == 0
            &&& run(joined, later).hub.attached(attachment->Some_0.id) ==> taken(
                joined,
                later,
                attachment->Some_0.id,
            ) + run(joined, later).hub.pending(attachment->Some_0.id) == sent(later)
        }),
{
    let at_attach = run(s, before);
    let joined = at_attach.attached_one();
    let id = at_attach.attachment()->Some_0.id;
    lemma_latest_is_last_sent(s, before);
    lemma_run_keeps_valid(s, before);
    lemma_step_keeps_valid(at_attach, Step::Attach);
    assert(joined == after(at_attach, Step::Attach));
    if run(joined, later).hub.attached(id) {
        lemma_delivery_in_order(joined, later, id);
        assert(joined.hub.pending(id) + sent(later) =~= sent(later));
    }
}

/// Attaching early: a subscriber that attaches before any reading exists
/// gets no snapshot and takes nothing until the first publication.
///
/// Nothing is published during `before`, and the store was empty. The
/// subscriber that attaches then is handed no snapshot. As long as `later`
/// publishes nothing, it takes nothing.
pub proof fn lemma_early_attach(s: DistributionState, before: Seq<Step>, later: Seq<Step>)
    requires
        s.hub.valid(),
        s.latest is None,
        sent(before).len() == 0,
        run(s, before).hub.has_room(),
        sent(later).len() == 0,
    ensures
        ({
            let at_attach = run(s, before);
            let joined = at_attach.attached_one();
            let attachment = at_attach.attachment();
            &&& attachment is Some
            &&& attachment->Some_0.snapshot is None
            &&& run(joined, later).hub.attached(attachment->Some_0.id) ==> taken(
                joined,
                later,
                attachment->Some_0.id,
            ).len() == 0
        }),
{
    let at_attach = run(s, before);
    let joined = at_attach.attached_one();
    let id = at_attach.attachment()->Some_0.id;
    lemma_latest_is_last_sent(s, before);
    lemma_run_keeps_valid(s, before);
    lemma_step_keeps_valid(at_attach, Step::Attach);
    assert(joined == after(at_attach, Step::Attach));
    if run(joined, later).hub.attached(id) {
        lemma_delivery_in_order(joined, later, id);
        assert(taken(joined, later, id) + run(joined, later).hub.pending(id) =~= sent(later));
    }
}

/// Two subscribers that both keep up get the same reading from one
/// publication, each at the end of its queue.
pub proof fn lemma_same_reading_for_all(s: HubState, reading: HeartRateData, a: u64, b: u64)
    requires
        s.keeps_up(a),
        s.keeps_up(b),
    ensures
        s.published(reading).attached(a),
        s.published(reading).attached(b),
        s.published(reading).pending(a) == s.pending(a).push(reading),
        s.published(reading).pending(b) == s.pending(b).push(reading),
        s.published(reading).pending(a).last() == s.published(reading).pending(b).last(),
{
}

} // verus!
