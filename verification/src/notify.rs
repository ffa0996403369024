//! Observer registrations and the view-sync fan-out.
//!
//! An observer subscribes to exactly one axis and receives every
//! accepted transition on that axis, in registration order. A rejected
//! or idempotent transition delivers nothing.

use vstd::prelude::*;

use crate::axes::AxisId;
use crate::axes::StateValue;

verus! {

/// One observer registration: the subscriber `id` receives every
/// accepted transition on `axis`.
#[derive(Clone, Copy, PartialEq, Eq, Structural, Debug)]
pub struct ObserverReg {
    pub axis: AxisId,
    pub id: u64,
}

/// One delivered notification: observer `observer` was told that `axis`
/// switched to `value`.
#[derive(Clone, Copy, PartialEq, Eq, Structural, Debug)]
pub struct Notification {
    pub observer: u64,
    pub axis: AxisId,
    pub value: StateValue,
}

/// The notifications one accepted transition on `axis` to `value`
/// delivers: one per observer registered on that axis, in registration
/// order; observers of other axes receive nothing.
pub open spec fn notes_for(obs: Seq<ObserverReg>, axis: AxisId, value: StateValue) -> Seq<
    Notification,
>
    decreases obs.len(),
{
    if obs.len() == 0 {
        Seq::empty()
    } else {
        let init = notes_for(obs.drop_last(), axis, value);
        if obs.last().axis == axis {
            init.push(Notification { observer: obs.last().id, axis: axis, value: value })
        } else {
            init
        }
    }
}

/// Law: a transition on one axis never notifies an observer subscribed
/// to a different axis, and every delivered notification carries the
/// transition's own axis and value.
pub proof fn lemma_notes_stay_on_axis(obs: Seq<ObserverReg>, axis: AxisId, value: StateValue)
    ensures
        forall|i: int|
            0 <= i < notes_for(obs, axis, value).len() ==> #[trigger] notes_for(
                obs,
                axis,
                value,
            )[i].axis == axis && notes_for(obs, axis, value)[i].value == value,
    decreases obs.len(),
{
    if obs.len() > 0 {
        lemma_notes_stay_on_axis(obs.drop_last(), axis, value);
    }
}

/// Law: observers subscribed to the axis are notified in registration
/// order, one notification each; the fan-out count equals the number of
/// subscribers on that axis.
pub proof fn lemma_notes_count(obs: Seq<ObserverReg>, axis: AxisId, value: StateValue)
    ensures
        notes_for(obs, axis, value).len() == obs.filter(|r: ObserverReg| r.axis == axis).len(),
    decreases obs.len(),
{
    reveal(Seq::filter);
    if obs.len() > 0 {
        lemma_notes_count(obs.drop_last(), axis, value);
    }
}

/// Appends to `log` the notifications that an accepted transition on
/// `axis` to `value` owes: every subscriber of that axis, in
/// registration order.
pub fn fan_out(
    obs: &Vec<ObserverReg>,
    log: &mut Vec<Notification>,
    axis: AxisId,
    value: StateValue,
)
    ensures
        final(log)@ == old(log)@ + notes_for(obs@, axis, value),
{
    let mut i: usize = 0;
    while i < obs.len()
        invariant
            i <= obs.len(),
            log@ == old(log)@ + notes_for(obs@.take(i as int), axis, value),
        decreases obs.len() - i,
    {
        proof {
            assert(obs@.take(i + 1).drop_last() =~= obs@.take(i as int));
            assert(obs@.take(i + 1).last() == obs@[i as int]);
        }
        let reg = obs[i];
        if reg.axis == axis {
            let note = Notification { observer: reg.id, axis: axis, value: value };
            log.push(note);
            proof {
                assert((old(log)@ + notes_for(obs@.take(i as int), axis, value)).push(note)
                    =~= old(log)@ + notes_for(obs@.take(i + 1), axis, value));
            }
        }
        i = i + 1;
    }
    proof {
        assert(obs@.take(obs@.len() as int) =~= obs@);
    }
}

} // verus!
