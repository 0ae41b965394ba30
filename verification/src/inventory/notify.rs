//! Change notifications: the slot changes of a pass, gathered into one
//! batch per container.

use vstd::prelude::*;

use super::protocol::ChangeBatch;
use super::protocol::InventoryChanged;
use super::protocol::InventoryHandle;
use super::protocol::SlotChange;

verus! {

/// One reported change: the container and the new content of one of its slots.
pub type LoggedChange = (InventoryHandle, SlotChange);

/// The containers that a log touches, each once, in the order in which the
/// log first touches them.
pub open spec fn containers_in(log: Seq<LoggedChange>) -> Seq<InventoryHandle>
    decreases log.len(),
{
    if log.len() == 0 {
        Seq::empty()
    } else {
        let earlier = containers_in(log.drop_last());
        if earlier.contains(log.last().0) {
            earlier
        } else {
            earlier.push(log.last().0)
        }
    }
}

/// The changes that a log holds for one container, in the order of the log.
pub open spec fn changes_for(log: Seq<LoggedChange>, inv: InventoryHandle) -> Seq<SlotChange>
    decreases log.len(),
{
    if log.len() == 0 {
        Seq::empty()
    } else {
        let earlier = changes_for(log.drop_last(), inv);
        if log.last().0 == inv {
            earlier.push(log.last().1)
        } else {
            earlier
        }
    }
}

/// The notifications for a log: one batch for each container that the log
/// touches, in the order of first touch, holding all changes of that
/// container in the order in which they happened.
pub open spec fn coalesce(log: Seq<LoggedChange>) -> Seq<ChangeBatch> {
    Seq::new(
        containers_in(log).len(),
        |k: int|
            ChangeBatch {
                inv: containers_in(log)[k],
                changes: changes_for(log, containers_in(log)[k]),
            },
    )
}

/// A list of notifications as mathematics.
pub open spec fn batch_views(batches: Seq<InventoryChanged>) -> Seq<ChangeBatch> {
    Seq::new(batches.len(), |k: int| batches[k]@)
}

/// A container has a batch exactly when the log holds a change for it.
pub proof fn lemma_batch_for_each_touched(log: Seq<LoggedChange>, inv: InventoryHandle)
    ensures
        containers_in(log).contains(inv) <==> exists|i: int| 0 <= i < log.len() && log[i].0 == inv,
    decreases log.len(),
{
    if log.len() > 0 {
        let earlier = log.drop_last();
        lemma_batch_for_each_touched(earlier, inv);
        let last = log.last().0;
        if containers_in(earlier).contains(last) {
            lemma_batch_for_each_touched(earlier, last);
        } else {
            let grown = containers_in(earlier).push(last);
            assert(grown[grown.len() - 1] == last);
            assert forall|h: InventoryHandle| grown.contains(h) <==> (containers_in(
                earlier,
            ).contains(h) || h == last) by {
                if containers_in(earlier).contains(h) {
                    let k = choose|k: int|
                        0 <= k < containers_in(earlier).len() && containers_in(earlier)[k] == h;
                    assert(grown[k] == h);
                }
            }
        }
        if exists|i: int| 0 <= i < log.len() && log[i].0 == inv {
            let i = choose|i: int| 0 <= i < log.len() && log[i].0 == inv;
            if i < log.len() - 1 {
                assert(earlier[i].0 == inv);
            }
        }
    }
}

/// No container has two batches.
pub proof fn lemma_one_batch_per_container(log: Seq<LoggedChange>)
    ensures
        containers_in(log).no_duplicates(),
        forall|i: int, j: int|
            0 <= i < j < coalesce(log).len() ==> coalesce(log)[i].inv != coalesce(log)[j].inv,
    decreases log.len(),
{
    if log.len() > 0 {
        lemma_one_batch_per_container(log.drop_last());
    }
}

/// The log holds nothing for a container without a batch, and something
/// for each container with one: no batch is empty.
pub proof fn lemma_no_empty_batch(log: Seq<LoggedChange>, inv: InventoryHandle)
    ensures
        containers_in(log).contains(inv) <==> changes_for(log, inv).len() > 0,
    decreases log.len(),
{
    if log.len() > 0 {
        let earlier = log.drop_last();
        lemma_no_empty_batch(earlier, inv);
        let last = log.last().0;
        if !containers_in(earlier).contains(last) {
            let grown = containers_in(earlier).push(last);
            assert(grown[grown.len() - 1] == last);
            if containers_in(earlier).contains(inv) {
                let k = choose|k: int|
                    0 <= k < containers_in(earlier).len() && containers_in(earlier)[k] == inv;
                assert(grown[k] == inv);
            }
        }
    }
}

/// Adds one change to the notifications gathered so far for `log`.
#[verifier::loop_isolation(false)]
pub(crate) fn record_change(
    batches: &mut Vec<InventoryChanged>,
    Ghost(log): Ghost<Seq<LoggedChange>>,
    inv: InventoryHandle,
    change: SlotChange,
)
    requires
        batch_views(old(batches)@) == coalesce(log),
    ensures
        batch_views(final(batches)@) == coalesce(log.push((inv, change))),
{
    let ghost grown = log.push((inv, change));
    proof {
        assert(grown.drop_last() =~= log);
        lemma_one_batch_per_container(log);
        lemma_no_empty_batch(log, inv);
        assert(batch_views(batches@).len() == batches@.len());
        assert forall|k: int| 0 <= k < batches@.len() implies (#[trigger] batches@[k]).inv
            == containers_in(log)[k] && batches@[k].changes@ == changes_for(
            log,
            containers_in(log)[k],
        ) by {
            assert(batch_views(batches@)[k] == batches@[k]@);
        }
    }
    let mut k: usize = 0;
    while k < batches.len()
        invariant
            k <= batches@.len(),
            batches@ == old(batches)@,
            forall|j: int| 0 <= j < k ==> batches@[j].inv != inv,
        decreases batches@.len() - k,
    {
        if batches[k].inv == inv {
            batches[k].changes.push(change);
            return ;
        }
        k += 1;
    }
    let mut changes: Vec<SlotChange> = Vec::new();
    changes.push(change);
    batches.push(InventoryChanged { inv, changes });
    proof {
        assert(!containers_in(log).contains(inv)) by {
            if containers_in(log).contains(inv) {
                let j = choose|j: int|
                    0 <= j < containers_in(log).len() && containers_in(log)[j] == inv;
                assert(old(batches)@[j].inv == inv);
            }
        }
        assert(changes_for(log, inv) =~= Seq::<SlotChange>::empty());
    }
}

} // verus!
