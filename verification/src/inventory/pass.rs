//! The apply pass: a queue of commands goes in, one result for each command
//! and one notification for each touched container come out.
//!
//! Commands are applied in the order in which they were submitted, each to
//! completion or refusal, and each sees what the earlier ones did. A refused
//! command stops nothing: the commands behind it still run.

use vstd::prelude::*;

use super::engine::action_changes;
use super::engine::action_outcome;
use super::error::InventoryError;
use super::notify::batch_views;
use super::notify::coalesce;
use super::notify::record_change;
use super::notify::LoggedChange;
use super::protocol::InventoryAction;
use super::protocol::InventoryChanged;
use super::protocol::InventoryRequest;
use super::protocol::InventoryResult;
use super::protocol::ResultView;
use super::registry::InventoryRegistry;
use super::registry::RegistryState;

verus! {

/// What one command brought about.
#[derive(Debug)]
pub struct RequestOutcome {
    /// The answer to the command.
    pub result: InventoryResult,
    /// One notification for each container that the command changed.
    pub changed: Vec<InventoryChanged>,
}

/// What one pass over a queue of commands brought about.
#[derive(Debug)]
pub struct PassOutput {
    /// The answer to each command, in the order of the queue.
    pub results: Vec<InventoryResult>,
    /// One notification for each container that the pass changed.
    pub changed: Vec<InventoryChanged>,
}

/// The words that report why `action` was refused. A move names both of
/// its containers when one of them is missing.
pub open spec fn failure_text(action: InventoryAction, refusal: InventoryError) -> Seq<char> {
    if action is Move && refusal is ContainerNotFound {
        "Source or destination inventory not found"@
    } else {
        refusal.text()
    }
}

/// The state after `action` met `state`: changed where the action is
/// accepted, the same where it is refused.
pub open spec fn step(state: RegistryState, action: InventoryAction) -> RegistryState {
    match action_outcome(state, action) {
        Ok(after) => after,
        Err(_) => state,
    }
}

/// The changes that `action` reports when it meets `state`: none where it
/// is refused.
pub open spec fn request_changes(state: RegistryState, action: InventoryAction) -> Seq<
    LoggedChange,
> {
    match action_outcome(state, action) {
        Ok(after) => action_changes(after, action),
        Err(_) => Seq::empty(),
    }
}

/// The answer to `request` when it meets `state`: its own id, whether it
/// was accepted, and the reason where it was not.
pub open spec fn result_for(state: RegistryState, request: InventoryRequest) -> ResultView {
    match action_outcome(state, request.action) {
        Ok(_) => ResultView { id: request.id, ok: true, details: None },
        Err(refusal) => ResultView {
            id: request.id,
            ok: false,
            details: Some(failure_text(request.action, refusal)),
        },
    }
}

/// The state after a queue of commands was applied in order.
pub open spec fn pass_state(state: RegistryState, requests: Seq<InventoryRequest>) -> RegistryState
    decreases requests.len(),
{
    if requests.len() == 0 {
        state
    } else {
        step(pass_state(state, requests.drop_last()), requests.last().action)
    }
}

/// Every change that a queue of commands reports, in order.
pub open spec fn pass_log(state: RegistryState, requests: Seq<InventoryRequest>) -> Seq<
    LoggedChange,
>
    decreases requests.len(),
{
    if requests.len() == 0 {
        Seq::empty()
    } else {
        pass_log(state, requests.drop_last()) + request_changes(
            pass_state(state, requests.drop_last()),
            requests.last().action,
        )
    }
}

fn failure_details(action: &InventoryAction, refusal: InventoryError) -> (words: String)
    ensures
        words@ == failure_text(*action, refusal),
{
    match (action, refusal) {
        (InventoryAction::Move { .. }, InventoryError::ContainerNotFound) =>
            "Source or destination inventory not found".to_owned(),
        _ => refusal.message(),
    }
}

fn record_all(
    batches: &mut Vec<InventoryChanged>,
    Ghost(log): Ghost<Seq<LoggedChange>>,
    changes: &Vec<LoggedChange>,
)
    requires
        batch_views(old(batches)@) == coalesce(log),
    ensures
        batch_views(final(batches)@) == coalesce(log + changes@),
{
    let mut k: usize = 0;
    while k < changes.len()
        invariant
            k <= changes@.len(),
            batch_views(batches@) == coalesce(log + changes@.take(k as int)),
        decreases changes@.len() - k,
    {
        let (inv, change) = changes[k];
        record_change(batches, Ghost(log + changes@.take(k as int)), inv, change);
        assert((log + changes@.take(k as int)).push((inv, change)) =~= log + changes@.take(
            k as int + 1,
        ));
        k += 1;
    }
    assert(changes@.take(k as int) =~= changes@);
}

/// Applies one command and reports on it.
///
/// The registry moves to [`step`] of the action, the result is
/// [`result_for`] the command, and the notifications are the changes of
/// this command alone, one batch for each container.
pub fn apply_request(registry: &mut InventoryRegistry, request: &InventoryRequest) -> (outcome:
    RequestOutcome)
    ensures
        final(registry)@ == step(old(registry)@, request.action),
        final(registry).spent() == old(registry).spent(),
        outcome.result@ == result_for(old(registry)@, *request),
        batch_views(outcome.changed@) == coalesce(
            request_changes(old(registry)@, request.action),
        ),
{
    let mut changed: Vec<InventoryChanged> = Vec::new();
    assert(batch_views(changed@) =~= coalesce(Seq::<LoggedChange>::empty()));
    match registry.apply_action(&request.action) {
        Ok(changes) => {
            record_all(&mut changed, Ghost(Seq::empty()), &changes);
            RequestOutcome {
                result: InventoryResult { id: request.id, ok: true, details: None },
                changed,
            }
        },
        Err(refusal) => {
            let details = failure_details(&request.action, refusal);
            RequestOutcome {
                result: InventoryResult { id: request.id, ok: false, details: Some(details) },
                changed,
            }
        },
    }
}

/// Applies a queue of commands in order: one pass.
///
/// The registry ends in [`pass_state`]. There is exactly one result for
/// each command, in the order of the queue, and each is the answer that
/// the command earned from the state that the commands before it left
/// behind. The notifications gather every change of the pass into one
/// batch for each touched container.
pub fn apply_inventory_requests(
    registry: &mut InventoryRegistry,
    requests: &Vec<InventoryRequest>,
) -> (output: PassOutput)
    ensures
        final(registry)@ == pass_state(old(registry)@, requests@),
        final(registry).spent() == old(registry).spent(),
        output.results@.len() == requests@.len(),
        forall|k: int|
            0 <= k < requests@.len() ==> (#[trigger] output.results@[k])@ == result_for(
                pass_state(old(registry)@, requests@.take(k)),
                requests@[k],
            ),
        batch_views(output.changed@) == coalesce(pass_log(old(registry)@, requests@)),
{
    let mut results: Vec<InventoryResult> = Vec::new();
    let mut changed: Vec<InventoryChanged> = Vec::new();
    let ghost start = registry@;
    let mut i: usize = 0;
    while i < requests.len()
        invariant
            i <= requests@.len(),
            start == old(registry)@,
            registry.spent() == old(registry).spent(),
            registry@ == pass_state(start, requests@.take(i as int)),
            results@.len() == i,
            forall|k: int|
                0 <= k < i ==> (#[trigger] results@[k])@ == result_for(
                    pass_state(start, requests@.take(k)),
                    requests@[k],
                ),
            batch_views(changed@) == coalesce(pass_log(start, requests@.take(i as int))),
        decreases requests@.len() - i,
    {
        let request = &requests[i];
        let ghost log = pass_log(start, requests@.take(i as int));
        proof {
            let next = requests@.take(i as int + 1);
            assert(next.drop_last() =~= requests@.take(i as int));
        }
        let result = match registry.apply_action(&request.action) {
            Ok(changes) => {
                record_all(&mut changed, Ghost(log), &changes);
                InventoryResult { id: request.id, ok: true, details: None }
            },
            Err(refusal) => InventoryResult {
                id: request.id,
                ok: false,
                details: Some(failure_details(&request.action, refusal)),
            },
        };
        results.push(result);
        i += 1;
    }
    assert(requests@.take(i as int) =~= requests@);
    PassOutput { results, changed }
}

} // verus!
