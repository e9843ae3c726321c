//! Webhook registration convergence.
//!
//! The bridge must be the sole active listener: registration first deletes
//! every webhook watching created messages, then adds one fresh registration
//! pointing at its own URL. Deletions complete before the add; a failure
//! during deletion aborts the routine, leaving fewer or no matching
//! webhooks, never a duplicated one. The routine's decisions are the step
//! function below; performing the requests is the caller's part.

use vstd::prelude::*;

use crate::Error;
use crate::api_types::{Webhook, WebhookV, Webhooks};
use crate::ids::{EventType, ResourceType, WebhookId};

verus! {

/// Whether a registration record matches the bridge's subscription: it
/// watches created messages.
pub open spec fn is_matching(w: WebhookV) -> bool {
    w.resource is Messages && w.event is Created
}

/// Whether one registration record matches the bridge's subscription.
pub fn webhook_matches(w: &Webhook) -> (r: bool)
    ensures
        r == is_matching(w@),
{
    match (w.resource, w.event) {
        (ResourceType::Messages, EventType::Created) => true,
        _ => false,
    }
}

/// The ids of the matching records of a list, in list order.
pub open spec fn matching_ids(s: Seq<WebhookV>) -> Seq<Seq<char>>
    decreases s.len(),
{
    if s.len() == 0 {
        Seq::<Seq<char>>::empty()
    } else {
        let rest = matching_ids(s.drop_last());
        if is_matching(s.last()) {
            rest.push(s.last().id)
        } else {
            rest
        }
    }
}

/// Collect the ids of every registration that matches the bridge's
/// subscription; these are exactly the records the convergence routine
/// deletes before adding its own.
#[verifier::loop_isolation(false)]
pub fn webhooks_to_delete(hooks: &Webhooks) -> (r: Vec<WebhookId>)
    ensures
        Seq::new(r@.len(), |k: int| r@[k]@) == matching_ids(hooks@),
{
    let mut r: Vec<WebhookId> = Vec::new();
    let mut i: usize = 0;
    while i < hooks.items.len()
        invariant
            i <= hooks.items.len(),
            Seq::new(r@.len(), |k: int| r@[k]@) == matching_ids(hooks@.take(i as int)),
        decreases hooks.items.len() - i,
    {
        proof {
            assert(hooks@.take(i + 1).drop_last() =~= hooks@.take(i as int));
            assert(hooks@.take(i + 1).last() == hooks@[i as int]);
        }
        if webhook_matches(&hooks.items[i]) {
            r.push(WebhookId(hooks.items[i].id.0.clone()));
        }
        proof {
            assert(Seq::new(r@.len(), |k: int| r@[k]@) =~= matching_ids(hooks@.take(i + 1)));
        }
        i += 1;
    }
    proof {
        assert(hooks@.take(hooks.items@.len() as int) =~= hooks@);
    }
    r
}

// ---------------------------------------------------------------------------
// The convergence routine as a state machine
// ---------------------------------------------------------------------------

/// Where the convergence routine stands.
#[derive(Clone, Debug, PartialEq)]
pub enum RegisterState {
    /// Nothing has happened yet.
    Start,
    /// The list request is in flight.
    Listing,
    /// Deletions are in flight; `pending` holds the ids still to delete,
    /// the last one next.
    Deleting { pending: Vec<WebhookId> },
    /// The add request is in flight.
    Adding,
    /// The routine converged: exactly one matching registration remains.
    Done,
    /// The routine aborted; no add was issued after a failed deletion.
    Failed(Error),
}

/// What the transport reports back to the routine.
#[derive(Debug)]
pub enum RegisterEvent {
    /// Start the routine.
    Begin,
    /// The list request finished.
    Listed(Result<Webhooks, Error>),
    /// One delete request finished.
    Deleted(Result<(), Error>),
    /// The add request finished.
    Added(Result<(), Error>),
}

/// What the routine asks the transport to do next.
#[derive(Clone, Debug, PartialEq)]
pub enum RegisterAction {
    /// List all webhook registrations.
    List,
    /// Delete the registration with this id.
    Delete(WebhookId),
    /// Add the bridge's own registration.
    Add,
    /// Nothing further; the routine has finished or aborted.
    Stop,
}

/// One decision step of the convergence routine: from the current state and
/// the event the transport reported, to the next state and the next request.
/// Deletions always complete before the add is issued, and any failure
/// aborts the routine without issuing the add.
pub fn register_step(state: RegisterState, event: RegisterEvent) -> (r: (
    RegisterState,
    RegisterAction,
))
    ensures
        state is Start && event is Begin ==> r.0 is Listing && r.1 is List,
        state is Start && !(event is Begin) ==> r.0 == RegisterState::Failed(
            Error::RegisterWebhook,
        ) && r.1 is Stop,
        state is Listing ==> match event {
            RegisterEvent::Listed(res) => match res {
                Ok(hooks) => {
                    let ids = matching_ids(hooks@);
                    if ids.len() == 0 {
                        r.0 is Adding && r.1 is Add
                    } else {
                        &&& r.0 matches RegisterState::Deleting { pending } && Seq::new(
                            pending@.len(),
                            |k: int| pending@[k]@,
                        ) == ids.drop_last()
                        &&& r.1 matches RegisterAction::Delete(id) && id@ == ids.last()
                    }
                },
                Err(e) => r.0 == RegisterState::Failed(e) && r.1 is Stop,
            },
            _ => r.0 is Failed && r.1 is Stop,
        },
        state matches RegisterState::Deleting { pending } ==> match event {
            RegisterEvent::Deleted(res) => match res {
                Ok(u) => if pending@.len() == 0 {
                    r.0 is Adding && r.1 is Add
                } else {
                    &&& r.0 matches RegisterState::Deleting { pending: rest } && rest@
                        == pending@.drop_last()
                    &&& r.1 matches RegisterAction::Delete(id) && id == pending@.last()
                },
                Err(e) => r.0 == RegisterState::Failed(e) && r.1 is Stop,
            },
            _ => r.0 is Failed && r.1 is Stop,
        },
        state is Adding ==> match event {
            RegisterEvent::Added(res) => match res {
                Ok(u) => r.0 is Done && r.1 is Stop,
                Err(e) => r.0 == RegisterState::Failed(e) && r.1 is Stop,
            },
            _ => r.0 is Failed && r.1 is Stop,
        },
        state is Done ==> r.0 is Done && r.1 is Stop,
        state matches RegisterState::Failed(e) ==> r.0 == RegisterState::Failed(e) && r.1 is Stop,
{
    match (state, event) {
        (RegisterState::Start, RegisterEvent::Begin) => (RegisterState::Listing,
        RegisterAction::List),
        (RegisterState::Listing, RegisterEvent::Listed(res)) => match res {
            Ok(hooks) => {
                let mut pending = webhooks_to_delete(&hooks);
                match pending.pop() {
                    Some(first) => (RegisterState::Deleting { pending },
                    RegisterAction::Delete(first)),
                    None => (RegisterState::Adding, RegisterAction::Add),
                }
            },
            Err(e) => (RegisterState::Failed(e), RegisterAction::Stop),
        },
        (RegisterState::Deleting { mut pending }, RegisterEvent::Deleted(res)) => match res {
            Ok(_u) => match pending.pop() {
                Some(next) => (RegisterState::Deleting { pending }, RegisterAction::Delete(next)),
                None => (RegisterState::Adding, RegisterAction::Add),
            },
            Err(e) => (RegisterState::Failed(e), RegisterAction::Stop),
        },
        (RegisterState::Adding, RegisterEvent::Added(res)) => match res {
            Ok(_u) => (RegisterState::Done, RegisterAction::Stop),
            Err(e) => (RegisterState::Failed(e), RegisterAction::Stop),
        },
        (RegisterState::Done, _) => (RegisterState::Done, RegisterAction::Stop),
        (RegisterState::Failed(e), _) => (RegisterState::Failed(e), RegisterAction::Stop),
        (s, _) => (RegisterState::Failed(Error::RegisterWebhook), RegisterAction::Stop),
    }
}

// ---------------------------------------------------------------------------
// Idempotent convergence, on the platform model
// ---------------------------------------------------------------------------

/// The platform's registration list with every matching record removed —
/// what the deletion phase leaves behind.
pub open spec fn drop_matching(p: Seq<WebhookV>) -> Seq<WebhookV>
    decreases p.len(),
{
    if p.len() == 0 {
        Seq::<WebhookV>::empty()
    } else {
        let rest = drop_matching(p.drop_last());
        if is_matching(p.last()) {
            rest
        } else {
            rest.push(p.last())
        }
    }
}

/// How many records of a list match the bridge's subscription.
pub open spec fn count_matching(p: Seq<WebhookV>) -> nat
    decreases p.len(),
{
    if p.len() == 0 {
        0
    } else {
        count_matching(p.drop_last()) + if is_matching(p.last()) {
            1nat
        } else {
            0nat
        }
    }
}

/// What one run of the convergence routine leaves on the platform: every
/// matching record deleted, then the fresh registration `added` appended.
pub open spec fn register_effect(p: Seq<WebhookV>, added: WebhookV) -> Seq<WebhookV> {
    drop_matching(p).push(added)
}

/// Nothing that survives the deletion phase matches.
pub proof fn lemma_drop_matching_clean(p: Seq<WebhookV>)
    ensures
        count_matching(drop_matching(p)) == 0,
        forall|i: int| 0 <= i < drop_matching(p).len() ==> !is_matching(
            #[trigger] drop_matching(p)[i],
        ),
    decreases p.len(),
{
    if p.len() > 0 {
        lemma_drop_matching_clean(p.drop_last());
        if !is_matching(p.last()) {
            let rest = drop_matching(p.drop_last());
            assert(rest.push(p.last()).drop_last() =~= rest);
        }
    }
}

/// The deletion phase leaves a list with no matching record unchanged.
pub proof fn lemma_drop_matching_noop(p: Seq<WebhookV>)
    requires
        count_matching(p) == 0,
    ensures
        drop_matching(p) =~= p,
    decreases p.len(),
{
    if p.len() > 0 {
        lemma_drop_matching_noop(p.drop_last());
    }
}

/// Appending one record changes the deletion result and the matching count
/// in the evident way.
pub proof fn lemma_push(p: Seq<WebhookV>, w: WebhookV)
    ensures
        count_matching(p.push(w)) == count_matching(p) + if is_matching(w) {
            1nat
        } else {
            0nat
        },
        is_matching(w) ==> drop_matching(p.push(w)) == drop_matching(p),
        !is_matching(w) ==> drop_matching(p.push(w)) == drop_matching(p).push(w),
{
    assert(p.push(w).drop_last() =~= p);
    assert(p.push(w).last() == w);
}

/// Registration converges: after one run, exactly one record matches, and
/// it is the fresh registration. After a second run against the resulting
/// state, still exactly one record matches, and it is the second run's
/// fresh registration — never two, whatever the platform held before.
pub proof fn lemma_register_idempotent(p: Seq<WebhookV>, w1: WebhookV, w2: WebhookV)
    requires
        is_matching(w1),
        is_matching(w2),
    ensures
        count_matching(register_effect(p, w1)) == 1,
        forall|i: int| 0 <= i < register_effect(p, w1).len() && is_matching(
            #[trigger] register_effect(p, w1)[i],
        ) ==> register_effect(p, w1)[i] == w1,
        count_matching(register_effect(register_effect(p, w1), w2)) == 1,
        forall|i: int| 0 <= i < register_effect(register_effect(p, w1), w2).len() && is_matching(
            #[trigger] register_effect(register_effect(p, w1), w2)[i],
        ) ==> register_effect(register_effect(p, w1), w2)[i] == w2,
{
    lemma_drop_matching_clean(p);
    lemma_push(drop_matching(p), w1);
    lemma_drop_matching_noop(drop_matching(p));
    lemma_drop_matching_clean(register_effect(p, w1));
    lemma_push(drop_matching(register_effect(p, w1)), w2);
    assert(drop_matching(register_effect(p, w1)) =~= drop_matching(p));
    lemma_push(drop_matching(p), w2);
}

} // verus!
