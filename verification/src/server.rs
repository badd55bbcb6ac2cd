//! The supervisor: the collections of targets and subscriptions and the
//! registry mapping entity identifier to its worker's kind, together with the
//! add/remove operations that keep them consistent, and the target worker's
//! message-routing decision.

use std::collections::HashMap;
use vstd::prelude::*;

use crate::config::Config;
use crate::message::UpdateMessage;
use crate::subscription::Subscription;
use crate::target::Target;
use crate::template::{render, rendered_line};

verus! {

broadcast use vstd::std_specs::hash::group_hash_axioms;

/// The kind of worker a registry entry stands for.
#[derive(Debug, Clone, Copy, PartialEq, Eq, Structural)]
pub enum HandlerType {
    Subscription,
    Target,
}

/// Why a remove operation failed. A failed remove leaves the supervisor
/// unchanged.
#[derive(Debug, Clone, Copy, PartialEq, Eq, Structural)]
pub enum RemoveError {
    /// The identifier is unknown, or registered for the other worker kind.
    NotFound,
}

/// The registry holds the identifier under the target kind.
pub open spec fn target_registered(reg: Map<usize, HandlerType>, id: usize) -> bool {
    reg.contains_key(id) && reg[id] is Target
}

/// The registry holds the identifier under the subscription kind.
pub open spec fn subscription_registered(reg: Map<usize, HandlerType>, id: usize) -> bool {
    reg.contains_key(id) && reg[id] is Subscription
}

/// The target collection with every entry of the given identifier taken out.
pub open spec fn targets_without(targets: Seq<Target>, id: usize) -> Seq<Target>
    decreases targets.len(),
{
    if targets.len() == 0 {
        Seq::empty()
    } else {
        let rest = targets_without(targets.drop_last(), id);
        if targets.last().id == id {
            rest
        } else {
            rest.push(targets.last())
        }
    }
}

/// The subscription collection with every entry of the given identifier taken
/// out.
pub open spec fn subscriptions_without(subs: Seq<Subscription>, id: usize) -> Seq<Subscription>
    decreases subs.len(),
{
    if subs.len() == 0 {
        Seq::empty()
    } else {
        let rest = subscriptions_without(subs.drop_last(), id);
        if subs.last().id == id {
            rest
        } else {
            rest.push(subs.last())
        }
    }
}

/// The registry after registering a target worker per target, left to right.
pub open spec fn registry_with_targets(
    reg: Map<usize, HandlerType>,
    targets: Seq<Target>,
) -> Map<usize, HandlerType>
    decreases targets.len(),
{
    if targets.len() == 0 {
        reg
    } else {
        registry_with_targets(reg, targets.drop_last()).insert(
            targets.last().id,
            HandlerType::Target,
        )
    }
}

/// The registry after registering a subscription worker per subscription,
/// left to right.
pub open spec fn registry_with_subscriptions(
    reg: Map<usize, HandlerType>,
    subs: Seq<Subscription>,
) -> Map<usize, HandlerType>
    decreases subs.len(),
{
    if subs.len() == 0 {
        reg
    } else {
        registry_with_subscriptions(reg, subs.drop_last()).insert(
            subs.last().id,
            HandlerType::Subscription,
        )
    }
}

/// The registry a fresh supervisor starts with: one target worker per target,
/// then one subscription worker per subscription.
pub open spec fn init_registry(targets: Seq<Target>, subs: Seq<Subscription>) -> Map<
    usize,
    HandlerType,
> {
    registry_with_subscriptions(registry_with_targets(Map::empty(), targets), subs)
}

/// The supervisor's state: the configuration, the shared collections of
/// targets and subscriptions, and the worker registry. The running task
/// handles and cancellation triggers that the registry entries stand for are
/// owned by the runtime around the library.
#[derive(Debug)]
pub struct AppState {
    pub config: Config,
    pub targets: Vec<Target>,
    pub subscriptions: Vec<Subscription>,
    pub handlers: HashMap<usize, HandlerType>,
}

/// Build the fully wired supervisor state: the collections as loaded, and the
/// registry holding one target worker per target and one subscription worker
/// per subscription.
pub fn server_init(config: Config, targets: Vec<Target>, subscriptions: Vec<Subscription>) -> (s:
    AppState)
    ensures
        s.config == config,
        s.targets@ == targets@,
        s.subscriptions@ == subscriptions@,
        s.handlers@ == init_registry(targets@, subscriptions@),
{
    let mut handlers: HashMap<usize, HandlerType> = HashMap::new();
    let mut i: usize = 0;
    while i < targets.len()
        invariant
            i <= targets.len(),
            handlers@ == registry_with_targets(Map::empty(), targets@.take(i as int)),
        decreases targets.len() - i,
    {
        handlers.insert(targets[i].id, HandlerType::Target);
        proof {
            assert(targets@.take(i + 1 as int).drop_last() =~= targets@.take(i as int));
            assert(targets@.take(i + 1 as int).last() == targets@[i as int]);
        }
        i += 1;
    }
    proof {
        assert(targets@.take(targets@.len() as int) =~= targets@);
    }
    let ghost reg_targets = handlers@;
    let mut j: usize = 0;
    while j < subscriptions.len()
        invariant
            j <= subscriptions.len(),
            handlers@ == registry_with_subscriptions(reg_targets, subscriptions@.take(j as int)),
        decreases subscriptions.len() - j,
    {
        handlers.insert(subscriptions[j].id, HandlerType::Subscription);
        proof {
            assert(subscriptions@.take(j + 1 as int).drop_last() =~= subscriptions@.take(j as int));
            assert(subscriptions@.take(j + 1 as int).last() == subscriptions@[j as int]);
        }
        j += 1;
    }
    proof {
        assert(subscriptions@.take(subscriptions@.len() as int) =~= subscriptions@);
    }
    AppState { config, targets, subscriptions, handlers }
}

fn retain_without_id(targets: Vec<Target>, id: usize) -> (r: Vec<Target>)
    ensures
        r@ == targets_without(targets@, id),
{
    let ghost orig = targets@;
    let mut targets = targets;
    let mut kept: Vec<Target> = Vec::new();
    let ghost mut i: int = 0;
    proof {
        assert(orig.skip(0) =~= orig);
        assert(kept@ =~= targets_without(orig.take(0), id));
    }
    while targets.len() > 0
        invariant
            0 <= i <= orig.len(),
            targets@ == orig.skip(i),
            kept@ == targets_without(orig.take(i), id),
        decreases targets@.len(),
    {
        proof {
            assert(orig.skip(i).first() == orig[i]);
            assert(orig.skip(i).drop_first() =~= orig.skip(i + 1));
            assert(orig.take(i + 1).drop_last() =~= orig.take(i));
            assert(orig.take(i + 1).last() == orig[i]);
        }
        let t = targets.remove(0);
        if t.id != id {
            kept.push(t);
        }
        proof {
            i = i + 1;
        }
    }
    proof {
        assert(orig.take(i) =~= orig);
    }
    kept
}

fn retain_subs_without_id(subs: Vec<Subscription>, id: usize) -> (r: Vec<Subscription>)
    ensures
        r@ == subscriptions_without(subs@, id),
{
    let ghost orig = subs@;
    let mut subs = subs;
    let mut kept: Vec<Subscription> = Vec::new();
    let ghost mut i: int = 0;
    proof {
        assert(orig.skip(0) =~= orig);
        assert(kept@ =~= subscriptions_without(orig.take(0), id));
    }
    while subs.len() > 0
        invariant
            0 <= i <= orig.len(),
            subs@ == orig.skip(i),
            kept@ == subscriptions_without(orig.take(i), id),
        decreases subs@.len(),
    {
        proof {
            assert(orig.skip(i).first() == orig[i]);
            assert(orig.skip(i).drop_first() =~= orig.skip(i + 1));
            assert(orig.take(i + 1).drop_last() =~= orig.take(i));
            assert(orig.take(i + 1).last() == orig[i]);
        }
        let s = subs.remove(0);
        if s.id != id {
            kept.push(s);
        }
        proof {
            i = i + 1;
        }
    }
    proof {
        assert(orig.take(i) =~= orig);
    }
    kept
}

impl AppState {
    /// Replace the configuration. Running workers are not restarted.
    pub fn update_config(&mut self, config: Config)
        ensures
            final(self).config == config,
            final(self).targets@ == old(self).targets@,
            final(self).subscriptions@ == old(self).subscriptions@,
            final(self).handlers@ == old(self).handlers@,
    {
        self.config = config;
    }

    /// Register a target worker for the target and append the target to the
    /// collection. No other worker is disturbed.
    pub fn add_target(&mut self, target: Target)
        ensures
            final(self).handlers@ == old(self).handlers@.insert(target.id, HandlerType::Target),
            final(self).targets@ == old(self).targets@.push(target),
            final(self).subscriptions@ == old(self).subscriptions@,
            final(self).config == old(self).config,
    {
        let id = target.id;
        self.handlers.insert(id, HandlerType::Target);
        self.targets.push(target);
    }

    /// Drop the target's registration and remove the target from the
    /// collection. When the identifier is unknown, or registered for a
    /// subscription worker, nothing changes and `NotFound` is returned.
    pub fn remove_target(&mut self, id: usize) -> (r: Result<(), RemoveError>)
        ensures
            (r is Ok) == target_registered(old(self).handlers@, id),
            r is Ok ==> final(self).handlers@ == old(self).handlers@.remove(id),
            r is Ok ==> final(self).targets@ == targets_without(old(self).targets@, id),
            r is Err ==> *final(self) == *old(self) && r == Err::<(), RemoveError>(
                RemoveError::NotFound,
            ),
            final(self).subscriptions@ == old(self).subscriptions@,
            final(self).config == old(self).config,
    {
        let registered = match self.handlers.get(&id) {
            Some(HandlerType::Target) => true,
            _ => false,
        };
        if !registered {
            return Err(RemoveError::NotFound);
        }
        self.handlers.remove(&id);
        let mut ts: Vec<Target> = Vec::new();
        core::mem::swap(&mut ts, &mut self.targets);
        self.targets = retain_without_id(ts, id);
        Ok(())
    }

    /// Register a subscription worker for the subscription and append the
    /// subscription to the collection. No other worker is disturbed.
    pub fn add_subscription(&mut self, subscription: Subscription)
        ensures
            final(self).handlers@ == old(self).handlers@.insert(
                subscription.id,
                HandlerType::Subscription,
            ),
            final(self).subscriptions@ == old(self).subscriptions@.push(subscription),
            final(self).targets@ == old(self).targets@,
            final(self).config == old(self).config,
    {
        let id = subscription.id;
        self.handlers.insert(id, HandlerType::Subscription);
        self.subscriptions.push(subscription);
    }

    /// Drop the subscription's registration and remove the subscription from
    /// the collection. When the identifier is unknown, or registered for a
    /// target worker, nothing changes and `NotFound` is returned.
    pub fn remove_subscription(&mut self, id: usize) -> (r: Result<(), RemoveError>)
        ensures
            (r is Ok) == subscription_registered(old(self).handlers@, id),
            r is Ok ==> final(self).handlers@ == old(self).handlers@.remove(id),
            r is Ok ==> final(self).subscriptions@ == subscriptions_without(
                old(self).subscriptions@,
                id,
            ),
            r is Err ==> *final(self) == *old(self) && r == Err::<(), RemoveError>(
                RemoveError::NotFound,
            ),
            final(self).targets@ == old(self).targets@,
            final(self).config == old(self).config,
    {
        let registered = match self.handlers.get(&id) {
            Some(HandlerType::Subscription) => true,
            _ => false,
        };
        if !registered {
            return Err(RemoveError::NotFound);
        }
        self.handlers.remove(&id);
        let mut ss: Vec<Subscription> = Vec::new();
        core::mem::swap(&mut ss, &mut self.subscriptions);
        self.subscriptions = retain_subs_without_id(ss, id);
        Ok(())
    }
}

/// A target set contains the given identifier.
pub fn contains_id(ids: &Vec<usize>, id: usize) -> (b: bool)
    ensures
        b == ids@.contains(id),
{
    let mut i: usize = 0;
    while i < ids.len()
        invariant
            i <= ids.len(),
            forall|j: int| 0 <= j < i ==> ids@[j] != id,
        decreases ids.len() - i,
    {
        if ids[i] == id {
            proof {
                assert(ids@[i as int] == id);
            }
            return true;
        }
        i += 1;
    }
    false
}

/// The target worker's decision on one broadcast message: the rendered
/// delivery line when the message is addressed to this target, nothing
/// otherwise.
pub fn handle_target_message(target: &Target, message: UpdateMessage) -> (r: Option<String>)
    ensures
        (r is Some) == message.targets@.contains(target.id),
        r matches Some(line) ==> line@ == rendered_line(message.item),
{
    if contains_id(&message.targets, target.id) {
        Some(render("", message.item))
    } else {
        None
    }
}

/// Single-target routing: an update message whose target set is exactly one
/// identifier — as every message of a subscription with `push_targets` of one
/// entry is — is addressed to that target's worker and to no other.
pub proof fn lemma_single_target_routing(m: UpdateMessage, t: usize, other: usize)
    requires
        m.targets@ == seq![t],
        other != t,
    ensures
        m.targets@.contains(t),
        !m.targets@.contains(other),
{
    assert(m.targets@[0] == t);
}

/// Filtering a collection that holds no entry with the identifier leaves the
/// collection as it is.
pub proof fn lemma_targets_without_absent(targets: Seq<Target>, id: usize)
    requires
        forall|k: int| 0 <= k < targets.len() ==> (#[trigger] targets[k]).id != id,
    ensures
        targets_without(targets, id) == targets,
    decreases targets.len(),
{
    if targets.len() == 0 {
        assert(targets_without(targets, id) =~= targets);
    } else {
        assert(targets.last() == targets[targets.len() - 1]);
        lemma_targets_without_absent(targets.drop_last(), id);
        assert(targets_without(targets, id) =~= targets);
    }
}

/// Idempotence of remove: once a target's registration is gone — removed or
/// never present — the identifier is no longer registered, so a further
/// remove is refused; and filtering a collection that holds no entry with the
/// identifier leaves its size and membership unchanged.
pub proof fn lemma_remove_target_idempotent(
    reg: Map<usize, HandlerType>,
    targets: Seq<Target>,
    id: usize,
)
    requires
        forall|k: int| 0 <= k < targets.len() ==> (#[trigger] targets[k]).id != id,
    ensures
        !target_registered(reg.remove(id), id),
        targets_without(targets, id) == targets,
{
    lemma_targets_without_absent(targets, id);
}

/// Add/remove round trip: adding a target and immediately removing its
/// identifier restores the registry and the target collection to the state
/// before the add, and leaves no registration for the identifier.
pub proof fn lemma_add_remove_target_round_trip(
    reg: Map<usize, HandlerType>,
    targets: Seq<Target>,
    t: Target,
)
    requires
        !reg.contains_key(t.id),
        forall|k: int| 0 <= k < targets.len() ==> (#[trigger] targets[k]).id != t.id,
    ensures
        target_registered(reg.insert(t.id, HandlerType::Target), t.id),
        reg.insert(t.id, HandlerType::Target).remove(t.id) == reg,
        targets_without(targets.push(t), t.id) == targets,
        !target_registered(reg.insert(t.id, HandlerType::Target).remove(t.id), t.id),
{
    assert(reg.insert(t.id, HandlerType::Target).remove(t.id) =~= reg);
    assert(targets.push(t).drop_last() =~= targets);
    assert(targets.push(t).last() == t);
    lemma_targets_without_absent(targets, t.id);
}

} // verus!
