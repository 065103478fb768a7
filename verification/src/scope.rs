//! Scoped construction: objects are guarded in the order in which they are
//! created, and are either all handed over (commit) or all destroyed, the
//! latest first (rollback).

use crate::resource::{Resource, ResourceKind, handle_of, lookup};
use vstd::prelude::*;

verus! {

/// The order in which guarded objects are destroyed: the reverse of the
/// order in which they were guarded.
pub open spec fn rollback_order(guarded: Seq<Resource>) -> Seq<Resource> {
    guarded.reverse()
}

/// The objects that a construction in progress has created so far, each
/// carrying the duty to destroy it should a later step fail.
pub struct Scope {
    guarded: Vec<Resource>,
}

impl View for Scope {
    type V = Seq<Resource>;

    /// The guarded objects, in the order in which they were guarded.
    closed spec fn view(&self) -> Seq<Resource> {
        self.guarded@
    }
}

impl Scope {
    /// A scope that guards nothing.
    pub fn new() -> (scope: Scope)
        ensures
            scope@ == Seq::<Resource>::empty(),
    {
        Scope { guarded: Vec::new() }
    }

    /// Puts `resource` under guard, after everything guarded before.
    pub fn guard(&mut self, resource: Resource)
        ensures
            final(self)@ == old(self)@.push(resource),
    {
        self.guarded.push(resource);
    }

    /// The number of guarded objects.
    pub fn len(&self) -> (n: usize)
        ensures
            n == self@.len(),
    {
        self.guarded.len()
    }

    /// The `i`-th guarded object, counting from the one guarded first.
    pub fn get(&self, i: usize) -> (resource: Option<Resource>)
        ensures
            resource == if i < self@.len() {
                Some(self@[i as int])
            } else {
                None
            },
    {
        if i < self.guarded.len() {
            Some(self.guarded[i])
        } else {
            None
        }
    }

    /// The handle of the guarded object that the step `kind` at position
    /// `index` made, for the steps that build on it.
    pub fn find(&self, kind: ResourceKind, index: usize) -> (handle: Option<u64>)
        ensures
            handle == handle_of(self@, kind, index),
    {
        lookup(&self.guarded, kind, index)
    }

    /// Ends the scope in success: the guarded objects are handed to their
    /// owner, in the order in which they were guarded, and none is
    /// destroyed.
    pub fn commit(self) -> (kept: Vec<Resource>)
        ensures
            kept@ == self@,
    {
        self.guarded
    }

    /// Ends the scope in failure: the guarded objects are handed out for
    /// destruction, the one guarded last first.
    pub fn rollback(self) -> (destroy: Vec<Resource>)
        ensures
            destroy@ == rollback_order(self@),
    {
        unwind(&self.guarded)
    }
}

/// Lists `made`, objects in the order in which they were made, in the order
/// in which they are to be destroyed: the one made last first.
pub fn unwind(made: &Vec<Resource>) -> (destroy: Vec<Resource>)
    ensures
        destroy@ == rollback_order(made@),
{
    let mut destroy: Vec<Resource> = Vec::new();
    let mut left: usize = made.len();
    while left > 0
        invariant
            left <= made@.len(),
            destroy@.len() == made@.len() - left,
            forall|k: int| 0 <= k < destroy@.len() ==> destroy@[k] == made@[made@.len() - 1 - k],
        decreases left,
    {
        left -= 1;
        destroy.push(made[left]);
    }
    assert(destroy@ =~= made@.reverse());
    destroy
}

/// Rollback destroys every guarded object once and nothing else: the
/// `k`-th object destroyed is the `k`-th from the end of what was guarded.
pub proof fn rollback_is_reverse(guarded: Seq<Resource>)
    ensures
        rollback_order(guarded).len() == guarded.len(),
        forall|k: int|
            0 <= k < guarded.len() ==> #[trigger] rollback_order(guarded)[k] == guarded[guarded.len()
                - 1 - k],
{
}

/// Of two guarded objects, the one guarded later is destroyed earlier.
pub proof fn rollback_later_first(guarded: Seq<Resource>, earlier: int, later: int)
    requires
        0 <= earlier < later < guarded.len(),
    ensures
        rollback_order(guarded)[guarded.len() - 1 - later] == guarded[later],
        rollback_order(guarded)[guarded.len() - 1 - earlier] == guarded[earlier],
        guarded.len() - 1 - later < guarded.len() - 1 - earlier,
{
}

/// Guarding one more object puts it at the front of the rollback and leaves
/// the rest of the rollback as it was.
pub proof fn rollback_after_guard(guarded: Seq<Resource>, resource: Resource)
    ensures
        rollback_order(guarded.push(resource)) == seq![resource] + rollback_order(guarded),
{
    assert(rollback_order(guarded.push(resource)) =~= seq![resource] + rollback_order(guarded));
}

/// An object is destroyed by a rollback exactly when it was guarded. What a
/// failed step would have created was never guarded, so no rollback names
/// it unless an earlier step created the same object.
pub proof fn rollback_destroys_exactly_guarded(guarded: Seq<Resource>, resource: Resource)
    ensures
        rollback_order(guarded).contains(resource) <==> guarded.contains(resource),
{
    let n = guarded.len() as int;
    if guarded.contains(resource) {
        let i = choose|i: int| 0 <= i < guarded.len() && guarded[i] == resource;
        assert(rollback_order(guarded)[n - 1 - i] == resource);
    }
    if rollback_order(guarded).contains(resource) {
        let k = choose|k: int|
            0 <= k < rollback_order(guarded).len() && rollback_order(guarded)[k] == resource;
        assert(guarded[n - 1 - k] == resource);
    }
}

/// Rolling back a scope that guards nothing destroys nothing.
pub proof fn rollback_of_nothing()
    ensures
        rollback_order(Seq::<Resource>::empty()) == Seq::<Resource>::empty(),
{
    assert(rollback_order(Seq::<Resource>::empty()) =~= Seq::<Resource>::empty());
}

} // verus!
