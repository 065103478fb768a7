//! Construction by plan: a list of steps is carried out one by one, and the
//! objects made are either all committed or, at the first failure, all
//! rolled back.
//!
//! The transaction decides; its caller carries out each pending step and
//! reports how it went.

use crate::error::Error;
use crate::resource::{Resource, ResourceKind, handle_of};
use crate::scope::{Scope, rollback_order};
use vstd::prelude::*;

verus! {

/// One step of a plan: what to make, and its position in a series of like
/// objects (zero outside a series).
#[derive(Clone, Copy, Debug, PartialEq, Eq, Structural)]
pub struct Step {
    pub kind: ResourceKind,
    pub index: usize,
}

/// How carrying out a step went.
#[derive(Clone, Copy, Debug, PartialEq, Eq, Structural)]
pub enum Outcome {
    /// The step succeeded. The handle is that of the object made; it is
    /// ignored for a step that leaves no object.
    Succeeded(u64),
    /// The step and the step after it succeeded together, by one call. The
    /// handles are those of the objects made, in the order of the steps.
    SucceededPair(u64, u64),
    /// The step failed and made nothing.
    Failed,
}

/// The mathematical content of a transaction with a pending step.
pub struct TransactionModel {
    /// The steps of the plan, in order.
    pub plan: Seq<Step>,
    /// The number of steps that have succeeded.
    pub done: nat,
    /// The objects made so far, in the order in which they were made.
    pub built: Seq<Resource>,
}

/// Where a transaction stands.
pub enum ProgressModel {
    /// A step is pending.
    Pending(TransactionModel),
    /// Every step succeeded, and the objects are kept.
    Committed(Seq<Resource>),
    /// A step failed, and the objects are to be destroyed in this order.
    RolledBack { error: Error, destroy: Seq<Resource> },
}

/// The object that a successful `step` leaves, given its handle.
pub open spec fn resource_of(step: Step, handle: u64) -> Resource {
    Resource { kind: step.kind, index: step.index, handle }
}

/// What is guarded once `step` has succeeded with `handle`, where `built`
/// was guarded before.
pub open spec fn built_with(built: Seq<Resource>, step: Step, handle: u64) -> Seq<Resource> {
    if step.kind.spec_leaves_object() {
        built.push(resource_of(step, handle))
    } else {
        built
    }
}

/// The plan of a series: `count` steps of one kind, numbered from zero.
pub open spec fn series_plan(kind: ResourceKind, count: nat) -> Seq<Step> {
    Seq::new(count, |i: int| Step { kind, index: i as usize })
}

/// Where a transaction stands that has made `built` and done `done` steps
/// of `plan`: committed once no step is left.
pub open spec fn standing(plan: Seq<Step>, done: nat, built: Seq<Resource>) -> ProgressModel {
    if done < plan.len() {
        ProgressModel::Pending(TransactionModel { plan, done, built })
    } else {
        ProgressModel::Committed(built)
    }
}

/// Where a transaction stands at its start: a plan without steps is
/// committed at once.
pub open spec fn start(plan: Seq<Step>) -> ProgressModel {
    standing(plan, 0, Seq::empty())
}

impl TransactionModel {
    /// A step is pending.
    pub open spec fn wf(self) -> bool {
        self.done < self.plan.len()
    }

    /// The step that is pending.
    pub open spec fn pending(self) -> Step {
        self.plan[self.done as int]
    }

    /// Whether `outcome` reports the success of the pending step in the
    /// form that the step asks for: one handle for a step that is carried
    /// out alone, two for a step that is carried out together with the step
    /// that follows it.
    pub open spec fn fits(self, outcome: Outcome) -> bool {
        match outcome {
            Outcome::Succeeded(_) => !self.pending().kind.spec_made_with_next(),
            Outcome::SucceededPair(_, _) => self.pending().kind.spec_made_with_next()
                && self.done + 1 < self.plan.len(),
            Outcome::Failed => false,
        }
    }

    /// What is built once the pending step has succeeded as `outcome` says.
    pub open spec fn built_after(self, outcome: Outcome) -> Seq<Resource> {
        match outcome {
            Outcome::Succeeded(handle) => built_with(self.built, self.pending(), handle),
            Outcome::SucceededPair(first, second) => built_with(
                built_with(self.built, self.pending(), first),
                self.plan[self.done as int + 1],
                second,
            ),
            Outcome::Failed => self.built,
        }
    }

    /// The number of steps that are done once the pending step has
    /// succeeded as `outcome` says.
    pub open spec fn done_after(self, outcome: Outcome) -> nat {
        match outcome {
            Outcome::SucceededPair(_, _) => self.done + 2,
            _ => self.done + 1,
        }
    }

    /// The rule: after a success the next step is pending, or, after the
    /// last step, everything made is committed; after a failure everything
    /// made is rolled back, the latest first, and the error names the step
    /// that failed. A report of success that does not fit the step counts
    /// as its failure.
    pub open spec fn next(self, outcome: Outcome) -> ProgressModel {
        if self.fits(outcome) {
            standing(self.plan, self.done_after(outcome), self.built_after(outcome))
        } else {
            ProgressModel::RolledBack {
                error: Error::Create { kind: self.pending().kind, index: self.pending().index },
                destroy: rollback_order(self.built),
            }
        }
    }

    /// The transaction given up for the reason `error`: everything made is
    /// rolled back, the latest first.
    pub open spec fn abort(self, error: Error) -> ProgressModel {
        ProgressModel::RolledBack { error, destroy: rollback_order(self.built) }
    }
}

/// A plan in progress: at least one step is pending.
pub struct Transaction {
    plan: Vec<Step>,
    done: usize,
    scope: Scope,
}

impl View for Transaction {
    type V = TransactionModel;

    closed spec fn view(&self) -> TransactionModel {
        TransactionModel { plan: self.plan@, done: self.done as nat, built: self.scope@ }
    }
}

/// Where a transaction stands after a report.
pub enum Progress {
    /// A step is pending.
    Pending(Transaction),
    /// Every step succeeded. The objects are handed over in the order in
    /// which they were made; none is to be destroyed.
    Committed(Vec<Resource>),
    /// A step failed. The objects made before it are to be destroyed in the
    /// order given, and nothing of the transaction is kept.
    RolledBack { error: Error, destroy: Vec<Resource> },
}

impl View for Progress {
    type V = ProgressModel;

    open spec fn view(&self) -> ProgressModel {
        match *self {
            Progress::Pending(transaction) => ProgressModel::Pending(transaction@),
            Progress::Committed(kept) => ProgressModel::Committed(kept@),
            Progress::RolledBack { error, destroy } => ProgressModel::RolledBack {
                error,
                destroy: destroy@,
            },
        }
    }
}

impl Progress {
    /// Carries a plan out from wherever it stands: a pending transaction
    /// is driven to its end, and a settled one is handed back as it is.
    pub fn carry_out<F: FnMut(&Transaction) -> Outcome>(self, perform: F) -> (settled: Progress)
        requires
            forall|transaction: &Transaction| call_requires(perform, (transaction,)),
        ensures
            !(settled@ is Pending),
            exists|asked: Seq<Transaction>, outcomes: Seq<Outcome>|
                settled@ == run(self@, outcomes) && #[trigger] performed_by(
                    perform,
                    self@,
                    asked,
                    outcomes,
                ),
    {
        match self {
            Progress::Pending(transaction) => {
                let ghost from = ProgressModel::Pending(transaction@);
                let settled = transaction.drive(perform);
                proof {
                    let (asked, outcomes) = choose|asked: Seq<Transaction>, outcomes: Seq<Outcome>|
                        settled@ == run(from, outcomes) && #[trigger] performed_by(
                            perform,
                            from,
                            asked,
                            outcomes,
                        );
                    assert(settled@ == run(self@, outcomes) && performed_by(
                        perform,
                        self@,
                        asked,
                        outcomes,
                    ));
                }
                settled
            },
            settled => {
                assert(settled@ == run(settled@, Seq::<Outcome>::empty()) && performed_by(
                    perform,
                    settled@,
                    Seq::<Transaction>::empty(),
                    Seq::<Outcome>::empty(),
                ));
                settled
            },
        }
    }
}

impl Transaction {
    #[verifier::type_invariant]
    spec fn has_pending_step(&self) -> bool {
        self.done < self.plan@.len()
    }

    /// Starts on `plan`. A plan without steps is committed at once.
    pub fn begin(plan: Vec<Step>) -> (progress: Progress)
        ensures
            progress@ == start(plan@),
    {
        if plan.len() == 0 {
            Progress::Committed(Vec::new())
        } else {
            Progress::Pending(Transaction { plan, done: 0, scope: Scope::new() })
        }
    }

    /// The step to carry out next.
    pub fn pending(&self) -> (step: Step)
        ensures
            self@.wf(),
            step == self@.pending(),
    {
        proof {
            use_type_invariant(self);
        }
        self.plan[self.done]
    }

    /// The handle of the object that the step `kind` at position `index` has
    /// made in this transaction, for the steps that build on it.
    pub fn find(&self, kind: ResourceKind, index: usize) -> (handle: Option<u64>)
        ensures
            handle == handle_of(self@.built, kind, index),
    {
        self.scope.find(kind, index)
    }

    /// Takes the report on the pending step and says where the transaction
    /// stands.
    pub fn advance(self, outcome: Outcome) -> (progress: Progress)
        ensures
            self@.wf(),
            progress@ == self@.next(outcome),
    {
        proof {
            use_type_invariant(&self);
        }
        let Transaction { plan, done, scope } = self;
        let steps: usize = plan.len();
        let step = plan[done];
        let mut scope = scope;
        let done_after: usize = match outcome {
            Outcome::Succeeded(handle) if !step.kind.made_with_next() => {
                if step.kind.leaves_object() {
                    scope.guard(Resource { kind: step.kind, index: step.index, handle });
                }
                done + 1
            },
            Outcome::SucceededPair(first, second) if step.kind.made_with_next() && done + 1
                < steps => {
                let other = plan[done + 1];
                if step.kind.leaves_object() {
                    scope.guard(Resource { kind: step.kind, index: step.index, handle: first });
                }
                if other.kind.leaves_object() {
                    scope.guard(Resource { kind: other.kind, index: other.index, handle: second });
                }
                done + 2
            },
            _ => {
                return Progress::RolledBack {
                    error: Error::Create { kind: step.kind, index: step.index },
                    destroy: scope.rollback(),
                };
            },
        };
        if done_after < steps {
            Progress::Pending(Transaction { plan, done: done_after, scope })
        } else {
            Progress::Committed(scope.commit())
        }
    }

    /// Carries the plan out to its end: has `perform` carry out each
    /// pending step, given the transaction that asks, and takes its report,
    /// until everything is committed or rolled back. The result is where
    /// the transaction stands after the reports that `perform` gave for the
    /// steps, each in its turn, so it is never a pending transaction.
    pub fn drive<F: FnMut(&Transaction) -> Outcome>(self, perform: F) -> (settled: Progress)
        requires
            forall|transaction: &Transaction| call_requires(perform, (transaction,)),
        ensures
            !(settled@ is Pending),
            exists|asked: Seq<Transaction>, outcomes: Seq<Outcome>|
                settled@ == run(ProgressModel::Pending(self@), outcomes) && #[trigger] performed_by(
                    perform,
                    ProgressModel::Pending(self@),
                    asked,
                    outcomes,
                ),
    {
        proof {
            use_type_invariant(&self);
        }
        let ghost start = ProgressModel::Pending(self@);
        let ghost outcomes: Seq<Outcome> = Seq::empty();
        let ghost asked: Seq<Transaction> = Seq::empty();
        let mut transaction = self;
        let mut performer = perform;
        loop
            invariant
                performer == perform,
                forall|transaction: &Transaction| call_requires(perform, (transaction,)),
                start == ProgressModel::Pending(self@),
                run(start, outcomes) == ProgressModel::Pending(transaction@),
                transaction@.wf(),
                performed_by(perform, start, asked, outcomes),
            decreases transaction@.plan.len() - transaction@.done,
        {
            let ghost before = outcomes;
            let ghost asked_before = asked;
            let ghost asking = transaction;
            let outcome = performer(&transaction);
            proof {
                outcomes = before.push(outcome);
                asked = asked_before.push(asking);
                assert(outcomes.drop_last() =~= before);
                assert(outcomes.take(before.len() as int) =~= before);
                assert forall|i: int| 0 <= i < outcomes.len() implies step_performed(
                    perform,
                    start,
                    asked,
                    outcomes,
                    i,
                ) by {
                    if i < before.len() {
                        assert(step_performed(perform, start, asked_before, before, i));
                        assert(outcomes.take(i) =~= before.take(i));
                    }
                }
            }
            match transaction.advance(outcome) {
                Progress::Pending(next) => {
                    transaction = next;
                },
                settled => {
                    assert(settled@ == run(start, outcomes) && performed_by(
                        perform,
                        start,
                        asked,
                        outcomes,
                    ));
                    return settled;
                },
            }
        }
    }

    /// Gives the transaction up for a reason of the caller's: everything
    /// made is rolled back, the latest first.
    pub fn abort(self, error: Error) -> (progress: Progress)
        ensures
            progress@ == self@.abort(error),
    {
        let Transaction { plan: _, done: _, scope } = self;
        Progress::RolledBack { error, destroy: scope.rollback() }
    }
}

/// Writes the plan of a series: `count` steps of `kind`, numbered from zero.
pub fn series(kind: ResourceKind, count: usize) -> (plan: Vec<Step>)
    ensures
        plan@ == series_plan(kind, count as nat),
{
    let mut plan: Vec<Step> = Vec::new();
    let mut i: usize = 0;
    while i < count
        invariant
            i <= count,
            plan@.len() == i,
            forall|k: int| 0 <= k < i ==> plan@[k] == (Step { kind, index: k as usize }),
        decreases count - i,
    {
        plan.push(Step { kind, index: i });
        i += 1;
    }
    assert(plan@ =~= series_plan(kind, count as nat));
    plan
}

/// Where a transaction stands after the reports `outcomes`, one per step,
/// for as long as steps are pending. Reports left over once it is settled
/// are not read.
pub open spec fn run(from: ProgressModel, outcomes: Seq<Outcome>) -> ProgressModel
    decreases outcomes.len(),
{
    if outcomes.len() == 0 {
        from
    } else {
        match run(from, outcomes.drop_last()) {
            ProgressModel::Pending(transaction) => transaction.next(outcomes.last()),
            settled => settled,
        }
    }
}

/// Whether the `i`-th of `outcomes` is the report that `perform` gave when
/// it was handed the `i`-th of `asked`, and that transaction was the one
/// pending after the reports before.
pub open spec fn step_performed<F: FnMut(&Transaction) -> Outcome>(
    perform: F,
    from: ProgressModel,
    asked: Seq<Transaction>,
    outcomes: Seq<Outcome>,
    i: int,
) -> bool {
    &&& run(from, outcomes.take(i)) == ProgressModel::Pending(asked[i]@)
    &&& call_ensures(perform, (&asked[i],), outcomes[i])
}

/// Whether each of `outcomes` is the report that `perform` gave for the
/// step that was pending at its turn.
pub open spec fn performed_by<F: FnMut(&Transaction) -> Outcome>(
    perform: F,
    from: ProgressModel,
    asked: Seq<Transaction>,
    outcomes: Seq<Outcome>,
) -> bool {
    &&& asked.len() == outcomes.len()
    &&& forall|i: int|
        0 <= i < outcomes.len() ==> #[trigger] step_performed(perform, from, asked, outcomes, i)
}

/// The reports of steps that all succeeded, with the handles of what they
/// made.
pub open spec fn successes(handles: Seq<u64>) -> Seq<Outcome> {
    Seq::new(handles.len(), |i: int| Outcome::Succeeded(handles[i]))
}

/// The objects that the first steps of `plan` leave when they succeed with
/// `handles`, in the order in which they were made.
pub open spec fn made(plan: Seq<Step>, handles: Seq<u64>) -> Seq<Resource>
    decreases handles.len(),
{
    if handles.len() == 0 {
        Seq::empty()
    } else {
        built_with(
            made(plan, handles.drop_last()),
            plan[handles.len() - 1],
            handles.last(),
        )
    }
}

/// Whether every step of `plan` is carried out alone.
pub open spec fn one_by_one(plan: Seq<Step>) -> bool {
    forall|i: int| 0 <= i < plan.len() ==> !(#[trigger] plan[i]).kind.spec_made_with_next()
}

/// While the steps of a plan that is carried out one by one succeed, the
/// transaction stands at the next step with exactly what the steps so far
/// have made.
pub proof fn successes_accumulate(plan: Seq<Step>, handles: Seq<u64>)
    requires
        handles.len() <= plan.len(),
        one_by_one(plan),
    ensures
        run(start(plan), successes(handles)) == standing(plan, handles.len(), made(plan, handles)),
    decreases handles.len(),
{
    if handles.len() > 0 {
        successes_accumulate(plan, handles.drop_last());
        assert(successes(handles).drop_last() =~= successes(handles.drop_last()));
        assert(successes(handles).last() == Outcome::Succeeded(handles.last()));
    }
}

/// All or nothing, for a plan that is carried out one by one. Where every
/// step succeeds, everything made is committed and nothing is destroyed.
/// Where the steps before step `k` succeed and step `k` fails, exactly what
/// those steps made is destroyed, the latest first, and the error names
/// step `k`. Step `k` itself made nothing, so nothing is destroyed on its
/// account.
pub proof fn all_or_nothing(plan: Seq<Step>, handles: Seq<u64>)
    requires
        handles.len() <= plan.len(),
        one_by_one(plan),
    ensures
        handles.len() == plan.len() ==> run(start(plan), successes(handles))
            == ProgressModel::Committed(made(plan, handles)),
        handles.len() < plan.len() ==> run(
            start(plan),
            successes(handles).push(Outcome::Failed),
        ) == (ProgressModel::RolledBack {
            error: Error::Create {
                kind: plan[handles.len() as int].kind,
                index: plan[handles.len() as int].index,
            },
            destroy: rollback_order(made(plan, handles)),
        }),
{
    successes_accumulate(plan, handles);
    if handles.len() < plan.len() {
        let reports = successes(handles).push(Outcome::Failed);
        assert(reports.drop_last() =~= successes(handles));
    }
}

/// A series makes one object per step that succeeded, numbered in order:
/// when step `k` of a series fails, the objects numbered `k - 1` down to
/// zero are destroyed, in this order, and no other.
pub proof fn series_rolls_back_what_exists(kind: ResourceKind, count: nat, handles: Seq<u64>)
    requires
        kind.spec_leaves_object(),
        handles.len() <= count <= usize::MAX,
    ensures
        made(series_plan(kind, count), handles).len() == handles.len(),
        forall|i: int|
            0 <= i < handles.len() ==> #[trigger] made(series_plan(kind, count), handles)[i] == (
            Resource { kind, index: i as usize, handle: handles[i] }),
        forall|i: int|
            0 <= i < handles.len() ==> #[trigger] rollback_order(
                made(series_plan(kind, count), handles),
            )[i] == (Resource {
                kind,
                index: (handles.len() - 1 - i) as usize,
                handle: handles[handles.len() - 1 - i],
            }),
    decreases handles.len(),
{
    if handles.len() > 0 {
        series_rolls_back_what_exists(kind, count, handles.drop_last());
    }
}

/// Where every step of a plan leaves an object, the steps that succeeded
/// have made one object each: the object of step `i` is at position `i`.
pub proof fn one_object_per_step(plan: Seq<Step>, handles: Seq<u64>)
    requires
        handles.len() <= plan.len(),
        forall|i: int| 0 <= i < plan.len() ==> (#[trigger] plan[i]).kind.spec_leaves_object(),
    ensures
        made(plan, handles).len() == handles.len(),
        forall|i: int|
            0 <= i < handles.len() ==> #[trigger] made(plan, handles)[i] == resource_of(
                plan[i],
                handles[i],
            ),
    decreases handles.len(),
{
    if handles.len() > 0 {
        one_object_per_step(plan, handles.drop_last());
    }
}

/// A pair of steps that one call carries out together counts as the two
/// steps: after the report of both handles the transaction stands where
/// it would stand after the two steps had succeeded one after the other.
pub proof fn pair_is_two_steps(transaction: TransactionModel, first: u64, second: u64)
    requires
        transaction.fits(Outcome::SucceededPair(first, second)),
    ensures
        transaction.next(Outcome::SucceededPair(first, second)) == standing(
            transaction.plan,
            transaction.done + 2,
            built_with(
                built_with(transaction.built, transaction.plan[transaction.done as int], first),
                transaction.plan[transaction.done as int + 1],
                second,
            ),
        ),
{
}

/// Whatever the reports, a plan ends in all or nothing. While it runs, it
/// has made what its steps so far have made. If it committed, every step
/// succeeded and what the steps made is kept. If it rolled back, the steps
/// before the one that failed had succeeded, what they made is destroyed,
/// the latest first, and the error names the step that failed.
pub proof fn run_is_all_or_nothing(plan: Seq<Step>, outcomes: Seq<Outcome>)
    ensures
        match run(start(plan), outcomes) {
            ProgressModel::Pending(transaction) => exists|handles: Seq<u64>|
                {
                    &&& handles.len() < plan.len()
                    &&& #[trigger] standing(plan, handles.len(), made(plan, handles))
                        == ProgressModel::Pending(transaction)
                },
            ProgressModel::Committed(kept) => exists|handles: Seq<u64>|
                handles.len() == plan.len() && kept == #[trigger] made(plan, handles),
            ProgressModel::RolledBack { error, destroy } => exists|handles: Seq<u64>|
                {
                    &&& handles.len() < plan.len()
                    &&& destroy == rollback_order(#[trigger] made(plan, handles))
                    &&& error == Error::Create {
                        kind: plan[handles.len() as int].kind,
                        index: plan[handles.len() as int].index,
                    }
                },
        },
    decreases outcomes.len(),
{
    if outcomes.len() == 0 {
        let none = Seq::<u64>::empty();
        if plan.len() > 0 {
            assert(standing(plan, none.len(), made(plan, none)) == start(plan));
        } else {
            assert(made(plan, none) == Seq::<Resource>::empty());
        }
    } else {
        run_is_all_or_nothing(plan, outcomes.drop_last());
        match run(start(plan), outcomes.drop_last()) {
            ProgressModel::Pending(transaction) => {
                let handles = choose|handles: Seq<u64>|
                    {
                        &&& handles.len() < plan.len()
                        &&& #[trigger] standing(plan, handles.len(), made(plan, handles))
                            == ProgressModel::Pending(transaction)
                    };
                assert(transaction.built == made(plan, handles));
                if transaction.fits(outcomes.last()) {
                    match outcomes.last() {
                        Outcome::Succeeded(handle) => {
                            let more = handles.push(handle);
                            assert(more.drop_last() =~= handles);
                            assert(made(plan, more) == built_with(
                                made(plan, handles),
                                plan[handles.len() as int],
                                handle,
                            ));
                            assert(transaction.next(outcomes.last()) == standing(
                                plan,
                                more.len(),
                                made(plan, more),
                            ));
                        },
                        Outcome::SucceededPair(first, second) => {
                            let one = handles.push(first);
                            let two = one.push(second);
                            assert(one.drop_last() =~= handles);
                            assert(two.drop_last() =~= one);
                            assert(made(plan, one) == built_with(
                                made(plan, handles),
                                plan[handles.len() as int],
                                first,
                            ));
                            assert(made(plan, two) == built_with(
                                made(plan, one),
                                plan[handles.len() as int + 1],
                                second,
                            ));
                            assert(transaction.next(outcomes.last()) == standing(
                                plan,
                                two.len(),
                                made(plan, two),
                            ));
                        },
                        Outcome::Failed => {},
                    }
                }
            },
            _ => {},
        }
    }
}

} // verus!
