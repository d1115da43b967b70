//! Sequences of outside calls, each of which may fail.

use vstd::prelude::*;

verus! {

/// What a failed step means for the steps after it.
#[derive(Clone, Copy, Debug, PartialEq, Eq, Structural)]
pub enum OnFailure {
    /// They are not taken, and the failure is reported.
    Stop,
    /// They are taken all the same, and the failure is forgotten.
    Continue,
}

/// A list of steps, of which some have been taken.
pub struct Plan<A, E> {
    steps: Vec<A>,
    taken: usize,
    on_failure: OnFailure,
    failure: Option<E>,
}

/// A plan as contracts speak of it.
pub struct PlanView<A, E> {
    pub steps: Seq<A>,
    pub taken: nat,
    pub on_failure: OnFailure,
    pub failure: Option<E>,
}

impl<A, E> PlanView<A, E> {
    /// A plan of which nothing has been done.
    pub open spec fn fresh(steps: Seq<A>, on_failure: OnFailure) -> PlanView<A, E> {
        PlanView { steps, taken: 0, on_failure, failure: None }
    }

    /// Whether no step is left to take.
    pub open spec fn done(self) -> bool {
        self.failure is Some || self.taken >= self.steps.len()
    }

    /// The plan once the current step has come to `outcome`.
    pub open spec fn after(self, outcome: Result<(), E>) -> PlanView<A, E> {
        PlanView {
            taken: self.taken + 1,
            failure: match (self.on_failure, outcome) {
                (OnFailure::Stop, Err(e)) => Some(e),
                _ => self.failure,
            },
            ..self
        }
    }

    /// The plan once step after step has come to what `outcomes` say, as long as
    /// there are steps to take.
    pub open spec fn after_all(self, outcomes: Seq<Result<(), E>>) -> PlanView<A, E>
        decreases outcomes.len(),
    {
        if self.done() || outcomes.len() == 0 {
            self
        } else {
            self.after(outcomes[0]).after_all(outcomes.drop_first())
        }
    }

    /// What the plan as a whole has come to.
    pub open spec fn result(self) -> Result<(), E> {
        match self.failure {
            Some(e) => Err(e),
            None => Ok(()),
        }
    }
}

impl<A, E> View for Plan<A, E> {
    type V = PlanView<A, E>;

    closed spec fn view(&self) -> PlanView<A, E> {
        PlanView {
            steps: self.steps@,
            taken: self.taken as nat,
            on_failure: self.on_failure,
            failure: self.failure,
        }
    }
}

impl<A, E> Plan<A, E> {
    /// A plan of `steps`, with none taken.
    pub fn new(steps: Vec<A>, on_failure: OnFailure) -> (plan: Plan<A, E>)
        ensures
            plan@ == PlanView::<A, E>::fresh(steps@, on_failure),
            plan@.steps == steps@,
            plan@.taken == 0,
            plan@.on_failure == on_failure,
            plan@.failure is None,
    {
        Plan { steps, taken: 0, on_failure, failure: None }
    }

    /// The step to take now, or nothing where none is left.
    pub fn current(&self) -> (step: Option<&A>)
        ensures
            self@.done() ==> step is None,
            !self@.done() ==> step == Some(&self@.steps[self@.taken as int]),
            step is Some <==> self@.failure is None && self@.taken < self@.steps.len(),
    {
        if self.failure.is_some() || self.taken >= self.steps.len() {
            None
        } else {
            Some(&self.steps[self.taken])
        }
    }

    /// Says what the current step has come to.
    pub fn report(&mut self, outcome: Result<(), E>)
        requires
            !old(self)@.done(),
        ensures
            final(self)@ == old(self)@.after(outcome),
            final(self)@.steps == old(self)@.steps,
            final(self)@.on_failure == old(self)@.on_failure,
            final(self)@.taken == old(self)@.taken + 1,
            outcome is Err && old(self)@.on_failure == OnFailure::Stop
                ==> final(self)@.failure == Some(outcome->Err_0),
            outcome is Ok || old(self)@.on_failure == OnFailure::Continue
                ==> final(self)@.failure == old(self)@.failure,
    {
        assert(self.taken < self.steps.len());
        self.taken = self.taken + 1;
        match outcome {
            Ok(()) => {},
            Err(e) => {
                if matches!(self.on_failure, OnFailure::Stop) {
                    self.failure = Some(e);
                }
            },
        }
    }

    /// What the plan has come to, once no step is left.
    pub fn finish(self) -> (result: Result<(), E>)
        requires
            self@.done(),
        ensures
            result == self@.result(),
            result is Ok <==> self@.failure is None,
            result is Err ==> self@.failure == Some(result->Err_0),
    {
        match self.failure {
            Some(e) => Err(e),
            None => Ok(()),
        }
    }
}

/// A plan that stops at failures comes to the first failure: the steps up to and
/// with it are taken, and none after it.
pub proof fn law_stops_at_first_failure<A, E>(
    plan: PlanView<A, E>,
    outcomes: Seq<Result<(), E>>,
    k: int,
)
    requires
        plan.on_failure == OnFailure::Stop,
        plan.failure is None,
        0 <= k < outcomes.len() == plan.steps.len() - plan.taken,
        forall|i: int| 0 <= i < k ==> (#[trigger] outcomes[i]) is Ok,
        outcomes[k] is Err,
    ensures
        plan.after_all(outcomes).done(),
        plan.after_all(outcomes).taken == plan.taken + k + 1,
        plan.after_all(outcomes).result() == outcomes[k],
    decreases k,
{
    if k > 0 {
        assert(outcomes[0] is Ok);
        law_stops_at_first_failure(plan.after(outcomes[0]), outcomes.drop_first(), k - 1);
    } else {
        let next = plan.after(outcomes[0]);
        assert(next.after_all(outcomes.drop_first()) == next);
    }
}

/// A plan whose steps all succeed takes them all, and succeeds.
pub proof fn law_succeeds_when_all_steps_do<A, E>(
    plan: PlanView<A, E>,
    outcomes: Seq<Result<(), E>>,
)
    requires
        plan.failure is None,
        plan.taken <= plan.steps.len(),
        outcomes.len() == plan.steps.len() - plan.taken,
        forall|i: int| 0 <= i < outcomes.len() ==> (#[trigger] outcomes[i]) is Ok,
    ensures
        plan.after_all(outcomes).done(),
        plan.after_all(outcomes).taken == plan.steps.len(),
        plan.after_all(outcomes).result() == Ok::<(), E>(()),
    decreases outcomes.len(),
{
    if outcomes.len() > 0 {
        assert(outcomes[0] is Ok);
        law_succeeds_when_all_steps_do(plan.after(outcomes[0]), outcomes.drop_first());
    }
}

/// A plan that goes on after failures takes all its steps, and succeeds whatever
/// they come to.
pub proof fn law_continues_past_failures<A, E>(
    plan: PlanView<A, E>,
    outcomes: Seq<Result<(), E>>,
)
    requires
        plan.on_failure == OnFailure::Continue,
        plan.failure is None,
        plan.taken <= plan.steps.len(),
        outcomes.len() == plan.steps.len() - plan.taken,
    ensures
        plan.after_all(outcomes).done(),
        plan.after_all(outcomes).taken == plan.steps.len(),
        plan.after_all(outcomes).result() == Ok::<(), E>(()),
    decreases outcomes.len(),
{
    if outcomes.len() > 0 {
        law_continues_past_failures(plan.after(outcomes[0]), outcomes.drop_first());
    }
}

/// A new plan holds the steps it was given, in their order, and has a step to
/// take as long as it was given any.
pub proof fn law_new_plans_are_untouched<A, E>(steps: Seq<A>, on_failure: OnFailure)
    ensures
        ({
            let plan = PlanView::<A, E>::fresh(steps, on_failure);
            &&& plan.steps == steps
            &&& plan.taken == 0
            &&& plan.on_failure == on_failure
            &&& plan.result() is Ok
            &&& plan.done() <==> steps.len() == 0
        }),
{
}

/// Each outcome takes the plan one step on and leaves its steps alone. The plan is
/// over after it exactly when that was the last step, or when it failed and
/// failures stop the plan, which then comes to that failure.
pub proof fn law_outcomes_move_plans_on<A, E>(plan: PlanView<A, E>, outcome: Result<(), E>)
    requires
        plan.failure is None,
        plan.taken < plan.steps.len(),
    ensures
        !plan.done(),
        plan.after(outcome).steps == plan.steps,
        plan.after(outcome).on_failure == plan.on_failure,
        plan.after(outcome).taken == plan.taken + 1,
        plan.after(outcome).done() <==> plan.taken + 1 == plan.steps.len() || (outcome is Err
            && plan.on_failure == OnFailure::Stop),
        outcome is Err && plan.on_failure == OnFailure::Stop ==> plan.after(outcome).result()
            == outcome,
        outcome is Ok || plan.on_failure == OnFailure::Continue ==> plan.after(
            outcome,
        ).result() is Ok,
{
}

} // verus!
