//! What a decision asks to be written to an issue, step by step.

use vstd::prelude::*;

verus! {

/// One thing to do to an issue.
#[derive(Clone, Debug)]
pub enum IssueStep {
    /// Replace the body.
    WriteBody(String),
    /// Take a label off.
    RemoveLabel(String),
    /// Put a label on.
    AddLabel(String),
    /// Append a comment.
    AddComment(String),
}

/// What an [`IssueStep`] holds.
#[verifier::ext_equal]
pub enum StepView {
    WriteBody(Seq<char>),
    RemoveLabel(Seq<char>),
    AddLabel(Seq<char>),
    AddComment(Seq<char>),
}

impl View for IssueStep {
    type V = StepView;

    open spec fn view(&self) -> StepView {
        match self {
            IssueStep::WriteBody(s) => StepView::WriteBody(s@),
            IssueStep::RemoveLabel(s) => StepView::RemoveLabel(s@),
            IssueStep::AddLabel(s) => StepView::AddLabel(s@),
            IssueStep::AddComment(s) => StepView::AddComment(s@),
        }
    }
}

/// A step, and what its failure is reported as. Without a context the step is
/// best effort: its failure is passed over.
#[derive(Clone, Debug)]
pub struct PlannedStep {
    /// What to do.
    pub step: IssueStep,
    /// What a failure is reported as; nothing where it is passed over.
    pub context: Option<String>,
}

/// What a [`PlannedStep`] holds.
#[verifier::ext_equal]
pub struct PlannedView {
    pub step: StepView,
    pub context: Option<Seq<char>>,
}

impl View for PlannedStep {
    type V = PlannedView;

    open spec fn view(&self) -> PlannedView {
        PlannedView { step: self.step@, context: crate::text::option_view(self.context) }
    }
}

/// The views of a plan.
pub open spec fn plan_view(plan: Seq<PlannedStep>) -> Seq<PlannedView> {
    Seq::new(plan.len(), |i: int| plan[i]@)
}

/// A step that must succeed.
pub open spec fn must(step: StepView, context: Seq<char>) -> PlannedView {
    PlannedView { step, context: Some(context) }
}

/// A step that may fail.
pub open spec fn may(step: StepView) -> PlannedView {
    PlannedView { step, context: None }
}

/// Appends a step to a plan.
pub proof fn lemma_plan_push(plan: Seq<PlannedStep>, step: PlannedStep)
    ensures
        plan_view(plan.push(step)) == plan_view(plan).push(step@),
{
    assert(plan_view(plan.push(step)) =~= plan_view(plan).push(step@));
}

/// Appends a step that must succeed.
pub fn push_must(plan: &mut Vec<PlannedStep>, step: IssueStep, context: &str)
    ensures
        plan_view(final(plan)@) == plan_view(old(plan)@).push(must(step@, context@)),
{
    let planned: PlannedStep = PlannedStep { step, context: Some(context.to_owned()) };
    proof {
        lemma_plan_push(plan@, planned);
    }
    plan.push(planned);
}

/// Appends a step that may fail.
pub fn push_may(plan: &mut Vec<PlannedStep>, step: IssueStep)
    ensures
        plan_view(final(plan)@) == plan_view(old(plan)@).push(may(step@)),
{
    let planned: PlannedStep = PlannedStep { step, context: None };
    proof {
        lemma_plan_push(plan@, planned);
    }
    plan.push(planned);
}

/// A plan without steps.
pub fn no_steps() -> (plan: Vec<PlannedStep>)
    ensures
        plan_view(plan@) == Seq::<PlannedView>::empty(),
{
    let plan: Vec<PlannedStep> = Vec::new();
    assert(plan_view(plan@) =~= Seq::<PlannedView>::empty());
    plan
}

} // verus!
