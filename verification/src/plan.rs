//! What to ask of the operating system, written down as data.
//!
//! A plan is a list of steps. The steps are run in order. The failure of a
//! step that is required ends the run with that failure, and no later step
//! is run; the failure of any other step is passed over.

use vstd::prelude::*;
use crate::error::{Error, ErrorView};

verus! {

/// One request that names its objects by path.
#[derive(Clone, Debug, PartialEq, Eq)]
pub enum Call {
    /// Give `from` the name `to`, replacing what `to` named.
    Rename { from: Vec<u8>, to: Vec<u8> },
    /// Give what `from` names the second name `to`, unless `to` is taken.
    Link { from: Vec<u8>, to: Vec<u8> },
    /// Remove the name `path` of a file.
    Unlink { path: Vec<u8> },
    /// Remove the empty directory `path`.
    RemoveDir { path: Vec<u8> },
}

/// A request as plain data.
pub enum CallView {
    Rename { from: Seq<u8>, to: Seq<u8> },
    Link { from: Seq<u8>, to: Seq<u8> },
    Unlink { path: Seq<u8> },
    RemoveDir { path: Seq<u8> },
}

impl View for Call {
    type V = CallView;

    open spec fn view(&self) -> CallView {
        match *self {
            Call::Rename { from, to } => CallView::Rename { from: from@, to: to@ },
            Call::Link { from, to } => CallView::Link { from: from@, to: to@ },
            Call::Unlink { path } => CallView::Unlink { path: path@ },
            Call::RemoveDir { path } => CallView::RemoveDir { path: path@ },
        }
    }
}

/// One step of a plan.
#[derive(Clone, Debug, PartialEq, Eq)]
pub struct Step {
    pub call: Call,
    /// Whether a failure of the call ends the run.
    pub required: bool,
}

/// A step as plain data.
pub struct StepView {
    pub call: CallView,
    pub required: bool,
}

impl View for Step {
    type V = StepView;

    open spec fn view(&self) -> StepView {
        StepView { call: self.call@, required: self.required }
    }
}

/// The steps of a plan as plain data.
pub open spec fn steps(plan: Seq<Step>) -> Seq<StepView> {
    plan.map_values(|s: Step| s@)
}

/// What follows a step.
#[derive(Debug, PartialEq, Eq)]
pub enum Progress {
    /// Run the step of this index next.
    Next(usize),
    /// Every step has been run: the plan succeeded.
    Finished,
    /// The run ends here with this error. No later step is run.
    Failed(Error),
}

/// What follows a step, as plain data.
pub enum ProgressView {
    Next(int),
    Finished,
    Failed(ErrorView),
}

impl View for Progress {
    type V = ProgressView;

    open spec fn view(&self) -> ProgressView {
        match *self {
            Progress::Next(index) => ProgressView::Next(index as int),
            Progress::Finished => ProgressView::Finished,
            Progress::Failed(e) => ProgressView::Failed(e@),
        }
    }
}

/// What follows step `index` of `plan`, where `failure` is the error that
/// the step ended in, if it ended in one: the failure of a required step
/// ends the run; otherwise the next step follows, or the end of the plan.
/// An index that is none of the plan is followed by its end.
pub open spec fn progress_after(plan: Seq<StepView>, index: int, failure: Option<ErrorView>) -> ProgressView {
    if !(0 <= index < plan.len()) {
        ProgressView::Finished
    } else {
        match failure {
            Some(e) if plan[index].required => ProgressView::Failed(e),
            _ => if index + 1 < plan.len() {
                ProgressView::Next(index + 1)
            } else {
                ProgressView::Finished
            },
        }
    }
}

/// The error of an outcome as plain data, if the outcome is one.
pub open spec fn failure_of(outcome: Result<(), Error>) -> Option<ErrorView> {
    match outcome {
        Ok(_) => None,
        Err(e) => Some(e@),
    }
}

/// Decides what follows step `index` of `plan`, which ended in `outcome`.
pub fn after_step(plan: &Vec<Step>, index: usize, outcome: Result<(), Error>) -> (progress: Progress)
    ensures
        progress@ == progress_after(steps(plan@), index as int, failure_of(outcome)),
        progress matches Progress::Failed(e) ==> outcome == Err::<(), Error>(e),
{
    if index >= plan.len() {
        return Progress::Finished;
    }
    match outcome {
        Err(e) => {
            if plan[index].required {
                return Progress::Failed(e);
            }
        },
        Ok(()) => {},
    }
    if index + 1 < plan.len() {
        Progress::Next(index + 1)
    } else {
        Progress::Finished
    }
}

/// The step to begin with, if the plan has any.
pub fn first_step(plan: &Vec<Step>) -> (progress: Progress)
    ensures
        progress@ == if plan.len() > 0 {
            ProgressView::Next(0)
        } else {
            ProgressView::Finished
        },
{
    if plan.len() > 0 {
        Progress::Next(0)
    } else {
        Progress::Finished
    }
}

/// Whether `perform`, asked to make the call of `step`, may answer `res`.
pub open spec fn performs<P: Fn(&Call) -> Result<(), Error>>(perform: P, step: Step, res: Result<(), Error>) -> bool {
    call_ensures(perform, (&step.call,), res)
}

/// Whether `perform` may have made the call of `step` and the run have gone
/// on after it: with success, or, where the step is not required, with any
/// answer.
pub open spec fn passed<P: Fn(&Call) -> Result<(), Error>>(perform: P, step: Step) -> bool {
    exists|res: Result<(), Error>| #[trigger] performs(perform, step, res) && (step.required ==> res is Ok)
}

/// Runs a plan: `perform` is asked to make the call of each step in turn,
/// as [`after_step`] says.
///
/// The run succeeds where every step was passed. Otherwise it fails with
/// the error of the first required step that failed; the steps before that
/// one were passed, and no step after it was run.
pub fn run<P>(plan: &Vec<Step>, perform: P) -> (res: Result<(), Error>) where P: Fn(&Call) -> Result<(), Error>
    requires
        forall|i: int| 0 <= i < plan@.len() ==> call_requires(perform, (&(#[trigger] plan@[i]).call,)),
    ensures
        match res {
            Ok(_) => forall|i: int| 0 <= i < plan@.len() ==> passed(perform, #[trigger] plan@[i]),
            Err(e) => exists|at: int|
                {
                    &&& 0 <= at < plan@.len()
                    &&& plan@[at].required
                    &&& #[trigger] performs(perform, plan@[at], Err::<(), Error>(e))
                    &&& forall|i: int| 0 <= i < at ==> passed(perform, #[trigger] plan@[i])
                },
        },
{
    let mut index: usize = 0;
    while index < plan.len()
        invariant
            forall|i: int| 0 <= i < plan@.len() ==> call_requires(perform, (&(#[trigger] plan@[i]).call,)),
            forall|i: int| 0 <= i < index ==> passed(perform, #[trigger] plan@[i]),
        decreases plan.len() - index,
    {
        let outcome = perform(&plan[index].call);
        let ghost answer = outcome;
        assert(performs(perform, plan@[index as int], answer));
        assert(steps(plan@)[index as int] == plan@[index as int]@);
        match after_step(plan, index, outcome) {
            Progress::Failed(e) => {
                return Err(e);
            },
            _ => {
                index = index + 1;
            },
        }
    }
    Ok(())
}

/// Once a required step has failed, the run is over: what follows is
/// neither another step nor success, whatever steps the plan still holds.
pub proof fn lemma_required_failure_ends_run(plan: Seq<StepView>, index: int, error: ErrorView)
    requires
        0 <= index < plan.len(),
        plan[index].required,
    ensures
        progress_after(plan, index, Some(error)) == ProgressView::Failed(error),
{
}

/// The failure of a step that is not required is passed over: the run goes
/// on as if the step had succeeded.
pub proof fn lemma_other_failure_is_passed_over(plan: Seq<StepView>, index: int, error: ErrorView)
    requires
        0 <= index < plan.len(),
        !plan[index].required,
    ensures
        progress_after(plan, index, Some(error)) == progress_after(plan, index, None),
{
}

} // verus!
