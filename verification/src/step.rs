//! One turn of a conversation with the driver.

use vstd::prelude::*;
use crate::command::{views, Command, CommandView};
use crate::error::{RenderError, RenderErrorView};

verus! {

/// Where a job stands after it has read a reply.
#[derive(Debug, PartialEq, Eq)]
pub enum Step<S, T> {
    /// The host performs `commands` in order and answers with what the
    /// last of them returned; `state` then reads that answer.
    Continue { state: S, commands: Vec<Command> },
    /// The job is done and this is its product. Nothing is left to perform.
    Finished(T),
    /// The job has failed for good. The host performs `release`, which
    /// deletes what the job had acquired, and then reports `error`.
    Failed { error: RenderError, release: Vec<Command> },
}

/// Mathematical value of a [`Step`].
pub enum StepView<S, T> {
    Continue { state: S, commands: Seq<CommandView> },
    Finished(T),
    Failed { error: RenderErrorView, release: Seq<CommandView> },
}

impl<S: View, T: View> View for Step<S, T> {
    type V = StepView<S::V, T::V>;

    open spec fn view(&self) -> StepView<S::V, T::V> {
        match *self {
            Step::Continue { state, commands } => StepView::Continue {
                state: state@,
                commands: views(commands@),
            },
            Step::Finished(product) => StepView::Finished(product@),
            Step::Failed { error, release } => StepView::Failed {
                error: error@,
                release: views(release@),
            },
        }
    }
}

} // verus!
