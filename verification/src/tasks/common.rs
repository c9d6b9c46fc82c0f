//! What the evaluation of a task yields.

use crate::tasks::logic::{PostLogicEvaluated, PostLogicView, PreLogicEvaluated, PreLogicView};
use crate::tasks::response::{ResponseView, TaskResponse};
use vstd::prelude::*;

verus! {

/// An evaluated task: its action, resolved and screened, with what
/// surrounds it. Nothing of it changes after the evaluation.
#[derive(Debug)]
pub struct EvaluatedTask<A> {
    pub action: A,
    pub with: Option<PreLogicEvaluated>,
    pub and: Option<PostLogicEvaluated>,
}

pub struct EvaluatedView<V> {
    pub action: V,
    pub with: Option<PreLogicView>,
    pub and: Option<PostLogicView>,
}

impl<A: View> View for EvaluatedTask<A> {
    type V = EvaluatedView<A::V>;

    open spec fn view(&self) -> EvaluatedView<A::V> {
        EvaluatedView {
            action: self.action@,
            with: match self.with {
                Some(w) => Some(w@),
                None => None,
            },
            and: match self.and {
                Some(a) => Some(a@),
                None => None,
            },
        }
    }
}

pub open spec fn evaluated_answer<A: View>(r: Result<EvaluatedTask<A>, TaskResponse>) -> Result<
    EvaluatedView<A::V>,
    ResponseView,
> {
    match r {
        Ok(t) => Ok(t@),
        Err(e) => Err(e@),
    }
}

/// An action with what surrounds it: the first of the action, `with` and
/// `and` that fails, in this order, decides the failure.
pub open spec fn assembled<V>(
    action: Result<V, ResponseView>,
    with: Result<Option<PreLogicView>, ResponseView>,
    and: Result<Option<PostLogicView>, ResponseView>,
) -> Result<EvaluatedView<V>, ResponseView> {
    match (action, with, and) {
        (Err(e), _, _) => Err(e),
        (_, Err(e), _) => Err(e),
        (_, _, Err(e)) => Err(e),
        (Ok(action), Ok(with), Ok(and)) => Ok(EvaluatedView { action, with, and }),
    }
}

} // verus!
