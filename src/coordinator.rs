use vstd::prelude::*;
use crate::error::LiveblogError;

verus! {

/// What the screenshot task hands back: the encoded image, or its failure.
pub type CaptureResult = Result<Vec<u8>, LiveblogError>;

/// What the caption task hands back: the typed text, or its failure.
pub type CaptionResult = Result<String, LiveblogError>;

/// The result of one of the two concurrent tasks, in the order they finish.
pub enum TaskDone {
    Capture(CaptureResult),
    Caption(CaptionResult),
}

/// The joined result: the capture failure wins, then the caption failure,
/// and only two successes give a pair.
pub open spec fn collect_spec(capture: CaptureResult, caption: CaptionResult) -> Result<
    (Vec<u8>, String),
    LiveblogError,
> {
    match capture {
        Err(e) => Err(e),
        Ok(shot) => match caption {
            Err(e) => Err(e),
            Ok(text) => Ok((shot, text)),
        },
    }
}

/// The joined result of two finished tasks in completion order; `None` when
/// both results come from the same task.
pub open spec fn join_spec(first: TaskDone, second: TaskDone) -> Option<
    Result<(Vec<u8>, String), LiveblogError>,
> {
    match (first, second) {
        (TaskDone::Capture(a), TaskDone::Caption(b)) => Some(collect_spec(a, b)),
        (TaskDone::Caption(b), TaskDone::Capture(a)) => Some(collect_spec(a, b)),
        _ => None,
    }
}

/// Joins the screenshot and caption results once both tasks have finished.
/// A caption typed before the capture failed is dropped with no partial result.
pub fn collect(capture: CaptureResult, caption: CaptionResult) -> (r: Result<
    (Vec<u8>, String),
    LiveblogError,
>)
    ensures
        r == collect_spec(capture, caption),
{
    match capture {
        Err(e) => Err(e),
        Ok(shot) => match caption {
            Err(e) => Err(e),
            Ok(text) => Ok((shot, text)),
        },
    }
}

/// Joins the two task results in the order the tasks finished.
pub fn join(first: TaskDone, second: TaskDone) -> (r: Option<
    Result<(Vec<u8>, String), LiveblogError>,
>)
    ensures
        r == join_spec(first, second),
{
    match first {
        TaskDone::Capture(a) => match second {
            TaskDone::Caption(b) => Some(collect(a, b)),
            TaskDone::Capture(_) => None,
        },
        TaskDone::Caption(b) => match second {
            TaskDone::Capture(a) => Some(collect(a, b)),
            TaskDone::Caption(_) => None,
        },
    }
}

/// The join does not depend on which task finishes first: for any screenshot
/// result and any caption result both completion orders give the pair that
/// `collect` gives.
pub proof fn lemma_join_commutes(capture: CaptureResult, caption: CaptionResult)
    ensures
        join_spec(TaskDone::Capture(capture), TaskDone::Caption(caption)) == join_spec(
            TaskDone::Caption(caption),
            TaskDone::Capture(capture),
        ),
        join_spec(TaskDone::Capture(capture), TaskDone::Caption(caption)) == Some(
            collect_spec(capture, caption),
        ),
{
}

} // verus!
