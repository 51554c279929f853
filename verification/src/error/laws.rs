//! What holds of every failure.
use vstd::prelude::*;

use crate::error::{cause_text, failure, headline, said, settled, Cause, CauseView, Error};

verus! {

broadcast use vstd::string::group_string_axioms;

/// A failure is the chain of its reasons, each with its own words; that the user stopped the work is
/// a reason of its own.
pub proof fn a_failure_is_what_its_reasons_say(error: Error, cause: Cause)
    ensures
        error@.len() == error.causes@.len(),
        forall|i: int|
            0 <= i < error.causes@.len() ==> #[trigger] error@[i] == error.causes@[i]@,
        cause matches Cause::Message(text) ==> cause@ == CauseView::Message(text@) && cause_text(
            cause@,
        ) == text@,
        cause is Cancelled ==> cause@ is Cancelled && cause_text(cause@) == "cancelled"@,
{
}

/// A failure with one reason says just that, and what a failure says first is its outermost reason.
pub proof fn a_failure_says_its_outermost_reason_first(text: Seq<char>, rest: Seq<CauseView>)
    ensures
        failure(text) == seq![CauseView::Message(text)],
        headline(failure(text) + rest) == text,
        headline(seq![]) == "unknown error"@,
        headline(seq![CauseView::Cancelled] + rest) == "cancelled"@,
{
    assert((failure(text) + rest)[0] == CauseView::Message(text));
    assert((seq![CauseView::Cancelled] + rest)[0] == CauseView::Cancelled);
}

/// What a step came to is its value or its failure.
pub proof fn a_step_comes_to_its_value_or_its_failure(
    step: Result<String, Error>,
    other: Result<(), Error>,
)
    ensures
        match step {
            Ok(text) => said(step) == Ok::<_, Seq<CauseView>>(text@),
            Err(error) => said(step) == Err::<Seq<char>, _>(error@),
        },
        match other {
            Ok(_) => settled(other) is Ok,
            Err(error) => settled(other) == Err::<(), _>(error@),
        },
{
}

}
