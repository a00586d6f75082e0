use vstd::prelude::*;

use crate::error::ErrorKind;
use crate::error::StreamError;

verus! {

/// The flag-triggered interruption error: reported under the `Other`
/// category — distinct from `Interrupted`, so that retry-on-interrupt loops
/// do not swallow it — with the plain interrupted condition recorded as its
/// cause.
pub open spec fn flag_interrupt_error() -> StreamError {
    StreamError { kind: ErrorKind::Other, cause: Some(ErrorKind::Interrupted) }
}

/// What the post-check makes of an inner failure `e`, given the value
/// `flag_set` sampled from the interrupt flag after the failure: an
/// interrupted condition with the flag set is reclassified as a
/// flag-triggered interruption; every other failure passes through
/// unchanged.
pub open spec fn reclassify_spec(e: StreamError, flag_set: bool) -> StreamError {
    if e.kind == ErrorKind::Interrupted && flag_set {
        flag_interrupt_error()
    } else {
        e
    }
}

/// The whole two-point-check policy for one operation: `pre` is the flag
/// sampled before delegating, `inner` the outcome the inner operation
/// produced (or would have produced), and `post` the flag sampled after an
/// inner failure. With `pre` set the inner operation is never consulted;
/// otherwise a success passes through as it is and a failure goes through
/// the post-check.
pub open spec fn outcome_spec<T>(pre: bool, inner: Result<T, StreamError>, post: bool) -> Result<
    T,
    StreamError,
> {
    if pre {
        Err(flag_interrupt_error())
    } else {
        match inner {
            Ok(v) => Ok(v),
            Err(e) => Err(reclassify_spec(e, post)),
        }
    }
}

/// Executable form of the post-check, exact in both of its inputs.
pub fn reclassify(e: StreamError, flag_set: bool) -> (r: StreamError)
    ensures
        r == reclassify_spec(e, flag_set),
{
    if e.kind == ErrorKind::Interrupted && flag_set {
        StreamError { kind: ErrorKind::Other, cause: Some(ErrorKind::Interrupted) }
    } else {
        e
    }
}

/// The pre-check decision, exact in the sampled flag: a set flag stops the
/// operation with the flag-triggered interruption error before the inner
/// stream is consulted; a clear flag lets the operation delegate.
pub fn precheck(flag_set: bool) -> (r: Option<StreamError>)
    ensures
        flag_set ==> r == Some(flag_interrupt_error()),
        !flag_set ==> r == None::<StreamError>,
{
    if flag_set {
        Some(StreamError { kind: ErrorKind::Other, cause: Some(ErrorKind::Interrupted) })
    } else {
        None
    }
}

/// The whole stage after a pre-check let an operation delegate, exact in
/// the inner outcome and the post-check sample: an inner success comes back
/// unchanged, an inner failure goes through the post-check.
pub fn settle<T>(inner: Result<T, StreamError>, post: bool) -> (r: Result<T, StreamError>)
    ensures
        r == outcome_spec(false, inner, post),
{
    match inner {
        Ok(v) => Ok(v),
        Err(e) => Err(reclassify(e, post)),
    }
}

/// With the flag set at the pre-check, an operation yields exactly the
/// flag-triggered interruption error, whatever the inner operation would
/// have done: the inner outcome does not enter into the result at all.
pub proof fn lemma_precheck_short_circuit<T>(inner: Result<T, StreamError>, post: bool)
    ensures
        outcome_spec(true, inner, post) == Err::<T, StreamError>(flag_interrupt_error()),
{
}

/// An inner failure whose category is not `Interrupted` passes through
/// unchanged, whatever the flag held at the post-check.
pub proof fn lemma_unrelated_error_passthrough<T>(e: StreamError, post: bool)
    requires
        e.kind != ErrorKind::Interrupted,
    ensures
        reclassify_spec(e, post) == e,
        outcome_spec::<T>(false, Err(e), post) == Err::<T, StreamError>(e),
{
}

/// An inner interrupted failure with the flag still clear at the post-check
/// passes through unchanged, so ordinary retry-on-interrupt logic still
/// applies to it.
pub proof fn lemma_ordinary_interrupt_passthrough<T>(e: StreamError)
    requires
        e.kind == ErrorKind::Interrupted,
    ensures
        reclassify_spec(e, false) == e,
        outcome_spec::<T>(false, Err(e), false) == Err::<T, StreamError>(e),
{
}

/// An inner interrupted failure with the flag set at the post-check is
/// reclassified as the flag-triggered interruption error, whose category is
/// distinct from `Interrupted` and whose cause records the interrupted
/// condition.
pub proof fn lemma_reclassification<T>(e: StreamError)
    requires
        e.kind == ErrorKind::Interrupted,
    ensures
        reclassify_spec(e, true) == flag_interrupt_error(),
        outcome_spec::<T>(false, Err(e), true) == Err::<T, StreamError>(flag_interrupt_error()),
        flag_interrupt_error().kind != ErrorKind::Interrupted,
        flag_interrupt_error().cause == Some(ErrorKind::Interrupted),
{
}

/// With the flag clear at the pre-check, an inner success passes through
/// exactly: the byte count the inner operation returned is the byte count
/// the caller sees.
pub proof fn lemma_success_passthrough<T>(v: T, post: bool)
    ensures
        outcome_spec(false, Ok::<T, StreamError>(v), post) == Ok::<T, StreamError>(v),
{
}

} // verus!
