use vstd::prelude::*;

use crate::error::{released, self_contained, ErrorModel, RetainedException};
use crate::status::Status;
use crate::throwable::{materialized, ThrowableKind};

verus! {

/// One operation over the lifetime of an error.
pub enum LifecycleStep {
    /// `materialize` or `throw` of a wrapper of the given kind.
    Materialize(ThrowableKind),
    /// `to_host_value`: the error handed back as data.
    ToHostValue,
    /// `release`: what is retained is handed to the runtime's delete call.
    Release,
}

/// The references that one step hands to the runtime's delete call, and the
/// error after it. Only `release` changes the error.
pub open spec fn step(m: ErrorModel, s: LifecycleStep) -> (ErrorModel, Seq<RetainedException>) {
    match s {
        LifecycleStep::Release => (released(m), retained_seq(m)),
        _ => (m, Seq::empty()),
    }
}

/// The retained reference as a sequence of zero or one element.
pub open spec fn retained_seq(m: ErrorModel) -> Seq<RetainedException> {
    match m.retained {
        Some(h) => seq![h],
        None => Seq::empty(),
    }
}

/// The error after `steps`, and every reference released along the way.
pub open spec fn run(m: ErrorModel, steps: Seq<LifecycleStep>) -> (
    ErrorModel,
    Seq<RetainedException>,
)
    decreases steps.len(),
{
    if steps.len() == 0 {
        (m, Seq::empty())
    } else {
        let (m1, out) = step(m, steps[0]);
        let (m2, rest) = run(m1, steps.skip(1));
        (m2, out + rest)
    }
}

/// Whether `steps` holds a release.
pub open spec fn ends_scope(steps: Seq<LifecycleStep>) -> bool {
    exists|i: int| 0 <= i < steps.len() && steps[i] is Release
}

proof fn lemma_run_releases(m: ErrorModel, steps: Seq<LifecycleStep>)
    ensures
        run(m, steps).1 == (if ends_scope(steps) {
            retained_seq(m)
        } else {
            Seq::empty()
        }),
    decreases steps.len(),
{
    if steps.len() == 0 {
        assert(!ends_scope(steps));
    } else {
        let tail = steps.skip(1);
        let m1 = step(m, steps[0]).0;
        lemma_run_releases(m1, tail);
        assert(ends_scope(steps) == (steps[0] is Release || ends_scope(tail))) by {
            if ends_scope(tail) {
                let i = choose|i: int| 0 <= i < tail.len() && tail[i] is Release;
                assert(steps[i + 1] is Release);
            }
            if ends_scope(steps) && !(steps[0] is Release) {
                let i = choose|i: int| 0 <= i < steps.len() && steps[i] is Release;
                assert(tail[i - 1] is Release);
            }
        }
        if steps[0] is Release {
            assert(retained_seq(m1) == Seq::<RetainedException>::empty());
            assert(run(m, steps).1 =~= retained_seq(m));
        } else {
            assert(run(m, steps).1 =~= run(m1, tail).1);
        }
    }
}

/// Exactly-once release: over any sequence of operations that ends the
/// error's scope with a release, the retained reference, if any, is handed
/// to the delete call exactly once, and nothing else is; reading the error
/// through materialization any number of times releases nothing.
pub proof fn lemma_exactly_once_release(m: ErrorModel, steps: Seq<LifecycleStep>)
    ensures
        ends_scope(steps) ==> run(m, steps).1 == retained_seq(m),
        !ends_scope(steps) ==> run(m, steps).1 == Seq::<RetainedException>::empty(),
        m.retained is Some ==> (ends_scope(steps) <==> run(m, steps).1.len() == 1),
        run(m, steps).1.len() <= 1,
{
    lemma_run_releases(m, steps);
}

/// Self-contained errors need no foreign calls: an error built from a status
/// and a message (as `new`, `from_status` and `from_reason` build it)
/// releases nothing over any sequence of operations, and each of its
/// materializations builds a new object rather than resolving a reference.
pub proof fn lemma_self_contained_no_foreign(
    status: Status,
    reason: Seq<char>,
    steps: Seq<LifecycleStep>,
    kind: ThrowableKind,
)
    ensures
        run(self_contained(status, reason), steps).1 == Seq::<RetainedException>::empty(),
        materialized(self_contained(status, reason), kind) is Created,
{
    lemma_run_releases(self_contained(status, reason), steps);
}

} // verus!
