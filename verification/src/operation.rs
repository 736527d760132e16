//! The capability that every recorded edit step offers: change a target in place.

use vstd::prelude::*;

verus! {

/// One edit step on a target of type `For`.
///
/// What an operation does depends on the operation and on the target alone:
/// [`effect`](Operation::effect) names the outcome, and
/// [`apply`](Operation::apply) brings it about in place. Everything that the
/// history promises of a target rests on this agreement; for an implementation
/// that is not verified, it is taken on trust.
///
/// Implementations are usually enums with one variant per kind of edit.
pub trait Operation<For> {
    /// The target that one application of this operation makes of `item`.
    spec fn effect(&self, item: For) -> For;

    /// Performs this edit step on `item`, once.
    fn apply(&self, item: &mut For)
        ensures
            *final(item) == self.effect(*old(item)),
    ;
}

/// The target that results from applying `ops` to `target`, front to back.
pub open spec fn run_all<For, Op: Operation<For>>(ops: Seq<Op>, target: For) -> For
    decreases ops.len(),
{
    if ops.len() == 0 {
        target
    } else {
        ops.last().effect(run_all(ops.drop_last(), target))
    }
}

/// Applies every operation of `ops` to `target`, front to back.
pub(crate) fn apply_in_order<For, Op: Operation<For>>(ops: &Vec<Op>, target: &mut For)
    ensures
        *final(target) == run_all(ops@, *old(target)),
{
    let mut done: usize = 0;
    while done < ops.len()
        invariant
            done <= ops.len(),
            *target == run_all(ops@.take(done as int), *old(target)),
        decreases ops.len() - done,
    {
        ops[done].apply(target);
        proof {
            assert(ops@.take(done + 1).drop_last() =~= ops@.take(done as int));
        }
        done += 1;
    }
    proof {
        assert(ops@.take(done as int) =~= ops@);
    }
}

} // verus!
