//! One undoable unit of work: the operations that carry it out, the
//! operations that take it back, and an optional label.

use crate::operation::{apply_in_order, run_all, Operation};
use vstd::prelude::*;

verus! {

/// What an [`Action`] holds, as plain mathematical values.
#[verifier::ext_equal]
pub struct ActionView<Op> {
    /// The display label, if one was ever set.
    pub name: Option<Seq<char>>,
    /// The operations that redo the action, in the order they run.
    pub apply_ops: Seq<Op>,
    /// The operations that undo the action, in the order they run.
    pub revert_ops: Seq<Op>,
}

impl<Op> ActionView<Op> {
    /// The action that was just created: no label, nothing to run.
    pub open spec fn empty() -> Self {
        ActionView { name: None, apply_ops: Seq::empty(), revert_ops: Seq::empty() }
    }

    /// This action under the label `name`.
    pub open spec fn with_name(self, name: Seq<char>) -> Self {
        ActionView { name: Some(name), ..self }
    }

    /// This action with `op` appended to what a redo runs.
    pub open spec fn with_redo_operation(self, op: Op) -> Self {
        ActionView { apply_ops: self.apply_ops.push(op), ..self }
    }

    /// This action with `op` appended to what an undo runs.
    pub open spec fn with_undo_operation(self, op: Op) -> Self {
        ActionView { revert_ops: self.revert_ops.push(op), ..self }
    }

    /// What redoing this action makes of `target`.
    pub open spec fn applied<For>(self, target: For) -> For where Op: Operation<For> {
        run_all(self.apply_ops, target)
    }

    /// What undoing this action makes of `target`.
    pub open spec fn reverted<For>(self, target: For) -> For where Op: Operation<For> {
        run_all(self.revert_ops, target)
    }

    /// Undoing this action takes back what redoing it does to `target`.
    pub open spec fn restores<For>(self, target: For) -> bool where Op: Operation<For> {
        self.reverted(self.applied(target)) == target
    }

    /// This action is what cloning `source` may give: the same label and, at
    /// each place of either list, a clone of the operation that stands there.
    pub open spec fn is_clone_of(self, source: Self) -> bool where Op: Clone {
        &&& self.name == source.name
        &&& self.apply_ops.len() == source.apply_ops.len()
        &&& self.revert_ops.len() == source.revert_ops.len()
        &&& forall|i: int|
            0 <= i < source.apply_ops.len() ==> cloned(
                #[trigger] source.apply_ops[i],
                self.apply_ops[i],
            )
        &&& forall|i: int|
            0 <= i < source.revert_ops.len() ==> cloned(
                #[trigger] source.revert_ops[i],
                self.revert_ops[i],
            )
    }
}

/// A series of operations that moves a target to its next state, paired with
/// the series that moves it back.
///
/// The two lists are independent of each other: whoever fills the action is
/// responsible for making the undo list take back what the redo list does.
#[derive(Debug, Hash, PartialEq, Eq, PartialOrd, Ord)]
pub struct Action<Op> {
    name: Option<String>,
    apply_ops: Vec<Op>,
    revert_ops: Vec<Op>,
}

impl<Op> View for Action<Op> {
    type V = ActionView<Op>;

    closed spec fn view(&self) -> ActionView<Op> {
        ActionView {
            name: match self.name {
                Some(name) => Some(name@),
                None => None,
            },
            apply_ops: self.apply_ops@,
            revert_ops: self.revert_ops@,
        }
    }
}

impl<Op> Action<Op> {
    /// The label of this action, if it has one.
    pub fn get_name(&self) -> (name: Option<&str>)
        ensures
            name is Some <==> self@.name is Some,
            name matches Some(text) ==> self@.name == Some(text@),
    {
        match &self.name {
            Some(name) => Some(name.as_str()),
            None => None,
        }
    }

    /// Replaces the label of this action.
    pub fn set_name(&mut self, new_name: String) -> (this: &mut Self)
        ensures
            this@ == old(self)@.with_name(new_name@),
            *final(self) == *final(this),
    {
        self.name = Some(new_name);
        self
    }

    /// Appends an operation to perform when this action is redone.
    pub fn add_redo_operation(&mut self, operation: Op) -> (this: &mut Self)
        ensures
            this@ == old(self)@.with_redo_operation(operation),
            *final(self) == *final(this),
    {
        self.apply_ops.push(operation);
        self
    }

    /// Appends an operation to perform when this action is undone.
    pub fn add_undo_operation(&mut self, operation: Op) -> (this: &mut Self)
        ensures
            this@ == old(self)@.with_undo_operation(operation),
            *final(self) == *final(this),
    {
        self.revert_ops.push(operation);
        self
    }

    /// Runs the redo operations on `apply_to`, in the order they were added.
    pub fn apply<For>(&self, apply_to: &mut For) where
        Op: Operation<For>,

        ensures
            *final(apply_to) == self@.applied(*old(apply_to)),
    {
        apply_in_order(&self.apply_ops, apply_to);
    }

    /// Runs the undo operations on `apply_to`, in the order they were added.
    pub fn revert<For>(&self, apply_to: &mut For) where
        Op: Operation<For>,

        ensures
            *final(apply_to) == self@.reverted(*old(apply_to)),
    {
        apply_in_order(&self.revert_ops, apply_to);
    }
}

impl<Op: Clone> Clone for Action<Op> {
    /// A copy of this action, operation by operation.
    fn clone(&self) -> (copy: Self)
        ensures
            copy@.is_clone_of(self@),
    {
        Action {
            name: self.name.clone(),
            apply_ops: self.apply_ops.clone(),
            revert_ops: self.revert_ops.clone(),
        }
    }
}

impl<Op> Default for Action<Op> {
    /// An action without a label and without operations.
    fn default() -> (action: Self)
        ensures
            action@ == ActionView::<Op>::empty(),
    {
        Action { name: None, apply_ops: Vec::new(), revert_ops: Vec::new() }
    }
}

} // verus!
