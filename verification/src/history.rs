//! The history itself: the recorded actions and the cursor that moves over them.

use crate::action::{Action, ActionView};
use crate::operation::Operation;
use vstd::prelude::*;

verus! {

/// Why an undo or a redo did nothing.
#[derive(Debug)]
pub enum UndoRedoError {
    /// There is no action in the requested direction.
    NothingToDo,
}

impl UndoRedoError {
    /// The human-readable message of this error.
    pub fn message(&self) -> (text: String)
        ensures
            text@ == "nothing to perform"@,
    {
        match self {
            UndoRedoError::NothingToDo => "nothing to perform".to_owned(),
        }
    }
}

/// What an [`UndoRedo`] holds, as plain mathematical values.
#[verifier::ext_equal]
pub struct HistoryView<Op> {
    /// Every recorded action, oldest first.
    pub actions: Seq<ActionView<Op>>,
    /// The cursor: the actions before it are applied, the ones from it on are not.
    pub tapehead: nat,
}

impl<Op> HistoryView<Op> {
    /// The cursor lies within the recorded actions or just behind the last
    /// one. Every history is made this way and stays this way.
    pub open spec fn wf(self) -> bool {
        self.tapehead <= self.actions.len()
    }

    /// The history without any action.
    pub open spec fn empty() -> Self {
        HistoryView { actions: Seq::empty(), tapehead: 0 }
    }

    /// There is an action that a redo would apply: the one at the cursor.
    pub open spec fn can_redo(self) -> bool {
        self.tapehead < self.actions.len()
    }

    /// There is an action that an undo would revert: the one just before the
    /// cursor.
    pub open spec fn can_undo(self) -> bool {
        0 < self.tapehead <= self.actions.len()
    }

    /// The actions that stay when a new one is recorded: those before the
    /// cursor.
    pub open spec fn kept_actions(self) -> Seq<ActionView<Op>> {
        if self.can_redo() {
            self.actions.take(self.tapehead as int)
        } else {
            self.actions
        }
    }

    /// The history after `action` was recorded at the cursor: every action
    /// from the cursor on is gone, `action` is the last one, and the cursor
    /// has not moved.
    pub open spec fn with_new_action(self, action: ActionView<Op>) -> Self {
        HistoryView { actions: self.kept_actions().push(action), tapehead: self.tapehead }
    }

    /// The history after a redo: the cursor has moved past the action that
    /// was applied, if there was one.
    pub open spec fn after_redo(self) -> Self {
        if self.can_redo() {
            HistoryView { tapehead: self.tapehead + 1, ..self }
        } else {
            self
        }
    }

    /// The history after an undo: the cursor has moved back by one, unless it
    /// was at the start.
    pub open spec fn after_undo(self) -> Self {
        if self.tapehead > 0 {
            HistoryView { tapehead: (self.tapehead - 1) as nat, ..self }
        } else {
            self
        }
    }

    /// What a redo makes of `target`.
    pub open spec fn redo_target<For>(self, target: For) -> For where Op: Operation<For> {
        if self.can_redo() {
            self.actions[self.tapehead as int].applied(target)
        } else {
            target
        }
    }

    /// What an undo makes of `target`.
    pub open spec fn undo_target<For>(self, target: For) -> For where Op: Operation<For> {
        if self.can_undo() {
            self.actions[self.tapehead - 1].reverted(target)
        } else {
            target
        }
    }

    /// This history is what cloning `source` may give: the same cursor and,
    /// at each place, a clone of the action that stands there.
    pub open spec fn is_clone_of(self, source: Self) -> bool where Op: Clone {
        &&& self.tapehead == source.tapehead
        &&& self.actions.len() == source.actions.len()
        &&& forall|i: int|
            0 <= i < source.actions.len() ==> (#[trigger] self.actions[i]).is_clone_of(
                source.actions[i],
            )
    }
}

/// An undo-redo history: a list of [`Action`]s and a cursor into it.
#[derive(Debug, Hash, PartialEq, Eq, PartialOrd, Ord)]
pub struct UndoRedo<Op> {
    actions: Vec<Action<Op>>,
    /// The index of the action that a redo applies. The action that an undo
    /// reverts is the one just before it.
    tapehead: usize,
}

impl<Op> View for UndoRedo<Op> {
    type V = HistoryView<Op>;

    closed spec fn view(&self) -> HistoryView<Op> {
        HistoryView {
            actions: self.actions@.map_values(|action: Action<Op>| action@),
            tapehead: self.tapehead as nat,
        }
    }
}

impl<Op> UndoRedo<Op> {
    /// Forgets every action and moves the cursor back to the start.
    pub fn clear_history(&mut self)
        ensures
            final(self)@ == HistoryView::<Op>::empty(),
            final(self)@.wf(),
    {
        self.actions.clear();
        self.tapehead = 0;
        proof {
            assert(self@.actions =~= Seq::empty());
        }
    }

    /// Records a new, empty action at the cursor and hands it out to be filled.
    ///
    /// Every action that was undone and not redone is erased. The cursor stays
    /// where it is: the new action takes effect with the next redo, and is
    /// erased in its turn by the next `create_action` if no redo comes first.
    /// What the caller does to the action through the returned reference is
    /// what the history holds as its last action.
    pub fn create_action(&mut self) -> (action: &mut Action<Op>)
        ensures
            action@ == ActionView::<Op>::empty(),
            final(self)@ == old(self)@.with_new_action(final(action)@),
            old(self)@.wf() ==> final(self)@.wf(),
    {
        if self.actions.len() > self.tapehead {
            self.actions.truncate(self.tapehead);
        }
        self.actions.push(Action::default());
        let action = self.actions.last_mut().expect("action should have been pushed");
        proof {
            assert(final(self)@.actions =~= old(self)@.with_new_action(final(action)@).actions);
        }
        action
    }

    /// Applies the first action that is not applied and moves the cursor past it.
    ///
    /// With no action at the cursor there is nothing to apply: the call fails
    /// with [`UndoRedoError::NothingToDo`] and changes nothing.
    pub fn redo<For>(&mut self, apply_to: &mut For) -> (done: Result<(), UndoRedoError>) where
        Op: Operation<For>,

        ensures
            done is Ok <==> old(self)@.can_redo(),
            done matches Err(error) ==> error == UndoRedoError::NothingToDo,
            final(self)@ == old(self)@.after_redo(),
            *final(apply_to) == old(self)@.redo_target(*old(apply_to)),
            old(self)@.wf() ==> final(self)@.wf(),
    {
        let index = self.tapehead;
        if index < self.actions.len() {
            // The cursor is below the length of the list, so it cannot overflow.
            self.tapehead = index + 1;
            self.actions[index].apply(apply_to);
            Ok(())
        } else {
            Err(UndoRedoError::NothingToDo)
        }
    }

    /// Reverts the last action that is applied and moves the cursor before it.
    ///
    /// With the cursor at the start there is nothing to revert: the call
    /// fails with [`UndoRedoError::NothingToDo`] and changes nothing. It
    /// fails in the same way, after moving the cursor back by one, where no
    /// action lies at the place that the cursor moves to; a cursor that is in
    /// bounds never gets there.
    pub fn undo<For>(&mut self, apply_to: &mut For) -> (done: Result<(), UndoRedoError>) where
        Op: Operation<For>,

        ensures
            done is Ok <==> old(self)@.can_undo(),
            done matches Err(error) ==> error == UndoRedoError::NothingToDo,
            final(self)@ == old(self)@.after_undo(),
            *final(apply_to) == old(self)@.undo_target(*old(apply_to)),
            old(self)@.wf() ==> final(self)@.wf(),
    {
        match self.tapehead.checked_sub(1) {
            Some(new_index) => self.tapehead = new_index,
            None => return Err(UndoRedoError::NothingToDo),
        }
        if self.tapehead < self.actions.len() {
            self.actions[self.tapehead].revert(apply_to);
            return Ok(());
        }
        Err(UndoRedoError::NothingToDo)
    }
}

impl<Op: Clone> Clone for UndoRedo<Op> {
    /// A copy of this history, action by action, with the cursor at the same
    /// place.
    fn clone(&self) -> (copy: Self)
        ensures
            copy@.is_clone_of(self@),
            copy@.wf() == self@.wf(),
    {
        let copy = UndoRedo { actions: self.actions.clone(), tapehead: self.tapehead };
        proof {
            assert forall|i: int| 0 <= i < self@.actions.len() implies (#[trigger] copy@.actions[i])
                .is_clone_of(self@.actions[i]) by {
                assert(cloned(self.actions@[i], copy.actions@[i]));
            }
        }
        copy
    }
}

impl<Op> Default for UndoRedo<Op> {
    /// The history without any action.
    fn default() -> (history: Self)
        ensures
            history@ == HistoryView::<Op>::empty(),
            history@.wf(),
    {
        let history = UndoRedo { actions: Vec::new(), tapehead: 0 };
        proof {
            assert(history@.actions =~= Seq::empty());
        }
        history
    }
}

} // verus!
