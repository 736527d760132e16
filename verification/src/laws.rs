//! What holds of every history, stated over the mathematical model of
//! [`UndoRedo`](crate::history::UndoRedo) and [`Action`](crate::action::Action)
//! and proved once for all.

use crate::action::ActionView;
use crate::history::HistoryView;
use crate::operation::{run_all, Operation};
use vstd::prelude::*;

verus! {

/// The history and the target after `count` undos in a row.
pub open spec fn undo_times<For, Op: Operation<For>>(
    history: HistoryView<Op>,
    target: For,
    count: nat,
) -> (HistoryView<Op>, For)
    decreases count,
{
    if count == 0 {
        (history, target)
    } else {
        undo_times(history.after_undo(), history.undo_target(target), (count - 1) as nat)
    }
}

/// The history and the target after `count` redos in a row.
pub open spec fn redo_times<For, Op: Operation<For>>(
    history: HistoryView<Op>,
    target: For,
    count: nat,
) -> (HistoryView<Op>, For)
    decreases count,
{
    if count == 0 {
        (history, target)
    } else {
        redo_times(history.after_redo(), history.redo_target(target), (count - 1) as nat)
    }
}

/// The history and the target after each of `actions`, in turn, was recorded
/// at the cursor and redone at once.
pub open spec fn commit_all<For, Op: Operation<For>>(
    history: HistoryView<Op>,
    target: For,
    actions: Seq<ActionView<Op>>,
) -> (HistoryView<Op>, For)
    decreases actions.len(),
{
    if actions.len() == 0 {
        (history, target)
    } else {
        let (earlier, reached) = commit_all(history, target, actions.drop_last());
        let recorded = earlier.with_new_action(actions.last());
        (recorded.after_redo(), recorded.redo_target(reached))
    }
}

/// An operation that is appended to a list runs after all that the list held.
pub proof fn lemma_appended_operation_runs_last<For, Op: Operation<For>>(
    ops: Seq<Op>,
    op: Op,
    target: For,
)
    ensures
        run_all(ops.push(op), target) == op.effect(run_all(ops, target)),
{
    assert(ops.push(op).drop_last() =~= ops);
}

/// An action without operations leaves the target as it is, redone or undone.
pub proof fn lemma_empty_action_changes_nothing<For, Op: Operation<For>>(target: For)
    ensures
        ActionView::<Op>::empty().applied(target) == target,
        ActionView::<Op>::empty().reverted(target) == target,
{
}

/// The label that was set is the label that is read, whatever the action
/// held before. An action that was never labelled has none, and adding
/// operations does not give it one.
pub proof fn lemma_name_round_trip<Op>(action: ActionView<Op>, name: Seq<char>, op: Op)
    ensures
        action.with_name(name).name == Some(name),
        ActionView::<Op>::empty().name is None,
        action.with_redo_operation(op).name == action.name,
        action.with_undo_operation(op).name == action.name,
{
}

/// The cursor never leaves the recorded actions: a fresh history has it in
/// bounds, and recording an action, a redo and an undo all keep it there.
pub proof fn lemma_cursor_stays_in_bounds<Op>(history: HistoryView<Op>, action: ActionView<Op>)
    requires
        history.wf(),
    ensures
        HistoryView::<Op>::empty().wf(),
        history.with_new_action(action).wf(),
        history.after_redo().wf(),
        history.after_undo().wf(),
{
}

/// In a fresh history there is nothing to undo and nothing to redo: both
/// leave the history and the target as they are.
pub proof fn lemma_fresh_history_has_nothing_to_do<For, Op: Operation<For>>(target: For)
    ensures
        !HistoryView::<Op>::empty().can_undo(),
        !HistoryView::<Op>::empty().can_redo(),
        HistoryView::<Op>::empty().after_undo() == HistoryView::<Op>::empty(),
        HistoryView::<Op>::empty().after_redo() == HistoryView::<Op>::empty(),
        HistoryView::<Op>::empty().undo_target(target) == target,
        HistoryView::<Op>::empty().redo_target(target) == target,
{
}

/// A redo followed by an undo is a round trip: where there is an action to
/// redo, and undoing it takes back what redoing it does to `target`, the
/// history and the target end as they began.
pub proof fn lemma_redo_then_undo_is_a_round_trip<For, Op: Operation<For>>(
    history: HistoryView<Op>,
    target: For,
)
    requires
        history.wf(),
        history.can_redo(),
        history.actions[history.tapehead as int].restores(target),
    ensures
        history.after_redo().can_undo(),
        history.after_redo().after_undo() == history,
        history.after_redo().undo_target(history.redo_target(target)) == target,
{
}

/// A new action replaces everything that was undone: the history keeps the
/// actions before the cursor and ends with the new one, the first redo
/// applies the new action, and every further redo finds nothing to do.
pub proof fn lemma_new_action_ends_the_future<For, Op: Operation<For>>(
    history: HistoryView<Op>,
    action: ActionView<Op>,
    target: For,
    redos: nat,
)
    requires
        history.wf(),
        redos >= 1,
    ensures
        ({
            let cursor = history.tapehead as int;
            let recorded = history.with_new_action(action);
            &&& recorded.wf()
            &&& recorded.tapehead == history.tapehead
            &&& recorded.actions.len() == cursor + 1
            &&& recorded.actions.take(cursor) == history.actions.take(cursor)
            &&& recorded.actions.last() == action
            &&& recorded.can_redo()
            &&& !recorded.after_redo().can_redo()
            &&& redo_times(recorded, target, redos) == (
                recorded.after_redo(),
                action.applied(target),
            )
        }),
{
    let recorded = history.with_new_action(action);
    lemma_redo_at_the_end_changes_nothing(
        recorded.after_redo(),
        action.applied(target),
        (redos - 1) as nat,
    );
}

/// After any number of actions were committed to a fresh history, one after
/// the other, as many undos bring the target back to where it began and the
/// cursor back to the start, where a further undo finds nothing to do. This
/// holds where undoing each action takes back what redoing it did to the
/// target that it was committed on.
pub proof fn lemma_undoing_every_commit_restores_the_target<For, Op: Operation<For>>(
    target: For,
    actions: Seq<ActionView<Op>>,
)
    requires
        forall|i: int|
            0 <= i < actions.len() ==> (#[trigger] actions[i]).restores(
                commit_all(HistoryView::empty(), target, actions.take(i)).1,
            ),
    ensures
        ({
            let (committed, reached) = commit_all(HistoryView::empty(), target, actions);
            let (rewound, restored) = undo_times(committed, reached, actions.len());
            &&& committed == (HistoryView { actions, tapehead: actions.len() })
            &&& rewound == (HistoryView { actions, tapehead: 0 })
            &&& restored == target
            &&& !rewound.can_undo()
        }),
    decreases actions.len(),
{
    lemma_commit_all_records_the_actions(target, actions);
    if actions.len() > 0 {
        let fresh = HistoryView::<Op>::empty();
        let earlier_actions = actions.drop_last();
        let count = earlier_actions.len();
        assert forall|i: int| 0 <= i < count implies (#[trigger] earlier_actions[i]).restores(
            commit_all(fresh, target, earlier_actions.take(i)).1,
        ) by {
            assert(earlier_actions.take(i) =~= actions.take(i));
        }
        lemma_undoing_every_commit_restores_the_target(target, earlier_actions);

        // The last action was committed on the target that the earlier ones
        // reached, and the first undo takes it back to that target.
        let (earlier, before) = commit_all(fresh, target, earlier_actions);
        let (committed, reached) = commit_all(fresh, target, actions);
        assert(actions.take(count as int) =~= earlier_actions);
        assert(committed.undo_target(reached) == before);

        // From there on the undos see the earlier actions only.
        let stepped = committed.after_undo();
        assert(stepped.actions.take(count as int) =~= earlier.actions.take(count as int));
        lemma_undo_ignores_the_future(stepped, earlier, before, count);
    }
}

/// Redos at the end of the history change nothing, however many there are.
proof fn lemma_redo_at_the_end_changes_nothing<For, Op: Operation<For>>(
    history: HistoryView<Op>,
    target: For,
    count: nat,
)
    requires
        !history.can_redo(),
    ensures
        redo_times(history, target, count) == (history, target),
    decreases count,
{
    if count > 0 {
        lemma_redo_at_the_end_changes_nothing(history, target, (count - 1) as nat);
    }
}

/// Committing a list of actions to a fresh history records exactly that list
/// and leaves the cursor behind its last action.
proof fn lemma_commit_all_records_the_actions<For, Op: Operation<For>>(
    target: For,
    actions: Seq<ActionView<Op>>,
)
    ensures
        commit_all(HistoryView::empty(), target, actions).0 == (HistoryView {
            actions,
            tapehead: actions.len(),
        }),
    decreases actions.len(),
{
    if actions.len() > 0 {
        lemma_commit_all_records_the_actions(target, actions.drop_last());
    }
}

/// What undos do depends only on the actions before the cursor.
proof fn lemma_undo_ignores_the_future<For, Op: Operation<For>>(
    one: HistoryView<Op>,
    other: HistoryView<Op>,
    target: For,
    count: nat,
)
    requires
        one.wf(),
        other.wf(),
        one.tapehead == other.tapehead,
        one.actions.take(one.tapehead as int) == other.actions.take(other.tapehead as int),
    ensures
        undo_times(one, target, count).1 == undo_times(other, target, count).1,
        undo_times(one, target, count).0.tapehead == undo_times(other, target, count).0.tapehead,
        undo_times(one, target, count).0.actions == one.actions,
        undo_times(other, target, count).0.actions == other.actions,
    decreases count,
{
    if count > 0 {
        let cursor = one.tapehead as int;
        if cursor > 0 {
            // The action to undo is the same in both, and so is all before it.
            assert(one.actions[cursor - 1] == one.actions.take(cursor)[cursor - 1]);
            assert(other.actions[cursor - 1] == other.actions.take(cursor)[cursor - 1]);
            assert(one.actions.take(cursor - 1) =~= one.actions.take(cursor).take(cursor - 1));
            assert(other.actions.take(cursor - 1) =~= other.actions.take(cursor).take(cursor - 1));
        }
        lemma_undo_ignores_the_future(
            one.after_undo(),
            other.after_undo(),
            one.undo_target(target),
            (count - 1) as nat,
        );
    }
}

} // verus!
