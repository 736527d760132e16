use undo_redo::{Action, Operation};

/// Edits on a line of text.
#[derive(Clone, Debug, PartialEq, Eq)]
enum Edit {
    Append(char),
    DropLast,
    Upper,
}

impl Operation<String> for Edit {
    fn effect(&self, item: String) -> String {
        let mut text = item;
        match self {
            Edit::Append(letter) => text.push(*letter),
            Edit::DropLast => {
                text.pop();
            }
            Edit::Upper => text = text.to_uppercase(),
        }
        text
    }

    fn apply(&self, item: &mut String) {
        *item = self.effect(std::mem::take(item));
    }
}

#[test]
fn action_without_a_name_has_none() {
    let action: Action<Edit> = Action::default();
    assert_eq!(action.get_name(), None);
}

#[test]
fn name_that_was_set_is_the_name_that_is_read() {
    let mut action: Action<Edit> = Action::default();
    action.set_name(String::from("type a word"));
    assert_eq!(action.get_name(), Some("type a word"));
}

#[test]
fn empty_name_is_still_a_name() {
    let mut action: Action<Edit> = Action::default();
    action.set_name(String::new());
    assert_eq!(action.get_name(), Some(""));
}

#[test]
fn later_name_replaces_the_earlier_one() {
    let mut action: Action<Edit> = Action::default();
    action.set_name(String::from("first")).set_name(String::from("second"));
    assert_eq!(action.get_name(), Some("second"));
}

#[test]
fn adding_operations_leaves_the_name_alone() {
    let mut action: Action<Edit> = Action::default();
    action.add_redo_operation(Edit::Upper).add_undo_operation(Edit::DropLast);
    assert_eq!(action.get_name(), None);
    action.set_name(String::from("shout"));
    action.add_redo_operation(Edit::Append('!'));
    assert_eq!(action.get_name(), Some("shout"));
}

#[test]
fn apply_runs_the_redo_operations_in_the_order_added() {
    let mut action: Action<Edit> = Action::default();
    action
        .add_redo_operation(Edit::Append('a'))
        .add_redo_operation(Edit::Upper)
        .add_redo_operation(Edit::Append('b'));
    let mut text = String::from("x");
    action.apply(&mut text);
    assert_eq!(text, "XAb");
}

#[test]
fn revert_runs_the_undo_operations_in_the_order_added() {
    let mut action: Action<Edit> = Action::default();
    action
        .add_undo_operation(Edit::DropLast)
        .add_undo_operation(Edit::Append('z'))
        .add_undo_operation(Edit::Upper);
    let mut text = String::from("ab");
    action.revert(&mut text);
    assert_eq!(text, "AZ");
}

#[test]
fn redo_and_undo_lists_are_independent() {
    let mut action: Action<Edit> = Action::default();
    action
        .add_redo_operation(Edit::Append('r'))
        .add_undo_operation(Edit::Append('u'));
    let mut text = String::new();
    action.apply(&mut text);
    assert_eq!(text, "r");
    let mut text = String::new();
    action.revert(&mut text);
    assert_eq!(text, "u");
}

#[test]
fn empty_action_changes_nothing() {
    let action: Action<Edit> = Action::default();
    let mut text = String::from("as it was");
    action.apply(&mut text);
    assert_eq!(text, "as it was");
    action.revert(&mut text);
    assert_eq!(text, "as it was");
}

#[test]
fn action_can_be_applied_again_and_to_other_targets() {
    let mut action: Action<Edit> = Action::default();
    action.add_redo_operation(Edit::Append('!'));
    let mut first = String::from("hey");
    let mut second = String::from("ho");
    action.apply(&mut first);
    action.apply(&mut first);
    action.apply(&mut second);
    assert_eq!(first, "hey!!");
    assert_eq!(second, "ho!");
}

#[test]
fn apply_then_revert_with_inverse_operations_restores_the_target() {
    let mut action: Action<Edit> = Action::default();
    action
        .add_redo_operation(Edit::Append('a'))
        .add_redo_operation(Edit::Append('b'))
        .add_undo_operation(Edit::DropLast)
        .add_undo_operation(Edit::DropLast);
    let mut text = String::from("word");
    action.apply(&mut text);
    assert_eq!(text, "wordab");
    action.revert(&mut text);
    assert_eq!(text, "word");
}

#[test]
fn actions_compare_by_name_and_operations() {
    let mut one: Action<Edit> = Action::default();
    let mut other: Action<Edit> = Action::default();
    assert_eq!(one, other);
    one.add_redo_operation(Edit::Upper);
    assert_ne!(one, other);
    other.add_redo_operation(Edit::Upper);
    assert_eq!(one, other);
    other.set_name(String::from("named"));
    assert_ne!(one, other);
    assert_eq!(other.clone(), other);
}
