use devjournal::list::{ListOp, SelectionList};

fn list_of(items: &[&str], selection: Option<usize>) -> SelectionList<String> {
    let mut list = SelectionList::from_vec(items.iter().map(|s| s.to_string()).collect());
    if let Some(i) = selection {
        list.select(i).unwrap();
    }
    list
}

fn names(list: &SelectionList<String>) -> Vec<&str> {
    list.items().iter().map(|s| s.as_str()).collect()
}

#[test]
fn default_and_from_are_empty_of_selection() {
    let list: SelectionList<String> = SelectionList::default();
    assert_eq!(list.len(), 0);
    assert_eq!(list.selection(), None);
    let list: SelectionList<u32> = SelectionList::from(vec![1, 2, 3]);
    assert_eq!(list.len(), 3);
    assert_eq!(list.selection(), None);
}

#[test]
fn iter_walks_items_in_order() {
    let list = list_of(&["a", "b", "c"], None);
    let seen: Vec<&String> = list.iter().collect();
    assert_eq!(seen, vec!["a", "b", "c"]);
}

#[test]
fn get_item_by_index_or_selection() {
    let list = list_of(&["a", "b", "c"], Some(1));
    assert_eq!(list.get_item(Some(2)).map(|s| s.as_str()), Some("c"));
    assert_eq!(list.get_item(None).map(|s| s.as_str()), Some("b"));
    assert_eq!(list.get_item(Some(3)), None);
    let unselected = list_of(&["a"], None);
    assert_eq!(unselected.get_item(None), None);
    assert_eq!(unselected.selected(), None);
}

#[test]
fn get_item_mut_changes_in_place() {
    let mut list = list_of(&["a", "b"], Some(0));
    *list.get_item_mut(None).unwrap() = "z".to_string();
    *list.get_item_mut(Some(1)).unwrap() = "y".to_string();
    assert!(list.get_item_mut(Some(5)).is_none());
    assert_eq!(names(&list), vec!["z", "y"]);
    assert_eq!(list.selection(), Some(0));
}

#[test]
fn add_item_with_selection_inserts_after_it() {
    let mut list = list_of(&["a", "b", "c"], Some(0));
    list.add_item("x".to_string(), true);
    assert_eq!(names(&list), vec!["a", "x", "b", "c"]);
    assert_eq!(list.selection(), Some(1));
    list.add_item("y".to_string(), false);
    assert_eq!(names(&list), vec!["a", "x", "y", "b", "c"]);
    assert_eq!(list.selection(), Some(1));
}

#[test]
fn add_item_at_end_pushes() {
    let mut list = list_of(&["a", "b"], Some(1));
    list.add_item("c".to_string(), true);
    assert_eq!(names(&list), vec!["a", "b", "c"]);
    assert_eq!(list.selection(), Some(2));
    let mut unselected = list_of(&["a"], None);
    unselected.add_item("b".to_string(), false);
    assert_eq!(names(&unselected), vec!["a", "b"]);
    assert_eq!(unselected.selection(), None);
    unselected.add_item("c".to_string(), true);
    assert_eq!(unselected.selection(), Some(2));
}

#[test]
fn add_item_selects_new_item() {
    let mut list = list_of(&["a", "b"], None);
    list.add_item("c".to_string(), true);
    assert_eq!(list.selection(), Some(2));
    assert_eq!(list.selected().map(|s| s.as_str()), Some("c"));
}

#[test]
fn insert_item_at_index_or_front() {
    let mut list = list_of(&["a", "b"], None);
    list.insert_item(Some(1), "x".to_string(), false);
    assert_eq!(names(&list), vec!["a", "x", "b"]);
    assert_eq!(list.selection(), None);
    list.insert_item(None, "f".to_string(), true);
    assert_eq!(names(&list), vec!["f", "a", "x", "b"]);
    assert_eq!(list.selection(), Some(0));
}

#[test]
fn clear_items_keeps_selection() {
    let mut list = list_of(&["a", "b"], Some(1));
    list.clear_items();
    assert_eq!(list.len(), 0);
    assert_eq!(list.selection(), Some(1));
    assert!(!list.is_wf());
}

#[test]
fn select_out_of_range_fails() {
    let mut list = list_of(&["a", "b"], Some(0));
    let err = list.select(2).unwrap_err();
    assert_eq!(err.message, "index out of range");
    assert_eq!(list.selection(), Some(0));
    assert!(list.select(1).is_ok());
    assert_eq!(list.selection(), Some(1));
    list.deselect();
    assert_eq!(list.selection(), None);
}

#[test]
fn next_and_prev_index_wrap_around() {
    let list = list_of(&["a", "b", "c"], Some(2));
    assert_eq!(list.next_index(), Some(0));
    assert_eq!(list.prev_index(), Some(1));
    let first = list_of(&["a", "b", "c"], Some(0));
    assert_eq!(first.next_index(), Some(1));
    assert_eq!(first.prev_index(), Some(2));
    let none = list_of(&["a", "b", "c"], None);
    assert_eq!(none.next_index(), Some(0));
    assert_eq!(none.prev_index(), Some(2));
    let empty: SelectionList<String> = SelectionList::default();
    assert_eq!(empty.next_index(), None);
    assert_eq!(empty.prev_index(), None);
}

#[test]
fn select_next_then_prev_returns() {
    for start in 0..3 {
        let mut list = list_of(&["a", "b", "c"], Some(start));
        list.select_next();
        list.select_prev();
        assert_eq!(list.selection(), Some(start));
        list.select_prev();
        list.select_next();
        assert_eq!(list.selection(), Some(start));
    }
}

#[test]
fn shift_next_swaps_or_rotates() {
    let mut list = list_of(&["a", "b", "c"], Some(0));
    assert_eq!(list.shift_next().unwrap(), 1);
    assert_eq!(names(&list), vec!["b", "a", "c"]);
    assert_eq!(list.shift_next().unwrap(), 2);
    assert_eq!(names(&list), vec!["b", "c", "a"]);
    assert_eq!(list.shift_next().unwrap(), 0);
    assert_eq!(names(&list), vec!["a", "b", "c"]);
    assert_eq!(list.selection(), Some(0));
}

#[test]
fn shift_prev_swaps_or_rotates() {
    let mut list = list_of(&["a", "b", "c"], Some(2));
    assert_eq!(list.shift_prev().unwrap(), 1);
    assert_eq!(names(&list), vec!["a", "c", "b"]);
    assert_eq!(list.shift_prev().unwrap(), 0);
    assert_eq!(names(&list), vec!["c", "a", "b"]);
    assert_eq!(list.shift_prev().unwrap(), 2);
    assert_eq!(names(&list), vec!["a", "b", "c"]);
    assert_eq!(list.selection(), Some(2));
}

#[test]
fn shift_without_selection_fails() {
    let mut list = list_of(&["a", "b"], None);
    assert_eq!(list.shift_next().unwrap_err().message, "no item selected");
    assert_eq!(list.shift_prev().unwrap_err().message, "no item selected");
    assert_eq!(names(&list), vec!["a", "b"]);
}

#[test]
fn shift_prev_undoes_shift_next() {
    for start in 0..4 {
        let mut list = list_of(&["a", "b", "c", "d"], Some(start));
        list.shift_next().unwrap();
        list.shift_prev().unwrap();
        assert_eq!(names(&list), vec!["a", "b", "c", "d"]);
        assert_eq!(list.selection(), Some(start));
        list.shift_prev().unwrap();
        list.shift_next().unwrap();
        assert_eq!(names(&list), vec!["a", "b", "c", "d"]);
        assert_eq!(list.selection(), Some(start));
    }
}

#[test]
fn pop_selected_moves_selection() {
    let mut list = list_of(&["a", "b", "c"], Some(1));
    assert_eq!(list.pop_selected().as_deref(), Some("b"));
    assert_eq!(names(&list), vec!["a", "c"]);
    assert_eq!(list.selection(), Some(1));
    assert_eq!(list.pop_selected().as_deref(), Some("c"));
    assert_eq!(list.selection(), Some(0));
    assert_eq!(list.pop_selected().as_deref(), Some("a"));
    assert_eq!(list.selection(), None);
    assert_eq!(list.pop_selected(), None);
}

#[test]
fn insert_undoes_pop() {
    let mut list = list_of(&["a", "b", "c"], Some(1));
    let item = list.pop_selected().unwrap();
    list.insert_item(Some(1), item, true);
    assert_eq!(names(&list), vec!["a", "b", "c"]);
    assert_eq!(list.selection(), Some(1));
}

#[test]
fn add_joins_lists_without_selection() {
    let a = list_of(&["a", "b"], Some(1));
    let b = list_of(&["c"], Some(0));
    let joined = a + b;
    assert_eq!(names(&joined), vec!["a", "b", "c"]);
    assert_eq!(joined.selection(), None);
}

#[test]
fn as_strings_gives_labels() {
    let list = list_of(&["x", "y"], None);
    assert_eq!(list.as_strings(), vec!["x".to_string(), "y".to_string()]);
}

#[test]
fn apply_runs_each_operation() {
    let mut list = list_of(&["a", "b", "c"], Some(1));
    list.apply(ListOp::SelectNext);
    assert_eq!(list.selection(), Some(2));
    list.apply(ListOp::SelectPrev);
    assert_eq!(list.selection(), Some(1));
    list.apply(ListOp::ShiftNext);
    assert_eq!(names(&list), vec!["a", "c", "b"]);
    list.apply(ListOp::ShiftPrev);
    assert_eq!(names(&list), vec!["a", "b", "c"]);
    list.apply(ListOp::PopSelected);
    assert_eq!(names(&list), vec!["a", "c"]);
    list.apply(ListOp::Deselect);
    assert_eq!(list.selection(), None);
}
