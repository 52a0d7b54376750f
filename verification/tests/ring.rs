use focus_ring::Direction;
use focus_ring::Ring;
use focus_ring::Selector;

type IntSel = Selector<fn(&i32) -> bool>;

#[test]
fn rotate_holds_focus_but_permutes_order() {
    let mut r = Ring::new(vec![1, 2, 3]);

    r.rotate(Direction::Forward);
    assert_eq!(r.as_vec(), vec![3, 1, 2]);
    assert_eq!(r.focused(), Some(&3));

    r.rotate(Direction::Backward);
    assert_eq!(r.as_vec(), vec![1, 2, 3]);
    assert_eq!(r.focused(), Some(&1));
}

#[test]
fn dragging_an_element_forward() {
    let mut r = Ring::new(vec![1, 2, 3, 4]);
    assert_eq!(r.focused(), Some(&1));

    assert_eq!(r.drag_focused(Direction::Forward), Some(&1));
    assert_eq!(r.as_vec(), vec![2, 1, 3, 4]);

    assert_eq!(r.drag_focused(Direction::Forward), Some(&1));
    assert_eq!(r.as_vec(), vec![2, 3, 1, 4]);

    assert_eq!(r.drag_focused(Direction::Forward), Some(&1));
    assert_eq!(r.as_vec(), vec![2, 3, 4, 1]);

    assert_eq!(r.drag_focused(Direction::Forward), Some(&1));
    assert_eq!(r.as_vec(), vec![1, 2, 3, 4]);

    assert_eq!(r.focused(), Some(&1));
}

#[test]
fn dragging_an_element_backward() {
    let mut r = Ring::new(vec![1, 2, 3, 4]);
    assert_eq!(r.focused(), Some(&1));

    assert_eq!(r.drag_focused(Direction::Backward), Some(&1));
    assert_eq!(r.as_vec(), vec![2, 3, 4, 1]);

    assert_eq!(r.drag_focused(Direction::Backward), Some(&1));
    assert_eq!(r.as_vec(), vec![2, 3, 1, 4]);

    assert_eq!(r.drag_focused(Direction::Backward), Some(&1));
    assert_eq!(r.as_vec(), vec![2, 1, 3, 4]);

    assert_eq!(r.drag_focused(Direction::Backward), Some(&1));
    assert_eq!(r.as_vec(), vec![1, 2, 3, 4]);

    assert_eq!(r.focused(), Some(&1));
}

#[test]
fn remove_focused() {
    let mut r = Ring::new(vec![1, 2, 3]);
    r.focus(IntSel::Index(2));
    assert_eq!(r.focused(), Some(&3));
    assert_eq!(r.remove(IntSel::Focused), Some(3));
    assert_eq!(r.focused_index(), 1);
    assert_eq!(r.focused(), Some(&2));
    assert_eq!(r.remove(IntSel::Focused), Some(2));
    assert_eq!(r.focused(), Some(&1));
    assert_eq!(r.remove(IntSel::Focused), Some(1));
    assert_eq!(r.focused(), None);
    assert_eq!(r.remove(IntSel::Focused), None);
}

#[test]
fn remove_by() {
    let mut r = Ring::new(vec![1, 2, 3, 4, 5, 6]);
    r.focus(IntSel::Index(3));
    assert_eq!(r.focused(), Some(&4));
    assert_eq!(r.remove(Selector::Condition(|e: &i32| e % 2 == 0)), Some(2));
    assert_eq!(r.focused(), Some(&5));
}

#[test]
fn focus_by() {
    let mut r = Ring::new(vec![1, 2, 3, 4, 5, 6]);
    assert_eq!(r.focus(Selector::Condition(|e: &i32| e % 2 == 0)), Some(&2));
    assert_eq!(r.focus(Selector::Condition(|e: &i32| e % 7 == 0)), None);
}

#[test]
fn cycle_focus() {
    let mut r = Ring::new(vec![1, 2, 3]);
    assert_eq!(r.cycle_focus(Direction::Forward), Some(&2));
    assert_eq!(r.as_vec(), vec![1, 2, 3]);
    assert_eq!(r.cycle_focus(Direction::Backward), Some(&1));
    assert_eq!(r.as_vec(), vec![1, 2, 3]);
}

#[test]
fn cycle_focus_wraps_both_ways() {
    let mut r = Ring::new(vec![1, 2, 3]);
    assert_eq!(r.cycle_focus(Direction::Backward), Some(&3));
    assert_eq!(r.focused_index(), 2);
    assert_eq!(r.cycle_focus(Direction::Forward), Some(&1));
    assert_eq!(r.focused_index(), 0);
}

#[test]
fn would_wrap_at_either_end() {
    let mut r = Ring::new(vec![1, 2, 3]);
    assert!(r.would_wrap(Direction::Backward));
    assert!(!r.would_wrap(Direction::Forward));
    r.focus(IntSel::Index(2));
    assert!(r.would_wrap(Direction::Forward));
    assert!(!r.would_wrap(Direction::Backward));
}

#[test]
fn would_wrap_is_false_on_an_empty_ring() {
    let r: Ring<i32> = Ring::new(vec![]);
    assert!(!r.would_wrap(Direction::Forward));
    assert!(!r.would_wrap(Direction::Backward));
}

#[test]
fn remove_focused_clamps_to_new_last_index() {
    let mut r = Ring::new(vec![10, 20, 30]);
    r.focus(IntSel::Index(2));
    assert_eq!(r.remove(IntSel::Focused), Some(30));
    assert_eq!(r.len(), 2);
    assert_eq!(r.focused_index(), r.len() - 1);
    assert_eq!(r.focused(), Some(&20));
}

#[test]
fn remove_focused_in_the_middle_focuses_the_successor() {
    let mut r = Ring::new(vec![1, 2, 3]);
    r.focus(IntSel::Index(1));
    assert_eq!(r.remove(IntSel::Focused), Some(2));
    assert_eq!(r.focused_index(), 1);
    assert_eq!(r.focused(), Some(&3));
}

#[test]
fn focus_by_no_match_keeps_focus() {
    let mut r = Ring::new(vec![1, 2, 3, 4, 5, 6]);
    r.focus(IntSel::Index(4));
    assert_eq!(r.focus(Selector::Condition(|e: &i32| e % 7 == 0)), None);
    assert_eq!(r.focused_index(), 4);
    assert_eq!(r.focused(), Some(&5));
}

#[test]
fn focus_by_out_of_range_index_is_a_no_op() {
    let mut r = Ring::new(vec![1, 2, 3]);
    r.focus(IntSel::Index(1));
    assert_eq!(r.focus(IntSel::Index(7)), None);
    assert_eq!(r.focused_index(), 1);
}

#[test]
fn remove_by_out_of_range_index_is_a_no_op() {
    let mut r = Ring::new(vec![1, 2, 3]);
    assert_eq!(r.remove(IntSel::Index(7)), None);
    assert_eq!(r.as_vec(), vec![1, 2, 3]);
    assert_eq!(r.focused_index(), 0);
}

#[test]
fn win_id_selectors_never_match() {
    let mut r = Ring::new(vec![1, 2, 3]);
    assert_eq!(r.element(IntSel::WinId(42)), None);
    assert_eq!(r.focus(IntSel::WinId(42)), None);
    assert_eq!(r.remove(IntSel::WinId(42)), None);
    assert_eq!(r.as_vec(), vec![1, 2, 3]);
    assert_eq!(r.focused_index(), 0);
}

#[test]
fn element_looks_up_without_changing_focus() {
    let r = Ring::new(vec![1, 2, 3]);
    assert_eq!(r.element(IntSel::Focused), Some(&1));
    assert_eq!(r.element(IntSel::Index(2)), Some(&3));
    assert_eq!(r.element(IntSel::Index(3)), None);
    assert_eq!(r.element(Selector::Condition(|e: &i32| *e > 1)), Some(&2));
    assert_eq!(r.element(Selector::Condition(|e: &i32| *e > 9)), None);
    assert_eq!(r.focused_index(), 0);
}

#[test]
fn element_mut_gives_write_access() {
    let mut r = Ring::new(vec![1, 2, 3]);
    if let Some(e) = r.element_mut(IntSel::Index(1)) {
        *e = 20;
    }
    assert_eq!(r.as_vec(), vec![1, 20, 3]);
    if let Some(e) = r.element_mut(Selector::Condition(|e: &i32| *e == 3)) {
        *e = 30;
    }
    assert_eq!(r.as_vec(), vec![1, 20, 30]);
    assert_eq!(r.element_mut(IntSel::WinId(7)), None);
}

#[test]
fn focused_mut_edits_the_focused_element() {
    let mut r = Ring::new(vec![1, 2, 3]);
    if let Some(e) = r.focused_mut() {
        *e = 11;
    }
    assert_eq!(r.as_vec(), vec![11, 2, 3]);
    assert_eq!(r.focused_index(), 0);

    let mut empty: Ring<i32> = Ring::new(vec![]);
    assert_eq!(empty.focused_mut(), None);
}

#[test]
fn insert_shifts_later_elements_and_not_the_focus() {
    let mut r = Ring::new(vec![1, 2, 3]);
    r.focus(IntSel::Index(1));
    r.insert(1, 9);
    assert_eq!(r.as_vec(), vec![1, 9, 2, 3]);
    assert_eq!(r.focused_index(), 1);
    assert_eq!(r.focused(), Some(&9));
    r.insert(4, 7);
    assert_eq!(r.as_vec(), vec![1, 9, 2, 3, 7]);
}

#[test]
fn operations_on_an_empty_ring_are_no_ops() {
    let mut r: Ring<i32> = Ring::new(vec![]);
    assert_eq!(r.len(), 0);
    assert_eq!(r.focused(), None);
    assert_eq!(r.cycle_focus(Direction::Forward), None);
    assert_eq!(r.drag_focused(Direction::Backward), None);
    r.rotate(Direction::Forward);
    assert_eq!(r.as_vec(), Vec::<i32>::new());
    assert_eq!(r.remove(IntSel::Focused), None);
}

#[test]
fn dragging_a_single_element_changes_nothing() {
    let mut r = Ring::new(vec![5]);
    assert_eq!(r.drag_focused(Direction::Forward), Some(&5));
    assert_eq!(r.as_vec(), vec![5]);
    assert_eq!(r.focused_index(), 0);
    assert_eq!(r.drag_focused(Direction::Backward), Some(&5));
    assert_eq!(r.as_vec(), vec![5]);
    assert_eq!(r.focused_index(), 0);
}

#[test]
fn iter_walks_the_elements_in_ring_order() {
    let mut r = Ring::new(vec![1, 2, 3]);
    r.rotate(Direction::Forward);
    let collected: Vec<i32> = r.iter().cloned().collect();
    assert_eq!(collected, vec![3, 1, 2]);
}

#[test]
fn reverse_is_an_involution() {
    assert_eq!(Direction::Forward.reverse(), Direction::Backward);
    assert_eq!(Direction::Backward.reverse(), Direction::Forward);
    assert_eq!(Direction::Forward.reverse().reverse(), Direction::Forward);
    assert_eq!(Direction::Backward.reverse().reverse(), Direction::Backward);
}
