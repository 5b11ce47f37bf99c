use dialoguer::order::{carry, identity_order, swap_rows};
use dialoguer::{Key, OrderList, OrderState, Step};

fn is_permutation(v: &[usize]) -> bool {
    let mut seen = vec![false; v.len()];
    for &x in v {
        if x >= v.len() || seen[x] {
            return false;
        }
        seen[x] = true;
    }
    true
}

#[test]
fn drag_left_across_wrap_moves_item_to_last_page() {
    // 5 items, 3 per page (terminal of 4 rows), so 2 pages.
    let mut st = OrderState::new(5, true, 4);
    assert_eq!(st.nav.pages, 2);
    assert_eq!(st.step(Key::Space), Step::Continue);
    assert!(st.dragging);
    assert_eq!(st.step(Key::Left), Step::Continue);
    assert_eq!(st.nav.cursor, Some(3));
    assert_eq!(st.order, vec![4, 1, 2, 0, 3]);
    assert_eq!(st.step(Key::Enter), Step::Finish(vec![4, 1, 2, 0, 3]));
}

#[test]
fn drag_right_moves_item_forward() {
    let mut st = OrderState::new(5, true, 4);
    st.step(Key::Down);
    st.step(Key::Char(' '));
    st.step(Key::Right);
    assert_eq!(st.nav.cursor, Some(3));
    assert_eq!(st.order, vec![0, 2, 3, 1, 4]);
}

#[test]
fn drag_right_from_last_page_wraps_to_top() {
    let mut st = OrderState::new(5, true, 4);
    st.step(Key::Up);
    assert_eq!(st.nav.cursor, Some(4));
    st.step(Key::Space);
    st.step(Key::Right);
    assert_eq!(st.nav.cursor, Some(0));
    assert_eq!(st.order, vec![4, 1, 2, 3, 0]);
}

#[test]
fn drag_left_within_list_moves_item_back() {
    let mut st = OrderState::new(7, true, 4);
    st.step(Key::Right);
    st.step(Key::Right);
    assert_eq!(st.nav.cursor, Some(6));
    st.step(Key::Space);
    st.step(Key::Left);
    assert_eq!(st.nav.cursor, Some(3));
    assert_eq!(st.order, vec![0, 1, 2, 6, 3, 4, 5]);
}

#[test]
fn drag_down_and_up_exchange_neighbours() {
    let mut st = OrderState::new(3, false, 24);
    st.step(Key::Space);
    st.step(Key::Down);
    assert_eq!(st.order, vec![1, 0, 2]);
    st.step(Key::Down);
    assert_eq!(st.order, vec![1, 2, 0]);
    st.step(Key::Down);
    assert_eq!(st.nav.cursor, Some(0));
    assert_eq!(st.order, vec![0, 2, 1]);
    st.step(Key::Up);
    assert_eq!(st.order, vec![1, 2, 0]);
    st.step(Key::Space);
    st.step(Key::Up);
    assert_eq!(st.order, vec![1, 2, 0]);
    assert_eq!(st.nav.cursor, Some(1));
}

#[test]
fn moves_without_drag_keep_order() {
    let mut st = OrderState::new(4, true, 3);
    for k in [Key::Down, Key::Right, Key::Left, Key::Up, Key::Char('j'), Key::Escape] {
        assert_eq!(st.step(k), Step::Continue);
    }
    assert_eq!(st.order, vec![0, 1, 2, 3]);
}

#[test]
fn many_drags_keep_a_permutation() {
    for n in 1..9usize {
        for rows in 2..6usize {
            let mut st = OrderState::new(n, true, rows);
            let keys = [
                Key::Space, Key::Left, Key::Down, Key::Left, Key::Right, Key::Up, Key::Right,
                Key::Space, Key::Down, Key::Space, Key::Left, Key::Left, Key::Right, Key::Up,
                Key::Up, Key::Right, Key::Right, Key::Left,
            ];
            for k in keys {
                st.step(k);
                assert!(is_permutation(&st.order), "n={} rows={} {:?}", n, rows, st.order);
                assert!(st.nav.cursor.unwrap() < n);
            }
        }
    }
}

#[test]
fn carry_shifts_rows_passed_over() {
    let mut v = identity_order(6);
    carry(&mut v, 1, 4, true);
    assert_eq!(v, vec![0, 2, 3, 4, 1, 5]);
    let mut w = identity_order(6);
    carry(&mut w, 1, 4, false);
    assert_eq!(w, vec![5, 0, 2, 3, 1, 4]);
    let mut u = identity_order(3);
    carry(&mut u, 2, 2, true);
    assert_eq!(u, vec![0, 1, 2]);
}

#[test]
fn swap_rows_exchanges() {
    let mut v = identity_order(3);
    swap_rows(&mut v, 0, 2);
    assert_eq!(v, vec![2, 1, 0]);
}

#[test]
fn order_list_builder() {
    let mut l = OrderList::new();
    l.items(&["a", "b"]).item("c").paged(true).clear(false).with_prompt("Order");
    assert_eq!(l.items, vec!["a", "b", "c"]);
    assert!(l.paged);
    assert!(!l.clear);
    assert_eq!(l.prompt.as_deref(), Some("Order"));
}

#[test]
fn default_builders_are_empty() {
    let l = OrderList::default();
    assert!(l.items.is_empty() && l.clear && !l.paged);
    let c = dialoguer::Checkboxes::default();
    assert!(c.items.is_empty() && c.defaults.is_empty());
    let p = dialoguer::PasswordInput::default();
    assert!(p.prompt.is_empty() && !p.allow_empty_password);
}
