use dialoguer::{Key, Select, SelectState, Step};

#[test]
fn test_str() {
    let selections = &[
        "Ice Cream",
        "Vanilla Cupcake",
        "Chocolate Muffin",
        "A Pile of sweet, sweet mustard",
    ];

    assert_eq!(
        Select::new().default(0).items(&selections[..]).items,
        selections
    );
}

#[test]
fn test_string() {
    let selections = vec!["a".to_string(), "b".to_string()];

    assert_eq!(
        Select::new().default(0).items(&selections[..]).items,
        selections
    );
}

#[test]
fn test_ref_str() {
    let a = "a";
    let b = "b";

    let selections = &[a, b];

    assert_eq!(
        Select::new().default(0).items(&selections[..]).items,
        selections
    );
}

#[test]
fn select_builder_settings() {
    let mut s = Select::new();
    s.paged(true).clear(false).default(2).item("x").item(7).with_prompt("Pick");
    assert!(s.paged);
    assert!(!s.clear);
    assert_eq!(s.default, Some(2));
    assert_eq!(s.items, vec!["x".to_string(), "7".to_string()]);
    assert_eq!(s.prompt, Some("Pick".to_string()));
}

#[test]
fn select_escape_before_enter_gives_no_selection() {
    let mut st = SelectState::new(4, false, 24, None, true);
    assert_eq!(st.step(Key::Escape), Step::Finish(None));
}

#[test]
fn select_down_then_enter_picks_first_row() {
    let mut st = SelectState::new(4, false, 24, None, true);
    assert_eq!(st.step(Key::Down), Step::Continue);
    assert_eq!(st.nav.cursor, Some(0));
    assert_eq!(st.step(Key::Enter), Step::Finish(Some(0)));
}

#[test]
fn select_up_from_unset_enters_last_row() {
    let mut st = SelectState::new(4, false, 24, None, true);
    assert_eq!(st.step(Key::Char('k')), Step::Continue);
    assert_eq!(st.step(Key::Space), Step::Finish(Some(3)));
}

#[test]
fn select_enter_on_unset_cursor_is_ignored() {
    let mut st = SelectState::new(3, false, 24, None, false);
    assert_eq!(st.step(Key::Enter), Step::Continue);
    assert_eq!(st.nav.cursor, None);
}

#[test]
fn select_quit_ignored_when_not_allowed() {
    let mut st = SelectState::new(3, false, 24, Some(1), false);
    assert_eq!(st.step(Key::Escape), Step::Continue);
    assert_eq!(st.step(Key::Char('q')), Step::Continue);
    assert_eq!(st.step(Key::Enter), Step::Finish(Some(1)));
}

#[test]
fn select_q_cancels_when_allowed() {
    let mut st = SelectState::new(3, false, 24, Some(1), true);
    assert_eq!(st.step(Key::Char('q')), Step::Finish(None));
}

#[test]
fn select_default_off_the_list_is_unset() {
    let st = SelectState::new(3, false, 24, Some(10), true);
    assert_eq!(st.nav.cursor, None);
}

#[test]
fn select_wraps_both_ways() {
    let mut st = SelectState::new(3, false, 24, Some(2), true);
    st.step(Key::Down);
    assert_eq!(st.nav.cursor, Some(0));
    st.step(Key::Up);
    assert_eq!(st.nav.cursor, Some(2));
}

#[test]
fn select_paging_jumps_to_first_row_of_page() {
    // 7 items, terminal of 4 rows: 3 per page, 3 pages.
    let mut st = SelectState::new(7, true, 4, Some(1), true);
    assert_eq!(st.nav.capacity, 3);
    assert_eq!(st.nav.pages, 3);
    st.step(Key::Right);
    assert_eq!((st.nav.page, st.nav.cursor), (1, Some(3)));
    st.step(Key::Char('l'));
    assert_eq!((st.nav.page, st.nav.cursor), (2, Some(6)));
    st.step(Key::Right);
    assert_eq!((st.nav.page, st.nav.cursor), (0, Some(0)));
    st.step(Key::Left);
    assert_eq!((st.nav.page, st.nav.cursor), (2, Some(6)));
    st.step(Key::Down);
    assert_eq!((st.nav.page, st.nav.cursor), (0, Some(0)));
    st.step(Key::Up);
    assert_eq!((st.nav.page, st.nav.cursor), (2, Some(6)));
    st.step(Key::Up);
    assert_eq!((st.nav.page, st.nav.cursor), (1, Some(5)));
}

#[test]
fn select_page_keys_ignored_without_paging() {
    let mut st = SelectState::new(5, false, 3, Some(4), true);
    assert_eq!(st.nav.capacity, 5);
    st.step(Key::Left);
    st.step(Key::Char('h'));
    assert_eq!(st.nav.cursor, Some(4));
}
