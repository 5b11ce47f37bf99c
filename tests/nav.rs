use dialoguer::nav::{
    capacity_for, move_next, move_prev, page_next, page_prev, pages_for, recompute_page,
};
use dialoguer::Nav;

#[test]
fn move_next_wraps_to_first_row() {
    assert_eq!(move_next(Some(0), 3), 1);
    assert_eq!(move_next(Some(2), 3), 0);
    assert_eq!(move_next(None, 3), 0);
    assert_eq!(move_next(Some(0), 1), 0);
}

#[test]
fn move_prev_wraps_to_last_row() {
    assert_eq!(move_prev(Some(2), 3), 1);
    assert_eq!(move_prev(Some(0), 3), 2);
    assert_eq!(move_prev(None, 3), 2);
    assert_eq!(move_prev(Some(0), 1), 0);
}

#[test]
fn next_then_prev_returns_to_cursor() {
    for n in 1..8usize {
        for c in 0..n {
            assert_eq!(move_prev(Some(move_next(Some(c), n)), n), c);
            assert_eq!(move_next(Some(move_prev(Some(c), n)), n), c);
        }
    }
}

#[test]
fn vertical_moves_stay_on_list() {
    let n = 4usize;
    let mut c: Option<usize> = None;
    let moves = [true, true, false, false, false, true, false, false, false, false, true];
    for down in moves {
        let r = if down { move_next(c, n) } else { move_prev(c, n) };
        assert!(r < n);
        c = Some(r);
    }
}

#[test]
fn page_count_is_ceiling() {
    assert_eq!(pages_for(5, 3), 2);
    assert_eq!(pages_for(6, 3), 2);
    assert_eq!(pages_for(7, 3), 3);
    assert_eq!(pages_for(1, 10), 1);
    assert_eq!(pages_for(0, 4), 0);
    assert_eq!(pages_for(4, 4), 1);
}

#[test]
fn every_row_on_one_page() {
    for cap in 1..6usize {
        for n in 1..15usize {
            let pages = pages_for(n, cap);
            for i in 0..n {
                let owners: Vec<usize> =
                    (0..pages).filter(|p| p * cap <= i && i < (p + 1) * cap).collect();
                assert_eq!(owners, vec![i / cap]);
            }
        }
    }
}

#[test]
fn page_next_cycles_back_after_all_pages() {
    for pages in 1..6usize {
        for start in 0..pages {
            let mut p = start;
            for _ in 0..pages {
                p = page_next(p, pages);
            }
            assert_eq!(p, start);
        }
    }
    assert_eq!(page_next(1, 2), 0);
    assert_eq!(page_prev(0, 2), 1);
    assert_eq!(page_prev(2, 3), 1);
}

#[test]
fn recompute_page_follows_cursor() {
    assert_eq!(recompute_page(4, 1, 3), 1);
    assert_eq!(recompute_page(6, 1, 3), 2);
    assert_eq!(recompute_page(0, 2, 3), 0);
}

#[test]
fn capacity_depends_on_paging() {
    assert_eq!(capacity_for(false, 10, 30), 30);
    assert_eq!(capacity_for(true, 10, 30), 9);
    assert_eq!(capacity_for(true, 1, 30), 1);
    assert_eq!(capacity_for(true, 0, 30), 1);
}

#[test]
fn visible_rows_of_last_page_are_cut() {
    let mut nav = Nav::new(5, true, 4, Some(4));
    assert_eq!(nav.page, 1);
    assert_eq!(nav.visible(), (3, 5));
    nav.left();
    assert_eq!(nav.visible(), (0, 3));
    assert_eq!(nav.cursor, Some(0));
}
