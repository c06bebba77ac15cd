use may_clack::window::{fmt_i64, fmt_u64, fmt_usize, fmt_usize_padded, mk_less_window,
    progress_line, Window};

#[test]
fn next_steps_wrap_around() {
    // window of 3 rows over a list of 5
    let mut w = Window { idx: 0, less_idx: 0 };
    for expected in [1usize, 2, 3, 4, 0, 1] {
        w.next(5, 3);
        assert_eq!(w.idx, expected);
    }
}

#[test]
fn prev_steps_wrap_around() {
    let mut w = Window { idx: 0, less_idx: 0 };
    w.prev(5, 3);
    assert_eq!(w.idx, 4);
    assert_eq!(w.less_idx, 2);
    w.prev(5, 3);
    assert_eq!(w.idx, 3);
    assert_eq!(w.less_idx, 1);
}

#[test]
fn window_row_sticks_at_the_edges() {
    let mut w = Window { idx: 0, less_idx: 0 };
    w.next(5, 3);
    assert_eq!((w.idx, w.less_idx), (1, 1));
    w.next(5, 3);
    assert_eq!((w.idx, w.less_idx), (2, 2));
    // the row is pinned at the bottom while the window slides
    w.next(5, 3);
    assert_eq!((w.idx, w.less_idx), (3, 2));
    w.next(5, 3);
    assert_eq!((w.idx, w.less_idx), (4, 2));
    // wrapping resets to the top
    w.next(5, 3);
    assert_eq!((w.idx, w.less_idx), (0, 0));
}

#[test]
fn page_down_with_window_three_over_five() {
    // after one page-down from the top the focus is index 3 and the
    // visible slice is [2, 3, 4]
    let mut w = Window { idx: 0, less_idx: 0 };
    w.page_down(5, 3);
    assert_eq!(w.idx, 3);
    assert_eq!(w.less_idx, 1);
    let start = w.idx - w.less_idx as usize;
    let visible: Vec<usize> = (start..start + 3).collect();
    assert_eq!(visible, vec![2, 3, 4]);
    assert_eq!(progress_line(w.idx, 5), "4/5");
}

#[test]
fn page_down_clamps_to_last() {
    let mut w = Window { idx: 3, less_idx: 1 };
    w.page_down(5, 3);
    assert_eq!((w.idx, w.less_idx), (4, 2));
}

#[test]
fn page_up_clamps_to_first() {
    let mut w = Window { idx: 3, less_idx: 1 };
    w.page_up(5, 3);
    assert_eq!((w.idx, w.less_idx), (0, 0));
}

#[test]
fn page_up_keeps_row_where_clamp_allows() {
    let mut w = Window { idx: 8, less_idx: 2 };
    w.page_up(9, 3);
    assert_eq!((w.idx, w.less_idx), (5, 2));
}

#[test]
fn paging_never_activates_for_short_lists() {
    // explicit row count: list must be strictly longer
    assert_eq!(mk_less_window(5, true, Some(3), None, None), Some(3));
    assert_eq!(mk_less_window(3, true, Some(3), None, None), None);
    assert_eq!(mk_less_window(2, true, Some(3), None, None), None);
    // height-derived: 20 rows minus the 4-row chrome leaves 16
    assert_eq!(mk_less_window(30, true, None, None, Some(20)), Some(16));
    assert_eq!(mk_less_window(10, true, None, None, Some(20)), None);
    // a cap below the height wins
    assert_eq!(mk_less_window(30, true, None, Some(10), Some(20)), Some(10));
    // paging off, or no terminal to measure: never active
    assert_eq!(mk_less_window(30, false, Some(3), None, None), None);
    assert_eq!(mk_less_window(30, true, None, None, None), None);
    // a terminal too small to hold any rows
    assert_eq!(mk_less_window(30, true, None, None, Some(4)), None);
}

#[test]
fn decimal_formatting() {
    assert_eq!(fmt_usize(0), "0");
    assert_eq!(fmt_usize(7), "7");
    assert_eq!(fmt_usize(12345), "12345");
    assert_eq!(fmt_u64(18446744073709551615), "18446744073709551615");
    assert_eq!(fmt_i64(-42), "-42");
    assert_eq!(fmt_i64(0), "0");
    assert_eq!(fmt_i64(i64::MIN), "-9223372036854775808");
}

#[test]
fn progress_pads_to_total_width() {
    assert_eq!(fmt_usize_padded(7, 3), "007");
    assert_eq!(fmt_usize_padded(1234, 3), "1234");
    assert_eq!(progress_line(0, 100), "001/100");
    assert_eq!(progress_line(99, 100), "100/100");
}
