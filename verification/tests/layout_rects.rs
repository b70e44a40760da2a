use egui_tabs::cell_rects;

#[test]
fn three_hundred_wide_splits_into_hundreds() {
    let rects = cell_rects(0, 0, 300, 20, 3);
    assert_eq!(rects.len(), 3);
    for (i, r) in rects.iter().enumerate() {
        assert_eq!(r.width, 100);
        assert_eq!(r.x, i as i32 * 100);
        assert_eq!(r.y, 0);
        assert_eq!(r.height, 20);
    }
}

#[test]
fn remainder_is_not_redistributed() {
    let rects = cell_rects(5, 7, 10, 3, 3);
    assert_eq!(rects.len(), 3);
    assert_eq!(rects[0].x, 5);
    assert_eq!(rects[1].x, 8);
    assert_eq!(rects[2].x, 11);
    for r in &rects {
        assert_eq!(r.width, 3);
        assert_eq!(r.y, 7);
        assert_eq!(r.height, 3);
    }
}

#[test]
fn a_single_column_takes_the_whole_width() {
    let rects = cell_rects(-50, 10, 300, 24, 1);
    assert_eq!(rects.len(), 1);
    assert_eq!(rects[0].x, -50);
    assert_eq!(rects[0].width, 300);
}

#[test]
fn more_columns_than_pixels_yields_zero_widths() {
    let rects = cell_rects(0, 0, 2, 20, 5);
    assert_eq!(rects.len(), 5);
    for r in &rects {
        assert_eq!(r.width, 0);
        assert_eq!(r.x, 0);
    }
}
