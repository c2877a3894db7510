use comichost::resizer::get_required_size;
use comichost::resizer::ResizeMode;
use comichost::resizer::Size;
use comichost::resizer::SizeHint;

fn fit(w: Option<u32>, h: Option<u32>) -> ResizeMode {
    ResizeMode::Fit(SizeHint { w, h })
}

#[test]
fn fit_width_scales_height_down() {
    let o = Size { w: 1600, h: 900 };
    let r = get_required_size(o, &fit(Some(800), None)).unwrap();
    assert_eq!(r, Size { w: 800, h: 450 });
}

#[test]
fn fit_width_never_upscales() {
    let o = Size { w: 400, h: 300 };
    let r = get_required_size(o, &fit(Some(800), None)).unwrap();
    assert_eq!(r, Size { w: 400, h: 300 });
}

#[test]
fn fit_width_truncates_derived_height() {
    let o = Size { w: 1000, h: 333 };
    // 500 * 333 / 1000 = 166.5, truncated.
    let r = get_required_size(o, &fit(Some(500), None)).unwrap();
    assert_eq!(r, Size { w: 500, h: 166 });
}

#[test]
fn fit_height_scales_width_down() {
    let o = Size { w: 1600, h: 900 };
    let r = get_required_size(o, &fit(None, Some(450))).unwrap();
    assert_eq!(r, Size { w: 800, h: 450 });
}

#[test]
fn fit_height_never_upscales() {
    let o = Size { w: 400, h: 300 };
    let r = get_required_size(o, &fit(None, Some(600))).unwrap();
    assert_eq!(r, Size { w: 400, h: 300 });
}

#[test]
fn fit_both_stretches_exactly() {
    let o = Size { w: 1600, h: 900 };
    let r = get_required_size(o, &fit(Some(10), Some(700))).unwrap();
    assert_eq!(r, Size { w: 10, h: 700 });
}

#[test]
fn fit_neither_keeps_original() {
    let o = Size { w: 1600, h: 900 };
    let r = get_required_size(o, &fit(None, None)).unwrap();
    assert_eq!(r, Size { w: 1600, h: 900 });
}

#[test]
fn degenerate_original_height_is_rejected() {
    let o = Size { w: 1600, h: 0 };
    assert_eq!(get_required_size(o, &fit(Some(800), None)), Err(()));
}

#[test]
fn degenerate_original_width_is_rejected_on_height_fit() {
    let o = Size { w: 0, h: 900 };
    assert_eq!(get_required_size(o, &fit(None, Some(450))), Err(()));
}

#[test]
fn fill_mode_is_rejected() {
    let o = Size { w: 1600, h: 900 };
    let r = get_required_size(o, &ResizeMode::Fill(Size { w: 100, h: 100 }));
    assert_eq!(r, Err(()));
}
