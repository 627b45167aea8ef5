use tomato_clock::theme::{clamp_index, ColorIndices, ThemeCycler};

fn indices(stop_text: usize, run_text: usize, stop_bg: usize, run_bg: usize) -> ColorIndices {
    ColorIndices {
        stop_text,
        run_text,
        stop_background: stop_bg,
        run_background: run_bg,
    }
}

#[test]
fn out_of_range_index_is_clamped_to_last() {
    let c = ThemeCycler::from_config(
        vec!["black", "white"],
        vec!["grey", "red", "blue"],
        indices(0, 0, 0, 99),
    );
    assert_eq!(c.indices().run_background, 2);
    assert_eq!(*c.background_color(true), "blue");
    assert_eq!(c.indices(), indices(0, 0, 0, 2));
}

#[test]
fn every_index_is_clamped_to_its_palette() {
    let c = ThemeCycler::from_config(vec![1, 2], vec![10, 20, 30], indices(5, 1, 7, 2));
    assert_eq!(c.indices(), indices(1, 1, 2, 2));
}

#[test]
fn clamp_index_keeps_valid_positions() {
    assert_eq!(clamp_index(0, 1), 0);
    assert_eq!(clamp_index(2, 3), 2);
    assert_eq!(clamp_index(3, 3), 2);
    assert_eq!(clamp_index(usize::MAX, 4), 3);
}

#[test]
fn full_round_of_text_colors_returns_to_start() {
    let mut c = ThemeCycler::from_config(vec![1, 2, 3], vec![10, 20], indices(1, 0, 0, 0));
    assert_eq!(c.advance_text_color(false), 2);
    assert_eq!(c.advance_text_color(false), 0);
    assert_eq!(c.advance_text_color(false), 1);
    assert_eq!(c.indices(), indices(1, 0, 0, 0));
}

#[test]
fn full_round_of_background_colors_returns_to_start() {
    let mut c = ThemeCycler::from_config(vec![1, 2, 3], vec![10, 20], indices(0, 0, 0, 1));
    assert_eq!(c.advance_background_color(true), 0);
    assert_eq!(*c.background_color(true), 10);
    assert_eq!(c.advance_background_color(true), 1);
    assert_eq!(c.indices(), indices(0, 0, 0, 1));
}

#[test]
fn running_and_idle_indices_are_independent() {
    let mut c = ThemeCycler::from_config(vec![1, 2, 3], vec![10, 20, 30], indices(0, 0, 0, 0));
    c.advance_text_color(true);
    c.advance_text_color(true);
    c.advance_background_color(false);
    assert_eq!(c.indices(), indices(0, 2, 1, 0));
    assert_eq!(*c.text_color(true), 3);
    assert_eq!(*c.text_color(false), 1);
    assert_eq!(*c.background_color(false), 20);
    assert_eq!(*c.background_color(true), 10);
}

#[test]
fn single_color_palette_stays_put() {
    let mut c = ThemeCycler::from_config(vec![7], vec![8], indices(3, 3, 3, 3));
    assert_eq!(c.advance_text_color(false), 0);
    assert_eq!(c.advance_background_color(true), 0);
    assert_eq!(*c.text_color(false), 7);
}
