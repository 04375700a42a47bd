use audio_overlay::overlay;

#[test]
fn source_longer_than_destination_grows_it() {
    let src: Vec<i16> = vec![100, 100, 100];
    let mut dst: Vec<i16> = vec![50];
    overlay(&src, &mut dst, 0, true);
    assert_eq!(dst, vec![150, 100, 100]);
}

#[test]
fn source_longer_than_destination_is_cut_without_growth() {
    let src: Vec<i16> = vec![100, 100, 100];
    let mut dst: Vec<i16> = vec![50];
    overlay(&src, &mut dst, 0, false);
    assert_eq!(dst, vec![150]);
}

#[test]
fn silence_is_overwritten() {
    let src: Vec<i16> = vec![42, 0];
    let mut dst: Vec<i16> = vec![0, 0];
    overlay(&src, &mut dst, 0, false);
    assert_eq!(dst, vec![42, 0]);
    let mut grown: Vec<i16> = vec![0, 0];
    overlay(&src, &mut grown, 0, true);
    assert_eq!(grown, vec![42, 0]);
}

#[test]
fn late_start_without_growth_changes_nothing() {
    let src: Vec<i16> = vec![1, 2, 3];
    let mut dst: Vec<i16> = vec![10, 20];
    overlay(&src, &mut dst, 2, false);
    assert_eq!(dst, vec![10, 20]);
    overlay(&src, &mut dst, 3, false);
    assert_eq!(dst, vec![10, 20]);
    overlay(&src, &mut dst, usize::MAX, false);
    assert_eq!(dst, vec![10, 20]);
}

#[test]
fn late_start_without_growth_changes_nothing_in_any_representation() {
    let mut narrow: Vec<i8> = vec![1, -1];
    overlay(&[5i8, 5], &mut narrow, 2, false);
    assert_eq!(narrow, vec![1, -1]);
    let mut wide: Vec<i32> = vec![1, -1];
    overlay(&[5i32, 5], &mut wide, 7, false);
    assert_eq!(wide, vec![1, -1]);
    let mut widest: Vec<i64> = vec![];
    overlay(&[5i64, 5], &mut widest, 0, false);
    assert_eq!(widest, Vec::<i64>::new());
}

#[test]
fn late_start_with_growth_pads_with_silence() {
    let src: Vec<i16> = vec![7, 8, 9];
    let mut dst: Vec<i16> = vec![10, 20];
    overlay(&src, &mut dst, 5, true);
    assert_eq!(dst, vec![10, 20, 0, 0, 0, 7, 8, 9]);
}

#[test]
fn start_at_the_end_with_growth_appends() {
    let src: Vec<i32> = vec![7, 8, 9];
    let mut dst: Vec<i32> = vec![10, 20];
    overlay(&src, &mut dst, 2, true);
    assert_eq!(dst, vec![10, 20, 7, 8, 9]);
}

#[test]
fn late_start_with_growth_and_no_source_only_pads() {
    let src: Vec<i8> = vec![];
    let mut dst: Vec<i8> = vec![3];
    overlay(&src, &mut dst, 4, true);
    assert_eq!(dst, vec![3, 0, 0, 0]);
}

#[test]
fn growth_of_an_empty_destination() {
    let src: Vec<i64> = vec![-1, -2];
    let mut dst: Vec<i64> = vec![];
    overlay(&src, &mut dst, 0, true);
    assert_eq!(dst, vec![-1, -2]);
    let mut later: Vec<i64> = vec![];
    overlay(&src, &mut later, 3, true);
    assert_eq!(later, vec![0, 0, 0, -1, -2]);
}

#[test]
fn start_inside_without_growth_blends_the_overlap_only() {
    let src: Vec<i16> = vec![1, 2, 3];
    let mut dst: Vec<i16> = vec![10, 20, 0, 40, 50, 60];
    overlay(&src, &mut dst, 1, false);
    assert_eq!(dst, vec![10, 21, 2, 43, 50, 60]);
}

#[test]
fn start_inside_without_growth_stops_at_the_end() {
    let src: Vec<i16> = vec![1, 2, 3, 4, 5];
    let mut dst: Vec<i16> = vec![10, 20, 30, 0];
    overlay(&src, &mut dst, 2, false);
    assert_eq!(dst, vec![10, 20, 31, 2]);
}

#[test]
fn start_inside_with_growth_appends_what_reaches_past_the_end() {
    let src: Vec<i16> = vec![1, 2, 3, 4, 5];
    let mut dst: Vec<i16> = vec![10, 20, 30, 0];
    overlay(&src, &mut dst, 2, true);
    assert_eq!(dst, vec![10, 20, 31, 2, 3, 4, 5]);
}

#[test]
fn start_inside_with_growth_keeps_the_length_where_the_source_fits() {
    let src: Vec<i16> = vec![1, 2];
    let mut dst: Vec<i16> = vec![10, 20, 30, 40];
    overlay(&src, &mut dst, 1, true);
    assert_eq!(dst, vec![10, 21, 32, 40]);
    let mut exact: Vec<i16> = vec![10, 20, 30];
    overlay(&src, &mut exact, 1, true);
    assert_eq!(exact, vec![10, 21, 32]);
}

#[test]
fn empty_source_changes_nothing_inside() {
    let src: Vec<i16> = vec![];
    let mut dst: Vec<i16> = vec![10, 20];
    overlay(&src, &mut dst, 0, true);
    assert_eq!(dst, vec![10, 20]);
    overlay(&src, &mut dst, 1, false);
    assert_eq!(dst, vec![10, 20]);
}

#[test]
fn overlap_saturates_at_the_limits_of_the_representation() {
    let mut narrow: Vec<i8> = vec![100, -100, 100];
    overlay(&[100i8, -100, -100], &mut narrow, 0, false);
    assert_eq!(narrow, vec![127, -128, 0]);

    let mut short: Vec<i16> = vec![30000, -30000, 1000];
    overlay(&[30000i16, -30000, 1000], &mut short, 0, false);
    assert_eq!(short, vec![32767, -32768, 2000]);

    let mut long: Vec<i32> = vec![i32::MAX, i32::MIN, 1_000_000];
    overlay(&[1i32, -1, 1_000_000], &mut long, 0, false);
    assert_eq!(long, vec![i32::MAX, i32::MIN, 2_000_000]);

    let mut longest: Vec<i64> = vec![i64::MAX, i64::MIN, 1 << 40];
    overlay(&[i64::MAX, i64::MIN, 1 << 40], &mut longest, 0, false);
    assert_eq!(longest, vec![i64::MAX, i64::MIN, 1 << 41]);
}

#[test]
fn appended_and_overwriting_samples_are_not_clamped() {
    let mut dst: Vec<i8> = vec![0, 100];
    overlay(&[127i8, 100, -128, 127], &mut dst, 0, true);
    assert_eq!(dst, vec![127, 127, -128, 127]);
}

#[test]
fn silent_source_leaves_the_destination_as_it_was() {
    let src: Vec<i16> = vec![0, 0, 0];
    let before: Vec<i16> = vec![i16::MIN, -5, 0, 5, i16::MAX];
    for index in 0..before.len() {
        let mut dst = before.clone();
        overlay(&src, &mut dst, index, false);
        assert_eq!(dst, before);
    }
    let mut narrow: Vec<i8> = vec![i8::MIN, 0, i8::MAX];
    overlay(&[0i8, 0, 0], &mut narrow, 0, false);
    assert_eq!(narrow, vec![i8::MIN, 0, i8::MAX]);
    let mut wide: Vec<i64> = vec![i64::MIN, 0, i64::MAX];
    overlay(&[0i64, 0, 0], &mut wide, 0, false);
    assert_eq!(wide, vec![i64::MIN, 0, i64::MAX]);
}

#[test]
fn overlay_is_symmetric_on_buffers_of_one_length() {
    let a: Vec<i16> = vec![i16::MAX, -7, 0, 300, 0, i16::MIN];
    let b: Vec<i16> = vec![1, 0, 0, -300, 9, -1];
    let mut a_onto_b = b.clone();
    overlay(&a, &mut a_onto_b, 0, false);
    let mut b_onto_a = a.clone();
    overlay(&b, &mut b_onto_a, 0, false);
    assert_eq!(a_onto_b, b_onto_a);
    assert_eq!(a_onto_b, vec![i16::MAX, -7, 0, 0, 9, i16::MIN]);
}

#[test]
fn source_is_left_untouched() {
    let src: Vec<i32> = vec![4, 5, 6];
    let mut dst: Vec<i32> = vec![1, 1];
    overlay(&src, &mut dst, 1, true);
    assert_eq!(src, vec![4, 5, 6]);
    assert_eq!(dst, vec![1, 5, 5, 6]);
}

#[test]
fn repeated_overlays_add_up() {
    let src: Vec<i16> = vec![10000, 10000];
    let mut dst: Vec<i16> = vec![0, 5];
    overlay(&src, &mut dst, 0, false);
    assert_eq!(dst, vec![10000, 10005]);
    overlay(&src, &mut dst, 0, false);
    assert_eq!(dst, vec![20000, 20005]);
    overlay(&src, &mut dst, 0, false);
    assert_eq!(dst, vec![30000, 30005]);
    overlay(&src, &mut dst, 0, false);
    assert_eq!(dst, vec![32767, 32767]);
}
