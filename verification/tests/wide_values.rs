use marlin_verilator::dynamic::VerilatorValue;
use marlin_verilator::{
    compute_approx_width_from_wdata_word_count, compute_wdata_word_count_from_width_not_msb, WideIn,
    WideOut,
};

#[test]
fn word_counts_cover_the_width() {
    let expected = [
        (0, 0),
        (1, 1),
        (31, 1),
        (32, 1),
        (33, 2),
        (64, 2),
        (65, 3),
        (128, 4),
        (129, 5),
    ];
    for (width, words) in expected {
        assert_eq!(compute_wdata_word_count_from_width_not_msb(width), words);
    }
    assert_eq!(
        compute_wdata_word_count_from_width_not_msb(usize::MAX),
        usize::MAX / 32 + 1
    );
}

#[test]
fn width_bounds_are_whole_words() {
    assert_eq!(compute_approx_width_from_wdata_word_count(0), 0);
    assert_eq!(compute_approx_width_from_wdata_word_count(1), 32);
    assert_eq!(compute_approx_width_from_wdata_word_count(3), 96);
    for words in 0..200 {
        let width = compute_approx_width_from_wdata_word_count(words);
        assert_eq!(compute_wdata_word_count_from_width_not_msb(width), words);
    }
}

#[test]
fn the_word_count_is_the_least() {
    for width in 1..300 {
        let words = compute_wdata_word_count_from_width_not_msb(width);
        assert!(compute_approx_width_from_wdata_word_count(words) >= width);
        assert!(compute_approx_width_from_wdata_word_count(words - 1) < width);
    }
}

#[test]
fn wide_inputs_keep_their_words() {
    let wide = WideIn::new([u32::MAX, u32::MAX, 1]);
    assert_eq!(wide.value(), &[u32::MAX, u32::MAX, 1]);
    assert_eq!(wide.as_ptr(), &[u32::MAX, u32::MAX, 1][..]);
    assert_eq!(WideIn::<3>::default().value(), &[0; 3]);
    assert_ne!(wide, WideIn::default());
}

#[test]
fn wide_outputs_copy_their_words() {
    let raw = [u32::MAX, u32::MAX, 1, 2, 3];
    let wide: WideOut<4> = WideOut::from_ptr(&raw);
    assert_eq!(wide.value(), &[u32::MAX, u32::MAX, 1, 2]);
    assert_eq!(WideOut::<8>::default().value(), &[0; 8]);
    let words: [u32; 4] = wide.into();
    assert_eq!(words, [u32::MAX, u32::MAX, 1, 2]);
}

#[test]
fn values_have_the_width_of_their_type() {
    assert_eq!(VerilatorValue::from(1u8).width(), 8);
    assert_eq!(VerilatorValue::from(1u16).width(), 16);
    assert_eq!(VerilatorValue::from(1u32).width(), 32);
    assert_eq!(VerilatorValue::from(1u64).width(), 64);
    assert_eq!(VerilatorValue::from(&[1u32, 2, 3]).width(), 96);
    assert_eq!(VerilatorValue::from([1u32, 2, 3, 4]).width(), 128);
}

#[test]
fn values_are_made_from_words() {
    let words = [u32::MAX, u32::MAX, 1];
    assert_eq!(VerilatorValue::from(&words), VerilatorValue::WDataInP(&words));
    assert_eq!(
        VerilatorValue::from(words),
        VerilatorValue::WDataOutP(vec![u32::MAX, u32::MAX, 1].into_boxed_slice())
    );
    let out: WideOut<3> = WideOut::from_ptr(&words);
    assert_eq!(VerilatorValue::from(out), VerilatorValue::from(words));
    assert_eq!(VerilatorValue::wide(vec![7, 8]), VerilatorValue::from([7u32, 8]));
    assert_ne!(VerilatorValue::from(&words), VerilatorValue::from(words));
}

#[test]
fn values_are_rendered() {
    assert_eq!(VerilatorValue::from(255u8).text(), "255");
    assert_eq!(VerilatorValue::from(0u16).text(), "0");
    assert_eq!(VerilatorValue::from(u32::MAX).text(), "4294967295");
    assert_eq!(VerilatorValue::from(u64::MAX).text(), "18446744073709551615");
    assert_eq!(VerilatorValue::from([1u32]).text(), "wide (fmt is todo)");
    assert_eq!(VerilatorValue::from(&[1u32]).text(), "wide (fmt is todo)");
}

#[test]
fn clones_are_equal() {
    let values = [
        VerilatorValue::from(3u8),
        VerilatorValue::from(300u16),
        VerilatorValue::from(70_000u32),
        VerilatorValue::from(1u64 << 40),
        VerilatorValue::from(&[1u32, 2, 3]),
        VerilatorValue::from([4u32, 5, 6]),
    ];
    for value in &values {
        assert_eq!(&value.clone(), value);
    }
}
