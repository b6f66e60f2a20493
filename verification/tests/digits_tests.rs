use game_core::digits::{digit_glyph_cell, digit_quad_elements, number_to_digits, Align, DrawNumbersState, MAX_DIGITS};

#[test]
fn test_number_to_digits() {
    assert_eq!(number_to_digits(0), &[0u8]);
    assert_eq!(number_to_digits(1), &[1u8]);
    assert_eq!(number_to_digits(15), &[1u8, 5u8]);
    assert_eq!(number_to_digits(50), &[5u8, 0u8]);
    assert_eq!(
        number_to_digits(123456789),
        &[1u8, 2u8, 3u8, 4u8, 5u8, 6u8, 7u8, 8u8, 9u8]
    );
}

#[test]
fn digits_of_largest_score_fit_in_the_quads() {
    let ds = number_to_digits(u128::MAX);
    assert_eq!(ds.len(), MAX_DIGITS);
    assert_eq!(ds[0], 3);
    assert_eq!(ds[38], 5);
    let text: String = ds.iter().map(|d| char::from(b'0' + d)).collect();
    assert_eq!(text, u128::MAX.to_string());
}

#[test]
fn digits_read_back_as_the_number() {
    for n in [0u128, 7, 10, 99, 100, 1000000007, 10u128.pow(38), u128::MAX - 1] {
        let ds = number_to_digits(n);
        let mut v: u128 = 0;
        for d in &ds {
            assert!(*d < 10);
            v = v * 10 + *d as u128;
        }
        assert_eq!(v, n);
        assert!(ds.len() == 1 || ds[0] != 0);
    }
}

#[test]
fn quad_elements_draw_two_triangles_per_digit() {
    let e = digit_quad_elements();
    assert_eq!(e.len(), 234);
    assert_eq!(&e[0..6], &[0, 1, 2, 1, 2, 3]);
    assert_eq!(&e[6..12], &[4, 5, 6, 5, 6, 7]);
    assert_eq!(&e[228..234], &[152, 153, 154, 153, 154, 155]);
    assert!(e.iter().all(|i| *i < 156));
}

#[test]
fn glyph_cells_of_digits() {
    assert_eq!(digit_glyph_cell(0), (0, 0));
    assert_eq!(digit_glyph_cell(4), (4, 0));
    assert_eq!(digit_glyph_cell(5), (0, 1));
    assert_eq!(digit_glyph_cell(9), (4, 1));
}

#[test]
fn number_display_counts_digits_and_elements() {
    let (mut s, first) = DrawNumbersState::new(Align::Center);
    assert_eq!(first, vec![0u8]);
    assert_eq!(s.nb_digits(), 1);
    assert_eq!(s.draw_size(), 6);
    assert_eq!(s.align(), Align::Center);
    assert_eq!(s.set_number(0), None);
    assert_eq!(s.set_number(1234), Some(vec![1, 2, 3, 4]));
    assert_eq!(s.nb_digits(), 4);
    assert_eq!(s.draw_size(), 24);
    assert_eq!(s.set_number(1234), None);
    assert_eq!(s.nb_digits(), 4);
    assert_eq!(s.set_number(5), Some(vec![5]));
    assert_eq!(s.draw_size(), 6);
}
