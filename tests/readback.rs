use photograph::readback::{padded_bytes_per_row, strip_row_padding};

#[test]
fn rows_are_padded_to_the_alignment() {
    assert_eq!(padded_bytes_per_row(32, 256), Some(256));
    assert_eq!(padded_bytes_per_row(64, 256), Some(256));
    assert_eq!(padded_bytes_per_row(65, 256), Some(512));
    assert_eq!(padded_bytes_per_row(0, 256), Some(0));
    assert_eq!(padded_bytes_per_row(u32::MAX, 256), None);
}

#[test]
fn padding_is_stripped() {
    let mapped: Vec<u8> = vec![1, 2, 3, 9, 9, 4, 5, 6, 9, 9];
    assert_eq!(strip_row_padding(&mapped, 3, 5, 2), vec![1, 2, 3, 4, 5, 6]);
    assert_eq!(strip_row_padding(&mapped, 0, 5, 2), Vec::<u8>::new());
    assert_eq!(strip_row_padding(&mapped, 5, 5, 2), mapped);
}
