use scap_rs::frame::{convert_bgra_to_rgb, get_cropped_data, remove_alpha_channel};

fn rgba(n: u8) -> Vec<u8> {
    vec![n, n, n, n]
}

#[test]
fn test_remove_alpha_channel() {
    assert_eq!(remove_alpha_channel(vec![1, 2, 3, 0]), vec![1, 2, 3]);
    assert_eq!(
        remove_alpha_channel(vec![1, 2, 3, 4, 5, 6, 7, 8]),
        vec![1, 2, 3, 5, 6, 7]
    );
}

#[test]
fn test_convert_bgra_to_rgb() {
    assert_eq!(convert_bgra_to_rgb(vec![1, 2, 3, 0]), vec![3, 2, 1]);
    assert_eq!(
        convert_bgra_to_rgb(vec![1, 2, 3, 4, 5, 6, 7, 8]),
        vec![3, 2, 1, 7, 6, 5]
    );
}

#[test]
pub fn test_get_cropped_data() {
    let mut data: Vec<u8> = Vec::new();
    for i in 1..=9 {
        data.append(&mut rgba(i));
    }
    let mut expected: Vec<u8> = Vec::new();
    expected.append(&mut rgba(1));
    expected.append(&mut rgba(2));
    expected.append(&mut rgba(4));
    expected.append(&mut rgba(5));
    expected.append(&mut rgba(7));
    expected.append(&mut rgba(8));
    assert_eq!(get_cropped_data(data, 3, 3, 2), expected)
}

#[test]
fn conversions_drop_trailing_partial_pixel() {
    assert_eq!(remove_alpha_channel(vec![1, 2, 3, 4, 5, 6]), vec![1, 2, 3]);
    assert_eq!(convert_bgra_to_rgb(vec![1, 2, 3, 4, 5, 6, 7]), vec![3, 2, 1]);
    assert_eq!(remove_alpha_channel(vec![]), Vec::<u8>::new());
    assert_eq!(convert_bgra_to_rgb(vec![9, 9, 9]), Vec::<u8>::new());
}

#[test]
fn rgb_is_alpha_removal_with_reversed_pixels() {
    let data = vec![10, 20, 30, 40, 50, 60, 70, 80];
    let bgr = remove_alpha_channel(data.clone());
    let rgb = convert_bgra_to_rgb(data);
    for p in 0..2 {
        for c in 0..3 {
            assert_eq!(rgb[3 * p + c], bgr[3 * p + 2 - c]);
        }
    }
}

#[test]
fn conversions_ignore_alpha_bytes() {
    let a = vec![1, 2, 3, 4, 5, 6, 7, 8, 99];
    let b = vec![1, 2, 3, 200, 5, 6, 7, 0, 42];
    assert_eq!(remove_alpha_channel(a.clone()), remove_alpha_channel(b.clone()));
    assert_eq!(convert_bgra_to_rgb(a), convert_bgra_to_rgb(b));
}

#[test]
fn crop_with_mismatched_length_returns_input() {
    let data = vec![1, 2, 3, 4, 5];
    assert_eq!(get_cropped_data(data.clone(), 1, 1, 1), data);
}

#[test]
fn crop_to_full_width_is_identity() {
    let data: Vec<u8> = (0..24).collect();
    assert_eq!(get_cropped_data(data.clone(), 3, 2, 3), data);
}

#[test]
fn crop_keeps_row_prefixes() {
    let data: Vec<u8> = (0..24).collect();
    // two rows of three pixels, keep one pixel per row
    assert_eq!(
        get_cropped_data(data, 3, 2, 1),
        vec![0, 1, 2, 3, 12, 13, 14, 15]
    );
}

#[test]
fn crop_wider_than_source_pads_with_zeros() {
    let data: Vec<u8> = (1..=8).collect();
    // two rows of one pixel, asked for two pixels per row
    assert_eq!(
        get_cropped_data(data, 1, 2, 2),
        vec![1, 2, 3, 4, 5, 6, 7, 8, 0, 0, 0, 0, 0, 0, 0, 0]
    );
}

#[test]
fn crop_to_zero_width_is_empty() {
    let data: Vec<u8> = (0..16).collect();
    assert_eq!(get_cropped_data(data, 2, 2, 0), Vec::<u8>::new());
}

#[test]
fn crop_of_empty_image() {
    assert_eq!(get_cropped_data(vec![], 5, 0, 3), Vec::<u8>::new());
    assert_eq!(get_cropped_data(vec![], 0, 4, 2), vec![0u8; 32]);
}

#[test]
fn conversions_concatenate_on_pixel_boundaries() {
    let a = vec![1, 2, 3, 4, 5, 6, 7, 8];
    let b = vec![9, 10, 11, 12, 13];
    let mut ab = a.clone();
    ab.extend_from_slice(&b);
    let mut joined = remove_alpha_channel(a.clone());
    joined.extend(remove_alpha_channel(b.clone()));
    assert_eq!(remove_alpha_channel(ab.clone()), joined);
    let mut joined = convert_bgra_to_rgb(a);
    joined.extend(convert_bgra_to_rgb(b));
    assert_eq!(convert_bgra_to_rgb(ab), joined);
}
