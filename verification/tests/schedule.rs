use rays_core::schedule::{pixel_position, pixel_stride};

#[test]
fn stride_of_narrow_image_is_one() {
    // Width below three leaves no candidate divisor.
    assert_eq!(pixel_stride(1, 1), 1);
    assert_eq!(pixel_stride(2, 1000), 1);
}

#[test]
fn stride_is_largest_shared_divisor_up_to_a_third() {
    // Divisors shared by 100 and 80 are 1, 2, 4, 5, 10, 20; all are at most 33.
    assert_eq!(pixel_stride(100, 80), 20);
    // 9 and 6 share 1 and 3; the bound 9 / 3 = 3 still admits 3.
    assert_eq!(pixel_stride(9, 6), 3);
    // 12 and 8 share 1, 2, 4, and 4 = 12 / 3 is still admitted.
    assert_eq!(pixel_stride(12, 8), 4);
    // Coprime dimensions share only 1.
    assert_eq!(pixel_stride(7, 13), 1);
}

#[test]
fn positions_with_unit_stride_scan_columns() {
    // With stride 1 the traversal visits index j = step, column j / height,
    // row j % height.
    assert_eq!(pixel_position(0, 1, 4, 4), [0, 0]);
    assert_eq!(pixel_position(5, 1, 4, 4), [1, 1]);
    assert_eq!(pixel_position(15, 1, 4, 4), [3, 3]);
}

#[test]
fn positions_wrap_with_a_shift() {
    // 6 x 6 image, stride 2: step 18 scales to 36, which wraps once around
    // the area of 36 and shifts by one: index 1, position (0, 1).
    assert_eq!(pixel_stride(6, 6), 2);
    assert_eq!(pixel_position(0, 2, 6, 6), [0, 0]);
    assert_eq!(pixel_position(1, 2, 6, 6), [0, 2]);
    assert_eq!(pixel_position(18, 2, 6, 6), [0, 1]);
}

#[test]
fn positions_at_the_largest_image_sizes() {
    // A one-row image as wide as u32 allows: step j lands on column j.
    let width = u32::MAX;
    let area = u64::from(width);
    assert_eq!(pixel_position(0, 1, width, 1), [0, 0]);
    assert_eq!(pixel_position(area - 1, 1, width, 1), [u32::MAX - 1, 0]);

    // A 2^31 x 2^31 image with stride 4: the last step scales to
    // 4 * (2^62 - 1), wraps three times and lands on index 2^62 - 1,
    // the bottom-right pixel.
    let side = 1u32 << 31;
    let last = (1u64 << 62) - 1;
    assert_eq!(pixel_position(last, 4, side, side), [side - 1, side - 1]);
}

#[test]
fn traversal_covers_every_pixel_exactly_once() {
    let cases: [[u32; 2]; 5] = [[100, 80], [6, 6], [4, 4], [7, 13], [1, 1]];
    for [width, height] in cases {
        let stride = pixel_stride(width, height);
        let area = u64::from(width) * u64::from(height);
        let mut seen = vec![false; area as usize];
        for step in 0..area {
            let [x, y] = pixel_position(step, stride, width, height);
            assert!(x < width && y < height);
            let index = (x as usize) * (height as usize) + y as usize;
            assert!(!seen[index], "pixel visited twice");
            seen[index] = true;
        }
        assert!(seen.iter().all(|&visited| visited), "pixel never visited");
    }
}
