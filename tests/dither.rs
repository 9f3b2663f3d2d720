use wasm_dither::dither::{DitherConfig, DitherError, DitherProcessor};

fn processor(pattern_size: u32) -> DitherProcessor {
    let config = DitherConfig { threshold_bits: 0.5f32.to_bits(), pattern_size };
    DitherProcessor::new(config).unwrap()
}

#[test]
fn white_image_is_unchanged() {
    let p = processor(2);
    let data = [255u8; 16];
    let out = p.process_image_data(&data, 2, 2).unwrap();
    assert_eq!(out, data.to_vec());
}

#[test]
fn black_image_stays_black_with_alpha_kept() {
    let p = processor(2);
    let mut data = Vec::new();
    for _ in 0..4 {
        data.extend_from_slice(&[0, 0, 0, 255]);
    }
    let out = p.process_image_data(&data, 2, 2).unwrap();
    assert_eq!(out, data);
}

#[test]
fn pattern_values_of_a_two_tile() {
    let p = processor(2);
    assert_eq!(p.get_pattern_value(0, 0), 0);
    assert_eq!(p.get_pattern_value(1, 0), 1);
    assert_eq!(p.get_pattern_value(0, 1), 2);
    assert_eq!(p.get_pattern_value(1, 1), 3);
}

#[test]
fn pattern_repeats_with_tile_period() {
    let p = processor(3);
    for x in 0..7u32 {
        for y in 0..7u32 {
            let v = p.get_pattern_value(x, y);
            assert_eq!(v, p.get_pattern_value(x + 3, y));
            assert_eq!(v, p.get_pattern_value(x, y + 3));
            assert!(v < 9);
        }
    }
    assert_eq!(p.get_pattern_value(4, 5), 2 * 3 + 1);
}

#[test]
fn mid_gray_gives_three_of_four_white() {
    let p = processor(2);
    let data = [128u8, 128, 128, 10, 128, 128, 128, 20, 128, 128, 128, 30, 128, 128, 128, 40];
    let out = p.process_image_data(&data, 2, 2).unwrap();
    assert_eq!(out, vec![255, 255, 255, 10, 255, 255, 255, 20, 255, 255, 255, 30, 0, 0, 0, 40]);
}

#[test]
fn pattern_wraps_along_a_row() {
    let p = processor(2);
    // luminance 128000 / 255000 lies above 0 and 1/4 and 2/4 only
    let data = [128u8, 128, 128, 1, 128, 128, 128, 2, 128, 128, 128, 3];
    let out = p.process_image_data(&data, 3, 1).unwrap();
    assert_eq!(out, vec![255, 255, 255, 1, 255, 255, 255, 2, 255, 255, 255, 3]);
    let out = p.process_image_data(&data, 1, 3).unwrap();
    assert_eq!(out, vec![255, 255, 255, 1, 255, 255, 255, 2, 255, 255, 255, 3]);
}

#[test]
fn dark_gray_lights_only_the_first_cell() {
    let p = processor(2);
    // luminance 50 * 1000 / 255000 lies below 1/4
    let data = [50u8, 50, 50, 255, 50, 50, 50, 255, 50, 50, 50, 255, 50, 50, 50, 255];
    let out = p.process_image_data(&data, 2, 2).unwrap();
    assert_eq!(out, vec![255, 255, 255, 255, 0, 0, 0, 255, 0, 0, 0, 255, 0, 0, 0, 255]);
}

#[test]
fn unit_tile_whitens_every_nonzero_luminance() {
    let p = processor(1);
    let data = [1u8, 0, 0, 7, 0, 1, 0, 8, 0, 0, 1, 9, 0, 0, 0, 6];
    let out = p.process_image_data(&data, 4, 1).unwrap();
    assert_eq!(out, vec![255, 255, 255, 7, 255, 255, 255, 8, 255, 255, 255, 9, 0, 0, 0, 6]);
}

#[test]
fn output_is_binary_and_keeps_alpha() {
    let p = processor(4);
    let mut data = Vec::new();
    for i in 0..(5 * 3 * 4) {
        data.push((i * 37 % 256) as u8);
    }
    let out = p.process_image_data(&data, 5, 3).unwrap();
    assert_eq!(out.len(), data.len());
    for (i, b) in out.iter().enumerate() {
        if i % 4 == 3 {
            assert_eq!(*b, data[i]);
        } else {
            assert!(*b == 0 || *b == 255);
        }
    }
}

#[test]
fn repeated_calls_agree() {
    let p = processor(3);
    let data: Vec<u8> = (0..(4 * 4 * 4)).map(|i| (i * 53 % 251) as u8).collect();
    let a = p.process_image_data(&data, 4, 4).unwrap();
    let b = p.process_image_data(&data, 4, 4).unwrap();
    assert_eq!(a, b);
}

#[test]
fn threshold_field_does_not_change_the_result() {
    let data: Vec<u8> = (0..(3 * 3 * 4)).map(|i| (i * 29 % 256) as u8).collect();
    let low = DitherProcessor::new(DitherConfig { threshold_bits: 0.0f32.to_bits(), pattern_size: 3 })
        .unwrap();
    let high = DitherProcessor::new(DitherConfig { threshold_bits: 0.9f32.to_bits(), pattern_size: 3 })
        .unwrap();
    assert_eq!(low.process_image_data(&data, 3, 3), high.process_image_data(&data, 3, 3));
    assert_eq!(high.config().threshold_bits, 0.9f32.to_bits());
}

#[test]
fn zero_tile_is_refused() {
    let r = DitherProcessor::new(DitherConfig { threshold_bits: 0, pattern_size: 0 });
    assert!(matches!(r, Err(DitherError::InvalidConfiguration)));
}

#[test]
fn short_buffer_is_refused() {
    let p = processor(2);
    let data = [0u8; 15];
    assert_eq!(
        p.process_image_data(&data, 2, 2),
        Err(DitherError::BufferSizeMismatch { expected: 16, actual: 15 })
    );
}

#[test]
fn long_buffer_is_refused() {
    let p = processor(2);
    let data = [0u8; 20];
    assert_eq!(
        p.process_image_data(&data, 2, 2),
        Err(DitherError::BufferSizeMismatch { expected: 16, actual: 20 })
    );
}

#[test]
fn empty_image_gives_empty_output() {
    let p = processor(2);
    assert_eq!(p.process_image_data(&[], 0, 5), Ok(vec![]));
}

#[test]
fn oversized_dimensions_are_refused() {
    let p = processor(2);
    assert_eq!(p.process_image_data(&[], u32::MAX, u32::MAX), Err(DitherError::DimensionOverflow));
}
