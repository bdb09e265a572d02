use board_assets::board::Config;
use board_assets::error::PipelineError;
use board_assets::readback::{stride_for, strip_padding, Layout};

fn patterned(len: usize) -> Vec<u8> {
    (0..len).map(|i| (i * 7 + i / 256) as u8).collect()
}

#[test]
fn stride_is_the_next_multiple_of_256() {
    assert_eq!(stride_for(0), Ok(0));
    assert_eq!(stride_for(1), Ok(256));
    assert_eq!(stride_for(63), Ok(256));
    assert_eq!(stride_for(64), Ok(256));
    assert_eq!(stride_for(65), Ok(512));
    assert_eq!(stride_for(100), Ok(512));
    assert_eq!(stride_for(2176), Ok(8704));
    assert_eq!(stride_for(2177), Ok(8960));
}

#[test]
fn stride_holds_the_row_with_less_than_256_bytes_to_spare() {
    for width in 0..5000u32 {
        let stride = stride_for(width).unwrap();
        assert!(stride >= width * 4);
        assert_eq!(stride % 256, 0);
        assert!(stride - width * 4 < 256);
    }
}

#[test]
fn stride_that_does_not_fit_is_a_conversion_error() {
    assert_eq!(stride_for(1_073_741_760), Ok(4_294_967_040));
    assert_eq!(stride_for(1_073_741_761), Err(PipelineError::Conversion));
    assert_eq!(stride_for(1_073_741_823), Err(PipelineError::Conversion));
    assert_eq!(stride_for(1_073_741_824), Err(PipelineError::Conversion));
    assert_eq!(stride_for(u32::MAX), Err(PipelineError::Conversion));
    assert_eq!(Layout::new(u32::MAX, 1), Err(PipelineError::Conversion));
}

#[test]
fn aligned_rows_are_not_padded() {
    let layout = Layout::new(64, 3).unwrap();
    assert_eq!(layout, Layout { width: 64, height: 3, stride: 256 });
    assert_eq!(layout.buffer_size(), 768);
    let mapped = patterned(768);
    assert_eq!(strip_padding(&mapped, &layout), Ok(mapped.clone()));
}

#[test]
fn padding_is_dropped_and_rows_keep_their_order() {
    let layout = Layout::new(3, 4).unwrap();
    assert_eq!(layout.stride, 256);
    assert_eq!(layout.buffer_size(), 1024);
    let mapped = patterned(1024);
    let pixels = strip_padding(&mapped, &layout).unwrap();
    assert_eq!(pixels.len(), 48);
    for row in 0..4 {
        assert_eq!(&pixels[row * 12..row * 12 + 12], &mapped[row * 256..row * 256 + 12]);
    }
}

#[test]
fn two_rows_of_one_pixel() {
    let layout = Layout::new(1, 2).unwrap();
    let mut mapped = vec![0u8; 512];
    mapped[..4].copy_from_slice(&[1, 2, 3, 4]);
    mapped[4] = 99;
    mapped[256..260].copy_from_slice(&[5, 6, 7, 8]);
    assert_eq!(strip_padding(&mapped, &layout), Ok(vec![1, 2, 3, 4, 5, 6, 7, 8]));
}

#[test]
fn last_row_needs_its_pixels_but_not_its_padding() {
    let layout = Layout::new(3, 2).unwrap();
    let mapped = patterned(512);
    let expected: Vec<u8> = mapped[..12].iter().chain(&mapped[256..268]).copied().collect();
    assert_eq!(strip_padding(&mapped[..268], &layout), Ok(expected));
    assert_eq!(strip_padding(&mapped[..267], &layout), Err(PipelineError::Conversion));
    assert_eq!(strip_padding(&mapped[..0], &layout), Err(PipelineError::Conversion));
}

#[test]
fn no_rows_give_no_pixels() {
    let layout = Layout::new(10, 0).unwrap();
    assert_eq!(strip_padding(&[], &layout), Ok(vec![]));
    let layout = Layout::new(0, 5).unwrap();
    assert_eq!(layout.stride, 0);
    assert_eq!(strip_padding(&[], &layout), Ok(vec![]));
}

#[test]
fn any_stride_is_read_as_given() {
    let layout = Layout { width: 1, height: 3, stride: 5 };
    let mapped: Vec<u8> = (0..14).collect();
    assert_eq!(
        strip_padding(&mapped, &layout),
        Ok(vec![0, 1, 2, 3, 5, 6, 7, 8, 10, 11, 12, 13])
    );
    assert_eq!(strip_padding(&mapped[..13], &layout), Err(PipelineError::Conversion));
}

#[test]
fn oversized_layout_is_a_conversion_error() {
    let layout = Layout { width: u32::MAX, height: u32::MAX, stride: 0 };
    assert_eq!(strip_padding(&[0u8; 16], &layout), Err(PipelineError::Conversion));
}

#[test]
fn board_texture_is_square_with_a_side_of_seventeen_cells() {
    let layout = Layout::for_board(&Config::new(128)).unwrap();
    assert_eq!(layout, Layout { width: 2176, height: 2176, stride: 8704 });
    assert_eq!(layout.buffer_size(), 8704 * 2176);
    for cell_size in 1..300u32 {
        let layout = Layout::for_board(&Config::new(cell_size)).unwrap();
        assert_eq!(layout.width, cell_size * 17);
        assert_eq!(layout.height, cell_size * 17);
        assert_eq!(Ok(layout.stride), stride_for(cell_size * 17));
    }
}

#[test]
fn board_too_large_for_its_texture_is_a_conversion_error() {
    assert_eq!(Layout::for_board(&Config::new(252_645_136)), Err(PipelineError::Conversion));
    assert_eq!(Layout::for_board(&Config::new(63_161_284)), Err(PipelineError::Conversion));
    assert_eq!(
        Layout::for_board(&Config::new(63_161_280)),
        Ok(Layout { width: 1_073_741_760, height: 1_073_741_760, stride: 4_294_967_040 })
    );
}

#[test]
fn buffer_size_does_not_wrap() {
    let layout = Layout { width: 0, height: u32::MAX, stride: u32::MAX };
    assert_eq!(layout.buffer_size(), 18_446_744_065_119_617_025);
}

#[test]
fn readback_of_a_board_sized_texture() {
    let layout = Layout::for_board(&Config::new(5)).unwrap();
    assert_eq!(layout, Layout { width: 85, height: 85, stride: 512 });
    let mapped = patterned(layout.buffer_size() as usize);
    let pixels = strip_padding(&mapped, &layout).unwrap();
    assert_eq!(pixels.len(), 85 * 85 * 4);
    for row in 0..85 {
        assert_eq!(&pixels[row * 340..(row + 1) * 340], &mapped[row * 512..row * 512 + 340]);
    }
}

#[test]
fn layout_without_columns_or_rows_is_empty() {
    assert!(Layout::new(0, 0).unwrap().is_empty());
    assert!(Layout::new(0, 7).unwrap().is_empty());
    assert!(Layout::new(7, 0).unwrap().is_empty());
    assert!(!Layout::new(1, 1).unwrap().is_empty());
    assert!(Layout::for_board(&Config::new(0)).unwrap().is_empty());
    assert!(!Layout::for_board(&Config::new(128)).unwrap().is_empty());
}
