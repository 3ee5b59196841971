use cef_renderer::readback::{
    BufferPlan, CopyPlan, ReadbackLayout, ReadbackPlan, TextureAspect,
};

/// A buffer in which every byte differs from its neighbours, padding included.
fn numbered(len: usize) -> Vec<u8> {
    (0..len).map(|i| (i % 251) as u8).collect()
}

/// The frame in padded rows, with `fill` in the padding.
fn padded(frame: &[u8], width: usize, height: usize, fill: u8) -> Vec<u8> {
    let row = width * 4;
    let distance = (row + 255) / 256 * 256;
    let mut data = vec![fill; distance * height];
    for y in 0..height {
        data[y * distance..y * distance + row].copy_from_slice(&frame[y * row..(y + 1) * row]);
    }
    data
}

#[test]
fn plan_of_a_padded_frame() {
    assert_eq!(
        ReadbackLayout::new(3, 2).plan(),
        ReadbackPlan {
            buffer: BufferPlan {
                size: 512,
                copy_dst: true,
                map_read: true,
                mapped_at_creation: false,
            },
            copy: CopyPlan {
                mip_level: 0,
                origin: (0, 0, 0),
                aspect: TextureAspect::All,
                offset: 0,
                bytes_per_row: Some(256),
                rows_per_image: Some(2),
                extent: (3, 2, 1),
            },
        }
    );
}

#[test]
fn plan_of_common_sizes() {
    for (width, height, distance, size) in [
        (1u32, 1u32, 256u32, 256u64),
        (64, 1, 256, 256),
        (65, 1, 512, 512),
        (800, 600, 3328, 1_996_800),
        (1280, 720, 5120, 3_686_400),
        (1920, 1080, 7680, 8_294_400),
        (1921, 1080, 7936, 8_570_880),
    ] {
        let plan = ReadbackLayout::new(width, height).plan();
        assert_eq!(plan.copy.bytes_per_row, Some(distance));
        assert_eq!(plan.copy.rows_per_image, Some(height));
        assert_eq!(plan.buffer.size, size);
    }
}

#[test]
fn plan_of_an_empty_frame() {
    let flat = ReadbackLayout::new(10, 0).plan();
    assert_eq!(flat.copy.bytes_per_row, Some(256));
    assert_eq!(flat.buffer.size, 0);
    let thin = ReadbackLayout::new(0, 10).plan();
    assert_eq!(thin.copy.bytes_per_row, Some(0));
    assert_eq!(thin.buffer.size, 0);
}

#[test]
fn row_distance_is_the_least_multiple_of_256() {
    for width in 0..700u32 {
        let distance = ReadbackLayout::new(width, 1).plan().copy.bytes_per_row.unwrap();
        assert_eq!(distance % 256, 0);
        assert!(distance >= width * 4);
        assert!(distance < width * 4 + 256);
        assert_eq!(distance == width * 4, width % 64 == 0);
    }
}

#[test]
fn rows_lie_within_the_buffer() {
    for (width, height) in [(1u32, 1u32), (3, 7), (64, 5), (100, 9)] {
        let plan = ReadbackLayout::new(width, height).plan();
        let distance = plan.copy.bytes_per_row.unwrap() as u64;
        for y in 0..height as u64 {
            let start = plan.copy.offset + y * distance;
            assert_eq!(start % 256, 0);
            assert!(start + 4 * width as u64 <= start + distance);
            assert!(start + distance <= plan.buffer.size);
        }
    }
}

#[test]
fn sizes_that_fit() {
    assert!(ReadbackLayout::fits(0, 0));
    assert!(ReadbackLayout::fits(0, u32::MAX));
    assert!(ReadbackLayout::fits(1920, 1080));
    assert!(ReadbackLayout::fits(1, 16_777_215));
    assert!(!ReadbackLayout::fits(1, 16_777_216));
    assert!(ReadbackLayout::fits(1_073_741_760, 1));
    assert!(!ReadbackLayout::fits(1_073_741_760, 2));
    assert!(!ReadbackLayout::fits(1_073_741_761, 1));
    assert!(!ReadbackLayout::fits(1_073_741_761, 0));
    assert!(!ReadbackLayout::fits(u32::MAX, 1));
    assert!(!ReadbackLayout::fits(u32::MAX, u32::MAX));
}

#[test]
fn the_largest_row_is_planned() {
    let plan = ReadbackLayout::new(1_073_741_760, 1).plan();
    assert_eq!(plan.copy.bytes_per_row, Some(4_294_967_040));
    assert_eq!(plan.buffer.size, 4_294_967_040);
}

#[test]
fn unpad_drops_the_padding() {
    let mut data = vec![0xee; 512];
    data[0..8].copy_from_slice(&[1, 2, 3, 4, 5, 6, 7, 8]);
    data[256..264].copy_from_slice(&[11, 12, 13, 14, 15, 16, 17, 18]);
    assert_eq!(
        ReadbackLayout::new(2, 2).unpad(&data),
        vec![1, 2, 3, 4, 5, 6, 7, 8, 11, 12, 13, 14, 15, 16, 17, 18]
    );
}

#[test]
fn unpad_takes_tight_rows_as_they_are() {
    let data = numbered(3 * 256);
    assert_eq!(ReadbackLayout::new(64, 3).unpad(&data), data);
}

#[test]
fn unpad_needs_no_padding_after_the_last_row() {
    let data = numbered(256 + 12);
    let pixels = ReadbackLayout::new(3, 2).unpad(&data);
    assert_eq!(pixels[..12], data[..12]);
    assert_eq!(pixels[12..], data[256..268]);
}

#[test]
fn unpad_leaves_what_follows_a_tight_frame() {
    let data = numbered(1000);
    assert_eq!(ReadbackLayout::new(64, 2).unpad(&data), data[..512].to_vec());
}

#[test]
fn unpad_of_an_empty_frame() {
    assert_eq!(ReadbackLayout::new(10, 0).unpad(&[]), Vec::<u8>::new());
    assert_eq!(ReadbackLayout::new(0, 10).unpad(&[]), Vec::<u8>::new());
    assert_eq!(ReadbackLayout::new(0, 0).unpad(&[1, 2, 3]), Vec::<u8>::new());
}

#[test]
fn every_channel_comes_from_its_place() {
    let (width, height) = (70usize, 5usize);
    let data = numbered(512 * height);
    let pixels = ReadbackLayout::new(width as u32, height as u32).unpad(&data);
    assert_eq!(pixels.len(), width * height * 4);
    for y in 0..height {
        for x in 0..width {
            for c in 0..4 {
                assert_eq!(pixels[4 * (y * width + x) + c], data[y * 512 + 4 * x + c]);
            }
        }
    }
}

#[test]
fn what_is_copied_is_read_back() {
    for width in [1usize, 2, 63, 64, 65, 127, 128, 129] {
        for height in [1usize, 2, 7] {
            let frame = numbered(width * height * 4);
            for fill in [0u8, 0xff] {
                let data = padded(&frame, width, height, fill);
                let layout = ReadbackLayout::new(width as u32, height as u32);
                assert_eq!(layout.plan().buffer.size, data.len() as u64);
                assert_eq!(layout.unpad(&data), frame);
            }
        }
    }
}
