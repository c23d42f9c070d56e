use yuv::{NV12Image, NV12Image2, SurfaceError, BLACK, RED, WHITE, YUV};

fn numbered(n: usize) -> Vec<u8> {
    (0..n).map(|i| i as u8).collect()
}

fn gray_frame(width: u32, height: u32) -> Vec<u8> {
    let gray = (width * height) as usize;
    let mut data = vec![0u8; gray + gray / 2];
    for b in data[gray..].iter_mut() {
        *b = 0x80;
    }
    data
}

#[test]
fn put_white_fills_one_block_of_a_full_hd_frame() {
    let data = gray_frame(1920, 1080);
    assert_eq!(data.len(), 1920 * 1080 * 3 / 2);
    let mut img = NV12Image::from(data, 1920, 1080).unwrap();
    assert_eq!(img.put_pixel(100, 100, YUV(WHITE)), Ok(()));
    assert_eq!(img.get_pixel(100, 100).unwrap().0, WHITE);
    assert_eq!(img.get_pixel(101, 100).unwrap().0, WHITE);
    assert_eq!(img.get_pixel(100, 101).unwrap().0, WHITE);
    assert_eq!(img.get_pixel(101, 101).unwrap().0, WHITE);
    assert_eq!(img.get_pixel(102, 100).unwrap().0, [0, 0x80, 0x80]);
    assert_eq!(img.get_pixel(102, 100).unwrap().0, BLACK);
    assert_eq!(img.get_pixel(98, 100).unwrap().0, BLACK);
    assert_eq!(img.get_pixel(100, 102).unwrap().0, BLACK);
    assert_eq!(img.get_pixel(100, 99).unwrap().0, BLACK);
}

#[test]
fn put_writes_exactly_six_bytes() {
    let mut img = NV12Image::from(vec![0u8; 24], 4, 4).unwrap();
    assert_eq!(img.put_pixel(3, 2, YUV([7, 8, 9])), Ok(()));
    let mut expected = vec![0u8; 24];
    expected[10] = 7;
    expected[11] = 7;
    expected[14] = 7;
    expected[15] = 7;
    expected[22] = 8;
    expected[23] = 9;
    assert_eq!(img.ref_data(), &expected);
    assert_eq!(img.put_pixel(0, 1, YUV([1, 2, 3])), Ok(()));
    expected[0] = 1;
    expected[1] = 1;
    expected[4] = 1;
    expected[5] = 1;
    expected[16] = 2;
    expected[17] = 3;
    assert_eq!(img.take_data(), expected);
}

#[test]
fn put_then_get_is_uniform_over_the_block() {
    for (x, y) in [(0u32, 0u32), (1, 0), (0, 1), (1, 1), (4, 2), (5, 3), (7, 5)] {
        let mut img = NV12Image::from(numbered(72), 8, 6).unwrap();
        let before: Vec<[u8; 3]> = (0..48u32)
            .map(|i| img.get_pixel(i % 8, i / 8).unwrap().0)
            .collect();
        assert_eq!(img.put_pixel(x, y, YUV(RED)), Ok(()));
        for i in 0..48u32 {
            let (px, py) = (i % 8, i / 8);
            let got = img.get_pixel(px, py).unwrap().0;
            if px / 2 == x / 2 && py / 2 == y / 2 {
                assert_eq!(got, RED);
            } else {
                assert_eq!(got, before[i as usize]);
            }
        }
    }
}

#[test]
fn get_reads_the_top_left_luma_of_the_block() {
    let img = NV12Image::from(numbered(24), 4, 4).unwrap();
    assert_eq!(img.get_pixel(0, 0).unwrap().0, [0, 16, 17]);
    assert_eq!(img.get_pixel(1, 0).unwrap().0, [0, 16, 17]);
    assert_eq!(img.get_pixel(1, 1).unwrap().0, [0, 16, 17]);
    assert_eq!(img.get_pixel(2, 1).unwrap().0, [2, 18, 19]);
    assert_eq!(img.get_pixel(0, 2).unwrap().0, [8, 20, 21]);
    assert_eq!(img.get_pixel(3, 3).unwrap().0, [10, 22, 23]);
}

#[test]
fn pixel_indices_of_a_block() {
    let img = NV12Image::from(vec![0u8; 72], 8, 6).unwrap();
    assert_eq!(img.pixel_indices(0, 0), (0, 48, 49));
    assert_eq!(img.pixel_indices(6, 0), (6, 54, 55));
    assert_eq!(img.pixel_indices(2, 4), (34, 66, 67));
    assert_eq!(img.pixel_indices(6, 4), (38, 70, 71));
}

#[test]
fn to_zero_or_even_rounds_down() {
    assert_eq!(NV12Image::<Vec<u8>>::to_zero_or_even(0), 0);
    assert_eq!(NV12Image::<Vec<u8>>::to_zero_or_even(1), 0);
    assert_eq!(NV12Image::<Vec<u8>>::to_zero_or_even(2), 2);
    assert_eq!(NV12Image::<Vec<u8>>::to_zero_or_even(101), 100);
    assert_eq!(NV12Image::<Vec<u8>>::to_zero_or_even(u32::MAX), u32::MAX - 1);
}

#[test]
fn the_last_pixel_is_in_bounds_and_the_next_is_not() {
    let mut img = NV12Image::from(gray_frame(6, 4), 6, 4).unwrap();
    assert_eq!(img.check_bounds(5, 3), Ok(()));
    assert_eq!(img.get_pixel(5, 3).unwrap().0, BLACK);
    assert_eq!(img.put_pixel(5, 3, YUV(WHITE)), Ok(()));
    assert_eq!(img.get_pixel(4, 2).unwrap().0, WHITE);
    for (x, y) in [(6u32, 0u32), (0, 4), (6, 4), (7, 1), (u32::MAX, 0), (0, u32::MAX)] {
        assert_eq!(img.check_bounds(x, y), Err(SurfaceError::OutOfBounds));
        assert_eq!(img.get_pixel(x, y).err(), Some(SurfaceError::OutOfBounds));
        let before = img.ref_data().clone();
        assert_eq!(img.put_pixel(x, y, YUV(RED)), Err(SurfaceError::OutOfBounds));
        assert_eq!(img.blend_pixel(x, y, YUV(RED)), Err(SurfaceError::OutOfBounds));
        assert_eq!(img.ref_data(), &before);
    }
}

#[test]
fn blend_is_put() {
    let mut a = NV12Image::from(numbered(24), 4, 4).unwrap();
    let mut b = NV12Image::from(numbered(24), 4, 4).unwrap();
    assert_eq!(a.put_pixel(2, 1, YUV(RED)), Ok(()));
    assert_eq!(b.blend_pixel(2, 1, YUV(RED)), Ok(()));
    assert_eq!(a.ref_data(), b.ref_data());
    assert_eq!(a.get_pixel(3, 0).unwrap().0, RED);
}

#[test]
fn from_refuses_odd_dimensions() {
    assert_eq!(NV12Image::from(vec![0u8; 100], 3, 2).err(), Some(SurfaceError::OddDimension));
    assert_eq!(NV12Image::from(vec![0u8; 100], 2, 3).err(), Some(SurfaceError::OddDimension));
    assert_eq!(NV12Image::from(Vec::<u8>::new(), 1, 1).err(), Some(SurfaceError::OddDimension));
}

#[test]
fn from_refuses_a_short_buffer() {
    assert_eq!(NV12Image::from(vec![0u8; 23], 4, 4).err(), Some(SurfaceError::BufferTooShort));
    assert_eq!(NV12Image::from(vec![0u8; 15], 4, 4).err(), Some(SurfaceError::BufferTooShort));
    assert_eq!(NV12Image::from(Vec::<u8>::new(), 2, 2).err(), Some(SurfaceError::BufferTooShort));
    assert!(NV12Image::from(vec![0u8; 24], 4, 4).is_ok());
    assert!(NV12Image::from(vec![0u8; 25], 4, 4).is_ok());
    assert_eq!(
        NV12Image::from(vec![0u8; 8], 65536, 65536).err(),
        Some(SurfaceError::BufferTooShort)
    );
}

#[test]
fn an_empty_frame_has_no_pixel() {
    let img = NV12Image::from(Vec::<u8>::new(), 0, 0).unwrap();
    assert_eq!(img.dimensions(), (0, 0));
    assert_eq!(img.get_pixel(0, 0).err(), Some(SurfaceError::OutOfBounds));
    let wide = NV12Image::from(Vec::<u8>::new(), 8, 0).unwrap();
    assert_eq!(wide.get_pixel(0, 0).err(), Some(SurfaceError::OutOfBounds));
}

#[test]
fn dimensions_and_bounds() {
    let img = NV12Image::from(vec![0u8; 72], 8, 6).unwrap();
    assert_eq!(img.dimensions(), (8, 6));
    assert_eq!(img.bounds(), (0, 0, 8, 6));
    let half = NV12Image2(img);
    assert_eq!(half.dimensions(), (4, 3));
    assert_eq!(half.bounds(), (0, 0, 4, 3));
}

#[test]
fn the_data_comes_back_unchanged() {
    let data = numbered(30);
    let img = NV12Image::from(data.clone(), 4, 4).unwrap();
    assert_eq!(img.ref_data(), &data);
    assert_eq!(img.take_data(), data);
}

#[test]
fn the_half_view_reads_the_surface_at_doubled_coordinates() {
    let img = NV12Image::from(numbered(72), 8, 6).unwrap();
    let view = NV12Image2(NV12Image::from(numbered(72), 8, 6).unwrap());
    for y in 0..3u32 {
        for x in 0..4u32 {
            assert_eq!(view.get_pixel(x, y).unwrap().0, img.get_pixel(2 * x, 2 * y).unwrap().0);
        }
    }
    assert_eq!(view.get_pixel(3, 2).unwrap().0, [38, 70, 71]);
}

#[test]
fn the_half_view_writes_the_surface_at_doubled_coordinates() {
    for y in 0..3u32 {
        for x in 0..4u32 {
            let mut img = NV12Image::from(numbered(72), 8, 6).unwrap();
            let mut view = NV12Image2(NV12Image::from(numbered(72), 8, 6).unwrap());
            assert_eq!(img.put_pixel(2 * x, 2 * y, YUV(RED)), Ok(()));
            assert_eq!(view.put_pixel(x, y, YUV(RED)), Ok(()));
            assert_eq!(view.0.ref_data(), img.ref_data());
            assert_eq!(view.blend_pixel(x, y, YUV(WHITE)), Ok(()));
            assert_eq!(view.get_pixel(x, y).unwrap().0, WHITE);
            assert_eq!(view.0.get_pixel(2 * x + 1, 2 * y + 1).unwrap().0, WHITE);
        }
    }
}

#[test]
fn the_half_view_ends_at_half_the_size() {
    let mut view = NV12Image2(NV12Image::from(numbered(72), 8, 6).unwrap());
    assert!(view.get_pixel(3, 2).is_ok());
    for (x, y) in [(4u32, 0u32), (0, 3), (4, 3), (1 << 31, 0), (0, 1 << 31), (u32::MAX, u32::MAX)] {
        assert_eq!(view.get_pixel(x, y).err(), Some(SurfaceError::OutOfBounds));
        assert_eq!(view.put_pixel(x, y, YUV(RED)), Err(SurfaceError::OutOfBounds));
        assert_eq!(view.blend_pixel(x, y, YUV(RED)), Err(SurfaceError::OutOfBounds));
        assert_eq!(view.0.ref_data(), &numbered(72));
    }
}
