use ascii_art::ascii::{to_ascii, AsciiImage, AsciiPixel};
use ascii_art::raster::RgbRaster;

const SYMBOLS: &str =
    " `.-':_,^=;><+!rc*/z?sLTv)J7(|Fi{C}fI31tlu[neoZ5Yxjya]2ESwqkP6h9d4VpOGbUAKXHm8RD#$Bg0MNWQ%&@";

fn white_blank() -> AsciiPixel {
    AsciiPixel { symbol: ' ', rgb: (255, 255, 255) }
}

fn expected_cell(rgb: (u8, u8, u8)) -> AsciiPixel {
    let sum: u16 = rgb.0 as u16 + rgb.1 as u16 + rgb.2 as u16;
    let mean = (sum / 3) as usize;
    let level = (mean + 2) / 3;
    AsciiPixel { symbol: SYMBOLS.chars().nth(level).unwrap(), rgb }
}

#[test]
fn blank_cell_is_a_white_space() {
    assert_eq!(AsciiPixel::blank(), white_blank());
    assert_eq!(AsciiPixel::blank().symbol, ' ');
    assert_eq!(AsciiPixel::blank().rgb, (255, 255, 255));
}

#[test]
fn cell_from_rgb_exact_values() {
    assert_eq!(AsciiPixel::from_rgb((0, 0, 0)), AsciiPixel { symbol: ' ', rgb: (0, 0, 0) });
    assert_eq!(
        AsciiPixel::from_rgb((255, 255, 255)),
        AsciiPixel { symbol: 'M', rgb: (255, 255, 255) }
    );
    assert_eq!(
        AsciiPixel::from_rgb((128, 128, 128)),
        AsciiPixel { symbol: 'n', rgb: (128, 128, 128) }
    );
    assert_eq!(AsciiPixel::from_rgb((64, 64, 64)), AsciiPixel { symbol: 'L', rgb: (64, 64, 64) });
    assert_eq!(AsciiPixel::from_rgb((255, 0, 0)), AsciiPixel { symbol: '|', rgb: (255, 0, 0) });
    assert_eq!(AsciiPixel::from_rgb((1, 1, 1)), AsciiPixel { symbol: '`', rgb: (1, 1, 1) });
}

#[test]
fn cell_from_rgb_keeps_the_colour_and_ignores_channel_order() {
    let a = AsciiPixel::from_rgb((10, 200, 90));
    let b = AsciiPixel::from_rgb((90, 10, 200));
    assert_eq!(a.rgb, (10, 200, 90));
    assert_eq!(b.rgb, (90, 10, 200));
    assert_eq!(a.symbol, b.symbol);
    assert_eq!(a.symbol, '}');
}

#[test]
fn new_grid_is_one_larger_and_blank() {
    let grid = AsciiImage::new(2, 3);
    assert_eq!(grid.rows(), 4);
    assert_eq!(grid.cols(), 3);
    for y in 0..4 {
        for x in 0..3 {
            assert_eq!(grid.get(y, x), white_blank());
        }
    }
}

#[test]
fn new_grid_for_an_empty_image_has_one_cell() {
    let grid = AsciiImage::new(0, 0);
    assert_eq!(grid.rows(), 1);
    assert_eq!(grid.cols(), 1);
    assert_eq!(grid.get(0, 0), white_blank());
}

#[test]
fn raster_from_raw_needs_three_samples_a_pixel() {
    assert!(RgbRaster::from_raw(2, 2, vec![0; 12]).is_some());
    assert!(RgbRaster::from_raw(2, 2, vec![0; 11]).is_none());
    assert!(RgbRaster::from_raw(2, 2, Vec::new()).is_none());
    assert!(RgbRaster::from_raw(0, 0, Vec::new()).is_some());
    assert!(RgbRaster::from_raw(0, 7, Vec::new()).is_some());
    assert!(RgbRaster::from_raw(1, 1, vec![1, 2]).is_none());
    assert!(RgbRaster::from_raw(u32::MAX, u32::MAX, vec![0; 16]).is_none());
}

#[test]
fn raster_from_raw_ignores_samples_beyond_the_last_pixel() {
    let img = RgbRaster::from_raw(1, 1, vec![9, 9, 9, 200, 200, 200]).unwrap();
    assert_eq!(img.dimensions(), (1, 1));
    let grid = to_ascii(img);
    assert_eq!(grid.rows(), 2);
    assert_eq!(grid.cols(), 2);
    assert_eq!(grid.get(0, 0), AsciiPixel { symbol: '-', rgb: (9, 9, 9) });
    assert_eq!(grid.get(0, 1), white_blank());
    assert_eq!(grid.get(1, 0), white_blank());
    assert_eq!(grid.get(1, 1), white_blank());
}

#[test]
fn raster_dimensions_are_width_then_height() {
    let img = RgbRaster::from_raw(5, 2, vec![0; 30]).unwrap();
    assert_eq!(img.dimensions(), (5, 2));
}

#[test]
fn two_by_two_end_to_end() {
    let samples: Vec<u8> = vec![0, 0, 0, 255, 255, 255, 128, 128, 128, 64, 64, 64];
    let grid = to_ascii(RgbRaster::from_raw(2, 2, samples).unwrap());
    assert_eq!(grid.rows(), 3);
    assert_eq!(grid.cols(), 3);
    assert_eq!(grid.get(0, 0), AsciiPixel { symbol: ' ', rgb: (0, 0, 0) });
    // The brightest pixel reaches level 85 of the ramp, which is `M`.
    assert_eq!(grid.get(0, 1), AsciiPixel { symbol: 'M', rgb: (255, 255, 255) });
    assert_eq!(grid.get(0, 1).symbol, SYMBOLS.chars().nth(85).unwrap());
    assert_eq!(grid.get(1, 0), AsciiPixel { symbol: 'n', rgb: (128, 128, 128) });
    assert_eq!(grid.get(1, 1), AsciiPixel { symbol: 'L', rgb: (64, 64, 64) });
    for i in 0..3 {
        assert_eq!(grid.get(2, i), white_blank());
        assert_eq!(grid.get(i, 2), white_blank());
    }
}

#[test]
fn grid_is_one_row_and_one_column_larger_than_the_image() {
    let sizes: [(u32, u32); 7] = [(0, 0), (1, 1), (1, 4), (4, 1), (0, 3), (3, 0), (7, 5)];
    for &(width, height) in sizes.iter() {
        let samples = vec![17u8; (3 * width * height) as usize];
        let grid = to_ascii(RgbRaster::from_raw(width, height, samples).unwrap());
        assert_eq!(grid.rows(), height as usize + 1);
        assert_eq!(grid.cols(), width as usize + 1);
    }
}

#[test]
fn every_pixel_lands_in_its_cell_and_the_rim_stays_blank() {
    let width: u32 = 4;
    let height: u32 = 3;
    let mut samples: Vec<u8> = Vec::new();
    for y in 0..height {
        for x in 0..width {
            samples.push((x * 60) as u8);
            samples.push((y * 100) as u8);
            samples.push((x * 7 + y * 13) as u8);
        }
    }
    let grid = to_ascii(RgbRaster::from_raw(width, height, samples).unwrap());
    for y in 0..=height {
        for x in 0..=width {
            let cell = grid.get(y as usize, x as usize);
            if y < height && x < width {
                let rgb = ((x * 60) as u8, (y * 100) as u8, (x * 7 + y * 13) as u8);
                assert_eq!(cell, expected_cell(rgb), "cell [{}][{}]", y, x);
                assert_eq!(cell, AsciiPixel::from_rgb(rgb));
            } else {
                assert_eq!(cell, white_blank(), "cell [{}][{}]", y, x);
            }
        }
    }
}

#[test]
fn rows_follow_y_and_columns_follow_x() {
    // One row of three pixels: dark, middle, bright.
    let grid = to_ascii(RgbRaster::from_raw(3, 1, vec![0, 0, 0, 90, 90, 90, 255, 255, 255]).unwrap());
    assert_eq!(grid.rows(), 2);
    assert_eq!(grid.cols(), 4);
    assert_eq!(grid.get(0, 0).symbol, ' ');
    assert_eq!(grid.get(0, 1).symbol, 'F');
    assert_eq!(grid.get(0, 2).symbol, 'M');
    // One column of three pixels.
    let grid = to_ascii(RgbRaster::from_raw(1, 3, vec![0, 0, 0, 90, 90, 90, 255, 255, 255]).unwrap());
    assert_eq!(grid.rows(), 4);
    assert_eq!(grid.cols(), 2);
    assert_eq!(grid.get(0, 0).symbol, ' ');
    assert_eq!(grid.get(1, 0).symbol, 'F');
    assert_eq!(grid.get(2, 0).symbol, 'M');
}

#[test]
fn image_without_pixels_gives_a_blank_rim() {
    let grid = to_ascii(RgbRaster::from_raw(3, 0, Vec::new()).unwrap());
    assert_eq!(grid.rows(), 1);
    assert_eq!(grid.cols(), 4);
    for x in 0..4 {
        assert_eq!(grid.get(0, x), white_blank());
    }
    let grid = to_ascii(RgbRaster::from_raw(0, 2, Vec::new()).unwrap());
    assert_eq!(grid.rows(), 3);
    assert_eq!(grid.cols(), 1);
}

#[test]
fn buffer_of_the_image_crate_converts_through_its_samples() {
    let mut buffer = image::RgbImage::new(3, 2);
    buffer.put_pixel(2, 1, image::Rgb([255, 255, 255]));
    buffer.put_pixel(0, 1, image::Rgb([30, 60, 90]));
    let (width, height) = buffer.dimensions();
    let img = RgbRaster::from_raw(width, height, buffer.into_raw()).unwrap();
    assert_eq!(img.dimensions(), (3, 2));
    let grid = to_ascii(img);
    assert_eq!(grid.get(1, 2), AsciiPixel { symbol: 'M', rgb: (255, 255, 255) });
    assert_eq!(grid.get(1, 0), AsciiPixel { symbol: '?', rgb: (30, 60, 90) });
    assert_eq!(grid.get(0, 0), AsciiPixel { symbol: ' ', rgb: (0, 0, 0) });
    assert_eq!(grid.get(0, 2), AsciiPixel { symbol: ' ', rgb: (0, 0, 0) });
    assert_eq!(grid.get(0, 3), white_blank());
    assert_eq!(grid.get(2, 2), white_blank());
}
