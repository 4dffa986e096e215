use std::io::Cursor;

use gallery::codec::{create_thumbnail, decode_and_scale, read_image, DecodeError};
use gallery::events::{ScanEvent, ThumbnailEvent};
use gallery::pipeline::{
    begin_folder_thumbnails, cover_event_from, covers_from, create_first_image_thumbnail, create_thumbnails,
    generate_covers, thumbnail_event_from, thumbnails_from,
};
use gallery::raster::{thumbnail_dimensions, Raster, Thumbnail, MAX_THUMB_HEIGHT};

fn encode(width: u32, height: u32, rgb: [u8; 3], format: image::ImageOutputFormat) -> Vec<u8> {
    let picture = image::RgbImage::from_pixel(width, height, image::Rgb(rgb));
    let mut bytes = Vec::new();
    image::DynamicImage::ImageRgb8(picture).write_to(&mut Cursor::new(&mut bytes), format).unwrap();
    bytes
}

fn png(width: u32, height: u32, rgb: [u8; 3]) -> Vec<u8> {
    encode(width, height, rgb, image::ImageOutputFormat::Png)
}

fn jpeg(width: u32, height: u32, rgb: [u8; 3]) -> Vec<u8> {
    encode(width, height, rgb, image::ImageOutputFormat::Jpeg(90))
}

fn corrupted_png() -> Vec<u8> {
    let mut bytes = png(40, 30, [1, 2, 3]);
    bytes.truncate(20);
    bytes
}

fn solid(width: u32, height: u32, rgb: [u8; 3]) -> Raster {
    let mut pixels = Vec::new();
    for _ in 0..(width as usize * height as usize) {
        pixels.extend_from_slice(&rgb);
    }
    Raster { width, height, pixels }
}

#[test]
fn scale_law_exact_values() {
    assert_eq!(thumbnail_dimensions(1200, 800, 150), (225, 150));
    assert_eq!(thumbnail_dimensions(800, 1200, 150), (100, 150));
    assert_eq!(thumbnail_dimensions(7, 7, 150), (150, 150));
    assert_eq!(thumbnail_dimensions(1000, 3, 150), (50000, 150));
    assert_eq!(thumbnail_dimensions(100, 151, 150), (99, 150));
    assert_eq!(thumbnail_dimensions(1, 1000, 150), (0, 150));
    assert_eq!(thumbnail_dimensions(0, 5, 150), (0, 150));
    assert_eq!(thumbnail_dimensions(10, 10, 0), (0, 0));
    assert_eq!(thumbnail_dimensions(640, 480, 100), (133, 100));
}

#[test]
fn scale_law_is_exact_where_a_rounded_factor_falls_short() {
    assert_eq!(thumbnail_dimensions(21, 7, 150), (450, 150));
    assert_eq!(thumbnail_dimensions(42, 7, 150), (900, 150));
    assert_eq!(thumbnail_dimensions(281, 281, 150), (150, 150));
    assert_eq!(thumbnail_dimensions(400, 281, 150), (213, 150));
    assert_eq!(thumbnail_dimensions(1, 291, 150).1, 150);
    assert_eq!(thumbnail_dimensions(3000, 1109, 150).1, 150);

    let source = solid(21, 7, [8, 8, 8]);
    let thumbnail = create_thumbnail(0, &source, 150).unwrap();
    assert_eq!((thumbnail.image.width, thumbnail.image.height), (450, 150));
    let source = solid(10, 281, [8, 8, 8]);
    let thumbnail = create_thumbnail(0, &source, 150).unwrap();
    assert_eq!((thumbnail.image.width, thumbnail.image.height), (5, 150));
}

#[test]
fn scale_law_saturates() {
    assert_eq!(thumbnail_dimensions(u32::MAX, 1, 150), (u32::MAX, 150));
    assert_eq!(thumbnail_dimensions(u32::MAX, u32::MAX, u32::MAX), (u32::MAX, u32::MAX));
    assert_eq!(thumbnail_dimensions(u32::MAX, 150, 150), (u32::MAX, 150));
    assert_eq!(thumbnail_dimensions(u32::MAX, 151, 150), (4266523802, 150));
}

#[test]
fn thumbnail_of_1200_by_800_is_225_by_150() {
    let contents = Some(png(1200, 800, [10, 200, 30]));
    let thumbnail = decode_and_scale(&contents, 5, MAX_THUMB_HEIGHT).expect("a sound picture gives a thumbnail");
    assert_eq!(thumbnail.index, 5);
    assert_eq!(thumbnail.image.width, 225);
    assert_eq!(thumbnail.image.height, 150);
    assert_eq!(thumbnail.image.pixels.len(), 225 * 150 * 3);
    assert!(thumbnail.image.is_well_formed());
    assert!(thumbnail.image.pixels.chunks(3).all(|pixel| pixel == [10, 200, 30]));
}

#[test]
fn small_pictures_are_scaled_up_to_the_thumbnail_height() {
    let contents = Some(png(4, 2, [9, 9, 9]));
    let thumbnail = decode_and_scale(&contents, 0, 150).unwrap();
    assert_eq!((thumbnail.image.width, thumbnail.image.height), (300, 150));
    assert_eq!(thumbnail.image.pixels.len(), 300 * 150 * 3);
}

#[test]
fn jpeg_is_decoded_too() {
    let contents = Some(jpeg(64, 32, [120, 120, 120]));
    let thumbnail = decode_and_scale(&contents, 1, 16).unwrap();
    assert_eq!((thumbnail.image.width, thumbnail.image.height), (32, 16));
    assert_eq!(thumbnail.index, 1);
}

#[test]
fn full_size_load_keeps_every_pixel() {
    let mut picture = image::RgbImage::new(2, 2);
    picture.put_pixel(0, 0, image::Rgb([255, 0, 0]));
    picture.put_pixel(1, 0, image::Rgb([0, 255, 0]));
    picture.put_pixel(0, 1, image::Rgb([0, 0, 255]));
    picture.put_pixel(1, 1, image::Rgb([7, 8, 9]));
    let mut bytes = Vec::new();
    image::DynamicImage::ImageRgb8(picture)
        .write_to(&mut Cursor::new(&mut bytes), image::ImageOutputFormat::Png)
        .unwrap();
    let raster = read_image(&Some(bytes.clone())).unwrap();
    assert_eq!((raster.width, raster.height), (2, 2));
    assert_eq!(raster.pixels, vec![255, 0, 0, 0, 255, 0, 0, 0, 255, 7, 8, 9]);
    assert_ne!(raster.pixels, bytes);
}

#[test]
fn full_size_load_errors() {
    assert_eq!(read_image(&None).unwrap_err(), DecodeError::Unreadable);
    assert_eq!(read_image(&Some(b"not a picture".to_vec())).unwrap_err(), DecodeError::InvalidFormat);
    assert_eq!(read_image(&Some(corrupted_png())).unwrap_err(), DecodeError::InvalidFormat);
}

#[test]
fn decode_errors_are_told_apart() {
    assert_eq!(decode_and_scale(&None, 0, 150).unwrap_err(), DecodeError::Unreadable);
    assert_eq!(decode_and_scale(&Some(Vec::new()), 0, 150).unwrap_err(), DecodeError::InvalidFormat);
    assert_eq!(decode_and_scale(&Some(b"plain text".to_vec()), 0, 150).unwrap_err(), DecodeError::InvalidFormat);
    assert_eq!(decode_and_scale(&Some(corrupted_png()), 0, 150).unwrap_err(), DecodeError::InvalidFormat);
    let tiny = Some(png(1, 1, [0, 0, 0]));
    assert_eq!(decode_and_scale(&tiny, 0, u32::MAX).unwrap_err(), DecodeError::TooLarge);
}

#[test]
fn create_thumbnail_checks_the_raster() {
    let no_width = Raster { width: 0, height: 4, pixels: Vec::new() };
    assert_eq!(create_thumbnail(0, &no_width, 150).unwrap_err(), DecodeError::ZeroDimension);
    let no_height = Raster { width: 4, height: 0, pixels: Vec::new() };
    assert_eq!(create_thumbnail(0, &no_height, 150).unwrap_err(), DecodeError::ZeroDimension);
    let short = Raster { width: 2, height: 2, pixels: vec![0; 11] };
    assert_eq!(create_thumbnail(0, &short, 150).unwrap_err(), DecodeError::InvalidFormat);
    let long = Raster { width: 2, height: 2, pixels: vec![0; 13] };
    assert_eq!(create_thumbnail(0, &long, 150).unwrap_err(), DecodeError::InvalidFormat);
    let dot = solid(1, 1, [5, 5, 5]);
    assert_eq!(create_thumbnail(0, &dot, u32::MAX).unwrap_err(), DecodeError::TooLarge);
}

#[test]
fn create_thumbnail_resamples() {
    let source = solid(30, 20, [40, 50, 60]);
    let thumbnail = create_thumbnail(7, &source, 10).unwrap();
    assert_eq!(thumbnail.index, 7);
    assert_eq!((thumbnail.image.width, thumbnail.image.height), (15, 10));
    assert_eq!(thumbnail.image.pixels.len(), 15 * 10 * 3);
    assert_ne!(thumbnail.image.pixels.len(), source.pixels.len());
    assert!(thumbnail.image.pixels.chunks(3).all(|pixel| pixel == [40, 50, 60]));
}

#[test]
fn create_thumbnail_averages_blocks() {
    // Left half black, right half white, scaled to one row of two pixels.
    let mut pixels = Vec::new();
    for _row in 0..2 {
        pixels.extend_from_slice(&[0, 0, 0, 0, 0, 0, 255, 255, 255, 255, 255, 255]);
    }
    let source = Raster { width: 4, height: 2, pixels };
    let thumbnail = create_thumbnail(0, &source, 1).unwrap();
    assert_eq!((thumbnail.image.width, thumbnail.image.height), (2, 1));
    assert_eq!(thumbnail.image.pixels, vec![0, 0, 0, 255, 255, 255]);
}

#[test]
fn narrow_picture_gives_thumbnail_without_width() {
    let source = solid(1, 1000, [1, 1, 1]);
    let thumbnail = create_thumbnail(0, &source, 150).unwrap();
    assert_eq!((thumbnail.image.width, thumbnail.image.height), (0, 150));
    assert!(thumbnail.image.pixels.is_empty());
}

#[test]
fn well_formed_rasters() {
    assert!(Raster::empty().is_well_formed());
    assert!(Raster::empty().is_empty());
    assert!(solid(3, 2, [0, 0, 0]).is_well_formed());
    assert!(!solid(3, 2, [0, 0, 0]).is_empty());
    assert!(!Raster { width: 3, height: 2, pixels: vec![0; 17] }.is_well_formed());
    assert!(!Raster { width: 3, height: 2, pixels: vec![0; 19] }.is_well_formed());
    assert!(!Raster { width: u32::MAX, height: u32::MAX, pixels: vec![0; 3] }.is_well_formed());
    assert!(!Raster { width: 1, height: 1, pixels: Vec::new() }.is_well_formed());
}

#[test]
fn rasters_and_thumbnails_compare_by_value() {
    let a = solid(2, 2, [1, 2, 3]);
    let b = a.clone();
    assert!(a.same(&b));
    assert_eq!(b.pixels, a.pixels);
    let mut c = a.clone();
    c.pixels[11] = 4;
    assert!(!a.same(&c));
    assert!(!a.same(&Raster { width: 4, height: 1, pixels: a.pixels.clone() }));
    let t = Thumbnail { index: 1, image: a.clone() };
    let u = t.clone();
    assert!(t.same(&u));
    assert!(!t.same(&Thumbnail { index: 2, image: a.clone() }));
    assert!(!t.same(&Thumbnail { index: 1, image: c }));
}

#[test]
fn folder_thumbnails_cover_every_index() {
    let files: Vec<Option<Vec<u8>>> = vec![
        Some(png(30, 15, [1, 1, 1])),
        Some(jpeg(20, 20, [2, 2, 2])),
        Some(png(15, 30, [3, 3, 3])),
        Some(png(60, 60, [4, 4, 4])),
        Some(jpeg(150, 150, [5, 5, 5])),
    ];
    let events = begin_folder_thumbnails(&files);
    assert_eq!(events.len(), 5);
    let mut indices = Vec::new();
    for event in &events {
        let ThumbnailEvent::ThumbnailReady { index, thumbnail } = event;
        assert_eq!(thumbnail.index, *index);
        assert_eq!(thumbnail.image.height, 150);
        indices.push(*index);
    }
    assert_eq!(indices, vec![0, 1, 2, 3, 4]);
    let ThumbnailEvent::ThumbnailReady { thumbnail, .. } = &events[2];
    assert_eq!(thumbnail.image.width, 75);
}

#[test]
fn empty_folder_gives_no_thumbnail() {
    assert!(begin_folder_thumbnails(&Vec::new()).is_empty());
    assert!(create_thumbnails(&Vec::new()).is_empty());
}

#[test]
fn corrupted_picture_is_skipped_not_fatal() {
    let files: Vec<Option<Vec<u8>>> = vec![
        Some(png(30, 15, [1, 1, 1])),
        Some(corrupted_png()),
        Some(jpeg(20, 20, [2, 2, 2])),
        Some(png(15, 30, [3, 3, 3])),
    ];
    let events = begin_folder_thumbnails(&files);
    assert_eq!(events.len(), 3);
    let indices: Vec<usize> = events
        .iter()
        .map(|event| {
            let ThumbnailEvent::ThumbnailReady { index, .. } = event;
            *index
        })
        .collect();
    assert_eq!(indices, vec![0, 2, 3]);

    let thumbnails = create_thumbnails(&files);
    assert_eq!(thumbnails.len(), 3);
    assert_eq!(thumbnails.iter().map(|t| t.index).collect::<Vec<usize>>(), vec![0, 2, 3]);
    assert_eq!(thumbnails[0].image.width, 300);
    assert_eq!(thumbnails[1].image.width, 150);
    assert_eq!(thumbnails[2].image.width, 75);
}

#[test]
fn unreadable_picture_is_skipped_too() {
    let files: Vec<Option<Vec<u8>>> = vec![None, Some(png(10, 10, [0, 0, 0])), None];
    let thumbnails = create_thumbnails(&files);
    assert_eq!(thumbnails.len(), 1);
    assert_eq!(thumbnails[0].index, 1);
}

#[test]
fn cover_is_the_first_picture_at_index_zero() {
    let cover = create_first_image_thumbnail(&Some(png(1200, 800, [9, 8, 7]))).unwrap();
    assert_eq!(cover.index, 0);
    assert_eq!((cover.image.width, cover.image.height), (225, 150));
    assert_eq!(create_first_image_thumbnail(&None).unwrap_err(), DecodeError::Unreadable);
    assert_eq!(create_first_image_thumbnail(&Some(corrupted_png())).unwrap_err(), DecodeError::InvalidFormat);
}

#[test]
fn one_cover_for_each_discovered_folder() {
    let first_images = vec![Some(jpeg(40, 20, [1, 2, 3])), Some(png(10, 20, [4, 5, 6]))];
    let events = generate_covers(0, &first_images);
    assert_eq!(events.len(), 2);
    match &events[0] {
        ScanEvent::CoverReady { folder_index, thumbnail } => {
            assert_eq!(*folder_index, 0);
            assert_eq!(thumbnail.index, 0);
            assert_eq!((thumbnail.image.width, thumbnail.image.height), (300, 150));
        }
        _ => panic!("the first event is not CoverReady"),
    }
    match &events[1] {
        ScanEvent::CoverReady { folder_index, thumbnail } => {
            assert_eq!(*folder_index, 1);
            assert_eq!(thumbnail.index, 0);
            assert_eq!((thumbnail.image.width, thumbnail.image.height), (75, 150));
        }
        _ => panic!("the second event is not CoverReady"),
    }
}

#[test]
fn covers_count_from_the_first_index_and_skip_failures() {
    let first_images = vec![Some(png(10, 10, [1, 1, 1])), Some(corrupted_png()), Some(png(10, 10, [2, 2, 2]))];
    let events = generate_covers(5, &first_images);
    let indices: Vec<usize> = events
        .iter()
        .map(|event| match event {
            ScanEvent::CoverReady { folder_index, .. } => *folder_index,
            _ => panic!("not a cover"),
        })
        .collect();
    assert_eq!(indices, vec![5, 7]);
}

#[test]
fn largest_block_is_averaged_without_overflow() {
    let side: u32 = 4000;
    let source = Raster { width: side, height: side, pixels: vec![255; side as usize * side as usize * 3] };
    let thumbnail = create_thumbnail(0, &source, 1).unwrap();
    assert_eq!((thumbnail.image.width, thumbnail.image.height), (1, 1));
    assert_eq!(thumbnail.image.pixels, vec![255, 255, 255]);
}

#[test]
fn too_many_pixels_for_one_block_is_refused() {
    let side: u32 = 4093;
    let source = Raster { width: side, height: side, pixels: vec![255; side as usize * side as usize * 3] };
    assert_eq!(create_thumbnail(0, &source, 1).unwrap_err(), DecodeError::TooLarge);
    let side: u32 = 4092;
    let source = Raster { width: side, height: side, pixels: vec![255; side as usize * side as usize * 3] };
    assert!(create_thumbnail(0, &source, 1).is_ok());
}

#[test]
fn sides_past_single_precision_are_scaled() {
    // Past 2^24 pixels a single-precision number no longer holds every column.
    let width: u32 = 17_000_000;
    let source = Raster { width, height: 1, pixels: vec![200; width as usize * 3] };
    let thumbnail = create_thumbnail(0, &source, 1).unwrap();
    assert_eq!((thumbnail.image.width, thumbnail.image.height), (width, 1));
    assert_eq!(thumbnail.image.pixels.len(), width as usize * 3);
    assert!(thumbnail.image.pixels.iter().all(|byte| *byte == 199 || *byte == 200));

    let width: u32 = 9_000_000;
    let source = Raster { width, height: 2, pixels: vec![90; width as usize * 2 * 3] };
    let thumbnail = create_thumbnail(0, &source, 1).unwrap();
    assert_eq!((thumbnail.image.width, thumbnail.image.height), (4_500_000, 1));
    assert!(thumbnail.image.pixels.iter().all(|byte| *byte == 90));
}

#[test]
fn longest_side_is_scaled_without_fault() {
    let width: u32 = 0x80_0000;
    let source = Raster { width, height: 2, pixels: vec![200; width as usize * 2 * 3] };
    let thumbnail = create_thumbnail(0, &source, 1).unwrap();
    assert_eq!((thumbnail.image.width, thumbnail.image.height), (0x40_0000, 1));
    assert_eq!(thumbnail.image.pixels.len(), 0x40_0000 * 3);
    assert!(thumbnail.image.pixels.iter().all(|byte| *byte == 200));

    let width: u32 = 0x7f_ffff;
    let source = Raster { width, height: 3, pixels: vec![100; width as usize * 3 * 3] };
    let thumbnail = create_thumbnail(0, &source, 1).unwrap();
    assert_eq!((thumbnail.image.width, thumbnail.image.height), (2796202, 1));
    assert!(thumbnail.image.pixels.iter().all(|byte| *byte == 100));
}

fn decoded_folder() -> Vec<Option<Raster>> {
    vec![
        Some(solid(30, 15, [1, 1, 1])),
        None,
        Some(solid(20, 20, [2, 2, 2])),
        Some(Raster { width: 0, height: 9, pixels: Vec::new() }),
        Some(Raster { width: 2, height: 2, pixels: vec![0; 5] }),
        Some(solid(15, 30, [3, 3, 3])),
    ]
}

#[test]
fn thumbnails_from_decoded_pictures() {
    let thumbnails = thumbnails_from(&decoded_folder());
    assert_eq!(thumbnails.iter().map(|t| t.index).collect::<Vec<usize>>(), vec![0, 2, 5]);
    assert_eq!(
        thumbnails.iter().map(|t| (t.image.width, t.image.height)).collect::<Vec<(u32, u32)>>(),
        vec![(300, 150), (150, 150), (75, 150)]
    );
    // Scaled up, the resizer mixes neighbours in single precision and cuts the fraction off.
    assert!(thumbnails[1].image.pixels.iter().all(|byte| *byte == 1 || *byte == 2));
    assert!(thumbnails[0].image.pixels.iter().all(|byte| *byte <= 1));
    assert!(thumbnails_from(&Vec::new()).is_empty());
    assert!(thumbnails_from(&vec![None, None]).is_empty());
}

#[test]
fn every_decoded_picture_gets_its_index() {
    let decoded: Vec<Option<Raster>> = (1..=6).map(|side| Some(solid(side * 10, side * 5, [7, 7, 7]))).collect();
    let thumbnails = thumbnails_from(&decoded);
    assert_eq!(thumbnails.len(), 6);
    assert_eq!(thumbnails.iter().map(|t| t.index).collect::<Vec<usize>>(), vec![0, 1, 2, 3, 4, 5]);
    assert!(thumbnails.iter().all(|t| (t.image.width, t.image.height) == (300, 150)));
}

#[test]
fn covers_from_decoded_pictures() {
    let events = covers_from(10, &decoded_folder());
    let found: Vec<(usize, usize, u32)> = events
        .iter()
        .map(|event| match event {
            ScanEvent::CoverReady { folder_index, thumbnail } => {
                (*folder_index, thumbnail.index, thumbnail.image.width)
            }
            _ => panic!("not a cover"),
        })
        .collect();
    assert_eq!(found, vec![(10, 0, 300), (12, 0, 150), (15, 0, 75)]);
    assert!(covers_from(0, &Vec::new()).is_empty());
}

#[test]
fn events_from_one_decoded_picture() {
    let picture = Some(solid(1200, 800, [4, 4, 4]));
    match thumbnail_event_from(&picture, 3) {
        Some(ThumbnailEvent::ThumbnailReady { index, thumbnail }) => {
            assert_eq!((index, thumbnail.index), (3, 3));
            assert_eq!((thumbnail.image.width, thumbnail.image.height), (225, 150));
        }
        None => panic!("a picture that can be scaled gave no event"),
    }
    match cover_event_from(&picture, 3) {
        Some(ScanEvent::CoverReady { folder_index, thumbnail }) => {
            assert_eq!((folder_index, thumbnail.index), (3, 0));
            assert_eq!((thumbnail.image.width, thumbnail.image.height), (225, 150));
        }
        _ => panic!("a picture that can be scaled gave no cover"),
    }
    assert!(thumbnail_event_from(&None, 0).is_none());
    assert!(cover_event_from(&None, 0).is_none());
    let no_pixels = Some(Raster { width: 5, height: 0, pixels: Vec::new() });
    assert!(thumbnail_event_from(&no_pixels, 0).is_none());
    assert!(cover_event_from(&no_pixels, 0).is_none());
}
