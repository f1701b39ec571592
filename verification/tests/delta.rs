use image::codecs::jpeg::JpegEncoder;
use image::{ExtendedColorType, Rgba, RgbaImage};
use remote_desktop::delta::{
    compute_frame, encode_jobs, encode_jpeg, encode_tile, plan_frame, CaptureState, EncodeJob,
    FramePlan, Subsampling, KEYFRAME_INTERVAL,
};
use remote_desktop::messages::FrameData;
use remote_desktop::tiles::{hash_tile, hash_tiles, tile_grid, tiles_of, Frame, TileRect};

fn solid(r: u8, g: u8, b: u8, w: u32, h: u32) -> RgbaImage {
    RgbaImage::from_fn(w, h, |_, _| Rgba([r, g, b, 255]))
}

fn frame_of(img: &RgbaImage) -> Frame {
    Frame::new(img.width(), img.height(), img.as_raw().clone()).expect("a frame of moderate size")
}

fn new_state() -> CaptureState {
    CaptureState::new(false)
}

/// Compresses the rectangle that a job describes.
fn compress(job: &EncodeJob, pixels: &[u8]) -> Option<Vec<u8>> {
    let mut rgb = Vec::new();
    for row in 0..job.height {
        let start = job.offset + row * job.pitch;
        for pixel in pixels[start..start + 4 * job.width].chunks(4) {
            rgb.extend_from_slice(&pixel[..3]);
        }
    }
    let mut jpeg = Vec::new();
    JpegEncoder::new_with_quality(&mut jpeg, job.quality as u8)
        .encode(&rgb, job.width as u32, job.height as u32, ExtendedColorType::Rgb8)
        .ok()?;
    Some(jpeg)
}

fn capture_with(
    state: &mut CaptureState,
    img: &RgbaImage,
    encode: impl Fn(&EncodeJob, &[u8]) -> Option<Vec<u8>>,
) -> Option<FrameData> {
    let frame = frame_of(img);
    let plan = plan_frame(state, &frame);
    let encoded = encode_jobs(&plan, &frame).iter().map(|job| encode(job, &frame.pixels)).collect();
    compute_frame(state, plan, encoded)
}

fn capture(state: &mut CaptureState, img: &RgbaImage) -> Option<FrameData> {
    capture_with(state, img, compress)
}

#[test]
fn keyframe_on_first_call() {
    let mut state = new_state();
    let img = solid(128, 64, 32, 256, 256);
    let frame = capture(&mut state, &img).expect("first call must return keyframe");
    assert!(frame.is_keyframe);
    assert!(!frame.jpeg_data.is_empty());
    assert!(frame.tiles.is_empty());
    // JPEG magic bytes 0xFF 0xD8
    assert_eq!(&frame.jpeg_data[..2], &[0xFF, 0xD8]);
}

#[test]
fn identical_frames_produce_no_output() {
    let mut state = new_state();
    let img = solid(10, 20, 30, 256, 256);
    let _ = capture(&mut state, &img); // keyframe
    // Same image again: nothing changed
    let delta = capture(&mut state, &img);
    assert!(delta.is_none(), "identical frame should produce None");
}

#[test]
fn single_pixel_change_produces_one_tile() {
    let mut state = new_state();
    let img1 = solid(100, 100, 100, 256, 256);
    let _ = capture(&mut state, &img1); // keyframe

    // Change one pixel in the top-left tile
    let mut img2 = img1.clone();
    img2.put_pixel(5, 5, Rgba([200, 200, 200, 255]));
    let delta = capture(&mut state, &img2).expect("should produce delta");
    assert!(!delta.is_keyframe);
    assert_eq!(delta.tiles.len(), 1, "only one tile should be dirty");
    let tile = &delta.tiles[0];
    assert_eq!(tile.x, 0);
    assert_eq!(tile.y, 0);
    assert!(!tile.jpeg_data.is_empty());
}

#[test]
fn resolution_change_triggers_keyframe() {
    let mut state = new_state();
    let img1 = solid(50, 50, 50, 256, 256);
    let _ = capture(&mut state, &img1);

    let img2 = solid(50, 50, 50, 512, 384); // different resolution
    let frame = capture(&mut state, &img2).expect("resolution change must keyframe");
    assert!(frame.is_keyframe);
}

#[test]
fn hash_tile_different_content() {
    let img1 = solid(0, 0, 0, 128, 128);
    let img2 = solid(255, 255, 255, 128, 128);
    let h1 = hash_tile(img1.as_raw(), 128, 0, 0, 128, 128);
    let h2 = hash_tile(img2.as_raw(), 128, 0, 0, 128, 128);
    assert_ne!(h1, h2);
}

#[test]
fn hash_tile_same_content() {
    let img = solid(77, 88, 99, 128, 128);
    let h1 = hash_tile(img.as_raw(), 128, 0, 0, 128, 128);
    let h2 = hash_tile(img.as_raw(), 128, 0, 0, 128, 128);
    assert_eq!(h1, h2);
}

#[test]
fn hash_tile_is_fnv1a() {
    assert_eq!(hash_tile(b"foob", 1, 0, 0, 1, 1), 0xdd120e790c2512af);
    assert_eq!(hash_tile(b"foobar12", 2, 0, 0, 2, 1), 0x7495bbeb4ef8b7cb);
    assert_eq!(hash_tile(&[], 0, 0, 0, 0, 0), 0xcbf29ce484222325);
}

#[test]
fn hash_tile_skips_the_rest_of_each_row() {
    // The left column of a picture two pixels wide and two high.
    let raw = [1, 2, 3, 4, 5, 6, 7, 8, 9, 10, 11, 12, 13, 14, 15, 16];
    assert_eq!(hash_tile(&raw, 2, 0, 0, 1, 2), 0x96e62869a2df0ee5);
}

#[test]
fn tile_grid_rounds_up() {
    assert_eq!(tile_grid(1920, 1080), (15, 9));
    assert_eq!(tile_grid(256, 128), (2, 1));
    assert_eq!(tile_grid(129, 1), (2, 1));
    assert_eq!(tile_grid(0, 0), (0, 0));
}

#[test]
fn tiles_are_cut_off_at_the_edges() {
    let frame = frame_of(&solid(1, 2, 3, 200, 150));
    assert_eq!(
        tiles_of(&frame),
        vec![
            TileRect { x: 0, y: 0, w: 128, h: 128 },
            TileRect { x: 128, y: 0, w: 72, h: 128 },
            TileRect { x: 0, y: 128, w: 128, h: 22 },
            TileRect { x: 128, y: 128, w: 72, h: 22 },
        ]
    );
    let hashes = hash_tiles(&frame);
    assert_eq!(hashes.len(), 4);
    assert_eq!(hashes[3], hash_tile(&frame.pixels, 200, 128, 128, 72, 22));
}

#[test]
fn every_pixel_lies_in_one_tile() {
    let frame = frame_of(&solid(1, 2, 3, 300, 260));
    let tiles = tiles_of(&frame);
    for y in 0..260 {
        for x in 0..300 {
            let holding = tiles
                .iter()
                .filter(|t| t.x <= x && x < t.x + t.w && t.y <= y && y < t.y + t.h)
                .count();
            assert_eq!(holding, 1, "pixel {x}, {y}");
        }
    }
}

#[test]
fn frame_needs_its_pixels() {
    assert!(Frame::new(2, 2, vec![0; 15]).is_none());
    assert!(Frame::new(2, 2, vec![0; 16]).is_some());
    assert!(Frame::new(u32::MAX, u32::MAX, vec![]).is_none());
    assert!(Frame::new(0, 0, vec![]).is_some());
}

#[test]
fn changed_tiles_come_row_by_row() {
    let mut state = new_state();
    let mut img = solid(9, 9, 9, 300, 300);
    let _ = capture(&mut state, &img);
    img.put_pixel(299, 299, Rgba([1, 1, 1, 255]));
    img.put_pixel(130, 0, Rgba([1, 1, 1, 255]));
    let delta = capture(&mut state, &img).expect("should produce delta");
    let rects: Vec<_> =
        delta.tiles.iter().map(|t| (t.x, t.y, t.tile_width, t.tile_height)).collect();
    assert_eq!(rects, vec![(128, 0, 128, 128), (256, 256, 44, 44)]);
    assert_eq!((delta.width, delta.height), (300, 300));
    assert!(delta.jpeg_data.is_empty());
}

#[test]
fn joined_client_gets_a_keyframe_once() {
    let mut state = new_state();
    let img = solid(1, 2, 3, 256, 256);
    let _ = capture(&mut state, &img);
    state.request_keyframe();
    assert!(capture(&mut state, &img).expect("requested").is_keyframe);
    assert!(capture(&mut state, &img).is_none());
}

#[test]
fn request_outlives_a_keyframe_that_was_due_anyway() {
    let mut state = CaptureState::new(true);
    let img = solid(1, 2, 3, 256, 256);
    assert!(capture(&mut state, &img).expect("first").is_keyframe);
    assert!(capture(&mut state, &img).expect("requested").is_keyframe);
    assert!(capture(&mut state, &img).is_none());
}

#[test]
fn needs_keyframe_uses_up_a_request() {
    let mut state = new_state();
    let img = solid(1, 2, 3, 64, 64);
    let frame = frame_of(&img);
    assert!(state.needs_keyframe(&frame));
    let _ = capture(&mut state, &img);
    assert!(!state.needs_keyframe(&frame));
    state.request_keyframe();
    assert!(state.needs_keyframe(&frame));
    assert!(!state.needs_keyframe(&frame));
}

#[test]
fn keyframes_come_periodically() {
    let mut state = new_state();
    let img = solid(1, 2, 3, 64, 64);
    for n in 0..3 * KEYFRAME_INTERVAL {
        let frame = capture(&mut state, &img);
        assert_eq!(frame.is_some(), n % KEYFRAME_INTERVAL == 0, "capture {n}");
    }
}

#[test]
fn still_screen_is_polled_slowly() {
    let mut state = new_state();
    let mut img = solid(1, 2, 3, 64, 64);
    let _ = capture(&mut state, &img);
    for _ in 0..5 {
        assert!(capture(&mut state, &img).is_none());
        assert_eq!(state.sleep_interval(), 50);
    }
    assert!(capture(&mut state, &img).is_none());
    assert_eq!(state.sleep_interval(), 150);
    img.put_pixel(0, 0, Rgba([9, 9, 9, 255]));
    assert!(capture(&mut state, &img).is_some());
    assert_eq!(state.sleep_interval(), 50);
}

#[test]
fn pause_makes_up_for_the_time_taken() {
    let state = new_state();
    assert_eq!(state.pause_after(0), 50_000_000);
    assert_eq!(state.pause_after(20_000_000), 30_000_000);
    assert_eq!(state.pause_after(50_000_000), 0);
    assert_eq!(state.pause_after(u128::MAX), 0);
}

#[test]
fn keyframe_that_cannot_be_encoded_is_empty() {
    let mut state = new_state();
    let img = solid(1, 2, 3, 64, 32);
    let frame = capture_with(&mut state, &img, |_, _| None).expect("a keyframe all the same");
    assert!(frame.is_keyframe);
    assert_eq!((frame.width, frame.height), (64, 32));
    assert!(frame.jpeg_data.is_empty());
}

#[test]
fn tile_that_cannot_be_encoded_is_left_out() {
    let mut state = new_state();
    let mut img = solid(1, 2, 3, 256, 128);
    let _ = capture(&mut state, &img);
    img.put_pixel(0, 0, Rgba([9, 9, 9, 255]));
    img.put_pixel(200, 0, Rgba([9, 9, 9, 255]));
    let delta = capture_with(&mut state, &img, |job, pixels| {
        if job.offset == 0 { None } else { compress(job, pixels) }
    })
    .expect("the other tile");
    assert_eq!(delta.tiles.len(), 1);
    assert_eq!(delta.tiles[0].x, 128);

    img.put_pixel(0, 0, Rgba([8, 8, 8, 255]));
    assert!(capture_with(&mut state, &img, |_, _| None).is_none());
    // The change was taken note of all the same.
    assert!(capture(&mut state, &img).is_none());
}

#[test]
fn jobs_address_the_picture_in_place() {
    let frame = frame_of(&solid(1, 2, 3, 200, 150));
    assert_eq!(
        encode_jpeg(&frame, 75),
        EncodeJob {
            offset: 0,
            width: 200,
            pitch: 800,
            height: 150,
            quality: 75,
            subsampling: Subsampling::Full,
        }
    );
    assert_eq!(
        encode_tile(&frame, TileRect { x: 128, y: 128, w: 72, h: 22 }, 65),
        EncodeJob {
            offset: 128 * 800 + 128 * 4,
            width: 72,
            pitch: 800,
            height: 22,
            quality: 65,
            subsampling: Subsampling::Quarter,
        }
    );
}

#[test]
fn empty_pictures_and_rectangles_have_jobs() {
    let empty = Frame { width: 0, height: u32::MAX, pixels: vec![] };
    assert_eq!(encode_jpeg(&empty, 75).height, u32::MAX as usize);
    let frame = frame_of(&solid(1, 2, 3, 4, 2));
    let job = encode_tile(&frame, TileRect { x: 0, y: 2, w: 4, h: 0 }, 65);
    assert_eq!((job.offset, job.height), (32, 0));
}

#[test]
fn plans_carry_their_jobs() {
    let mut state = new_state();
    let mut img = solid(1, 2, 3, 256, 256);
    let first = frame_of(&img);
    let plan = plan_frame(&mut state, &first);
    assert!(matches!(plan, FramePlan::Keyframe { width: 256, height: 256 }));
    assert_eq!(encode_jobs(&plan, &first), vec![encode_jpeg(&first, 75)]);

    img.put_pixel(130, 130, Rgba([9, 9, 9, 255]));
    let second = frame_of(&img);
    let plan = plan_frame(&mut state, &second);
    let rect = TileRect { x: 128, y: 128, w: 128, h: 128 };
    match &plan {
        FramePlan::Delta { width: 256, height: 256, tiles } => assert_eq!(tiles, &vec![rect]),
        _ => panic!("should be a delta frame"),
    }
    assert_eq!(encode_jobs(&plan, &second), vec![encode_tile(&second, rect, 65)]);
}
