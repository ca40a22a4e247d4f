use screen_sampler::color::{decode_sample, unpack, RgbColor, INVALID_SAMPLE};
use screen_sampler::sampler::{PlatformBackend, ScreenPoint, ScreenSampler};

fn mock(packed: u32, x: i32, y: i32) -> PlatformBackend {
    PlatformBackend::Mock {
        cursor: ScreenPoint { x, y },
        packed,
        acquired: 0,
        released: 0,
    }
}

fn counters(backend: &PlatformBackend) -> (u64, u64) {
    match backend {
        PlatformBackend::Mock { acquired, released, .. } => (*acquired, *released),
        PlatformBackend::Null => (0, 0),
    }
}

#[test]
fn channels_stay_in_byte_range() {
    let samples: Vec<u32> = vec![0, 1, 0x112233, 0xFFFFFF, 0xFFFF_FFFE, 0x80808080, 0xDEADBEEF];
    for packed in samples {
        let c = decode_sample(packed);
        assert!(u32::from(c.r) <= 255 && u32::from(c.g) <= 255 && u32::from(c.b) <= 255);
    }
}

#[test]
fn sentinel_maps_to_neutral_gray() {
    let c = decode_sample(INVALID_SAMPLE);
    assert_eq!(c, RgbColor { r: 128, g: 128, b: 128 });
    assert_ne!(c, RgbColor { r: 255, g: 255, b: 255 });
}

#[test]
fn naive_unpack_of_sentinel_is_white() {
    let c = unpack(0xFFFF_FFFF);
    assert_eq!(c, RgbColor { r: 255, g: 255, b: 255 });
}

#[test]
fn low_byte_is_red() {
    let c = decode_sample(0x0000FF);
    assert_eq!(c, RgbColor { r: 255, g: 0, b: 0 });
}

#[test]
fn third_byte_is_blue() {
    let c = decode_sample(0xFF0000);
    assert_eq!(c, RgbColor { r: 0, g: 0, b: 255 });
}

#[test]
fn mock_sample_end_to_end() {
    let mut sampler = ScreenSampler::new(mock(0x112233, 10, 20));
    let c = sampler.sample_pixel_color(10, 20);
    assert_eq!(c, RgbColor { r: 0x33, g: 0x22, b: 0x11 });
}

#[test]
fn cursor_position_comes_from_backend() {
    let sampler = ScreenSampler::new(mock(0, -7, 42));
    assert_eq!(sampler.get_cursor_position(), ScreenPoint { x: -7, y: 42 });
}

#[test]
fn null_backend_cursor_is_origin() {
    let sampler = ScreenSampler::new(PlatformBackend::Null);
    assert_eq!(sampler.get_cursor_position(), ScreenPoint { x: 0, y: 0 });
}

#[test]
fn null_backend_sample_is_gray_everywhere() {
    let mut sampler = ScreenSampler::new(PlatformBackend::Null);
    let coords: Vec<(i32, i32)> = vec![
        (0, 0),
        (10, 20),
        (-1, -1),
        (i32::MIN, i32::MAX),
        (i32::MAX, i32::MIN),
    ];
    for (x, y) in coords {
        assert_eq!(sampler.sample_pixel_color(x, y), RgbColor { r: 128, g: 128, b: 128 });
    }
}

#[test]
fn surface_acquire_and_release_are_paired() {
    let mut sampler = ScreenSampler::new(mock(0x00FF00, 0, 0));
    sampler.sample_pixel_color(1, 2);
    assert_eq!(counters(&sampler.backend), (1, 1));
    sampler.sample_pixel_color(3, 4);
    assert_eq!(counters(&sampler.backend), (2, 2));
}

#[test]
fn failed_read_still_releases_surface() {
    let mut sampler = ScreenSampler::new(mock(INVALID_SAMPLE, 0, 0));
    let c = sampler.sample_pixel_color(5, 6);
    assert_eq!(c, RgbColor { r: 128, g: 128, b: 128 });
    assert_eq!(counters(&sampler.backend), (1, 1));
}

#[test]
fn repeated_calls_keep_their_shape() {
    let mut sampler = ScreenSampler::new(mock(0xABCDEF, 3, 4));
    let first = sampler.sample_pixel_color(0, 0);
    let second = sampler.sample_pixel_color(0, 0);
    assert_eq!(first, second);
    let p1 = sampler.get_cursor_position();
    let p2 = sampler.get_cursor_position();
    assert_eq!(p1, p2);
    assert_eq!(first, RgbColor { r: 0xEF, g: 0xCD, b: 0xAB });
    assert_eq!(p1, ScreenPoint { x: 3, y: 4 });
}
