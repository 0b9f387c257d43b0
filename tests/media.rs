use image::{DynamicImage, ImageFormat, Rgba, RgbaImage};
use sizefit::engine::{SearchParams, SCALE_ONE};
use sizefit::media::{MediaError, Raster, ResizableUnit};
use sizefit::search::{estimate_compression, search_image};

fn uniform(w: u32, h: u32) -> Raster {
    Raster::new(DynamicImage::ImageRgba8(RgbaImage::from_pixel(w, h, Rgba([120, 50, 200, 255]))))
}

fn three_frames() -> ResizableUnit {
    let frames = vec![uniform(40, 30), uniform(40, 30), uniform(40, 30)];
    ResizableUnit::sequence(frames, image::Delay::from_numer_denom_ms(100, 1)).unwrap()
}

#[test]
fn sequence_frames_share_size_after_resize() {
    let unit = three_frames();
    let half = unit.scaled(SCALE_ONE / 2).unwrap();
    assert_eq!(half.frames_len(), 3);
    for i in 0..3 {
        assert_eq!((half.frame(i).width(), half.frame(i).height()), (20, 15));
        assert_eq!(half.frame(i).pixels().width(), 20);
    }
    assert_eq!(half.dimensions(), (20, 15));
    match half {
        ResizableUnit::Sequence { delay, .. } => {
            assert_eq!(delay, image::Delay::from_numer_denom_ms(100, 1))
        }
        ResizableUnit::Single { .. } => panic!("a sequence became a single image"),
    }
}

#[test]
fn scale_floors_each_side_and_keeps_one_pixel() {
    let unit = ResizableUnit::single(uniform(40, 30), ImageFormat::Png);
    let u = unit.scaled(333_333).unwrap();
    assert_eq!(u.dimensions(), (13, 9));
    let tiny = unit.scaled(0).unwrap();
    assert_eq!(tiny.dimensions(), (1, 1));
    let up = unit.scaled(1_500_000).unwrap();
    assert_eq!(up.dimensions(), (60, 45));
}

#[test]
fn oversized_scale_is_refused() {
    let unit = ResizableUnit::single(uniform(4, 4), ImageFormat::Png);
    assert!(matches!(unit.scaled(2_000_000_000_000_000), Err(MediaError::DimensionOverflow)));
}

#[test]
fn sequence_needs_frames_of_one_size() {
    let d = image::Delay::from_numer_denom_ms(100, 1);
    assert!(matches!(ResizableUnit::sequence(vec![], d), Err(MediaError::EmptySequence)));
    let mixed = vec![uniform(4, 4), uniform(4, 5)];
    assert!(matches!(ResizableUnit::sequence(mixed, d), Err(MediaError::MismatchedFrames)));
}

#[test]
fn encodes_png_and_gif() {
    let png = ResizableUnit::single(uniform(8, 8), ImageFormat::Png).encode().unwrap();
    assert_eq!(&png[..4], &[0x89, b'P', b'N', b'G']);
    let gif = three_frames().encode().unwrap();
    assert_eq!(&gif[..3], b"GIF");
}

#[test]
fn decode_round_trips_a_sequence() {
    let unit = three_frames();
    let bytes = unit.encode().unwrap();
    let back = unit.decode_like(&bytes).unwrap();
    assert_eq!(back.frames_len(), 3);
    assert_eq!(back.dimensions(), (40, 30));
    assert!(matches!(unit.decode_like(b"not a gif"), Err(MediaError::Codec(_))));
}

#[test]
fn compression_ratio_counts_raw_rgba_bytes() {
    let unit = ResizableUnit::single(uniform(10, 20), ImageFormat::Png);
    let est = estimate_compression(&unit).unwrap();
    assert_eq!(est.ratio.raw, 800);
    assert_eq!(est.ratio.encoded, est.probe.len() as u64);
    assert_eq!(est.probe, unit.encode().unwrap());
    assert_eq!(est.decoded.raw_bytes(), 800);
    let seq = estimate_compression(&three_frames()).unwrap();
    assert_eq!(seq.ratio.raw, 3 * 40 * 30 * 4);
    assert_eq!(seq.decoded.frames_len(), 3);
}

#[test]
fn uniform_image_shrinks_under_target() {
    let unit = ResizableUnit::single(uniform(200, 200), ImageFormat::Png);
    let params = SearchParams::new(200, 10, 50).unwrap();
    let out = search_image(&unit, params).unwrap();
    assert!(out.iterations <= 51);
    assert!(out.measured.len() >= 1 && out.measured.len() <= out.iterations as usize + 1);
    if out.measured.iter().any(|m| m.1 <= 200) {
        assert!(out.best.size <= 200);
        assert!(out.width < 200 && out.height < 200);
        assert_eq!(out.bytes.len() as u64, out.best.size);
        assert!(out.measured.contains(&(out.best.scale, out.best.size)));
    } else {
        assert_eq!(out.best.scale, SCALE_ONE);
        assert_eq!((out.width, out.height), (200, 200));
    }
}

#[test]
fn generous_target_keeps_or_grows_scale() {
    let unit = ResizableUnit::single(uniform(30, 30), ImageFormat::Png);
    let original = unit.encode().unwrap().len() as u64;
    let params = SearchParams::new(original * 4 + 128, 0, 8).unwrap();
    let out = search_image(&unit, params).unwrap();
    assert!(out.best.scale >= SCALE_ONE);
    assert!(out.width >= 30 && out.height >= 30);
    assert_eq!(out.original_size, out.ratio.encoded);
    assert!(out.best.size <= params.target);
    assert!(out.iterations <= 9);
}

#[test]
fn sequence_search_resizes_all_frames_together() {
    let unit = three_frames();
    let params = SearchParams::new(300, 5, 8).unwrap();
    let out = search_image(&unit, params).unwrap();
    assert!(out.iterations <= 9);
    assert_eq!(out.measured[0].0, SCALE_ONE);
    assert_eq!(&out.bytes[..3], b"GIF");
    let back = ResizableUnit::decode_sequence(&out.bytes).unwrap();
    assert_eq!(back.frames_len(), 3);
    assert_eq!(back.dimensions(), (out.width, out.height));
}

#[test]
fn decode_sequence_refuses_other_bytes() {
    assert!(matches!(ResizableUnit::decode_sequence(b"GIF89a"), Err(MediaError::Codec(_))));
}
