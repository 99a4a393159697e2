use reconv::codec::decode_image;
use reconv::outcome::ConversionOutcome;
use reconv::reconvert::{completed_outcome, plan_conversion, try_strategies, Error};
use reconv::strategy::{catalog, encode_with, extension_of, Strategy};

/// A smooth gradient photo stand-in, written to memory as an (uncompressed)
/// BMP so that every re-encoding strategy has room to shrink it.
fn gradient_bmp() -> Vec<u8> {
    let img = image::RgbImage::from_fn(64, 64, |x, y| {
        image::Rgb([(x * 4) as u8, (y * 4) as u8, ((x + y) * 2) as u8])
    });
    let mut buf = std::io::Cursor::new(Vec::new());
    image::DynamicImage::ImageRgb8(img)
        .write_to(&mut buf, image::ImageFormat::Bmp)
        .unwrap();
    buf.into_inner()
}

/// The sizes each catalog strategy's encoding of `data` comes out at.
fn strategy_sizes(data: &Vec<u8>) -> Vec<usize> {
    let img = decode_image(data).unwrap();
    catalog()
        .into_iter()
        .map(|s| encode_with(&img, s).unwrap().len())
        .collect()
}

/// What the orchestrator must pick for this target: the first strategy in
/// catalog order whose output is strictly under it.
fn first_fit(sizes: &[usize], target: usize) -> Option<usize> {
    sizes.iter().position(|&n| n < target)
}

#[test]
fn catalog_order_is_fixed() {
    let expected = vec![
        Strategy::PngBest,
        Strategy::JpegQuality(100),
        Strategy::JpegQuality(90),
    ];
    assert_eq!(catalog(), expected);
    // Re-running yields the identical catalog: precedence is deterministic.
    assert_eq!(catalog(), catalog());
}

#[test]
fn strategy_extensions_are_fixed() {
    assert_eq!(extension_of(Strategy::PngBest), b".png".to_vec());
    assert_eq!(extension_of(Strategy::JpegQuality(100)), b".jpg".to_vec());
    assert_eq!(extension_of(Strategy::JpegQuality(90)), b".jpg".to_vec());
}

#[test]
fn invalid_image_surfaces_decode_error() {
    let garbage = b"this is not an image at all, not in any format".to_vec();
    let path = b"/tmp/broken.dat".to_vec();
    let r = plan_conversion(&path, &garbage, 10);
    assert!(matches!(r, Err(Error::Image(_))));
}

#[test]
fn conversion_picks_first_fitting_strategy() {
    let data = gradient_bmp();
    let path = b"/tmp/photo.bmp".to_vec();
    let sizes = strategy_sizes(&data);

    // Try a spread of targets, never larger than the input itself (larger
    // ones would have been skipped before conversion starts).
    let mut targets = vec![data.len(), data.len() / 2, 1];
    for &n in &sizes {
        if n < data.len() {
            // Exactly at a strategy's size: that strategy no longer fits.
            targets.push(n);
            targets.push(n + 1);
        }
    }
    for target in targets {
        let r = plan_conversion(&path, &data, target);
        match first_fit(&sizes, target) {
            Some(i) => {
                let plan = r.unwrap();
                assert_eq!(plan.original_size, data.len() as u64);
                assert_eq!(plan.new_size, sizes[i] as u64);
                assert_eq!(plan.data.len(), sizes[i]);
                assert!((plan.new_size as usize) < target);
                let ext: &[u8] = if i == 0 { b".png" } else { b".jpg" };
                let mut expected_path = b"/tmp/photo-reconv".to_vec();
                expected_path.extend_from_slice(ext);
                assert_eq!(plan.new_path, expected_path);
            }
            None => {
                assert!(matches!(r, Err(Error::ImageSizeExceedsTarget)));
            }
        }
    }
}

/// A photo stand-in with smooth two-dimensional waves: costly for lossless
/// filtering, cheap for a frequency-domain lossy codec.
fn wavy_bmp() -> Vec<u8> {
    let img = image::RgbImage::from_fn(128, 128, |x, y| {
        let fx = x as f64;
        let fy = y as f64;
        let r = 128.0 + 90.0 * (fx * 0.19).sin() * (fy * 0.23).cos();
        let g = 128.0 + 90.0 * (fx * 0.11).cos() * (fy * 0.31).sin();
        let b = 128.0 + 90.0 * ((fx + fy) * 0.17).sin();
        image::Rgb([r as u8, g as u8, b as u8])
    });
    let mut buf = std::io::Cursor::new(Vec::new());
    image::DynamicImage::ImageRgb8(img)
        .write_to(&mut buf, image::ImageFormat::Bmp)
        .unwrap();
    buf.into_inner()
}

#[test]
fn oversized_photo_falls_through_to_jpeg() {
    // The shape of the oversized-photo scenario: the lossless re-encode is
    // still at or above the target, so the quality-100 JPEG is chosen.
    let data = wavy_bmp();
    let path = b"/tmp/photo.bmp".to_vec();
    let sizes = strategy_sizes(&data);
    assert!(sizes[1] < sizes[0], "JPEG at quality 100 should undercut lossless PNG here");

    let target = sizes[0];
    let plan = plan_conversion(&path, &data, target).unwrap();
    assert_eq!(plan.new_size, sizes[1] as u64);
    assert_eq!(plan.new_path, b"/tmp/photo-reconv.jpg".to_vec());
}

#[test]
fn unreachable_target_fails_with_dedicated_error() {
    let data = gradient_bmp();
    let path = b"/tmp/photo.bmp".to_vec();
    // No encoder can produce an empty output, so a target of 1 byte is
    // unreachable and must fail rather than be skipped.
    let r = plan_conversion(&path, &data, 1);
    assert!(matches!(r, Err(Error::ImageSizeExceedsTarget)));
}

#[test]
fn rerunning_selection_is_deterministic() {
    let data = gradient_bmp();
    let path = b"/tmp/photo.bmp".to_vec();
    let target = data.len();
    let a = plan_conversion(&path, &data, target).unwrap();
    let b = plan_conversion(&path, &data, target).unwrap();
    assert_eq!(a.new_size, b.new_size);
    assert_eq!(a.new_path, b.new_path);
    assert_eq!(a.data, b.data);
}

#[test]
fn encoders_reencode_rather_than_copy() {
    let data = gradient_bmp();
    let img = decode_image(&data).unwrap();
    let png = encode_with(&img, Strategy::PngBest).unwrap();
    let jpg = encode_with(&img, Strategy::JpegQuality(90)).unwrap();
    // The strategies produce fresh encodings, not the input bytes back.
    assert_eq!(&png[..8], &[137u8, 80, 78, 71, 13, 10, 26, 10]);
    assert_eq!(&jpg[..2], &[0xFFu8, 0xD8]);
    assert_ne!(png, data);
    assert_ne!(jpg, data);
}

#[test]
fn try_strategies_reports_winner_and_extension() {
    let data = gradient_bmp();
    let img = decode_image(&data).unwrap();
    let sizes = strategy_sizes(&data);
    let target = data.len();
    let sel = try_strategies(&img, &catalog(), target).unwrap();
    let expected = first_fit(&sizes, target).unwrap();
    assert_eq!(sel.index, expected);
    assert_eq!(sel.data.len(), sizes[expected]);
    let ext: &[u8] = if expected == 0 { b".png" } else { b".jpg" };
    assert_eq!(sel.extension, ext.to_vec());
}

#[test]
fn completed_outcome_reports_the_plan() {
    let data = gradient_bmp();
    let path = b"/tmp/photo.bmp".to_vec();
    let plan = plan_conversion(&path, &data, data.len()).unwrap();
    let original_size = plan.original_size;
    let new_size = plan.new_size;
    let new_path = plan.new_path.clone();
    let outcome = completed_outcome(plan);
    assert_eq!(
        outcome,
        ConversionOutcome::Converted { original_size, new_size, new_path }
    );
}
