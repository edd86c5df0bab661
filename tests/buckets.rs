use image_cache::target::{plan_resize, scale_side, ResizePlan};
use image_cache::threshold::ImageResizeThreshold;

#[test]
fn bucket_edges() {
    assert_eq!(ImageResizeThreshold::for_size(0, 0), ImageResizeThreshold::VerySmall);
    assert_eq!(ImageResizeThreshold::for_size(240, 10), ImageResizeThreshold::VerySmall);
    assert_eq!(ImageResizeThreshold::for_size(10, 241), ImageResizeThreshold::Small);
    assert_eq!(ImageResizeThreshold::for_size(480, 480), ImageResizeThreshold::Small);
    assert_eq!(ImageResizeThreshold::for_size(481, 2), ImageResizeThreshold::Medium);
    assert_eq!(ImageResizeThreshold::for_size(640, 1), ImageResizeThreshold::Medium);
    assert_eq!(ImageResizeThreshold::for_size(800, 600), ImageResizeThreshold::Large);
    assert_eq!(ImageResizeThreshold::for_size(1, 1080), ImageResizeThreshold::Large);
    assert_eq!(ImageResizeThreshold::for_size(1081, 1), ImageResizeThreshold::VeryLarge);
    assert_eq!(ImageResizeThreshold::for_size(1440, 1440), ImageResizeThreshold::VeryLarge);
    assert_eq!(ImageResizeThreshold::for_size(u32::MAX, 5), ImageResizeThreshold::VeryLarge);
}

#[test]
fn bucket_presets() {
    let expected = [
        (ImageResizeThreshold::VerySmall, 240, "very_small"),
        (ImageResizeThreshold::Small, 480, "small"),
        (ImageResizeThreshold::Medium, 640, "medium"),
        (ImageResizeThreshold::Large, 1080, "large"),
        (ImageResizeThreshold::VeryLarge, 1440, "very_large"),
    ];
    for (t, ceiling, prefix) in expected {
        let p = t.value();
        assert_eq!(p.desired_value, ceiling);
        assert_eq!(p.prefix, prefix);
    }
}

#[test]
fn bucket_ceiling_grows_with_the_long_side() {
    let mut last = 0;
    for high in [0u32, 1, 239, 240, 241, 480, 481, 640, 641, 1080, 1081, 1440, 1441, 5000, u32::MAX] {
        let c = ImageResizeThreshold::for_size(high, high / 2).value().desired_value;
        assert!([240, 480, 640, 1080, 1440].contains(&c));
        assert!(c >= last);
        last = c;
    }
}

#[test]
fn wide_image_follows_requested_ratio() {
    assert_eq!(plan_resize(3000, 2000, 800, 600, 1080), ResizePlan::Resize { width: 1080, height: 810 });
    assert_eq!(plan_resize(5000, 100, 300, 100, 480), ResizePlan::Resize { width: 480, height: 160 });
    assert_eq!(plan_resize(2000, 10, 3, 1, 240), ResizePlan::Resize { width: 240, height: 80 });
    // truncation: 1080 * 7 / 9 = 840
    assert_eq!(plan_resize(3000, 2000, 9, 7, 1080), ResizePlan::Resize { width: 1080, height: 840 });
    // 640 * 1 / 3 = 213.33 truncated
    assert_eq!(plan_resize(1000, 999, 3, 1, 640), ResizePlan::Resize { width: 640, height: 213 });
}

#[test]
fn tall_and_square_images_cap_the_height() {
    assert_eq!(plan_resize(2000, 3000, 600, 800, 1080), ResizePlan::Resize { width: 810, height: 1080 });
    assert_eq!(plan_resize(2000, 2000, 500, 1000, 1080), ResizePlan::Resize { width: 540, height: 1080 });
}

#[test]
fn small_images_keep_the_original() {
    assert_eq!(plan_resize(1000, 800, 800, 600, 1080), ResizePlan::KeepOriginal);
    assert_eq!(plan_resize(1080, 1080, 800, 600, 1080), ResizePlan::KeepOriginal);
    assert_eq!(plan_resize(0, 0, 0, 0, 240), ResizePlan::KeepOriginal);
    assert_eq!(plan_resize(1081, 5, 800, 600, 1080), ResizePlan::Resize { width: 1080, height: 810 });
}

#[test]
fn scaling_saturates_and_handles_zero() {
    assert_eq!(scale_side(1080, 600, 800), 810);
    assert_eq!(scale_side(1080, 600, 0), u32::MAX);
    assert_eq!(scale_side(1080, 0, 0), 0);
    assert_eq!(scale_side(1440, u32::MAX, 1), u32::MAX);
    assert_eq!(scale_side(240, 0, 7), 0);
}
