use image_cache::derivative::orientation_to_apply;
use image_cache::exif_orientation::{get_orientation, orientation_from_lookup, NoFixNeededReason, OrientationLookup};
use image_cache::orient::{fix_orientation, fix_orientation_rgb, fix_orientation_rgba};
use image_cache::pixels::PixelBuffer;

/// A `w` x `h` buffer whose pixel (x, y) holds the samples (x, y, 7) or (x, y, 7, 9).
fn numbered(w: u32, h: u32, channels: u32) -> PixelBuffer {
    let mut data = Vec::new();
    for y in 0..h {
        for x in 0..w {
            data.push(x as u8);
            data.push(y as u8);
            data.push(7);
            if channels == 4 {
                data.push(9);
            }
        }
    }
    PixelBuffer { width: w, height: h, channels, data }
}

fn pixel(b: &PixelBuffer, x: u32, y: u32) -> (u8, u8) {
    let i = ((y * b.width + x) * b.channels) as usize;
    (b.data[i], b.data[i + 1])
}

fn jpeg_with_tiff(tiff: &[u8]) -> Vec<u8> {
    let mut out = vec![0xFF, 0xD8, 0xFF, 0xE1];
    let len = (2 + 6 + tiff.len()) as u16;
    out.extend_from_slice(&len.to_be_bytes());
    out.extend_from_slice(b"Exif\0\0");
    out.extend_from_slice(tiff);
    out.extend_from_slice(&[0xFF, 0xD9]);
    out
}

/// A JPEG header whose Exif data holds one SHORT field `tag` of value `value`.
fn jpeg_with_field(tag: u16, value: u16) -> Vec<u8> {
    let mut tiff = vec![0x4D, 0x4D, 0x00, 0x2A, 0x00, 0x00, 0x00, 0x08, 0x00, 0x01];
    tiff.extend_from_slice(&tag.to_be_bytes());
    tiff.extend_from_slice(&[0x00, 0x03, 0x00, 0x00, 0x00, 0x01]);
    tiff.extend_from_slice(&value.to_be_bytes());
    tiff.extend_from_slice(&[0x00, 0x00, 0x00, 0x00, 0x00, 0x00]);
    jpeg_with_tiff(&tiff)
}

fn png_bytes() -> Vec<u8> {
    let img = image::RgbImage::new(4, 3);
    let mut out = std::io::Cursor::new(Vec::new());
    img.write_to(&mut out, image::ImageOutputFormat::Png).unwrap();
    out.into_inner()
}

#[test]
fn lookup_classification() {
    assert!(matches!(orientation_from_lookup(OrientationLookup::Missing), Err(NoFixNeededReason::NoExif)));
    assert!(matches!(orientation_from_lookup(OrientationLookup::NoTag), Err(NoFixNeededReason::NoOrientationTag)));
    assert!(matches!(
        orientation_from_lookup(OrientationLookup::Malformed("bad".to_string())),
        Err(NoFixNeededReason::ParsingError(s)) if s == "bad"
    ));
    assert!(matches!(orientation_from_lookup(OrientationLookup::Tagged(Some(1))), Err(NoFixNeededReason::AlreadyCorrect)));
    for v in 2..=8 {
        assert_eq!(orientation_from_lookup(OrientationLookup::Tagged(Some(v))).unwrap(), v);
    }
    assert!(matches!(
        orientation_from_lookup(OrientationLookup::Tagged(Some(0))),
        Err(NoFixNeededReason::InvalidOrientationTagValue(Some(0)))
    ));
    assert!(matches!(
        orientation_from_lookup(OrientationLookup::Tagged(Some(9))),
        Err(NoFixNeededReason::InvalidOrientationTagValue(Some(9)))
    ));
    assert!(matches!(
        orientation_from_lookup(OrientationLookup::Tagged(None)),
        Err(NoFixNeededReason::InvalidOrientationTagValue(None))
    ));
}

#[test]
fn orientation_read_from_exif() {
    assert_eq!(get_orientation(&jpeg_with_field(0x0112, 6)).unwrap(), 6);
    assert_eq!(get_orientation(&jpeg_with_field(0x0112, 3)).unwrap(), 3);
    assert!(matches!(get_orientation(&jpeg_with_field(0x0112, 1)), Err(NoFixNeededReason::AlreadyCorrect)));
    assert!(matches!(
        get_orientation(&jpeg_with_field(0x0112, 9)),
        Err(NoFixNeededReason::InvalidOrientationTagValue(Some(9)))
    ));
    assert!(matches!(get_orientation(&jpeg_with_field(0x0100, 6)), Err(NoFixNeededReason::NoOrientationTag)));
}

#[test]
fn orientation_without_metadata() {
    assert!(matches!(get_orientation(&png_bytes()), Err(NoFixNeededReason::NoExif)));
    assert!(matches!(get_orientation(b"not an image at all"), Err(NoFixNeededReason::ParsingError(_))));
}

#[test]
fn orientation_to_apply_maps_reasons() {
    assert_eq!(orientation_to_apply(Ok(5)).unwrap(), 5);
    assert_eq!(orientation_to_apply(Err(NoFixNeededReason::AlreadyCorrect)).unwrap(), 1);
    assert_eq!(orientation_to_apply(Err(NoFixNeededReason::NoExif)).unwrap(), 1);
    assert_eq!(orientation_to_apply(Err(NoFixNeededReason::NoOrientationTag)).unwrap(), 1);
    assert!(matches!(
        orientation_to_apply(Err(NoFixNeededReason::ParsingError("x".to_string()))),
        Err(NoFixNeededReason::ParsingError(_))
    ));
    assert!(matches!(
        orientation_to_apply(Err(NoFixNeededReason::InvalidOrientationTagValue(None))),
        Err(NoFixNeededReason::InvalidOrientationTagValue(None))
    ));
}

#[test]
fn mirror_and_turns() {
    // code 2: mirror each row
    let b = fix_orientation_rgb(numbered(3, 2, 3), 2);
    assert_eq!((b.width, b.height), (3, 2));
    assert_eq!(pixel(&b, 0, 0), (2, 0));
    assert_eq!(pixel(&b, 2, 1), (0, 1));
    // code 3: half turn
    let b = fix_orientation_rgb(numbered(3, 2, 3), 3);
    assert_eq!(pixel(&b, 0, 0), (2, 1));
    // code 4: flip top to bottom
    let b = fix_orientation_rgb(numbered(3, 2, 3), 4);
    assert_eq!(pixel(&b, 0, 0), (0, 1));
    // code 5: transpose
    let b = fix_orientation_rgb(numbered(3, 2, 3), 5);
    assert_eq!((b.width, b.height), (2, 3));
    assert_eq!(pixel(&b, 1, 2), (2, 1));
    // code 6: quarter turn clockwise
    let b = fix_orientation_rgba(numbered(3, 2, 4), 6);
    assert_eq!((b.width, b.height), (2, 3));
    assert_eq!(pixel(&b, 0, 0), (0, 1));
    assert_eq!(pixel(&b, 1, 0), (0, 0));
    assert_eq!(b.data[3], 9);
    // code 8: quarter turn counter-clockwise
    let b = fix_orientation_rgba(numbered(3, 2, 4), 8);
    assert_eq!(pixel(&b, 0, 0), (2, 0));
}

#[test]
fn codes_outside_two_to_eight_change_nothing() {
    for code in [0u32, 1, 9, 100, u32::MAX] {
        let b = fix_orientation(numbered(3, 2, 3), code);
        assert_eq!(b.data, numbered(3, 2, 3).data);
        assert_eq!((b.width, b.height), (3, 2));
    }
}

#[test]
fn each_correction_is_undone_by_its_inverse() {
    for channels in [3u32, 4] {
        for code in 2u32..=8 {
            let inverse = match code {
                6 => 8,
                8 => 6,
                c => c,
            };
            let original = numbered(5, 3, channels);
            let back = fix_orientation(fix_orientation(numbered(5, 3, channels), code), inverse);
            assert_eq!((back.width, back.height), (5, 3));
            assert_eq!(back.data, original.data);
        }
    }
}
