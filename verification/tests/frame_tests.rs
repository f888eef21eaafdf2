use image::codecs::jpeg::JpegEncoder;
use image::ColorType;
use kcam::frame::decode;
use kcam::frame::frame_error_message;
use kcam::frame::frame_code_of;
use kcam::frame::frame_size;
use kcam::frame::next_frame;
use kcam::frame::raster_from_rgba;
use kcam::frame::raster_of_decoding;
use kcam::frame::FrameError;
use kcam::frame::Preview;
use kcam::frame::Raster;

fn grey_jpeg(width: u32, height: u32, level: u8) -> Vec<u8> {
    let pixels = vec![level; (width * height * 3) as usize];
    let mut out = Vec::new();
    JpegEncoder::new_with_quality(&mut out, 100)
        .encode(&pixels, width, height, ColorType::Rgb8)
        .unwrap();
    out
}

#[test]
fn decode_gives_four_bytes_for_each_pixel() {
    let jpg = grey_jpeg(16, 8, 200);
    let raster = decode(&jpg).unwrap();
    assert_eq!(raster.width, 16);
    assert_eq!(raster.height, 8);
    assert_eq!(raster.rgba.len(), 16 * 8 * 4);
    assert_ne!(raster.rgba, jpg);
    for pixel in raster.rgba.chunks(4) {
        assert_eq!(pixel[3], 255);
        for channel in &pixel[..3] {
            assert!(*channel >= 196 && *channel <= 204);
        }
    }
}

#[test]
fn decode_rejects_what_is_no_jpeg() {
    assert_eq!(decode(&[]), Err(FrameError::Codec));
    assert_eq!(decode(b"not an image"), Err(FrameError::Codec));
    let mut cut = grey_jpeg(16, 8, 10);
    cut.truncate(20);
    assert_eq!(decode(&cut), Err(FrameError::Codec));
}

#[test]
fn next_frame_without_an_image_is_a_stream_read_error() {
    assert_eq!(next_frame(None).err(), Some(FrameError::StreamRead));
}

#[test]
fn next_frame_keeps_the_encoded_image() {
    let jpg = grey_jpeg(4, 4, 90);
    let frame = next_frame(Some(&jpg)).unwrap();
    assert_eq!(frame.jpg, &jpg[..]);
    assert_eq!(frame.rgb.width, 4);
    assert_eq!(frame.rgb.height, 4);
    assert_eq!(frame.rgb.rgba.len(), 64);
    assert_eq!(next_frame(Some(b"junk")).err(), Some(FrameError::Codec));
}

#[test]
fn raster_needs_exactly_its_bytes() {
    let raster = raster_from_rgba(2, 3, vec![7; 24]).unwrap();
    assert_eq!(raster, Raster { width: 2, height: 3, rgba: vec![7; 24] });
    assert_eq!(raster_from_rgba(2, 3, vec![7; 23]), Err(FrameError::Codec));
    assert_eq!(raster_from_rgba(2, 3, vec![7; 25]), Err(FrameError::Codec));
    assert_eq!(raster_from_rgba(2, 3, Vec::new()), Err(FrameError::Codec));
    assert_eq!(
        raster_from_rgba(0, 5, Vec::new()),
        Ok(Raster { width: 0, height: 5, rgba: Vec::new() })
    );
    assert_eq!(raster_from_rgba(u32::MAX, u32::MAX, vec![0; 4]), Err(FrameError::Codec));
}

#[test]
fn failed_frame_leaves_the_shown_raster_in_place() {
    let mut preview = Preview::new();
    assert_eq!(preview.raster, None);
    assert_eq!(preview.message, "");
    preview.show(Err(FrameError::StreamRead));
    assert_eq!(preview.raster, None);
    assert_eq!(preview.message, "Failed to fetch frame");
    let first = Raster { width: 1, height: 1, rgba: vec![1, 2, 3, 255] };
    preview.show(Ok(Raster { width: 1, height: 1, rgba: vec![1, 2, 3, 255] }));
    assert_eq!(preview.raster, Some(Raster { width: 1, height: 1, rgba: vec![1, 2, 3, 255] }));
    assert_eq!(preview.message, "Failed to fetch frame");
    preview.show(Err(FrameError::Codec));
    assert_eq!(preview.raster, Some(first));
    assert_eq!(preview.message, "Failed to decode jpg buffer");
    preview.show(Ok(Raster { width: 1, height: 1, rgba: vec![9, 9, 9, 255] }));
    assert_eq!(preview.raster, Some(Raster { width: 1, height: 1, rgba: vec![9, 9, 9, 255] }));
}

#[test]
fn frame_errors_have_their_messages() {
    assert_eq!(frame_error_message(FrameError::StreamRead), "Failed to fetch frame");
    assert_eq!(frame_error_message(FrameError::Codec), "Failed to decode jpg buffer");
}

/// A copy of `jpg` with a segment put in right after the start-of-image
/// marker.
fn with_segment(jpg: &[u8], segment: &[u8]) -> Vec<u8> {
    let mut out = Vec::new();
    out.extend_from_slice(&jpg[..2]);
    out.extend_from_slice(segment);
    out.extend_from_slice(&jpg[2..]);
    out
}

/// Where the frame header's marker stands in an image made by `grey_jpeg`.
fn frame_header_at(jpg: &[u8]) -> usize {
    let mut i = 2;
    loop {
        assert_eq!(jpg[i], 0xFF);
        if jpg[i + 1] == 0xC0 {
            return i;
        }
        i += 2 + usize::from(jpg[i + 2]) * 256 + usize::from(jpg[i + 3]);
    }
}

#[test]
fn frame_code_is_found_behind_the_segments_before_it() {
    let plain = grey_jpeg(8, 8, 50);
    assert_eq!(frame_code_of(&plain), Some(0xC0));
    let commented = with_segment(&plain, &[0xFF, 0xFE, 0x00, 0x04, 0xFF, 0xC3]);
    assert_eq!(frame_code_of(&commented), Some(0xC0));
    let filled = with_segment(&plain, &[0x00, 0x12, 0xFF, 0xFF, 0xFF, 0xE1, 0x00, 0x02, 0xFF, 0x00]);
    assert_eq!(frame_code_of(&filled), Some(0xC0));
}

#[test]
fn frame_code_of_short_and_broken_streams() {
    assert_eq!(frame_code_of(&[]), None);
    assert_eq!(frame_code_of(&[0xFF]), None);
    assert_eq!(frame_code_of(&[0xFF, 0xD8]), None);
    assert_eq!(frame_code_of(&[0xFF, 0xC3]), None);
    assert_eq!(frame_code_of(&[0x00, 0xD8, 0xFF, 0xC0]), None);
    assert_eq!(frame_code_of(&[0xFF, 0xD8, 0xFF, 0xC0]), Some(0xC0));
    assert_eq!(frame_code_of(&[0xFF, 0xD8, 0xFF, 0xC2, 0x00]), Some(0xC2));
    assert_eq!(frame_code_of(&[0xFF, 0xD8, 0x12, 0xFF, 0xFF, 0xC3]), Some(0xC3));
    assert_eq!(frame_code_of(&[0xFF, 0xD8, 0xFF, 0x00, 0xFF, 0xCF]), Some(0xCF));
    // A marker that may not stand before the frame header ends the walk.
    assert_eq!(frame_code_of(&[0xFF, 0xD8, 0xFF, 0xDA, 0xFF, 0xC3]), None);
    assert_eq!(frame_code_of(&[0xFF, 0xD8, 0xFF, 0xD9, 0xFF, 0xC3]), None);
    assert_eq!(frame_code_of(&[0xFF, 0xD8, 0xFF, 0xC8, 0xFF, 0xC3]), None);
    assert_eq!(frame_code_of(&[0xFF, 0xD8, 0xFF, 0xCC, 0xFF, 0xC3]), None);
    assert_eq!(frame_code_of(&[0xFF, 0xD8, 0xFF, 0xD0, 0xFF, 0xC3]), None);
    // A segment is passed by its declared length.
    assert_eq!(frame_code_of(&[0xFF, 0xD8, 0xFF, 0xFE, 0x00, 0x02, 0xFF, 0xC3]), Some(0xC3));
    assert_eq!(frame_code_of(&[0xFF, 0xD8, 0xFF, 0xDB, 0x00, 0x04, 0xFF, 0xC3, 0xFF, 0xC1]), Some(0xC1));
    assert_eq!(frame_code_of(&[0xFF, 0xD8, 0xFF, 0xE0, 0x00, 0x03, 0xAA, 0xFF, 0xC5]), Some(0xC5));
    // A segment that declares too little or is cut short ends the walk.
    assert_eq!(frame_code_of(&[0xFF, 0xD8, 0xFF, 0xFE, 0x00, 0x01, 0xFF, 0xC3]), None);
    assert_eq!(frame_code_of(&[0xFF, 0xD8, 0xFF, 0xFE, 0x00, 0x09, 0xFF, 0xC3]), None);
    assert_eq!(frame_code_of(&[0xFF, 0xD8, 0xFF, 0xFE, 0x00]), None);
    assert_eq!(frame_code_of(&[0xFF, 0xD8, 0xFF, 0xFE, 0x00, 0x04, 0xFF, 0xC3]), None);
}

#[test]
fn decode_refuses_a_lossless_frame() {
    // Start of image, then a lossless frame header: precision 4, one line of
    // one sample, one component.
    let lossless = [
        0xFF, 0xD8, 0xFF, 0xC3, 0x00, 0x0B, 0x04, 0x00, 0x01, 0x00, 0x01, 0x01, 0x01, 0x11, 0x00,
        0xFF, 0xD9,
    ];
    assert_eq!(frame_code_of(&lossless), Some(0xC3));
    assert_eq!(decode(&lossless), Err(FrameError::Codec));
    assert_eq!(next_frame(Some(&lossless)).err(), Some(FrameError::Codec));
    let behind_comment = with_segment(&lossless, &[0xFF, 0xFE, 0x00, 0x04, 0x68, 0x69]);
    assert_eq!(decode(&behind_comment), Err(FrameError::Codec));
}

#[test]
fn decode_takes_a_lossless_marker_inside_a_comment() {
    let plain = grey_jpeg(8, 8, 50);
    let marked = with_segment(&plain, &[0xFF, 0xFE, 0x00, 0x04, 0xFF, 0xC3]);
    let raster = decode(&marked).unwrap();
    assert_eq!(Ok(raster), decode(&plain));
    let in_application_data =
        with_segment(&plain, &[0xFF, 0xE5, 0x00, 0x06, 0xFF, 0xC3, 0xFF, 0xCF]);
    assert_eq!(decode(&in_application_data), decode(&plain));
}

#[test]
fn decode_refuses_a_side_above_the_limit() {
    let plain = grey_jpeg(8, 8, 50);
    let at = frame_header_at(&plain);
    // Height stands in the two bytes after the precision, width after it.
    let mut tall = plain.clone();
    tall[at + 5] = 0xFF;
    tall[at + 6] = 0xF9;
    assert_eq!(decode(&tall), Err(FrameError::Codec));
    let mut wide = plain.clone();
    wide[at + 7] = 0xFF;
    wide[at + 8] = 0xFF;
    assert_eq!(decode(&wide), Err(FrameError::Codec));
    assert!(decode(&plain).is_ok());
}

#[test]
fn decoded_raster_has_the_size_of_the_header() {
    for (width, height) in [(1u32, 1u32), (3, 5), (17, 9), (64, 48)] {
        let raster = decode(&grey_jpeg(width, height, 128)).unwrap();
        assert_eq!((raster.width, raster.height), (width, height));
        assert_eq!(raster.rgba.len(), (width * height * 4) as usize);
    }
}

#[test]
fn raster_of_decoding_needs_header_and_image_to_agree() {
    let rgba = vec![5u8; 24];
    assert_eq!(
        raster_of_decoding(Some((2, 3)), Some((2, 3, rgba.clone()))),
        Ok(Raster { width: 2, height: 3, rgba: rgba.clone() })
    );
    assert_eq!(
        raster_of_decoding(Some((3, 2)), Some((2, 3, rgba.clone()))),
        Err(FrameError::Codec)
    );
    assert_eq!(
        raster_of_decoding(Some((2, 3)), Some((2, 3, vec![5u8; 23]))),
        Err(FrameError::Codec)
    );
    assert_eq!(raster_of_decoding(None, Some((2, 3, rgba.clone()))), Err(FrameError::Codec));
    assert_eq!(raster_of_decoding(Some((2, 3)), None), Err(FrameError::Codec));
    assert_eq!(raster_of_decoding(None, None), Err(FrameError::Codec));
}

#[test]
fn frame_size_is_read_from_the_header() {
    assert_eq!(frame_size(&grey_jpeg(16, 8, 200)), Some((16, 8)));
    assert_eq!(frame_size(&grey_jpeg(3, 250, 0)), Some((3, 250)));
    assert_eq!(frame_size(&[]), None);
    assert_eq!(frame_size(b"not an image"), None);
    let plain = grey_jpeg(8, 8, 50);
    let at = frame_header_at(&plain);
    let mut tall = plain.clone();
    tall[at + 5] = 0xFF;
    tall[at + 6] = 0xF9;
    assert_eq!(frame_size(&tall), Some((8, 65529)));
    assert_eq!(frame_size(&plain[..at + 4]), None);
}

#[test]
fn walk_reaches_every_header_that_the_decoder_accepts() {
    let plain = grey_jpeg(8, 8, 50);
    let end = frame_header_at(&plain) + 24;
    let values = [0x00u8, 0x01, 0x02, 0x08, 0xC0, 0xC3, 0xC4, 0xD8, 0xDA, 0xDB, 0xE0, 0xFE, 0xFF];
    let mut accepted = 0;
    for at in 0..end {
        for value in values {
            let mut changed = plain.clone();
            changed[at] = value;
            if frame_size(&changed).is_some() {
                accepted += 1;
                let code = frame_code_of(&changed);
                assert!(
                    matches!(code, Some(0xC0) | Some(0xC1) | Some(0xC2) | Some(0xC3)),
                    "byte {} set to {:#x}: {:?}",
                    at,
                    value,
                    code
                );
            }
            // Nothing that is decoded may panic, whatever comes of it.
            let _ = decode(&changed);
        }
    }
    assert!(accepted > 0);
}
