use scrubkit_core::jpeg::JpegScrubber;
use scrubkit_core::png::PngScrubber;
use scrubkit_core::{MetadataEntry, Scrubber};

const TEST_JPEG_WITH_EXIF: &[u8] = &[
    0xFF, 0xD8, 0xFF, 0xE1, 0x00, 0x4A, 0x45, 0x78, 0x69, 0x66, 0x00, 0x00, 0x4D, 0x4D, 0x00,
    0x2A, 0x00, 0x00, 0x00, 0x08, 0x00, 0x02, 0x01, 0x0F, 0x00, 0x02, 0x00, 0x00, 0x00, 0x0D,
    0x00, 0x00, 0x00, 0x1A, 0x01, 0x10, 0x00, 0x02, 0x00, 0x00, 0x00, 0x0C, 0x00, 0x00, 0x00,
    0x28, 0x00, 0x00, 0x00, 0x00, 0x54, 0x65, 0x73, 0x74, 0x20, 0x43, 0x61, 0x6D, 0x65, 0x72,
    0x61, 0x00, 0x54, 0x65, 0x73, 0x74, 0x20, 0x4D, 0x6F, 0x64, 0x65, 0x6C, 0x00, 0xFF, 0xDB,
    0x00, 0x43, 0x00, 0x01, 0x01, 0x01, 0x01, 0x01, 0x01, 0x01, 0x01, 0x01, 0x01, 0x01, 0x01,
    0x01, 0x01, 0x01, 0x01, 0x01, 0x01, 0x01, 0x01, 0x01, 0x01, 0x01, 0x01, 0x01, 0x01, 0x01,
    0x01, 0x01, 0x01, 0x01, 0x01, 0x01, 0x01, 0x01, 0x01, 0x01, 0x01, 0x01, 0x01, 0x01, 0x01,
    0x01, 0x01, 0x01, 0x01, 0x01, 0x01, 0x01, 0x01, 0x01, 0x01, 0x01, 0x01, 0x01, 0x01, 0x01,
    0x01, 0x01, 0x01, 0x01, 0xFF, 0xC0, 0x00, 0x11, 0x08, 0x00, 0x01, 0x00, 0x01, 0x03, 0x01,
    0x22, 0x00, 0x02, 0x11, 0x01, 0x03, 0x11, 0x01, 0xFF, 0xC4, 0x00, 0x1F, 0x00, 0x00, 0x01,
    0x05, 0x01, 0x01, 0x01, 0x01, 0x01, 0x01, 0x00, 0x00, 0x00, 0x00, 0x00, 0x00, 0x00, 0x00,
    0x01, 0x02, 0x03, 0x04, 0x05, 0x06, 0x07, 0x08, 0x09, 0x0A, 0x0B, 0xFF, 0xDA, 0x00, 0x0C,
    0x03, 0x01, 0x00, 0x02, 0x11, 0x03, 0x11, 0x00, 0x3F, 0x00, 0xF7, 0xC8, 0xFF, 0xD9,
];

const TEST_JPEG_WITHOUT_EXIF: &[u8] = &[
    0xFF, 0xD8, 0x43, 0x00, 0x01, 0x01, 0x01, 0x01, 0x01, 0x01, 0x01, 0x01, 0x01, 0x01, 0x01,
    0x01, 0x01, 0x01, 0x01, 0x01, 0x01, 0x01, 0x01, 0x01, 0x01, 0x01, 0x01, 0x01, 0x01, 0x01,
    0x01, 0x01, 0x01, 0x01, 0x01, 0x01, 0x01, 0x01, 0x01, 0x01, 0x01, 0x01, 0x01, 0x01, 0x01,
    0x01, 0x01, 0x01, 0x01, 0x01, 0x01, 0x01, 0x01, 0x01, 0x01, 0x01, 0x01, 0x01, 0x01, 0x01,
    0x01, 0x01, 0x01, 0x01, 0x01, 0xFF, 0xC0, 0x00, 0x11, 0x08, 0x00, 0x01, 0x00, 0x01, 0x03,
    0x01, 0x22, 0x00, 0x02, 0x11, 0x01, 0x03, 0x11, 0x01, 0xFF, 0xC4, 0x00, 0x1F, 0x00, 0x00,
    0x01, 0x05, 0x01, 0x01, 0x01, 0x01, 0x01, 0x01, 0x00, 0x00, 0x00, 0x00, 0x00, 0x00, 0x00,
    0x00, 0x01, 0x02, 0x03, 0x04, 0x05, 0x06, 0x07, 0x08, 0x09, 0x0A, 0x0B, 0xFF, 0xDA, 0x00,
    0x0C, 0x03, 0x01, 0x00, 0x02, 0x11, 0x03, 0x11, 0x00, 0x3F, 0x00, 0xF7, 0xC8, 0xFF, 0xD9,
];

const TEST_PNG_WITH_METADATA: &[u8] = &[
    137, 80, 78, 71, 13, 10, 26, 10, 0, 0, 0, 13, 73, 72, 68, 82,
    0, 0, 0, 1, 0, 0, 0, 1, 8, 6, 0, 0, 0, 31, 21, 196,
    137, 0, 0, 0, 22, 116, 69, 88, 116, 65, 117, 116, 104, 111, 114, 0,
    83, 99, 114, 117, 98, 75, 105, 116, 32, 84, 101, 115, 116, 101, 114, 12,
    145, 122, 29, 0, 0, 0, 13, 73, 68, 65, 84, 120, 218, 99, 248, 207,
    192, 240, 31, 0, 5, 0, 1, 255, 86, 199, 47, 13, 0, 0, 0, 0,
    73, 69, 78, 68, 174, 66, 96, 130,
];

const TEST_PNG_WITHOUT_METADATA: &[u8] = &[
    137, 80, 78, 71, 13, 10, 26, 10, 0, 0, 0, 13, 73, 72, 68, 82,
    0, 0, 0, 1, 0, 0, 0, 1, 8, 6, 0, 0, 0, 31, 21, 196,
    137, 0, 0, 0, 13, 73, 68, 65, 84, 120, 218, 99, 248, 207, 192, 240,
    31, 0, 5, 0, 1, 255, 86, 199, 47, 13, 0, 0, 0, 0, 73, 69,
    78, 68, 174, 66, 96, 130,
];

#[test]
fn scenario_segment_engine() {
    assert_eq!(TEST_JPEG_WITH_EXIF.len(), 209);
    assert_eq!(
        &TEST_JPEG_WITH_EXIF[..12],
        &[0xFF, 0xD8, 0xFF, 0xE1, 0x00, 0x4A, 0x45, 0x78, 0x69, 0x66, 0x00, 0x00]
    );
    let scrubber = JpegScrubber::new(TEST_JPEG_WITH_EXIF.to_vec()).unwrap();
    // The segment declares 74 bytes behind its marker.
    assert_eq!(scrubber.find_exif_segment(), Some((2, 76)));
    let metadata = scrubber.view_metadata().unwrap();
    assert_eq!(
        metadata,
        vec![
            MetadataEntry {
                key: "Make".to_string(),
                value: "\u{c}".to_string(),
                category: "IFD0".to_string(),
            },
            MetadataEntry {
                key: "Model".to_string(),
                value: "st Camera".to_string(),
                category: "IFD0".to_string(),
            },
        ]
    );
    let result = scrubber.scrub().unwrap();
    assert_eq!(result.cleaned_file_bytes.len(), 133);
    assert_eq!(&result.cleaned_file_bytes[..2], &[0xFF, 0xD8]);
    assert_eq!(&result.cleaned_file_bytes[2..], &TEST_JPEG_WITH_EXIF[78..]);
    assert!(result.metadata_removed.len() >= 1);
    assert_eq!(result.metadata_removed, metadata);
}

#[test]
fn scenario_chunk_engine() {
    let scrubber = PngScrubber::new(TEST_PNG_WITH_METADATA.to_vec()).unwrap();
    let metadata = scrubber.view_metadata().unwrap();
    assert_eq!(
        metadata,
        vec![MetadataEntry {
            key: "Author".to_string(),
            value: "ScrubKit Tester".to_string(),
            category: "text chunk".to_string(),
        }]
    );
    let result = scrubber.scrub().unwrap();
    assert_eq!(result.metadata_removed, metadata);
    // Decoded anew, the cleaned file holds no textual chunk of any kind.
    let reader = png::Decoder::new(std::io::Cursor::new(&result.cleaned_file_bytes))
        .read_info()
        .unwrap();
    assert!(reader.info().uncompressed_latin1_text.is_empty());
    assert!(reader.info().compressed_latin1_text.is_empty());
    assert!(reader.info().utf8_text.is_empty());
}

#[test]
fn scenario_chunk_engine_without_text() {
    let scrubber = PngScrubber::new(TEST_PNG_WITHOUT_METADATA.to_vec()).unwrap();
    assert!(scrubber.view_metadata().unwrap().is_empty());
    let result = scrubber.scrub().unwrap();
    assert_eq!(result.cleaned_file_bytes, TEST_PNG_WITHOUT_METADATA);
    assert!(result.metadata_removed.is_empty());
}

#[test]
fn no_metadata_survives_a_scrub_of_the_jpeg() {
    let scrubber = JpegScrubber::new(TEST_JPEG_WITH_EXIF.to_vec()).unwrap();
    let cleaned = scrubber.scrub().unwrap().cleaned_file_bytes;
    let again = JpegScrubber::new(cleaned.clone()).unwrap();
    assert!(again.view_metadata().unwrap().is_empty());
    assert_eq!(again.find_exif_segment(), None);
    // A second scrub changes nothing more.
    let second = again.scrub().unwrap();
    assert_eq!(second.cleaned_file_bytes, cleaned);
    assert!(second.metadata_removed.is_empty());
}

#[test]
fn no_metadata_survives_a_scrub_of_the_png() {
    let scrubber = PngScrubber::new(TEST_PNG_WITH_METADATA.to_vec()).unwrap();
    let cleaned = scrubber.scrub().unwrap().cleaned_file_bytes;
    let again = PngScrubber::new(cleaned.clone()).unwrap();
    assert!(again.view_metadata().unwrap().is_empty());
    let second = again.scrub().unwrap();
    assert_eq!(second.cleaned_file_bytes, cleaned);
    assert!(second.metadata_removed.is_empty());
}

#[test]
fn a_jpeg_without_metadata_is_copied_byte_for_byte() {
    let scrubber = JpegScrubber::new(TEST_JPEG_WITHOUT_EXIF.to_vec()).unwrap();
    assert!(scrubber.view_metadata().unwrap().is_empty());
    assert_eq!(scrubber.find_exif_segment(), None);
    let result = scrubber.scrub().unwrap();
    assert_eq!(result.cleaned_file_bytes, TEST_JPEG_WITHOUT_EXIF);
    assert!(result.metadata_removed.is_empty());
}

#[test]
fn a_scrubbed_jpeg_is_shorter_by_the_span_of_its_segment() {
    let scrubber = JpegScrubber::new(TEST_JPEG_WITH_EXIF.to_vec()).unwrap();
    let result = scrubber.scrub().unwrap();
    assert!(!result.metadata_removed.is_empty());
    assert!(result.cleaned_file_bytes.len() < TEST_JPEG_WITH_EXIF.len());
    assert_eq!(result.cleaned_file_bytes.len(), TEST_JPEG_WITH_EXIF.len() - 76);
}

#[test]
fn scrubbing_leaves_the_scrubber_as_it_was() {
    let scrubber = JpegScrubber::new(TEST_JPEG_WITH_EXIF.to_vec()).unwrap();
    let before = scrubber.view_metadata().unwrap();
    let first = scrubber.scrub().unwrap();
    let second = scrubber.scrub().unwrap();
    assert_eq!(first.cleaned_file_bytes, second.cleaned_file_bytes);
    assert_eq!(first.metadata_removed, second.metadata_removed);
    assert_eq!(scrubber.view_metadata().unwrap(), before);

    let scrubber = PngScrubber::new(TEST_PNG_WITH_METADATA.to_vec()).unwrap();
    let first = scrubber.scrub().unwrap();
    let second = scrubber.scrub().unwrap();
    assert_eq!(first.cleaned_file_bytes, second.cleaned_file_bytes);
    assert_eq!(first.metadata_removed, second.metadata_removed);
}
