use scrubkit_core::jpeg::JpegScrubber;
use scrubkit_core::Scrubber;

const EXIF_SEGMENT: [u8; 10] = [0xFF, 0xE1, 0x00, 0x08, 0x45, 0x78, 0x69, 0x66, 0x00, 0x00];

fn jpeg(parts: &[&[u8]]) -> JpegScrubber {
    let mut bytes = vec![0xFF, 0xD8];
    for part in parts {
        bytes.extend_from_slice(part);
    }
    JpegScrubber::new(bytes).unwrap()
}

#[test]
fn segment_right_behind_the_start_marker_is_found() {
    let scrubber = jpeg(&[&EXIF_SEGMENT, &[0xFF, 0xD9]]);
    assert_eq!(scrubber.find_exif_segment(), Some((2, 10)));
}

#[test]
fn declared_length_is_read_big_endian() {
    let mut segment = vec![0xFF, 0xE1, 0x01, 0x02, 0x45, 0x78, 0x69, 0x66, 0x00, 0x00];
    segment.resize(2 + 0x0102, 0xAA);
    assert_eq!(segment.len(), 260);
    let scrubber = jpeg(&[&segment]);
    assert_eq!(scrubber.find_exif_segment(), Some((2, 260)));
}

#[test]
fn standalone_markers_are_stepped_over_by_two_bytes() {
    let scrubber = jpeg(&[&[0xFF, 0xD0], &[0xFF, 0xD7], &[0xFF, 0x01], &EXIF_SEGMENT]);
    assert_eq!(scrubber.find_exif_segment(), Some((8, 10)));
}

#[test]
fn other_segments_are_stepped_over_by_their_length() {
    // An APP0 segment of length 16, then a comment of length 4.
    let app0 = [
        0xFF, 0xE0, 0x00, 0x10, 0x4A, 0x46, 0x49, 0x46, 0x00, 0x01, 0x01, 0x00, 0x00, 0x01, 0x00,
        0x01, 0x00, 0x00,
    ];
    let comment = [0xFF, 0xFE, 0x00, 0x04, 0x68, 0x69];
    let scrubber = jpeg(&[&app0, &comment, &EXIF_SEGMENT, &[0xFF, 0xD9]]);
    assert_eq!(scrubber.find_exif_segment(), Some((26, 10)));
}

#[test]
fn start_of_scan_ends_the_walk() {
    let scrubber = jpeg(&[&[0xFF, 0xDA, 0x00, 0x02], &EXIF_SEGMENT]);
    assert_eq!(scrubber.find_exif_segment(), None);
}

#[test]
fn a_byte_that_is_no_marker_prefix_ends_the_walk() {
    let scrubber = jpeg(&[&[0x00, 0xE1, 0x00, 0x08], &EXIF_SEGMENT]);
    assert_eq!(scrubber.find_exif_segment(), None);
    // A sound segment first, then a malformed tail.
    let scrubber = jpeg(&[&[0xFF, 0xFE, 0x00, 0x02], &[0x12, 0x34, 0x56, 0x78], &EXIF_SEGMENT]);
    assert_eq!(scrubber.find_exif_segment(), None);
}

#[test]
fn a_length_under_two_ends_the_walk() {
    let scrubber = jpeg(&[&[0xFF, 0xFE, 0x00, 0x01], &EXIF_SEGMENT]);
    assert_eq!(scrubber.find_exif_segment(), None);
    let scrubber = jpeg(&[&[0xFF, 0xFE, 0x00, 0x00], &EXIF_SEGMENT]);
    assert_eq!(scrubber.find_exif_segment(), None);
}

#[test]
fn a_length_past_the_end_of_the_buffer_ends_the_walk() {
    // The segment declares nine bytes and the buffer holds eight behind the marker.
    let scrubber = jpeg(&[&[0xFF, 0xE1, 0x00, 0x09, 0x45, 0x78, 0x69, 0x66, 0x00, 0x00]]);
    assert_eq!(scrubber.find_exif_segment(), None);
    let scrubber = jpeg(&[&[0xFF, 0xE1, 0xFF, 0xFF, 0x45, 0x78, 0x69, 0x66, 0x00, 0x00]]);
    assert_eq!(scrubber.find_exif_segment(), None);
}

#[test]
fn a_segment_that_ends_with_the_buffer_is_within_it() {
    let scrubber = jpeg(&[&EXIF_SEGMENT]);
    assert_eq!(scrubber.find_exif_segment(), Some((2, 10)));
}

#[test]
fn fewer_than_four_bytes_end_the_walk() {
    assert_eq!(jpeg(&[]).find_exif_segment(), None);
    assert_eq!(jpeg(&[&[0xFF]]).find_exif_segment(), None);
    assert_eq!(jpeg(&[&[0xFF, 0xE1, 0x00]]).find_exif_segment(), None);
    assert_eq!(jpeg(&[&[0xFF, 0xD0], &[0xFF, 0xE1, 0x00]]).find_exif_segment(), None);
}

#[test]
fn an_app1_segment_shorter_than_its_identifier_is_stepped_over() {
    // Length 6: too short to hold the length field and the identifier.
    let short = [0xFF, 0xE1, 0x00, 0x06, 0x45, 0x78, 0x69, 0x66];
    let scrubber = jpeg(&[&short, &EXIF_SEGMENT]);
    assert_eq!(scrubber.find_exif_segment(), Some((10, 10)));
    // Length 7 with the identifier behind it: still no EXIF segment.
    let seven = [0xFF, 0xE1, 0x00, 0x07, 0x45, 0x78, 0x69, 0x66, 0x00, 0x00, 0x00];
    let scrubber = jpeg(&[&seven]);
    assert_eq!(scrubber.find_exif_segment(), None);
}

#[test]
fn an_app1_segment_with_another_identifier_is_stepped_over() {
    let xmp = [0xFF, 0xE1, 0x00, 0x08, 0x68, 0x74, 0x74, 0x70, 0x3A, 0x2F];
    let scrubber = jpeg(&[&xmp, &EXIF_SEGMENT]);
    assert_eq!(scrubber.find_exif_segment(), Some((12, 10)));
    let nearly = [0xFF, 0xE1, 0x00, 0x08, 0x45, 0x78, 0x69, 0x66, 0x00, 0x01];
    let scrubber = jpeg(&[&nearly]);
    assert_eq!(scrubber.find_exif_segment(), None);
}

#[test]
fn another_marker_with_the_exif_identifier_is_stepped_over() {
    let app2 = [0xFF, 0xE2, 0x00, 0x08, 0x45, 0x78, 0x69, 0x66, 0x00, 0x00];
    let scrubber = jpeg(&[&app2, &[0xFF, 0xD9]]);
    assert_eq!(scrubber.find_exif_segment(), None);
}

#[test]
fn end_of_image_marker_is_read_as_a_segment() {
    let scrubber = jpeg(&[&[0xFF, 0xD9, 0x00, 0x02], &EXIF_SEGMENT]);
    assert_eq!(scrubber.find_exif_segment(), Some((6, 10)));
}

#[test]
fn the_first_of_two_segments_is_the_one_found() {
    let scrubber = jpeg(&[&EXIF_SEGMENT, &EXIF_SEGMENT]);
    assert_eq!(scrubber.find_exif_segment(), Some((2, 10)));
}

#[test]
fn scrub_takes_out_the_span_and_nothing_else() {
    let before = [0xFF, 0xFE, 0x00, 0x04, 0x68, 0x69];
    let after = [0xFF, 0xDB, 0x00, 0x03, 0x07, 0xFF, 0xD9];
    // The segment declares twelve bytes: the length field, the identifier
    // and four more.
    let mut segment = vec![0xFF, 0xE1, 0x00, 0x0C, 0x45, 0x78, 0x69, 0x66, 0x00, 0x00];
    segment.extend_from_slice(&[0x11, 0x22, 0x33, 0x44]);
    let scrubber = jpeg(&[&before, &segment, &after]);
    assert_eq!(scrubber.find_exif_segment(), Some((8, 14)));
    let result = scrubber.scrub().unwrap();
    let mut expected = vec![0xFF, 0xD8];
    expected.extend_from_slice(&before);
    expected.extend_from_slice(&after);
    assert_eq!(result.cleaned_file_bytes, expected);
}

#[test]
fn scrub_takes_out_only_the_first_segment() {
    let comment = [0xFF, 0xFE, 0x00, 0x04, 0x68, 0x69];
    let scrubber = jpeg(&[&EXIF_SEGMENT, &comment, &EXIF_SEGMENT, &[0xFF, 0xD9]]);
    let result = scrubber.scrub().unwrap();
    let mut expected = vec![0xFF, 0xD8];
    expected.extend_from_slice(&comment);
    expected.extend_from_slice(&EXIF_SEGMENT);
    expected.extend_from_slice(&[0xFF, 0xD9]);
    assert_eq!(result.cleaned_file_bytes, expected);
}

#[test]
fn the_second_segment_is_found_where_it_moved_to() {
    let comment = [0xFF, 0xFE, 0x00, 0x04, 0x68, 0x69];
    let scrubber = jpeg(&[&comment, &EXIF_SEGMENT, &comment, &EXIF_SEGMENT, &[0xFF, 0xD9]]);
    assert_eq!(scrubber.find_exif_segment(), Some((8, 10)));
    let once = scrubber.scrub().unwrap().cleaned_file_bytes;
    let scrubber = JpegScrubber::new(once).unwrap();
    // The second segment stood at offset 24, ten bytes further on.
    assert_eq!(scrubber.find_exif_segment(), Some((14, 10)));
    let twice = scrubber.scrub().unwrap().cleaned_file_bytes;
    let scrubber = JpegScrubber::new(twice.clone()).unwrap();
    assert_eq!(scrubber.find_exif_segment(), None);
    assert_eq!(scrubber.scrub().unwrap().cleaned_file_bytes, twice);
}

#[test]
fn a_single_segment_is_gone_after_one_scrub() {
    let comment = [0xFF, 0xFE, 0x00, 0x04, 0x68, 0x69];
    let scrubber = jpeg(&[&[0xFF, 0xD0], &comment, &EXIF_SEGMENT, &comment, &[0xFF, 0xD9]]);
    let once = scrubber.scrub().unwrap().cleaned_file_bytes;
    let scrubber = JpegScrubber::new(once.clone()).unwrap();
    assert_eq!(scrubber.find_exif_segment(), None);
    assert_eq!(scrubber.scrub().unwrap().cleaned_file_bytes, once);
}

#[test]
fn scrub_copies_a_file_without_a_segment() {
    let scrubber = jpeg(&[&[0xFF, 0xFE, 0x00, 0x04, 0x68, 0x69], &[0xFF, 0xD9]]);
    let result = scrubber.scrub().unwrap();
    assert_eq!(
        result.cleaned_file_bytes,
        vec![0xFF, 0xD8, 0xFF, 0xFE, 0x00, 0x04, 0x68, 0x69, 0xFF, 0xD9]
    );
    assert!(result.metadata_removed.is_empty());
}

#[test]
fn scrub_copies_a_file_with_a_malformed_tail() {
    let bytes = vec![0xFF, 0xD8, 0xFF, 0xE1, 0xFF, 0xF0, 0x45, 0x78, 0x69, 0x66, 0x00, 0x00];
    let result = JpegScrubber::new(bytes.clone()).unwrap().scrub().unwrap();
    assert_eq!(result.cleaned_file_bytes, bytes);
}

#[test]
fn scrub_takes_out_a_segment_that_the_decoder_makes_nothing_of() {
    // The segment holds the identifier and no tag: viewing finds nothing,
    // and the walk finds the segment all the same.
    let scrubber = jpeg(&[&EXIF_SEGMENT, &[0xFF, 0xD9]]);
    assert!(scrubber.view_metadata().unwrap().is_empty());
    let result = scrubber.scrub().unwrap();
    assert!(result.metadata_removed.is_empty());
    assert_eq!(result.cleaned_file_bytes, vec![0xFF, 0xD8, 0xFF, 0xD9]);
}

#[test]
fn scrub_gives_the_same_result_each_time() {
    let scrubber = jpeg(&[&EXIF_SEGMENT, &[0xFF, 0xD9]]);
    let first = scrubber.scrub().unwrap();
    let second = scrubber.scrub().unwrap();
    assert_eq!(first.cleaned_file_bytes, second.cleaned_file_bytes);
    assert_eq!(first.metadata_removed, second.metadata_removed);
}
