//! What holds of every scrub of a JPEG file, and of the walk over the marker
//! stream once the EXIF segment has been taken out.

use crate::error::ScrubErrorView;
use crate::jpeg::{
    declared_length, exif_segment, has_jpeg_signature, is_exif_segment, is_standalone_marker,
    lemma_scan_finds_exif_segment, scan_from, without_exif, without_span, JpegScrubber,
    MARKER_PREFIX, START_OF_SCAN,
};
use crate::model::{MetadataEntryView, ScrubResultView};
use crate::scrubber::Scrubber;
use vstd::prelude::*;

verus! {

/// A scrub never makes a file longer, and makes it shorter by the span of
/// the EXIF segment wherever the walk finds one.
pub proof fn lemma_scrub_never_grows(bytes: Seq<u8>)
    ensures
        JpegScrubber::scrubbed(bytes) matches Ok(result) ==> {
            &&& result.cleaned_file_bytes.len() <= bytes.len()
            &&& exif_segment(bytes) is Some ==> result.cleaned_file_bytes.len() < bytes.len()
            &&& exif_segment(bytes) matches Some((start, length))
                ==> result.cleaned_file_bytes.len() == bytes.len() - length
        },
{
    lemma_scan_finds_exif_segment(bytes, 2);
}

/// A file that opens with the start-of-image marker still does so with its
/// EXIF segment taken out.
pub proof fn lemma_scrub_keeps_signature(bytes: Seq<u8>)
    requires
        has_jpeg_signature(bytes),
    ensures
        has_jpeg_signature(without_exif(bytes)),
{
    lemma_scan_finds_exif_segment(bytes, 2);
}

/// A file that shows no metadata and holds no EXIF segment comes out of a
/// scrub byte for byte as it went in, with nothing reported as removed.
pub proof fn lemma_clean_file_is_left_alone(bytes: Seq<u8>)
    requires
        JpegScrubber::metadata(bytes) == Ok::<Seq<MetadataEntryView>, ScrubErrorView>(Seq::empty()),
        exif_segment(bytes) is None,
    ensures
        JpegScrubber::scrubbed(bytes) == Ok::<ScrubResultView, ScrubErrorView>(
            ScrubResultView { cleaned_file_bytes: bytes, metadata_removed: Seq::empty() },
        ),
{
}

/// A span that the walk found, moved `by` bytes towards the start of the file.
pub open spec fn moved_back(found: Option<(int, int)>, by: int) -> Option<(int, int)> {
    match found {
        Some((start, length)) => Some((start - by, length)),
        None => None,
    }
}

/// Behind a span that was taken out, the walk goes on as it would have gone
/// on behind the span in the file as it was, `length` bytes earlier.
pub proof fn lemma_walk_behind_the_gap(bytes: Seq<u8>, start: int, length: int, at: int)
    requires
        0 <= start <= at,
        0 <= length,
        start + length <= bytes.len(),
    ensures
        scan_from(without_span(bytes, start, length), at) == moved_back(
            scan_from(bytes, at + length),
            length,
        ),
    decreases bytes.len() - at,
{
    let cut = without_span(bytes, start, length);
    assert(cut.len() == bytes.len() - length);
    assert forall|k: int| start <= k < cut.len() implies cut[k] == bytes[k + length] by {}
    if at + 4 > cut.len() {
    } else if cut[at] != MARKER_PREFIX {
    } else if is_standalone_marker(cut[at + 1]) {
        lemma_walk_behind_the_gap(bytes, start, length, at + 2);
    } else if cut[at + 1] == START_OF_SCAN {
    } else {
        let declared = declared_length(cut, at);
        assert(declared == declared_length(bytes, at + length));
        if declared < 2 || at + 2 + declared > cut.len() {
        } else {
            if declared >= 8 {
                assert(cut.subrange(at + 4, at + 10) =~= bytes.subrange(
                    at + length + 4,
                    at + length + 10,
                ));
            }
            assert(is_exif_segment(cut, at) == is_exif_segment(bytes, at + length));
            if !is_exif_segment(cut, at) {
                lemma_walk_behind_the_gap(bytes, start, length, at + 2 + declared);
            }
        }
    }
}

/// Before a span that holds the first EXIF segment, the walk over the file
/// without the span goes the way it went over the file as it was, and then
/// goes on behind the gap.
pub proof fn lemma_walk_up_to_the_gap(bytes: Seq<u8>, start: int, length: int, at: int)
    requires
        0 <= at,
        scan_from(bytes, at) == Some((start, length)),
    ensures
        scan_from(without_span(bytes, start, length), at) == moved_back(
            scan_from(bytes, start + length),
            length,
        ),
    decreases bytes.len() - at,
{
    lemma_scan_finds_exif_segment(bytes, at);
    let cut = without_span(bytes, start, length);
    assert(cut.len() == bytes.len() - length);
    assert forall|k: int| 0 <= k < start implies cut[k] == bytes[k] by {}
    if at == start {
        lemma_walk_behind_the_gap(bytes, start, length, at);
    } else if is_standalone_marker(bytes[at + 1]) {
        lemma_scan_finds_exif_segment(bytes, at + 2);
        if at + 4 > cut.len() {
            assert(start + length + 4 > bytes.len());
        } else {
            lemma_walk_up_to_the_gap(bytes, start, length, at + 2);
        }
    } else {
        let declared = declared_length(bytes, at);
        lemma_scan_finds_exif_segment(bytes, at + 2 + declared);
        assert(at + 2 + declared <= start);
        assert(declared_length(cut, at) == declared);
        if declared >= 8 {
            assert(cut.subrange(at + 4, at + 10) =~= bytes.subrange(at + 4, at + 10));
        }
        assert(is_exif_segment(cut, at) == is_exif_segment(bytes, at));
        lemma_walk_up_to_the_gap(bytes, start, length, at + 2 + declared);
    }
}

/// The walk over a scrubbed file finds what the walk over the file as it
/// was finds behind the segment that was taken out.
pub proof fn lemma_walk_after_scrub(bytes: Seq<u8>)
    ensures
        exif_segment(bytes) matches Some((start, length)) ==> exif_segment(without_exif(bytes))
            == moved_back(scan_from(bytes, start + length), length),
{
    match exif_segment(bytes) {
        Some((start, length)) => {
            lemma_walk_up_to_the_gap(bytes, start, length, 2);
        },
        None => {},
    }
}

/// Where the walk finds no second EXIF segment behind the first, it finds
/// none in the scrubbed file, and a second scrub changes nothing.
pub proof fn lemma_single_segment_is_gone(bytes: Seq<u8>)
    requires
        exif_segment(bytes) matches Some((start, length)) && scan_from(bytes, start + length)
            is None,
    ensures
        exif_segment(without_exif(bytes)) is None,
        without_exif(without_exif(bytes)) == without_exif(bytes),
{
    lemma_walk_after_scrub(bytes);
}

} // verus!
