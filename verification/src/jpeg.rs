//! The engine for JPEG files: a walk over the marker segments that precede
//! the image data, and the removal of the segment that carries EXIF.

use crate::error::{ScrubError, ScrubErrorView};
use crate::exif::{decode_exif, entries_from_decoding, exif_decoding, metadata_of_decoding};
use crate::model::{
    metadata_outcome, scrub_outcome, MetadataEntry, MetadataEntryView, ScrubResult,
    ScrubResultView,
};
use crate::scrubber::Scrubber;
use vstd::prelude::*;
use vstd::slice::slice_subrange;

verus! {

/// The first byte of every marker.
pub const MARKER_PREFIX: u8 = 0xFF;

/// The marker that opens a JPEG file.
pub const START_OF_IMAGE: u8 = 0xD8;

/// The marker that opens the entropy-coded image data.
pub const START_OF_SCAN: u8 = 0xDA;

/// The marker of an APP1 segment, which may carry EXIF.
pub const APP1: u8 = 0xE1;

/// Whether `bytes` opens with the start-of-image marker.
pub open spec fn has_jpeg_signature(bytes: Seq<u8>) -> bool {
    bytes.len() >= 2 && bytes[0] == MARKER_PREFIX && bytes[1] == START_OF_IMAGE
}

/// Whether a marker stands alone, with neither a length field nor a payload
/// behind it: the restart markers and TEM.
pub open spec fn is_standalone_marker(marker: u8) -> bool {
    (0xD0 <= marker <= 0xD7) || marker == 0x01
}

/// The length that the segment at `at` declares: the two bytes behind the
/// marker, read as a big-endian number. It counts the length field itself.
pub open spec fn declared_length(bytes: Seq<u8>, at: int) -> int {
    bytes[at + 2] as int * 256 + bytes[at + 3] as int
}

/// The six bytes that open the payload of an EXIF segment: `Exif` and two
/// zero bytes.
pub open spec fn exif_identifier() -> Seq<u8> {
    seq![0x45u8, 0x78u8, 0x69u8, 0x66u8, 0x00u8, 0x00u8]
}

/// Whether the segment at `at` is an APP1 segment whose payload opens with
/// the EXIF identifier.
pub open spec fn is_exif_segment(bytes: Seq<u8>, at: int) -> bool {
    &&& bytes[at + 1] == APP1
    &&& declared_length(bytes, at) >= 8
    &&& bytes.subrange(at + 4, at + 10) == exif_identifier()
}

/// The walk over the marker stream from offset `at` on: the offset of the
/// first EXIF segment and the number of bytes that it spans, marker and
/// length field included; or `None` where the walk ends before it finds
/// one. The walk ends where fewer than four bytes are left, at a byte that
/// is no marker prefix, at the start-of-scan marker, and at a segment whose
/// declared length is under two or reaches past the buffer.
pub open spec fn scan_from(bytes: Seq<u8>, at: int) -> Option<(int, int)>
    decreases bytes.len() - at,
{
    if at < 0 || at + 4 > bytes.len() {
        None
    } else if bytes[at] != MARKER_PREFIX {
        None
    } else if is_standalone_marker(bytes[at + 1]) {
        scan_from(bytes, at + 2)
    } else if bytes[at + 1] == START_OF_SCAN {
        None
    } else {
        let length = declared_length(bytes, at);
        if length < 2 || at + 2 + length > bytes.len() {
            None
        } else if is_exif_segment(bytes, at) {
            Some((at, 2 + length))
        } else {
            scan_from(bytes, at + 2 + length)
        }
    }
}

/// The EXIF segment of a JPEG file: where its marker starts, and how many
/// bytes the marker, the length field and the payload span together.
pub open spec fn exif_segment(bytes: Seq<u8>) -> Option<(int, int)> {
    scan_from(bytes, 2)
}

/// `bytes` with the `length` bytes from `start` on taken out.
pub open spec fn without_span(bytes: Seq<u8>, start: int, length: int) -> Seq<u8> {
    bytes.subrange(0, start) + bytes.subrange(start + length, bytes.len() as int)
}

/// A file with its EXIF segment taken out, or the file itself where it has none.
pub open spec fn without_exif(bytes: Seq<u8>) -> Seq<u8> {
    match exif_segment(bytes) {
        Some((start, length)) => without_span(bytes, start, length),
        None => bytes,
    }
}

/// A scrubber for JPEG files.
#[derive(Debug)]
pub struct JpegScrubber {
    file_bytes: Vec<u8>,
}

impl JpegScrubber {
    #[verifier::type_invariant]
    spec fn opens_with_signature(&self) -> bool {
        has_jpeg_signature(self.file_bytes@)
    }

    /// Finds the EXIF segment in the marker stream: its offset and the
    /// number of bytes it spans.
    pub fn find_exif_segment(&self) -> (r: Option<(usize, usize)>)
        ensures
            has_jpeg_signature(self.file_bytes()),
            match r {
                Some((start, length)) => exif_segment(self.file_bytes()) == Some(
                    (start as int, length as int),
                ),
                None => exif_segment(self.file_bytes()) is None,
            },
    {
        proof {
            use_type_invariant(self);
        }
        let len = self.file_bytes.len();
        let mut offset: usize = 2;
        while len - offset >= 4
            invariant
                len == self.file_bytes@.len(),
                has_jpeg_signature(self.file_bytes@),
                2 <= offset <= len,
                scan_from(self.file_bytes@, offset as int) == exif_segment(self.file_bytes@),
            decreases len - offset,
        {
            if self.file_bytes[offset] != MARKER_PREFIX {
                return None;
            }
            let marker = self.file_bytes[offset + 1];
            if (0xD0 <= marker && marker <= 0xD7) || marker == 0x01 {
                offset += 2;
                continue;
            }
            if marker == START_OF_SCAN {
                return None;
            }
            let length: usize = (self.file_bytes[offset + 2] as usize) * 256
                + (self.file_bytes[offset + 3] as usize);
            if length < 2 || length > len - offset - 2 {
                return None;
            }
            if marker == APP1 && length >= 8 && self.has_exif_identifier_at(offset + 4) {
                return Some((offset, 2 + length));
            }
            offset += 2 + length;
        }
        None
    }

    /// Whether the six bytes from `at` on are the EXIF identifier.
    fn has_exif_identifier_at(&self, at: usize) -> (r: bool)
        requires
            at + 6 <= self.file_bytes().len(),
        ensures
            r == (self.file_bytes().subrange(at as int, at + 6) == exif_identifier()),
    {
        let b = &self.file_bytes;
        assert(at + 6 <= b.len());
        let r = b[at] == 0x45 && b[at + 1] == 0x78 && b[at + 2] == 0x69 && b[at + 3] == 0x66
            && b[at + 4] == 0x00 && b[at + 5] == 0x00;
        proof {
            let window = self.file_bytes@.subrange(at as int, at + 6);
            if r {
                assert(window =~= exif_identifier());
            } else {
                assert(window[0] == b[at as int]);
                assert(window[1] == b[at + 1]);
                assert(window[2] == b[at + 2]);
                assert(window[3] == b[at + 3]);
                assert(window[4] == b[at + 4]);
                assert(window[5] == b[at + 5]);
            }
        }
        r
    }
}

/// What the walk finds is an EXIF segment that lies within the buffer, at or
/// behind the offset where the walk began.
pub proof fn lemma_scan_finds_exif_segment(bytes: Seq<u8>, at: int)
    ensures
        scan_from(bytes, at) matches Some((start, length)) ==> {
            &&& 0 <= at <= start
            &&& bytes[start] == MARKER_PREFIX
            &&& is_exif_segment(bytes, start)
            &&& length == 2 + declared_length(bytes, start)
            &&& 10 <= length
            &&& start + length <= bytes.len()
        },
    decreases bytes.len() - at,
{
    if at < 0 || at + 4 > bytes.len() {
    } else if bytes[at] != MARKER_PREFIX {
    } else if is_standalone_marker(bytes[at + 1]) {
        lemma_scan_finds_exif_segment(bytes, at + 2);
    } else if bytes[at + 1] == START_OF_SCAN {
    } else {
        let length = declared_length(bytes, at);
        if length < 2 || at + 2 + length > bytes.len() {
        } else if is_exif_segment(bytes, at) {
        } else {
            lemma_scan_finds_exif_segment(bytes, at + 2 + length);
        }
    }
}

impl Clone for JpegScrubber {
    fn clone(&self) -> (r: JpegScrubber)
        ensures
            r.file_bytes() == self.file_bytes(),
    {
        proof {
            use_type_invariant(self);
        }
        JpegScrubber { file_bytes: self.file_bytes.clone() }
    }
}

impl Scrubber for JpegScrubber {
    closed spec fn file_bytes(&self) -> Seq<u8> {
        self.file_bytes@
    }

    open spec fn accepts(bytes: Seq<u8>) -> bool {
        has_jpeg_signature(bytes)
    }

    open spec fn metadata(bytes: Seq<u8>) -> Result<Seq<MetadataEntryView>, ScrubErrorView> {
        metadata_of_decoding(exif_decoding(bytes))
    }

    open spec fn scrubbed(bytes: Seq<u8>) -> Result<ScrubResultView, ScrubErrorView> {
        match Self::metadata(bytes) {
            Ok(entries) => Ok(
                ScrubResultView {
                    cleaned_file_bytes: without_exif(bytes),
                    metadata_removed: entries,
                },
            ),
            Err(e) => Err(e),
        }
    }

    proof fn lemma_scrub_reports_metadata(bytes: Seq<u8>) {
    }

    proof fn lemma_failures_are_parsing_errors(bytes: Seq<u8>) {
    }

    /// Accepts a file that opens with the start-of-image marker.
    fn new(file_bytes: Vec<u8>) -> (r: Result<JpegScrubber, ScrubError>)
        ensures
            r matches Err(e) ==> e@ == ScrubErrorView::UnsupportedFileType(
                "Not a valid JPEG file"@,
            ),
    {
        if file_bytes.len() < 2 || file_bytes[0] != MARKER_PREFIX || file_bytes[1]
            != START_OF_IMAGE {
            return Err(ScrubError::UnsupportedFileType("Not a valid JPEG file".to_owned()));
        }
        Ok(JpegScrubber { file_bytes })
    }

    /// Lists the tags that the EXIF decoder finds in the file. A file in
    /// which it finds no EXIF has no metadata.
    fn view_metadata(&self) -> (r: Result<Vec<MetadataEntry>, ScrubError>)
        ensures
            has_jpeg_signature(self.file_bytes()),
    {
        proof {
            use_type_invariant(self);
        }
        let decoding = decode_exif(&self.file_bytes);
        entries_from_decoding(&decoding)
    }

    /// Lists the metadata, and copies the file without its EXIF segment.
    /// Only the first such segment is taken out.
    fn scrub(&self) -> (r: Result<ScrubResult, ScrubError>)
        ensures
            has_jpeg_signature(self.file_bytes()),
            r matches Ok(result) ==> has_jpeg_signature(result.cleaned_file_bytes@),
            r matches Ok(result) ==> result.cleaned_file_bytes@.len() <= self.file_bytes().len(),
            r matches Ok(result) ==> (exif_segment(self.file_bytes()) is None
                <==> result.cleaned_file_bytes@ == self.file_bytes()),
    {
        let metadata_removed = match self.view_metadata() {
            Ok(entries) => entries,
            Err(e) => {
                return Err(e);
            },
        };
        proof {
            lemma_scan_finds_exif_segment(self.file_bytes@, 2);
        }
        let cleaned_file_bytes = match self.find_exif_segment() {
            Some((start, length)) => {
                let mut cleaned: Vec<u8> = Vec::new();
                let bytes = self.file_bytes.as_slice();
                assert(start + length <= bytes.len());
                cleaned.extend_from_slice(slice_subrange(bytes, 0, start));
                cleaned.extend_from_slice(slice_subrange(bytes, start + length, bytes.len()));
                assert(cleaned@ =~= without_span(self.file_bytes@, start as int, length as int));
                cleaned
            },
            None => self.file_bytes.clone(),
        };
        Ok(ScrubResult { cleaned_file_bytes, metadata_removed })
    }
}

} // verus!
