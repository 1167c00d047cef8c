//! Recognition of the format of a file by its leading bytes, and the
//! scrubber for whichever format it has.

use crate::error::{ScrubError, ScrubErrorView};
use crate::jpeg::{has_jpeg_signature, JpegScrubber, MARKER_PREFIX, START_OF_IMAGE};
use crate::model::{
    metadata_outcome, scrub_outcome, MetadataEntry, MetadataEntryView, ScrubResult,
    ScrubResultView,
};
use crate::png::{has_png_signature, png_signature, starts_with_png_signature, PngScrubber};
use crate::scrubber::Scrubber;
use vstd::prelude::*;

verus! {

/// A file format that has an engine.
#[derive(Debug, Clone, Copy, PartialEq, Eq, Structural)]
pub enum FileKind {
    Png,
    Jpeg,
}

/// The format that the leading bytes of a file announce. A file must hold
/// at least one byte beyond its signature. The PNG signature is looked for
/// first.
pub open spec fn kind_of(bytes: Seq<u8>) -> Option<FileKind> {
    if bytes.len() > 8 && has_png_signature(bytes) {
        Some(FileKind::Png)
    } else if bytes.len() > 2 && has_jpeg_signature(bytes) {
        Some(FileKind::Jpeg)
    } else {
        None
    }
}

/// No file opens with both signatures.
pub proof fn lemma_signatures_exclude_one_another(bytes: Seq<u8>)
    ensures
        !(has_png_signature(bytes) && has_jpeg_signature(bytes)),
{
    if has_png_signature(bytes) {
        assert(bytes[0] == bytes.subrange(0, 8)[0]);
        assert(png_signature()[0] == 137);
    }
}

/// The format that the leading bytes of a file announce.
pub fn detect_kind(bytes: &[u8]) -> (r: Option<FileKind>)
    ensures
        r == kind_of(bytes@),
{
    if bytes.len() > 8 && starts_with_png_signature(bytes) {
        Some(FileKind::Png)
    } else if bytes.len() > 2 && bytes[0] == MARKER_PREFIX && bytes[1] == START_OF_IMAGE {
        Some(FileKind::Jpeg)
    } else {
        None
    }
}

/// A scrubber for a file of either format.
#[derive(Debug)]
pub enum FileScrubber {
    Jpeg(JpegScrubber),
    Png(PngScrubber),
}

impl FileScrubber {
    /// The format of the file.
    pub open spec fn kind(&self) -> FileKind {
        match *self {
            FileScrubber::Jpeg(_) => FileKind::Jpeg,
            FileScrubber::Png(_) => FileKind::Png,
        }
    }
}

impl Clone for FileScrubber {
    fn clone(&self) -> (r: FileScrubber)
        ensures
            r.file_bytes() == self.file_bytes(),
            r.kind() == self.kind(),
    {
        match self {
            FileScrubber::Jpeg(scrubber) => FileScrubber::Jpeg(scrubber.clone()),
            FileScrubber::Png(scrubber) => FileScrubber::Png(scrubber.clone()),
        }
    }
}

impl Scrubber for FileScrubber {
    open spec fn file_bytes(&self) -> Seq<u8> {
        match *self {
            FileScrubber::Jpeg(scrubber) => scrubber.file_bytes(),
            FileScrubber::Png(scrubber) => scrubber.file_bytes(),
        }
    }

    open spec fn accepts(bytes: Seq<u8>) -> bool {
        match kind_of(bytes) {
            Some(FileKind::Png) => PngScrubber::accepts(bytes),
            Some(FileKind::Jpeg) => true,
            None => false,
        }
    }

    open spec fn metadata(bytes: Seq<u8>) -> Result<Seq<MetadataEntryView>, ScrubErrorView> {
        if has_png_signature(bytes) {
            PngScrubber::metadata(bytes)
        } else {
            JpegScrubber::metadata(bytes)
        }
    }

    open spec fn scrubbed(bytes: Seq<u8>) -> Result<ScrubResultView, ScrubErrorView> {
        if has_png_signature(bytes) {
            PngScrubber::scrubbed(bytes)
        } else {
            JpegScrubber::scrubbed(bytes)
        }
    }

    proof fn lemma_scrub_reports_metadata(bytes: Seq<u8>) {
        PngScrubber::lemma_scrub_reports_metadata(bytes);
        JpegScrubber::lemma_scrub_reports_metadata(bytes);
    }

    proof fn lemma_failures_are_parsing_errors(bytes: Seq<u8>) {
        PngScrubber::lemma_failures_are_parsing_errors(bytes);
        JpegScrubber::lemma_failures_are_parsing_errors(bytes);
    }

    /// Recognises the format of the file and builds the scrubber for it.
    fn new(file_bytes: Vec<u8>) -> (r: Result<FileScrubber, ScrubError>)
        ensures
            r matches Ok(scrubber) ==> Some(scrubber.kind()) == kind_of(file_bytes@),
            r matches Err(e) ==> e@ == ScrubErrorView::UnsupportedFileType(
                if kind_of(file_bytes@) is Some {
                    "Not a valid PNG file."@
                } else {
                    "Could not determine file type."@
                },
            ),
    {
        match detect_kind(file_bytes.as_slice()) {
            Some(FileKind::Png) => match PngScrubber::new(file_bytes) {
                Ok(scrubber) => Ok(FileScrubber::Png(scrubber)),
                Err(e) => Err(e),
            },
            Some(FileKind::Jpeg) => match JpegScrubber::new(file_bytes) {
                Ok(scrubber) => Ok(FileScrubber::Jpeg(scrubber)),
                Err(e) => Err(e),
            },
            None => Err(
                ScrubError::UnsupportedFileType("Could not determine file type.".to_owned()),
            ),
        }
    }

    fn view_metadata(&self) -> (r: Result<Vec<MetadataEntry>, ScrubError>) {
        proof {
            lemma_signatures_exclude_one_another(self.file_bytes());
        }
        match self {
            FileScrubber::Jpeg(scrubber) => scrubber.view_metadata(),
            FileScrubber::Png(scrubber) => scrubber.view_metadata(),
        }
    }

    fn scrub(&self) -> (r: Result<ScrubResult, ScrubError>) {
        proof {
            lemma_signatures_exclude_one_another(self.file_bytes());
        }
        match self {
            FileScrubber::Jpeg(scrubber) => scrubber.scrub(),
            FileScrubber::Png(scrubber) => scrubber.scrub(),
        }
    }
}

/// Every file of more than eight bytes that opens with the PNG signature
/// goes to the PNG engine, and is accepted where that engine accepts it;
/// every file of more than two bytes that opens with the start-of-image
/// marker goes to the JPEG engine and is accepted; every other file is
/// refused.
pub proof fn lemma_detection(bytes: Seq<u8>)
    ensures
        bytes.len() > 8 && has_png_signature(bytes) ==> kind_of(bytes) == Some(FileKind::Png) && (
        FileScrubber::accepts(bytes) <==> PngScrubber::accepts(bytes)),
        bytes.len() > 2 && has_jpeg_signature(bytes) ==> kind_of(bytes) == Some(FileKind::Jpeg)
            && FileScrubber::accepts(bytes),
        !(bytes.len() > 8 && has_png_signature(bytes)) && !(bytes.len() > 2 && has_jpeg_signature(
            bytes,
        )) ==> kind_of(bytes) is None && !FileScrubber::accepts(bytes),
{
    lemma_signatures_exclude_one_another(bytes);
}

/// Recognises the format of a file by its leading bytes and builds the
/// scrubber for it.
pub fn scrubber_for_file(file_bytes: Vec<u8>) -> (r: Result<FileScrubber, ScrubError>)
    ensures
        r is Ok <==> FileScrubber::accepts(file_bytes@),
        r matches Ok(scrubber) ==> scrubber.file_bytes() == file_bytes@ && Some(scrubber.kind())
            == kind_of(file_bytes@),
        r matches Err(e) ==> e@ == ScrubErrorView::UnsupportedFileType(
            if kind_of(file_bytes@) is Some {
                "Not a valid PNG file."@
            } else {
                "Could not determine file type."@
            },
        ),
{
    FileScrubber::new(file_bytes)
}

} // verus!
