//! The engine for PNG files: the textual chunks as metadata, and a file
//! encoded anew from the decoded image, which carries none of them.

use crate::error::{ScrubError, ScrubErrorView};
use crate::model::{
    metadata_outcome, scrub_outcome, MetadataEntry, MetadataEntryView, ScrubResult,
    ScrubResultView,
};
use crate::png_chunks::{text_chunk_order, text_kinds};
use crate::png_codec::{
    bytes_outcome, decode_png_image, encode_png_image, png_encoding, png_image, png_texts,
    read_png_texts,
};
use crate::png_text::{entries_from_texts, metadata_of_texts};
use crate::scrubber::Scrubber;
use vstd::prelude::*;

verus! {

/// The eight bytes that open every PNG file.
pub open spec fn png_signature() -> Seq<u8> {
    seq![137u8, 80u8, 78u8, 71u8, 13u8, 10u8, 26u8, 10u8]
}

/// Whether `bytes` opens with the PNG signature.
pub open spec fn has_png_signature(bytes: Seq<u8>) -> bool {
    bytes.len() >= 8 && bytes.subrange(0, 8) == png_signature()
}

/// Whether `bytes` opens with the PNG signature.
pub fn starts_with_png_signature(bytes: &[u8]) -> (r: bool)
    ensures
        r == has_png_signature(bytes@),
{
    if bytes.len() < 8 {
        return false;
    }
    let r = bytes[0] == 137 && bytes[1] == 80 && bytes[2] == 78 && bytes[3] == 71 && bytes[4]
        == 13 && bytes[5] == 10 && bytes[6] == 26 && bytes[7] == 10;
    proof {
        let head = bytes@.subrange(0, 8);
        if r {
            assert(head =~= png_signature());
        } else {
            assert(head[0] == bytes[0] && head[1] == bytes[1] && head[2] == bytes[2] && head[3]
                == bytes[3]);
            assert(head[4] == bytes[4] && head[5] == bytes[5] && head[6] == bytes[6] && head[7]
                == bytes[7]);
        }
    }
    r
}

/// The file that comes of decoding the image of a file and encoding it
/// anew, or the text of the error that stopped one of the two.
pub open spec fn reencoded(bytes: Seq<u8>) -> Result<Seq<u8>, Seq<char>> {
    match png_image(bytes) {
        Ok(image) => png_encoding(image),
        Err(reason) => Err(reason),
    }
}

/// What a scrub comes to, given the metadata of the file and the file
/// encoded anew. A file without metadata is handed back as it is.
pub open spec fn scrubbed_with(
    bytes: Seq<u8>,
    metadata: Seq<MetadataEntryView>,
    reencoded: Result<Seq<u8>, Seq<char>>,
) -> Result<ScrubResultView, ScrubErrorView> {
    if metadata.len() == 0 {
        Ok(ScrubResultView { cleaned_file_bytes: bytes, metadata_removed: metadata })
    } else {
        match reencoded {
            Ok(cleaned) => Ok(
                ScrubResultView { cleaned_file_bytes: cleaned, metadata_removed: metadata },
            ),
            Err(reason) => Err(ScrubErrorView::ParsingError(reason)),
        }
    }
}

/// A file in which viewing finds no metadata comes out of a scrub byte for
/// byte as it went in, with nothing reported as removed.
pub proof fn lemma_file_without_metadata_is_left_alone(bytes: Seq<u8>)
    requires
        PngScrubber::metadata(bytes) matches Ok(entries) && entries.len() == 0,
    ensures
        PngScrubber::scrubbed(bytes) == Ok::<ScrubResultView, ScrubErrorView>(
            ScrubResultView { cleaned_file_bytes: bytes, metadata_removed: Seq::empty() },
        ),
{
    assert(PngScrubber::metadata(bytes)->Ok_0 =~= Seq::empty());
}

/// A scrubber for PNG files.
#[derive(Debug)]
pub struct PngScrubber {
    file_bytes: Vec<u8>,
}

impl PngScrubber {
    #[verifier::type_invariant]
    spec fn is_valid_png(&self) -> bool {
        Self::accepts(self.file_bytes@)
    }

    /// Decodes the image of the file and encodes it as a new file, which
    /// holds the image and nothing else.
    fn reencode(&self) -> (r: Result<Vec<u8>, String>)
        ensures
            bytes_outcome(r) == reencoded(self.file_bytes()),
    {
        match decode_png_image(&self.file_bytes) {
            Ok(image) => encode_png_image(&image),
            Err(reason) => Err(reason),
        }
    }
}

/// What a scrub comes to, given the metadata of the file and the file
/// encoded anew. Where there is no metadata, the file itself is handed back
/// and `reencoded` is not looked at.
pub fn scrub_result_from(
    file_bytes: &Vec<u8>,
    metadata_removed: Vec<MetadataEntry>,
    reencoded: Result<Vec<u8>, String>,
) -> (r: Result<ScrubResult, ScrubError>)
    ensures
        scrub_outcome(r) == scrubbed_with(
            file_bytes@,
            metadata_removed.deep_view(),
            bytes_outcome(reencoded),
        ),
{
    if metadata_removed.len() == 0 {
        return Ok(ScrubResult { cleaned_file_bytes: file_bytes.clone(), metadata_removed });
    }
    match reencoded {
        Ok(cleaned_file_bytes) => Ok(ScrubResult { cleaned_file_bytes, metadata_removed }),
        Err(reason) => Err(ScrubError::ParsingError(reason)),
    }
}

impl Clone for PngScrubber {
    fn clone(&self) -> (r: PngScrubber)
        ensures
            r.file_bytes() == self.file_bytes(),
    {
        proof {
            use_type_invariant(self);
        }
        PngScrubber { file_bytes: self.file_bytes.clone() }
    }
}

impl Scrubber for PngScrubber {
    closed spec fn file_bytes(&self) -> Seq<u8> {
        self.file_bytes@
    }

    open spec fn accepts(bytes: Seq<u8>) -> bool {
        has_png_signature(bytes) && png_texts(bytes) is Ok
    }

    open spec fn metadata(bytes: Seq<u8>) -> Result<Seq<MetadataEntryView>, ScrubErrorView> {
        match png_texts(bytes) {
            Ok(texts) => metadata_of_texts(text_kinds(bytes), texts),
            Err(reason) => Err(ScrubErrorView::ParsingError(reason)),
        }
    }

    open spec fn scrubbed(bytes: Seq<u8>) -> Result<ScrubResultView, ScrubErrorView> {
        match Self::metadata(bytes) {
            Ok(entries) => scrubbed_with(bytes, entries, reencoded(bytes)),
            Err(e) => Err(e),
        }
    }

    proof fn lemma_scrub_reports_metadata(bytes: Seq<u8>) {
    }

    proof fn lemma_failures_are_parsing_errors(bytes: Seq<u8>) {
    }

    /// Accepts a file that opens with the PNG signature and whose chunks
    /// the codec can read to the end.
    fn new(file_bytes: Vec<u8>) -> (r: Result<PngScrubber, ScrubError>)
        ensures
            r matches Err(e) ==> e@ == ScrubErrorView::UnsupportedFileType(
                "Not a valid PNG file."@,
            ),
    {
        if !starts_with_png_signature(file_bytes.as_slice()) {
            return Err(ScrubError::UnsupportedFileType("Not a valid PNG file.".to_owned()));
        }
        match read_png_texts(&file_bytes) {
            Ok(_) => Ok(PngScrubber { file_bytes }),
            Err(_) => Err(ScrubError::UnsupportedFileType("Not a valid PNG file.".to_owned())),
        }
    }

    /// Lists the textual chunks in the order in which they stand in the
    /// file: one entry for each, with the keyword of the chunk as its key
    /// and the text as its value.
    fn view_metadata(&self) -> (r: Result<Vec<MetadataEntry>, ScrubError>)
        ensures
            Self::accepts(self.file_bytes()),
    {
        proof {
            use_type_invariant(self);
        }
        match read_png_texts(&self.file_bytes) {
            Ok(texts) => {
                let order = text_chunk_order(self.file_bytes.as_slice());
                entries_from_texts(&order, &texts)
            },
            Err(reason) => Err(ScrubError::ParsingError(reason)),
        }
    }

    /// Lists the metadata and, where there is any, encodes the image as a
    /// new file that holds nothing but the image. A file without metadata is
    /// handed back byte for byte.
    fn scrub(&self) -> (r: Result<ScrubResult, ScrubError>)
        ensures
            Self::accepts(self.file_bytes()),
            Self::metadata(self.file_bytes()) matches Ok(entries) ==> (entries.len() == 0 ==> (r
                matches Ok(result) && result.cleaned_file_bytes@ == self.file_bytes()
                && result.metadata_removed@.len() == 0)),
    {
        let metadata_removed = match self.view_metadata() {
            Ok(entries) => entries,
            Err(e) => {
                return Err(e);
            },
        };
        if metadata_removed.len() == 0 {
            // Nothing to remove: the image is neither decoded nor encoded.
            return Ok(
                ScrubResult { cleaned_file_bytes: self.file_bytes.clone(), metadata_removed },
            );
        }
        let reencoded = self.reencode();
        scrub_result_from(&self.file_bytes, metadata_removed, reencoded)
    }
}

} // verus!
