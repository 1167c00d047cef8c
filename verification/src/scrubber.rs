//! The operations that every engine offers.

use crate::error::{ScrubError, ScrubErrorView};
use crate::model::{
    metadata_outcome, scrub_outcome, MetadataEntry, MetadataEntryView, ScrubResult,
    ScrubResultView,
};
use vstd::prelude::*;

verus! {

/// An engine for one file format. It is built from the bytes of a file,
/// keeps them unchanged, and answers from them alone.
pub trait Scrubber: Sized {
    /// The bytes of the file that the scrubber was built from.
    spec fn file_bytes(&self) -> Seq<u8>;

    /// Whether `new` accepts a file.
    spec fn accepts(bytes: Seq<u8>) -> bool;

    /// What `view_metadata` reports of a file.
    spec fn metadata(bytes: Seq<u8>) -> Result<Seq<MetadataEntryView>, ScrubErrorView>;

    /// What `scrub` makes of a file.
    spec fn scrubbed(bytes: Seq<u8>) -> Result<ScrubResultView, ScrubErrorView>;

    /// A scrub that succeeds reports the metadata that viewing the file
    /// reports, and fails wherever viewing fails, with the same error.
    proof fn lemma_scrub_reports_metadata(bytes: Seq<u8>)
        ensures
            Self::scrubbed(bytes) matches Ok(result) ==> Self::metadata(bytes) == Ok::<
                Seq<MetadataEntryView>,
                ScrubErrorView,
            >(result.metadata_removed),
            Self::metadata(bytes) matches Err(e) ==> Self::scrubbed(bytes) == Err::<
                ScrubResultView,
                ScrubErrorView,
            >(e),
    ;

    /// Viewing and scrubbing fail with a parsing error and with no other.
    proof fn lemma_failures_are_parsing_errors(bytes: Seq<u8>)
        ensures
            Self::metadata(bytes) matches Err(e) ==> e is ParsingError,
            Self::scrubbed(bytes) matches Err(e) ==> e is ParsingError,
    ;

    /// Builds a scrubber from the bytes of a file, which it validates.
    fn new(file_bytes: Vec<u8>) -> (r: Result<Self, ScrubError>)
        ensures
            r is Ok <==> Self::accepts(file_bytes@),
            r matches Ok(scrubber) ==> scrubber.file_bytes() == file_bytes@,
            r matches Err(e) ==> e is UnsupportedFileType,
    ;

    /// Lists the metadata found in the file.
    fn view_metadata(&self) -> (r: Result<Vec<MetadataEntry>, ScrubError>)
        ensures
            metadata_outcome(r) == Self::metadata(self.file_bytes()),
    ;

    /// Lists the metadata found in the file and builds a copy of the file
    /// without it.
    fn scrub(&self) -> (r: Result<ScrubResult, ScrubError>)
        ensures
            scrub_outcome(r) == Self::scrubbed(self.file_bytes()),
    ;
}

/// Where a scrub hands a file back unchanged and reports nothing as
/// removed, viewing the file that it handed back finds no metadata.
pub proof fn lemma_untouched_file_shows_no_metadata<S: Scrubber>(bytes: Seq<u8>)
    requires
        S::scrubbed(bytes) matches Ok(result) && result.cleaned_file_bytes == bytes
            && result.metadata_removed.len() == 0,
    ensures
        S::metadata(S::scrubbed(bytes)->Ok_0.cleaned_file_bytes) matches Ok(entries)
            && entries.len() == 0,
{
    S::lemma_scrub_reports_metadata(bytes);
}

} // verus!
