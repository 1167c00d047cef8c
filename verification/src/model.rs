//! The records that the engines hand back.

use crate::error::{ScrubError, ScrubErrorView};
use vstd::prelude::*;

verus! {

/// One piece of metadata found in a file.
#[derive(Debug, PartialEq, Eq)]
pub struct MetadataEntry {
    /// The name under which the file holds the value: the name of a tag, the
    /// keyword of a chunk.
    pub key: String,
    /// The value, as text for a human reader.
    pub value: String,
    /// The namespace of the key, such as `IFD0` or `text chunk`.
    pub category: String,
}

/// The mathematical value of a [`MetadataEntry`].
pub struct MetadataEntryView {
    pub key: Seq<char>,
    pub value: Seq<char>,
    pub category: Seq<char>,
}

impl View for MetadataEntry {
    type V = MetadataEntryView;

    open spec fn view(&self) -> MetadataEntryView {
        MetadataEntryView { key: self.key@, value: self.value@, category: self.category@ }
    }
}

impl Clone for MetadataEntry {
    fn clone(&self) -> (r: MetadataEntry)
        ensures
            r == *self,
    {
        MetadataEntry {
            key: self.key.clone(),
            value: self.value.clone(),
            category: self.category.clone(),
        }
    }
}

impl DeepView for MetadataEntry {
    type V = MetadataEntryView;

    open spec fn deep_view(&self) -> MetadataEntryView {
        self@
    }
}

/// What a successful scrub yields.
#[derive(Debug)]
pub struct ScrubResult {
    /// The bytes of the cleaned file.
    pub cleaned_file_bytes: Vec<u8>,
    /// The entries that were in the file before it was cleaned.
    pub metadata_removed: Vec<MetadataEntry>,
}

/// The mathematical value of a [`ScrubResult`].
pub struct ScrubResultView {
    pub cleaned_file_bytes: Seq<u8>,
    pub metadata_removed: Seq<MetadataEntryView>,
}

impl View for ScrubResult {
    type V = ScrubResultView;

    open spec fn view(&self) -> ScrubResultView {
        ScrubResultView {
            cleaned_file_bytes: self.cleaned_file_bytes@,
            metadata_removed: self.metadata_removed.deep_view(),
        }
    }
}

/// The mathematical value of what `view_metadata` returns.
pub open spec fn metadata_outcome(r: Result<Vec<MetadataEntry>, ScrubError>) -> Result<
    Seq<MetadataEntryView>,
    ScrubErrorView,
> {
    match r {
        Ok(entries) => Ok(entries.deep_view()),
        Err(e) => Err(e@),
    }
}

/// The mathematical value of what `scrub` returns.
pub open spec fn scrub_outcome(r: Result<ScrubResult, ScrubError>) -> Result<
    ScrubResultView,
    ScrubErrorView,
> {
    match r {
        Ok(result) => Ok(result@),
        Err(e) => Err(e@),
    }
}

} // verus!
