//! The bridge to the EXIF decoder, and the entries made of what it decodes.

use crate::error::{ScrubError, ScrubErrorView};
use crate::model::{metadata_outcome, MetadataEntry, MetadataEntryView};
use crate::render::{append_decimal, decimal};
use nom_exif::{ExifIter, MediaParser, MediaSource};
use std::io::Cursor;
use vstd::prelude::*;

verus! {

/// One tag as the decoder hands it out.
#[derive(Debug)]
pub struct DecodedTag {
    /// The index of the image file directory that holds the tag.
    pub ifd: usize,
    /// The name of the tag, where the decoder knows one for its code.
    pub name: Option<String>,
    /// The value of the tag as text, where the decoder could read it.
    pub value: Option<String>,
}

/// The mathematical value of a [`DecodedTag`].
pub struct DecodedTagView {
    pub ifd: nat,
    pub name: Option<Seq<char>>,
    pub value: Option<Seq<char>>,
}

/// The mathematical value of a text that may be missing.
pub open spec fn text_view(text: Option<String>) -> Option<Seq<char>> {
    match text {
        Some(t) => Some(t@),
        None => None,
    }
}

impl View for DecodedTag {
    type V = DecodedTagView;

    open spec fn view(&self) -> DecodedTagView {
        DecodedTagView {
            ifd: self.ifd as nat,
            name: text_view(self.name),
            value: text_view(self.value),
        }
    }
}

impl DeepView for DecodedTag {
    type V = DecodedTagView;

    open spec fn deep_view(&self) -> DecodedTagView {
        self@
    }
}

/// What the decoder makes of a file.
#[derive(Debug)]
pub enum ExifDecoding {
    /// The file could not be opened for decoding; the text says why.
    Unreadable(String),
    /// The decoder found no EXIF that it can read; the text says why.
    Absent(String),
    /// The tags of the file, in the order in which the decoder walks them.
    Tags(Vec<DecodedTag>),
}

/// The mathematical value of an [`ExifDecoding`].
pub enum ExifDecodingView {
    Unreadable(Seq<char>),
    Absent(Seq<char>),
    Tags(Seq<DecodedTagView>),
}

impl View for ExifDecoding {
    type V = ExifDecodingView;

    open spec fn view(&self) -> ExifDecodingView {
        match *self {
            ExifDecoding::Unreadable(reason) => ExifDecodingView::Unreadable(reason@),
            ExifDecoding::Absent(reason) => ExifDecodingView::Absent(reason@),
            ExifDecoding::Tags(tags) => ExifDecodingView::Tags(tags.deep_view()),
        }
    }
}

/// What the EXIF decoder of `nom_exif` makes of a file with these bytes.
pub uninterp spec fn exif_decoding(bytes: Seq<u8>) -> ExifDecodingView;

/// Runs the EXIF decoder of `nom_exif` over a file: `MediaSource::seekable`
/// on the bytes, `MediaParser::parse` for an `ExifIter`, and the iterator to
/// its end. The contract claims no more than that the outcome is a function
/// of the bytes. `Unreadable` carries the error of `MediaSource::seekable`,
/// `Absent` the error of `parse`, and each tag holds what its entry's
/// `ifd_index`, `tag` and `get_value` return, the last two as text.
#[verifier::external_body]
pub(crate) fn decode_exif(bytes: &Vec<u8>) -> (r: ExifDecoding)
    ensures
        r@ == exif_decoding(bytes@),
{
    let source = match MediaSource::seekable(Cursor::new(bytes)) {
        Ok(source) => source,
        Err(e) => return ExifDecoding::Unreadable(format!("{:?}", e)),
    };
    match MediaParser::new().parse::<_, _, ExifIter>(source) {
        Ok(tags) => ExifDecoding::Tags(tags.map(|t| DecodedTag {
            ifd: t.ifd_index(),
            name: t.tag().map(|n| n.to_string()),
            value: t.get_value().map(|v| v.to_string()),
        }).collect()),
        Err(e) => ExifDecoding::Absent(format!("{:?}", e)),
    }
}

/// The category of the tags of one image file directory.
pub open spec fn category_of(ifd: nat) -> Seq<char> {
    if ifd == 0 {
        "IFD0"@
    } else if ifd == 1 {
        "IFD1"@
    } else if ifd == 2 {
        "EXIF"@
    } else if ifd == 3 {
        "GPS"@
    } else if ifd == 4 {
        "Interop"@
    } else {
        "IFD_"@ + decimal(ifd)
    }
}

/// The entry that stands for one decoded tag.
pub open spec fn entry_of_tag(tag: DecodedTagView) -> MetadataEntryView {
    MetadataEntryView {
        key: match tag.name {
            Some(name) => name,
            None => "<Tag Name Unavailable>"@,
        },
        value: match tag.value {
            Some(value) => value,
            None => "<No Value>"@,
        },
        category: category_of(tag.ifd),
    }
}

/// The entries that stand for a sequence of decoded tags, in their order.
pub open spec fn entries_of_tags(tags: Seq<DecodedTagView>) -> Seq<MetadataEntryView> {
    Seq::new(tags.len(), |i: int| entry_of_tag(tags[i]))
}

/// The metadata that a decoding amounts to. A file in which the decoder
/// finds no EXIF has no metadata, which is no failure, whatever the decoder
/// says of it.
pub open spec fn metadata_of_decoding(decoding: ExifDecodingView) -> Result<
    Seq<MetadataEntryView>,
    ScrubErrorView,
> {
    match decoding {
        ExifDecodingView::Unreadable(reason) => Err(
            ScrubErrorView::ParsingError("Failed to create MediaSource: "@ + reason),
        ),
        ExifDecodingView::Absent(_) => Ok(Seq::empty()),
        ExifDecodingView::Tags(tags) => Ok(entries_of_tags(tags)),
    }
}

/// The category of the tags of one image file directory.
pub fn category_for(ifd: usize) -> (r: String)
    ensures
        r@ == category_of(ifd as nat),
{
    if ifd == 0 {
        "IFD0".to_owned()
    } else if ifd == 1 {
        "IFD1".to_owned()
    } else if ifd == 2 {
        "EXIF".to_owned()
    } else if ifd == 3 {
        "GPS".to_owned()
    } else if ifd == 4 {
        "Interop".to_owned()
    } else {
        let mut category = "IFD_".to_owned();
        append_decimal(&mut category, ifd);
        category
    }
}

/// The entry that stands for one decoded tag.
pub fn entry_from_tag(tag: &DecodedTag) -> (r: MetadataEntry)
    ensures
        r@ == entry_of_tag(tag@),
{
    let key = match &tag.name {
        Some(name) => name.clone(),
        None => "<Tag Name Unavailable>".to_owned(),
    };
    let value = match &tag.value {
        Some(value) => value.clone(),
        None => "<No Value>".to_owned(),
    };
    MetadataEntry { key, value, category: category_for(tag.ifd) }
}

/// The metadata that a decoding amounts to.
pub fn entries_from_decoding(decoding: &ExifDecoding) -> (r: Result<Vec<MetadataEntry>, ScrubError>)
    ensures
        metadata_outcome(r) == metadata_of_decoding(decoding@),
{
    match decoding {
        ExifDecoding::Unreadable(reason) => {
            let message = "Failed to create MediaSource: ".to_owned().concat(reason.as_str());
            Err(ScrubError::ParsingError(message))
        },
        ExifDecoding::Absent(_) => {
            let entries: Vec<MetadataEntry> = Vec::new();
            assert(entries.deep_view() =~= Seq::empty());
            Ok(entries)
        },
        ExifDecoding::Tags(tags) => {
            let mut entries: Vec<MetadataEntry> = Vec::new();
            let mut i: usize = 0;
            while i < tags.len()
                invariant
                    i <= tags.len(),
                    entries.len() == i,
                    forall|k: int|
                        0 <= k < i ==> (#[trigger] entries[k])@ == entry_of_tag(tags[k]@),
                decreases tags.len() - i,
            {
                entries.push(entry_from_tag(&tags[i]));
                i += 1;
            }
            assert(entries.deep_view() =~= entries_of_tags(tags.deep_view()));
            Ok(entries)
        },
    }
}

} // verus!
