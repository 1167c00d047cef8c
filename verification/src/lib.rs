//! Detection, inspection and removal of metadata embedded in image files.
//!
//! A file is handed over as a byte buffer. [`scrubber_for_file`] recognises
//! its container format by the leading signature bytes and builds the
//! matching engine; every engine offers the operations of [`Scrubber`].
//!
//! The engine for JPEG files walks the marker segments itself and cuts the
//! EXIF segment out of the byte stream. The engine for PNG files lists the
//! textual chunks in the order of the file and has the image decoded and
//! encoded anew. What the EXIF decoder and the PNG codec return is taken on
//! trust, in [`exif`] and [`png_codec`]; everything that is made of it is
//! verified.

pub mod detect;
pub mod error;
pub mod exif;
pub mod jpeg;
pub mod jpeg_laws;
pub mod model;
pub mod png;
pub mod png_chunks;
pub mod png_codec;
pub mod png_text;
pub mod render;
pub mod scrubber;

pub use detect::{scrubber_for_file, FileKind, FileScrubber};
pub use error::ScrubError;
pub use model::{MetadataEntry, ScrubResult};
pub use scrubber::Scrubber;
