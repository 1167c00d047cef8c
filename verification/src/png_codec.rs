//! The bridge to the PNG codec: the text chunks of a file, its decoded
//! image, and the encoding of an image as a new file.

use png::{BitDepth, ColorType, Decoder, Encoder};
use std::io::Cursor;
use vstd::prelude::*;

verus! {

/// One textual chunk of a PNG file.
#[derive(Debug)]
pub struct TextChunk {
    /// The keyword of the chunk.
    pub keyword: String,
    /// The text of the chunk, where the codec could read it.
    pub text: Option<String>,
}

/// The mathematical value of a [`TextChunk`].
pub struct TextChunkView {
    pub keyword: Seq<char>,
    pub text: Option<Seq<char>>,
}

impl View for TextChunk {
    type V = TextChunkView;

    open spec fn view(&self) -> TextChunkView {
        TextChunkView {
            keyword: self.keyword@,
            text: match self.text {
                Some(text) => Some(text@),
                None => None,
            },
        }
    }
}

impl TextChunk {
    /// A chunk with this keyword and, where it could be read, this text.
    pub fn new(keyword: String, text: Option<String>) -> (r: TextChunk)
        ensures
            r == (TextChunk { keyword, text }),
    {
        TextChunk { keyword, text }
    }
}

impl Clone for TextChunk {
    fn clone(&self) -> (r: TextChunk)
        ensures
            r@ == self@,
    {
        let text = match &self.text {
            Some(text) => Some(text.clone()),
            None => None,
        };
        TextChunk { keyword: self.keyword.clone(), text }
    }
}

impl DeepView for TextChunk {
    type V = TextChunkView;

    open spec fn deep_view(&self) -> TextChunkView {
        self@
    }
}

/// The textual chunks of a PNG file, one list for each kind of chunk, each
/// in the order of the file.
#[derive(Debug)]
pub struct PngTexts {
    /// The `tEXt` chunks.
    pub plain: Vec<TextChunk>,
    /// The `zTXt` chunks, their text decompressed.
    pub compressed: Vec<TextChunk>,
    /// The `iTXt` chunks, their text decompressed where it was compressed.
    pub international: Vec<TextChunk>,
}

/// The mathematical value of a [`PngTexts`].
pub struct PngTextsView {
    pub plain: Seq<TextChunkView>,
    pub compressed: Seq<TextChunkView>,
    pub international: Seq<TextChunkView>,
}

impl View for PngTexts {
    type V = PngTextsView;

    open spec fn view(&self) -> PngTextsView {
        PngTextsView {
            plain: self.plain.deep_view(),
            compressed: self.compressed.deep_view(),
            international: self.international.deep_view(),
        }
    }
}

/// A decoded image: its geometry, the layout of its samples, and the samples.
#[derive(Debug)]
pub struct PngImage {
    pub width: u32,
    pub height: u32,
    /// The colour type, by its code in the image header.
    pub color_type: u8,
    /// The number of bits in a sample.
    pub bit_depth: u8,
    /// The samples, row by row.
    pub data: Vec<u8>,
}

/// The mathematical value of a [`PngImage`].
pub struct PngImageView {
    pub width: nat,
    pub height: nat,
    pub color_type: nat,
    pub bit_depth: nat,
    pub data: Seq<u8>,
}

impl View for PngImage {
    type V = PngImageView;

    open spec fn view(&self) -> PngImageView {
        PngImageView {
            width: self.width as nat,
            height: self.height as nat,
            color_type: self.color_type as nat,
            bit_depth: self.bit_depth as nat,
            data: self.data@,
        }
    }
}

impl PngImage {
    /// Whether the colour type and the bit depth are codes that the format
    /// defines.
    pub open spec fn has_defined_codes(&self) -> bool {
        &&& (self.color_type == 0 || self.color_type == 2 || self.color_type == 3
            || self.color_type == 4 || self.color_type == 6)
        &&& (self.bit_depth == 1 || self.bit_depth == 2 || self.bit_depth == 4
            || self.bit_depth == 8 || self.bit_depth == 16)
    }
}

/// The mathematical value of what reading the text chunks gave.
pub open spec fn texts_outcome(r: Result<PngTexts, String>) -> Result<PngTextsView, Seq<char>> {
    match r {
        Ok(texts) => Ok(texts@),
        Err(reason) => Err(reason@),
    }
}

/// The mathematical value of what decoding the image gave.
pub open spec fn image_outcome(r: Result<PngImage, String>) -> Result<PngImageView, Seq<char>> {
    match r {
        Ok(image) => Ok(image@),
        Err(reason) => Err(reason@),
    }
}

/// The mathematical value of what encoding an image gave.
pub open spec fn bytes_outcome(r: Result<Vec<u8>, String>) -> Result<Seq<u8>, Seq<char>> {
    match r {
        Ok(bytes) => Ok(bytes@),
        Err(reason) => Err(reason@),
    }
}

/// What the decoder of `png` reads of the text chunks of a file with these
/// bytes, from its signature to its end.
pub uninterp spec fn png_texts(bytes: Seq<u8>) -> Result<PngTextsView, Seq<char>>;

/// What the decoder of `png` makes of the first frame of a file with these
/// bytes.
pub uninterp spec fn png_image(bytes: Seq<u8>) -> Result<PngImageView, Seq<char>>;

/// The file that the encoder of `png` writes for an image.
pub uninterp spec fn png_encoding(image: PngImageView) -> Result<Seq<u8>, Seq<char>>;

/// Reads the chunks of a file with `png::Decoder::read_info` and
/// `Reader::finish`, and hands out the three lists of text chunks that
/// `Reader::info` then holds. The text of a `zTXt` or `iTXt` chunk is what
/// its `get_text` gives, and is missing where that fails. The contract
/// claims no more than that the outcome is a function of the bytes. An error
/// is that of `read_info` or of `finish`, as text.
#[verifier::external_body]
pub(crate) fn read_png_texts(bytes: &Vec<u8>) -> (r: Result<PngTexts, String>)
    ensures
        texts_outcome(r) == png_texts(bytes@),
{
    let mut reader = Decoder::new(Cursor::new(bytes)).read_info().map_err(|e| e.to_string())?;
    reader.finish().map_err(|e| e.to_string())?;
    let info = reader.info();
    Ok(PngTexts {
        plain: info.uncompressed_latin1_text.iter()
            .map(|c| TextChunk::new(c.keyword.clone(), Some(c.text.clone()))).collect(),
        compressed: info.compressed_latin1_text.iter()
            .map(|c| TextChunk::new(c.keyword.clone(), c.get_text().ok())).collect(),
        international: info.utf8_text.iter()
            .map(|c| TextChunk::new(c.keyword.clone(), c.get_text().ok())).collect(),
    })
}

/// Decodes the first frame of a file with `png::Decoder::read_info` and
/// `Reader::next_frame`, into a buffer of `Reader::output_buffer_size` bytes.
/// The contract claims that the outcome is a function of the bytes, and that
/// the colour type and bit depth of a decoded frame are among the codes of
/// `png::ColorType` and `png::BitDepth`. An error is the codec's, as text.
#[verifier::external_body]
pub(crate) fn decode_png_image(bytes: &Vec<u8>) -> (r: Result<PngImage, String>)
    ensures
        image_outcome(r) == png_image(bytes@),
        r matches Ok(image) ==> image.has_defined_codes(),
{
    let mut reader = Decoder::new(Cursor::new(bytes)).read_info().map_err(|e| e.to_string())?;
    let mut data = vec![0; reader.output_buffer_size()];
    let frame = reader.next_frame(&mut data).map_err(|e| e.to_string())?;
    Ok(PngImage {
        width: frame.width,
        height: frame.height,
        color_type: frame.color_type as u8,
        bit_depth: frame.bit_depth as u8,
        data,
    })
}

/// Encodes an image as a new file with `png::Encoder`: `set_color`,
/// `set_depth`, `write_header` and `Writer::write_image_data`. No other
/// chunk is handed to the encoder. The contract claims no more than that the
/// outcome is a function of the image. An error is the codec's, as text.
#[verifier::external_body]
pub(crate) fn encode_png_image(image: &PngImage) -> (r: Result<Vec<u8>, String>)
    requires
        image.has_defined_codes(),
    ensures
        bytes_outcome(r) == png_encoding(image@),
{
    let mut file = Vec::new();
    {
        let mut encoder = Encoder::new(Cursor::new(&mut file), image.width, image.height);
        encoder.set_color(ColorType::from_u8(image.color_type).unwrap());
        encoder.set_depth(BitDepth::from_u8(image.bit_depth).unwrap());
        let mut writer = encoder.write_header().map_err(|e| e.to_string())?;
        writer.write_image_data(&image.data).map_err(|e| e.to_string())?;
    }
    Ok(file)
}

} // verus!
