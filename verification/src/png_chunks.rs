//! The chunk stream of a PNG file, walked for the order in which its
//! textual chunks stand.

use vstd::prelude::*;

verus! {

/// The three kinds of textual chunk.
#[derive(Debug, Clone, Copy, PartialEq, Eq, Structural)]
pub enum TextKind {
    /// A `tEXt` chunk.
    Plain,
    /// A `zTXt` chunk.
    Compressed,
    /// An `iTXt` chunk.
    International,
}

/// The number of bytes that a chunk holds besides its data: four for the
/// length, four for the type and four for the checksum.
pub const CHUNK_FRAME: usize = 12;

/// The length that the chunk at `at` declares for its data: four bytes, read
/// as a big-endian number.
pub open spec fn data_length(bytes: Seq<u8>, at: int) -> int {
    bytes[at] as int * 0x100_0000 + bytes[at + 1] as int * 0x1_0000 + bytes[at + 2] as int
        * 0x100 + bytes[at + 3] as int
}

/// The type of the chunk at `at`: the four bytes behind its length.
pub open spec fn chunk_type(bytes: Seq<u8>, at: int) -> Seq<u8> {
    bytes.subrange(at + 4, at + 8)
}

/// The type `IEND` of the chunk that ends a file.
pub open spec fn end_type() -> Seq<u8> {
    seq![73u8, 69u8, 78u8, 68u8]
}

/// The kind of textual chunk that a chunk type stands for, if any: `tEXt`,
/// `zTXt` or `iTXt`.
pub open spec fn text_kind_of(chunk_type: Seq<u8>) -> Option<TextKind> {
    if chunk_type == seq![116u8, 69u8, 88u8, 116u8] {
        Some(TextKind::Plain)
    } else if chunk_type == seq![122u8, 84u8, 88u8, 116u8] {
        Some(TextKind::Compressed)
    } else if chunk_type == seq![105u8, 84u8, 88u8, 116u8] {
        Some(TextKind::International)
    } else {
        None
    }
}

/// The kinds of the textual chunks from offset `at` on, in the order in
/// which they stand. The walk ends at the chunk that ends the file, and
/// where the buffer does not hold the whole of a chunk.
pub open spec fn text_kinds_from(bytes: Seq<u8>, at: int) -> Seq<TextKind>
    decreases bytes.len() - at,
{
    if at < 0 || at + CHUNK_FRAME > bytes.len() {
        Seq::empty()
    } else if chunk_type(bytes, at) == end_type() || at + CHUNK_FRAME + data_length(
        bytes,
        at,
    ) > bytes.len() {
        Seq::empty()
    } else {
        let rest = text_kinds_from(bytes, at + CHUNK_FRAME + data_length(bytes, at));
        match text_kind_of(chunk_type(bytes, at)) {
            Some(kind) => seq![kind] + rest,
            None => rest,
        }
    }
}

/// The kinds of the textual chunks of a file, in the order in which they
/// stand behind the signature.
pub open spec fn text_kinds(bytes: Seq<u8>) -> Seq<TextKind> {
    text_kinds_from(bytes, 8)
}

/// Whether the four bytes from `at` on are `a`, `b`, `c` and `d`.
fn has_type(bytes: &[u8], at: usize, a: u8, b: u8, c: u8, d: u8) -> (r: bool)
    requires
        at + 8 <= bytes@.len(),
    ensures
        r == (chunk_type(bytes@, at as int) == seq![a, b, c, d]),
{
    assert(at + 8 <= bytes.len());
    let r = bytes[at + 4] == a && bytes[at + 5] == b && bytes[at + 6] == c && bytes[at + 7] == d;
    proof {
        let found = chunk_type(bytes@, at as int);
        if r {
            assert(found =~= seq![a, b, c, d]);
        } else {
            assert(found[0] == bytes[at + 4] && found[1] == bytes[at + 5]);
            assert(found[2] == bytes[at + 6] && found[3] == bytes[at + 7]);
            assert(seq![a, b, c, d][0] == a && seq![a, b, c, d][1] == b);
            assert(seq![a, b, c, d][2] == c && seq![a, b, c, d][3] == d);
        }
    }
    r
}

/// The kinds of the textual chunks of a file, in the order in which they
/// stand behind the signature.
pub fn text_chunk_order(bytes: &[u8]) -> (r: Vec<TextKind>)
    ensures
        r@ == text_kinds(bytes@),
{
    let len = bytes.len();
    let mut kinds: Vec<TextKind> = Vec::new();
    if len < 8 {
        return kinds;
    }
    let mut at: usize = 8;
    while len - at >= CHUNK_FRAME
        invariant
            len == bytes@.len(),
            8 <= at <= len,
            text_kinds(bytes@) == kinds@ + text_kinds_from(bytes@, at as int),
        decreases len - at,
    {
        if has_type(bytes, at, 73, 69, 78, 68) {
            assert(kinds@ + Seq::<TextKind>::empty() =~= kinds@);
            return kinds;
        }
        let length: u64 = (bytes[at] as u64) * 0x100_0000 + (bytes[at + 1] as u64) * 0x1_0000 + (
        bytes[at + 2] as u64) * 0x100 + (bytes[at + 3] as u64);
        if length > (len - at - CHUNK_FRAME) as u64 {
            assert(kinds@ + Seq::<TextKind>::empty() =~= kinds@);
            return kinds;
        }
        let ghost rest = text_kinds_from(bytes@, at + CHUNK_FRAME + length);
        if has_type(bytes, at, 116, 69, 88, 116) {
            kinds.push(TextKind::Plain);
            assert(kinds@ + rest =~= kinds@.drop_last() + (seq![TextKind::Plain] + rest));
        } else if has_type(bytes, at, 122, 84, 88, 116) {
            kinds.push(TextKind::Compressed);
            assert(kinds@ + rest =~= kinds@.drop_last() + (seq![TextKind::Compressed] + rest));
        } else if has_type(bytes, at, 105, 84, 88, 116) {
            kinds.push(TextKind::International);
            assert(kinds@ + rest =~= kinds@.drop_last() + (seq![TextKind::International] + rest));
        }
        at += CHUNK_FRAME + length as usize;
    }
    assert(kinds@ + Seq::<TextKind>::empty() =~= kinds@);
    kinds
}

} // verus!
