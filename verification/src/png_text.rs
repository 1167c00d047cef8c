//! The textual chunks of a PNG file as metadata: the three kinds of chunk
//! put in the order of the file, and one entry made of each.

use crate::error::{ScrubError, ScrubErrorView};
use crate::model::{metadata_outcome, MetadataEntry, MetadataEntryView};
use crate::png_chunks::TextKind;
use crate::png_codec::{PngTexts, PngTextsView, TextChunk, TextChunkView};
use vstd::prelude::*;

verus! {

/// The entry that stands for a textual chunk with this keyword and text.
pub open spec fn entry_of_text(keyword: Seq<char>, text: Seq<char>) -> MetadataEntryView {
    MetadataEntryView { key: keyword, value: text, category: "text chunk"@ }
}

/// Whether the text of every chunk could be read.
pub open spec fn all_readable(chunks: Seq<TextChunkView>) -> bool {
    forall|i: int| 0 <= i < chunks.len() ==> (#[trigger] chunks[i]).text is Some
}

/// The first chunk whose text could not be read.
pub open spec fn first_unreadable(chunks: Seq<TextChunkView>) -> int {
    choose|i: int|
        0 <= i < chunks.len() && (#[trigger] chunks[i]).text is None && all_readable(
            chunks.take(i),
        )
}

/// The entries that stand for a list of chunks, in their order; or, where
/// the text of one could not be read, the keyword of the first such chunk.
pub open spec fn entries_of_chunks(chunks: Seq<TextChunkView>) -> Result<
    Seq<MetadataEntryView>,
    Seq<char>,
> {
    if all_readable(chunks) {
        Ok(Seq::new(chunks.len(), |i: int| entry_of_text(chunks[i].keyword, chunks[i].text->0)))
    } else {
        Err(chunks[first_unreadable(chunks)].keyword)
    }
}

/// The error for a chunk whose text could not be read.
pub open spec fn unreadable_text(keyword: Seq<char>) -> ScrubErrorView {
    ScrubErrorView::ParsingError("Unreadable text in chunk: "@ + keyword)
}

/// The chunks of the three lists as one list, from the `i`-th kind of
/// `order` on and from the chunks `p`, `c` and `n` of the lists on. Each kind
/// of `order` takes the next chunk of its list, if the list has one left;
/// once `order` is at its end, what the lists have left follows: the `tEXt`
/// chunks, then the `zTXt` chunks, then the `iTXt` chunks.
pub open spec fn merged_from(
    order: Seq<TextKind>,
    texts: PngTextsView,
    i: int,
    p: int,
    c: int,
    n: int,
) -> Seq<TextChunkView>
    decreases order.len() - i,
{
    if i < 0 || i >= order.len() {
        texts.plain.skip(p) + texts.compressed.skip(c) + texts.international.skip(n)
    } else {
        match order[i] {
            TextKind::Plain => if p < texts.plain.len() {
                seq![texts.plain[p]] + merged_from(order, texts, i + 1, p + 1, c, n)
            } else {
                merged_from(order, texts, i + 1, p, c, n)
            },
            TextKind::Compressed => if c < texts.compressed.len() {
                seq![texts.compressed[c]] + merged_from(order, texts, i + 1, p, c + 1, n)
            } else {
                merged_from(order, texts, i + 1, p, c, n)
            },
            TextKind::International => if n < texts.international.len() {
                seq![texts.international[n]] + merged_from(order, texts, i + 1, p, c, n + 1)
            } else {
                merged_from(order, texts, i + 1, p, c, n)
            },
        }
    }
}

/// The chunks of the three lists as one list, in the order in which their
/// kinds stand in `order`.
pub open spec fn in_stream_order(order: Seq<TextKind>, texts: PngTextsView) -> Seq<
    TextChunkView,
> {
    merged_from(order, texts, 0, 0, 0, 0)
}

/// The metadata that the textual chunks of a file amount to, the chunks
/// taken in the order in which their kinds stand in `order`.
pub open spec fn metadata_of_texts(order: Seq<TextKind>, texts: PngTextsView) -> Result<
    Seq<MetadataEntryView>,
    ScrubErrorView,
> {
    match entries_of_chunks(in_stream_order(order, texts)) {
        Ok(entries) => Ok(entries),
        Err(keyword) => Err(unreadable_text(keyword)),
    }
}

/// Putting the lists in order loses no chunk and adds none: the one list
/// holds what the three lists hold, each chunk as often.
pub proof fn lemma_stream_order_keeps_every_chunk(order: Seq<TextKind>, texts: PngTextsView)
    ensures
        in_stream_order(order, texts).to_multiset() == (texts.plain + texts.compressed
            + texts.international).to_multiset(),
        in_stream_order(order, texts).len() == texts.plain.len() + texts.compressed.len()
            + texts.international.len(),
{
    lemma_merge_keeps_every_chunk(order, texts, 0, 0, 0, 0);
    assert(texts.plain.skip(0) =~= texts.plain);
    assert(texts.compressed.skip(0) =~= texts.compressed);
    assert(texts.international.skip(0) =~= texts.international);
}

/// What is merged from given places on holds what the lists hold from
/// those places on.
proof fn lemma_merge_keeps_every_chunk(
    order: Seq<TextKind>,
    texts: PngTextsView,
    i: int,
    p: int,
    c: int,
    n: int,
)
    requires
        0 <= i,
        0 <= p <= texts.plain.len(),
        0 <= c <= texts.compressed.len(),
        0 <= n <= texts.international.len(),
    ensures
        merged_from(order, texts, i, p, c, n).to_multiset() == (texts.plain.skip(p)
            + texts.compressed.skip(c) + texts.international.skip(n)).to_multiset(),
        merged_from(order, texts, i, p, c, n).len() == (texts.plain.len() - p) + (
        texts.compressed.len() - c) + (texts.international.len() - n),
    decreases order.len() - i,
{
    let plain = texts.plain.skip(p);
    let compressed = texts.compressed.skip(c);
    let international = texts.international.skip(n);
    if i >= order.len() {
    } else {
        match order[i] {
            TextKind::Plain => if p < texts.plain.len() {
                lemma_merge_keeps_every_chunk(order, texts, i + 1, p + 1, c, n);
                let head = seq![texts.plain[p]];
                let tail = merged_from(order, texts, i + 1, p + 1, c, n);
                let rest = texts.plain.skip(p + 1) + compressed + international;
                vstd::seq_lib::lemma_multiset_commutative(head, tail);
                vstd::seq_lib::lemma_multiset_commutative(head, rest);
                assert(head + rest =~= plain + compressed + international);
            } else {
                lemma_merge_keeps_every_chunk(order, texts, i + 1, p, c, n);
            },
            TextKind::Compressed => if c < texts.compressed.len() {
                lemma_merge_keeps_every_chunk(order, texts, i + 1, p, c + 1, n);
                let head = seq![texts.compressed[c]];
                let tail = merged_from(order, texts, i + 1, p, c + 1, n);
                let behind = texts.compressed.skip(c + 1) + international;
                vstd::seq_lib::lemma_multiset_commutative(head, tail);
                vstd::seq_lib::lemma_multiset_commutative(plain, behind);
                vstd::seq_lib::lemma_multiset_commutative(plain, head + behind);
                vstd::seq_lib::lemma_multiset_commutative(head, behind);
                assert(plain + behind =~= plain + texts.compressed.skip(c + 1) + international);
                assert(plain + (head + behind) =~= plain + compressed + international);
            } else {
                lemma_merge_keeps_every_chunk(order, texts, i + 1, p, c, n);
            },
            TextKind::International => if n < texts.international.len() {
                lemma_merge_keeps_every_chunk(order, texts, i + 1, p, c, n + 1);
                let head = seq![texts.international[n]];
                let tail = merged_from(order, texts, i + 1, p, c, n + 1);
                let before = plain + compressed;
                let behind = texts.international.skip(n + 1);
                vstd::seq_lib::lemma_multiset_commutative(head, tail);
                vstd::seq_lib::lemma_multiset_commutative(before, behind);
                vstd::seq_lib::lemma_multiset_commutative(before, head + behind);
                vstd::seq_lib::lemma_multiset_commutative(head, behind);
                assert(before + (head + behind) =~= plain + compressed + international);
            } else {
                lemma_merge_keeps_every_chunk(order, texts, i + 1, p, c, n);
            },
        }
    }
}

/// The entries that stand for a list of chunks; or the keyword of the first
/// chunk whose text could not be read.
pub fn entries_from_chunks(chunks: &Vec<TextChunk>) -> (r: Result<Vec<MetadataEntry>, String>)
    ensures
        match r {
            Ok(entries) => entries_of_chunks(chunks.deep_view()) == Ok::<
                Seq<MetadataEntryView>,
                Seq<char>,
            >(entries.deep_view()),
            Err(keyword) => entries_of_chunks(chunks.deep_view()) == Err::<
                Seq<MetadataEntryView>,
                Seq<char>,
            >(keyword@),
        },
{
    let ghost all = chunks.deep_view();
    let mut entries: Vec<MetadataEntry> = Vec::new();
    let mut i: usize = 0;
    while i < chunks.len()
        invariant
            i <= chunks.len(),
            all == chunks.deep_view(),
            entries.len() == i,
            all_readable(all.take(i as int)),
            forall|k: int|
                0 <= k < i ==> (#[trigger] entries[k])@ == entry_of_text(
                    all[k].keyword,
                    all[k].text->0,
                ),
        decreases chunks.len() - i,
    {
        let chunk = &chunks[i];
        assert(all[i as int] == chunk@);
        match &chunk.text {
            Some(text) => {
                entries.push(
                    MetadataEntry {
                        key: chunk.keyword.clone(),
                        value: text.clone(),
                        category: "text chunk".to_owned(),
                    },
                );
            },
            None => {
                proof {
                    lemma_first_unreadable(all, i as int);
                }
                return Err(chunk.keyword.clone());
            },
        }
        proof {
            assert forall|k: int| 0 <= k < i + 1 implies (#[trigger] all.take(i + 1)[k]).text
                is Some by {
                if k < i {
                    assert(all.take(i as int)[k] == all[k]);
                }
            }
        }
        i += 1;
    }
    proof {
        assert(all.take(i as int) =~= all);
        assert(entries.deep_view() =~= Seq::new(
            all.len(),
            |k: int| entry_of_text(all[k].keyword, all[k].text->0),
        ));
    }
    Ok(entries)
}

/// A chunk without text, with readable chunks alone before it, is the first
/// chunk without text.
proof fn lemma_first_unreadable(chunks: Seq<TextChunkView>, at: int)
    requires
        0 <= at < chunks.len(),
        chunks[at].text is None,
        all_readable(chunks.take(at)),
    ensures
        !all_readable(chunks),
        first_unreadable(chunks) == at,
{
    let found = first_unreadable(chunks);
    assert(0 <= found < chunks.len() && chunks[found].text is None && all_readable(
        chunks.take(found),
    ));
    if found < at {
        assert(chunks.take(at)[found] == chunks[found]);
    }
    if at < found {
        assert(chunks.take(found)[at] == chunks[at]);
    }
}

/// The chunks of the three lists as one list, in the order in which their
/// kinds stand in `order`.
pub fn chunks_in_stream_order(order: &Vec<TextKind>, texts: &PngTexts) -> (r: Vec<TextChunk>)
    ensures
        r.deep_view() == in_stream_order(order@, texts@),
{
    let ghost all = texts@;
    let mut chunks: Vec<TextChunk> = Vec::new();
    let mut p: usize = 0;
    let mut c: usize = 0;
    let mut n: usize = 0;
    let mut i: usize = 0;
    assert(chunks.deep_view() + merged_from(order@, all, 0, 0, 0, 0) =~= in_stream_order(
        order@,
        all,
    ));
    while i < order.len()
        invariant
            all == texts@,
            i <= order.len(),
            p <= texts.plain.len(),
            c <= texts.compressed.len(),
            n <= texts.international.len(),
            in_stream_order(order@, all) == chunks.deep_view() + merged_from(
                order@,
                all,
                i as int,
                p as int,
                c as int,
                n as int,
            ),
        decreases order.len() - i,
    {
        let ghost before = chunks.deep_view();
        let ghost rest = merged_from(order@, all, i as int, p as int, c as int, n as int);
        match order[i] {
            TextKind::Plain => {
                if p < texts.plain.len() {
                    chunks.push(texts.plain[p].clone());
                    p += 1;
                }
            },
            TextKind::Compressed => {
                if c < texts.compressed.len() {
                    chunks.push(texts.compressed[c].clone());
                    c += 1;
                }
            },
            TextKind::International => {
                if n < texts.international.len() {
                    chunks.push(texts.international[n].clone());
                    n += 1;
                }
            },
        }
        i += 1;
        proof {
            let next = merged_from(order@, all, i as int, p as int, c as int, n as int);
            if chunks.len() == before.len() {
                assert(chunks.deep_view() =~= before);
                assert(rest == next);
            } else {
                let added = chunks[chunks.len() - 1]@;
                assert(chunks.deep_view() =~= before.push(added));
                assert(rest == seq![added] + next);
                assert(before + rest =~= before.push(added) + next);
            }
        }
    }
    let ghost target = in_stream_order(order@, all);
    while p < texts.plain.len()
        invariant
            all == texts@,
            p <= texts.plain.len(),
            c <= texts.compressed.len(),
            n <= texts.international.len(),
            target == chunks.deep_view() + (all.plain.skip(p as int) + all.compressed.skip(
                c as int,
            ) + all.international.skip(n as int)),
        decreases texts.plain.len() - p,
    {
        let ghost before = chunks.deep_view();
        chunks.push(texts.plain[p].clone());
        p += 1;
        proof {
            let added = chunks[chunks.len() - 1]@;
            assert(chunks.deep_view() =~= before.push(added));
            assert(all.plain.skip(p - 1) =~= seq![added] + all.plain.skip(p as int));
            assert(before + (all.plain.skip(p - 1) + all.compressed.skip(c as int)
                + all.international.skip(n as int)) =~= before.push(added) + (all.plain.skip(
                p as int,
            ) + all.compressed.skip(c as int) + all.international.skip(n as int)));
        }
    }
    while c < texts.compressed.len()
        invariant
            all == texts@,
            p == texts.plain.len(),
            c <= texts.compressed.len(),
            n <= texts.international.len(),
            target == chunks.deep_view() + (all.compressed.skip(c as int)
                + all.international.skip(n as int)),
        decreases texts.compressed.len() - c,
    {
        let ghost before = chunks.deep_view();
        chunks.push(texts.compressed[c].clone());
        c += 1;
        proof {
            let added = chunks[chunks.len() - 1]@;
            assert(chunks.deep_view() =~= before.push(added));
            assert(all.compressed.skip(c - 1) =~= seq![added] + all.compressed.skip(c as int));
            assert(before + (all.compressed.skip(c - 1) + all.international.skip(n as int))
                =~= before.push(added) + (all.compressed.skip(c as int)
                + all.international.skip(n as int)));
        }
    }
    while n < texts.international.len()
        invariant
            all == texts@,
            n <= texts.international.len(),
            target == chunks.deep_view() + all.international.skip(n as int),
        decreases texts.international.len() - n,
    {
        let ghost before = chunks.deep_view();
        chunks.push(texts.international[n].clone());
        n += 1;
        proof {
            let added = chunks[chunks.len() - 1]@;
            assert(chunks.deep_view() =~= before.push(added));
            assert(all.international.skip(n - 1) =~= seq![added] + all.international.skip(
                n as int,
            ));
            assert(before + all.international.skip(n - 1) =~= before.push(added)
                + all.international.skip(n as int));
        }
    }
    assert(chunks.deep_view() + all.international.skip(n as int) =~= chunks.deep_view());
    chunks
}

/// The metadata that the textual chunks of a file amount to, the chunks
/// taken in the order in which their kinds stand in `order`.
pub fn entries_from_texts(order: &Vec<TextKind>, texts: &PngTexts) -> (r: Result<
    Vec<MetadataEntry>,
    ScrubError,
>)
    ensures
        metadata_outcome(r) == metadata_of_texts(order@, texts@),
{
    let chunks = chunks_in_stream_order(order, texts);
    match entries_from_chunks(&chunks) {
        Ok(entries) => Ok(entries),
        Err(keyword) => Err(unreadable_text_error(&keyword)),
    }
}

/// The error for a chunk whose text could not be read.
fn unreadable_text_error(keyword: &String) -> (r: ScrubError)
    ensures
        r@ == unreadable_text(keyword@),
{
    ScrubError::ParsingError("Unreadable text in chunk: ".to_owned().concat(keyword.as_str()))
}

} // verus!
