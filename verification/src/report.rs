//! The report shown for a file: one block per textual annotation chunk.
//!
//! A block is a header line with the chunk's keyword in lenticular brackets,
//! the chunk's text with normalised line endings, and a blank separator line.
//! The report is the blocks of all chunks, in file order, with nothing between
//! them.

use crate::text::{normalize_line_endings, normalized};
use vstd::prelude::*;
use vstd::string::StringExecFns;

verus! {

/// The bracket that opens a header line.
pub const HEADER_OPEN: char = '\u{3010}';

/// The bracket that closes a header line.
pub const HEADER_CLOSE: char = '\u{3011}';

/// A textual annotation chunk: a keyword and the text filed under it.
#[derive(Clone, Debug, PartialEq, Eq)]
pub struct Chunk {
    pub keyword: String,
    pub text: String,
}

/// What a chunk holds, as sequences of characters.
pub ghost struct ChunkView {
    pub keyword: Seq<char>,
    pub text: Seq<char>,
}

impl View for Chunk {
    type V = ChunkView;

    open spec fn view(&self) -> ChunkView {
        ChunkView { keyword: self.keyword@, text: self.text@ }
    }
}

/// The chunks of a list, each by its view, in the same order.
pub open spec fn chunk_views(chunks: Seq<Chunk>) -> Seq<ChunkView> {
    chunks.map_values(|c: Chunk| c@)
}

/// The header line of a chunk: its keyword in brackets, then a line break.
pub open spec fn header(chunk: ChunkView) -> Seq<char> {
    seq![HEADER_OPEN] + chunk.keyword + seq![HEADER_CLOSE, '\r', '\n']
}

/// The block of a chunk: header line, normalised text, line break, blank line.
pub open spec fn block(chunk: ChunkView) -> Seq<char> {
    header(chunk) + normalized(chunk.text) + seq!['\r', '\n', '\r', '\n']
}

/// The report of a list of chunks: their blocks one after another.
pub open spec fn report(chunks: Seq<ChunkView>) -> Seq<char>
    decreases chunks.len(),
{
    if chunks.len() == 0 {
        Seq::empty()
    } else {
        report(chunks.drop_last()) + block(chunks.last())
    }
}

/// Where the block of chunk `k` starts in the report: behind the blocks of
/// the `k` chunks before it.
pub open spec fn block_start(chunks: Seq<ChunkView>, k: int) -> int {
    report(chunks.take(k)).len() as int
}

impl Chunk {
    /// A chunk with the given keyword and text.
    pub fn new(keyword: String, text: String) -> (chunk: Chunk)
        ensures
            chunk.keyword@ == keyword@,
            chunk.text@ == text@,
            chunk@ == (ChunkView { keyword: keyword@, text: text@ }),
    {
        Chunk { keyword, text }
    }
}

/// Appends the block of `chunk` to `out`.
pub fn append_block(out: &mut String, chunk: &Chunk)
    ensures
        final(out)@ == old(out)@ + block(chunk@),
{
    let text = normalize_line_endings(chunk.text.as_str());
    out.push(HEADER_OPEN);
    out.append(chunk.keyword.as_str());
    out.push(HEADER_CLOSE);
    out.push('\r');
    out.push('\n');
    out.append(text.as_str());
    out.push('\r');
    out.push('\n');
    out.push('\r');
    out.push('\n');
    assert(out@ =~= old(out)@ + block(chunk@));
}

/// The block of one chunk.
pub fn format_block(chunk: &Chunk) -> (out: String)
    ensures
        out@ == block(chunk@),
{
    let mut out = String::new();
    append_block(&mut out, chunk);
    assert(out@ =~= block(chunk@));
    out
}

/// The report of `chunks`: the block of each, in the order of the list. A
/// list without chunks gives the empty report.
pub fn format_report(chunks: &Vec<Chunk>) -> (out: String)
    ensures
        out@ == report(chunk_views(chunks@)),
        chunks@.len() == 0 ==> out@ == Seq::<char>::empty(),
{
    let mut out = String::new();
    let mut i: usize = 0;
    while i < chunks.len()
        invariant
            i <= chunks.len(),
            out@ == report(chunk_views(chunks@).take(i as int)),
        decreases chunks.len() - i,
    {
        append_block(&mut out, &chunks[i]);
        proof {
            let views = chunk_views(chunks@);
            assert(views.take(i + 1).drop_last() == views.take(i as int));
            assert(views.take(i + 1).last() == chunks@[i as int]@);
        }
        i += 1;
    }
    assert(chunk_views(chunks@).take(i as int) == chunk_views(chunks@));
    out
}

/// The report of two lists joined is the report of the first directly
/// followed by the report of the second.
pub proof fn lemma_report_concat(first: Seq<ChunkView>, second: Seq<ChunkView>)
    ensures
        report(first + second) == report(first) + report(second),
    decreases second.len(),
{
    if second.len() == 0 {
        assert(first + second == first);
        assert(report(first) + report(second) == report(first));
    } else {
        lemma_report_concat(first, second.drop_last());
        assert((first + second).drop_last() == first + second.drop_last());
        assert((first + second).last() == second.last());
        assert(report(first) + (report(second.drop_last()) + block(second.last())) == report(first)
            + report(second.drop_last()) + block(second.last()));
    }
}

/// The report of one chunk is that chunk's block.
pub proof fn lemma_report_single(chunk: ChunkView)
    ensures
        report(seq![chunk]) == block(chunk),
{
    assert(seq![chunk].drop_last() == Seq::<ChunkView>::empty());
    assert(report(seq![chunk]) == report(Seq::<ChunkView>::empty()) + block(chunk));
    assert(Seq::<char>::empty() + block(chunk) == block(chunk));
}

/// The report of `n` chunks holds exactly `n` blocks, in the order of the
/// chunks: the block of chunk `k` stands between the start of block `k` and
/// the start of block `k + 1`, the first block starts the report and the
/// last one ends it.
pub proof fn lemma_report_blocks(chunks: Seq<ChunkView>, k: int)
    requires
        0 <= k < chunks.len(),
    ensures
        block_start(chunks, 0) == 0,
        block_start(chunks, chunks.len() as int) == report(chunks).len(),
        block_start(chunks, k + 1) == block_start(chunks, k) + block(chunks[k]).len(),
        block_start(chunks, k + 1) <= report(chunks).len(),
        report(chunks).subrange(block_start(chunks, k), block_start(chunks, k + 1)) == block(
            chunks[k],
        ),
{
    assert(chunks.take(chunks.len() as int) == chunks);
    assert(chunks.take(k + 1).drop_last() == chunks.take(k));
    assert(chunks.take(k + 1).last() == chunks[k]);
    let head = chunks.take(k + 1);
    let tail = chunks.skip(k + 1);
    assert(head + tail == chunks);
    lemma_report_concat(head, tail);
    assert(report(chunks).subrange(block_start(chunks, k), block_start(chunks, k + 1)) =~= block(
        chunks[k],
    ));
}

/// Every block begins with its header line, whatever the text is, and the
/// header is never empty; with an empty text the block is the header line
/// followed by the two closing line breaks.
pub proof fn lemma_block_header(chunk: ChunkView)
    ensures
        header(chunk).len() == chunk.keyword.len() + 4,
        block(chunk).len() >= header(chunk).len() + 4,
        block(chunk).subrange(0, header(chunk).len() as int) == header(chunk),
        block(chunk)[0] == HEADER_OPEN,
        chunk.text.len() == 0 ==> block(chunk) == header(chunk) + seq!['\r', '\n', '\r', '\n'],
{
    assert(block(chunk).subrange(0, header(chunk).len() as int) =~= header(chunk));
    assert(normalized(Seq::<char>::empty()) =~= Seq::<char>::empty());
    if chunk.text.len() == 0 {
        assert(chunk.text =~= Seq::<char>::empty());
        assert(block(chunk) =~= header(chunk) + seq!['\r', '\n', '\r', '\n']);
    }
}

} // verus!
