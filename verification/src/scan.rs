//! Candidate hits of a scanned file, and the line/column of a byte offset.
//! Extraction itself runs the Tailwind extractor around the library.

use vstd::prelude::*;

verus! {

pub struct CandidateHit {
    pub class: String,
    /// Byte offset in the (pre-processed) content.
    pub offset: usize,
}

pub struct FileScan {
    pub path: String,
    pub content: Vec<u8>,
    pub candidates: Vec<CandidateHit>,
}

/// Line and column (1-based) after the first `n` bytes.
pub open spec fn line_col_spec(b: Seq<u8>, n: int) -> (int, int)
    decreases n,
{
    if n <= 0 {
        (1, 1)
    } else {
        let (l, c) = line_col_spec(b, n - 1);
        if b[n - 1] == '\n' as u8 { (l + 1, 1) } else { (l, c + 1) }
    }
}

proof fn lemma_line_col_bound(b: Seq<u8>, n: int)
    requires
        0 <= n,
    ensures
        1 <= line_col_spec(b, n).0 <= n + 1,
        1 <= line_col_spec(b, n).1 <= n + 1,
    decreases n,
{
    if n > 0 {
        lemma_line_col_bound(b, n - 1);
    }
}

/// Line/column of a byte offset in a content buffer (1-based); an offset
/// past the end counts as the end.
pub fn line_col(content: &[u8], offset: usize) -> (r: (usize, usize))
    requires
        content@.len() < usize::MAX,
    ensures
        (r.0 as int, r.1 as int) == line_col_spec(content@, if offset < content@.len() { offset as int } else { content@.len() as int }),
{
    let offset = if offset < content.len() { offset } else { content.len() };
    let mut line: usize = 1;
    let mut col: usize = 1;
    let mut i: usize = 0;
    while i < offset
        invariant
            offset <= content@.len(),
            content@.len() < usize::MAX,
            0 <= i <= offset,
            (line as int, col as int) == line_col_spec(content@, i as int),
        decreases offset - i,
    {
        proof { lemma_line_col_bound(content@, i as int); }
        if content[i] == 10u8 {
            line = line + 1;
            col = 1;
        } else {
            col = col + 1;
        }
        i = i + 1;
    }
    (line, col)
}

} // verus!
