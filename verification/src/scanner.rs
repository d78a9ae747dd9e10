//! The delimiter scanner: finds the first two `#####` delimiters of a
//! document and splits it into the text before, between and after them.

use crate::text::{chars_of, trim, trim_bounds};
use vstd::prelude::*;

verus! {

/// Number of characters in the delimiter.
pub const DELIMITER_LEN: usize = 5;

/// The delimiter, five number signs.
pub open spec fn delimiter() -> Seq<char> {
    seq!['#', '#', '#', '#', '#']
}

/// Whether the delimiter occurs in `text` starting at index `i`.
pub open spec fn delimiter_at(text: Seq<char>, i: int) -> bool {
    &&& 0 <= i
    &&& i + 5 <= text.len()
    &&& text[i] == '#'
    &&& text[i + 1] == '#'
    &&& text[i + 2] == '#'
    &&& text[i + 3] == '#'
    &&& text[i + 4] == '#'
}

/// Index of the first delimiter that starts at `from` or later.
pub open spec fn first_delimiter(text: Seq<char>, from: int) -> Option<int>
    decreases text.len() - from,
{
    if from < 0 || from + 5 > text.len() {
        None
    } else if delimiter_at(text, from) {
        Some(from)
    } else {
        first_delimiter(text, from + 1)
    }
}

/// Start indices of the opening and the closing delimiter: the first
/// delimiter of the text, and the first one after the end of that.
pub open spec fn metadata_block(text: Seq<char>) -> Option<(int, int)> {
    match first_delimiter(text, 0) {
        Some(open) => match first_delimiter(text, open + 5) {
            Some(close) => Some((open, close)),
            None => None,
        },
        None => None,
    }
}

/// The three parts of a document with a metadata block.
pub ghost struct SplitView {
    pub before: Seq<char>,
    pub metadata: Seq<char>,
    pub after: Seq<char>,
}

/// The parts of `text` around its metadata block, the block itself trimmed.
pub open spec fn split_document(text: Seq<char>) -> Option<SplitView> {
    match metadata_block(text) {
        Some((open, close)) => Some(
            SplitView {
                before: text.subrange(0, open),
                metadata: trim(text.subrange(open + 5, close)),
                after: text.subrange(close + 5, text.len() as int),
            },
        ),
        None => None,
    }
}

/// A delimiter at `i` is an occurrence of the five number signs there.
pub proof fn lemma_delimiter_at(text: Seq<char>, i: int)
    requires
        0 <= i,
        i + 5 <= text.len(),
    ensures
        delimiter_at(text, i) <==> text.subrange(i, i + 5) == delimiter(),
{
    let window = text.subrange(i, i + 5);
    if delimiter_at(text, i) {
        assert(window =~= delimiter());
    }
    if window == delimiter() {
        assert(text[i] == window[0]);
        assert(text[i + 1] == window[1]);
        assert(text[i + 2] == window[2]);
        assert(text[i + 3] == window[3]);
        assert(text[i + 4] == window[4]);
    }
}

/// What `first_delimiter` finds is a delimiter, and the earliest one.
pub proof fn lemma_first_delimiter(text: Seq<char>, from: int)
    requires
        0 <= from,
    ensures
        match first_delimiter(text, from) {
            Some(i) => from <= i && delimiter_at(text, i) && forall|j: int|
                from <= j < i ==> !delimiter_at(text, j),
            None => forall|j: int| from <= j ==> !delimiter_at(text, j),
        },
    decreases text.len() - from,
{
    if from + 5 <= text.len() && !delimiter_at(text, from) {
        lemma_first_delimiter(text, from + 1);
    }
}

/// The earliest delimiter at or after `from` is what `first_delimiter` finds.
pub proof fn lemma_first_delimiter_is(text: Seq<char>, from: int, i: int)
    requires
        0 <= from <= i,
        delimiter_at(text, i),
        forall|j: int| from <= j < i ==> !delimiter_at(text, j),
    ensures
        first_delimiter(text, from) == Some(i),
    decreases i - from,
{
    if from < i {
        lemma_first_delimiter_is(text, from + 1, i);
    }
}

/// Without a delimiter at or after `from`, `first_delimiter` finds none.
pub proof fn lemma_no_delimiter(text: Seq<char>, from: int)
    requires
        0 <= from,
        forall|j: int| from <= j ==> !delimiter_at(text, j),
    ensures
        first_delimiter(text, from) is None,
    decreases text.len() - from,
{
    if from + 5 <= text.len() {
        lemma_no_delimiter(text, from + 1);
    }
}

/// Tests whether a delimiter starts at index `i`.
fn starts_delimiter(text: &Vec<char>, i: usize) -> (r: bool)
    requires
        i + 5 <= text.len(),
    ensures
        r == delimiter_at(text@, i as int),
{
    text[i] == '#' && text[i + 1] == '#' && text[i + 2] == '#' && text[i + 3] == '#'
        && text[i + 4] == '#'
}

/// Searches `text` for the first delimiter that starts at `from` or later.
pub fn find_delimiter(text: &Vec<char>, from: usize) -> (r: Option<usize>)
    ensures
        match r {
            Some(i) => first_delimiter(text@, from as int) == Some(i as int) && from <= i && i + 5
                <= text.len(),
            None => first_delimiter(text@, from as int) is None,
        },
{
    let n: usize = text.len();
    if n < DELIMITER_LEN || from > n - DELIMITER_LEN {
        return None;
    }
    let mut i: usize = from;
    while i <= n - DELIMITER_LEN
        invariant
            n == text.len(),
            n >= 5,
            from <= i,
            i <= n - 5 + 1,
            first_delimiter(text@, from as int) == first_delimiter(text@, i as int),
        decreases n - i,
    {
        if starts_delimiter(text, i) {
            return Some(i);
        }
        i = i + 1;
    }
    None
}

/// The three parts of a document with a metadata block.
#[derive(Clone, Debug, PartialEq)]
pub struct MetadataSplit {
    /// Everything before the opening delimiter.
    pub before: String,
    /// The text between the delimiters, trimmed.
    pub metadata: String,
    /// Everything after the closing delimiter.
    pub after: String,
}

impl View for MetadataSplit {
    type V = SplitView;

    open spec fn view(&self) -> SplitView {
        SplitView { before: self.before@, metadata: self.metadata@, after: self.after@ }
    }
}

/// View of an optional split.
pub open spec fn split_view(s: Option<MetadataSplit>) -> Option<SplitView> {
    match s {
        Some(s) => Some(s@),
        None => None,
    }
}

/// Locates the metadata block of a document. A document without an opening
/// delimiter, or without a closing one after it, has no block.
pub fn find_metadata_block(text: &str) -> (r: Option<MetadataSplit>)
    ensures
        split_view(r) == split_document(text@),
{
    let chars = chars_of(text);
    let open = find_delimiter(&chars, 0)?;
    let close = find_delimiter(&chars, open + DELIMITER_LEN)?;
    let (lo, hi) = trim_bounds(&chars, open + DELIMITER_LEN, close);
    let before = text.substring_char(0, open).to_owned();
    let metadata = text.substring_char(lo, hi).to_owned();
    let after = text.substring_char(close + DELIMITER_LEN, chars.len()).to_owned();
    Some(MetadataSplit { before, metadata, after })
}

} // verus!
