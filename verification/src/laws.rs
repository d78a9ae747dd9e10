//! Laws of the parser, each proved from the definitions that the contracts
//! of the executable functions use.

use crate::config::{document_model, empty_table, ConfigTable};
use crate::decoder::{metadata_of_table, metadata_of_text};
use crate::metadata::{default_metadata, ParsedView};
use crate::parser::{content_of, parsed_document};
use crate::scanner::{
    delimiter, delimiter_at, first_delimiter, lemma_delimiter_at, lemma_first_delimiter,
    lemma_first_delimiter_is, lemma_no_delimiter, metadata_block, split_document,
};
use crate::text::{is_whitespace, lemma_trim_len, trim};
use vstd::prelude::*;

verus! {

/// A document without any delimiter is all content, untrimmed, and has no
/// metadata.
pub proof fn law_plain_document(d: Seq<char>)
    requires
        forall|i: int| !delimiter_at(d, i),
    ensures
        parsed_document(d) == (ParsedView { metadata: None, content: d }),
{
    lemma_no_delimiter(d, 0);
}

/// A document whose first delimiter is followed by no further one is all
/// content, untrimmed, and has no metadata: an unterminated block is no
/// block.
pub proof fn law_unterminated_block(d: Seq<char>, i: int)
    requires
        delimiter_at(d, i),
        forall|j: int| j < i ==> !delimiter_at(d, j),
        forall|j: int| i + 5 <= j ==> !delimiter_at(d, j),
    ensures
        parsed_document(d) == (ParsedView { metadata: None, content: d }),
{
    lemma_first_delimiter_is(d, 0, i);
    lemma_no_delimiter(d, i + 5);
}

/// A document with exactly one delimiter is all content, untrimmed, and
/// has no metadata.
pub proof fn law_single_delimiter(d: Seq<char>, i: int)
    requires
        delimiter_at(d, i),
        forall|j: int| j != i ==> !delimiter_at(d, j),
    ensures
        parsed_document(d) == (ParsedView { metadata: None, content: d }),
{
    law_unterminated_block(d, i);
}

/// In a document written as `pre`, delimiter, `meta`, delimiter, `post`,
/// where no delimiter starts before the first of the two and none starts
/// between them, the content is the trimmed `pre` followed by the trimmed
/// `post`, and the metadata is what the trimmed `meta` decodes to.
pub proof fn law_block_document(pre: Seq<char>, meta: Seq<char>, post: Seq<char>)
    requires
        forall|j: int|
            j < pre.len() ==> !delimiter_at(pre + delimiter() + meta + delimiter() + post, j),
        forall|j: int|
            pre.len() + 5 <= j < pre.len() + 5 + meta.len() ==> !delimiter_at(
                pre + delimiter() + meta + delimiter() + post,
                j,
            ),
    ensures
        parsed_document(pre + delimiter() + meta + delimiter() + post) == (ParsedView {
            metadata: metadata_of_text(trim(meta)),
            content: trim(pre) + trim(post),
        }),
{
    let d = pre + delimiter() + meta + delimiter() + post;
    let open = pre.len() as int;
    let close = open + 5 + meta.len();
    assert(d.len() == close + 5 + post.len());
    assert(d.subrange(open, open + 5) =~= delimiter());
    assert(d.subrange(close, close + 5) =~= delimiter());
    lemma_delimiter_at(d, open);
    lemma_delimiter_at(d, close);
    lemma_first_delimiter_is(d, 0, open);
    lemma_first_delimiter_is(d, open + 5, close);
    assert(metadata_block(d) == Some((open, close)));
    assert(d.subrange(0, open) =~= pre);
    assert(d.subrange(open + 5, close) =~= meta);
    assert(d.subrange(close + 5, d.len() as int) =~= post);
}

/// The content of a document with a metadata block is at least ten
/// characters shorter than the document.
pub proof fn law_block_shortens(d: Seq<char>)
    requires
        split_document(d) is Some,
    ensures
        content_of(d).len() + 10 <= d.len(),
{
    lemma_first_delimiter(d, 0);
    let open = first_delimiter(d, 0)->0;
    lemma_first_delimiter(d, open + 5);
    let close = first_delimiter(d, open + 5)->0;
    lemma_trim_len(d.subrange(0, open));
    lemma_trim_len(d.subrange(close + 5, d.len() as int));
}

/// Parsing the content of a parsed document again changes nothing and
/// finds no metadata, where that content holds no metadata block of its
/// own. (Where it holds one, the second parse removes it: see
/// `law_block_shortens`.)
pub proof fn law_reparse_content(d: Seq<char>)
    requires
        split_document(content_of(d)) is None,
    ensures
        parsed_document(parsed_document(d).content) == (ParsedView {
            metadata: None,
            content: parsed_document(d).content,
        }),
{
}

/// A table without any of the four display toggles decodes, if at all, to
/// a record that shows the references tab and hides the other three.
pub proof fn law_default_toggles(t: ConfigTable)
    requires
        !t.contains_key("show_references"@),
        !t.contains_key("show_demo"@),
        !t.contains_key("show_related"@),
        !t.contains_key("show_quiz"@),
        metadata_of_table(t) is Some,
    ensures
        metadata_of_table(t)->0.show_references,
        !metadata_of_table(t)->0.show_demo,
        !metadata_of_table(t)->0.show_related,
        !metadata_of_table(t)->0.show_quiz,
{
}

/// A configuration text whose document has none of the four display
/// toggles decodes, if at all, to a record that shows the references tab
/// and hides the other three.
pub proof fn law_default_toggles_of_text(text: Seq<char>)
    requires
        metadata_of_text(text) is Some,
        !document_model(text)->0.contains_key("show_references"@),
        !document_model(text)->0.contains_key("show_demo"@),
        !document_model(text)->0.contains_key("show_related"@),
        !document_model(text)->0.contains_key("show_quiz"@),
    ensures
        metadata_of_text(text)->0.show_references,
        !metadata_of_text(text)->0.show_demo,
        !metadata_of_text(text)->0.show_related,
        !metadata_of_text(text)->0.show_quiz,
{
    law_default_toggles(document_model(text)->0);
}

/// The empty configuration text decodes to the record of defaults.
pub proof fn law_empty_text()
    ensures
        metadata_of_text(Seq::empty()) == Some(default_metadata()),
{
}

/// The table without keys decodes to the record of defaults.
pub proof fn law_empty_table()
    ensures
        metadata_of_table(empty_table()) == Some(default_metadata()),
{
}

/// A text of whitespace only trims to the empty text.
pub proof fn lemma_trim_whitespace(ws: Seq<char>)
    requires
        forall|i: int| 0 <= i < ws.len() ==> is_whitespace(#[trigger] ws[i]),
    ensures
        trim(ws) == Seq::<char>::empty(),
    decreases ws.len(),
{
    if ws.len() > 0 {
        lemma_trim_whitespace(ws.drop_first());
    } else {
        assert(ws =~= Seq::<char>::empty());
    }
}

/// A block that holds nothing but whitespace decodes to the record of
/// defaults, and leaves no content.
pub proof fn law_empty_block(ws: Seq<char>)
    requires
        forall|i: int| 0 <= i < ws.len() ==> is_whitespace(#[trigger] ws[i]),
    ensures
        parsed_document(delimiter() + ws + delimiter()) == (ParsedView {
            metadata: Some(default_metadata()),
            content: Seq::empty(),
        }),
{
    let d = delimiter() + ws + delimiter();
    let post = Seq::<char>::empty();
    assert(d =~= post + delimiter() + ws + delimiter() + post);
    assert forall|j: int| 5 <= j < 5 + ws.len() implies !delimiter_at(d, j) by {
        assert(d[j] == ws[j - 5]);
        assert(is_whitespace(ws[j - 5]));
    }
    law_block_document(post, ws, post);
    lemma_trim_whitespace(ws);
    lemma_trim_whitespace(post);
    law_empty_table();
    assert(trim(post) + trim(post) =~= Seq::<char>::empty());
}

} // verus!
