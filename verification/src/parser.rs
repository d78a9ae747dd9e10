//! The entry points: scanning, decoding and content assembly put together.

use crate::decoder::{decode_metadata, metadata_of_text};
use crate::metadata::{
    metadata_view, ArticleTomlMetadata, MetadataView, ParsedMarkdown, ParsedView,
};
use crate::scanner::{find_metadata_block, split_document, split_view, MetadataSplit, SplitView};
use crate::text::{trim, trim_text};
use vstd::prelude::*;

verus! {

/// The display content of a document, given the outcome of the scan: the
/// document itself where it has no block, and else the trimmed text before
/// the block directly followed by the trimmed text after it.
pub open spec fn assembled(text: Seq<char>, split: Option<SplitView>) -> Seq<char> {
    match split {
        Some(s) => trim(s.before) + trim(s.after),
        None => text,
    }
}

/// The display content of a document.
pub open spec fn content_of(text: Seq<char>) -> Seq<char> {
    assembled(text, split_document(text))
}

/// The metadata of a document: what its block decodes to, and `None` where
/// it has no block or the block does not decode.
pub open spec fn metadata_of(text: Seq<char>) -> Option<MetadataView> {
    match split_document(text) {
        Some(s) => metadata_of_text(s.metadata),
        None => None,
    }
}

/// What parsing a document yields.
pub open spec fn parsed_document(text: Seq<char>) -> ParsedView {
    ParsedView { metadata: metadata_of(text), content: content_of(text) }
}

/// Builds the display content from the document and the outcome of the scan.
pub fn assemble_content(raw_document: &str, split: &Option<MetadataSplit>) -> (r: String)
    ensures
        r@ == assembled(raw_document@, split_view(*split)),
{
    match split {
        Some(s) => {
            let mut content = trim_text(s.before.as_str());
            let tail = trim_text(s.after.as_str());
            content.append(tail.as_str());
            content
        },
        None => raw_document.to_owned(),
    }
}

/// The metadata of a document alone: `None` where the document has no
/// block or the block does not decode.
pub fn parse_toml_metadata(content: &str) -> (r: Option<ArticleTomlMetadata>)
    ensures
        metadata_view(r) == metadata_of(content@),
{
    match find_metadata_block(content) {
        Some(s) => decode_metadata(s.metadata.as_str()),
        None => None,
    }
}

/// The document without its metadata block and the delimiters around it.
pub fn extract_content_without_metadata(content: &str) -> (r: String)
    ensures
        r@ == content_of(content@),
{
    let split = find_metadata_block(content);
    assemble_content(content, &split)
}

/// Parses a markdown document with front matter between two `#####`
/// delimiters. The block is removed from the content whether or not it
/// decodes.
pub fn parse_markdown_with_metadata(content: &str) -> (r: ParsedMarkdown)
    ensures
        r@ == parsed_document(content@),
{
    let split = find_metadata_block(content);
    let metadata = match &split {
        Some(s) => decode_metadata(s.metadata.as_str()),
        None => None,
    };
    let content = assemble_content(content, &split);
    ParsedMarkdown { metadata, content }
}

} // verus!
