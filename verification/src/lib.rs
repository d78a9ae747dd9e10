//! Front-matter markdown parsing: a document is split at the first two
//! `#####` delimiters into a metadata block and the display content.

pub mod config;
pub mod decoder;
pub mod github;
pub mod laws;
pub mod metadata;
pub mod parser;
pub mod scanner;
pub mod text;

pub use decoder::{decode_metadata, decode_reference, decode_series, decode_table};
pub use metadata::{default_true, ArticleSeries, ArticleTomlMetadata, ParsedMarkdown, Reference};
pub use parser::{
    assemble_content, extract_content_without_metadata, parse_markdown_with_metadata,
    parse_toml_metadata,
};
pub use scanner::{find_delimiter, find_metadata_block, MetadataSplit};
