//! The metadata record of an article and its nested records, each with the
//! mathematical view that the contracts speak of.

use vstd::prelude::*;

verus! {

/// View of an optional string.
pub open spec fn text_view(s: Option<String>) -> Option<Seq<char>> {
    match s {
        Some(s) => Some(s@),
        None => None,
    }
}

/// View of a sequence of strings, element by element.
pub open spec fn texts_view(v: Seq<String>) -> Seq<Seq<char>> {
    Seq::new(v.len(), |i: int| v[i]@)
}

/// A reference or resource link.
#[derive(Clone, Debug, PartialEq)]
pub struct Reference {
    /// The title of the reference.
    pub title: String,
    /// The URL of the reference.
    pub url: String,
    /// What the reference is about.
    pub description: Option<String>,
}

pub ghost struct ReferenceView {
    pub title: Seq<char>,
    pub url: Seq<char>,
    pub description: Option<Seq<char>>,
}

impl View for Reference {
    type V = ReferenceView;

    open spec fn view(&self) -> ReferenceView {
        ReferenceView {
            title: self.title@,
            url: self.url@,
            description: text_view(self.description),
        }
    }
}

/// Navigation within one series that an article belongs to.
#[derive(Clone, Debug, PartialEq)]
pub struct ArticleSeries {
    /// Name of the series.
    pub name: String,
    /// Previous article in this series.
    pub prev: Option<String>,
    /// Next article in this series.
    pub next: Option<String>,
}

pub ghost struct SeriesView {
    pub name: Seq<char>,
    pub prev: Option<Seq<char>>,
    pub next: Option<Seq<char>>,
}

impl View for ArticleSeries {
    type V = SeriesView;

    open spec fn view(&self) -> SeriesView {
        SeriesView { name: self.name@, prev: text_view(self.prev), next: text_view(self.next) }
    }
}

/// View of a sequence of references, element by element.
pub open spec fn references_view(v: Seq<Reference>) -> Seq<ReferenceView> {
    Seq::new(v.len(), |i: int| v[i]@)
}

/// View of a sequence of series links, element by element.
pub open spec fn series_view(v: Seq<ArticleSeries>) -> Seq<SeriesView> {
    Seq::new(v.len(), |i: int| v[i]@)
}

/// Metadata read from the front matter of a markdown document.
#[derive(Clone, Debug, PartialEq)]
pub struct ArticleTomlMetadata {
    pub date: Option<String>,
    pub author: Option<String>,
    pub summary: Option<String>,
    pub topics: Vec<String>,
    pub tags: Vec<String>,
    pub thumbnail: Option<String>,
    pub reading_time: Option<String>,
    pub category: Option<String>,
    /// Primary series, taken from the folder structure by the caller.
    pub primary_series: Option<String>,
    /// Names of the series that the article belongs to.
    pub series: Vec<String>,
    /// Navigation for each series.
    pub article_series: Vec<ArticleSeries>,
    /// Previous article in sequence; superseded by `article_series`.
    pub prev_article: Option<String>,
    /// Next article in sequence; superseded by `article_series`.
    pub next_article: Option<String>,
    /// References and resources for this article.
    pub references: Vec<Reference>,
    pub show_references: bool,
    pub show_demo: bool,
    pub show_related: bool,
    pub show_quiz: bool,
}

pub ghost struct MetadataView {
    pub date: Option<Seq<char>>,
    pub author: Option<Seq<char>>,
    pub summary: Option<Seq<char>>,
    pub topics: Seq<Seq<char>>,
    pub tags: Seq<Seq<char>>,
    pub thumbnail: Option<Seq<char>>,
    pub reading_time: Option<Seq<char>>,
    pub category: Option<Seq<char>>,
    pub primary_series: Option<Seq<char>>,
    pub series: Seq<Seq<char>>,
    pub article_series: Seq<SeriesView>,
    pub prev_article: Option<Seq<char>>,
    pub next_article: Option<Seq<char>>,
    pub references: Seq<ReferenceView>,
    pub show_references: bool,
    pub show_demo: bool,
    pub show_related: bool,
    pub show_quiz: bool,
}

impl View for ArticleTomlMetadata {
    type V = MetadataView;

    open spec fn view(&self) -> MetadataView {
        MetadataView {
            date: text_view(self.date),
            author: text_view(self.author),
            summary: text_view(self.summary),
            topics: texts_view(self.topics@),
            tags: texts_view(self.tags@),
            thumbnail: text_view(self.thumbnail),
            reading_time: text_view(self.reading_time),
            category: text_view(self.category),
            primary_series: text_view(self.primary_series),
            series: texts_view(self.series@),
            article_series: series_view(self.article_series@),
            prev_article: text_view(self.prev_article),
            next_article: text_view(self.next_article),
            references: references_view(self.references@),
            show_references: self.show_references,
            show_demo: self.show_demo,
            show_related: self.show_related,
            show_quiz: self.show_quiz,
        }
    }
}

/// The record in which every field has its default: no strings, empty
/// sequences, the references tab shown and the other tabs hidden.
pub open spec fn default_metadata() -> MetadataView {
    MetadataView {
        date: None,
        author: None,
        summary: None,
        topics: Seq::empty(),
        tags: Seq::empty(),
        thumbnail: None,
        reading_time: None,
        category: None,
        primary_series: None,
        series: Seq::empty(),
        article_series: Seq::empty(),
        prev_article: None,
        next_article: None,
        references: Seq::empty(),
        show_references: true,
        show_demo: false,
        show_related: false,
        show_quiz: false,
    }
}

/// Default of `show_references`: the references tab is shown unless the
/// metadata says otherwise.
pub fn default_true() -> (r: bool)
    ensures
        r,
{
    true
}

impl Default for ArticleTomlMetadata {
    fn default() -> (r: Self)
        ensures
            r@ == default_metadata(),
    {
        let r = ArticleTomlMetadata {
            date: None,
            author: None,
            summary: None,
            topics: Vec::new(),
            tags: Vec::new(),
            thumbnail: None,
            reading_time: None,
            category: None,
            primary_series: None,
            series: Vec::new(),
            article_series: Vec::new(),
            prev_article: None,
            next_article: None,
            references: Vec::new(),
            show_references: default_true(),
            show_demo: false,
            show_related: false,
            show_quiz: false,
        };
        assert(r@.topics =~= Seq::empty());
        assert(r@.tags =~= Seq::empty());
        assert(r@.series =~= Seq::empty());
        assert(r@.article_series =~= Seq::empty());
        assert(r@.references =~= Seq::empty());
        r
    }
}

/// View of an optional metadata record.
pub open spec fn metadata_view(m: Option<ArticleTomlMetadata>) -> Option<MetadataView> {
    match m {
        Some(m) => Some(m@),
        None => None,
    }
}

/// Result of parsing a markdown document with front matter.
#[derive(Clone, Debug, PartialEq)]
pub struct ParsedMarkdown {
    /// The decoded metadata, if the document has a block that decodes.
    pub metadata: Option<ArticleTomlMetadata>,
    /// The markdown content without the metadata block and its delimiters.
    pub content: String,
}

pub ghost struct ParsedView {
    pub metadata: Option<MetadataView>,
    pub content: Seq<char>,
}

impl View for ParsedMarkdown {
    type V = ParsedView;

    open spec fn view(&self) -> ParsedView {
        ParsedView { metadata: metadata_view(self.metadata), content: self.content@ }
    }
}

} // verus!
