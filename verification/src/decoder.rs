//! The metadata decoder: applies the metadata schema to a parsed
//! configuration table. A missing key takes its default, an unknown key is
//! ignored, and a value of the wrong kind fails the whole decode.

use crate::config::{
    document_model, parse_document, table_get, table_model, value_flag, value_items, value_model,
    value_table, value_text, ConfigTable, ConfigValue,
};
use crate::metadata::{
    metadata_view, references_view, series_view, text_view, texts_view, ArticleSeries,
    ArticleTomlMetadata, MetadataView, Reference, ReferenceView, SeriesView,
};
use vstd::prelude::*;

verus! {

/// An optional string under `key`: `Some(None)` where the key is missing,
/// `None` where its value is no string.
pub open spec fn optional_text(t: ConfigTable, key: Seq<char>) -> Option<Option<Seq<char>>> {
    if !t.contains_key(key) {
        Some(None)
    } else {
        match t[key] {
            ConfigValue::Text(s) => Some(Some(s)),
            _ => None,
        }
    }
}

/// A required string under `key`: `None` where the key is missing or its
/// value is no string.
pub open spec fn required_text(t: ConfigTable, key: Seq<char>) -> Option<Seq<char>> {
    if !t.contains_key(key) {
        None
    } else {
        match t[key] {
            ConfigValue::Text(s) => Some(s),
            _ => None,
        }
    }
}

/// A boolean under `key`, or `default` where the key is missing: `None`
/// where its value is no boolean.
pub open spec fn flag_or(t: ConfigTable, key: Seq<char>, default: bool) -> Option<bool> {
    if !t.contains_key(key) {
        Some(default)
    } else {
        match t[key] {
            ConfigValue::Flag(b) => Some(b),
            _ => None,
        }
    }
}

/// The strings of a list whose elements are all strings.
pub open spec fn texts_of(items: Seq<ConfigValue>) -> Option<Seq<Seq<char>>> {
    if forall|i: int| 0 <= i < items.len() ==> (#[trigger] items[i]) is Text {
        Some(Seq::new(items.len(), |i: int| items[i]->Text_0))
    } else {
        None
    }
}

/// A list of strings under `key`, empty where the key is missing: `None`
/// where its value is no list or an element is no string.
pub open spec fn text_list(t: ConfigTable, key: Seq<char>) -> Option<Seq<Seq<char>>> {
    if !t.contains_key(key) {
        Some(Seq::empty())
    } else {
        match t[key] {
            ConfigValue::List(items) => texts_of(items),
            _ => None,
        }
    }
}

/// A required string at position `i` of a record written as a list.
pub open spec fn required_item(items: Seq<ConfigValue>, i: int) -> Option<Seq<char>> {
    if 0 <= i < items.len() {
        match items[i] {
            ConfigValue::Text(s) => Some(s),
            _ => None,
        }
    } else {
        None
    }
}

/// An optional string at position `i` of a record written as a list.
pub open spec fn optional_item(items: Seq<ConfigValue>, i: int) -> Option<Option<Seq<char>>> {
    if 0 <= i < items.len() {
        match items[i] {
            ConfigValue::Text(s) => Some(Some(s)),
            _ => None,
        }
    } else {
        Some(None)
    }
}

/// The reference that a value stands for. A table gives the fields by
/// key, `title` and `url` being required; a list gives them by position,
/// in the order title, url, description, and what follows is ignored.
pub open spec fn reference_of(v: ConfigValue) -> Option<ReferenceView> {
    match v {
        ConfigValue::Table(t) => match (
            required_text(t, "title"@),
            required_text(t, "url"@),
            optional_text(t, "description"@),
        ) {
            (Some(title), Some(url), Some(description)) => Some(
                ReferenceView { title, url, description },
            ),
            _ => None,
        },
        ConfigValue::List(items) => match (
            required_item(items, 0),
            required_item(items, 1),
            optional_item(items, 2),
        ) {
            (Some(title), Some(url), Some(description)) => Some(
                ReferenceView { title, url, description },
            ),
            _ => None,
        },
        _ => None,
    }
}

/// The series link that a value stands for. A table gives the fields by
/// key, `name` being required; a list gives them by position, in the order
/// name, prev, next, and what follows is ignored.
pub open spec fn series_of(v: ConfigValue) -> Option<SeriesView> {
    match v {
        ConfigValue::Table(t) => match (
            required_text(t, "name"@),
            optional_text(t, "prev"@),
            optional_text(t, "next"@),
        ) {
            (Some(name), Some(prev), Some(next)) => Some(SeriesView { name, prev, next }),
            _ => None,
        },
        ConfigValue::List(items) => match (
            required_item(items, 0),
            optional_item(items, 1),
            optional_item(items, 2),
        ) {
            (Some(name), Some(prev), Some(next)) => Some(SeriesView { name, prev, next }),
            _ => None,
        },
        _ => None,
    }
}

/// The references of a list whose elements all stand for one.
pub open spec fn references_of(items: Seq<ConfigValue>) -> Option<Seq<ReferenceView>> {
    if forall|i: int| 0 <= i < items.len() ==> reference_of(#[trigger] items[i]) is Some {
        Some(Seq::new(items.len(), |i: int| reference_of(items[i])->0))
    } else {
        None
    }
}

/// The series links of a list whose elements all stand for one.
pub open spec fn series_links_of(items: Seq<ConfigValue>) -> Option<Seq<SeriesView>> {
    if forall|i: int| 0 <= i < items.len() ==> series_of(#[trigger] items[i]) is Some {
        Some(Seq::new(items.len(), |i: int| series_of(items[i])->0))
    } else {
        None
    }
}

/// The references under `key`, none where the key is missing: `None` where
/// its value is no list or an element stands for no reference.
pub open spec fn reference_list(t: ConfigTable, key: Seq<char>) -> Option<Seq<ReferenceView>> {
    if !t.contains_key(key) {
        Some(Seq::empty())
    } else {
        match t[key] {
            ConfigValue::List(items) => references_of(items),
            _ => None,
        }
    }
}

/// The series links under `key`, none where the key is missing: `None`
/// where its value is no list or an element stands for no series link.
pub open spec fn series_list(t: ConfigTable, key: Seq<char>) -> Option<Seq<SeriesView>> {
    if !t.contains_key(key) {
        Some(Seq::empty())
    } else {
        match t[key] {
            ConfigValue::List(items) => series_links_of(items),
            _ => None,
        }
    }
}

/// Whether every field of the schema that `t` holds has the right kind.
pub open spec fn well_typed(t: ConfigTable) -> bool {
    &&& optional_text(t, "date"@) is Some
    &&& optional_text(t, "author"@) is Some
    &&& optional_text(t, "summary"@) is Some
    &&& text_list(t, "topics"@) is Some
    &&& text_list(t, "tags"@) is Some
    &&& optional_text(t, "thumbnail"@) is Some
    &&& optional_text(t, "reading_time"@) is Some
    &&& optional_text(t, "category"@) is Some
    &&& optional_text(t, "primary_series"@) is Some
    &&& text_list(t, "series"@) is Some
    &&& series_list(t, "article_series"@) is Some
    &&& optional_text(t, "prev_article"@) is Some
    &&& optional_text(t, "next_article"@) is Some
    &&& reference_list(t, "references"@) is Some
    &&& flag_or(t, "show_references"@, true) is Some
    &&& flag_or(t, "show_demo"@, false) is Some
    &&& flag_or(t, "show_related"@, false) is Some
    &&& flag_or(t, "show_quiz"@, false) is Some
}

/// The metadata record that a table stands for, or `None` where a field
/// has the wrong kind.
pub open spec fn metadata_of_table(t: ConfigTable) -> Option<MetadataView> {
    if well_typed(t) {
        Some(
            MetadataView {
                date: optional_text(t, "date"@)->0,
                author: optional_text(t, "author"@)->0,
                summary: optional_text(t, "summary"@)->0,
                topics: text_list(t, "topics"@)->0,
                tags: text_list(t, "tags"@)->0,
                thumbnail: optional_text(t, "thumbnail"@)->0,
                reading_time: optional_text(t, "reading_time"@)->0,
                category: optional_text(t, "category"@)->0,
                primary_series: optional_text(t, "primary_series"@)->0,
                series: text_list(t, "series"@)->0,
                article_series: series_list(t, "article_series"@)->0,
                prev_article: optional_text(t, "prev_article"@)->0,
                next_article: optional_text(t, "next_article"@)->0,
                references: reference_list(t, "references"@)->0,
                show_references: flag_or(t, "show_references"@, true)->0,
                show_demo: flag_or(t, "show_demo"@, false)->0,
                show_related: flag_or(t, "show_related"@, false)->0,
                show_quiz: flag_or(t, "show_quiz"@, false)->0,
            },
        )
    } else {
        None
    }
}

/// The metadata record that a configuration text stands for, or `None`
/// where the text is no valid document or a field has the wrong kind.
pub open spec fn metadata_of_text(text: Seq<char>) -> Option<MetadataView> {
    match document_model(text) {
        Some(t) => metadata_of_table(t),
        None => None,
    }
}

/// The models of the values of a list, element by element.
pub open spec fn models_of(items: Seq<toml::Value>) -> Seq<ConfigValue> {
    Seq::new(items.len(), |i: int| value_model(items[i]))
}

fn read_optional_text(t: &toml::Table, key: &str) -> (r: Option<Option<String>>)
    ensures
        match r {
            Some(s) => optional_text(table_model(*t), key@) == Some(text_view(s)),
            None => optional_text(table_model(*t), key@) is None,
        },
{
    match table_get(t, key) {
        None => Some(None),
        Some(v) => match value_text(v) {
            Some(s) => Some(Some(s.to_owned())),
            None => None,
        },
    }
}

fn read_required_text(t: &toml::Table, key: &str) -> (r: Option<String>)
    ensures
        text_view(r) == required_text(table_model(*t), key@),
{
    match table_get(t, key) {
        None => None,
        Some(v) => match value_text(v) {
            Some(s) => Some(s.to_owned()),
            None => None,
        },
    }
}

fn read_flag(t: &toml::Table, key: &str, default: bool) -> (r: Option<bool>)
    ensures
        r == flag_or(table_model(*t), key@, default),
{
    match table_get(t, key) {
        None => Some(default),
        Some(v) => value_flag(v),
    }
}

fn read_required_item(items: &Vec<toml::Value>, i: usize) -> (r: Option<String>)
    ensures
        text_view(r) == required_item(models_of(items@), i as int),
{
    if i < items.len() {
        match value_text(&items[i]) {
            Some(s) => Some(s.to_owned()),
            None => None,
        }
    } else {
        None
    }
}

fn read_optional_item(items: &Vec<toml::Value>, i: usize) -> (r: Option<Option<String>>)
    ensures
        match r {
            Some(s) => optional_item(models_of(items@), i as int) == Some(text_view(s)),
            None => optional_item(models_of(items@), i as int) is None,
        },
{
    if i < items.len() {
        match value_text(&items[i]) {
            Some(s) => Some(Some(s.to_owned())),
            None => None,
        }
    } else {
        Some(None)
    }
}

/// The elements of a list value, with their models.
fn read_items<'a>(v: &'a toml::Value) -> (r: Option<&'a Vec<toml::Value>>)
    ensures
        match r {
            Some(items) => value_model(*v) == ConfigValue::List(models_of(items@)),
            None => !(value_model(*v) is List),
        },
{
    let r = value_items(v);
    proof {
        if let Some(items) = r {
            assert(value_model(*v)->List_0 =~= models_of(items@));
        }
    }
    r
}

/// The strings of a list, where every element is one.
fn read_texts(items: &Vec<toml::Value>) -> (r: Option<Vec<String>>)
    ensures
        match r {
            Some(list) => texts_of(models_of(items@)) == Some(texts_view(list@)),
            None => texts_of(models_of(items@)) is None,
        },
{
    let ghost models = models_of(items@);
    let mut list: Vec<String> = Vec::new();
    let mut i: usize = 0;
    while i < items.len()
        invariant
            i <= items.len(),
            models == models_of(items@),
            list@.len() == i,
            forall|j: int| 0 <= j < i ==> (#[trigger] models[j]) == ConfigValue::Text(list@[j]@),
        decreases items.len() - i,
    {
        match value_text(&items[i]) {
            Some(s) => {
                list.push(s.to_owned());
            },
            None => {
                assert(!(models[i as int] is Text));
                return None;
            },
        }
        i = i + 1;
    }
    assert(texts_of(models)->0 =~= texts_view(list@));
    Some(list)
}

fn read_text_list(t: &toml::Table, key: &str) -> (r: Option<Vec<String>>)
    ensures
        match r {
            Some(list) => text_list(table_model(*t), key@) == Some(texts_view(list@)),
            None => text_list(table_model(*t), key@) is None,
        },
{
    match table_get(t, key) {
        None => {
            let list: Vec<String> = Vec::new();
            assert(texts_view(list@) =~= Seq::empty());
            Some(list)
        },
        Some(v) => match read_items(v) {
            Some(items) => read_texts(items),
            None => None,
        },
    }
}

/// Decodes one reference from a table or from a list of its fields.
pub fn decode_reference(v: &toml::Value) -> (r: Option<Reference>)
    ensures
        match r {
            Some(x) => reference_of(value_model(*v)) == Some(x@),
            None => reference_of(value_model(*v)) is None,
        },
{
    if let Some(t) = value_table(v) {
        let title = read_required_text(t, "title");
        let url = read_required_text(t, "url");
        let description = read_optional_text(t, "description");
        match (title, url, description) {
            (Some(title), Some(url), Some(description)) => Some(
                Reference { title, url, description },
            ),
            _ => None,
        }
    } else if let Some(items) = read_items(v) {
        let title = read_required_item(items, 0);
        let url = read_required_item(items, 1);
        let description = read_optional_item(items, 2);
        match (title, url, description) {
            (Some(title), Some(url), Some(description)) => Some(
                Reference { title, url, description },
            ),
            _ => None,
        }
    } else {
        None
    }
}

/// Decodes one series link from a table or from a list of its fields.
pub fn decode_series(v: &toml::Value) -> (r: Option<ArticleSeries>)
    ensures
        match r {
            Some(x) => series_of(value_model(*v)) == Some(x@),
            None => series_of(value_model(*v)) is None,
        },
{
    if let Some(t) = value_table(v) {
        let name = read_required_text(t, "name");
        let prev = read_optional_text(t, "prev");
        let next = read_optional_text(t, "next");
        match (name, prev, next) {
            (Some(name), Some(prev), Some(next)) => Some(ArticleSeries { name, prev, next }),
            _ => None,
        }
    } else if let Some(items) = read_items(v) {
        let name = read_required_item(items, 0);
        let prev = read_optional_item(items, 1);
        let next = read_optional_item(items, 2);
        match (name, prev, next) {
            (Some(name), Some(prev), Some(next)) => Some(ArticleSeries { name, prev, next }),
            _ => None,
        }
    } else {
        None
    }
}

/// Decodes every element of a list as a reference.
fn read_references(items: &Vec<toml::Value>) -> (r: Option<Vec<Reference>>)
    ensures
        match r {
            Some(list) => references_of(models_of(items@)) == Some(references_view(list@)),
            None => references_of(models_of(items@)) is None,
        },
{
    let ghost models = models_of(items@);
    let mut list: Vec<Reference> = Vec::new();
    let mut i: usize = 0;
    while i < items.len()
        invariant
            i <= items.len(),
            models == models_of(items@),
            list@.len() == i,
            forall|j: int| 0 <= j < i ==> reference_of(#[trigger] models[j]) == Some(list@[j]@),
        decreases items.len() - i,
    {
        match decode_reference(&items[i]) {
            Some(x) => {
                list.push(x);
            },
            None => {
                assert(reference_of(models[i as int]) is None);
                return None;
            },
        }
        i = i + 1;
    }
    assert(references_of(models)->0 =~= references_view(list@));
    Some(list)
}

/// Decodes every element of a list as a series link.
fn read_series_links(items: &Vec<toml::Value>) -> (r: Option<Vec<ArticleSeries>>)
    ensures
        match r {
            Some(list) => series_links_of(models_of(items@)) == Some(series_view(list@)),
            None => series_links_of(models_of(items@)) is None,
        },
{
    let ghost models = models_of(items@);
    let mut list: Vec<ArticleSeries> = Vec::new();
    let mut i: usize = 0;
    while i < items.len()
        invariant
            i <= items.len(),
            models == models_of(items@),
            list@.len() == i,
            forall|j: int| 0 <= j < i ==> series_of(#[trigger] models[j]) == Some(list@[j]@),
        decreases items.len() - i,
    {
        match decode_series(&items[i]) {
            Some(x) => {
                list.push(x);
            },
            None => {
                assert(series_of(models[i as int]) is None);
                return None;
            },
        }
        i = i + 1;
    }
    assert(series_links_of(models)->0 =~= series_view(list@));
    Some(list)
}

fn read_reference_list(t: &toml::Table, key: &str) -> (r: Option<Vec<Reference>>)
    ensures
        match r {
            Some(list) => reference_list(table_model(*t), key@) == Some(references_view(list@)),
            None => reference_list(table_model(*t), key@) is None,
        },
{
    match table_get(t, key) {
        None => {
            let list: Vec<Reference> = Vec::new();
            assert(references_view(list@) =~= Seq::empty());
            Some(list)
        },
        Some(v) => match read_items(v) {
            Some(items) => read_references(items),
            None => None,
        },
    }
}

fn read_series_list(t: &toml::Table, key: &str) -> (r: Option<Vec<ArticleSeries>>)
    ensures
        match r {
            Some(list) => series_list(table_model(*t), key@) == Some(series_view(list@)),
            None => series_list(table_model(*t), key@) is None,
        },
{
    match table_get(t, key) {
        None => {
            let list: Vec<ArticleSeries> = Vec::new();
            assert(series_view(list@) =~= Seq::empty());
            Some(list)
        },
        Some(v) => match read_items(v) {
            Some(items) => read_series_links(items),
            None => None,
        },
    }
}

/// Applies the metadata schema to a parsed table.
pub fn decode_table(t: &toml::Table) -> (r: Option<ArticleTomlMetadata>)
    ensures
        metadata_view(r) == metadata_of_table(table_model(*t)),
{
    let date = read_optional_text(t, "date")?;
    let author = read_optional_text(t, "author")?;
    let summary = read_optional_text(t, "summary")?;
    let topics = read_text_list(t, "topics")?;
    let tags = read_text_list(t, "tags")?;
    let thumbnail = read_optional_text(t, "thumbnail")?;
    let reading_time = read_optional_text(t, "reading_time")?;
    let category = read_optional_text(t, "category")?;
    let primary_series = read_optional_text(t, "primary_series")?;
    let series = read_text_list(t, "series")?;
    let article_series = read_series_list(t, "article_series")?;
    let prev_article = read_optional_text(t, "prev_article")?;
    let next_article = read_optional_text(t, "next_article")?;
    let references = read_reference_list(t, "references")?;
    let show_references = read_flag(t, "show_references", true)?;
    let show_demo = read_flag(t, "show_demo", false)?;
    let show_related = read_flag(t, "show_related", false)?;
    let show_quiz = read_flag(t, "show_quiz", false)?;
    Some(
        ArticleTomlMetadata {
            date,
            author,
            summary,
            topics,
            tags,
            thumbnail,
            reading_time,
            category,
            primary_series,
            series,
            article_series,
            prev_article,
            next_article,
            references,
            show_references,
            show_demo,
            show_related,
            show_quiz,
        },
    )
}

/// Decodes the text of a metadata block: parses it as a TOML document and
/// applies the schema to the table.
pub fn decode_metadata(text: &str) -> (r: Option<ArticleTomlMetadata>)
    ensures
        metadata_view(r) == metadata_of_text(text@),
{
    match parse_document(text) {
        Ok(t) => decode_table(&t),
        Err(_) => None,
    }
}

} // verus!
