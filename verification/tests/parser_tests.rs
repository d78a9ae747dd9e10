use advanced_markdown_parser::{
    extract_content_without_metadata, parse_markdown_with_metadata, parse_toml_metadata,
    ArticleTomlMetadata,
};

#[test]
fn test_parse_basic_metadata() {
    let markdown = r#"#####
date = "2025-11-21"
author = "John Doe"
summary = "A test article"
#####

# Test Article

Some content here.
"#;

    let parsed = parse_markdown_with_metadata(markdown);

    assert!(parsed.metadata.is_some());
    let metadata = parsed.metadata.unwrap();
    assert_eq!(metadata.date, Some("2025-11-21".to_string()));
    assert_eq!(metadata.author, Some("John Doe".to_string()));
    assert_eq!(metadata.summary, Some("A test article".to_string()));
    assert!(parsed.content.contains("# Test Article"));
    assert!(!parsed.content.contains("#####"));
}

#[test]
fn test_parse_with_references() {
    let markdown = r#"#####
date = "2025-11-21"
author = "Jane Doe"

[[references]]
title = "Rust Book"
url = "https://doc.rust-lang.org/book/"
description = "The official Rust programming language book"

[[references]]
title = "Rust API Guidelines"
url = "https://rust-lang.github.io/api-guidelines/"
#####

# Article with References
"#;

    let parsed = parse_markdown_with_metadata(markdown);

    assert!(parsed.metadata.is_some());
    let metadata = parsed.metadata.unwrap();
    assert_eq!(metadata.references.len(), 2);
    assert_eq!(metadata.references[0].title, "Rust Book");
    assert_eq!(metadata.references[0].url, "https://doc.rust-lang.org/book/");
    assert_eq!(
        metadata.references[0].description,
        Some("The official Rust programming language book".to_string())
    );
    assert_eq!(metadata.references[1].title, "Rust API Guidelines");
}

#[test]
fn test_parse_no_metadata() {
    let markdown = r#"# Simple Article

This article has no metadata.
"#;

    let parsed = parse_markdown_with_metadata(markdown);

    assert!(parsed.metadata.is_none());
    assert_eq!(parsed.content, markdown);
}

#[test]
fn test_parse_article_series() {
    let markdown = r#"#####
[[article_series]]
name = "My Series"
prev = "article-1"
next = "article-3"
#####

# Part 2
"#;

    let parsed = parse_markdown_with_metadata(markdown);

    assert!(parsed.metadata.is_some());
    let metadata = parsed.metadata.unwrap();
    assert_eq!(metadata.article_series.len(), 1);
    assert_eq!(metadata.article_series[0].name, "My Series");
    assert_eq!(metadata.article_series[0].prev, Some("article-1".to_string()));
    assert_eq!(metadata.article_series[0].next, Some("article-3".to_string()));
}

#[test]
fn basic_metadata_exact_content() {
    let parsed = parse_markdown_with_metadata(
        "#####\ndate = \"2025-11-21\"\nauthor = \"John Doe\"\n#####\n\n# Test Article\n",
    );
    let metadata = parsed.metadata.unwrap();
    assert_eq!(metadata.date, Some("2025-11-21".to_string()));
    assert_eq!(metadata.author, Some("John Doe".to_string()));
    assert_eq!(metadata.summary, None);
    assert_eq!(parsed.content, "# Test Article");
}

#[test]
fn second_reference_has_no_description() {
    let parsed = parse_markdown_with_metadata(
        "#####\n[[references]]\ntitle = \"A\"\nurl = \"u1\"\ndescription = \"d\"\n\n[[references]]\ntitle = \"B\"\nurl = \"u2\"\n#####\nbody",
    );
    let metadata = parsed.metadata.unwrap();
    assert_eq!(metadata.references.len(), 2);
    assert_eq!(metadata.references[0].description, Some("d".to_string()));
    assert_eq!(metadata.references[1].title, "B");
    assert_eq!(metadata.references[1].url, "u2");
    assert_eq!(metadata.references[1].description, None);
    assert_eq!(parsed.content, "body");
}

#[test]
fn plain_document_is_not_trimmed() {
    let text = "  \n leading and trailing space stay \n\t ";
    let parsed = parse_markdown_with_metadata(text);
    assert_eq!(parsed.metadata, None);
    assert_eq!(parsed.content, text);
    assert_eq!(extract_content_without_metadata(text), text);
}

#[test]
fn empty_document() {
    let parsed = parse_markdown_with_metadata("");
    assert_eq!(parsed.metadata, None);
    assert_eq!(parsed.content, "");
}

#[test]
fn single_delimiter_is_plain_content() {
    let text = " intro\n#####\ndate = \"2025-01-01\"\n\nnever closed \n";
    let parsed = parse_markdown_with_metadata(text);
    assert_eq!(parsed.metadata, None);
    assert_eq!(parsed.content, text);
}

#[test]
fn six_number_signs_hold_one_delimiter() {
    let text = "###### heading";
    let parsed = parse_markdown_with_metadata(text);
    assert_eq!(parsed.metadata, None);
    assert_eq!(parsed.content, text);
}

#[test]
fn nine_number_signs_hold_one_delimiter() {
    let text = "a#########b";
    let parsed = parse_markdown_with_metadata(text);
    assert_eq!(parsed.metadata, None);
    assert_eq!(parsed.content, text);
}

#[test]
fn ten_number_signs_are_an_empty_block() {
    let parsed = parse_markdown_with_metadata("##########");
    assert_eq!(parsed.metadata, Some(ArticleTomlMetadata::default()));
    assert_eq!(parsed.content, "");
}

#[test]
fn whitespace_block_decodes_to_defaults() {
    let parsed = parse_markdown_with_metadata("##### \n\t \n #####\nbody\n");
    let metadata = parsed.metadata.unwrap();
    assert_eq!(metadata, ArticleTomlMetadata::default());
    assert_eq!(metadata.date, None);
    assert!(metadata.topics.is_empty());
    assert!(metadata.tags.is_empty());
    assert!(metadata.series.is_empty());
    assert!(metadata.article_series.is_empty());
    assert!(metadata.references.is_empty());
    assert!(metadata.show_references);
    assert!(!metadata.show_demo);
    assert!(!metadata.show_related);
    assert!(!metadata.show_quiz);
    assert_eq!(parsed.content, "body");
}

#[test]
fn halves_are_joined_without_separator() {
    let parsed = parse_markdown_with_metadata("Hello  #####\nauthor = \"A\"\n#####  World\n");
    assert_eq!(parsed.metadata.unwrap().author, Some("A".to_string()));
    assert_eq!(parsed.content, "HelloWorld");
}

#[test]
fn block_in_mid_line_glues_words() {
    assert_eq!(extract_content_without_metadata("one two ##### ##### three four"), "one twothree four");
}

#[test]
fn malformed_block_is_still_stripped() {
    let parsed = parse_markdown_with_metadata("#####\nthis is = = not toml\n#####\n\n# Title\n");
    assert_eq!(parsed.metadata, None);
    assert_eq!(parsed.content, "# Title");
}

#[test]
fn unclosed_quote_fails_the_decode() {
    let parsed = parse_markdown_with_metadata("#####\ndate = \"2025\n#####\ntext");
    assert_eq!(parsed.metadata, None);
    assert_eq!(parsed.content, "text");
}

#[test]
fn later_delimiters_stay_in_content() {
    let parsed = parse_markdown_with_metadata("#####\n#####\na ##### b ##### c");
    assert_eq!(parsed.metadata, Some(ArticleTomlMetadata::default()));
    assert_eq!(parsed.content, "a ##### b ##### c");
    let again = parse_markdown_with_metadata(&parsed.content);
    assert_eq!(again.content, "ac");
}

#[test]
fn reparsing_stripped_content_changes_nothing() {
    let parsed = parse_markdown_with_metadata(
        "#####\ndate = \"2025-11-21\"\n#####\n\n# Title\n\nBody with #### four signs.\n",
    );
    assert!(parsed.metadata.is_some());
    let again = parse_markdown_with_metadata(&parsed.content);
    assert_eq!(again.metadata, None);
    assert_eq!(again.content, parsed.content);
}

#[test]
fn parsing_twice_gives_equal_results() {
    let text = "#####\ntags = [\"a\", \"b\"]\n#####\nbody";
    assert_eq!(parse_markdown_with_metadata(text), parse_markdown_with_metadata(text));
}

#[test]
fn text_outside_ascii_is_kept() {
    let parsed = parse_markdown_with_metadata(
        "\u{3000}ئ caf\u{e9} \u{a0}#####\u{a0}author = \"Zo\u{eb}\"\u{2003}#####\u{2028}na\u{ef}ve \u{1f600}\u{85}",
    );
    assert_eq!(parsed.metadata.unwrap().author, Some("Zo\u{eb}".to_string()));
    assert_eq!(parsed.content, "ئ caf\u{e9}na\u{ef}ve \u{1f600}");
}

#[test]
fn metadata_alone_agrees_with_the_full_parse() {
    let documents = [
        "",
        "plain",
        "one ##### delimiter",
        "#####\nauthor = \"A\"\n#####\nbody",
        "#####\nauthor = 1\n#####\nbody",
        "##########",
        "x ##### show_quiz = true ##### y",
    ];
    for text in documents {
        assert_eq!(parse_toml_metadata(text), parse_markdown_with_metadata(text).metadata);
    }
    assert_eq!(
        parse_toml_metadata("x ##### show_quiz = true ##### y").map(|m| m.show_quiz),
        Some(true)
    );
    assert_eq!(parse_toml_metadata("#####\nauthor = 1\n#####\nbody"), None);
}
