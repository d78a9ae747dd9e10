use advanced_markdown_parser::text::{chars_of, is_space, trim_text};
use advanced_markdown_parser::{assemble_content, find_delimiter, find_metadata_block, MetadataSplit};

#[test]
fn whitespace_is_the_unicode_property() {
    let mut code: u32 = 0;
    while code <= 0x10FFFF {
        if let Some(c) = char::from_u32(code) {
            assert_eq!(is_space(c), c.is_whitespace(), "U+{:04X}", code);
        }
        code += 1;
    }
}

#[test]
fn trimming_agrees_with_std() {
    let samples = [
        "",
        " ",
        "a",
        "  a b  ",
        "\n\t x \r\n",
        "\u{a0}x\u{3000}",
        "\u{2000}\u{200a}mid dle\u{2028}\u{2029}",
        "\u{200b}zero width space is kept\u{200b}",
        "\u{85}\u{1680}\u{202f}\u{205f}y\u{b}\u{c}",
        " \u{e9} ",
    ];
    for s in samples {
        assert_eq!(trim_text(s), s.trim());
    }
}

#[test]
fn chars_of_counts_characters_not_bytes() {
    assert_eq!(chars_of("a\u{e9}\u{1f600}"), vec!['a', '\u{e9}', '\u{1f600}']);
    assert!(chars_of("").is_empty());
}

#[test]
fn find_delimiter_gives_the_first_at_or_after() {
    let text: Vec<char> = "ab#####cd######".chars().collect();
    assert_eq!(find_delimiter(&text, 0), Some(2));
    assert_eq!(find_delimiter(&text, 2), Some(2));
    assert_eq!(find_delimiter(&text, 3), Some(9));
    assert_eq!(find_delimiter(&text, 10), Some(10));
    assert_eq!(find_delimiter(&text, 11), None);
    assert_eq!(find_delimiter(&text, 15), None);
    assert_eq!(find_delimiter(&text, 400), None);
    let short: Vec<char> = "####".chars().collect();
    assert_eq!(find_delimiter(&short, 0), None);
    assert_eq!(find_delimiter(&Vec::new(), 0), None);
}

#[test]
fn split_has_untrimmed_halves_and_trimmed_block() {
    let split = find_metadata_block(" pre \n#####\n a = 1 \n#####\n post ").unwrap();
    assert_eq!(
        split,
        MetadataSplit {
            before: " pre \n".to_string(),
            metadata: "a = 1".to_string(),
            after: "\n post ".to_string(),
        }
    );
}

#[test]
fn split_needs_two_delimiters() {
    assert_eq!(find_metadata_block("no delimiter"), None);
    assert_eq!(find_metadata_block("one ##### only"), None);
    assert_eq!(find_metadata_block("#########"), None);
    let split = find_metadata_block("##########").unwrap();
    assert_eq!(split.before, "");
    assert_eq!(split.metadata, "");
    assert_eq!(split.after, "");
}

#[test]
fn second_delimiter_starts_after_the_first_ends() {
    let split = find_metadata_block("#######x#####y").unwrap();
    assert_eq!(split.before, "");
    assert_eq!(split.metadata, "##x");
    assert_eq!(split.after, "y");
}

#[test]
fn split_counts_characters_outside_ascii() {
    let split = find_metadata_block("\u{e9}\u{1f600}#####\u{3000}k\u{a0}#####\u{fc}").unwrap();
    assert_eq!(split.before, "\u{e9}\u{1f600}");
    assert_eq!(split.metadata, "k");
    assert_eq!(split.after, "\u{fc}");
}

#[test]
fn assembling_without_a_block_keeps_the_document() {
    assert_eq!(assemble_content("  raw  ", &None), "  raw  ");
}

#[test]
fn assembling_with_a_block_joins_trimmed_halves() {
    let split = MetadataSplit {
        before: "  a ".to_string(),
        metadata: "ignored".to_string(),
        after: "\n b\n".to_string(),
    };
    assert_eq!(assemble_content("never read", &Some(split)), "ab");
    let first_only = MetadataSplit {
        before: String::new(),
        metadata: String::new(),
        after: "\n\n# Title\n".to_string(),
    };
    assert_eq!(assemble_content("", &Some(first_only)), "# Title");
}
