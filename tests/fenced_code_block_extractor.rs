use autogen::code_traits::fenced_code_block_extractor::{
    code_blocks_from_captures, CodeBlock, FencedCodeBlockExtractor, Language,
};
use autogen::code_traits::CodeExtractor;

#[test]
fn test_extract_code_blocks() {
    let messages = vec![
        "```rust\nfn main() {\nprintln!(\"Hello, world!\");\n}\n```".to_string(),
        "```python\nprint(\"Hello, world!\")\n```".to_string(),
    ];

    let extractor = FencedCodeBlockExtractor;

    let code_blocks = messages
        .iter()
        .map(|message| extractor.extract_code_blocks(message.to_string()))
        .flatten()
        .collect::<Vec<_>>();

    assert_eq!(code_blocks.len(), 2);
    assert_eq!(code_blocks[0].language, Language::Rust);
    assert_eq!(
        code_blocks[0].code,
        "fn main() {\nprintln!(\"Hello, world!\");\n}"
    );
    assert_eq!(code_blocks[1].language, Language::Python);
    assert_eq!(code_blocks[1].code, "print(\"Hello, world!\")");
}

#[test]
fn unknown_languages_are_skipped() {
    let text = "Try this:\n```go\nfmt.Println(1)\n```\nor this:\n```python\nprint(1)\n```\n".to_string();
    let blocks = FencedCodeBlockExtractor.extract_code_blocks(text);
    assert_eq!(
        blocks,
        vec![CodeBlock { language: Language::Python, code: "print(1)".to_string() }]
    );
}

#[test]
fn several_blocks_in_one_message_keep_their_order() {
    let text = "```rust\nlet a = 1;\n```\ntext\n```python\nb = 2\nc = 3\n```".to_string();
    let blocks = FencedCodeBlockExtractor.extract_code_blocks(text);
    assert_eq!(blocks.len(), 2);
    assert_eq!(blocks[0].language, Language::Rust);
    assert_eq!(blocks[0].code, "let a = 1;");
    assert_eq!(blocks[1].language, Language::Python);
    assert_eq!(blocks[1].code, "b = 2\nc = 3");
}

#[test]
fn text_without_fences_has_no_blocks() {
    assert!(FencedCodeBlockExtractor.extract_code_blocks("no code here".to_string()).is_empty());
    assert!(FencedCodeBlockExtractor.extract_code_blocks(String::new()).is_empty());
}

#[test]
fn language_names() {
    assert_eq!(Language::from_name("rust"), Some(Language::Rust));
    assert_eq!(Language::from_name("python"), Some(Language::Python));
    assert_eq!(Language::from_name("Rust"), None);
    assert_eq!(Language::from_name(""), None);
}

#[test]
fn captures_become_blocks_of_known_languages() {
    let pairs = vec![
        ("python".to_string(), "x = 1".to_string()),
        ("bash".to_string(), "ls".to_string()),
        ("rust".to_string(), "fn f() {}".to_string()),
    ];
    let blocks = code_blocks_from_captures(&pairs);
    assert_eq!(
        blocks,
        vec![
            CodeBlock { language: Language::Python, code: "x = 1".to_string() },
            CodeBlock { language: Language::Rust, code: "fn f() {}".to_string() },
        ]
    );
}
