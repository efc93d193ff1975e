use systeroid::document::{Document, Paragraph};
use systeroid::parser::{ParseError, Parser, SourceFile};

const MANIFEST: &str = "[package]\nname = \"systeroid\"\nversion = \"0.1.0\"\nedition = \"2021\"\n\n[dependencies]\nregex = \"1\"\n";

fn file(path: &str, contents: &str) -> SourceFile {
    SourceFile { path: String::from(path), contents: String::from(contents) }
}

#[test]
fn test_document_parser() {
    let parser = Parser::new("Cargo.*", r#"^\[package\]\n"#).unwrap();
    let mut documents = parser.parse(&vec![file("Cargo.toml", MANIFEST)]);

    assert!(documents[0].paragraphs[0]
        .contents
        .contains(&format!("name = \"{}\"", "systeroid")));

    documents[0].paragraphs[0].contents = String::new();
    assert_eq!(
        Document {
            paragraphs: vec![Paragraph {
                title: String::from("[package]"),
                contents: String::new(),
            }],
            path: String::from("Cargo.toml"),
        },
        documents[0]
    );
}

#[test]
fn title_is_the_matched_text() {
    let parser = Parser::new("Cargo.*", r"^\[package\]\n").unwrap();
    let paragraphs = parser.parse_text(MANIFEST);
    assert_eq!(paragraphs.len(), 1);
    assert_eq!(paragraphs[0].title, "[package]");
    assert!(paragraphs[0].contents.starts_with("name = \"systeroid\""));
}

#[test]
fn no_header_gives_empty_document() {
    let parser = Parser::new("*.txt", r"^== .* ==$").unwrap();
    let documents = parser.parse(&vec![file("a.txt", "plain text\nno headers\n"), file("b.txt", "")]);
    assert_eq!(documents.len(), 2);
    assert!(documents[0].paragraphs.is_empty());
    assert!(documents[1].paragraphs.is_empty());
    assert_eq!(documents[1].path, "b.txt");
}

#[test]
fn paragraphs_rebuild_the_text() {
    let text = "intro\n== one ==\nfirst body\n== two ==\nsecond\nbody\n== three ==";
    let parser = Parser::new("*", r"^== \w+ ==$").unwrap();
    let paragraphs = parser.parse_text(text);
    let titles: Vec<&str> = paragraphs.iter().map(|p| p.title.as_str()).collect();
    assert_eq!(titles, vec!["== one ==", "== two ==", "== three =="]);
    assert_eq!(paragraphs[0].contents, "\nfirst body\n");
    assert_eq!(paragraphs[1].contents, "\nsecond\nbody\n");
    assert_eq!(paragraphs[2].contents, "");
    let joined: String = paragraphs.iter().map(|p| format!("{}{}", p.title, p.contents)).collect();
    assert_eq!(joined, &text[text.find("== one").unwrap()..]);
}

#[test]
fn multibyte_text_is_cut_on_characters() {
    let parser = Parser::new("*", r"^# .*$").unwrap();
    let paragraphs = parser.parse_text("é\n# Größe\nÜber alles\n# 日本\n語");
    assert_eq!(paragraphs.len(), 2);
    assert_eq!(paragraphs[0].title, "# Größe");
    assert_eq!(paragraphs[0].contents, "\nÜber alles\n");
    assert_eq!(paragraphs[1].title, "# 日本");
    assert_eq!(paragraphs[1].contents, "\n語");
}

#[test]
fn bad_pattern_is_an_error() {
    match Parser::new("*", r"^[unclosed") {
        Err(ParseError::Regex(text)) => assert!(!text.is_empty()),
        _ => panic!("a bad pattern must be refused"),
    }
}

#[test]
fn files_keep_their_order() {
    let parser = Parser::new("*", r"^\[\w+\]").unwrap();
    let documents = parser.parse(&vec![file("z.toml", "[b]\nx"), file("a.toml", "[a]\ny\n[c]\n")]);
    assert_eq!(documents[0].path, "z.toml");
    assert_eq!(documents[0].paragraphs.len(), 1);
    assert_eq!(documents[1].path, "a.toml");
    assert_eq!(documents[1].paragraphs.len(), 2);
    assert_eq!(documents[1].paragraphs[1].title, "[c]");
    assert_eq!(documents[1].paragraphs[1].contents, "\n");
}

#[test]
fn body_starts_after_the_matched_line() {
    let text = "top\n[a]\nx = 1\n[b]\ny = 2\n";
    let parser = Parser::new("*", r"^\[\w\]\n").unwrap();
    let paragraphs = parser.parse_text(text);
    assert_eq!(paragraphs.len(), 2);
    assert_eq!(paragraphs[0].title, "[a]");
    assert_eq!(paragraphs[0].contents, "x = 1\n");
    assert_eq!(paragraphs[1].title, "[b]");
    assert_eq!(paragraphs[1].contents, "y = 2\n");
    let rebuilt: String = paragraphs.iter().map(|p| format!("{}\n{}", p.title, p.contents)).collect();
    assert_eq!(rebuilt, &text[4..]);
}
