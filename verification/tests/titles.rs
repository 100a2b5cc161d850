use synker::domain::types::file::file_metadata::Metadata;
use synker::inbound::server::handlers::api::{extract_title, listing_entry, wants_title};

fn title(s: &str) -> Option<String> {
    extract_title(s)
}

#[test]
fn heading_gives_the_title() {
    assert_eq!(title("# Hello World\nbody"), Some("Hello World".to_string()));
}

#[test]
fn blank_lines_before_the_heading_are_skipped() {
    assert_eq!(title("\n  \n\t# Spaced  \n"), Some("Spaced".to_string()));
}

#[test]
fn first_other_line_ends_the_search() {
    assert_eq!(title("intro\n# Later"), None);
    assert_eq!(title("## Second level\n# First"), None);
}

#[test]
fn empty_heading_gives_no_title() {
    assert_eq!(title("#   \n# Real"), None);
    assert_eq!(title("#heading without space"), None);
}

#[test]
fn front_matter_title_wins() {
    let text = "---\nauthor: me\ntitle: \"Quoted Title\"\n---\n# Heading";
    assert_eq!(title(text), Some("Quoted Title".to_string()));
}

#[test]
fn front_matter_single_quotes_are_removed() {
    assert_eq!(title("---\ntitle: 'Single'\n---"), Some("Single".to_string()));
    assert_eq!(title("---\ntitle:  \"' Both '\"  \n---"), Some("Both".to_string()));
}

#[test]
fn empty_front_matter_title_falls_back_to_heading() {
    let text = "---\ntitle: \"\"\n---\n\n# After\n";
    assert_eq!(title(text), Some("After".to_string()));
}

#[test]
fn unclosed_front_matter_gives_no_title() {
    assert_eq!(title("---\nauthor: me\n# Not a title"), None);
}

#[test]
fn second_fence_after_front_matter_stops() {
    assert_eq!(title("---\n---\n---\n# Late"), None);
}

#[test]
fn windows_line_endings() {
    assert_eq!(title("---\r\ntitle: Win\r\n---\r\n"), Some("Win".to_string()));
    assert_eq!(title("\r\n# Head\r\n"), Some("Head".to_string()));
}

#[test]
fn no_content_no_title() {
    assert_eq!(title(""), None);
    assert_eq!(title("\n\n"), None);
}

#[test]
fn title_keeps_inner_whitespace_and_unicode() {
    assert_eq!(title("# Grüße  aus\u{3000}Köln "), Some("Grüße  aus\u{3000}Köln".to_string()));
}

fn meta(ext: &str) -> Metadata {
    Metadata {
        id: 0x67e55044_10b1_426f_9247_bb680e5fe0c8,
        name: "note".to_string(),
        ext: ext.to_string(),
        tags: vec!["a".to_string()],
        size: 3,
        mime: "text/markdown".to_string(),
        created_at: "c".to_string(),
        modified_at: "m".to_string(),
    }
}

#[test]
fn listing_entries_show_titles_of_markdown_files() {
    assert!(wants_title(&meta("md")));
    assert!(!wants_title(&meta("MD")));
    let e = listing_entry(meta("md"), Some(b"# Top\n".to_vec()));
    assert_eq!(e.title, Some("Top".to_string()));
    assert_eq!(e.id, "67e55044-10b1-426f-9247-bb680e5fe0c8");
    assert_eq!(e.name, "note");
    let e = listing_entry(meta("txt"), Some(b"# Top\n".to_vec()));
    assert_eq!(e.title, None);
    let e = listing_entry(meta("md"), Some(vec![0xff, 0xfe]));
    assert_eq!(e.title, None);
    let e = listing_entry(meta("md"), None);
    assert_eq!(e.title, None);
}
