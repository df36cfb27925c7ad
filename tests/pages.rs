use gurupia_parser::markup::MarkupRules;
use gurupia_parser::page::{extract_wiki_node, is_eligible, process_page, Limits, WikiNode, WikiPage};
use gurupia_parser::scanner::{Field, PageScanner, ScanError};
use quick_xml::events::Event;
use quick_xml::Reader;

fn rules() -> MarkupRules {
    MarkupRules::new().expect("the markup patterns compile")
}

fn page(title: &str, ns: &str, text: &str) -> WikiPage {
    WikiPage { title: title.to_string(), ns: ns.to_string(), text: text.to_string() }
}

fn long_body() -> String {
    let mut s = String::new();
    for _ in 0..12 {
        s.push_str("이것은 충분히 긴 문장이다. ");
    }
    s
}

/// Runs the scanner over a document and returns every page that ends in it.
fn scan(xml: &str) -> Vec<WikiPage> {
    let mut reader = Reader::from_str(xml);
    reader.config_mut().trim_text(true);
    let mut scanner = PageScanner::new();
    let mut pages = Vec::new();
    loop {
        match reader.read_event().expect("well-formed test input") {
            Event::Start(e) => {
                let name = String::from_utf8_lossy(e.name().as_ref()).to_string();
                scanner.on_start(&name);
            }
            Event::Text(e) => {
                let raw = std::str::from_utf8(&e).expect("utf-8").to_string();
                scanner.on_text(&raw).expect("valid escapes");
            }
            Event::End(e) => {
                let name = String::from_utf8_lossy(e.name().as_ref()).to_string();
                if let Some(p) = scanner.on_end(&name) {
                    pages.push(p);
                }
            }
            Event::Eof => break,
            _ => {}
        }
    }
    pages
}

#[test]
fn scenario_page_yields_only_the_intro() {
    let xml = "<page><title>Foo</title><ns>0</ns><text>Intro sentence here. More text.\n==History==\nOld stuff</text></page>";
    let pages = scan(xml);
    assert_eq!(pages.len(), 1);
    assert_eq!(pages[0].title, "Foo");
    assert_eq!(pages[0].ns, "0");
    let limits = Limits { min_chars: 500, max_chars: 1500, floor: 10 };
    let node: WikiNode = process_page(&rules(), &pages[0], limits).expect("accepted");
    assert_eq!(node.title, "Foo");
    assert_eq!(node.content, "Intro sentence here. More text.");
}

#[test]
fn scanner_unescapes_entities() {
    let xml = "<mediawiki><page><title>A &amp; B</title><ns>0</ns><revision><text>x &lt; y</text></revision></page></mediawiki>";
    let pages = scan(xml);
    assert_eq!(pages.len(), 1);
    assert_eq!(pages[0].title, "A & B");
    assert_eq!(pages[0].text, "x < y");
}

#[test]
fn scanner_resets_between_pages() {
    let xml = "<r><page><title>One</title><ns>0</ns><text>t1</text></page><page><title>Two</title></page></r>";
    let pages = scan(xml);
    assert_eq!(pages.len(), 2);
    assert_eq!(pages[1].title, "Two");
    assert_eq!(pages[1].ns, "");
    assert_eq!(pages[1].text, "");
}

#[test]
fn scanner_ignores_unknown_elements() {
    let mut s = PageScanner::new();
    s.on_start("page");
    s.on_start("id");
    assert_eq!(s.field, Field::Ignored);
    s.on_text("42").unwrap();
    s.on_start("title");
    assert_eq!(s.field, Field::Title);
    s.on_text("T").unwrap();
    assert!(s.on_end("title").is_none());
    let p = s.on_end("page").expect("page ends");
    assert_eq!(p.title, "T");
    assert_eq!(p.text, "");
}

#[test]
fn scanner_reports_bad_escape() {
    let mut s = PageScanner::new();
    s.on_start("page");
    s.on_start("text");
    s.on_text("ok").unwrap();
    assert_eq!(s.on_text("broken &nosuch; entity"), Err(ScanError::InvalidEscape));
    assert_eq!(s.on_text("dangling & amp"), Err(ScanError::InvalidEscape));
    assert_eq!(s.page.text, "ok");
}

#[test]
fn other_namespace_is_rejected() {
    let p = page("Talk", "1", &long_body());
    assert!(!is_eligible(&p));
    assert!(process_page(&rules(), &p, Limits::standard()).is_none());
    let main = page("Talk", "0", &long_body());
    assert!(is_eligible(&main));
    assert!(process_page(&rules(), &main, Limits::standard()).is_some());
}

#[test]
fn empty_title_is_rejected() {
    let p = page("", "0", &long_body());
    assert!(!is_eligible(&p));
    assert!(process_page(&rules(), &p, Limits::standard()).is_none());
}

#[test]
fn redirects_are_rejected() {
    let r = rules();
    for marker in ["#REDIRECT", "#redirect", "#넘겨주기"] {
        let text = format!("  \n{} [[Target]] {}", marker, long_body());
        assert!(extract_wiki_node(&r, &page("X", "0", &text), Limits::standard()).is_none());
    }
}

#[test]
fn disambiguation_pages_are_rejected() {
    let r = rules();
    let by_title = page("배 (동음이의)", "0", &long_body());
    assert!(extract_wiki_node(&r, &by_title, Limits::standard()).is_none());
    let by_text = page("배", "0", &format!("{}{{{{동음이의}}}}", long_body()));
    assert!(extract_wiki_node(&r, &by_text, Limits::standard()).is_none());
}

#[test]
fn short_lead_is_rejected_by_floor() {
    let r = rules();
    let p = page("Short", "0", "짧은 글이다.");
    assert!(extract_wiki_node(&r, &p, Limits::standard()).is_none());
    let lowered = Limits { min_chars: 500, max_chars: 1500, floor: 3 };
    let n = extract_wiki_node(&r, &p, lowered).expect("accepted with a low floor");
    assert_eq!(n.content, "짧은 글이다.");
}

#[test]
fn empty_lead_is_rejected() {
    let r = rules();
    let p = page("Empty", "0", "{{정보상자}}\n==개요==\n본문");
    let lowered = Limits { min_chars: 0, max_chars: 10, floor: 0 };
    assert!(extract_wiki_node(&r, &p, lowered).is_none());
}

#[test]
fn accepted_content_is_cleaned_and_bounded() {
    let r = rules();
    let mut text = String::from("[[File:pic.jpg|caption]]<ref>cite</ref>");
    for _ in 0..200 {
        text.push_str("문장이 계속된다. ");
    }
    text.push_str("\n==역사==\n뒤");
    let n = extract_wiki_node(&r, &page("긴 글", "0", &text), Limits::standard()).expect("accepted");
    let count = n.content.chars().count();
    assert!(count >= 100 && count <= 1500);
    assert!(n.content.ends_with("다."));
    assert!(!n.content.contains("pic.jpg"));
    assert!(!n.content.contains("cite"));
    assert_eq!(n.title, "긴 글");
}

#[test]
fn standard_limits() {
    let l = Limits::standard();
    assert_eq!((l.min_chars, l.max_chars, l.floor), (500, 1500, 100));
}
