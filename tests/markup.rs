use gurupia_parser::markup::{clean_wiki_markup, extract_first_paragraph, paragraphs_of, MarkupRules};

fn rules() -> MarkupRules {
    MarkupRules::new().expect("the markup patterns compile")
}

#[test]
fn file_link_is_removed_with_caption() {
    let r = rules();
    let out = clean_wiki_markup(&r, "앞 [[File:pic.jpg|caption]] 뒤");
    assert!(!out.contains("File:"));
    assert!(!out.contains("pic.jpg"));
    assert!(!out.contains("caption"));
    assert_eq!(out, "앞 뒤");
}

#[test]
fn localized_file_aliases_are_removed() {
    let r = rules();
    assert_eq!(clean_wiki_markup(&r, "a[[파일:x.png|설명]]b[[그림:y.png]]c[[Image:z.gif]]d"), "abcd");
}

#[test]
fn ref_tags_are_dropped_with_body() {
    let r = rules();
    let out = clean_wiki_markup(&r, "사실이다.<ref name=\"a\">출처 본문</ref> 끝");
    assert_eq!(out, "사실이다. 끝");
}

#[test]
fn comments_and_tags_are_stripped() {
    let r = rules();
    let out = clean_wiki_markup(&r, "<!-- 주석 -->굵은 <b>글씨</b>와 <br/>줄");
    assert_eq!(out, "굵은 글씨와 줄");
}

#[test]
fn whitespace_runs_are_collapsed() {
    let r = rules();
    assert_eq!(clean_wiki_markup(&r, "  a    b\n\n\n\nc  "), "a b\n\nc");
}

#[test]
fn cleaning_clean_text_changes_nothing() {
    let r = rules();
    let once = clean_wiki_markup(&r, "Alpha <i>beta</i>  gamma.\n\n\n\nDelta [[File:a.png|x]] end.");
    assert!(!r.has_markup(&once));
    let twice = clean_wiki_markup(&r, &once);
    assert_eq!(once, twice);
}

#[test]
fn has_markup_detects_each_kind() {
    let r = rules();
    assert!(r.has_markup("x [[File:a.png]] y"));
    assert!(r.has_markup("x <ref>b</ref>"));
    assert!(r.has_markup("x <!-- c -->"));
    assert!(r.has_markup("x <span>"));
    assert!(!r.has_markup("plain text, no tags"));
}

#[test]
fn lead_stops_at_first_heading() {
    let r = rules();
    let out = extract_first_paragraph(&r, "Intro sentence here. More text.\n==History==\nOld stuff");
    assert_eq!(out, "Intro sentence here. More text.");
}

#[test]
fn lead_drops_templates_and_tables() {
    let r = rules();
    let text = "{{Infobox\n| name = X\n}}\n첫 문단이다.\n\n{| class=\"wikitable\"\n|}\n\n| 셀\n\n  둘째 문단.  \n\n\n\n";
    let out = extract_first_paragraph(&r, text);
    assert_eq!(out, "첫 문단이다.\n\n둘째 문단.");
}

#[test]
fn lead_of_empty_text_is_empty() {
    let r = rules();
    assert_eq!(extract_first_paragraph(&r, ""), "");
    assert_eq!(extract_first_paragraph(&r, "{{틀}}\n\n\n==개요=="), "");
}

#[test]
fn nested_templates_are_only_partly_removed() {
    let r = rules();
    let out = extract_first_paragraph(&r, "{{a {{b}} c}}본문");
    assert_eq!(out, "c}}본문");
}

#[test]
fn paragraphs_are_split_filtered_and_joined() {
    assert_eq!(paragraphs_of("  하나  \n\n\n\n{| 표\n\n|셀\n\n둘"), "하나\n\n둘");
    assert_eq!(paragraphs_of("a\n\nb\n\n\nc"), "a\n\nb\n\nc");
    assert_eq!(paragraphs_of(""), "");
    assert_eq!(paragraphs_of("\n\n  \n\n|x"), "");
}

#[test]
fn template_holding_a_single_brace_is_removed() {
    let r = rules();
    assert_eq!(extract_first_paragraph(&r, "{{틀|a=}}}본문"), "}본문");
    assert_eq!(extract_first_paragraph(&r, "{{틀|a=b}c}}본문"), "본문");
}

#[test]
fn multiline_citations_and_comments_are_removed() {
    let r = rules();
    assert_eq!(clean_wiki_markup(&r, "앞<ref>줄1\n줄2</ref> 뒤"), "앞 뒤");
    assert_eq!(clean_wiki_markup(&r, "앞<!-- 줄1\n줄2 --> 뒤"), "앞 뒤");
}

#[test]
fn clean_text_is_returned_unchanged() {
    let r = rules();
    let text = "이미 정리된 글이다.\n\n둘째 문단.";
    assert!(!r.has_markup(text));
    assert_eq!(clean_wiki_markup(&r, text), text);
}
