use gurupia_parser::truncate::smart_truncate;

fn repeat(s: &str, n: usize) -> String {
    let mut out = String::new();
    for _ in 0..n {
        out.push_str(s);
    }
    out
}

#[test]
fn short_text_is_returned_unchanged() {
    let text = "짧은 글. 그대로 남는다.";
    assert_eq!(smart_truncate(text, 500, 1500), text);
    assert_eq!(smart_truncate("", 500, 1500), "");
}

#[test]
fn text_of_exactly_max_is_unchanged() {
    let text = repeat("가", 1500);
    assert_eq!(smart_truncate(&text, 500, 1500), text);
}

#[test]
fn text_of_1499_code_points_without_marker_is_unchanged() {
    let text = repeat("가", 1499);
    let out = smart_truncate(&text, 500, 1500);
    assert_eq!(out, text);
    assert_eq!(out.chars().count(), 1499);
}

#[test]
fn cuts_right_after_korean_marker_at_1200() {
    let text = format!("{}다.{}", repeat("가", 1200), repeat("나", 3000 - 1202));
    assert_eq!(text.chars().count(), 3000);
    let out = smart_truncate(&text, 500, 1500);
    assert_eq!(out.chars().count(), 1202);
    assert!(out.ends_with("다."));
    assert_eq!(out, format!("{}다.", repeat("가", 1200)));
}

#[test]
fn hard_cut_at_max_without_marker() {
    let text = repeat("한", 3000);
    let out = smart_truncate(&text, 500, 1500);
    assert_eq!(out.chars().count(), 1500);
    assert_eq!(out, repeat("한", 1500));
}

#[test]
fn multibyte_text_is_never_split() {
    let text = repeat("é가😀", 1000);
    let out = smart_truncate(&text, 500, 1500);
    assert!(out.chars().count() <= 1500);
    assert!(text.starts_with(&out));
    assert!(text.is_char_boundary(out.len()));
}

#[test]
fn first_marker_in_list_wins_and_its_rightmost_match() {
    // ". " occurs at two places in the window, "다." later than both.
    let text = format!(
        "{}. {}. {}다.{}",
        repeat("a", 600),
        repeat("b", 100),
        repeat("c", 100),
        repeat("d", 2000)
    );
    let out = smart_truncate(&text, 500, 1500);
    assert_eq!(out, format!("{}. {}.", repeat("a", 600), repeat("b", 100)));
}

#[test]
fn marker_before_window_is_ignored() {
    let text = format!("{}. {}", repeat("a", 100), repeat("b", 2000));
    let out = smart_truncate(&text, 500, 1500);
    assert_eq!(out.chars().count(), 1500);
}

#[test]
fn hard_cut_trims_whitespace() {
    let text = format!("{}   {}", repeat("a", 1497), repeat("b", 1000));
    let out = smart_truncate(&text, 500, 1500);
    assert_eq!(out, repeat("a", 1497));
}
