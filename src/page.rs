//! Pages of the dump: their reconstruction from streamed XML events, the
//! eligibility filter, and the turn of an eligible page into a record.
use vstd::prelude::*;
use crate::markup::{
    clean_spec, clean_wiki_markup, extract_first_paragraph, first_paragraph_spec, MarkupRules,
};
use crate::text::{
    chars_eq, chars_of, contains, contains_exec, starts_with, starts_with_exec, trim, trimmed,
};
use crate::truncate::{smart_truncate, truncate_spec};

verus! {

/// One page of the dump as read: title, namespace id and raw markup.
#[derive(Clone, Debug)]
pub struct WikiPage {
    pub title: String,
    pub ns: String,
    pub text: String,
}

/// An accepted page: its title and its cleaned, bounded lead paragraph.
#[derive(Clone, Debug)]
pub struct WikiNode {
    pub title: String,
    pub content: String,
}

/// The bounds that shape a record's content, counted in code points.
#[derive(Clone, Copy, Debug)]
pub struct Limits {
    /// Start of the window searched for a sentence ending.
    pub min_chars: usize,
    /// Longest content kept; also the end of the search window.
    pub max_chars: usize,
    /// Shortest content accepted.
    pub floor: usize,
}

impl Limits {
    pub open spec fn valid(&self) -> bool {
        self.min_chars <= self.max_chars
    }

    /// The usual policy: search between 500 and 1500, accept from 100.
    pub fn standard() -> (r: Limits)
        ensures
            r.min_chars == 500,
            r.max_chars == 1500,
            r.floor == 100,
            r.valid(),
    {
        Limits { min_chars: 500, max_chars: 1500, floor: 100 }
    }
}

/// The page's text, once trimmed, begins with a redirect marker.
pub open spec fn is_redirect(text: Seq<char>) -> bool {
    let t = trim(text);
    ||| starts_with(t, "#REDIRECT"@)
    ||| starts_with(t, "#redirect"@)
    ||| starts_with(t, "#넘겨주기"@)
}

/// The title or the text marks the page as a disambiguation page.
pub open spec fn is_disambiguation(title: Seq<char>, text: Seq<char>) -> bool {
    contains(title, "(동음이의)"@) || contains(text, "{{동음이의}}"@)
}

/// The content of the record made from a page, if one is made.
pub open spec fn extract_spec(title: Seq<char>, text: Seq<char>, limits: Limits) -> Option<
    Seq<char>,
> {
    if is_redirect(text) || is_disambiguation(title, text) {
        None
    } else {
        let lead = first_paragraph_spec(text);
        let content = truncate_spec(
            clean_spec(lead),
            limits.min_chars as nat,
            limits.max_chars as nat,
        );
        if lead.len() == 0 || content.len() < limits.floor {
            None
        } else {
            Some(content)
        }
    }
}

/// The page is in the main namespace and has a title.
pub open spec fn eligible(title: Seq<char>, ns: Seq<char>) -> bool {
    ns == "0"@ && title.len() > 0
}

/// The content of the record that a page of the dump yields, if any.
pub open spec fn node_spec(title: Seq<char>, ns: Seq<char>, text: Seq<char>, limits: Limits) -> Option<
    Seq<char>,
> {
    if eligible(title, ns) {
        extract_spec(title, text, limits)
    } else {
        None
    }
}

/// The eligibility filter: namespace `"0"` and a non-empty title.
pub fn is_eligible(page: &WikiPage) -> (r: bool)
    ensures
        r == eligible(page.title@, page.ns@),
{
    let ns = chars_of(page.ns.as_str());
    let zero = chars_of("0");
    chars_eq(&ns, &zero) && !page.title.as_str().is_empty()
}

/// Turns a page's markup into a record: redirects and disambiguation pages
/// give none; otherwise the lead paragraph is isolated, cleaned and
/// truncated, and kept if it reaches `limits.floor` code points.
pub fn extract_wiki_node(rules: &MarkupRules, page: &WikiPage, limits: Limits) -> (r: Option<
    WikiNode,
>)
    requires
        rules.wf(),
        limits.valid(),
    ensures
        match r {
            Some(n) => {
                &&& extract_spec(page.title@, page.text@, limits) == Some(n.content@)
                &&& n.title@ == page.title@
            },
            None => extract_spec(page.title@, page.text@, limits) is None,
        },
        r matches Some(n) ==> limits.floor <= n.content@.len() <= limits.max_chars,
{
    let text = chars_of(page.text.as_str());
    let t = trimmed(&text);
    if starts_with_exec(&t, &chars_of("#REDIRECT")) || starts_with_exec(&t, &chars_of("#redirect"))
        || starts_with_exec(&t, &chars_of("#넘겨주기")) {
        return None;
    }
    let title = chars_of(page.title.as_str());
    if contains_exec(&title, &chars_of("(동음이의)")) || contains_exec(
        &text,
        &chars_of("{{동음이의}}"),
    ) {
        return None;
    }
    let lead = extract_first_paragraph(rules, page.text.as_str());
    if lead.as_str().is_empty() {
        return None;
    }
    let cleaned = clean_wiki_markup(rules, lead.as_str());
    let content = smart_truncate(cleaned.as_str(), limits.min_chars, limits.max_chars);
    let n = chars_of(content.as_str()).len();
    if n < limits.floor {
        return None;
    }
    Some(WikiNode { title: page.title.clone(), content })
}

/// The whole per-page decision: the eligibility filter, then extraction.
pub fn process_page(rules: &MarkupRules, page: &WikiPage, limits: Limits) -> (r: Option<WikiNode>)
    requires
        rules.wf(),
        limits.valid(),
    ensures
        match r {
            Some(n) => {
                &&& node_spec(page.title@, page.ns@, page.text@, limits) == Some(n.content@)
                &&& n.title@ == page.title@
            },
            None => node_spec(page.title@, page.ns@, page.text@, limits) is None,
        },
        r matches Some(n) ==> limits.floor <= n.content@.len() <= limits.max_chars,
{
    if !is_eligible(page) {
        return None;
    }
    extract_wiki_node(rules, page, limits)
}

/// A page outside the main namespace never yields a record, whatever it
/// holds.
pub proof fn lemma_other_namespace_yields_nothing(
    title: Seq<char>,
    ns: Seq<char>,
    text: Seq<char>,
    limits: Limits,
)
    requires
        ns != "0"@,
    ensures
        node_spec(title, ns, text, limits) is None,
{
}

/// A page whose trimmed text begins with a redirect marker never yields a
/// record.
pub proof fn lemma_redirect_yields_nothing(
    title: Seq<char>,
    ns: Seq<char>,
    text: Seq<char>,
    limits: Limits,
)
    requires
        is_redirect(text),
    ensures
        node_spec(title, ns, text, limits) is None,
{
}

/// A page marked as a disambiguation page, by its title or its text, never
/// yields a record.
pub proof fn lemma_disambiguation_yields_nothing(
    title: Seq<char>,
    ns: Seq<char>,
    text: Seq<char>,
    limits: Limits,
)
    requires
        is_disambiguation(title, text),
    ensures
        node_spec(title, ns, text, limits) is None,
{
}

/// A record is made exactly for an eligible page that is neither a redirect
/// nor a disambiguation page and whose normalized lead reaches the floor;
/// its content never exceeds the maximum.
pub proof fn lemma_node_iff(title: Seq<char>, ns: Seq<char>, text: Seq<char>, limits: Limits)
    requires
        limits.valid(),
    ensures
        node_spec(title, ns, text, limits) is Some <==> {
            &&& eligible(title, ns)
            &&& !is_redirect(text)
            &&& !is_disambiguation(title, text)
            &&& first_paragraph_spec(text).len() > 0
            &&& truncate_spec(
                clean_spec(first_paragraph_spec(text)),
                limits.min_chars as nat,
                limits.max_chars as nat,
            ).len() >= limits.floor
        },
        node_spec(title, ns, text, limits) matches Some(c) ==> limits.floor <= c.len()
            <= limits.max_chars,
{
    let lead = first_paragraph_spec(text);
    crate::truncate::lemma_truncate_keeps_whole_code_points(
        clean_spec(lead),
        limits.min_chars as nat,
        limits.max_chars as nat,
    );
}

} // verus!
