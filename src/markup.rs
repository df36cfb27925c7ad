//! Lead-paragraph isolation and markup cleanup.
//!
//! Pattern matching is done by the `regex` crate. Each pattern is compiled
//! once, held in [`MarkupRules`], and reused for every page.
use vstd::prelude::*;
use crate::text::{
    chars_of, find, find_exec, slice_chars, starts_with, starts_with_exec, string_of, trim, trimmed,
};

verus! {

#[verifier::external_type_specification]
#[verifier::external_body]
pub struct ExRegex(regex::Regex);

/// What `regex::Regex::replace_all` returns for a regex compiled from
/// `pattern`, given `haystack` and a literal `replacement`.
pub uninterp spec fn regex_replaced(
    pattern: Seq<char>,
    haystack: Seq<char>,
    replacement: Seq<char>,
) -> Seq<char>;

/// Whether `regex::Regex::new` accepts `pattern`.
pub uninterp spec fn regex_compiles(pattern: Seq<char>) -> bool;

/// What `regex::Regex::is_match` returns for a regex compiled from `pattern`.
pub uninterp spec fn regex_matches(pattern: Seq<char>, haystack: Seq<char>) -> bool;

/// A compiled regular expression together with the text it was compiled from.
pub struct Pattern {
    re: regex::Regex,
    source: String,
}

impl Pattern {
    /// The pattern text this regex was compiled from.
    pub closed spec fn source(&self) -> Seq<char> {
        self.source@
    }
}

/// Relies on `regex::Regex::new`: compiles `source`, or fails on an invalid
/// pattern; the outcome depends on the pattern alone. The compiled regex is
/// kept beside the text it came from.
#[verifier::external_body]
fn compile(source: &str) -> (r: Option<Pattern>)
    ensures
        r is Some <==> regex_compiles(source@),
        r matches Some(p) ==> p.source() == source@,
{
    match regex::Regex::new(source) {
        Ok(re) => Some(Pattern { re, source: source.to_string() }),
        Err(_) => None,
    }
}

/// Relies on `regex::Regex::replace_all` with `regex::NoExpand`: every
/// match replaced by `rep` taken literally; with no match the haystack is
/// returned unchanged, as its documentation states.
#[verifier::external_body]
fn replace_all(p: &Pattern, haystack: &str, rep: &str) -> (r: String)
    ensures
        r@ == regex_replaced(p.source(), haystack@, rep@),
        !regex_matches(p.source(), haystack@) ==> r@ == haystack@,
{
    p.re.replace_all(haystack, regex::NoExpand(rep)).into_owned()
}

/// Relies on `regex::Regex::is_match`: whether the regex matches anywhere in
/// the haystack.
#[verifier::external_body]
fn is_match(p: &Pattern, haystack: &str) -> (r: bool)
    ensures
        r == regex_matches(p.source(), haystack@),
{
    p.re.is_match(haystack)
}

/// Template and infobox blocks: `{{` up to the nearest `}}`, across lines.
/// A nested block is not matched as a whole.
pub const INFOBOX_PATTERN: &'static str = r"(?s)\{\{.*?\}\}";

/// File and image links, with their captions.
pub const FILE_LINK_PATTERN: &'static str = r"\[\[(?:File|파일|Image|그림):[^\]]*\]\]";

/// Citation tags with their contents.
pub const REF_PATTERN: &'static str = r"(?s)<ref[^>]*>.*?</ref>";

/// HTML comments.
pub const COMMENT_PATTERN: &'static str = r"(?s)<!--.*?-->";

/// Any remaining HTML-style tag.
pub const HTML_TAG_PATTERN: &'static str = r"<[^>]+>";

/// Three or more newlines in a row.
pub const NEWLINES_PATTERN: &'static str = r"\n{3,}";

/// Two or more spaces in a row.
pub const SPACES_PATTERN: &'static str = r" {2,}";

/// The compiled patterns used by the extraction stages.
pub struct MarkupRules {
    infobox: Pattern,
    file_link: Pattern,
    ref_tag: Pattern,
    comment: Pattern,
    html_tag: Pattern,
    newlines: Pattern,
    spaces: Pattern,
}

impl MarkupRules {
    /// Each regex was compiled from its pattern constant.
    pub closed spec fn wf(&self) -> bool {
        &&& self.infobox.source() == INFOBOX_PATTERN@
        &&& self.file_link.source() == FILE_LINK_PATTERN@
        &&& self.ref_tag.source() == REF_PATTERN@
        &&& self.comment.source() == COMMENT_PATTERN@
        &&& self.html_tag.source() == HTML_TAG_PATTERN@
        &&& self.newlines.source() == NEWLINES_PATTERN@
        &&& self.spaces.source() == SPACES_PATTERN@
    }

    /// Compiles every pattern once; `None` if the regex engine refuses one.
    pub fn new() -> (r: Option<MarkupRules>)
        ensures
            r is Some <==> all_patterns_compile(),
            r matches Some(m) ==> m.wf(),
    {
        let infobox = compile(INFOBOX_PATTERN)?;
        let file_link = compile(FILE_LINK_PATTERN)?;
        let ref_tag = compile(REF_PATTERN)?;
        let comment = compile(COMMENT_PATTERN)?;
        let html_tag = compile(HTML_TAG_PATTERN)?;
        let newlines = compile(NEWLINES_PATTERN)?;
        let spaces = compile(SPACES_PATTERN)?;
        Some(MarkupRules { infobox, file_link, ref_tag, comment, html_tag, newlines, spaces })
    }

    /// Whether any of the markup patterns of the cleaner still matches `text`.
    pub fn has_markup(&self, text: &str) -> (r: bool)
        requires
            self.wf(),
        ensures
            r == markup_present(text@),
    {
        is_match(&self.file_link, text) || is_match(&self.ref_tag, text) || is_match(
            &self.comment,
            text,
        ) || is_match(&self.html_tag, text)
    }
}

/// The regex engine accepts every pattern of the rule set.
pub open spec fn all_patterns_compile() -> bool {
    &&& regex_compiles(INFOBOX_PATTERN@)
    &&& regex_compiles(FILE_LINK_PATTERN@)
    &&& regex_compiles(REF_PATTERN@)
    &&& regex_compiles(COMMENT_PATTERN@)
    &&& regex_compiles(HTML_TAG_PATTERN@)
    &&& regex_compiles(NEWLINES_PATTERN@)
    &&& regex_compiles(SPACES_PATTERN@)
}

/// A file link, citation, comment or tag occurs in `s`.
pub open spec fn markup_present(s: Seq<char>) -> bool {
    ||| regex_matches(FILE_LINK_PATTERN@, s)
    ||| regex_matches(REF_PATTERN@, s)
    ||| regex_matches(COMMENT_PATTERN@, s)
    ||| regex_matches(HTML_TAG_PATTERN@, s)
}

/// Runs of newlines and of spaces collapsed.
pub open spec fn collapse_whitespace(s: Seq<char>) -> Seq<char> {
    regex_replaced(SPACES_PATTERN@, regex_replaced(NEWLINES_PATTERN@, s, "\n\n"@), " "@)
}

/// Text that cleaning leaves as it is: no markup, no run of newlines or
/// spaces to collapse, and no surrounding whitespace.
pub open spec fn is_clean(s: Seq<char>) -> bool {
    &&& !markup_present(s)
    &&& !regex_matches(NEWLINES_PATTERN@, s)
    &&& !regex_matches(SPACES_PATTERN@, s)
    &&& trim(s) == s
}

/// The six cleanup substitutions in order, then trimming.
pub open spec fn clean_spec(s: Seq<char>) -> Seq<char> {
    let a = regex_replaced(FILE_LINK_PATTERN@, s, ""@);
    let b = regex_replaced(REF_PATTERN@, a, ""@);
    let c = regex_replaced(COMMENT_PATTERN@, b, ""@);
    let d = regex_replaced(HTML_TAG_PATTERN@, c, ""@);
    trim(collapse_whitespace(d))
}

/// Strips file links, citations, comments and tags from `text`, collapses
/// runs of newlines and spaces, and trims it. Text with no markup left is
/// only whitespace-normalized, and text that is already clean (no markup,
/// no runs to collapse, nothing to trim) comes back unchanged.
pub fn clean_wiki_markup(rules: &MarkupRules, text: &str) -> (r: String)
    requires
        rules.wf(),
    ensures
        r@ == clean_spec(text@),
        !markup_present(text@) ==> r@ == trim(collapse_whitespace(text@)),
        is_clean(text@) ==> r@ == text@,
{
    let a = replace_all(&rules.file_link, text, "");
    let b = replace_all(&rules.ref_tag, a.as_str(), "");
    let c = replace_all(&rules.comment, b.as_str(), "");
    let d = replace_all(&rules.html_tag, c.as_str(), "");
    let e = replace_all(&rules.newlines, d.as_str(), "\n\n");
    let f = replace_all(&rules.spaces, e.as_str(), " ");
    let v = chars_of(f.as_str());
    string_of(trimmed(&v).as_slice())
}

/// The text before the first section heading (a newline followed by `==`).
pub open spec fn intro_of(t: Seq<char>) -> Seq<char> {
    match find(t, "\n=="@) {
        Some(i) => t.subrange(0, i),
        None => t,
    }
}

/// `s` cut at every occurrence of `sep`, left to right.
pub open spec fn split(s: Seq<char>, sep: Seq<char>) -> Seq<Seq<char>>
    decreases s.len(),
{
    if sep.len() > 0 && find(s, sep) is Some && 0 <= find(s, sep)->0 && find(s, sep)->0 + sep.len()
        <= s.len() {
        let i = find(s, sep)->0;
        seq![s.subrange(0, i)] + split(s.subrange(i + sep.len(), s.len() as int), sep)
    } else {
        seq![s]
    }
}

/// A trimmed paragraph is kept unless it is empty or table markup.
pub open spec fn keeps_paragraph(p: Seq<char>) -> bool {
    p.len() > 0 && !starts_with(p, "{|"@) && !starts_with(p, "|"@)
}

/// The trimmed pieces of `ps` that are kept, in order.
pub open spec fn kept_paragraphs(ps: Seq<Seq<char>>) -> Seq<Seq<char>>
    decreases ps.len(),
{
    if ps.len() == 0 {
        seq![]
    } else {
        let pre = kept_paragraphs(ps.drop_last());
        if keeps_paragraph(trim(ps.last())) {
            pre.push(trim(ps.last()))
        } else {
            pre
        }
    }
}

/// `ps` joined with `sep` between consecutive pieces.
pub open spec fn join(ps: Seq<Seq<char>>, sep: Seq<char>) -> Seq<char>
    decreases ps.len(),
{
    if ps.len() == 0 {
        seq![]
    } else if ps.len() == 1 {
        ps[0]
    } else {
        join(ps.drop_last(), sep) + sep + ps.last()
    }
}

/// The lead section of `t`: its introduction with templates removed, cut
/// into paragraphs at blank lines, filtered, and joined back.
pub open spec fn first_paragraph_spec(t: Seq<char>) -> Seq<char> {
    paragraphs_spec(regex_replaced(INFOBOX_PATTERN@, intro_of(t), ""@))
}

/// Appends one split piece to the paragraphs joined so far.
fn push_paragraph(
    out: &mut Vec<char>,
    any: &mut bool,
    piece: &Vec<char>,
    sep: &Vec<char>,
    table: &Vec<char>,
    bar: &Vec<char>,
    done: Ghost<Seq<Seq<char>>>,
)
    requires
        sep@ == "\n\n"@,
        table@ == "{|"@,
        bar@ == "|"@,
        old(out)@ == join(kept_paragraphs(done@), "\n\n"@),
        *old(any) == (kept_paragraphs(done@).len() > 0),
    ensures
        final(out)@ == join(kept_paragraphs(done@.push(piece@)), "\n\n"@),
        *final(any) == (kept_paragraphs(done@.push(piece@)).len() > 0),
{
    let ghost ps = done@.push(piece@);
    assert(ps.drop_last() =~= done@);
    let t = trimmed(piece);
    if t.len() > 0 && !starts_with_exec(&t, table) && !starts_with_exec(&t, bar) {
        let ghost pre = kept_paragraphs(done@);
        assert(pre.push(t@).drop_last() =~= pre);
        if *any {
            let mut i: usize = 0;
            while i < sep.len()
                invariant
                    i <= sep.len(),
                    out@ == old(out)@ + sep@.subrange(0, i as int),
                decreases sep.len() - i,
            {
                out.push(sep[i]);
                i = i + 1;
                assert(out@ =~= old(out)@ + sep@.subrange(0, i as int));
            }
            assert(sep@.subrange(0, sep@.len() as int) =~= sep@);
        } else {
            assert(out@ =~= seq![]);
        }
        let mut j: usize = 0;
        let ghost mid = out@;
        while j < t.len()
            invariant
                j <= t.len(),
                out@ == mid + t@.subrange(0, j as int),
            decreases t.len() - j,
        {
            out.push(t[j]);
            j = j + 1;
            assert(out@ =~= mid + t@.subrange(0, j as int));
        }
        assert(t@.subrange(0, t@.len() as int) =~= t@);
        assert(out@ =~= join(pre.push(t@), "\n\n"@));
        *any = true;
    }
}

/// The paragraphs of `body`: cut at blank lines, each piece trimmed, empty
/// pieces and table markup dropped, the rest joined by blank lines.
pub open spec fn paragraphs_spec(body: Seq<char>) -> Seq<char> {
    join(kept_paragraphs(split(body, "\n\n"@)), "\n\n"@)
}

/// Isolates the introductory paragraphs of raw page markup: the text before
/// the first section heading, without template blocks, split at blank lines,
/// with empty pieces and table markup dropped, joined by blank lines.
pub fn extract_first_paragraph(rules: &MarkupRules, text: &str) -> (r: String)
    requires
        rules.wf(),
    ensures
        r@ == first_paragraph_spec(text@),
{
    let all = chars_of(text);
    let heading = chars_of("\n==");
    let intro = match find_exec(&all, &heading) {
        Some(i) => slice_chars(&all, 0, i),
        None => all,
    };
    let intro_text = string_of(intro.as_slice());
    let body = replace_all(&rules.infobox, intro_text.as_str(), "");
    paragraphs_of(body.as_str())
}

/// Cuts `body` at blank lines, trims each piece, drops empty pieces and
/// table markup (`{|` or a leading `|`), and joins the rest by blank lines.
pub fn paragraphs_of(body: &str) -> (r: String)
    ensures
        r@ == paragraphs_spec(body@),
{
    let sep = chars_of("\n\n");
    let table = chars_of("{|");
    let bar = chars_of("|");
    let mut rest = chars_of(body);
    let mut out: Vec<char> = Vec::new();
    let mut any = false;
    let ghost mut done: Seq<Seq<char>> = seq![];
    proof {
        reveal_strlit("\n\n");
    }
    assert(sep@.len() == 2);
    loop
        invariant
            sep@ == "\n\n"@,
            sep@.len() == 2,
            table@ == "{|"@,
            bar@ == "|"@,
            split(body@, sep@) == done + split(rest@, sep@),
            out@ == join(kept_paragraphs(done), "\n\n"@),
            any == (kept_paragraphs(done).len() > 0),
        decreases rest.len(),
    {
        match find_exec(&rest, &sep) {
            Some(i) => {
                let piece = slice_chars(&rest, 0, i);
                let tail = slice_chars(&rest, i + sep.len(), rest.len());
                assert(split(rest@, sep@) == seq![piece@] + split(tail@, sep@));
                push_paragraph(&mut out, &mut any, &piece, &sep, &table, &bar, Ghost(done));
                proof {
                    assert(done.push(piece@) + split(tail@, sep@) =~= done + (seq![piece@]
                        + split(tail@, sep@)));
                    done = done.push(piece@);
                }
                rest = tail;
            },
            None => {
                assert(split(rest@, sep@) == seq![rest@]);
                push_paragraph(&mut out, &mut any, &rest, &sep, &table, &bar, Ghost(done));
                proof {
                    assert(done + seq![rest@] =~= done.push(rest@));
                }
                return string_of(out.as_slice());
            },
        }
    }
}

} // verus!
