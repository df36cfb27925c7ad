//! Reconstruction of pages from the events of a streaming XML reader.
//!
//! The reader itself runs outside the library; it hands each element start,
//! run of character data and element end to a [`PageScanner`], which keeps
//! the one page being read and gives it back when the page ends.
use vstd::prelude::*;
use crate::page::WikiPage;
use crate::text::{chars_eq, chars_of};

verus! {

/// What `quick_xml::escape::unescape` returns for `raw`: the text with its
/// entity and character references resolved, or `None` where it fails.
pub uninterp spec fn xml_unescaped(raw: Seq<char>) -> Option<Seq<char>>;

/// Relies on `quick_xml::escape::unescape`: resolves the predefined XML
/// entities and character references, and fails on an unknown or
/// unterminated reference.
#[verifier::external_body]
fn unescape(raw: &str) -> (r: Option<String>)
    ensures
        match r {
            Some(s) => xml_unescaped(raw@) == Some(s@),
            None => xml_unescaped(raw@) is None,
        },
{
    quick_xml::escape::unescape(raw).ok().map(|c| c.into_owned())
}

/// The page field that character data currently goes to.
#[derive(Clone, Copy, Debug, PartialEq, Eq, Structural)]
pub enum Field {
    Ignored,
    Title,
    Namespace,
    Text,
}

/// The field that an element of the given name opens.
pub open spec fn field_of(name: Seq<char>) -> Field {
    if name == "title"@ {
        Field::Title
    } else if name == "ns"@ {
        Field::Namespace
    } else if name == "text"@ {
        Field::Text
    } else {
        Field::Ignored
    }
}

/// A scan that failed on a run of character data.
#[derive(Clone, Copy, Debug, PartialEq, Eq, Structural)]
pub enum ScanError {
    /// An entity or character reference could not be resolved.
    InvalidEscape,
}

/// The page being read and the field that is open.
pub struct PageScanner {
    pub page: WikiPage,
    pub field: Field,
}

pub open spec fn page_is_empty(p: WikiPage) -> bool {
    p.title@.len() == 0 && p.ns@.len() == 0 && p.text@.len() == 0
}

pub open spec fn same_page(a: WikiPage, b: WikiPage) -> bool {
    a.title@ == b.title@ && a.ns@ == b.ns@ && a.text@ == b.text@
}

/// `p` with `value` stored in `field`; an ignored field stores nothing.
pub open spec fn assigned(p: WikiPage, q: WikiPage, field: Field, value: Seq<char>) -> bool {
    match field {
        Field::Title => q.title@ == value && q.ns@ == p.ns@ && q.text@ == p.text@,
        Field::Namespace => q.title@ == p.title@ && q.ns@ == value && q.text@ == p.text@,
        Field::Text => q.title@ == p.title@ && q.ns@ == p.ns@ && q.text@ == value,
        Field::Ignored => same_page(p, q),
    }
}

fn empty_page() -> (r: WikiPage)
    ensures
        page_is_empty(r),
{
    WikiPage { title: String::new(), ns: String::new(), text: String::new() }
}

fn name_is(name: &Vec<char>, word: &str) -> (r: bool)
    ensures
        r == (name@ == word@),
{
    chars_eq(name, &chars_of(word))
}

impl PageScanner {
    /// A scanner outside any page.
    pub fn new() -> (r: PageScanner)
        ensures
            page_is_empty(r.page),
            r.field == Field::Ignored,
    {
        PageScanner { page: empty_page(), field: Field::Ignored }
    }

    /// An element starts: `page` begins a fresh page; `title`, `ns` and
    /// `text` open their field; any other element opens none.
    pub fn on_start(&mut self, name: &str)
        ensures
            final(self).field == field_of(name@),
            name@ == "page"@ ==> page_is_empty(final(self).page),
            name@ != "page"@ ==> same_page(final(self).page, old(self).page),
    {
        let n = chars_of(name);
        if name_is(&n, "page") {
            self.page = empty_page();
        }
        self.field = if name_is(&n, "title") {
            Field::Title
        } else if name_is(&n, "ns") {
            Field::Namespace
        } else if name_is(&n, "text") {
            Field::Text
        } else {
            Field::Ignored
        };
    }

    /// A run of character data: unescaped, then stored in the open field,
    /// replacing what it held. Fails, changing nothing, when the data cannot
    /// be unescaped.
    pub fn on_text(&mut self, raw: &str) -> (r: Result<(), ScanError>)
        ensures
            final(self).field == old(self).field,
            match xml_unescaped(raw@) {
                Some(u) => r is Ok && assigned(old(self).page, final(self).page, old(self).field, u),
                None => r == Err::<(), ScanError>(ScanError::InvalidEscape) && same_page(
                    old(self).page,
                    final(self).page,
                ),
            },
    {
        match unescape(raw) {
            None => Err(ScanError::InvalidEscape),
            Some(value) => {
                match self.field {
                    Field::Title => self.page.title = value,
                    Field::Namespace => self.page.ns = value,
                    Field::Text => self.page.text = value,
                    Field::Ignored => {},
                }
                Ok(())
            },
        }
    }

    /// An element ends: at the end of a page, the page read so far is handed
    /// back and the scanner starts afresh; any other end changes nothing.
    pub fn on_end(&mut self, name: &str) -> (r: Option<WikiPage>)
        ensures
            name@ == "page"@ ==> {
                &&& r matches Some(p) && same_page(p, old(self).page)
                &&& page_is_empty(final(self).page)
                &&& final(self).field == Field::Ignored
            },
            name@ != "page"@ ==> {
                &&& r is None
                &&& same_page(final(self).page, old(self).page)
                &&& final(self).field == old(self).field
            },
    {
        let n = chars_of(name);
        if name_is(&n, "page") {
            let mut done = empty_page();
            core::mem::swap(&mut done, &mut self.page);
            self.field = Field::Ignored;
            Some(done)
        } else {
            None
        }
    }
}

} // verus!
