//! Per-visit data model: page classifications and the per-visit context
//! handed to every handler, plus resolution of extracted links against the
//! page's own address.

use vstd::prelude::*;

verus! {

/// Auxiliary payload carried by a news-page classification.
#[derive(Clone, Copy, Debug, PartialEq, Eq, Default)]
pub struct NewsData {}

/// Auxiliary payload carried by a person-page classification.
#[derive(Clone, Copy, Debug, PartialEq, Eq, Default)]
pub struct PersonData {}

/// Auxiliary payload carried by a report-page classification.
#[derive(Clone, Copy, Debug, PartialEq, Eq, Default)]
pub struct ReportData {}

/// Why a page is being visited: an index page, or a typed content page
/// carrying a kind-specific payload.
#[derive(Debug, PartialEq, Eq)]
pub enum PageType {
    Index,
    News(Box<NewsData>),
    Person(Box<PersonData>),
    Report(Box<ReportData>),
}

impl PageType {
    pub fn news() -> (r: PageType)
        ensures
            r matches PageType::News(d) && *d == (NewsData {}),
    {
        Self::news_with(NewsData {})
    }

    pub fn news_with(data: NewsData) -> (r: PageType)
        ensures
            r matches PageType::News(d) && *d == data,
    {
        PageType::News(Box::new(data))
    }

    pub fn person() -> (r: PageType)
        ensures
            r matches PageType::Person(d) && *d == (PersonData {}),
    {
        Self::person_with(PersonData {})
    }

    pub fn person_with(data: PersonData) -> (r: PageType)
        ensures
            r matches PageType::Person(d) && *d == data,
    {
        PageType::Person(Box::new(data))
    }

    pub fn report() -> (r: PageType)
        ensures
            r matches PageType::Report(d) && *d == (ReportData {}),
    {
        Self::report_with(ReportData {})
    }

    pub fn report_with(data: ReportData) -> (r: PageType)
        ensures
            r matches PageType::Report(d) && *d == data,
    {
        PageType::Report(Box::new(data))
    }

    pub fn index() -> (r: PageType)
        ensures
            r == PageType::Index,
    {
        PageType::Index
    }
}

impl Clone for PageType {
    fn clone(&self) -> (r: PageType)
        ensures
            r == *self,
    {
        match self {
            PageType::Index => PageType::Index,
            PageType::News(d) => PageType::News(Box::new(**d)),
            PageType::Person(d) => PageType::Person(Box::new(**d)),
            PageType::Report(d) => PageType::Report(Box::new(**d)),
        }
    }
}

/// What the dispatch pipeline reads out of one matched document element:
/// its `href` attribute, if any, and its concatenated text content.
#[derive(Debug, PartialEq, Eq)]
pub struct ElementData {
    pub href: Option<String>,
    pub text: String,
}

impl ElementData {
    /// The element reduced to its mathematical content.
    pub open spec fn parts(&self) -> (Option<Seq<char>>, Seq<char>) {
        (self.href.deep_view(), self.text@)
    }
}

/// The absolute URL that `rel` resolves to against the base URL `base`,
/// or `None` when `base` does not parse as an absolute URL or the join
/// is invalid; determined by the URL standard's parse-and-join algorithm.
pub uninterp spec fn joined_url(base: Seq<char>, rel: Seq<char>) -> Option<Seq<char>>;

/// The normalized form of `s` parsed as an absolute URL, or `None` when
/// `s` is not one.
pub uninterp spec fn parsed_url(s: Seq<char>) -> Option<Seq<char>>;

/// Relies on url::Url::parse and url::Url::join: resolving a possibly
/// relative URL against a base, yielding the joined URL in serialized form.
#[verifier::external_body]
fn join_url(base: &str, rel: &str) -> (r: Option<String>)
    ensures
        r.deep_view() == joined_url(base@, rel@),
{
    match url::Url::parse(base) {
        Ok(b) => match b.join(rel) {
            Ok(u) => Some(u.to_string()),
            Err(_) => None,
        },
        Err(_) => None,
    }
}

/// Relies on url::Url::parse: the serialized (normalized) form of an
/// absolute URL, or `None` for text that is not one.
#[verifier::external_body]
pub(crate) fn parse_url(s: &str) -> (r: Option<String>)
    ensures
        r.deep_view() == parsed_url(s@),
{
    match url::Url::parse(s) {
        Ok(u) => Some(u.to_string()),
        Err(_) => None,
    }
}

/// Per-visit record: the current absolute address and the classification
/// under which this page is being visited. Shared read-only by every
/// handler invoked for one visit.
#[derive(Debug)]
pub struct Context {
    pub page_type: PageType,
    pub current_address: String,
}

impl Context {
    /// Resolve a matched element's `href` attribute against the page's own
    /// address, yielding the absolute URL it points to.
    pub fn parse_href(&self, element: &ElementData) -> (r: Option<String>)
        ensures
            match element.href {
                Some(h) => r.deep_view() == joined_url(self.current_address@, h@),
                None => r is None,
            },
    {
        match &element.href {
            Some(h) => join_url(self.current_address.as_str(), h.as_str()),
            None => None,
        }
    }

    /// Resolve a matched element's text content against the page's own
    /// address, yielding the absolute URL it points to.
    pub fn parse_text(&self, element: &ElementData) -> (r: Option<String>)
        ensures
            r.deep_view() == joined_url(self.current_address@, element.text@),
    {
        join_url(self.current_address.as_str(), element.text.as_str())
    }
}

} // verus!
