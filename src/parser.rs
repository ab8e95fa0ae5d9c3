//! Extraction of crate listings from the lib.rs index page, and of the README
//! fragment from a crate's detail page.
use crate::time::Timestamp;
use cow_utils::CowUtils;
use scraper::{Html, Selector};
use vstd::prelude::*;
use vstd::string::*;

verus! {

#[verifier::external_type_specification]
#[verifier::external_body]
pub struct ExHtml(Html);

/// The site every relative crate link is resolved against.
pub open spec fn site_root() -> Seq<char> {
    "https://lib.rs"@
}

/// The text with every line feed turned into a space.
pub open spec fn newlines_to_spaces_spec(s: Seq<char>) -> Seq<char> {
    Seq::new(s.len(), |i: int| if s[i] == '\n' { ' ' } else { s[i] })
}

/// What `str::trim` keeps of a text.
pub uninterp spec fn trimmed(s: Seq<char>) -> Seq<char>;

/// How many elements of the HTML page `page` the CSS selector `list` selects
/// (none where scraper refuses the selector).
pub uninterp spec fn match_count(page: Seq<char>, list: Seq<char>) -> nat;

/// The attribute `name` of the `index`-th element that `list` selects.
pub uninterp spec fn match_attr(page: Seq<char>, list: Seq<char>, index: int, name: Seq<char>) -> Option<Seq<char>>;

/// The first text node of the first element that `inner` selects under the
/// `index`-th element that `list` selects.
pub uninterp spec fn inner_first_text(page: Seq<char>, list: Seq<char>, index: int, inner: Seq<char>) -> Option<Seq<char>>;

/// The second child, where it is a text node, of the first element that
/// `inner` selects under the `index`-th element that `list` selects.
pub uninterp spec fn inner_second_child_text(page: Seq<char>, list: Seq<char>, index: int, inner: Seq<char>) -> Option<Seq<char>>;

/// The outer markup of the first element that `pattern` selects.
pub uninterp spec fn first_match_html(page: Seq<char>, pattern: Seq<char>) -> Option<Seq<char>>;

/// The view of an optional text.
pub open spec fn opt_view(o: Option<String>) -> Option<Seq<char>> {
    match o {
        Some(s) => Some(s@),
        None => None,
    }
}

/// A parsed HTML page, with the text it was parsed from. Only `parse_document`
/// makes one, so the document is always scraper's parse of `source()`.
pub struct Page {
    html: Html,
    text: String,
}

impl Page {
    /// The text the page was parsed from.
    pub closed spec fn source(&self) -> Seq<char> {
        self.text@
    }

    /// Parses an HTML document.
    pub fn parse(text: &str) -> (r: Page)
        ensures
            r.source() == text@,
    {
        parse_document(text)
    }
}

/// The raw text found under one listing anchor, before any check.
pub struct ListingFields {
    /// The anchor's `href` attribute.
    pub href: Option<String>,
    /// First text node of the heading.
    pub title: Option<String>,
    /// First text node of the description, as it stands on the page.
    pub description: Option<String>,
    /// Text of the second child of the version element.
    pub version: Option<String>,
    /// First text node of the publish-date element.
    pub pubdate: Option<String>,
}

/// The texts of a `ListingFields`.
pub struct FieldsView {
    pub href: Option<Seq<char>>,
    pub title: Option<Seq<char>>,
    pub description: Option<Seq<char>>,
    pub version: Option<Seq<char>>,
    pub pubdate: Option<Seq<char>>,
}

impl View for ListingFields {
    type V = FieldsView;

    open spec fn view(&self) -> FieldsView {
        FieldsView {
            href: opt_view(self.href),
            title: opt_view(self.title),
            description: opt_view(self.description),
            version: opt_view(self.version),
            pubdate: opt_view(self.pubdate),
        }
    }
}

pub open spec fn fields_views(fs: Seq<ListingFields>) -> Seq<FieldsView> {
    Seq::new(fs.len(), |i: int| fs[i]@)
}

/// The raw fields of the `index`-th anchor that `list` selects on `page`.
pub open spec fn anchor_fields(page: Seq<char>, list: Seq<char>, index: int) -> FieldsView {
    FieldsView {
        href: match_attr(page, list, index, "href"@),
        title: inner_first_text(page, list, index, ".h > h4"@),
        description: inner_first_text(page, list, index, ".h > .desc"@),
        version: inner_second_child_text(page, list, index, ".meta > .version"@),
        pubdate: inner_first_text(page, list, index, ".meta > .pubdate"@),
    }
}

/// The raw fields of every anchor that `list` selects, in document order.
pub open spec fn section_fields(page: Seq<char>, list: Seq<char>) -> Seq<FieldsView> {
    Seq::new(match_count(page, list), |i: int| anchor_fields(page, list, i))
}

/// The outer markup of the page's README container, if it has one.
pub open spec fn readme_of(page: Seq<char>) -> Option<Seq<char>> {
    first_match_html(page, "#readme"@)
}

pub open spec fn new_list_pattern() -> Seq<char> {
    ".new > .crates-list > li > a"@
}

pub open spec fn trending_list_pattern() -> Seq<char> {
    ".trending > .crates-list > li > a"@
}

/// A listed crate joined with its registry timestamp and README fragment.
pub struct Crate {
    pub meta: CrateMeta,
    /// Last update, as the registry reports it.
    pub last_update: Timestamp,
    /// Outer markup of the README container of the detail page.
    pub content: String,
}

/// What was looked up for one crate: its last update and README fragment.
pub struct CrateContent {
    pub last_updated: Timestamp,
    pub content: String,
}

/// One crate as the listing page shows it.
#[derive(Debug)]
pub struct CrateMeta {
    /// Path of the crate's detail page, relative to the site.
    pub url: String,
    pub title: String,
    /// Trimmed, with line feeds turned into spaces.
    pub description: String,
    pub version: Option<String>,
    pub pubdate: Option<String>,
}

impl CrateMeta {
    /// Absolute URL of the crate's detail page.
    pub fn url(&self) -> (r: String)
        ensures
            r@ == site_root() + self.url@,
    {
        let root = String::from_str("https://lib.rs");
        proof {
            reveal_strlit("https://lib.rs");
        }
        root.concat(self.url.as_str())
    }
}

/// The anchor has every field that a listing entry must have.
pub open spec fn fields_complete(f: FieldsView) -> bool {
    &&& f.href is Some
    &&& f.title is Some
    &&& f.description is Some
}

/// The description as a feed shows it.
pub open spec fn normalized_description(raw: Seq<char>) -> Seq<char> {
    newlines_to_spaces_spec(trimmed(raw))
}

/// `m` is the record extracted from the complete fields `f`.
pub open spec fn meta_of(m: CrateMeta, f: FieldsView) -> bool {
    &&& m.url@ == f.href->0
    &&& m.title@ == f.title->0
    &&& m.description@ == normalized_description(f.description->0)
    &&& opt_view(m.version) == f.version
    &&& opt_view(m.pubdate) == f.pubdate
}

/// Extraction is all-or-nothing: a list of records, one per anchor and in
/// order, exactly when every anchor is complete.
pub open spec fn listing_outcome(fs: Seq<FieldsView>, r: Option<Vec<CrateMeta>>) -> bool {
    &&& r is Some <==> (forall|i: int| 0 <= i < fs.len() ==> fields_complete(#[trigger] fs[i]))
    &&& r is Some ==> {
        &&& r->0@.len() == fs.len()
        &&& forall|i: int| 0 <= i < fs.len() ==> meta_of(#[trigger] r->0@[i], fs[i])
    }
}

/// Relies on `str::trim`, whose result depends on the text alone.
#[verifier::external_body]
fn trim_text(s: &str) -> (r: String)
    ensures
        r@ == trimmed(s@),
{
    s.trim().to_string()
}

/// Relies on cow_utils' `cow_replace`: every match of the pattern is replaced.
#[verifier::external_body]
fn replace_newlines(s: &str) -> (r: String)
    ensures
        r@ == newlines_to_spaces_spec(s@),
{
    s.cow_replace('\n', " ").into_owned()
}

pub(crate) fn clone_opt(o: &Option<String>) -> (r: Option<String>)
    ensures
        opt_view(r) == opt_view(*o),
{
    match o {
        Some(s) => Some(s.clone()),
        None => None,
    }
}

/// Trims a description and turns its line feeds into spaces.
pub fn normalize_description(raw: &str) -> (r: String)
    ensures
        r@ == normalized_description(raw@),
{
    let t = trim_text(raw);
    replace_newlines(t.as_str())
}

/// The record for one anchor, or `None` when a required field is missing.
pub fn meta_from_fields(f: &ListingFields) -> (r: Option<CrateMeta>)
    ensures
        r is Some <==> fields_complete(f@),
        r is Some ==> meta_of(r->0, f@),
{
    match (&f.href, &f.title, &f.description) {
        (Some(href), Some(title), Some(desc)) => Some(
            CrateMeta {
                url: href.clone(),
                title: title.clone(),
                description: normalize_description(desc.as_str()),
                version: clone_opt(&f.version),
                pubdate: clone_opt(&f.pubdate),
            },
        ),
        _ => None,
    }
}

/// The records for all anchors of a section, in order, or `None` when any
/// anchor misses a required field.
pub fn extract_listing(fields: &Vec<ListingFields>) -> (r: Option<Vec<CrateMeta>>)
    ensures
        listing_outcome(fields_views(fields@), r),
{
    let mut out: Vec<CrateMeta> = Vec::new();
    let mut i: usize = 0;
    while i < fields.len()
        invariant
            i <= fields@.len(),
            out@.len() == i,
            forall|j: int| 0 <= j < i ==> fields_complete(#[trigger] fields@[j]@),
            forall|j: int| 0 <= j < i ==> meta_of(#[trigger] out@[j], fields@[j]@),
        decreases fields@.len() - i,
    {
        match meta_from_fields(&fields[i]) {
            Some(m) => {
                out.push(m);
            },
            None => {
                assert(!fields_complete(fields_views(fields@)[i as int]));
                return None;
            },
        }
        i = i + 1;
    }
    assert(fields_views(fields@).len() == out@.len());
    Some(out)
}

/// Relies on scraper's `Html::parse_document`; the page keeps the text it was
/// parsed from.
#[verifier::external_body]
fn parse_document(text: &str) -> (r: Page)
    ensures
        r.source() == text@,
{
    Page { html: Html::parse_document(text), text: text.to_string() }
}

/// Relies on scraper's `Html::select`: the number of elements selected.
#[verifier::external_body]
fn count_matches(page: &Page, list: &str) -> (r: usize)
    ensures
        r as nat == match_count(page.source(), list@),
{
    match Selector::parse(list) {
        Ok(sel) => page.html.select(&sel).count(),
        Err(_) => 0,
    }
}

/// Relies on scraper's `Html::select` and `ElementRef::attr`.
#[verifier::external_body]
fn match_attribute(page: &Page, list: &str, index: usize, name: &str) -> (r: Option<String>)
    ensures
        opt_view(r) == match_attr(page.source(), list@, index as int, name@),
{
    let sel = Selector::parse(list).ok()?;
    page.html.select(&sel).nth(index)?.attr(name).map(|v| v.to_string())
}

/// Relies on scraper's `Html::select`, `ElementRef::select` and `ElementRef::text`.
#[verifier::external_body]
fn inner_text(page: &Page, list: &str, index: usize, inner: &str) -> (r: Option<String>)
    ensures
        opt_view(r) == inner_first_text(page.source(), list@, index as int, inner@),
{
    let (outer, inner) = (Selector::parse(list).ok()?, Selector::parse(inner).ok()?);
    let e = page.html.select(&outer).nth(index)?;
    e.select(&inner).next()?.text().next().map(|t| t.to_string())
}

/// Relies on scraper's `Html::select`, `ElementRef::select`, ego-tree's
/// `children` and scraper's `Node::as_text`.
#[verifier::external_body]
fn inner_second_text(page: &Page, list: &str, index: usize, inner: &str) -> (r: Option<String>)
    ensures
        opt_view(r) == inner_second_child_text(page.source(), list@, index as int, inner@),
{
    let (outer, inner) = (Selector::parse(list).ok()?, Selector::parse(inner).ok()?);
    let e = page.html.select(&outer).nth(index)?;
    e.select(&inner).next()?.children().nth(1)?.value().as_text().map(|t| t.to_string())
}

/// Relies on scraper's `Html::select` and `ElementRef::html`.
#[verifier::external_body]
fn first_outer_html(page: &Page, pattern: &str) -> (r: Option<String>)
    ensures
        opt_view(r) == first_match_html(page.source(), pattern@),
{
    let sel = Selector::parse(pattern).ok()?;
    page.html.select(&sel).next().map(|e| e.html())
}

/// Reads the raw fields of the `index`-th anchor that `list` selects.
fn element_fields(page: &Page, list: &str, index: usize) -> (r: ListingFields)
    ensures
        r@ == anchor_fields(page.source(), list@, index as int),
{
    ListingFields {
        href: match_attribute(page, list, index, "href"),
        title: inner_text(page, list, index, ".h > h4"),
        description: inner_text(page, list, index, ".h > .desc"),
        version: inner_second_text(page, list, index, ".meta > .version"),
        pubdate: inner_text(page, list, index, ".meta > .pubdate"),
    }
}

/// The record for the `index`-th anchor that `list` selects, or `None` when a
/// required part is missing.
pub fn parse_elem(page: &Page, list: &str, index: usize) -> (r: Option<CrateMeta>)
    ensures
        r is Some <==> fields_complete(anchor_fields(page.source(), list@, index as int)),
        r is Some ==> meta_of(r->0, anchor_fields(page.source(), list@, index as int)),
{
    let f = element_fields(page, list, index);
    meta_from_fields(&f)
}

/// A section's listing: one record per anchor that `list` selects.
fn parse_section(page: &Page, list: &str) -> (r: Option<Vec<CrateMeta>>)
    ensures
        listing_outcome(section_fields(page.source(), list@), r),
{
    let n = count_matches(page, list);
    let mut fields: Vec<ListingFields> = Vec::new();
    let mut i: usize = 0;
    while i < n
        invariant
            i <= n,
            n as nat == match_count(page.source(), list@),
            fields@.len() == i,
            forall|j: int| 0 <= j < i ==> #[trigger] fields@[j]@ == anchor_fields(page.source(), list@, j),
        decreases n - i,
    {
        fields.push(element_fields(page, list, i));
        i = i + 1;
    }
    assert(fields_views(fields@) =~= section_fields(page.source(), list@));
    extract_listing(&fields)
}

/// The entries of the page's "new" section, in page order; `None` when any
/// entry misses a required part.
pub fn parse_new(src: &Page) -> (r: Option<Vec<CrateMeta>>)
    ensures
        listing_outcome(section_fields(src.source(), new_list_pattern()), r),
{
    parse_section(src, ".new > .crates-list > li > a")
}

/// The entries of the page's "trending" section, in page order; `None` when
/// any entry misses a required part.
pub fn parse_trending(src: &Page) -> (r: Option<Vec<CrateMeta>>)
    ensures
        listing_outcome(section_fields(src.source(), trending_list_pattern()), r),
{
    parse_section(src, ".trending > .crates-list > li > a")
}

/// The outer markup of the detail page's README container, if it has one.
pub fn extract_content(src: &Page) -> (r: Option<String>)
    ensures
        opt_view(r) == readme_of(src.source()),
{
    first_outer_html(src, "#readme")
}

} // verus!
