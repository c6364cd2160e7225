use vstd::prelude::*;

use crate::text::text_or;

use crate::models::{listings_view, opt_seq, opt_text, utc_now, JobListing, ListingView};
use crate::scrapers::html::{card_attrs, card_attrs_in, card_texts, card_texts_in, opt_texts};
use crate::scrapers::{job_id, make_id};
use crate::text::{push_str, starts_with, starts_with_spec, trim, trim_end_spec, trim_spec, trim_start_spec};

verus! {

/// Which part of the first matching element inside a card is read.
pub struct FieldQuery {
    /// CSS selector, matched inside the card
    pub selector: String,
    /// The attribute to read; the element's text where `None`
    pub attr: Option<String>,
}

pub struct FieldQueryView {
    pub selector: Seq<char>,
    pub attr: Option<Seq<char>>,
}

impl View for FieldQuery {
    type V = FieldQueryView;

    open spec fn view(&self) -> FieldQueryView {
        FieldQueryView { selector: self.selector@, attr: opt_text(self.attr) }
    }
}

/// How the link read from a card becomes the listing's URL.
pub enum LinkRule {
    /// A link that starts with "http" is kept as it is, any other gets `base`
    /// in front. With `trim` the link is trimmed first; with `skip_empty` a
    /// card whose link is empty is skipped. A missing link counts as empty.
    Prefixed { base: String, trim: bool, skip_empty: bool },
    /// The link up to its first '?'; a card where that is empty is skipped.
    BeforeQuery,
}

pub enum LinkRuleView {
    Prefixed { base: Seq<char>, trim: bool, skip_empty: bool },
    BeforeQuery,
}

impl View for LinkRule {
    type V = LinkRuleView;

    open spec fn view(&self) -> LinkRuleView {
        match self {
            LinkRule::Prefixed { base, trim, skip_empty } => LinkRuleView::Prefixed {
                base: base@,
                trim: *trim,
                skip_empty: *skip_empty,
            },
            LinkRule::BeforeQuery => LinkRuleView::BeforeQuery,
        }
    }
}

/// How a job board lays out its result cards and how they become listings.
pub struct CardSite {
    /// Selector of one result card
    pub card: String,
    /// The job title (trimmed); a card with an empty title is skipped
    pub title: FieldQuery,
    /// The link to the posting
    pub link: FieldQuery,
    /// The employer (trimmed), `company_default` where absent
    pub company: FieldQuery,
    /// The place (trimmed), `location_default` where absent
    pub location: FieldQuery,
    /// The posting date, where the board shows one
    pub date: Option<FieldQuery>,
    /// Whether the date is trimmed
    pub trim_date: bool,
    pub link_rule: LinkRule,
    /// The source name that goes into the id
    pub id_source: String,
    /// The source name shown with the listing
    pub source: String,
    pub company_default: String,
    pub location_default: String,
}

pub struct CardSiteView {
    pub card: Seq<char>,
    pub title: FieldQueryView,
    pub link: FieldQueryView,
    pub company: FieldQueryView,
    pub location: FieldQueryView,
    pub date: Option<FieldQueryView>,
    pub trim_date: bool,
    pub link_rule: LinkRuleView,
    pub id_source: Seq<char>,
    pub source: Seq<char>,
    pub company_default: Seq<char>,
    pub location_default: Seq<char>,
}

impl View for CardSite {
    type V = CardSiteView;

    open spec fn view(&self) -> CardSiteView {
        CardSiteView {
            card: self.card@,
            title: self.title@,
            link: self.link@,
            company: self.company@,
            location: self.location@,
            date: match self.date {
                Some(q) => Some(q@),
                None => None,
            },
            trim_date: self.trim_date,
            link_rule: self.link_rule@,
            id_source: self.id_source@,
            source: self.source@,
            company_default: self.company_default@,
            location_default: self.location_default@,
        }
    }
}

/// What was read from each card, one entry per card in each column.
pub struct CardColumns {
    pub titles: Vec<Option<String>>,
    pub links: Vec<Option<String>>,
    pub companies: Vec<Option<String>>,
    pub locations: Vec<Option<String>>,
    pub dates: Vec<Option<String>>,
}

pub struct ColumnsView {
    pub titles: Seq<Option<Seq<char>>>,
    pub links: Seq<Option<Seq<char>>>,
    pub companies: Seq<Option<Seq<char>>>,
    pub locations: Seq<Option<Seq<char>>>,
    pub dates: Seq<Option<Seq<char>>>,
}

impl View for CardColumns {
    type V = ColumnsView;

    open spec fn view(&self) -> ColumnsView {
        ColumnsView {
            titles: opt_texts(self.titles@),
            links: opt_texts(self.links@),
            companies: opt_texts(self.companies@),
            locations: opt_texts(self.locations@),
            dates: opt_texts(self.dates@),
        }
    }
}

/// Entry `i` of a column; `None` past its end.
pub open spec fn col(v: Seq<Option<Seq<char>>>, i: int) -> Option<Seq<char>> {
    if 0 <= i < v.len() {
        v[i]
    } else {
        None
    }
}

/// `s` up to its first '?' (all of it where it has none).
pub open spec fn before_query(s: Seq<char>) -> Seq<char>
    decreases s.len(),
{
    if s.len() == 0 {
        s
    } else if s[0] == '?' {
        Seq::empty()
    } else {
        seq![s[0]] + before_query(s.subrange(1, s.len() as int))
    }
}

/// The URL a card's link gives, or `None` where the card is skipped.
pub open spec fn link_url(rule: LinkRuleView, link: Option<Seq<char>>) -> Option<Seq<char>> {
    match rule {
        LinkRuleView::Prefixed { base, trim, skip_empty } => {
            let h = if trim {
                trim_spec(text_or(link, Seq::empty()))
            } else {
                text_or(link, Seq::empty())
            };
            if starts_with_spec(h, "http"@) {
                Some(h)
            } else if skip_empty && h.len() == 0 {
                None
            } else {
                Some(base + h)
            }
        },
        LinkRuleView::BeforeQuery => {
            let u = before_query(text_or(link, Seq::empty()));
            if u.len() == 0 {
                None
            } else {
                Some(u)
            }
        },
    }
}

/// The listing that card `i` gives, or `None` where it is skipped.
pub open spec fn card_listing(site: CardSiteView, cols: ColumnsView, i: int) -> Option<ListingView> {
    let title = trim_spec(text_or(col(cols.titles, i), Seq::empty()));
    if title.len() == 0 {
        None
    } else {
        match link_url(site.link_rule, col(cols.links, i)) {
            None => None,
            Some(url) => Some(
                ListingView {
                    id: job_id(site.id_source, url),
                    title: title,
                    company: match col(cols.companies, i) {
                        Some(c) => trim_spec(c),
                        None => site.company_default,
                    },
                    location: match col(cols.locations, i) {
                        Some(l) => trim_spec(l),
                        None => site.location_default,
                    },
                    url: url,
                    source: site.source,
                    posted_at: match col(cols.dates, i) {
                        Some(d) => Some(
                            if site.trim_date {
                                trim_spec(d)
                            } else {
                                d
                            },
                        ),
                        None => None,
                    },
                    description_snippet: None,
                },
            ),
        }
    }
}

/// What a card gives, field by field: nothing where its title, trimmed, is
/// empty or the link rule skips it; else a listing with the trimmed title,
/// the URL the link rule makes, the company and location read from the card
/// and trimmed (the site's defaults where the card has none), its date
/// (trimmed where the site says so), the site's source, and as id that of
/// the site's id source and the URL.
pub proof fn law_card_listing_fields(site: CardSiteView, cols: ColumnsView, i: int)
    ensures
        (card_listing(site, cols, i) is Some) <==> (col(cols.titles, i) matches Some(t) && trim_spec(t).len() > 0
            && link_url(site.link_rule, col(cols.links, i)) is Some),
        card_listing(site, cols, i) matches Some(v) ==> {
            &&& (col(cols.titles, i) matches Some(t) && v.title == trim_spec(t))
            &&& link_url(site.link_rule, col(cols.links, i)) == Some(v.url)
            &&& (col(cols.companies, i) matches Some(c) ==> v.company == trim_spec(c))
            &&& (col(cols.companies, i) is None ==> v.company == site.company_default)
            &&& (col(cols.locations, i) matches Some(l) ==> v.location == trim_spec(l))
            &&& (col(cols.locations, i) is None ==> v.location == site.location_default)
            &&& (col(cols.dates, i) matches Some(d) ==> v.posted_at == Some(if site.trim_date { trim_spec(d) } else { d }))
            &&& (col(cols.dates, i) is None ==> v.posted_at is None)
            &&& v.source == site.source
            &&& v.id == job_id(site.id_source, v.url)
            &&& v.description_snippet is None
        },
{
    reveal_with_fuel(trim_start_spec, 1);
    reveal_with_fuel(trim_end_spec, 1);
}

/// The listings that the first `n` cards give, in card order.
pub open spec fn card_listings(site: CardSiteView, cols: ColumnsView, n: int) -> Seq<ListingView>
    decreases n,
{
    if n <= 0 {
        Seq::empty()
    } else {
        card_listings(site, cols, n - 1) + opt_seq(card_listing(site, cols, n - 1))
    }
}

/// What `scraper` reads for one query from each card of `html`.
pub open spec fn field_in(html: Seq<char>, card: Seq<char>, q: FieldQueryView) -> Option<Seq<Option<Seq<char>>>> {
    match q.attr {
        None => card_texts_in(html, card, q.selector),
        Some(a) => card_attrs_in(html, card, q.selector, a),
    }
}

/// The columns read from `html` for a site; `None` where a selector does not parse.
pub open spec fn columns_in(html: Seq<char>, site: CardSiteView) -> Option<ColumnsView> {
    let dates = match site.date {
        Some(q) => field_in(html, site.card, q),
        None => Some(Seq::empty()),
    };
    match (
        field_in(html, site.card, site.title),
        field_in(html, site.card, site.link),
        field_in(html, site.card, site.company),
        field_in(html, site.card, site.location),
        dates,
    ) {
        (Some(t), Some(l), Some(c), Some(p), Some(d)) => Some(
            ColumnsView { titles: t, links: l, companies: c, locations: p, dates: d },
        ),
        _ => None,
    }
}

/// The listings a result page gives: one per card that has a title and a
/// usable link, in document order; none where a selector does not parse.
pub open spec fn listings_in_html(site: CardSiteView, html: Seq<char>) -> Seq<ListingView> {
    match columns_in(html, site) {
        Some(cols) => card_listings(site, cols, cols.titles.len() as int),
        None => Seq::empty(),
    }
}

/// `s` up to its first '?'.
pub fn text_before_query(s: &str) -> (r: String)
    ensures
        r@ == before_query(s@),
{
    let v = crate::text::chars_of(s);
    let mut i: usize = 0;
    assert(v@.subrange(0, v.len() as int) == v@);
    assert(v@.subrange(0, 0) + v@ == v@);
    while i < v.len() && v[i] != '?'
        invariant
            i <= v.len(),
            forall|k: int| 0 <= k < i ==> v@[k] != '?',
            before_query(v@) == v@.subrange(0, i as int) + before_query(v@.subrange(i as int, v.len() as int)),
        decreases v.len() - i,
    {
        proof {
            let rest = v@.subrange(i as int, v.len() as int);
            assert(rest.subrange(1, rest.len() as int) == v@.subrange(i + 1, v.len() as int));
            assert(v@.subrange(0, i + 1) == v@.subrange(0, i as int) + seq![v@[i as int]]);
        }
        i = i + 1;
    }
    proof {
        let rest = v@.subrange(i as int, v.len() as int);
        assert(before_query(rest) == Seq::<char>::empty());
        assert(v@.subrange(0, i as int) + Seq::<char>::empty() == v@.subrange(0, i as int));
    }
    crate::text::string_from_chars(&v, 0, i)
}

/// The URL a card's link gives under `rule`, or `None` where the card is skipped.
pub fn apply_link_rule(rule: &LinkRule, link: &Option<String>) -> (r: Option<String>)
    ensures
        opt_text(r) == link_url(rule@, opt_text(*link)),
{
    let raw = match link {
        Some(h) => h.clone(),
        None => String::new(),
    };
    assert(raw@ == text_or(opt_text(*link), Seq::empty()));
    match rule {
        LinkRule::Prefixed { base, trim: do_trim, skip_empty } => {
            let h = if *do_trim {
                trim(raw.as_str())
            } else {
                raw
            };
            if starts_with(h.as_str(), "http") {
                Some(h)
            } else if *skip_empty && h.as_str().is_empty() {
                None
            } else {
                let mut u = base.clone();
                push_str(&mut u, h.as_str());
                Some(u)
            }
        },
        LinkRule::BeforeQuery => {
            let u = text_before_query(raw.as_str());
            if u.as_str().is_empty() {
                None
            } else {
                Some(u)
            }
        },
    }
}

/// Entry `i` of a column, cloned; `None` past its end.
fn col_at(v: &Vec<Option<String>>, i: usize) -> (r: Option<String>)
    ensures
        opt_text(r) == col(opt_texts(v@), i as int),
{
    if i < v.len() {
        v[i].clone()
    } else {
        None
    }
}

/// The listing card `i` gives, or `None` where it is skipped.
fn listing_from_card(site: &CardSite, cols: &CardColumns, i: usize) -> (r: Option<JobListing>)
    ensures
        match r {
            Some(j) => card_listing(site@, cols@, i as int) == Some(j@),
            None => card_listing(site@, cols@, i as int) is None,
        },
{
    let title = match col_at(&cols.titles, i) {
        Some(t) => trim(t.as_str()),
        None => String::new(),
    };
    if title.as_str().is_empty() {
        return None;
    }
    let url = match apply_link_rule(&site.link_rule, &col_at(&cols.links, i)) {
        Some(u) => u,
        None => {
            return None;
        },
    };
    let company = match col_at(&cols.companies, i) {
        Some(c) => trim(c.as_str()),
        None => site.company_default.clone(),
    };
    let location = match col_at(&cols.locations, i) {
        Some(l) => trim(l.as_str()),
        None => site.location_default.clone(),
    };
    let posted_at = match col_at(&cols.dates, i) {
        Some(d) => Some(
            if site.trim_date {
                trim(d.as_str())
            } else {
                d
            },
        ),
        None => None,
    };
    Some(
        JobListing {
            id: make_id(site.id_source.as_str(), url.as_str()),
            title,
            company,
            location,
            url,
            source: site.source.clone(),
            posted_at,
            scraped_at: utc_now(),
            description_snippet: None,
        },
    )
}

/// The listings that the cards of a result page give, in card order: the
/// logic that follows what `scraper` read from the page.
pub fn listings_from_cards(site: &CardSite, cols: &CardColumns) -> (r: Vec<JobListing>)
    ensures
        listings_view(r@) == card_listings(site@, cols@, cols.titles@.len() as int),
{
    let mut out: Vec<JobListing> = Vec::new();
    let n = cols.titles.len();
    let mut i: usize = 0;
    while i < n
        invariant
            i <= n == cols.titles@.len(),
            listings_view(out@) == card_listings(site@, cols@, i as int),
        decreases n - i,
    {
        let ghost before = out@;
        match listing_from_card(site, cols, i) {
            Some(j) => {
                out.push(j);
                proof {
                    assert(listings_view(out@) == listings_view(before) + seq![j@]);
                }
            },
            None => {},
        }
        i = i + 1;
    }
    proof {
        assert(opt_texts(cols.titles@).len() == n);
    }
    out
}

/// Reads one query from every card of `html`.
fn read_field(html: &str, card: &String, q: &FieldQuery) -> (r: Option<Vec<Option<String>>>)
    ensures
        match r {
            Some(v) => field_in(html@, card@, q@) == Some(opt_texts(v@)),
            None => field_in(html@, card@, q@) is None,
        },
{
    match &q.attr {
        None => card_texts(html, card.as_str(), q.selector.as_str()),
        Some(a) => card_attrs(html, card.as_str(), q.selector.as_str(), a.as_str()),
    }
}

/// Reads the columns of a site from `html`; `None` where a selector does not parse.
pub fn read_columns(html: &str, site: &CardSite) -> (r: Option<CardColumns>)
    ensures
        match r {
            Some(c) => columns_in(html@, site@) == Some(c@),
            None => columns_in(html@, site@) is None,
        },
{
    let titles = read_field(html, &site.card, &site.title)?;
    let links = read_field(html, &site.card, &site.link)?;
    let companies = read_field(html, &site.card, &site.company)?;
    let locations = read_field(html, &site.card, &site.location)?;
    let dates = match &site.date {
        Some(q) => read_field(html, &site.card, q)?,
        None => Vec::new(),
    };
    proof {
        assert(opt_texts(Seq::<Option<String>>::empty()) == Seq::<Option<Seq<char>>>::empty());
    }
    Some(CardColumns { titles, links, companies, locations, dates })
}

/// The listings a result page gives under a site's layout.
pub fn parse_cards(html: &str, site: &CardSite) -> (r: Vec<JobListing>)
    ensures
        listings_view(r@) == listings_in_html(site@, html@),
{
    match read_columns(html, site) {
        Some(cols) => listings_from_cards(site, &cols),
        None => {
            proof {
                assert(listings_view(Seq::<JobListing>::empty()) == Seq::<ListingView>::empty());
            }
            Vec::new()
        },
    }
}

/// A query that reads the text of the first matching element.
pub fn text_query(selector: &str) -> (r: FieldQuery)
    ensures
        r@ == (FieldQueryView { selector: selector@, attr: None }),
{
    FieldQuery { selector: String::from_str(selector), attr: None }
}

/// A query that reads attribute `attr` of the first matching element.
pub fn attr_query(selector: &str, attr: &str) -> (r: FieldQuery)
    ensures
        r@ == (FieldQueryView { selector: selector@, attr: Some(attr@) }),
{
    FieldQuery { selector: String::from_str(selector), attr: Some(String::from_str(attr)) }
}

} // verus!
