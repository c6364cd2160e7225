use vstd::prelude::*;

use crate::text::text_or;

use crate::models::{listings_view, JobListing};
use crate::scrapers::cards::{attr_query, listings_in_html, parse_cards, text_query, CardSite, CardSiteView, FieldQueryView, LinkRule, LinkRuleView};
use crate::scrapers::{build_query_url, pick_location, query_url};
use crate::text::opt_str;

verus! {

/// Scraper for Pharmiweb.com — a pharma-specific job board with plain HTML listings.
#[derive(Clone, Copy, Debug)]
pub struct PharmiwebScraper;

/// The search page for a keyword; where no location is given, Switzerland.
pub open spec fn pharmiweb_url(keyword: Seq<char>, location: Option<Seq<char>>) -> Seq<char> {
    query_url("https://www.pharmiweb.jobs/jobs/?keywords="@, keyword, "&location="@, text_or(location, "Switzerland"@), ""@)
}

/// The layout of the board's result cards.
pub open spec fn pharmiweb_site() -> CardSiteView {
    CardSiteView {
        card: "div.job-search-result, article.job-listing, li.job-item"@,
        title: FieldQueryView { selector: "h2 a, h3 a, .job-title a, a.job-title"@, attr: None },
        link: FieldQueryView { selector: "h2 a, h3 a, .job-title a, a.job-title"@, attr: Some("href"@) },
        company: FieldQueryView { selector: ".company-name, .employer, span.company"@, attr: None },
        location: FieldQueryView { selector: ".location, span.location, .job-location"@, attr: None },
        date: Some(FieldQueryView { selector: ".date, .posted-date, time"@, attr: None }),
        trim_date: true,
        link_rule: LinkRuleView::Prefixed { base: "https://www.pharmiweb.jobs"@, trim: false, skip_empty: false },
        id_source: "pharmiweb"@,
        source: "Pharmiweb"@,
        company_default: "Unknown"@,
        location_default: ""@,
    }
}

impl PharmiwebScraper {
    /// The search page for a keyword; where no location is given, Switzerland.
    pub fn search_url(&self, keyword: &str, location: Option<&str>) -> (r: String)
        ensures
            r@ == pharmiweb_url(keyword@, opt_str(location)),
    {
        let loc = pick_location(location, "Switzerland");
        build_query_url("https://www.pharmiweb.jobs/jobs/?keywords=", keyword, "&location=", loc.as_str(), "")
    }

    /// The layout of the board's result cards.
    pub fn card_site(&self) -> (r: CardSite)
        ensures
            r@ == pharmiweb_site(),
    {
        CardSite {
            card: String::from_str("div.job-search-result, article.job-listing, li.job-item"),
            title: text_query("h2 a, h3 a, .job-title a, a.job-title"),
            link: attr_query("h2 a, h3 a, .job-title a, a.job-title", "href"),
            company: text_query(".company-name, .employer, span.company"),
            location: text_query(".location, span.location, .job-location"),
            date: Some(text_query(".date, .posted-date, time")),
            trim_date: true,
            link_rule: LinkRule::Prefixed { base: String::from_str("https://www.pharmiweb.jobs"), trim: false, skip_empty: false },
            id_source: String::from_str("pharmiweb"),
            source: String::from_str("Pharmiweb"),
            company_default: String::from_str("Unknown"),
            location_default: String::from_str(""),
        }
    }
}

/// The listings on one result page of the board.
pub fn parse_pharmiweb(html: &str) -> (r: Vec<JobListing>)
    ensures
        listings_view(r@) == listings_in_html(pharmiweb_site(), html@),
{
    let site = PharmiwebScraper.card_site();
    parse_cards(html, &site)
}

} // verus!
