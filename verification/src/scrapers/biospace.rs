use vstd::prelude::*;

use crate::text::text_or;

use crate::models::{listings_view, JobListing};
use crate::scrapers::cards::{attr_query, listings_in_html, parse_cards, text_query, CardSite, CardSiteView, FieldQueryView, LinkRule, LinkRuleView};
use crate::scrapers::{build_query_url, pick_location, query_url};
use crate::text::opt_str;

verus! {

/// Scraper for BioSpace.com — one of the largest pharma/biotech job boards.
#[derive(Clone, Copy, Debug)]
pub struct BiospaceScraper;

/// The search page for a keyword; where no location is given, Switzerland.
pub open spec fn biospace_url(keyword: Seq<char>, location: Option<Seq<char>>) -> Seq<char> {
    query_url("https://jobs.biospace.com/jobs/?q="@, keyword, "&location="@, text_or(location, "Switzerland"@), ""@)
}

/// The layout of the board's result cards.
pub open spec fn biospace_site() -> CardSiteView {
    CardSiteView {
        card: "li.lister__item"@,
        title: FieldQueryView { selector: "h3.lister__header a span"@, attr: None },
        link: FieldQueryView { selector: "h3.lister__header a.js-clickable-area-link"@, attr: Some("href"@) },
        company: FieldQueryView { selector: "li.lister__meta-item--recruiter"@, attr: None },
        location: FieldQueryView { selector: "li.lister__meta-item--location"@, attr: None },
        date: Some(FieldQueryView { selector: "li.job-actions__action.pipe"@, attr: None }),
        trim_date: true,
        link_rule: LinkRuleView::Prefixed { base: "https://jobs.biospace.com"@, trim: true, skip_empty: false },
        id_source: "biospace"@,
        source: "BioSpace"@,
        company_default: "Unknown"@,
        location_default: ""@,
    }
}

impl BiospaceScraper {
    /// The search page for a keyword; where no location is given, Switzerland.
    pub fn search_url(&self, keyword: &str, location: Option<&str>) -> (r: String)
        ensures
            r@ == biospace_url(keyword@, opt_str(location)),
    {
        let loc = pick_location(location, "Switzerland");
        build_query_url("https://jobs.biospace.com/jobs/?q=", keyword, "&location=", loc.as_str(), "")
    }

    /// The layout of the board's result cards.
    pub fn card_site(&self) -> (r: CardSite)
        ensures
            r@ == biospace_site(),
    {
        CardSite {
            card: String::from_str("li.lister__item"),
            title: text_query("h3.lister__header a span"),
            link: attr_query("h3.lister__header a.js-clickable-area-link", "href"),
            company: text_query("li.lister__meta-item--recruiter"),
            location: text_query("li.lister__meta-item--location"),
            date: Some(text_query("li.job-actions__action.pipe")),
            trim_date: true,
            link_rule: LinkRule::Prefixed { base: String::from_str("https://jobs.biospace.com"), trim: true, skip_empty: false },
            id_source: String::from_str("biospace"),
            source: String::from_str("BioSpace"),
            company_default: String::from_str("Unknown"),
            location_default: String::from_str(""),
        }
    }
}

/// The listings on one result page of the board.
pub fn parse_biospace(html: &str) -> (r: Vec<JobListing>)
    ensures
        listings_view(r@) == listings_in_html(biospace_site(), html@),
{
    let site = BiospaceScraper.card_site();
    parse_cards(html, &site)
}

} // verus!
