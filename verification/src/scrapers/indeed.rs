use vstd::prelude::*;

use crate::text::text_or;

use crate::models::{listings_view, JobListing};
use crate::scrapers::cards::{attr_query, listings_in_html, parse_cards, text_query, CardSite, CardSiteView, FieldQueryView, LinkRule, LinkRuleView};
use crate::scrapers::{build_query_url, pick_location, query_url};
use crate::text::opt_str;

verus! {

/// Scraper for Indeed Switzerland (ch.indeed.com).
#[derive(Clone, Copy, Debug)]
pub struct IndeedScraper;

/// The search page for a keyword; where no location is given, Switzerland.
pub open spec fn indeed_url(keyword: Seq<char>, location: Option<Seq<char>>) -> Seq<char> {
    query_url("https://ch.indeed.com/jobs?q="@, keyword, "&l="@, text_or(location, "Switzerland"@), "&fromage=1&sort=date"@)
}

/// The layout of the board's result cards.
pub open spec fn indeed_site() -> CardSiteView {
    CardSiteView {
        card: "div.job_seen_beacon, div.tapItem, td.resultContent"@,
        title: FieldQueryView { selector: "h2.jobTitle span[title], h2.jobTitle a span, a.jcs-JobTitle"@, attr: None },
        link: FieldQueryView { selector: "h2.jobTitle a, a.jcs-JobTitle"@, attr: Some("href"@) },
        company: FieldQueryView { selector: "span.companyName, [data-testid='company-name']"@, attr: None },
        location: FieldQueryView { selector: "div.companyLocation, [data-testid='text-location']"@, attr: None },
        date: Some(FieldQueryView { selector: "span.date, [data-testid='myJobsStateDate']"@, attr: None }),
        trim_date: true,
        link_rule: LinkRuleView::Prefixed { base: "https://ch.indeed.com"@, trim: false, skip_empty: false },
        id_source: "indeed"@,
        source: "Indeed CH"@,
        company_default: "Unknown"@,
        location_default: ""@,
    }
}

impl IndeedScraper {
    /// The search page for a keyword; where no location is given, Switzerland.
    pub fn search_url(&self, keyword: &str, location: Option<&str>) -> (r: String)
        ensures
            r@ == indeed_url(keyword@, opt_str(location)),
    {
        let loc = pick_location(location, "Switzerland");
        build_query_url("https://ch.indeed.com/jobs?q=", keyword, "&l=", loc.as_str(), "&fromage=1&sort=date")
    }

    /// The layout of the board's result cards.
    pub fn card_site(&self) -> (r: CardSite)
        ensures
            r@ == indeed_site(),
    {
        CardSite {
            card: String::from_str("div.job_seen_beacon, div.tapItem, td.resultContent"),
            title: text_query("h2.jobTitle span[title], h2.jobTitle a span, a.jcs-JobTitle"),
            link: attr_query("h2.jobTitle a, a.jcs-JobTitle", "href"),
            company: text_query("span.companyName, [data-testid='company-name']"),
            location: text_query("div.companyLocation, [data-testid='text-location']"),
            date: Some(text_query("span.date, [data-testid='myJobsStateDate']")),
            trim_date: true,
            link_rule: LinkRule::Prefixed { base: String::from_str("https://ch.indeed.com"), trim: false, skip_empty: false },
            id_source: String::from_str("indeed"),
            source: String::from_str("Indeed CH"),
            company_default: String::from_str("Unknown"),
            location_default: String::from_str(""),
        }
    }
}

/// The listings on one result page of the board.
pub fn parse_indeed(html: &str) -> (r: Vec<JobListing>)
    ensures
        listings_view(r@) == listings_in_html(indeed_site(), html@),
{
    let site = IndeedScraper.card_site();
    parse_cards(html, &site)
}

} // verus!
