use vstd::prelude::*;

use crate::text::text_or;

use crate::models::{listings_view, JobListing};
use crate::scrapers::cards::{attr_query, listings_in_html, parse_cards, text_query, CardSite, CardSiteView, FieldQueryView, LinkRule, LinkRuleView};
use crate::scrapers::{build_query_url, pick_location, query_url};
use crate::text::opt_str;

verus! {

/// Scraper for jobs.ch — the dominant Swiss job board. Its search URL returns server-rendered HTML.
#[derive(Clone, Copy, Debug)]
pub struct JobsChScraper;

/// The search page for a keyword; where no location is given, Basel.
pub open spec fn jobs_ch_url(keyword: Seq<char>, location: Option<Seq<char>>) -> Seq<char> {
    query_url("https://www.jobs.ch/en/vacancies/?term="@, keyword, "&location="@, text_or(location, "Basel"@), ""@)
}

/// The layout of the board's result cards.
pub open spec fn jobs_ch_site() -> CardSiteView {
    CardSiteView {
        card: "[data-cy=\"serp-item\"]"@,
        title: FieldQueryView { selector: "[data-cy=\"job-link\"]"@, attr: Some("title"@) },
        link: FieldQueryView { selector: "[data-cy=\"job-link\"]"@, attr: Some("href"@) },
        company: FieldQueryView { selector: "p.fw_bold"@, attr: None },
        location: FieldQueryView { selector: "p.mb_s12"@, attr: None },
        date: Some(FieldQueryView { selector: "p.white-space_nowrap"@, attr: None }),
        trim_date: true,
        link_rule: LinkRuleView::Prefixed { base: "https://www.jobs.ch"@, trim: false, skip_empty: false },
        id_source: "jobs_ch"@,
        source: "jobs.ch"@,
        company_default: "Unknown"@,
        location_default: ""@,
    }
}

impl JobsChScraper {
    /// The search page for a keyword; where no location is given, Basel.
    pub fn search_url(&self, keyword: &str, location: Option<&str>) -> (r: String)
        ensures
            r@ == jobs_ch_url(keyword@, opt_str(location)),
    {
        let loc = pick_location(location, "Basel");
        build_query_url("https://www.jobs.ch/en/vacancies/?term=", keyword, "&location=", loc.as_str(), "")
    }

    /// The layout of the board's result cards.
    pub fn card_site(&self) -> (r: CardSite)
        ensures
            r@ == jobs_ch_site(),
    {
        CardSite {
            card: String::from_str("[data-cy=\"serp-item\"]"),
            title: attr_query("[data-cy=\"job-link\"]", "title"),
            link: attr_query("[data-cy=\"job-link\"]", "href"),
            company: text_query("p.fw_bold"),
            location: text_query("p.mb_s12"),
            date: Some(text_query("p.white-space_nowrap")),
            trim_date: true,
            link_rule: LinkRule::Prefixed { base: String::from_str("https://www.jobs.ch"), trim: false, skip_empty: false },
            id_source: String::from_str("jobs_ch"),
            source: String::from_str("jobs.ch"),
            company_default: String::from_str("Unknown"),
            location_default: String::from_str(""),
        }
    }
}

/// The listings on one result page of the board.
pub fn parse_jobs_ch(html: &str) -> (r: Vec<JobListing>)
    ensures
        listings_view(r@) == listings_in_html(jobs_ch_site(), html@),
{
    let site = JobsChScraper.card_site();
    parse_cards(html, &site)
}

} // verus!
