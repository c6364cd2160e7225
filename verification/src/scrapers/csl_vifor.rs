use vstd::prelude::*;

use crate::models::{listings_view, JobListing};
use crate::scrapers::cards::{
    attr_query, listings_in_html, parse_cards, text_query, CardSite, CardSiteView, FieldQueryView, LinkRule,
    LinkRuleView,
};
use crate::scrapers::{url_encode, url_encoded};
use crate::text::push_str;
use crate::text::opt_str;

verus! {

/// Scraper for the CSL Vifor jobs portal (jobs.csl.com), plain HTML from Rails' filterrific.
#[derive(Clone, Copy, Debug)]
pub struct CslViforScraper;

/// The search page for a keyword; the board is searched in Switzerland whatever the location.
pub open spec fn csl_vifor_url(keyword: Seq<char>, location: Option<Seq<char>>) -> Seq<char> {
    "https://jobs.csl.com/en/jobs?filterrific%5Bsearch_by_title_and_description%5D="@ + url_encoded(keyword) + "&filterrific%5Bwith_location3%5D=switzerland"@
}

/// The layout of the board's result cards.
pub open spec fn csl_vifor_site() -> CardSiteView {
    CardSiteView {
        card: ".job-listing, .job-item, .vacancy, .position, article.job, div.job"@,
        title: FieldQueryView { selector: "h2 a, h3 a, .job-title a, .title a"@, attr: None },
        link: FieldQueryView { selector: "h2 a, h3 a, .job-title a, .title a"@, attr: Some("href"@) },
        company: FieldQueryView { selector: ".company, .employer, .recruiter"@, attr: None },
        location: FieldQueryView { selector: ".location, .job-location, .city"@, attr: None },
        date: Some(FieldQueryView { selector: ".date, .posted, time"@, attr: None }),
        trim_date: true,
        link_rule: LinkRuleView::Prefixed { base: "https://jobs.csl.com"@, trim: true, skip_empty: true },
        id_source: "csl_vifor"@,
        source: "CSL Vifor"@,
        company_default: "CSL Vifor"@,
        location_default: "Switzerland"@,
    }
}

impl CslViforScraper {
    /// The search page for a keyword; the board is searched in Switzerland whatever the location.
    pub fn search_url(&self, keyword: &str, location: Option<&str>) -> (r: String)
        ensures
            r@ == csl_vifor_url(keyword@, opt_str(location)),
    {
        let k = url_encode(keyword);
        let mut u = String::from_str("https://jobs.csl.com/en/jobs?filterrific%5Bsearch_by_title_and_description%5D=");
        push_str(&mut u, k.as_str());
        push_str(&mut u, "&filterrific%5Bwith_location3%5D=switzerland");
        u
    }

    /// The layout of the board's result cards.
    pub fn card_site(&self) -> (r: CardSite)
        ensures
            r@ == csl_vifor_site(),
    {
        CardSite {
            card: String::from_str(".job-listing, .job-item, .vacancy, .position, article.job, div.job"),
            title: text_query("h2 a, h3 a, .job-title a, .title a"),
            link: attr_query("h2 a, h3 a, .job-title a, .title a", "href"),
            company: text_query(".company, .employer, .recruiter"),
            location: text_query(".location, .job-location, .city"),
            date: Some(text_query(".date, .posted, time")),
            trim_date: true,
            link_rule: LinkRule::Prefixed { base: String::from_str("https://jobs.csl.com"), trim: true, skip_empty: true },
            id_source: String::from_str("csl_vifor"),
            source: String::from_str("CSL Vifor"),
            company_default: String::from_str("CSL Vifor"),
            location_default: String::from_str("Switzerland"),
        }
    }
}

/// The listings on one result page of the board.
pub fn parse_csl(html: &str) -> (r: Vec<JobListing>)
    ensures
        listings_view(r@) == listings_in_html(csl_vifor_site(), html@),
{
    let site = CslViforScraper.card_site();
    parse_cards(html, &site)
}

} // verus!
