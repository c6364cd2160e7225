use vstd::prelude::*;

use crate::text::text_or;

use crate::models::{listings_view, JobListing};
use crate::scrapers::cards::{attr_query, listings_in_html, parse_cards, text_query, CardSite, CardSiteView, FieldQueryView, LinkRule, LinkRuleView};
use crate::scrapers::{build_query_url, pick_location, query_url};
use crate::text::opt_str;

verus! {

/// Scraper for LinkedIn Jobs public search results (the guest search page).
#[derive(Clone, Copy, Debug)]
pub struct LinkedInScraper;

/// The search page for a keyword; where no location is given, Switzerland.
pub open spec fn linkedin_url(keyword: Seq<char>, location: Option<Seq<char>>) -> Seq<char> {
    query_url("https://www.linkedin.com/jobs/search/?keywords="@, keyword, "&location="@, text_or(location, "Switzerland"@), "&f_TPR=r86400&sortBy=DD"@)
}

/// The layout of the board's result cards.
pub open spec fn linkedin_site() -> CardSiteView {
    CardSiteView {
        card: "li.jobs-search__results-list > div, div.base-card, li.result-card"@,
        title: FieldQueryView { selector: "h3.base-search-card__title, h3.result-card__title, span.screen-reader-text"@, attr: None },
        link: FieldQueryView { selector: "a.base-card__full-link, a.result-card__full-card-link"@, attr: Some("href"@) },
        company: FieldQueryView { selector: "h4.base-search-card__subtitle, a.result-card__subtitle-link"@, attr: None },
        location: FieldQueryView { selector: "span.job-search-card__location, span.result-card__location"@, attr: None },
        date: Some(FieldQueryView { selector: "time"@, attr: Some("datetime"@) }),
        trim_date: false,
        link_rule: LinkRuleView::BeforeQuery,
        id_source: "linkedin"@,
        source: "LinkedIn"@,
        company_default: "Unknown"@,
        location_default: ""@,
    }
}

impl LinkedInScraper {
    /// The search page for a keyword; where no location is given, Switzerland.
    pub fn search_url(&self, keyword: &str, location: Option<&str>) -> (r: String)
        ensures
            r@ == linkedin_url(keyword@, opt_str(location)),
    {
        let loc = pick_location(location, "Switzerland");
        build_query_url("https://www.linkedin.com/jobs/search/?keywords=", keyword, "&location=", loc.as_str(), "&f_TPR=r86400&sortBy=DD")
    }

    /// The layout of the board's result cards.
    pub fn card_site(&self) -> (r: CardSite)
        ensures
            r@ == linkedin_site(),
    {
        CardSite {
            card: String::from_str("li.jobs-search__results-list > div, div.base-card, li.result-card"),
            title: text_query("h3.base-search-card__title, h3.result-card__title, span.screen-reader-text"),
            link: attr_query("a.base-card__full-link, a.result-card__full-card-link", "href"),
            company: text_query("h4.base-search-card__subtitle, a.result-card__subtitle-link"),
            location: text_query("span.job-search-card__location, span.result-card__location"),
            date: Some(attr_query("time", "datetime")),
            trim_date: false,
            link_rule: LinkRule::BeforeQuery,
            id_source: String::from_str("linkedin"),
            source: String::from_str("LinkedIn"),
            company_default: String::from_str("Unknown"),
            location_default: String::from_str(""),
        }
    }
}

/// The listings on one result page of the board.
pub fn parse_linkedin(html: &str) -> (r: Vec<JobListing>)
    ensures
        listings_view(r@) == listings_in_html(linkedin_site(), html@),
{
    let site = LinkedInScraper.card_site();
    parse_cards(html, &site)
}

} // verus!
