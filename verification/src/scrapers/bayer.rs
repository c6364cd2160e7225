use vstd::prelude::*;

use crate::text::text_or;

use crate::models::{
    keep_some, lemma_keep_some_push, listings_view, opt_text, utc_now, JobListing, ListingView,
};
use crate::scrapers::cards::{
    attr_query, listings_in_html, parse_cards, text_query, CardSite, CardSiteView, FieldQueryView, LinkRule,
    LinkRuleView,
};
use crate::scrapers::{build_query_url, job_id, make_id, pick_location, query_url};
use crate::text::{opt_str, push_str, trim, trim_spec};

verus! {

/// Scraper for Bayer's career portal (career.bayer.com), a SAP
/// SuccessFactors site: a JSON search endpoint first, the HTML search page
/// where that fails.
#[derive(Clone, Copy, Debug)]
pub struct BayerScraper;

/// A search reply of the SuccessFactors endpoint. The postings may come
/// under any of three keys.
pub struct SfResponse {
    pub job_postings: Vec<SfJob>,
    pub results: Vec<SfJob>,
    pub data: Vec<SfJob>,
}

/// One posting of a SuccessFactors reply.
pub struct SfJob {
    pub title: Option<String>,
    pub job_id: Option<String>,
    pub company_name: Option<String>,
    pub location: Option<String>,
    pub posting_date: Option<String>,
    /// Direct apply URL (not always present; built from the id otherwise)
    pub apply_url: Option<String>,
}

pub struct SfJobView {
    pub title: Option<Seq<char>>,
    pub job_id: Option<Seq<char>>,
    pub company_name: Option<Seq<char>>,
    pub location: Option<Seq<char>>,
    pub posting_date: Option<Seq<char>>,
    pub apply_url: Option<Seq<char>>,
}

impl View for SfJob {
    type V = SfJobView;

    open spec fn view(&self) -> SfJobView {
        SfJobView {
            title: opt_text(self.title),
            job_id: opt_text(self.job_id),
            company_name: opt_text(self.company_name),
            location: opt_text(self.location),
            posting_date: opt_text(self.posting_date),
            apply_url: opt_text(self.apply_url),
        }
    }
}

/// The views of a list of postings.
pub open spec fn sf_jobs_view(v: Seq<SfJob>) -> Seq<SfJobView> {
    v.map_values(|j: SfJob| j@)
}

/// The postings of a reply: the first of its three lists that is not empty,
/// the last where all are.
pub open spec fn sf_jobs(job_postings: Seq<SfJob>, results: Seq<SfJob>, data: Seq<SfJob>) -> Seq<SfJob> {
    if job_postings.len() != 0 {
        job_postings
    } else if results.len() != 0 {
        results
    } else {
        data
    }
}

impl SfResponse {
    /// The postings of the reply, from whichever key holds them.
    pub fn jobs(self) -> (r: Vec<SfJob>)
        ensures
            r@ == sf_jobs(self.job_postings@, self.results@, self.data@),
    {
        if !self.job_postings.is_empty() {
            self.job_postings
        } else if !self.results.is_empty() {
            self.results
        } else {
            self.data
        }
    }
}

/// The URL of a posting: its apply URL, else the job page for its id, else
/// the job list.
pub open spec fn sf_job_url(j: SfJobView) -> Seq<char> {
    match j.apply_url {
        Some(u) => u,
        None => match j.job_id {
            Some(id) => "https://career.bayer.com/en/jobs/"@ + id,
            None => "https://career.bayer.com/en/jobs"@,
        },
    }
}

/// The listing a posting gives; none where it has no title or only white space.
pub open spec fn sf_listing(j: SfJobView) -> Option<ListingView> {
    match j.title {
        None => None,
        Some(t) => {
            let title = trim_spec(t);
            if title.len() == 0 {
                None
            } else {
                let url = sf_job_url(j);
                Some(
                    ListingView {
                        id: job_id("bayer"@, url),
                        title: title,
                        company: text_or(j.company_name, "Bayer"@),
                        location: text_or(j.location, Seq::empty()),
                        url: url,
                        source: "Bayer (Careers)"@,
                        posted_at: j.posting_date,
                        description_snippet: None,
                    },
                )
            }
        },
    }
}

/// What a SuccessFactors posting gives, field by field: a listing exactly
/// where it has a title that is not all white space; that listing has the
/// trimmed title, the posting's location (empty where it has none), its
/// company (Bayer where it has none), its posting date, and as URL its apply
/// URL, else the job page for its id, else the job list; its source is
/// "Bayer (Careers)" and its id that of "bayer" and the URL.
pub proof fn law_sf_listing_fields(j: SfJobView)
    ensures
        (sf_listing(j) is Some) <==> (j.title matches Some(t) && trim_spec(t).len() > 0),
        sf_listing(j) matches Some(v) ==> {
            &&& (j.title matches Some(t) && v.title == trim_spec(t))
            &&& (j.location matches Some(l) ==> v.location == l)
            &&& (j.location is None ==> v.location.len() == 0)
            &&& (j.company_name matches Some(c) ==> v.company == c)
            &&& (j.company_name is None ==> v.company == "Bayer"@)
            &&& v.posted_at == j.posting_date
            &&& (j.apply_url matches Some(u) ==> v.url == u)
            &&& (j.apply_url is None ==> (j.job_id matches Some(id) ==> v.url == "https://career.bayer.com/en/jobs/"@ + id))
            &&& (j.apply_url is None && j.job_id is None ==> v.url == "https://career.bayer.com/en/jobs"@)
            &&& v.source == "Bayer (Careers)"@
            &&& v.id == job_id("bayer"@, v.url)
            &&& v.description_snippet is None
        },
{
}

/// The postings of a reply come from the first of its keys that holds any,
/// in the order jobPostings, results, data; none where none holds any.
pub proof fn law_sf_jobs_first_filled(job_postings: Seq<SfJob>, results: Seq<SfJob>, data: Seq<SfJob>)
    ensures
        job_postings.len() > 0 ==> sf_jobs(job_postings, results, data) == job_postings,
        job_postings.len() == 0 && results.len() > 0 ==> sf_jobs(job_postings, results, data) == results,
        job_postings.len() == 0 && results.len() == 0 ==> sf_jobs(job_postings, results, data) == data,
{
}

/// The listings that a list of postings gives, in order.
pub open spec fn sf_listings(jobs: Seq<SfJobView>) -> Seq<ListingView> {
    keep_some(jobs.map_values(|j: SfJobView| sf_listing(j)))
}

/// The listing a SuccessFactors posting gives; none where it has no title.
pub fn map_sf_job(j: SfJob) -> (r: Option<JobListing>)
    ensures
        opt_listing(r) == sf_listing(j@),
{
    let ghost jv = j@;
    let title = match &j.title {
        Some(t) => trim(t.as_str()),
        None => {
            return None;
        },
    };
    if title.as_str().is_empty() {
        return None;
    }
    let url = match j.apply_url {
        Some(u) => u,
        None => match &j.job_id {
            Some(id) => {
                let mut u = String::from_str("https://career.bayer.com/en/jobs/");
                push_str(&mut u, id.as_str());
                u
            },
            None => String::from_str("https://career.bayer.com/en/jobs"),
        },
    };
    assert(url@ == sf_job_url(jv));
    Some(
        JobListing {
            id: make_id("bayer", url.as_str()),
            title,
            company: match j.company_name {
                Some(c) => c,
                None => String::from_str("Bayer"),
            },
            location: match j.location {
                Some(l) => l,
                None => String::new(),
            },
            url,
            source: String::from_str("Bayer (Careers)"),
            posted_at: j.posting_date,
            scraped_at: utc_now(),
            description_snippet: None,
        },
    )
}

/// The view of an optional listing.
pub open spec fn opt_listing(o: Option<JobListing>) -> Option<ListingView> {
    match o {
        Some(j) => Some(j@),
        None => None,
    }
}

/// The listings that a list of SuccessFactors postings gives, in order.
pub fn map_sf_jobs(jobs: Vec<SfJob>) -> (r: Vec<JobListing>)
    ensures
        listings_view(r@) == sf_listings(sf_jobs_view(jobs@)),
{
    let ghost all = sf_jobs_view(jobs@);
    let ghost opts = all.map_values(|j: SfJobView| sf_listing(j));
    let mut out: Vec<JobListing> = Vec::new();
    for j in it: jobs
        invariant
            all == sf_jobs_view(it.seq()),
            opts == all.map_values(|j: SfJobView| sf_listing(j)),
            listings_view(out@) == keep_some(opts.take(it.index() as int)),
    {
        let ghost k = it.index() as int;
        let ghost jv = j@;
        proof {
            assert(jv == all[k]);
            assert(opts.take(k + 1) == opts.take(k).push(opts[k]));
            lemma_keep_some_push(opts.take(k), opts[k]);
        }
        let ghost before = out@;
        let m = map_sf_job(j);
        assert(opt_listing(m) == opts[k]);
        match m {
            Some(l) => {
                out.push(l);
                assert(listings_view(out@) == listings_view(before).push(l@));
            },
            None => {},
        }
    }
    proof {
        assert(opts.take(opts.len() as int) == opts);
    }
    out
}

/// The JSON search endpoint for a keyword; where no location is given, Basel.
pub open spec fn bayer_api_url(keyword: Seq<char>, location: Option<Seq<char>>) -> Seq<char> {
    query_url(
        "https://career.bayer.com/api/jobSearch?query="@,
        keyword,
        "&location="@,
        text_or(location, "Basel"@),
        "&pageSize=20&pageNumber=1"@,
    )
}

/// The HTML search page for a keyword; where no location is given, Basel.
pub open spec fn bayer_html_url(keyword: Seq<char>, location: Option<Seq<char>>) -> Seq<char> {
    query_url(
        "https://career.bayer.com/en/jobs.html?search="@,
        keyword,
        "&location="@,
        text_or(location, "Basel"@),
        ""@,
    )
}

/// The layout of the result cards of Bayer's HTML search page.
pub open spec fn bayer_site() -> CardSiteView {
    CardSiteView {
        card: "div[class*='jobCard'], article[class*='job'], li[class*='job-item'], div[data-job-id], div[class*='result-item']"@,
        title: FieldQueryView { selector: "h2, h3, [class*='jobTitle'], [class*='job-title']"@, attr: None },
        link: FieldQueryView { selector: "a[href]"@, attr: Some("href"@) },
        company: FieldQueryView { selector: "[class*='companyName'], [class*='company']"@, attr: None },
        location: FieldQueryView { selector: "[class*='location'], [class*='city']"@, attr: None },
        date: None,
        trim_date: true,
        link_rule: LinkRuleView::Prefixed { base: "https://career.bayer.com"@, trim: false, skip_empty: false },
        id_source: "bayer"@,
        source: "Bayer (Careers)"@,
        company_default: "Bayer"@,
        location_default: ""@,
    }
}

impl BayerScraper {
    /// The JSON search endpoint for a keyword; where no location is given, Basel.
    pub fn api_url(&self, keyword: &str, location: Option<&str>) -> (r: String)
        ensures
            r@ == bayer_api_url(keyword@, opt_str(location)),
    {
        let loc = pick_location(location, "Basel");
        build_query_url(
            "https://career.bayer.com/api/jobSearch?query=",
            keyword,
            "&location=",
            loc.as_str(),
            "&pageSize=20&pageNumber=1",
        )
    }

    /// The HTML search page for a keyword; where no location is given, Basel.
    pub fn html_url(&self, keyword: &str, location: Option<&str>) -> (r: String)
        ensures
            r@ == bayer_html_url(keyword@, opt_str(location)),
    {
        let loc = pick_location(location, "Basel");
        build_query_url("https://career.bayer.com/en/jobs.html?search=", keyword, "&location=", loc.as_str(), "")
    }

    /// The layout of the result cards of the HTML search page.
    pub fn card_site(&self) -> (r: CardSite)
        ensures
            r@ == bayer_site(),
    {
        CardSite {
            card: String::from_str(
                "div[class*='jobCard'], article[class*='job'], li[class*='job-item'], div[data-job-id], div[class*='result-item']",
            ),
            title: text_query("h2, h3, [class*='jobTitle'], [class*='job-title']"),
            link: attr_query("a[href]", "href"),
            company: text_query("[class*='companyName'], [class*='company']"),
            location: text_query("[class*='location'], [class*='city']"),
            date: None,
            trim_date: true,
            link_rule: LinkRule::Prefixed {
                base: String::from_str("https://career.bayer.com"),
                trim: false,
                skip_empty: false,
            },
            id_source: String::from_str("bayer"),
            source: String::from_str("Bayer (Careers)"),
            company_default: String::from_str("Bayer"),
            location_default: String::from_str(""),
        }
    }
}

/// The listings on one page of Bayer's HTML search.
pub fn parse_bayer_html(html: &str) -> (r: Vec<JobListing>)
    ensures
        listings_view(r@) == listings_in_html(bayer_site(), html@),
{
    let site = BayerScraper.card_site();
    parse_cards(html, &site)
}

} // verus!
