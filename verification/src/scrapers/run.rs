use vstd::prelude::*;

use crate::config::texts;
use crate::models::{listings_view, JobListing, ListingView};
use crate::scrapers::bayer::{
    bayer_api_url, bayer_html_url, bayer_site, map_sf_jobs, parse_bayer_html, sf_jobs, sf_jobs_view, sf_listings,
    BayerScraper, SfResponse,
};
use crate::scrapers::biospace::{biospace_site, biospace_url, parse_biospace, BiospaceScraper};
use crate::scrapers::cards::listings_in_html;
use crate::scrapers::csl_vifor::{csl_vifor_site, csl_vifor_url, parse_csl, CslViforScraper};
use crate::scrapers::indeed::{indeed_site, indeed_url, parse_indeed, IndeedScraper};
use crate::scrapers::jobs_ch::{jobs_ch_site, jobs_ch_url, parse_jobs_ch, JobsChScraper};
use crate::scrapers::linkedin::{linkedin_site, linkedin_url, parse_linkedin, LinkedInScraper};
use crate::scrapers::pharmiweb::{parse_pharmiweb, pharmiweb_site, pharmiweb_url, PharmiwebScraper};
use crate::scrapers::smartrecruiters::{sr_listings, sr_search_url, SmartRecruitersScraper, SrResponse};
use crate::scrapers::workday::{
    search_body, strip_location_words, stripped_keyword, workday_api_url, workday_apply_base, workday_listings,
    workday_search_body, WorkdayResponse, WorkdayScraper,
};
use crate::text::opt_str;

verus! {

/// The HTTP method of a request.
#[derive(Clone, Copy, Debug, PartialEq, Eq, Structural)]
pub enum Method {
    Get,
    Post,
}

/// What the body of a successful response is read as.
#[derive(Clone, Copy, Debug, PartialEq, Eq, Structural)]
pub enum Expect {
    /// Text (an HTML page)
    Text,
    /// A SuccessFactors search reply (`SfResponse`)
    BayerJson,
    /// A Workday search reply (`WorkdayResponse`)
    WorkdayJson,
    /// A SmartRecruiters postings reply (`SrResponse`)
    SmartRecruitersJson,
}

/// A request for the program to perform.
pub struct HttpRequest {
    pub method: Method,
    pub url: String,
    pub headers: Vec<(String, String)>,
    /// A JSON body, for a POST
    pub body: Option<String>,
    pub expect: Expect,
}

pub struct RequestView {
    pub method: Method,
    pub url: Seq<char>,
    pub headers: Seq<(Seq<char>, Seq<char>)>,
    pub body: Option<Seq<char>>,
    pub expect: Expect,
}

impl View for HttpRequest {
    type V = RequestView;

    open spec fn view(&self) -> RequestView {
        RequestView {
            method: self.method,
            url: self.url@,
            headers: self.headers@.map_values(|h: (String, String)| (h.0@, h.1@)),
            body: crate::models::opt_text(self.body),
            expect: self.expect,
        }
    }
}

/// What came of a request.
pub enum Reply {
    /// It could not be sent, or no response came.
    Failed,
    /// The response status was not a success (2xx).
    Rejected(u16),
    /// A successful response, its body read as text.
    Text(String),
    /// A successful response whose body could not be read as text.
    Unreadable,
    /// A successful response, its body decoded as a SuccessFactors reply.
    Bayer(SfResponse),
    /// A successful response, its body decoded as a Workday reply.
    Workday(WorkdayResponse),
    /// A successful response, its body decoded as a SmartRecruiters reply.
    SmartRecruiters(SrResponse),
    /// A successful response whose body did not decode as expected.
    Undecodable,
}

/// Why a scrape ended without its listings.
#[derive(Clone, Copy, Debug, PartialEq, Eq, Structural)]
pub enum ScrapeError {
    /// A result page came back but its body could not be read.
    BodyUnreadable,
}

/// One of the job sources.
pub enum Site {
    Pharmiweb(PharmiwebScraper),
    JobsCh(JobsChScraper),
    Biospace(BiospaceScraper),
    Indeed(IndeedScraper),
    LinkedIn(LinkedInScraper),
    CslVifor(CslViforScraper),
    Bayer(BayerScraper),
    Workday(WorkdayScraper),
    SmartRecruiters(SmartRecruitersScraper),
}

/// A GET request.
pub open spec fn get_request(url: Seq<char>, headers: Seq<(Seq<char>, Seq<char>)>, expect: Expect) -> RequestView {
    RequestView { method: Method::Get, url: url, headers: headers, body: None, expect: expect }
}

/// The single header `Accept: value`.
pub open spec fn accept(value: Seq<char>) -> Seq<(Seq<char>, Seq<char>)> {
    seq![("Accept"@, value)]
}

/// What a source does for one keyword before any reply.
pub enum Plan {
    /// Send this request.
    Request(RequestView),
    /// Nothing to search for: go on with the next keyword.
    Skip,
}

/// The first step of a source for a keyword.
pub open spec fn site_plan(site: Site, keyword: Seq<char>, location: Option<Seq<char>>) -> Plan {
    match site {
        Site::Pharmiweb(_) => Plan::Request(get_request(pharmiweb_url(keyword, location), Seq::empty(), Expect::Text)),
        Site::JobsCh(_) => Plan::Request(get_request(jobs_ch_url(keyword, location), Seq::empty(), Expect::Text)),
        Site::Biospace(_) => Plan::Request(get_request(biospace_url(keyword, location), Seq::empty(), Expect::Text)),
        Site::Indeed(_) => Plan::Request(get_request(indeed_url(keyword, location), Seq::empty(), Expect::Text)),
        Site::LinkedIn(_) => Plan::Request(get_request(linkedin_url(keyword, location), Seq::empty(), Expect::Text)),
        Site::CslVifor(_) => Plan::Request(
            get_request(csl_vifor_url(keyword, location), accept("text/html"@), Expect::Text),
        ),
        Site::Bayer(_) => Plan::Request(
            get_request(bayer_api_url(keyword, location), accept("application/json"@), Expect::BayerJson),
        ),
        Site::Workday(w) => {
            let text = stripped_keyword(keyword);
            if text.len() == 0 {
                Plan::Skip
            } else {
                Plan::Request(
                    RequestView {
                        method: Method::Post,
                        url: workday_api_url(w.company_id@, w.wd_instance@, w.portal@),
                        headers: seq![("Content-Type"@, "application/json"@), ("Accept"@, "application/json"@)],
                        body: Some(workday_search_body(text)),
                        expect: Expect::WorkdayJson,
                    },
                )
            }
        },
        Site::SmartRecruiters(s) => Plan::Request(
            get_request(sr_search_url(s.company_id@, keyword), accept("application/json"@), Expect::SmartRecruitersJson),
        ),
    }
}

/// The pause after a keyword's results, in milliseconds, where the source makes one.
pub open spec fn site_delay(site: Site) -> Option<u64> {
    match site {
        Site::Pharmiweb(_) => None,
        Site::JobsCh(_) => Some(1000),
        Site::Biospace(_) => Some(900),
        Site::Indeed(_) => Some(1200),
        Site::LinkedIn(_) => Some(1500),
        Site::CslVifor(_) => Some(1000),
        Site::Bayer(_) => Some(900),
        Site::Workday(_) => Some(800),
        Site::SmartRecruiters(_) => Some(700),
    }
}

/// The listings a result page of an HTML board gives.
pub open spec fn board_listings(site: Site, html: Seq<char>) -> Seq<ListingView> {
    match site {
        Site::Pharmiweb(_) => listings_in_html(pharmiweb_site(), html),
        Site::JobsCh(_) => listings_in_html(jobs_ch_site(), html),
        Site::Biospace(_) => listings_in_html(biospace_site(), html),
        Site::Indeed(_) => listings_in_html(indeed_site(), html),
        Site::LinkedIn(_) => listings_in_html(linkedin_site(), html),
        Site::CslVifor(_) => listings_in_html(csl_vifor_site(), html),
        _ => listings_in_html(bayer_site(), html),
    }
}

/// What a reply means for the keyword it answers.
pub enum Outcome {
    /// These listings are gained and the keyword is done.
    Gain(Seq<ListingView>),
    /// The keyword gives nothing and is done, with no pause.
    Skip,
    /// Try this request instead.
    Fallback(RequestView),
    /// The whole scrape ends with this error.
    Abort(ScrapeError),
}

/// What a reply to the request for `keyword` means. `fallback` says whether
/// it answers Bayer's second (HTML) request.
pub open spec fn reply_outcome(site: Site, keyword: Seq<char>, location: Option<Seq<char>>, fallback: bool, reply: Reply) -> Outcome {
    match site {
        Site::Bayer(_) => if !fallback {
            match reply {
                Reply::Bayer(r) => Outcome::Gain(sf_listings(sf_jobs_view(sf_jobs(r.job_postings@, r.results@, r.data@)))),
                _ => Outcome::Fallback(get_request(bayer_html_url(keyword, location), Seq::empty(), Expect::Text)),
            }
        } else {
            match reply {
                Reply::Failed => Outcome::Gain(Seq::empty()),
                Reply::Rejected(_) => Outcome::Gain(Seq::empty()),
                Reply::Text(h) => Outcome::Gain(listings_in_html(bayer_site(), h@)),
                _ => Outcome::Abort(ScrapeError::BodyUnreadable),
            }
        },
        Site::Workday(w) => match reply {
            Reply::Workday(r) => Outcome::Gain(
                workday_listings(w.display_name@, workday_apply_base(w.company_id@, w.wd_instance@, w.portal@), r.job_postings@),
            ),
            _ => Outcome::Skip,
        },
        Site::SmartRecruiters(s) => match reply {
            Reply::SmartRecruiters(r) => Outcome::Gain(sr_listings(s.company_id@, s.display_name@, r.content@)),
            _ => Outcome::Skip,
        },
        _ => match reply {
            Reply::Failed => Outcome::Skip,
            Reply::Rejected(_) => Outcome::Skip,
            Reply::Text(h) => Outcome::Gain(board_listings(site, h@)),
            _ => Outcome::Abort(ScrapeError::BodyUnreadable),
        },
    }
}

/// The first keyword at or after `from` for which the source does not skip;
/// the number of keywords where there is none.
pub open spec fn first_live(site: Site, keywords: Seq<Seq<char>>, location: Option<Seq<char>>, from: int) -> int
    decreases keywords.len() - from,
{
    if from < 0 || from >= keywords.len() {
        keywords.len() as int
    } else if site_plan(site, keywords[from], location) is Skip {
        first_live(site, keywords, location, from + 1)
    } else {
        from
    }
}

/// A planned step, to be carried out.
pub enum Step {
    Request(HttpRequest),
    Skip,
}

/// The plan a step carries out.
pub open spec fn step_view(s: Step) -> Plan {
    match s {
        Step::Request(r) => Plan::Request(r@),
        Step::Skip => Plan::Skip,
    }
}

/// A GET request.
fn get(url: String, headers: Vec<(String, String)>, expect: Expect) -> (r: HttpRequest)
    ensures
        r@ == get_request(url@, headers@.map_values(|h: (String, String)| (h.0@, h.1@)), expect),
{
    HttpRequest { method: Method::Get, url, headers, body: None, expect }
}

/// No headers.
fn no_headers() -> (r: Vec<(String, String)>)
    ensures
        r@.map_values(|h: (String, String)| (h.0@, h.1@)) == Seq::<(Seq<char>, Seq<char>)>::empty(),
{
    let r: Vec<(String, String)> = Vec::new();
    assert(r@.map_values(|h: (String, String)| (h.0@, h.1@)) == Seq::<(Seq<char>, Seq<char>)>::empty());
    r
}

/// The single header `Accept: value`.
fn accept_header(value: &str) -> (r: Vec<(String, String)>)
    ensures
        r@.map_values(|h: (String, String)| (h.0@, h.1@)) == accept(value@),
{
    let r = vec![(String::from_str("Accept"), String::from_str(value))];
    assert(r@.map_values(|h: (String, String)| (h.0@, h.1@)) == accept(value@));
    r
}

/// What a reply means, to be carried out.
pub enum Effect {
    Gain(Vec<JobListing>),
    Skip,
    Fallback(HttpRequest),
    Abort(ScrapeError),
}

/// The outcome an effect carries out.
pub open spec fn effect_view(e: Effect) -> Outcome {
    match e {
        Effect::Gain(v) => Outcome::Gain(listings_view(v@)),
        Effect::Skip => Outcome::Skip,
        Effect::Fallback(r) => Outcome::Fallback(r@),
        Effect::Abort(x) => Outcome::Abort(x),
    }
}

impl Site {
    /// The first step of the source for a keyword.
    pub fn plan(&self, keyword: &str, location: Option<&str>) -> (r: Step)
        ensures
            step_view(r) == site_plan(*self, keyword@, opt_str(location)),
    {
        match self {
            Site::Pharmiweb(s) => Step::Request(get(s.search_url(keyword, location), no_headers(), Expect::Text)),
            Site::JobsCh(s) => Step::Request(get(s.search_url(keyword, location), no_headers(), Expect::Text)),
            Site::Biospace(s) => Step::Request(get(s.search_url(keyword, location), no_headers(), Expect::Text)),
            Site::Indeed(s) => Step::Request(get(s.search_url(keyword, location), no_headers(), Expect::Text)),
            Site::LinkedIn(s) => Step::Request(get(s.search_url(keyword, location), no_headers(), Expect::Text)),
            Site::CslVifor(s) => Step::Request(
                get(s.search_url(keyword, location), accept_header("text/html"), Expect::Text),
            ),
            Site::Bayer(s) => Step::Request(
                get(s.api_url(keyword, location), accept_header("application/json"), Expect::BayerJson),
            ),
            Site::Workday(w) => {
                let text = strip_location_words(keyword);
                if text.as_str().is_empty() {
                    Step::Skip
                } else {
                    let headers = vec![
                        (String::from_str("Content-Type"), String::from_str("application/json")),
                        (String::from_str("Accept"), String::from_str("application/json")),
                    ];
                    assert(headers@.map_values(|h: (String, String)| (h.0@, h.1@)) == seq![
                        ("Content-Type"@, "application/json"@),
                        ("Accept"@, "application/json"@),
                    ]);
                    Step::Request(
                        HttpRequest {
                            method: Method::Post,
                            url: w.api_url(),
                            headers,
                            body: Some(search_body(text.as_str())),
                            expect: Expect::WorkdayJson,
                        },
                    )
                }
            },
            Site::SmartRecruiters(s) => Step::Request(
                get(s.search_url(keyword), accept_header("application/json"), Expect::SmartRecruitersJson),
            ),
        }
    }

    /// The pause after a keyword's results, in milliseconds, where the source makes one.
    pub fn delay_ms(&self) -> (r: Option<u64>)
        ensures
            r == site_delay(*self),
    {
        match self {
            Site::Pharmiweb(_) => None,
            Site::JobsCh(_) => Some(1000),
            Site::Biospace(_) => Some(900),
            Site::Indeed(_) => Some(1200),
            Site::LinkedIn(_) => Some(1500),
            Site::CslVifor(_) => Some(1000),
            Site::Bayer(_) => Some(900),
            Site::Workday(_) => Some(800),
            Site::SmartRecruiters(_) => Some(700),
        }
    }

    /// What a reply to the request for `keyword` means.
    pub fn outcome(&self, keyword: &str, location: Option<&str>, fallback: bool, reply: Reply) -> (r: Effect)
        ensures
            effect_view(r) == reply_outcome(*self, keyword@, opt_str(location), fallback, reply),
    {
        match self {
            Site::Bayer(b) => {
                if !fallback {
                    match reply {
                        Reply::Bayer(r) => Effect::Gain(map_sf_jobs(r.jobs())),
                        _ => Effect::Fallback(get(b.html_url(keyword, location), no_headers(), Expect::Text)),
                    }
                } else {
                    match reply {
                        Reply::Failed => {
                            assert(listings_view(Seq::<JobListing>::empty()) == Seq::<ListingView>::empty());
                            Effect::Gain(Vec::new())
                        },
                        Reply::Rejected(_) => {
                            assert(listings_view(Seq::<JobListing>::empty()) == Seq::<ListingView>::empty());
                            Effect::Gain(Vec::new())
                        },
                        Reply::Text(h) => Effect::Gain(parse_bayer_html(h.as_str())),
                        _ => Effect::Abort(ScrapeError::BodyUnreadable),
                    }
                }
            },
            Site::Workday(w) => match reply {
                Reply::Workday(r) => Effect::Gain(w.map_jobs(r)),
                _ => Effect::Skip,
            },
            Site::SmartRecruiters(s) => match reply {
                Reply::SmartRecruiters(r) => Effect::Gain(s.map_jobs(r)),
                _ => Effect::Skip,
            },
            _ => match reply {
                Reply::Failed => Effect::Skip,
                Reply::Rejected(_) => Effect::Skip,
                Reply::Text(h) => {
                    let jobs = match self {
                        Site::Pharmiweb(_) => parse_pharmiweb(h.as_str()),
                        Site::JobsCh(_) => parse_jobs_ch(h.as_str()),
                        Site::Biospace(_) => parse_biospace(h.as_str()),
                        Site::Indeed(_) => parse_indeed(h.as_str()),
                        Site::LinkedIn(_) => parse_linkedin(h.as_str()),
                        Site::CslVifor(_) => parse_csl(h.as_str()),
                        _ => parse_bayer_html(h.as_str()),
                    };
                    Effect::Gain(jobs)
                },
                _ => Effect::Abort(ScrapeError::BodyUnreadable),
            },
        }
    }
}

/// Where a scrape stands.
#[derive(Clone, Copy, Debug, PartialEq, Eq, Structural)]
pub enum Stage {
    /// About to take up keyword `next` (or to finish)
    Ready,
    /// Waiting for the reply to the request for keyword `next`
    Waiting,
    /// Waiting for the reply to the fallback request for keyword `next`
    WaitingFallback,
    /// Done
    Finished,
}

/// What the program is to do next for a scrape.
pub enum Action {
    /// Perform this request and hand the reply to `on_reply`.
    Fetch(HttpRequest),
    /// Pause this many milliseconds, then call `resume`.
    Sleep(u64),
    /// The scrape is over, with these listings or this error.
    Done(Result<Vec<JobListing>, ScrapeError>),
}

pub enum ActionView {
    Fetch(RequestView),
    Sleep(u64),
    Done(Result<Seq<ListingView>, ScrapeError>),
}

/// The view of an action.
pub open spec fn action_view(a: Action) -> ActionView {
    match a {
        Action::Fetch(r) => ActionView::Fetch(r@),
        Action::Sleep(ms) => ActionView::Sleep(ms),
        Action::Done(Ok(v)) => ActionView::Done(Ok(listings_view(v@))),
        Action::Done(Err(e)) => ActionView::Done(Err(e)),
    }
}

/// The listings a scrape holds after action `a`, where it keeps `jobs`: those
/// it hands out where it finishes with them, else those it keeps.
pub open spec fn held_after(a: Action, jobs: Seq<JobListing>) -> Seq<JobListing> {
    match a {
        Action::Done(Ok(v)) => v@,
        _ => jobs,
    }
}

/// The scrape of one source over a list of keywords, one keyword after the
/// other: the decisions of a scraper, with the requests and pauses left to
/// the program that drives it.
pub struct ScrapeRun {
    pub site: Site,
    pub keywords: Vec<String>,
    pub location: Option<String>,
    /// The keyword being handled
    pub next: usize,
    pub stage: Stage,
    /// The listings gathered so far
    pub jobs: Vec<JobListing>,
}

/// How a scrape takes up keywords from `from` on, holding `jobs`: it skips
/// the keywords the source has nothing to search for; at the first other
/// one it sends its request; past the last it finishes and hands out the
/// listings. `next`, `stage`, `kept` and `act` are the index, stage,
/// held listings and action after that.
pub open spec fn began(
    site: Site,
    keywords: Seq<Seq<char>>,
    location: Option<Seq<char>>,
    from: int,
    jobs: Seq<ListingView>,
    next: int,
    stage: Stage,
    kept: Seq<ListingView>,
    act: ActionView,
) -> bool {
    let i = first_live(site, keywords, location, from);
    if i >= keywords.len() {
        &&& stage == Stage::Finished
        &&& act == ActionView::Done(Ok(jobs))
        &&& kept.len() == 0
    } else {
        match site_plan(site, keywords[i], location) {
            Plan::Request(rq) => {
                &&& next == i
                &&& stage == Stage::Waiting
                &&& kept == jobs
                &&& act == ActionView::Fetch(rq)
            },
            // `first_live` never stops at a keyword the source skips
            Plan::Skip => false,
        }
    }
}

/// Skipping keyword `i` leaves the first live keyword where it was.
proof fn lemma_first_live_skip(site: Site, keywords: Seq<Seq<char>>, location: Option<Seq<char>>, i: int)
    requires
        0 <= i < keywords.len(),
        site_plan(site, keywords[i], location) is Skip,
    ensures
        first_live(site, keywords, location, i) == first_live(site, keywords, location, i + 1),
{
}

/// The first keyword at or after `from` for which `site` does not skip, with
/// its request; no request where there is no such keyword.
fn first_step(site: &Site, keywords: &Vec<String>, location: Option<&str>, from: usize) -> (r: (usize, Option<HttpRequest>))
    requires
        from <= keywords@.len(),
    ensures
        r.0 == first_live(*site, texts(keywords@), opt_str(location), from as int),
        r.0 <= keywords@.len(),
        match r.1 {
            None => r.0 >= keywords@.len(),
            Some(rq) => r.0 < keywords@.len() && site_plan(*site, texts(keywords@)[r.0 as int], opt_str(location))
                == Plan::Request(rq@),
        },
{
    let ghost kws = texts(keywords@);
    let ghost loc = opt_str(location);
    let mut i = from;
    while i < keywords.len()
        invariant
            from <= i <= keywords@.len(),
            kws == texts(keywords@),
            loc == opt_str(location),
            first_live(*site, kws, loc, from as int) == first_live(*site, kws, loc, i as int),
        decreases keywords.len() - i,
    {
        assert(kws[i as int] == keywords@[i as int]@);
        let step = site.plan(keywords[i].as_str(), location);
        match step {
            Step::Skip => {
                proof {
                    lemma_first_live_skip(*site, kws, loc, i as int);
                }
                i = i + 1;
            },
            Step::Request(rq) => {
                assert(first_live(*site, kws, loc, i as int) == i);
                return (i, Some(rq));
            },
        }
    }
    (i, None)
}

impl ScrapeRun {
    /// A scrape of `site` for `keywords`, not yet begun.
    pub fn new(site: Site, keywords: Vec<String>, location: Option<String>) -> (r: ScrapeRun)
        ensures
            r.site == site,
            r.keywords == keywords,
            r.location == location,
            r.next == 0,
            r.stage == Stage::Ready,
            r.jobs@.len() == 0,
    {
        ScrapeRun { site, keywords, location, next: 0, stage: Stage::Ready, jobs: Vec::new() }
    }

    /// Takes up the keywords from `next` on, as `began` says.
    pub fn resume(&mut self) -> (a: Action)
        requires
            old(self).stage == Stage::Ready,
            old(self).next <= old(self).keywords@.len(),
        ensures
            final(self).site == old(self).site,
            final(self).keywords == old(self).keywords,
            final(self).location == old(self).location,
            held_after(a, final(self).jobs@) == old(self).jobs@,
            began(
                old(self).site,
                texts(old(self).keywords@),
                crate::models::opt_text(old(self).location),
                old(self).next as int,
                listings_view(old(self).jobs@),
                final(self).next as int,
                final(self).stage,
                listings_view(final(self).jobs@),
                action_view(a),
            ),
    {
        let location = match &self.location {
            Some(l) => Some(l.as_str()),
            None => None,
        };
        let (i, step) = first_step(&self.site, &self.keywords, location, self.next);
        match step {
            Some(r) => {
                self.next = i;
                self.stage = Stage::Waiting;
                Action::Fetch(r)
            },
            None => {
                self.stage = Stage::Finished;
                let mut out: Vec<JobListing> = Vec::new();
                std::mem::swap(&mut out, &mut self.jobs);
                Action::Done(Ok(out))
            },
        }
    }

    /// Takes in the reply to the last request, as `reply_outcome` says what it
    /// means: gained listings are appended and the keyword is done (with the
    /// source's pause, or going on at once where it makes none); a skipped
    /// keyword is done at once; a fallback sends its request; an abort ends
    /// the scrape with the error.
    pub fn on_reply(&mut self, reply: Reply) -> (a: Action)
        requires
            old(self).stage == Stage::Waiting || old(self).stage == Stage::WaitingFallback,
            old(self).next < old(self).keywords@.len(),
        ensures
            final(self).site == old(self).site,
            final(self).keywords == old(self).keywords,
            final(self).location == old(self).location,
            held_after(a, final(self).jobs@).take(old(self).jobs@.len() as int) == old(self).jobs@,
            ({
                let site = old(self).site;
                let kws = texts(old(self).keywords@);
                let loc = crate::models::opt_text(old(self).location);
                let jobs = listings_view(old(self).jobs@);
                let kept = listings_view(final(self).jobs@);
                match reply_outcome(site, kws[old(self).next as int], loc, old(self).stage == Stage::WaitingFallback, reply) {
                    Outcome::Gain(g) => match site_delay(site) {
                        Some(ms) => {
                            &&& final(self).next == old(self).next + 1
                            &&& final(self).stage == Stage::Ready
                            &&& kept == jobs + g
                            &&& action_view(a) == ActionView::Sleep(ms)
                        },
                        None => began(site, kws, loc, old(self).next + 1, jobs + g, final(self).next as int, final(self).stage, kept, action_view(a)),
                    },
                    Outcome::Skip => began(site, kws, loc, old(self).next + 1, jobs, final(self).next as int, final(self).stage, kept, action_view(a)),
                    Outcome::Fallback(rq) => {
                        &&& final(self).next == old(self).next
                        &&& final(self).stage == Stage::WaitingFallback
                        &&& kept == jobs
                        &&& action_view(a) == ActionView::Fetch(rq)
                    },
                    Outcome::Abort(e) => {
                        &&& final(self).stage == Stage::Finished
                        &&& kept == jobs
                        &&& action_view(a) == ActionView::Done(Err(e))
                    },
                }
            }),
    {
        let n = self.keywords.len();
        assert(self.next < n);
        let fallback = self.stage == Stage::WaitingFallback;
        let location = match &self.location {
            Some(l) => Some(l.as_str()),
            None => None,
        };
        assert(opt_str(location) == crate::models::opt_text(self.location));
        assert(texts(self.keywords@)[self.next as int] == self.keywords@[self.next as int]@);
        let effect = self.site.outcome(self.keywords[self.next].as_str(), location, fallback, reply);
        match effect {
            Effect::Gain(mut gained) => {
                let ghost before = listings_view(self.jobs@);
                let ghost held = self.jobs@;
                let ghost g = listings_view(gained@);
                self.jobs.append(&mut gained);
                assert(listings_view(self.jobs@) == before + g);
                assert(self.jobs@.take(held.len() as int) == held);
                self.next = self.next + 1;
                self.stage = Stage::Ready;
                match self.site.delay_ms() {
                    Some(ms) => Action::Sleep(ms),
                    None => self.resume(),
                }
            },
            Effect::Skip => {
                self.next = self.next + 1;
                self.stage = Stage::Ready;
                self.resume()
            },
            Effect::Fallback(r) => {
                self.stage = Stage::WaitingFallback;
                Action::Fetch(r)
            },
            Effect::Abort(e) => {
                self.stage = Stage::Finished;
                Action::Done(Err(e))
            },
        }
    }
}

/// Each HTML job board reads its result pages with its own card layout: a
/// page that comes back gains exactly the listings that board's layout finds
/// in it, for whatever keyword and location.
pub proof fn law_boards_read_their_own_pages(keyword: Seq<char>, location: Option<Seq<char>>, fallback: bool, h: String)
    ensures
        reply_outcome(Site::Pharmiweb(PharmiwebScraper), keyword, location, fallback, Reply::Text(h))
            == Outcome::Gain(listings_in_html(pharmiweb_site(), h@)),
        reply_outcome(Site::JobsCh(JobsChScraper), keyword, location, fallback, Reply::Text(h))
            == Outcome::Gain(listings_in_html(jobs_ch_site(), h@)),
        reply_outcome(Site::Biospace(BiospaceScraper), keyword, location, fallback, Reply::Text(h))
            == Outcome::Gain(listings_in_html(biospace_site(), h@)),
        reply_outcome(Site::Indeed(IndeedScraper), keyword, location, fallback, Reply::Text(h))
            == Outcome::Gain(listings_in_html(indeed_site(), h@)),
        reply_outcome(Site::LinkedIn(LinkedInScraper), keyword, location, fallback, Reply::Text(h))
            == Outcome::Gain(listings_in_html(linkedin_site(), h@)),
        reply_outcome(Site::CslVifor(CslViforScraper), keyword, location, fallback, Reply::Text(h))
            == Outcome::Gain(listings_in_html(csl_vifor_site(), h@)),
        fallback ==> reply_outcome(Site::Bayer(BayerScraper), keyword, location, fallback, Reply::Text(h))
            == Outcome::Gain(listings_in_html(bayer_site(), h@)),
{
}

/// Each source searches the keyword, percent-encoded, at its own address;
/// the boards that take a location search the one given, percent-encoded,
/// and their default where none is given (Switzerland, or Basel for jobs.ch
/// and Bayer); CSL Vifor always searches Switzerland.
pub proof fn law_search_addresses(k: Seq<char>, l: Seq<char>)
    ensures
        pharmiweb_url(k, Some(l)) == "https://www.pharmiweb.jobs/jobs/?keywords="@ + crate::scrapers::url_encoded(k)
            + "&location="@ + crate::scrapers::url_encoded(l),
        pharmiweb_url(k, None) == pharmiweb_url(k, Some("Switzerland"@)),
        jobs_ch_url(k, Some(l)) == "https://www.jobs.ch/en/vacancies/?term="@ + crate::scrapers::url_encoded(k)
            + "&location="@ + crate::scrapers::url_encoded(l),
        jobs_ch_url(k, None) == jobs_ch_url(k, Some("Basel"@)),
        biospace_url(k, Some(l)) == "https://jobs.biospace.com/jobs/?q="@ + crate::scrapers::url_encoded(k)
            + "&location="@ + crate::scrapers::url_encoded(l),
        biospace_url(k, None) == biospace_url(k, Some("Switzerland"@)),
        indeed_url(k, Some(l)) == "https://ch.indeed.com/jobs?q="@ + crate::scrapers::url_encoded(k) + "&l="@
            + crate::scrapers::url_encoded(l) + "&fromage=1&sort=date"@,
        indeed_url(k, None) == indeed_url(k, Some("Switzerland"@)),
        linkedin_url(k, Some(l)) == "https://www.linkedin.com/jobs/search/?keywords="@ + crate::scrapers::url_encoded(k)
            + "&location="@ + crate::scrapers::url_encoded(l) + "&f_TPR=r86400&sortBy=DD"@,
        linkedin_url(k, None) == linkedin_url(k, Some("Switzerland"@)),
        bayer_api_url(k, Some(l)) == "https://career.bayer.com/api/jobSearch?query="@ + crate::scrapers::url_encoded(k)
            + "&location="@ + crate::scrapers::url_encoded(l) + "&pageSize=20&pageNumber=1"@,
        bayer_api_url(k, None) == bayer_api_url(k, Some("Basel"@)),
        bayer_html_url(k, Some(l)) == "https://career.bayer.com/en/jobs.html?search="@ + crate::scrapers::url_encoded(k)
            + "&location="@ + crate::scrapers::url_encoded(l),
        bayer_html_url(k, None) == bayer_html_url(k, Some("Basel"@)),
        csl_vifor_url(k, Some(l)) == csl_vifor_url(k, None),
        csl_vifor_url(k, None) == "https://jobs.csl.com/en/jobs?filterrific%5Bsearch_by_title_and_description%5D="@
            + crate::scrapers::url_encoded(k) + "&filterrific%5Bwith_location3%5D=switzerland"@,
{
    reveal_strlit("");
    let e = Seq::<char>::empty();
    assert(forall|x: Seq<char>| #[trigger] (x + e) == x);
}

/// The pause after each keyword's results, in milliseconds: none for
/// Pharmiweb, 1000 for jobs.ch and CSL Vifor, 900 for BioSpace and Bayer,
/// 1200 for Indeed, 1500 for LinkedIn, 800 for Workday portals and 700 for
/// SmartRecruiters companies.
pub proof fn law_pauses(site: Site)
    ensures
        site is Pharmiweb ==> site_delay(site) is None,
        site is JobsCh ==> site_delay(site) == Some(1000u64),
        site is Biospace ==> site_delay(site) == Some(900u64),
        site is Indeed ==> site_delay(site) == Some(1200u64),
        site is LinkedIn ==> site_delay(site) == Some(1500u64),
        site is CslVifor ==> site_delay(site) == Some(1000u64),
        site is Bayer ==> site_delay(site) == Some(900u64),
        site is Workday ==> site_delay(site) == Some(800u64),
        site is SmartRecruiters ==> site_delay(site) == Some(700u64),
{
}

/// A request that fails contributes nothing for its keyword and does not end
/// the scrape: the keyword is skipped (Bayer instead tries its HTML search).
pub proof fn law_failed_request_skips_keyword(site: Site, keyword: Seq<char>, location: Option<Seq<char>>)
    ensures
        !(site is Bayer) ==> reply_outcome(site, keyword, location, false, Reply::Failed) == Outcome::Skip,
        site is Bayer ==> reply_outcome(site, keyword, location, false, Reply::Failed) == Outcome::Fallback(
            get_request(bayer_html_url(keyword, location), Seq::empty(), Expect::Text),
        ),
{
}

/// Bayer turns to its HTML search page whenever the JSON endpoint gives no
/// decoded reply, and whatever that page gives is a result for the keyword,
/// except a body that cannot be read.
pub proof fn law_bayer_falls_back_to_html(keyword: Seq<char>, location: Option<Seq<char>>, reply: Reply)
    ensures
        !(reply is Bayer) ==> reply_outcome(Site::Bayer(BayerScraper), keyword, location, false, reply)
            == Outcome::Fallback(get_request(bayer_html_url(keyword, location), Seq::empty(), Expect::Text)),
        (reply is Failed || reply is Rejected || reply is Text) ==> reply_outcome(
            Site::Bayer(BayerScraper),
            keyword,
            location,
            true,
            reply,
        ) is Gain,
{
}

} // verus!
