use vstd::prelude::*;

use crate::models::{keep_some, lemma_keep_some_push, listings_view, opt_text, utc_now, JobListing, ListingView};
use crate::scrapers::bayer::opt_listing;
use crate::text::text_or;
use crate::scrapers::workday::joined;
use crate::scrapers::{concat2, concat4, job_id, make_id, url_encode, url_encoded};
use crate::text::{chars_of, push_str, string_from_chars};

verus! {

/// Generic scraper for companies on the SmartRecruiters ATS, through its
/// public JSON API.
#[derive(Clone, Debug)]
pub struct SmartRecruitersScraper {
    pub company_id: String,
    pub display_name: String,
}

/// A reply of the postings endpoint.
pub struct SrResponse {
    pub content: Vec<SrJob>,
}

/// One posting of a SmartRecruiters reply.
pub struct SrJob {
    pub id: Option<String>,
    pub name: Option<String>,
    pub released_date: Option<String>,
    pub location: Option<SrLocation>,
    pub job_ref: Option<String>,
}

/// The place of a posting.
pub struct SrLocation {
    pub city: Option<String>,
    pub country: Option<String>,
    pub region: Option<String>,
}

pub struct SrLocationView {
    pub city: Option<Seq<char>>,
    pub country: Option<Seq<char>>,
    pub region: Option<Seq<char>>,
}

pub struct SrJobView {
    pub id: Option<Seq<char>>,
    pub name: Option<Seq<char>>,
    pub released_date: Option<Seq<char>>,
    pub location: Option<SrLocationView>,
    pub job_ref: Option<Seq<char>>,
}

impl View for SrLocation {
    type V = SrLocationView;

    open spec fn view(&self) -> SrLocationView {
        SrLocationView { city: opt_text(self.city), country: opt_text(self.country), region: opt_text(self.region) }
    }
}

impl View for SrJob {
    type V = SrJobView;

    open spec fn view(&self) -> SrJobView {
        SrJobView {
            id: opt_text(self.id),
            name: opt_text(self.name),
            released_date: opt_text(self.released_date),
            location: match self.location {
                Some(l) => Some(l@),
                None => None,
            },
            job_ref: opt_text(self.job_ref),
        }
    }
}

/// The parts that are not empty, in order.
pub open spec fn non_empty(parts: Seq<Seq<char>>) -> Seq<Seq<char>>
    decreases parts.len(),
{
    if parts.len() == 0 {
        parts
    } else if parts.last().len() == 0 {
        non_empty(parts.drop_last())
    } else {
        non_empty(parts.drop_last()).push(parts.last())
    }
}

/// The place as text: city, region and country, those given and not empty,
/// joined with ", "; empty where the posting has no place.
pub open spec fn sr_location_text(l: Option<SrLocationView>) -> Seq<char> {
    match l {
        None => Seq::empty(),
        Some(l) => joined(non_empty(seq![text_or(l.city, Seq::empty()), text_or(l.region, Seq::empty()), text_or(l.country, Seq::empty())]), ", "@),
    }
}

/// The posting's URL: its reference where that is given and not empty, else
/// the company's job page for its id; `None` where it has neither.
pub open spec fn sr_url(company_id: Seq<char>, j: SrJobView) -> Option<Seq<char>> {
    match j.job_ref {
        Some(r) if r.len() > 0 => Some(r),
        _ => match j.id {
            Some(id) => Some("https://jobs.smartrecruiters.com/"@ + company_id + "/"@ + id),
            None => None,
        },
    }
}

/// At most the first `n` characters of `s`.
pub open spec fn first_chars(s: Seq<char>, n: int) -> Seq<char> {
    if s.len() <= n {
        s
    } else {
        s.subrange(0, n)
    }
}

/// The listing a posting gives; none where it has no name or no URL.
pub open spec fn sr_listing(company_id: Seq<char>, display_name: Seq<char>, j: SrJobView) -> Option<ListingView> {
    match j.name {
        Some(title) if title.len() > 0 => match sr_url(company_id, j) {
            None => None,
            Some(url) => Some(
                ListingView {
                    id: job_id(display_name, url),
                    title: title,
                    company: display_name,
                    location: sr_location_text(j.location),
                    url: url,
                    source: display_name + " (Careers)"@,
                    posted_at: match j.released_date {
                        Some(d) => Some(first_chars(d, 10)),
                        None => None,
                    },
                    description_snippet: None,
                },
            ),
        },
        _ => None,
    }
}

/// What a SmartRecruiters posting gives, field by field: a listing exactly
/// where it has a name that is not empty and a reference that is not empty
/// or an id; that listing has the name as title, the company's display name
/// as company, the reference as URL where it is given and not empty, else
/// the company's job page for the id, the place the posting gives (empty
/// where it gives none), the first ten characters of its release date, and
/// "<display name> (Careers)" as source.
pub proof fn law_sr_listing_fields(company_id: Seq<char>, display_name: Seq<char>, j: SrJobView)
    ensures
        (sr_listing(company_id, display_name, j) is Some) <==> (j.name matches Some(n) && n.len() > 0 && ((
        j.job_ref matches Some(r) && r.len() > 0) || j.id is Some)),
        sr_listing(company_id, display_name, j) matches Some(v) ==> {
            &&& (j.name matches Some(n) && v.title == n)
            &&& v.company == display_name
            &&& (j.job_ref matches Some(r) ==> (r.len() > 0 ==> v.url == r))
            &&& (!(j.job_ref matches Some(r) && r.len() > 0) ==> (j.id matches Some(id) && v.url
                == "https://jobs.smartrecruiters.com/"@ + company_id + "/"@ + id))
            &&& (j.location is None ==> v.location.len() == 0)
            &&& (j.released_date matches Some(d) ==> v.posted_at == Some(
                if d.len() <= 10 { d } else { d.subrange(0, 10) },
            ))
            &&& (j.released_date is None ==> v.posted_at is None)
            &&& v.source == display_name + " (Careers)"@
            &&& v.id == job_id(display_name, v.url)
            &&& v.description_snippet is None
        },
{
}

/// The place of a SmartRecruiters posting as text: its city, region and
/// country in that order, those given and not empty, with ", " between them.
pub proof fn law_sr_location_text(l: SrLocationView, c: Seq<char>, r: Seq<char>, n: Seq<char>)
    requires
        l.city == Some(c),
        l.region == Some(r),
        l.country == Some(n),
        c.len() > 0,
        r.len() > 0,
        n.len() > 0,
    ensures
        sr_location_text(Some(l)) == c + ", "@ + r + ", "@ + n,
{
    let parts = seq![c, r, n];
    assert(parts.drop_last() == seq![c, r]);
    assert(seq![c, r].drop_last() == seq![c]);
    assert(seq![c].drop_last() == Seq::<Seq<char>>::empty());
    assert(non_empty(Seq::<Seq<char>>::empty()) == Seq::<Seq<char>>::empty());
    assert(seq![c].last() == c);
    assert(non_empty(seq![c]) == seq![c]);
    assert(seq![c, r].last() == r);
    assert(seq![c].push(r) == seq![c, r]);
    assert(non_empty(seq![c, r]) == seq![c, r]);
    assert(parts.last() == n);
    assert(seq![c, r].push(n) == parts);
    assert(non_empty(parts) == parts);
    assert(joined(seq![c], ", "@) == c);
    assert(joined(seq![c, r], ", "@) == c + ", "@ + r);
    assert(joined(parts, ", "@) == c + ", "@ + r + ", "@ + n);
    assert(text_or(l.city, Seq::empty()) == c);
    assert(text_or(l.region, Seq::empty()) == r);
    assert(text_or(l.country, Seq::empty()) == n);
}

/// The listings a list of postings gives, in order.
pub open spec fn sr_listings(company_id: Seq<char>, display_name: Seq<char>, jobs: Seq<SrJob>) -> Seq<ListingView> {
    keep_some(jobs.map_values(|j: SrJob| sr_listing(company_id, display_name, j@)))
}

/// The postings endpoint for a keyword, limited to Switzerland.
pub open spec fn sr_search_url(company_id: Seq<char>, keyword: Seq<char>) -> Seq<char> {
    "https://api.smartrecruiters.com/v1/companies/"@ + company_id + "/postings?keyword="@ + url_encoded(keyword)
        + "&country=CH&limit=100"@
}

/// The place as text.
fn location_text(l: &Option<SrLocation>) -> (r: String)
    ensures
        r@ == sr_location_text(
            match l {
                Some(x) => Some(x@),
                None => None,
            },
        ),
{
    match l {
        None => String::new(),
        Some(loc) => {
            let ghost parts = seq![text_or(opt_text(loc.city), Seq::empty()), text_or(opt_text(loc.region), Seq::empty()), text_or(opt_text(loc.country), Seq::empty())];
            let mut kept: Vec<String> = Vec::new();
            let fields = [&loc.city, &loc.region, &loc.country];
            let mut i: usize = 0;
            while i < 3
                invariant
                    i <= 3,
                    fields@.len() == 3,
                    parts.len() == 3,
                    forall|k: int| 0 <= k < 3 ==> text_or(opt_text(*#[trigger] fields@[k]), Seq::empty()) == parts[k],
                    crate::config::texts(kept@) == non_empty(parts.take(i as int)),
                decreases 3 - i,
            {
                proof {
                    assert(parts.take(i + 1).drop_last() == parts.take(i as int));
                    assert(parts.take(i + 1).last() == parts[i as int]);
                }
                let part = match fields[i] {
                    Some(s) => s.clone(),
                    None => String::new(),
                };
                assert(part@ == parts[i as int]);
                if !part.as_str().is_empty() {
                    kept.push(part);
                    proof {
                        assert(crate::config::texts(kept@) == crate::config::texts(kept@.drop_last()).push(part@));
                    }
                }
                i = i + 1;
            }
            assert(parts.take(3) == parts);
            crate::scrapers::workday::join_texts(&kept, ", ")
        },
    }
}

impl SmartRecruitersScraper {
    /// The postings endpoint for a keyword, limited to Switzerland.
    pub fn search_url(&self, keyword: &str) -> (r: String)
        ensures
            r@ == sr_search_url(self.company_id@, keyword@),
    {
        let k = url_encode(keyword);
        let mut u = concat4(
            "https://api.smartrecruiters.com/v1/companies/",
            self.company_id.as_str(),
            "/postings?keyword=",
            k.as_str(),
        );
        push_str(&mut u, "&country=CH&limit=100");
        u
    }

    /// The listing a posting gives; none where it has no name or no URL.
    pub fn map_job(&self, job: SrJob) -> (r: Option<JobListing>)
        ensures
            opt_listing(r) == sr_listing(self.company_id@, self.display_name@, job@),
    {
        let ghost jv = job@;
        let title = match job.name {
            Some(t) => t,
            None => {
                return None;
            },
        };
        if title.as_str().is_empty() {
            return None;
        }
        let from_ref = match &job.job_ref {
            Some(r) => !r.as_str().is_empty(),
            None => false,
        };
        let url = if from_ref {
            match job.job_ref {
                Some(r) => r,
                None => String::new(),
            }
        } else {
            match &job.id {
                Some(id) => concat4(
                    "https://jobs.smartrecruiters.com/",
                    self.company_id.as_str(),
                    "/",
                    id.as_str(),
                ),
                None => {
                    return None;
                },
            }
        };
        assert(Some(url@) == sr_url(self.company_id@, jv));
        let location = location_text(&job.location);
        let posted_at = match job.released_date {
            Some(d) => {
                let v = chars_of(d.as_str());
                let n = if v.len() <= 10 {
                    v.len()
                } else {
                    10
                };
                let p = string_from_chars(&v, 0, n);
                assert(v@.subrange(0, v@.len() as int) == v@);
                Some(p)
            },
            None => None,
        };
        Some(
            JobListing {
                id: make_id(self.display_name.as_str(), url.as_str()),
                title,
                company: self.display_name.clone(),
                location,
                url,
                source: concat2(self.display_name.as_str(), " (Careers)"),
                posted_at,
                scraped_at: utc_now(),
                description_snippet: None,
            },
        )
    }

    /// The listings a reply gives, in order.
    pub fn map_jobs(&self, resp: SrResponse) -> (r: Vec<JobListing>)
        ensures
            listings_view(r@) == sr_listings(self.company_id@, self.display_name@, resp.content@),
    {
        let ghost opts = resp.content@.map_values(|j: SrJob| sr_listing(self.company_id@, self.display_name@, j@));
        let mut out: Vec<JobListing> = Vec::new();
        for job in it: resp.content
            invariant
                opts == it.seq().map_values(|j: SrJob| sr_listing(self.company_id@, self.display_name@, j@)),
                listings_view(out@) == keep_some(opts.take(it.index() as int)),
        {
            let ghost k = it.index() as int;
            let ghost jv = job@;
            proof {
                assert(jv == it.seq()[k]@);
                assert(opts.take(k + 1) == opts.take(k).push(opts[k]));
                lemma_keep_some_push(opts.take(k), opts[k]);
            }
            let ghost before = out@;
            let m = self.map_job(job);
            assert(opt_listing(m) == opts[k]);
            match m {
                Some(l) => {
                    out.push(l);
                    assert(listings_view(out@) == listings_view(before).push(l@));
                },
                None => {},
            }
        }
        proof {
            assert(opts.take(opts.len() as int) == opts);
        }
        out
    }
}

} // verus!
