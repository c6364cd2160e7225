use vstd::prelude::*;

use crate::config::{job_relevant, title_relevant, Config, FilterConfig};
use crate::models::{listings_view, JobListing, ListingView};
use crate::scrapers::bayer::BayerScraper;
use crate::scrapers::csl_vifor::CslViforScraper;
use crate::scrapers::jobs_ch::JobsChScraper;
use crate::scrapers::pharmiweb::PharmiwebScraper;
use crate::scrapers::run::Site;
use crate::scrapers::workday::WorkdayScraper;
use crate::text::{ends_with, ends_with_spec, same_text};

verus! {

/// Some listing of `s` has id `id`.
pub open spec fn has_id(s: Seq<ListingView>, id: Seq<char>) -> bool {
    exists|k: int| 0 <= k < s.len() && (#[trigger] s[k]).id == id
}

/// The listings of `s` whose id no earlier listing has: the first of each id, in order.
pub open spec fn first_of_each_id(s: Seq<ListingView>) -> Seq<ListingView>
    decreases s.len(),
{
    if s.len() == 0 {
        s
    } else if has_id(s.drop_last(), s.last().id) {
        first_of_each_id(s.drop_last())
    } else {
        first_of_each_id(s.drop_last()).push(s.last())
    }
}

/// The listings of `s` whose id no earlier listing has, as they are (scrape
/// times included): the first of each id, in order.
pub open spec fn first_listing_of_each_id(s: Seq<JobListing>) -> Seq<JobListing>
    decreases s.len(),
{
    if s.len() == 0 {
        s
    } else if has_id(listings_view(s.drop_last()), s.last().id@) {
        first_listing_of_each_id(s.drop_last())
    } else {
        first_listing_of_each_id(s.drop_last()).push(s.last())
    }
}

/// Deduplication keeps every id: an id occurs in the result exactly where it occurs in the input.
pub proof fn law_dedup_keeps_every_id(s: Seq<ListingView>, id: Seq<char>)
    ensures
        has_id(first_of_each_id(s), id) == has_id(s, id),
    decreases s.len(),
{
    if s.len() > 0 {
        let p = s.drop_last();
        law_dedup_keeps_every_id(p, id);
        law_dedup_keeps_every_id(p, s.last().id);
        if has_id(s, id) && !has_id(p, id) {
            let k = choose|k: int| 0 <= k < s.len() && (#[trigger] s[k]).id == id;
            if k < p.len() {
                assert(p[k] == s[k]);
            }
            assert(s.last().id == id);
        }
        if has_id(p, id) {
            let k = choose|k: int| 0 <= k < p.len() && (#[trigger] p[k]).id == id;
            assert(s[k] == p[k]);
        }
        let f = first_of_each_id(p);
        if !has_id(p, s.last().id) {
            if has_id(f.push(s.last()), id) && !has_id(f, id) {
                assert(s.last().id == id);
                assert(s[s.len() - 1].id == id);
            }
            if has_id(f, id) {
                let k = choose|k: int| 0 <= k < f.len() && (#[trigger] f[k]).id == id;
                assert(f.push(s.last())[k] == f[k]);
            }
            if s.last().id == id {
                assert(f.push(s.last())[f.len() as int] == s.last());
            }
        }
    }
}

/// Whether some listing of `jobs` has id `id`.
fn contains_id(jobs: &Vec<JobListing>, id: &str) -> (r: bool)
    ensures
        r == has_id(listings_view(jobs@), id@),
{
    let mut i: usize = 0;
    while i < jobs.len()
        invariant
            i <= jobs@.len(),
            forall|k: int| 0 <= k < i ==> jobs@[k].id@ != id@,
        decreases jobs.len() - i,
    {
        if same_text(jobs[i].id.as_str(), id) {
            assert(listings_view(jobs@)[i as int].id == id@);
            return true;
        }
        i = i + 1;
    }
    proof {
        if has_id(listings_view(jobs@), id@) {
            let k = choose|k: int| 0 <= k < listings_view(jobs@).len() && (#[trigger] listings_view(jobs@)[k]).id == id@;
            assert(jobs@[k].id@ == id@);
        }
    }
    false
}

/// Keeps the first listing of each id, as it is, dropping later ones with
/// an id already seen; the order is kept.
pub fn dedup_by_id(jobs: Vec<JobListing>) -> (r: Vec<JobListing>)
    ensures
        r@ == first_listing_of_each_id(jobs@),
        listings_view(r@) == first_of_each_id(listings_view(jobs@)),
{
    let ghost all = listings_view(jobs@);
    let ghost input = jobs@;
    let mut out: Vec<JobListing> = Vec::new();
    for job in it: jobs
        invariant
            all == listings_view(it.seq()),
            input == it.seq(),
            listings_view(out@) == first_of_each_id(all.take(it.index() as int)),
            out@ == first_listing_of_each_id(input.take(it.index() as int)),
    {
        let ghost k = it.index() as int;
        let ghost jv = job@;
        proof {
            assert(jv == all[k]);
            assert(all.take(k + 1).drop_last() == all.take(k));
            assert(all.take(k + 1).last() == jv);
            assert(input.take(k + 1).drop_last() == input.take(k));
            assert(input.take(k + 1).last() == job);
            assert(listings_view(input.take(k)) == all.take(k));
            law_dedup_keeps_every_id(all.take(k), jv.id);
        }
        if !contains_id(&out, job.id.as_str()) {
            let ghost before = out@;
            out.push(job);
            assert(listings_view(out@) == listings_view(before).push(jv));
        }
    }
    proof {
        assert(all.take(all.len() as int) == all);
        assert(input.take(input.len() as int) == input);
    }
    out
}

/// A source that is a company's own career site (the title filter alone
/// applies to its listings): a source name ending in "(Careers)", "Bayer" or
/// "CSL Vifor".
pub open spec fn company_direct(source: Seq<char>) -> bool {
    ends_with_spec(source, "(Careers)"@) || source == "Bayer"@ || source == "CSL Vifor"@
}

/// Whether listings of this source come from a company's own career site.
pub fn is_company_direct(source: &str) -> (r: bool)
    ensures
        r == company_direct(source@),
{
    ends_with(source, "(Careers)") || same_text(source, "Bayer") || same_text(source, "CSL Vifor")
}

/// A listing passes the relevance filter: by its title alone where it comes
/// from a company's own site, by title and location otherwise.
pub open spec fn passes(f: crate::config::FilterView, j: ListingView) -> bool {
    if company_direct(j.source) {
        title_relevant(f, j.title)
    } else {
        job_relevant(f, j.title, j.location)
    }
}

/// The listings of `s` that pass, in order.
pub open spec fn passing(f: crate::config::FilterView, s: Seq<ListingView>) -> Seq<ListingView> {
    s.filter(|j: ListingView| passes(f, j))
}

/// The listings of `s` that pass, as they are (scrape times included), in order.
pub open spec fn passing_listings(f: crate::config::FilterView, s: Seq<JobListing>) -> Seq<JobListing> {
    s.filter(|j: JobListing| passes(f, j@))
}

/// Whether a listing passes the relevance filter.
pub fn listing_passes(filter: &FilterConfig, job: &JobListing) -> (r: bool)
    ensures
        r == passes(filter@, job@),
{
    if is_company_direct(job.source.as_str()) {
        filter.is_title_relevant(job.title.as_str())
    } else {
        filter.is_relevant(job.title.as_str(), job.location.as_str())
    }
}

/// Keeps the listings that pass the relevance filter, as they are, in order.
pub fn keep_relevant(jobs: Vec<JobListing>, filter: &FilterConfig) -> (r: Vec<JobListing>)
    ensures
        r@ == passing_listings(filter@, jobs@),
        listings_view(r@) == passing(filter@, listings_view(jobs@)),
{
    let ghost all = listings_view(jobs@);
    let ghost input = jobs@;
    let ghost f = filter@;
    let mut out: Vec<JobListing> = Vec::new();
    for job in it: jobs
        invariant
            all == listings_view(it.seq()),
            input == it.seq(),
            f == filter@,
            listings_view(out@) == passing(f, all.take(it.index() as int)),
            out@ == passing_listings(f, input.take(it.index() as int)),
    {
        let ghost k = it.index() as int;
        let ghost jv = job@;
        proof {
            assert(jv == all[k]);
            assert(all.take(k + 1).drop_last() == all.take(k));
            assert(all.take(k + 1).last() == jv);
            assert(input.take(k + 1).drop_last() == input.take(k));
            assert(input.take(k + 1).last() == job);
            reveal_with_fuel(Seq::filter, 1);
        }
        if listing_passes(filter, &job) {
            let ghost before = out@;
            out.push(job);
            assert(listings_view(out@) == listings_view(before).push(jv));
        }
    }
    proof {
        assert(all.take(all.len() as int) == all);
        assert(input.take(input.len() as int) == input);
    }
    out
}

/// The sources a run searches: Pharmiweb, jobs.ch, Bayer and CSL Vifor, then
/// each configured Workday portal, in order.
pub fn sources(config: &Config) -> (r: Vec<Site>)
    ensures
        r@.len() == 4 + config.search.workday_companies@.len(),
        r@[0] is Pharmiweb,
        r@[1] is JobsCh,
        r@[2] is Bayer,
        r@[3] is CslVifor,
        forall|k: int|
            0 <= k < config.search.workday_companies@.len() ==> {
                let c = config.search.workday_companies@[k];
                &&& #[trigger] r@[4 + k] is Workday
                &&& r@[4 + k]->Workday_0.company_id == c.company_id
                &&& r@[4 + k]->Workday_0.portal == c.portal
                &&& r@[4 + k]->Workday_0.display_name == c.display_name
                &&& r@[4 + k]->Workday_0.wd_instance == c.wd_instance
            },
{
    let mut out: Vec<Site> = vec![
        Site::Pharmiweb(PharmiwebScraper),
        Site::JobsCh(JobsChScraper),
        Site::Bayer(BayerScraper),
        Site::CslVifor(CslViforScraper),
    ];
    let companies = &config.search.workday_companies;
    let mut i: usize = 0;
    while i < companies.len()
        invariant
            i <= companies@.len(),
            companies == &config.search.workday_companies,
            out@.len() == 4 + i,
            out@[0] is Pharmiweb,
            out@[1] is JobsCh,
            out@[2] is Bayer,
            out@[3] is CslVifor,
            forall|k: int|
                0 <= k < i ==> {
                    let c = companies@[k];
                    &&& #[trigger] out@[4 + k] is Workday
                    &&& out@[4 + k]->Workday_0.company_id == c.company_id
                    &&& out@[4 + k]->Workday_0.portal == c.portal
                    &&& out@[4 + k]->Workday_0.display_name == c.display_name
                    &&& out@[4 + k]->Workday_0.wd_instance == c.wd_instance
                },
        decreases companies.len() - i,
    {
        let c = &companies[i];
        out.push(
            Site::Workday(
                WorkdayScraper {
                    company_id: c.company_id.clone(),
                    portal: c.portal.clone(),
                    display_name: c.display_name.clone(),
                    wd_instance: c.wd_instance.clone(),
                },
            ),
        );
        i = i + 1;
    }
    out
}

/// No two listings of `s` share an id.
pub open spec fn ids_distinct(s: Seq<ListingView>) -> bool {
    forall|i: int, j: int| 0 <= i < j < s.len() ==> (#[trigger] s[i]).id != (#[trigger] s[j]).id
}

/// After deduplication no two listings share an id.
pub proof fn law_dedup_ids_distinct(s: Seq<ListingView>)
    ensures
        ids_distinct(first_of_each_id(s)),
    decreases s.len(),
{
    if s.len() > 0 {
        let p = s.drop_last();
        law_dedup_ids_distinct(p);
        law_dedup_keeps_every_id(p, s.last().id);
        let f = first_of_each_id(p);
        if !has_id(p, s.last().id) {
            let g = f.push(s.last());
            assert forall|i: int, j: int| 0 <= i < j < g.len() implies (#[trigger] g[i]).id != (#[trigger] g[j]).id by {
                if j == f.len() {
                    assert(g[i] == f[i]);
                    if g[i].id == g[j].id {
                        assert(has_id(f, s.last().id));
                    }
                } else {
                    assert(g[i] == f[i] && g[j] == f[j]);
                }
            }
        }
    }
}

/// A list whose ids are already distinct is left as it is.
pub proof fn law_dedup_keeps_distinct_lists(s: Seq<ListingView>)
    requires
        ids_distinct(s),
    ensures
        first_of_each_id(s) == s,
    decreases s.len(),
{
    if s.len() > 0 {
        let p = s.drop_last();
        assert(ids_distinct(p)) by {
            assert forall|i: int, j: int| 0 <= i < j < p.len() implies (#[trigger] p[i]).id != (#[trigger] p[j]).id by {
                assert(p[i] == s[i] && p[j] == s[j]);
            }
        }
        law_dedup_keeps_distinct_lists(p);
        if has_id(p, s.last().id) {
            let k = choose|k: int| 0 <= k < p.len() && (#[trigger] p[k]).id == s.last().id;
            assert(s[k] == p[k]);
            assert(s[k].id == s[s.len() - 1].id);
        }
        assert(p.push(s.last()) == s);
    }
}

/// Deduplicating twice gives what deduplicating once gives.
pub proof fn law_dedup_idempotent(s: Seq<ListingView>)
    ensures
        first_of_each_id(first_of_each_id(s)) == first_of_each_id(s),
{
    law_dedup_ids_distinct(s);
    law_dedup_keeps_distinct_lists(first_of_each_id(s));
}

/// Every listing the relevance filter keeps passes it, and every listing of
/// the input that passes is kept.
pub proof fn law_filter_keeps_exactly_passing(f: crate::config::FilterView, s: Seq<ListingView>)
    ensures
        forall|i: int| 0 <= i < passing(f, s).len() ==> passes(f, #[trigger] passing(f, s)[i]),
        forall|i: int| 0 <= i < s.len() && passes(f, s[i]) ==> #[trigger] passing(f, s).contains(s[i]),
        passing(f, s).len() <= s.len(),
{
    let pred = |j: ListingView| passes(f, j);
    assert forall|i: int| 0 <= i < passing(f, s).len() implies passes(f, #[trigger] passing(f, s)[i]) by {
        s.lemma_filter_pred(pred, i);
    }
    assert forall|i: int| 0 <= i < s.len() && passes(f, s[i]) implies #[trigger] passing(f, s).contains(s[i]) by {
        s.lemma_filter_contains(pred, i);
    }
    s.lemma_filter_len(pred);
}

/// Filtering twice gives what filtering once gives.
pub proof fn law_filter_idempotent(f: crate::config::FilterView, s: Seq<ListingView>)
    ensures
        passing(f, passing(f, s)) == passing(f, s),
    decreases s.len(),
{
    reveal(Seq::filter);
    let pred = |j: ListingView| passes(f, j);
    if s.len() > 0 {
        law_filter_idempotent(f, s.drop_last());
        let sub = s.drop_last().filter(pred);
        if pred(s.last()) {
            assert(sub.push(s.last()).drop_last() == sub);
        }
    }
}

} // verus!
