use vstd::prelude::*;

use crate::text::{contains, contains_spec, lowercase, to_lowercase};

verus! {

/// The characters of each string of a list.
pub open spec fn texts(v: Seq<String>) -> Seq<Seq<char>> {
    v.map_values(|s: String| s@)
}

/// Some term of `terms` occurs in `hay`.
pub open spec fn mentions_any(hay: Seq<char>, terms: Seq<Seq<char>>) -> bool {
    exists|k: int| 0 <= k < terms.len() && contains_spec(hay, #[trigger] terms[k])
}

/// The lowercase form of each term.
pub open spec fn lowercase_all(terms: Seq<Seq<char>>) -> Seq<Seq<char>> {
    terms.map_values(|t: Seq<char>| lowercase(t))
}

/// The three term lists of a relevance filter, as character sequences.
pub struct FilterView {
    pub title_contains_any: Seq<Seq<char>>,
    pub title_excludes_any: Seq<Seq<char>>,
    pub location_contains_any: Seq<Seq<char>>,
}

/// Which titles a filter admits, where title and terms are compared as given.
pub open spec fn admits_title(f: FilterView, title: Seq<char>) -> bool {
    &&& !mentions_any(title, f.title_excludes_any)
    &&& (f.title_contains_any.len() == 0 || mentions_any(title, f.title_contains_any))
}

/// Which locations a filter admits, where location and terms are compared as given.
pub open spec fn admits_location(f: FilterView, location: Seq<char>) -> bool {
    f.location_contains_any.len() == 0 || mentions_any(location, f.location_contains_any)
}

/// The filter with every term in lowercase.
pub open spec fn lowercase_filter(f: FilterView) -> FilterView {
    FilterView {
        title_contains_any: lowercase_all(f.title_contains_any),
        title_excludes_any: lowercase_all(f.title_excludes_any),
        location_contains_any: lowercase_all(f.location_contains_any),
    }
}

/// A title passes the filter: compared in lowercase, it holds no excluded
/// term, and it holds a required term unless none is required.
pub open spec fn title_relevant(f: FilterView, title: Seq<char>) -> bool {
    admits_title(lowercase_filter(f), lowercase(title))
}

/// A job passes the filter: its title passes, and, compared in lowercase,
/// its location holds one of the location terms unless none is given.
pub open spec fn job_relevant(f: FilterView, title: Seq<char>, location: Seq<char>) -> bool {
    title_relevant(f, title) && admits_location(lowercase_filter(f), lowercase(location))
}

/// The program's settings.
pub struct Config {
    pub search: SearchConfig,
    pub output: OutputConfig,
    pub filter: FilterConfig,
}

/// Relevance filter applied to every scraped job before it is written out.
pub struct FilterConfig {
    /// At least one of these strings must appear in the job title (case-insensitive).
    /// Leave empty to allow all titles through.
    pub title_contains_any: Vec<String>,
    /// If any of these strings appear in the job title the job is dropped (case-insensitive).
    pub title_excludes_any: Vec<String>,
    /// At least one of these strings must appear in the job location (case-insensitive).
    /// Leave empty to allow all locations through.
    pub location_contains_any: Vec<String>,
}

impl View for FilterConfig {
    type V = FilterView;

    open spec fn view(&self) -> FilterView {
        FilterView {
            title_contains_any: texts(self.title_contains_any@),
            title_excludes_any: texts(self.title_excludes_any@),
            location_contains_any: texts(self.location_contains_any@),
        }
    }
}

impl Default for FilterConfig {
    fn default() -> (r: Self)
        ensures
            r.title_contains_any@.len() == 0,
            r.title_excludes_any@.len() == 0,
            r.location_contains_any@.len() == 0,
    {
        FilterConfig {
            title_contains_any: Vec::new(),
            title_excludes_any: Vec::new(),
            location_contains_any: Vec::new(),
        }
    }
}

/// Whether some term of `terms` occurs in `hay`, comparing as given.
pub fn mentions_any_of(hay: &str, terms: &Vec<String>) -> (r: bool)
    ensures
        r == mentions_any(hay@, texts(terms@)),
{
    let mut i: usize = 0;
    while i < terms.len()
        invariant
            i <= terms.len(),
            forall|k: int| 0 <= k < i ==> !contains_spec(hay@, #[trigger] texts(terms@)[k]),
        decreases terms.len() - i,
    {
        if contains(hay, terms[i].as_str()) {
            assert(contains_spec(hay@, texts(terms@)[i as int]));
            return true;
        }
        i = i + 1;
    }
    false
}

/// Each term in lowercase.
fn lowercase_terms(terms: &Vec<String>) -> (r: Vec<String>)
    ensures
        texts(r@) == lowercase_all(texts(terms@)),
{
    let mut out: Vec<String> = Vec::new();
    let mut i: usize = 0;
    while i < terms.len()
        invariant
            i <= terms.len(),
            out@.len() == i,
            forall|k: int| 0 <= k < i ==> (#[trigger] out@[k])@ == lowercase(terms@[k]@),
        decreases terms.len() - i,
    {
        out.push(to_lowercase(terms[i].as_str()));
        i = i + 1;
    }
    assert(texts(out@) == lowercase_all(texts(terms@)));
    out
}

impl FilterConfig {
    /// The same filter with every term in lowercase.
    pub fn lowercased(&self) -> (r: FilterConfig)
        ensures
            r@ == lowercase_filter(self@),
    {
        FilterConfig {
            title_contains_any: lowercase_terms(&self.title_contains_any),
            title_excludes_any: lowercase_terms(&self.title_excludes_any),
            location_contains_any: lowercase_terms(&self.location_contains_any),
        }
    }

    /// Whether the filter admits `title`, comparing title and terms exactly as given.
    pub fn admits_title(&self, title: &str) -> (r: bool)
        ensures
            r == admits_title(self@, title@),
    {
        if mentions_any_of(title, &self.title_excludes_any) {
            return false;
        }
        if self.title_contains_any.len() != 0 && !mentions_any_of(title, &self.title_contains_any) {
            return false;
        }
        true
    }

    /// Whether the filter admits `location`, comparing location and terms exactly as given.
    pub fn admits_location(&self, location: &str) -> (r: bool)
        ensures
            r == admits_location(self@, location@),
    {
        self.location_contains_any.len() == 0 || mentions_any_of(location, &self.location_contains_any)
    }

    /// Title part of the relevance filter: no excluded term and, if any
    /// are listed, at least one required term, compared case-insensitively.
    pub fn is_title_relevant(&self, title: &str) -> (r: bool)
        ensures
            r == title_relevant(self@, title@),
    {
        let lower = self.lowercased();
        let lower_title = to_lowercase(title);
        lower.admits_title(lower_title.as_str())
    }

    /// The full relevance filter: the title passes `is_title_relevant` and
    /// the location holds a location term, if any are listed.
    pub fn is_relevant(&self, title: &str, location: &str) -> (r: bool)
        ensures
            r == job_relevant(self@, title@, location@),
    {
        let lower = self.lowercased();
        let lower_title = to_lowercase(title);
        if !lower.admits_title(lower_title.as_str()) {
            return false;
        }
        if self.location_contains_any.len() != 0 {
            let lower_loc = to_lowercase(location);
            return lower.admits_location(lower_loc.as_str());
        }
        true
    }
}

/// Where results are written.
pub struct OutputConfig {
    /// Write all scraped jobs to this JSON file after each run.
    pub json_path: Option<String>,
}

impl Default for OutputConfig {
    fn default() -> (r: Self)
        ensures
            r.json_path.is_none(),
    {
        OutputConfig { json_path: None }
    }
}

/// What to search for and where.
pub struct SearchConfig {
    /// Keyword combos, e.g. ["clinical operations Basel", "global study manager Switzerland"]
    pub keywords: Vec<String>,
    /// Location filter appended to searches
    pub location: Option<String>,
    /// Workday-hosted company career portals to search.
    pub workday_companies: Vec<WorkdayCompany>,
    /// SmartRecruiters-hosted company career portals to search.
    pub smartrecruiters_companies: Vec<SmartRecruitersCompany>,
}

/// A company career portal hosted on Workday.
pub struct WorkdayCompany {
    /// Workday subdomain, e.g. "roche"
    pub company_id: String,
    /// Portal path segment, e.g. "roche-ext"
    pub portal: String,
    /// Human-readable label shown on the web page
    pub display_name: String,
    /// Workday instance version — most companies use "wd3", some "wd5"
    pub wd_instance: String,
}

/// The Workday instance used when a company entry names none.
pub fn default_wd_instance() -> (r: String)
    ensures
        r@ == "wd3"@,
{
    String::from_str("wd3")
}

/// A company career portal hosted on SmartRecruiters.
pub struct SmartRecruitersCompany {
    /// SmartRecruiters company identifier, e.g. "StraumannGroup1"
    pub company_id: String,
    /// Human-readable label shown on the web page
    pub display_name: String,
}

/// The filter does not look at case: titles, and locations, with the same
/// lowercase form get the same verdict.
pub proof fn law_filter_ignores_case(f: FilterView, t1: Seq<char>, t2: Seq<char>, l1: Seq<char>, l2: Seq<char>)
    requires
        lowercase(t1) == lowercase(t2),
        lowercase(l1) == lowercase(l2),
    ensures
        title_relevant(f, t1) == title_relevant(f, t2),
        job_relevant(f, t1, l1) == job_relevant(f, t2, l2),
{
}

/// What the relevance filter decides, in terms of the lowercase forms of
/// title, location and every term: a job passes exactly where its lowercase
/// title holds the lowercase form of no excluded term, holds that of some
/// required term (unless none is required), and its lowercase location holds
/// the lowercase form of some location term (unless none is given). A title
/// alone passes on the first two.
pub proof fn law_relevance_in_lowercase(f: FilterView, title: Seq<char>, location: Seq<char>)
    ensures
        title_relevant(f, title) <==> ((forall|k: int|
            0 <= k < f.title_excludes_any.len() ==> !contains_spec(
                lowercase(title),
                lowercase(#[trigger] f.title_excludes_any[k]),
            )) && (f.title_contains_any.len() == 0 || exists|k: int|
            0 <= k < f.title_contains_any.len() && contains_spec(
                lowercase(title),
                lowercase(#[trigger] f.title_contains_any[k]),
            ))),
        job_relevant(f, title, location) <==> (title_relevant(f, title) && (f.location_contains_any.len() == 0
            || exists|k: int|
            0 <= k < f.location_contains_any.len() && contains_spec(
                lowercase(location),
                lowercase(#[trigger] f.location_contains_any[k]),
            ))),
{
    let g = lowercase_filter(f);
    assert forall|k: int| 0 <= k < f.title_excludes_any.len() implies #[trigger] g.title_excludes_any[k] == lowercase(
        f.title_excludes_any[k],
    ) by {}
    assert forall|k: int| 0 <= k < f.title_contains_any.len() implies #[trigger] g.title_contains_any[k] == lowercase(
        f.title_contains_any[k],
    ) by {}
    assert forall|k: int|
        0 <= k < f.location_contains_any.len() implies #[trigger] g.location_contains_any[k] == lowercase(
        f.location_contains_any[k],
    ) by {}
    if mentions_any(lowercase(title), g.title_excludes_any) {
        let k = choose|k: int| 0 <= k < g.title_excludes_any.len() && contains_spec(lowercase(title), #[trigger] g.title_excludes_any[k]);
        assert(contains_spec(lowercase(title), lowercase(f.title_excludes_any[k])));
    }
    if exists|k: int|
        0 <= k < f.title_excludes_any.len() && contains_spec(lowercase(title), lowercase(#[trigger] f.title_excludes_any[k])) {
        let k = choose|k: int|
            0 <= k < f.title_excludes_any.len() && contains_spec(lowercase(title), lowercase(#[trigger] f.title_excludes_any[k]));
        assert(contains_spec(lowercase(title), g.title_excludes_any[k]));
    }
    if mentions_any(lowercase(title), g.title_contains_any) {
        let k = choose|k: int| 0 <= k < g.title_contains_any.len() && contains_spec(lowercase(title), #[trigger] g.title_contains_any[k]);
        assert(contains_spec(lowercase(title), lowercase(f.title_contains_any[k])));
    }
    if exists|k: int|
        0 <= k < f.title_contains_any.len() && contains_spec(lowercase(title), lowercase(#[trigger] f.title_contains_any[k])) {
        let k = choose|k: int|
            0 <= k < f.title_contains_any.len() && contains_spec(lowercase(title), lowercase(#[trigger] f.title_contains_any[k]));
        assert(contains_spec(lowercase(title), g.title_contains_any[k]));
    }
    if mentions_any(lowercase(location), g.location_contains_any) {
        let k = choose|k: int|
            0 <= k < g.location_contains_any.len() && contains_spec(lowercase(location), #[trigger] g.location_contains_any[k]);
        assert(contains_spec(lowercase(location), lowercase(f.location_contains_any[k])));
    }
    if exists|k: int|
        0 <= k < f.location_contains_any.len() && contains_spec(
            lowercase(location),
            lowercase(#[trigger] f.location_contains_any[k]),
        ) {
        let k = choose|k: int|
            0 <= k < f.location_contains_any.len() && contains_spec(
                lowercase(location),
                lowercase(#[trigger] f.location_contains_any[k]),
            );
        assert(contains_spec(lowercase(location), g.location_contains_any[k]));
    }
}

/// Location terms are compared in lowercase too: where the lowercase
/// location holds the lowercase form of a location term and the title
/// passes, the job passes, however the term and the location are written.
pub proof fn law_location_term_in_lowercase_admits(f: FilterView, title: Seq<char>, location: Seq<char>, k: int)
    requires
        0 <= k < f.location_contains_any.len(),
        contains_spec(lowercase(location), lowercase(f.location_contains_any[k])),
        title_relevant(f, title),
    ensures
        job_relevant(f, title, location),
{
    law_relevance_in_lowercase(f, title, location);
}

/// A title that holds an excluded term (both in lowercase) is dropped,
/// whatever its location and whatever the required terms.
pub proof fn law_excluded_term_drops(f: FilterView, title: Seq<char>, location: Seq<char>, k: int)
    requires
        0 <= k < f.title_excludes_any.len(),
        contains_spec(lowercase(title), lowercase(f.title_excludes_any[k])),
    ensures
        !title_relevant(f, title),
        !job_relevant(f, title, location),
{
    assert(lowercase_all(f.title_excludes_any)[k] == lowercase(f.title_excludes_any[k]));
}

/// A filter whose three lists are empty admits every job.
pub proof fn law_empty_filter_admits_all(f: FilterView, title: Seq<char>, location: Seq<char>)
    requires
        f.title_contains_any.len() == 0,
        f.title_excludes_any.len() == 0,
        f.location_contains_any.len() == 0,
    ensures
        job_relevant(f, title, location),
{
}

/// The full filter only narrows the title filter, and with no location
/// terms the two agree.
pub proof fn law_relevant_refines_title(f: FilterView, title: Seq<char>, location: Seq<char>)
    ensures
        job_relevant(f, title, location) ==> title_relevant(f, title),
        f.location_contains_any.len() == 0 ==> (job_relevant(f, title, location) == title_relevant(f, title)),
{
}

/// Adding an excluded term never lets through a job that was dropped.
pub proof fn law_more_exclusions_admit_less(f: FilterView, term: Seq<char>, title: Seq<char>, location: Seq<char>)
    ensures
        job_relevant(
            FilterView { title_excludes_any: f.title_excludes_any.push(term), ..f },
            title,
            location,
        ) ==> job_relevant(f, title, location),
{
    let g = FilterView { title_excludes_any: f.title_excludes_any.push(term), ..f };
    let lt = lowercase(title);
    if job_relevant(g, title, location) && mentions_any(lt, lowercase_all(f.title_excludes_any)) {
        let k = choose|k: int| 0 <= k < lowercase_all(f.title_excludes_any).len() && contains_spec(lt, #[trigger] lowercase_all(f.title_excludes_any)[k]);
        assert(lowercase_all(g.title_excludes_any)[k] == lowercase_all(f.title_excludes_any)[k]);
    }
}

/// Adding a required title term to a list that already has one never drops
/// a job that passed.
pub proof fn law_more_alternatives_admit_more(f: FilterView, term: Seq<char>, title: Seq<char>, location: Seq<char>)
    requires
        f.title_contains_any.len() > 0,
    ensures
        job_relevant(f, title, location) ==> job_relevant(
            FilterView { title_contains_any: f.title_contains_any.push(term), ..f },
            title,
            location,
        ),
{
    let g = FilterView { title_contains_any: f.title_contains_any.push(term), ..f };
    let lt = lowercase(title);
    if job_relevant(f, title, location) {
        let k = choose|k: int| 0 <= k < lowercase_all(f.title_contains_any).len() && contains_spec(lt, #[trigger] lowercase_all(f.title_contains_any)[k]);
        assert(lowercase_all(g.title_contains_any)[k] == lowercase_all(f.title_contains_any)[k]);
    }
}

} // verus!
