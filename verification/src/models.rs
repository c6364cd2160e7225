use vstd::prelude::*;

verus! {

/// An instant as seconds and nanoseconds since 1970-01-01T00:00:00Z.
#[derive(Clone, Copy, Debug, PartialEq, Eq)]
pub struct Timestamp {
    pub secs: i64,
    pub nanos: u32,
}

/// Calls `chrono::Utc::now`, the current time, and hands it out as its Unix
/// seconds and sub-second nanoseconds. Nothing is claimed of the value, which
/// is the clock's; chrono panics only where the clock reads before 1970.
#[verifier::external_body]
pub(crate) fn utc_now() -> Timestamp {
    let now = chrono::Utc::now();
    Timestamp { secs: now.timestamp(), nanos: now.timestamp_subsec_nanos() }
}

/// One job posting found by a scraper.
pub struct JobListing {
    /// Stable unique ID: 16 hex digits of the SHA-256 of "source|url"
    pub id: String,
    pub title: String,
    pub company: String,
    pub location: String,
    pub url: String,
    pub source: String,
    pub posted_at: Option<String>,
    /// When the listing was scraped
    pub scraped_at: Timestamp,
    pub description_snippet: Option<String>,
}

/// The characters of an optional string.
pub open spec fn opt_text(o: Option<String>) -> Option<Seq<char>> {
    match o {
        Some(s) => Some(s@),
        None => None,
    }
}

/// A listing as text: every field but the scrape time, which is the clock's.
pub struct ListingView {
    pub id: Seq<char>,
    pub title: Seq<char>,
    pub company: Seq<char>,
    pub location: Seq<char>,
    pub url: Seq<char>,
    pub source: Seq<char>,
    pub posted_at: Option<Seq<char>>,
    pub description_snippet: Option<Seq<char>>,
}

impl View for JobListing {
    type V = ListingView;

    open spec fn view(&self) -> ListingView {
        ListingView {
            id: self.id@,
            title: self.title@,
            company: self.company@,
            location: self.location@,
            url: self.url@,
            source: self.source@,
            posted_at: opt_text(self.posted_at),
            description_snippet: opt_text(self.description_snippet),
        }
    }
}

/// The views of a list of listings.
pub open spec fn listings_view(v: Seq<JobListing>) -> Seq<ListingView> {
    v.map_values(|j: JobListing| j@)
}

/// The value, if any, as a sequence of zero or one.
pub open spec fn opt_seq<A>(o: Option<A>) -> Seq<A> {
    match o {
        Some(a) => seq![a],
        None => Seq::empty(),
    }
}

/// The values present in `s`, in order.
pub open spec fn keep_some<A>(s: Seq<Option<A>>) -> Seq<A>
    decreases s.len(),
{
    if s.len() == 0 {
        Seq::empty()
    } else {
        keep_some(s.drop_last()) + opt_seq(s.last())
    }
}

/// Extending `s` by one entry extends `keep_some(s)` by that entry's value, if any.
pub proof fn lemma_keep_some_push<A>(s: Seq<Option<A>>, o: Option<A>)
    ensures
        keep_some(s.push(o)) == keep_some(s) + opt_seq(o),
{
    assert(s.push(o).drop_last() == s);
}

} // verus!
