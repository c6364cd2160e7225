use pharma_job_alert::models::{JobListing, Timestamp};
use pharma_job_alert::scrapers::bayer::{map_sf_job, map_sf_jobs, parse_bayer_html, BayerScraper, SfJob, SfResponse};
use pharma_job_alert::scrapers::biospace::{parse_biospace, BiospaceScraper};
use pharma_job_alert::scrapers::cards::text_before_query;
use pharma_job_alert::scrapers::csl_vifor::{parse_csl, CslViforScraper};
use pharma_job_alert::scrapers::indeed::{parse_indeed, IndeedScraper};
use pharma_job_alert::scrapers::jobs_ch::{parse_jobs_ch, JobsChScraper};
use pharma_job_alert::scrapers::linkedin::{parse_linkedin, LinkedInScraper};
use pharma_job_alert::scrapers::make_id;
use pharma_job_alert::scrapers::pharmiweb::{parse_pharmiweb, PharmiwebScraper};
use pharma_job_alert::scrapers::smartrecruiters::{SmartRecruitersScraper, SrJob, SrLocation, SrResponse};
use pharma_job_alert::scrapers::workday::{search_body, strip_location_words, WorkdayJob, WorkdayResponse, WorkdayScraper};

fn s(x: &str) -> String {
    x.to_string()
}

fn o(x: &str) -> Option<String> {
    Some(x.to_string())
}

fn check(j: &JobListing, id_source: &str, title: &str, company: &str, location: &str, url: &str, source: &str, posted: Option<&str>) {
    assert_eq!(j.title, title);
    assert_eq!(j.company, company);
    assert_eq!(j.location, location);
    assert_eq!(j.url, url);
    assert_eq!(j.source, source);
    assert_eq!(j.posted_at.as_deref(), posted);
    assert_eq!(j.id, make_id(id_source, url));
}

#[test]
fn job_ids_are_16_hex_digits_of_sha256() {
    assert_eq!(make_id("jobs_ch", "https://www.jobs.ch/en/vacancies/detail/123/"), "6a369cf44185210d");
    assert_eq!(make_id("bayer", "https://career.bayer.com/en/jobs/R-1"), "af7c0ae15979c249");
    let id = make_id("x", "y");
    assert_eq!(id.len(), 16);
    assert!(id.chars().all(|c| c.is_ascii_hexdigit() && !c.is_ascii_uppercase()));
    assert_eq!(make_id("x", "y"), id);
    assert_ne!(make_id("x", "z"), id);
}

#[test]
fn search_urls_percent_encode_keyword_and_location() {
    assert_eq!(
        JobsChScraper.search_url("clinical operations Basel", None),
        "https://www.jobs.ch/en/vacancies/?term=clinical%20operations%20Basel&location=Basel"
    );
    assert_eq!(
        PharmiwebScraper.search_url("QA & RA", Some("Zürich")),
        "https://www.pharmiweb.jobs/jobs/?keywords=QA%20%26%20RA&location=Z%C3%BCrich"
    );
    assert_eq!(
        IndeedScraper.search_url("study manager", None),
        "https://ch.indeed.com/jobs?q=study%20manager&l=Switzerland&fromage=1&sort=date"
    );
    assert_eq!(
        LinkedInScraper.search_url("cra", Some("Basel")),
        "https://www.linkedin.com/jobs/search/?keywords=cra&location=Basel&f_TPR=r86400&sortBy=DD"
    );
    assert_eq!(BiospaceScraper.search_url("a-b_c.d~e", None), "https://jobs.biospace.com/jobs/?q=a-b_c.d~e&location=Switzerland");
    assert_eq!(
        CslViforScraper.search_url("qa", Some("ignored")),
        "https://jobs.csl.com/en/jobs?filterrific%5Bsearch_by_title_and_description%5D=qa&filterrific%5Bwith_location3%5D=switzerland"
    );
    assert_eq!(
        BayerScraper.api_url("medical affairs", None),
        "https://career.bayer.com/api/jobSearch?query=medical%20affairs&location=Basel&pageSize=20&pageNumber=1"
    );
    assert_eq!(BayerScraper.html_url("x", Some("Berlin")), "https://career.bayer.com/en/jobs.html?search=x&location=Berlin");
}

const JOBS_CH_PAGE: &str = r#"<html><body>
<div data-cy="serp-item">
  <a data-cy="job-link" title="  Clinical Trial Manager " href="/en/vacancies/detail/123/">x</a>
  <p class="fw_bold"> Roche </p>
  <p class="mb_s12"> Basel </p>
  <p class="white-space_nowrap"> 2 days ago </p>
</div>
<div data-cy="serp-item">
  <a data-cy="job-link" href="/en/vacancies/detail/999/">no title</a>
</div>
<div data-cy="serp-item">
  <a data-cy="job-link" title="Study Lead" href="https://elsewhere.example/job">x</a>
</div>
</body></html>"#;

#[test]
fn jobs_ch_page_gives_one_listing_per_titled_card() {
    let jobs = parse_jobs_ch(JOBS_CH_PAGE);
    assert_eq!(jobs.len(), 2);
    check(&jobs[0], "jobs_ch", "Clinical Trial Manager", "Roche", "Basel", "https://www.jobs.ch/en/vacancies/detail/123/", "jobs.ch", Some("2 days ago"));
    assert_eq!(jobs[0].id, "6a369cf44185210d");
    check(&jobs[1], "jobs_ch", "Study Lead", "Unknown", "", "https://elsewhere.example/job", "jobs.ch", None);
    assert!(jobs[0].description_snippet.is_none());
}

#[test]
fn pharmiweb_card_reads_link_of_title() {
    let page = r#"<div class="job-search-result"><h2><a href="/job/7"> QA Lead </a></h2><span class="company">Novartis</span><span class="location"> Basel </span><time> 1 May </time></div>
<li class="job-item"><h3><a href="/job/8">RA</a></h3></li>"#;
    let jobs = parse_pharmiweb(page);
    assert_eq!(jobs.len(), 2);
    check(&jobs[0], "pharmiweb", "QA Lead", "Novartis", "Basel", "https://www.pharmiweb.jobs/job/7", "Pharmiweb", Some("1 May"));
    check(&jobs[1], "pharmiweb", "RA", "Unknown", "", "https://www.pharmiweb.jobs/job/8", "Pharmiweb", None);
}

#[test]
fn biospace_trims_links() {
    let page = r#"<ul><li class="lister__item"><h3 class="lister__header"><a class="js-clickable-area-link" href="  /job/5  "><span> Scientist </span></a></h3>
<ul><li class="lister__meta-item--recruiter">Lonza</li><li class="lister__meta-item--location">Visp</li></ul>
<ul><li class="job-actions__action pipe"> new </li></ul></li></ul>"#;
    let jobs = parse_biospace(page);
    assert_eq!(jobs.len(), 1);
    check(&jobs[0], "biospace", "Scientist", "Lonza", "Visp", "https://jobs.biospace.com/job/5", "BioSpace", Some("new"));
}

#[test]
fn indeed_reads_separate_link() {
    let page = r#"<div class="job_seen_beacon"><h2 class="jobTitle"><a href="/rc/clk?jk=1"><span title="x">Data Manager</span></a></h2>
<span class="companyName">Takeda</span><div class="companyLocation">Zurich</div><span class="date">Today</span></div>"#;
    let jobs = parse_indeed(page);
    assert_eq!(jobs.len(), 1);
    check(&jobs[0], "indeed", "Data Manager", "Takeda", "Zurich", "https://ch.indeed.com/rc/clk?jk=1", "Indeed CH", Some("Today"));
}

#[test]
fn linkedin_drops_query_and_needs_a_link() {
    let page = r#"<div class="base-card"><h3 class="base-search-card__title"> CRA II </h3>
<h4 class="base-search-card__subtitle"> IQVIA </h4><span class="job-search-card__location">Basel</span>
<a class="base-card__full-link" href="https://ch.linkedin.com/jobs/view/42?refId=abc&trk=x"></a><time datetime=" 2026-04-15 ">1 day</time></div>
<div class="base-card"><h3 class="base-search-card__title">No link</h3></div>
<div class="base-card"><h3 class="base-search-card__title">Only query</h3><a class="base-card__full-link" href="?x=1"></a></div>"#;
    let jobs = parse_linkedin(page);
    assert_eq!(jobs.len(), 1);
    check(&jobs[0], "linkedin", "CRA II", "IQVIA", "Basel", "https://ch.linkedin.com/jobs/view/42", "LinkedIn", Some(" 2026-04-15 "));
    assert_eq!(jobs[0].id, "7d75b615a89667ab");
    assert_eq!(text_before_query("a?b?c"), "a");
    assert_eq!(text_before_query("abc"), "abc");
}

#[test]
fn csl_skips_cards_without_link_and_fills_defaults() {
    let page = r#"<div class="job"><h2><a href=" /en/jobs/9 ">Plasma Scientist</a></h2></div>
<div class="job"><h2><a>No href</a></h2></div>
<div class="vacancy"><h3><a href="https://other.example/1">Abs</a></h3><span class="company">CSL Behring</span><span class="city">Bern</span><time>today</time></div>"#;
    let jobs = parse_csl(page);
    assert_eq!(jobs.len(), 2);
    check(&jobs[0], "csl_vifor", "Plasma Scientist", "CSL Vifor", "Switzerland", "https://jobs.csl.com/en/jobs/9", "CSL Vifor", None);
    check(&jobs[1], "csl_vifor", "Abs", "CSL Behring", "Bern", "https://other.example/1", "CSL Vifor", Some("today"));
}

#[test]
fn bayer_html_page() {
    let page = r#"<div class="jobCard-x"><h3> Medical Advisor </h3><a href="/en/jobs/R-1">more</a><span class="city">Basel</span></div>"#;
    let jobs = parse_bayer_html(page);
    assert_eq!(jobs.len(), 1);
    check(&jobs[0], "bayer", "Medical Advisor", "Bayer", "Basel", "https://career.bayer.com/en/jobs/R-1", "Bayer (Careers)", None);
}

#[test]
fn empty_page_gives_no_listings() {
    assert!(parse_jobs_ch("").is_empty());
    assert!(parse_linkedin("<html></html>").is_empty());
}

fn sf(title: Option<&str>, id: Option<&str>, url: Option<&str>) -> SfJob {
    SfJob {
        title: title.map(s),
        job_id: id.map(s),
        company_name: None,
        location: None,
        posting_date: Some(s("2026-04-01")),
        apply_url: url.map(s),
    }
}

#[test]
fn bayer_postings_come_from_first_non_empty_list() {
    let r = SfResponse { job_postings: vec![], results: vec![sf(Some("A"), None, None)], data: vec![sf(Some("B"), None, None)] };
    let jobs = r.jobs();
    assert_eq!(jobs.len(), 1);
    assert_eq!(jobs[0].title.as_deref(), Some("A"));
    let r = SfResponse { job_postings: vec![], results: vec![], data: vec![sf(Some("B"), None, None)] };
    assert_eq!(r.jobs()[0].title.as_deref(), Some("B"));
}

#[test]
fn bayer_posting_url_falls_back_to_id_then_list() {
    let j = map_sf_job(sf(Some("  Medical Advisor "), Some("R-1"), None)).unwrap();
    check(&j, "bayer", "Medical Advisor", "Bayer", "", "https://career.bayer.com/en/jobs/R-1", "Bayer (Careers)", Some("2026-04-01"));
    let j = map_sf_job(sf(Some("X"), None, None)).unwrap();
    assert_eq!(j.url, "https://career.bayer.com/en/jobs");
    let j = map_sf_job(sf(Some("X"), Some("R-2"), Some("https://apply.example/1"))).unwrap();
    assert_eq!(j.url, "https://apply.example/1");
    assert!(map_sf_job(sf(None, Some("R-3"), None)).is_none());
    assert!(map_sf_job(sf(Some("   "), Some("R-3"), None)).is_none());
    let all = map_sf_jobs(vec![sf(Some("A"), Some("1"), None), sf(None, None, None), sf(Some("B"), Some("2"), None)]);
    assert_eq!(all.iter().map(|j| j.title.clone()).collect::<Vec<_>>(), vec![s("A"), s("B")]);
}

fn roche() -> WorkdayScraper {
    WorkdayScraper { company_id: s("roche"), portal: s("roche-ext"), display_name: s("Roche"), wd_instance: s("wd3") }
}

#[test]
fn workday_urls_and_body() {
    let w = roche();
    assert_eq!(w.api_url(), "https://roche.wd3.myworkdayjobs.com/wday/cxs/roche/roche-ext/jobs");
    assert_eq!(w.apply_base(), "https://roche.wd3.myworkdayjobs.com/roche-ext");
    assert_eq!(
        search_body("clinical \"ops\"\\\n\u{1}"),
        "{\"appliedFacets\":{},\"limit\":20,\"locationSearchText\":\"Switzerland\",\"offset\":0,\"searchText\":\"clinical \\\"ops\\\"\\\\\\n\\u0001\"}"
    );
    let v: serde_json::Value = serde_json::from_str(&search_body("a \"b\" ü")).unwrap();
    assert_eq!(v["searchText"], "a \"b\" ü");
    assert_eq!(v["limit"], 20);
}

#[test]
fn location_words_are_stripped_as_whole_words() {
    assert_eq!(strip_location_words("clinical operations Basel"), "clinical operations");
    assert_eq!(strip_location_words("global study manager Switzerland"), "global study manager");
    assert_eq!(strip_location_words("Basel study manager"), "study manager");
    assert_eq!(strip_location_words("pharma regulatory Zürich"), "regulatory");
    assert_eq!(strip_location_words("Baselland jobs"), "Baselland jobs");
    assert_eq!(strip_location_words("  zug  "), "");
    assert_eq!(strip_location_words("Basel"), "");
}

#[test]
fn workday_postings_become_listings() {
    let w = roche();
    let resp = WorkdayResponse {
        job_postings: vec![WorkdayJob {
            title: s("Manager"),
            external_path: s("/job/Basel/Manager_R1"),
            locations_text: o("Basel"),
            posted_on: o("Posted Today"),
            bullet_fields: vec![s("R1"), s("Full time")],
        }, WorkdayJob {
            title: s("Analyst"),
            external_path: s("/job/Kaiseraugst/Analyst_R2"),
            locations_text: None,
            posted_on: None,
            bullet_fields: vec![],
        }],
    };
    let jobs = w.map_jobs(resp);
    assert_eq!(jobs.len(), 2);
    check(&jobs[0], "Roche", "Manager", "Roche", "Basel", "https://roche.wd3.myworkdayjobs.com/roche-ext/job/Basel/Manager_R1", "Roche (Careers)", Some("Posted Today"));
    assert_eq!(jobs[0].id, "287339427022ec04");
    assert_eq!(jobs[0].description_snippet.as_deref(), Some("R1 · Full time"));
    assert_eq!(jobs[1].location, "");
    assert!(jobs[1].description_snippet.is_none());
}

#[test]
fn smartrecruiters_postings_become_listings() {
    let sr = SmartRecruitersScraper { company_id: s("StraumannGroup1"), display_name: s("Straumann") };
    assert_eq!(
        sr.search_url("dental QA"),
        "https://api.smartrecruiters.com/v1/companies/StraumannGroup1/postings?keyword=dental%20QA&country=CH&limit=100"
    );
    let job = |name: Option<&str>, id: Option<&str>, r: Option<&str>| SrJob {
        id: id.map(s),
        name: name.map(s),
        released_date: o("2026-04-15T08:00:00.000Z"),
        location: Some(SrLocation { city: o("Basel"), country: o("ch"), region: o("") }),
        job_ref: r.map(s),
    };
    let jobs = sr.map_jobs(SrResponse {
        content: vec![
            job(Some("QA Specialist"), Some("77"), Some("")),
            job(Some(""), Some("78"), None),
            job(Some("No url"), None, None),
            job(Some("Ref"), Some("79"), Some("https://ref.example/79")),
        ],
    });
    assert_eq!(jobs.len(), 2);
    check(&jobs[0], "Straumann", "QA Specialist", "Straumann", "Basel, ch", "https://jobs.smartrecruiters.com/StraumannGroup1/77", "Straumann (Careers)", Some("2026-04-15"));
    assert_eq!(jobs[0].id, "66ae0667e1a8488b");
    assert_eq!(jobs[1].url, "https://ref.example/79");
    let short = sr.map_job(SrJob { id: o("1"), name: o("T"), released_date: o("2026"), location: None, job_ref: None }).unwrap();
    assert_eq!(short.posted_at.as_deref(), Some("2026"));
    assert_eq!(short.location, "");
}

#[test]
fn timestamps_are_recent() {
    let j = map_sf_job(sf(Some("A"), None, None)).unwrap();
    let Timestamp { secs, nanos } = j.scraped_at;
    assert!(secs > 1_600_000_000);
    assert!(nanos < 1_000_000_000);
}

#[test]
fn removing_a_word_inside_keeps_one_space_between_its_neighbours() {
    assert_eq!(strip_location_words("clinical Basel operations"), "clinical operations");
    assert_eq!(strip_location_words("QA Zug lead"), "QA lead");
    assert_eq!(strip_location_words("QA Zuger"), "QA Zuger");
    assert_eq!(strip_location_words("medical  Geneva \t affairs"), "medical  \t affairs");
}

#[test]
fn only_spaces_separate_words_and_other_spacing_stays() {
    // a tab is no boundary: "x\tBasel" is one word
    assert_eq!(strip_location_words("x\tBasel"), "x\tBasel");
    assert_eq!(strip_location_words("x\tBasel Zug"), "x\tBasel");
    // two spaces between kept words stay two
    assert_eq!(strip_location_words("clinical  operations"), "clinical  operations");
    assert_eq!(strip_location_words("clinical  operations Basel"), "clinical  operations");
    assert_eq!(strip_location_words("a  Basel  b"), "a   b");
    // the ends are trimmed as str::trim does
    assert_eq!(strip_location_words("\tclinical Basel\n"), "clinical Basel");
    // a run with a tab in it is no location word, though trimming may leave one
    assert_eq!(strip_location_words("Basel \tZug"), "Zug");
}

#[test]
fn search_body_escapes_control_characters() {
    let b = search_body("a\tb\u{1}\\");
    assert!(b.ends_with("\"searchText\":\"a\\tb\\u0001\\\\\"}"));
}

#[test]
fn every_whole_word_occurrence_goes_in_any_case() {
    assert_eq!(strip_location_words("Baseline Basel"), "Baseline");
    assert_eq!(strip_location_words("basel QA BASEL lead Basel"), "QA lead");
    assert_eq!(strip_location_words("ZÜRICH Pharma GENF allschwil"), "");
    assert_eq!(strip_location_words("Genfer Zugang pharmacist"), "Genfer Zugang pharmacist");
}

#[test]
fn keyword_whose_lowercase_is_longer_keeps_its_words() {
    // 'İ' lowercases to two characters; words are compared whole, so nothing shifts
    assert_eq!(strip_location_words("İİİİZug"), "İİİİZug");
    assert_eq!(strip_location_words("İİ Zug"), "İİ");
}

#[test]
fn id_from_digest_takes_first_eight_bytes() {
    let digest = [0xde, 0xad, 0xbe, 0xef, 0x00, 0x01, 0x02, 0x03, 0xff, 0xff];
    assert_eq!(pharma_job_alert::scrapers::id_from_digest(&digest), "deadbeef00010203");
}

#[test]
fn encoded_search_text_is_url_safe() {
    let url = JobsChScraper.search_url("R&D #1 = 50% ? / Zürich", Some("a b&c"));
    let query = url.strip_prefix("https://www.jobs.ch/en/vacancies/?term=").unwrap();
    let (term, loc) = query.split_once("&location=").unwrap();
    assert_eq!(term, "R%26D%20%231%20%3D%2050%25%20%3F%20%2F%20Z%C3%BCrich");
    assert_eq!(loc, "a%20b%26c");
    for c in term.chars().chain(loc.chars()) {
        assert!(c.is_ascii_alphanumeric() || "-._~%".contains(c));
    }
}
