use pharma_job_alert::config::{Config, FilterConfig, OutputConfig, SearchConfig, WorkdayCompany};
use pharma_job_alert::models::{JobListing, Timestamp};
use pharma_job_alert::pipeline::{dedup_by_id, is_company_direct, keep_relevant, listing_passes, sources};
use pharma_job_alert::scrapers::run::Site;

fn job(id: &str, title: &str, location: &str, source: &str) -> JobListing {
    JobListing {
        id: id.to_string(),
        title: title.to_string(),
        company: "C".to_string(),
        location: location.to_string(),
        url: format!("https://x.example/{id}"),
        source: source.to_string(),
        posted_at: None,
        scraped_at: Timestamp { secs: 1, nanos: 0 },
        description_snippet: None,
    }
}

fn ids(v: &[JobListing]) -> Vec<String> {
    v.iter().map(|j| j.id.clone()).collect()
}

#[test]
fn dedup_keeps_first_of_each_id_in_order() {
    let v = vec![job("a", "1", "", "s"), job("b", "2", "", "s"), job("a", "3", "", "s"), job("c", "4", "", "s"), job("b", "5", "", "s")];
    let d = dedup_by_id(v);
    assert_eq!(ids(&d), vec!["a", "b", "c"]);
    assert_eq!(d[0].title, "1");
    assert_eq!(d[1].title, "2");
    let again = dedup_by_id(d);
    assert_eq!(ids(&again), vec!["a", "b", "c"]);
    assert!(dedup_by_id(vec![]).is_empty());
}

#[test]
fn company_direct_sources() {
    assert!(is_company_direct("Roche (Careers)"));
    assert!(is_company_direct("Bayer (Careers)"));
    assert!(is_company_direct("Bayer"));
    assert!(is_company_direct("CSL Vifor"));
    assert!(!is_company_direct("jobs.ch"));
    assert!(!is_company_direct("Pharmiweb"));
    assert!(!is_company_direct("bayer"));
}

#[test]
fn relevance_filter_trusts_company_sites_for_location() {
    let f = FilterConfig {
        title_contains_any: vec!["manager".to_string()],
        title_excludes_any: vec!["intern".to_string()],
        location_contains_any: vec!["basel".to_string()],
    };
    let v = vec![
        job("1", "Study Manager", "Boston", "Roche (Careers)"),
        job("2", "Study Manager", "Boston", "jobs.ch"),
        job("3", "Study Manager", "Basel", "jobs.ch"),
        job("4", "Manager Intern", "Basel", "CSL Vifor"),
        job("5", "Analyst", "Basel", "Pharmiweb"),
    ];
    assert!(listing_passes(&f, &v[0]));
    assert!(!listing_passes(&f, &v[1]));
    let kept = keep_relevant(v, &f);
    assert_eq!(ids(&kept), vec!["1", "3"]);
    let again = keep_relevant(kept, &f);
    assert_eq!(ids(&again), vec!["1", "3"]);
}

#[test]
fn sources_follow_configuration() {
    let config = Config {
        search: SearchConfig {
            keywords: vec!["cra".to_string()],
            location: None,
            workday_companies: vec![WorkdayCompany {
                company_id: "roche".to_string(),
                portal: "roche-ext".to_string(),
                display_name: "Roche".to_string(),
                wd_instance: "wd3".to_string(),
            }],
            smartrecruiters_companies: vec![],
        },
        output: OutputConfig::default(),
        filter: FilterConfig::default(),
    };
    let s = sources(&config);
    assert_eq!(s.len(), 5);
    assert!(matches!(s[0], Site::Pharmiweb(_)));
    assert!(matches!(s[1], Site::JobsCh(_)));
    assert!(matches!(s[2], Site::Bayer(_)));
    assert!(matches!(s[3], Site::CslVifor(_)));
    match &s[4] {
        Site::Workday(w) => {
            assert_eq!(w.company_id, "roche");
            assert_eq!(w.display_name, "Roche");
        },
        _ => panic!("expected a Workday source"),
    }
}

#[test]
fn dedup_and_filter_keep_scrape_times() {
    let mut a = job("a", "Clinical Lead", "Basel", "s");
    a.scraped_at = Timestamp { secs: 100, nanos: 7 };
    let mut a2 = job("a", "Clinical Lead", "Basel", "s");
    a2.scraped_at = Timestamp { secs: 200, nanos: 0 };
    let mut b = job("b", "Clinical Manager", "Zug", "s");
    b.scraped_at = Timestamp { secs: 300, nanos: 9 };
    let d = dedup_by_id(vec![a, a2, b]);
    assert_eq!(d[0].scraped_at, Timestamp { secs: 100, nanos: 7 });
    assert_eq!(d[1].scraped_at, Timestamp { secs: 300, nanos: 9 });
    let filter = FilterConfig {
        title_contains_any: vec!["clinical".to_string()],
        title_excludes_any: vec![],
        location_contains_any: vec!["zug".to_string()],
    };
    let kept = keep_relevant(d, &filter);
    assert_eq!(ids(&kept), vec!["b"]);
    assert_eq!(kept[0].scraped_at, Timestamp { secs: 300, nanos: 9 });
}
