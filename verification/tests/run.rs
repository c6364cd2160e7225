use pharma_job_alert::scrapers::bayer::{BayerScraper, SfJob, SfResponse};
use pharma_job_alert::scrapers::jobs_ch::JobsChScraper;
use pharma_job_alert::scrapers::pharmiweb::PharmiwebScraper;
use pharma_job_alert::scrapers::run::{Action, Expect, Method, Reply, ScrapeError, ScrapeRun, Site, Stage};
use pharma_job_alert::scrapers::workday::{WorkdayResponse, WorkdayScraper};

const PAGE: &str = r#"<div data-cy="serp-item"><a data-cy="job-link" title="CRA" href="/en/1/">x</a></div>"#;

fn kws(v: &[&str]) -> Vec<String> {
    v.iter().map(|s| s.to_string()).collect()
}

fn fetch_url(a: &Action) -> String {
    match a {
        Action::Fetch(r) => r.url.clone(),
        _ => panic!("expected a request"),
    }
}

#[test]
fn board_scrape_goes_keyword_by_keyword() {
    let mut run = ScrapeRun::new(Site::JobsCh(JobsChScraper), kws(&["cra", "qa"]), None);
    let a = run.resume();
    assert_eq!(fetch_url(&a), "https://www.jobs.ch/en/vacancies/?term=cra&location=Basel");
    match &a {
        Action::Fetch(r) => {
            assert_eq!(r.method, Method::Get);
            assert_eq!(r.expect, Expect::Text);
            assert!(r.body.is_none());
        },
        _ => unreachable!(),
    }
    // the first keyword's page gives one listing, then the board pauses
    let a = run.on_reply(Reply::Text(PAGE.to_string()));
    assert!(matches!(a, Action::Sleep(1000)));
    assert_eq!(run.jobs.len(), 1);
    assert_eq!(run.stage, Stage::Ready);
    let a = run.resume();
    assert_eq!(fetch_url(&a), "https://www.jobs.ch/en/vacancies/?term=qa&location=Basel");
    // a failed request gives nothing and does not end the scrape
    let a = run.on_reply(Reply::Failed);
    match a {
        Action::Done(Ok(jobs)) => {
            assert_eq!(jobs.len(), 1);
            assert_eq!(jobs[0].title, "CRA");
        },
        _ => panic!("expected the end of the scrape"),
    }
}

#[test]
fn unreadable_page_ends_the_scrape_with_an_error() {
    let mut run = ScrapeRun::new(Site::Pharmiweb(PharmiwebScraper), kws(&["a", "b"]), Some("Basel".to_string()));
    let a = run.resume();
    assert_eq!(fetch_url(&a), "https://www.pharmiweb.jobs/jobs/?keywords=a&location=Basel");
    // Pharmiweb makes no pause: the next request follows at once
    let a = run.on_reply(Reply::Rejected(503));
    assert_eq!(fetch_url(&a), "https://www.pharmiweb.jobs/jobs/?keywords=b&location=Basel");
    let a = run.on_reply(Reply::Unreadable);
    assert!(matches!(a, Action::Done(Err(ScrapeError::BodyUnreadable))));
}

#[test]
fn bayer_falls_back_to_html_search() {
    let mut run = ScrapeRun::new(Site::Bayer(BayerScraper), kws(&["cra"]), None);
    let a = run.resume();
    match &a {
        Action::Fetch(r) => {
            assert_eq!(r.expect, Expect::BayerJson);
            assert_eq!(r.headers, vec![("Accept".to_string(), "application/json".to_string())]);
        },
        _ => panic!(),
    }
    let a = run.on_reply(Reply::Undecodable);
    assert_eq!(fetch_url(&a), "https://career.bayer.com/en/jobs.html?search=cra&location=Basel");
    assert_eq!(run.stage, Stage::WaitingFallback);
    let a = run.on_reply(Reply::Rejected(404));
    assert!(matches!(a, Action::Sleep(900)));
    assert!(run.jobs.is_empty());
    assert!(matches!(run.resume(), Action::Done(Ok(_))));

    let mut run = ScrapeRun::new(Site::Bayer(BayerScraper), kws(&["cra"]), None);
    run.resume();
    let resp = SfResponse {
        job_postings: vec![SfJob {
            title: Some("Advisor".to_string()),
            job_id: Some("R-1".to_string()),
            company_name: None,
            location: None,
            posting_date: None,
            apply_url: None,
        }],
        results: vec![],
        data: vec![],
    };
    assert!(matches!(run.on_reply(Reply::Bayer(resp)), Action::Sleep(900)));
    assert_eq!(run.jobs[0].url, "https://career.bayer.com/en/jobs/R-1");
}

#[test]
fn workday_skips_keywords_with_only_location_words() {
    let w = WorkdayScraper {
        company_id: "roche".to_string(),
        portal: "roche-ext".to_string(),
        display_name: "Roche".to_string(),
        wd_instance: "wd3".to_string(),
    };
    let mut run = ScrapeRun::new(Site::Workday(w), kws(&["Basel", "pharma Zug", "clinical Basel"]), None);
    let a = run.resume();
    assert_eq!(run.next, 2);
    match &a {
        Action::Fetch(r) => {
            assert_eq!(r.method, Method::Post);
            assert_eq!(r.url, "https://roche.wd3.myworkdayjobs.com/wday/cxs/roche/roche-ext/jobs");
            assert!(r.body.as_deref().unwrap().ends_with("\"searchText\":\"clinical\"}"));
            assert_eq!(r.expect, Expect::WorkdayJson);
        },
        _ => panic!(),
    }
    assert!(matches!(run.on_reply(Reply::Workday(WorkdayResponse { job_postings: vec![] })), Action::Sleep(800)));
    assert!(matches!(run.resume(), Action::Done(Ok(v)) if v.is_empty()));
}

#[test]
fn workday_searches_a_keyword_whose_lowercase_is_longer() {
    let w = WorkdayScraper {
        company_id: "jj".to_string(),
        portal: "JJ".to_string(),
        display_name: "J&J".to_string(),
        wd_instance: "wd5".to_string(),
    };
    let mut run = ScrapeRun::new(Site::Workday(w), kws(&["İİİİ Zug"]), None);
    match run.resume() {
        Action::Fetch(r) => {
            assert!(r.body.as_deref().unwrap().ends_with("\"searchText\":\"İİİİ\"}"));
        },
        _ => panic!(),
    }
    assert_eq!(run.stage, Stage::Waiting);
}
