use pharma_job_alert::config::{default_wd_instance, FilterConfig};
use pharma_job_alert::text::{contains, ends_with, same_text, starts_with, trim, trim_end, trim_start};

fn strings(v: &[&str]) -> Vec<String> {
    v.iter().map(|s| s.to_string()).collect()
}

fn filter(required: &[&str], exclude: &[&str], locations: &[&str]) -> FilterConfig {
    FilterConfig {
        title_contains_any: strings(required),
        title_excludes_any: strings(exclude),
        location_contains_any: strings(locations),
    }
}

#[test]
fn trim_removes_unicode_white_space_at_both_ends() {
    assert_eq!(trim("  \t Manager\n"), "Manager");
    assert_eq!(trim("\u{a0}Basel\u{3000}"), "Basel");
    assert_eq!(trim("   "), "");
    assert_eq!(trim_start("  a b "), "a b ");
    assert_eq!(trim_end("  a b "), "  a b");
    assert_eq!(trim("a  b"), "a  b");
}

#[test]
fn substring_and_affix_checks() {
    assert!(contains("clinical operations manager", "operations"));
    assert!(!contains("clinical operations manager", "Operations"));
    assert!(contains("abc", ""));
    assert!(!contains("ab", "abc"));
    assert!(starts_with("https://x", "http"));
    assert!(!starts_with("/jobs/1", "http"));
    assert!(ends_with("Roche (Careers)", "(Careers)"));
    assert!(!ends_with("Careers", "(Careers)"));
    assert!(same_text("Bayer", "Bayer"));
    assert!(!same_text("Bayer", "bayer"));
}

#[test]
fn default_workday_instance_is_wd3() {
    assert_eq!(default_wd_instance(), "wd3");
}

#[test]
fn empty_filter_admits_everything() {
    let f = FilterConfig::default();
    assert!(f.is_relevant("Anything at all", "Mars"));
    assert!(f.is_title_relevant(""));
}

#[test]
fn title_filter_is_case_insensitive() {
    let f = filter(&["clinical"], &[], &[]);
    assert!(f.is_relevant("Senior CLINICAL Trial Manager", "Tokyo"));
    assert!(!f.is_relevant("Sales Representative", "Basel"));
    let g = filter(&["CLINICAL"], &[], &[]);
    assert!(g.is_relevant("clinical research associate", ""));
}

#[test]
fn excluded_term_drops_the_job() {
    let f = filter(&["manager"], &["intern"], &["basel"]);
    assert!(!f.is_relevant("Clinical Manager Internship", "Basel"));
    assert!(!f.is_title_relevant("INTERN manager"));
    assert!(f.is_relevant("Clinical Manager", "Basel-Stadt"));
}

#[test]
fn location_filter_needs_one_location_term() {
    let f = filter(&[], &[], &["switzerland", "basel", "zurich"]);
    assert!(f.is_relevant("Study Manager", "Zurich, ZH"));
    assert!(f.is_relevant("Study Manager", "BASEL"));
    assert!(!f.is_relevant("Study Manager", "Boston, MA"));
    // the title filter alone does not look at the location
    assert!(f.is_title_relevant("Study Manager"));
}

#[test]
fn full_filter_only_narrows_title_filter() {
    let f = filter(&["study"], &["director"], &["basel"]);
    for (title, loc) in [("Study Lead", "Basel"), ("Study Lead", "Paris"), ("Study Director", "Basel"), ("Sales", "Basel")] {
        if f.is_relevant(title, loc) {
            assert!(f.is_title_relevant(title));
        }
    }
    let g = filter(&["study"], &["director"], &[]);
    for title in ["Study Lead", "Study Director", "Sales"] {
        assert_eq!(g.is_relevant(title, "anywhere"), g.is_title_relevant(title));
    }
}

#[test]
fn more_exclusions_admit_less_and_more_alternatives_admit_more() {
    let base = filter(&["manager"], &[], &[]);
    let stricter = filter(&["manager"], &["senior"], &[]);
    let wider = filter(&["manager", "lead"], &[], &[]);
    for title in ["Senior Manager", "Manager", "Team Lead", "Analyst"] {
        if stricter.is_relevant(title, "") {
            assert!(base.is_relevant(title, ""));
        }
        if base.is_relevant(title, "") {
            assert!(wider.is_relevant(title, ""));
        }
    }
    assert!(wider.is_relevant("Team Lead", ""));
    assert!(!base.is_relevant("Team Lead", ""));
}

#[test]
fn lowercased_filter_holds_lowercase_terms() {
    let f = filter(&["Clinical"], &["INTERN"], &["Zürich"]);
    let l = f.lowercased();
    assert_eq!(l.title_contains_any, vec!["clinical".to_string()]);
    assert_eq!(l.title_excludes_any, vec!["intern".to_string()]);
    assert_eq!(l.location_contains_any, vec!["zürich".to_string()]);
    assert!(l.admits_title("clinical lead"));
    assert!(!l.admits_title("Clinical lead"));
    assert!(l.admits_location("zürich"));
}
