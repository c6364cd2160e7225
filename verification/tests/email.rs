use pharma_job_alert::email::{
    build_html, build_text, choose_transport, decimal_text, digest_subject, html_escape, prepare_digest, render_html,
    render_text, EmailConfig, EmailError, Transport,
};
use pharma_job_alert::models::{JobListing, Timestamp};

fn job(title: &str, posted: Option<&str>, snippet: Option<&str>) -> JobListing {
    JobListing {
        id: "0123456789abcdef".to_string(),
        title: title.to_string(),
        company: "R&D <Co>".to_string(),
        location: "Basel".to_string(),
        url: "https://x.example/?a=1&b=2".to_string(),
        source: "jobs.ch".to_string(),
        posted_at: posted.map(|s| s.to_string()),
        scraped_at: Timestamp { secs: 0, nanos: 0 },
        description_snippet: snippet.map(|s| s.to_string()),
    }
}

fn config() -> EmailConfig {
    EmailConfig {
        to_address: "me@example.com".to_string(),
        from_address: "bot@example.com".to_string(),
        subject_prefix: None,
        sendgrid_api_key: None,
        smtp_host: None,
        smtp_port: None,
        smtp_username: None,
        smtp_password: None,
    }
}

#[test]
fn html_escape_replaces_the_four_special_characters() {
    assert_eq!(html_escape("a & b < c > d \" e ' f"), "a &amp; b &lt; c &gt; d &quot; e ' f");
    assert_eq!(html_escape("&amp;"), "&amp;amp;");
    assert_eq!(html_escape("&lt;&quot;"), "&amp;lt;&amp;quot;");
    assert_eq!(html_escape("plain text"), "plain text");
    let e = html_escape("<script>\"x\"</script>");
    assert!(!e.contains('<') && !e.contains('>') && !e.contains('"'));
}

#[test]
fn decimal_numbers() {
    assert_eq!(decimal_text(0), "0");
    assert_eq!(decimal_text(7), "7");
    assert_eq!(decimal_text(1234567890), "1234567890");
}

#[test]
fn subject_counts_jobs() {
    let mut c = config();
    assert_eq!(digest_subject(&c, 1), "[PharmaAlert] 1 new pharma job");
    assert_eq!(digest_subject(&c, 0), "[PharmaAlert] 0 new pharma jobs");
    c.subject_prefix = Some("[Jobs]".to_string());
    assert_eq!(digest_subject(&c, 12), "[Jobs] 12 new pharma jobs");
}

#[test]
fn text_digest_lists_every_job() {
    let t = render_text(&[job("CRA", None, None)], "2026-04-15");
    assert_eq!(
        t,
        "Daily Pharma Job Alert — 2026-04-15\n========================================\n\n• CRA\n  R&D <Co> | Basel | jobs.ch\n  https://x.example/?a=1&b=2\n\n"
    );
    assert_eq!(render_text(&[], "d"), "Daily Pharma Job Alert — d\n========================================\n\n");
}

#[test]
fn html_digest_escapes_fields_but_not_the_url() {
    let h = render_html(&[job("A <b>", None, Some("")), job("C", Some("1 day"), Some("Full time & more"))], "Wednesday, April 15 2026");
    assert!(h.starts_with("<!DOCTYPE html>\n<html>\n"));
    assert!(h.contains("Wednesday, April 15 2026 — 2 new listings</p>"));
    assert!(h.contains("<a href=\"https://x.example/?a=1&b=2\" style=\"font-size:15px;font-weight:600;color:#0a66c2;text-decoration:none;\">A &lt;b&gt;</a>\n    \n  </td>"));
    assert!(h.contains(">R&amp;D &lt;Co&gt;</td>"));
    assert!(h.contains("font-size:12px;\">—</td>"));
    assert!(h.contains("font-size:12px;\">1 day</td>"));
    assert!(h.contains("<br><span style=\"font-size:12px;color:#555;\">Full time &amp; more</span>"));
    assert_eq!(h.matches("<tr>").count(), 2);
    assert!(h.ends_with("</body>\n</html>"));
    let one = render_html(&[job("A", None, None)], "d");
    assert!(one.contains("d — 1 new listing</p>"));
}

#[test]
fn clock_dated_digests() {
    let h = build_html(&[job("A", None, None)]);
    assert!(h.contains(" — 1 new listing</p>"));
    let t = build_text(&[]);
    assert!(t.starts_with("Daily Pharma Job Alert — 20"));
}

#[test]
fn digest_dates_follow_their_formats() {
    let t = build_text(&[]);
    let date: Vec<char> = t["Daily Pharma Job Alert — ".len()..].chars().take(10).collect();
    assert!(date.iter().enumerate().all(|(i, c)| if i == 4 || i == 7 { *c == '-' } else { c.is_ascii_digit() }));
    let h = build_html(&[]);
    let months = ["January", "February", "March", "April", "May", "June", "July", "August", "September", "October", "November", "December"];
    let days = ["Sunday", "Monday", "Tuesday", "Wednesday", "Thursday", "Friday", "Saturday"];
    assert!(days.iter().any(|d| months.iter().any(|m| h.contains(&format!("{d}, {m} ")))));
}

#[test]
fn transport_prefers_sendgrid_then_smtp() {
    let mut c = config();
    assert!(matches!(choose_transport(&c), Err(EmailError::NoTransport)));
    assert!(matches!(prepare_digest(&c, &[]), Err(EmailError::NoTransport)));
    c.smtp_host = Some("smtp.example.com".to_string());
    match choose_transport(&c) {
        Ok(Transport::Smtp(s)) => {
            assert_eq!(s.host, "smtp.example.com");
            assert_eq!(s.port, 587);
            assert_eq!(s.username, "");
            assert_eq!(s.password, "");
        },
        _ => panic!("expected SMTP"),
    }
    c.smtp_port = Some(2525);
    c.smtp_username = Some("u".to_string());
    match choose_transport(&c) {
        Ok(Transport::Smtp(s)) => {
            assert_eq!(s.port, 2525);
            assert_eq!(s.username, "u");
        },
        _ => panic!("expected SMTP"),
    }
    c.sendgrid_api_key = Some("SG.key".to_string());
    match choose_transport(&c) {
        Ok(Transport::SendGrid { api_key }) => assert_eq!(api_key, "SG.key"),
        _ => panic!("expected SendGrid"),
    }
    let d = prepare_digest(&c, &[job("A", None, None)]).ok().unwrap();
    assert_eq!(d.subject, "[PharmaAlert] 1 new pharma job");
    assert!(d.text.contains("• A\n"));
}
