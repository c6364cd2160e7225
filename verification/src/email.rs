use vstd::prelude::*;

use crate::text::text_or;

use crate::models::{opt_text, JobListing, ListingView};
use crate::text::{chars_of, push_char, push_str};

verus! {

/// Settings of the daily digest mail.
pub struct EmailConfig {
    pub to_address: String,
    pub from_address: String,
    /// Put in front of the subject; "[PharmaAlert]" where none is given
    pub subject_prefix: Option<String>,
    /// Mail goes through SendGrid's API where a key is given
    pub sendgrid_api_key: Option<String>,
    /// Otherwise through this SMTP relay
    pub smtp_host: Option<String>,
    pub smtp_port: Option<u16>,
    pub smtp_username: Option<String>,
    pub smtp_password: Option<String>,
}

/// The decimal digit of a value below 10.
pub open spec fn digit_char(d: int) -> char {
    seq!['0', '1', '2', '3', '4', '5', '6', '7', '8', '9'][d]
}

/// A number in decimal, without leading zeros.
pub open spec fn decimal(n: nat) -> Seq<char>
    decreases n,
{
    if n < 10 {
        seq![digit_char(n as int)]
    } else {
        decimal(n / 10) + seq![digit_char((n % 10) as int)]
    }
}

/// A number in decimal, as `{}` formats it.
pub fn decimal_text(n: usize) -> (r: String)
    ensures
        r@ == decimal(n as nat),
    decreases n,
{
    let digits = ['0', '1', '2', '3', '4', '5', '6', '7', '8', '9'];
    assert(digits@ == seq!['0', '1', '2', '3', '4', '5', '6', '7', '8', '9']);
    if n < 10 {
        let mut s = String::new();
        push_char(&mut s, digits[n]);
        s
    } else {
        let mut s = decimal_text(n / 10);
        push_char(&mut s, digits[n % 10]);
        s
    }
}

/// "" for one item, "s" otherwise.
pub open spec fn plural_s(n: nat) -> Seq<char> {
    if n == 1 {
        Seq::empty()
    } else {
        seq!['s']
    }
}

/// The digest's subject: the prefix ("[PharmaAlert]" where none is given),
/// then "N new pharma job" or "jobs".
pub open spec fn digest_subject_text(prefix: Option<Seq<char>>, count: nat) -> Seq<char> {
    (match prefix {
        Some(p) => p,
        None => "[PharmaAlert]"@,
    }) + " "@ + decimal(count) + " new pharma job"@ + plural_s(count)
}

/// The subject of a digest: the configured prefix ("[PharmaAlert]" where
/// none is given), a space, the number of jobs in decimal, and " new pharma
/// job", with an "s" unless there is exactly one.
pub proof fn law_digest_subject(prefix: Option<Seq<char>>, count: nat)
    ensures
        prefix matches Some(p) ==> (count == 1 ==> digest_subject_text(prefix, count) == p + " "@ + decimal(count)
            + " new pharma job"@),
        prefix matches Some(p) ==> (count != 1 ==> digest_subject_text(prefix, count) == p + " "@ + decimal(count)
            + " new pharma job"@ + seq!['s']),
        prefix is None ==> digest_subject_text(prefix, count) == digest_subject_text(Some("[PharmaAlert]"@), count),
{
    let e = Seq::<char>::empty();
    assert(forall|x: Seq<char>| #[trigger] (x + e) == x);
}

/// The subject of a digest of `count` jobs.
pub fn digest_subject(config: &EmailConfig, count: usize) -> (r: String)
    ensures
        r@ == digest_subject_text(opt_text(config.subject_prefix), count as nat),
{
    let mut s = match &config.subject_prefix {
        Some(p) => p.clone(),
        None => String::from_str("[PharmaAlert]"),
    };
    push_str(&mut s, " ");
    let n = decimal_text(count);
    push_str(&mut s, n.as_str());
    push_str(&mut s, " new pharma job");
    if count != 1 {
        push_char(&mut s, 's');
    }
    s
}

/// A character as HTML text: `&`, `<`, `>` and `"` as entities.
pub open spec fn html_char(c: char) -> Seq<char> {
    if c == '&' {
        "&amp;"@
    } else if c == '<' {
        "&lt;"@
    } else if c == '>' {
        "&gt;"@
    } else if c == '"' {
        "&quot;"@
    } else {
        seq![c]
    }
}

/// A text as HTML text, each character as `html_char` writes it.
pub open spec fn html_escaped(s: Seq<char>) -> Seq<char>
    decreases s.len(),
{
    if s.len() == 0 {
        Seq::empty()
    } else {
        html_escaped(s.drop_last()) + html_char(s.last())
    }
}

/// `t` begins with the characters `e`.
pub open spec fn begins_with(t: Seq<char>, e: Seq<char>) -> bool {
    e.len() <= t.len() && t.subrange(0, e.len() as int) == e
}

/// The text that HTML text `t` stands for, read from left to right: the
/// entities `&amp;`, `&lt;`, `&gt;` and `&quot;` as the characters they name,
/// every other character as itself.
pub open spec fn html_unescaped(t: Seq<char>) -> Seq<char>
    decreases t.len(),
{
    if t.len() == 0 {
        Seq::empty()
    } else if begins_with(t, seq!['&', 'a', 'm', 'p', ';']) {
        seq!['&'] + html_unescaped(t.subrange(5, t.len() as int))
    } else if begins_with(t, seq!['&', 'l', 't', ';']) {
        seq!['<'] + html_unescaped(t.subrange(4, t.len() as int))
    } else if begins_with(t, seq!['&', 'g', 't', ';']) {
        seq!['>'] + html_unescaped(t.subrange(4, t.len() as int))
    } else if begins_with(t, seq!['&', 'q', 'u', 'o', 't', ';']) {
        seq!['"'] + html_unescaped(t.subrange(6, t.len() as int))
    } else {
        seq![t[0]] + html_unescaped(t.subrange(1, t.len() as int))
    }
}

/// Escaping a text escapes each part of it in turn.
proof fn lemma_html_escaped_concat(a: Seq<char>, b: Seq<char>)
    ensures
        html_escaped(a + b) == html_escaped(a) + html_escaped(b),
    decreases b.len(),
{
    if b.len() == 0 {
        assert(a + b == a);
        assert(html_escaped(a) + html_escaped(b) == html_escaped(a));
    } else {
        lemma_html_escaped_concat(a, b.drop_last());
        assert((a + b).drop_last() == a + b.drop_last());
        assert((a + b).last() == b.last());
    }
}

/// Escaping loses nothing: reading the entities of an escaped text back
/// gives the text itself.
pub proof fn law_html_unescape_undoes_escape(s: Seq<char>)
    ensures
        html_unescaped(html_escaped(s)) == s,
    decreases s.len(),
{
    if s.len() > 0 {
        reveal_strlit("&amp;");
        reveal_strlit("&lt;");
        reveal_strlit("&gt;");
        reveal_strlit("&quot;");
        let c = s[0];
        let rest = s.subrange(1, s.len() as int);
        law_html_unescape_undoes_escape(rest);
        assert(s == seq![c] + rest);
        lemma_html_escaped_concat(seq![c], rest);
        assert(seq![c].drop_last() == Seq::<char>::empty());
        assert(seq![c].last() == c);
        assert(html_escaped(Seq::<char>::empty()) == Seq::<char>::empty());
        assert(Seq::<char>::empty() + html_char(c) == html_char(c));
        assert(html_escaped(seq![c]) == html_char(c));
        let h = html_char(c);
        let e = html_escaped(rest);
        let t = h + e;
        assert(html_escaped(s) == t);
        assert(t.subrange(h.len() as int, t.len() as int) == e);
        assert(t[0] == h[0]);
        if h.len() > 1 {
            assert(t[1] == h[1]);
        }
        if c == '&' {
            assert(h == seq!['&', 'a', 'm', 'p', ';']);
            assert(t.subrange(0, 5) == h);
            assert(t.subrange(5, t.len() as int) == e);
            assert(html_unescaped(t) == seq!['&'] + html_unescaped(e));
        } else if c == '<' {
            assert(h == seq!['&', 'l', 't', ';']);
            assert(t.subrange(0, 4) == h);
            assert(t.subrange(4, t.len() as int) == e);
            assert(!begins_with(t, seq!['&', 'a', 'm', 'p', ';']));
            assert(html_unescaped(t) == seq!['<'] + html_unescaped(e));
        } else if c == '>' {
            assert(h == seq!['&', 'g', 't', ';']);
            assert(t.subrange(0, 4) == h);
            assert(t.subrange(4, t.len() as int) == e);
            assert(!begins_with(t, seq!['&', 'a', 'm', 'p', ';']));
            assert(!begins_with(t, seq!['&', 'l', 't', ';']));
            assert(html_unescaped(t) == seq!['>'] + html_unescaped(e));
        } else if c == '"' {
            assert(h == seq!['&', 'q', 'u', 'o', 't', ';']);
            assert(t.subrange(0, 6) == h);
            assert(t.subrange(6, t.len() as int) == e);
            assert(!begins_with(t, seq!['&', 'a', 'm', 'p', ';']));
            assert(!begins_with(t, seq!['&', 'l', 't', ';']));
            assert(!begins_with(t, seq!['&', 'g', 't', ';']));
            assert(html_unescaped(t) == seq!['"'] + html_unescaped(e));
        } else {
            assert(h == seq![c]);
            assert(t.subrange(1, t.len() as int) == e);
            assert(!begins_with(t, seq!['&', 'a', 'm', 'p', ';']));
            assert(!begins_with(t, seq!['&', 'l', 't', ';']));
            assert(!begins_with(t, seq!['&', 'g', 't', ';']));
            assert(!begins_with(t, seq!['&', 'q', 'u', 'o', 't', ';']));
            assert(html_unescaped(t) == seq![c] + html_unescaped(e));
        }
    }
}

/// `t` with each occurrence of `pat` replaced by `rep`, from left to right
/// without overlaps, as `str::replace` does for a pattern that is not empty.
pub open spec fn replaced(t: Seq<char>, pat: Seq<char>, rep: Seq<char>) -> Seq<char>
    decreases t.len(),
{
    if t.len() == 0 {
        t
    } else if pat.len() > 0 && begins_with(t, pat) {
        rep + replaced(t.subrange(pat.len() as int, t.len() as int), pat, rep)
    } else {
        seq![t[0]] + replaced(t.subrange(1, t.len() as int), pat, rep)
    }
}

/// HTML text read back by undoing the entities one after the other, as
/// successive `str::replace` calls: `&quot;`, `&gt;`, `&lt;`, and `&amp;` last.
pub open spec fn html_unescaped_by_replacing(t: Seq<char>) -> Seq<char> {
    let t1 = replaced(t, seq!['&', 'q', 'u', 'o', 't', ';'], seq!['"']);
    let t2 = replaced(t1, seq!['&', 'g', 't', ';'], seq!['>']);
    let t3 = replaced(t2, seq!['&', 'l', 't', ';'], seq!['<']);
    replaced(t3, seq!['&', 'a', 'm', 'p', ';'], seq!['&'])
}

/// Which of the successive replacements gives a character back: 1 for `"`,
/// 2 for `>`, 3 for `<`, 4 for `&`, 0 for the characters left as they are.
spec fn undo_step(c: char) -> nat {
    if c == '"' {
        1
    } else if c == '>' {
        2
    } else if c == '<' {
        3
    } else if c == '&' {
        4
    } else {
        0
    }
}

/// A character after the first `k` replacements: itself where it is given
/// back by then, its entity otherwise.
spec fn part_char(c: char, k: nat) -> Seq<char> {
    if undo_step(c) <= k {
        seq![c]
    } else {
        html_char(c)
    }
}

/// An escaped text after the first `k` replacements.
spec fn part_escaped(s: Seq<char>, k: nat) -> Seq<char>
    decreases s.len(),
{
    if s.len() == 0 {
        Seq::empty()
    } else {
        part_escaped(s.drop_last(), k) + part_char(s.last(), k)
    }
}

/// The pattern of replacement `k`, 1 to 4.
spec fn step_pattern(k: nat) -> Seq<char> {
    if k == 1 {
        seq!['&', 'q', 'u', 'o', 't', ';']
    } else if k == 2 {
        seq!['&', 'g', 't', ';']
    } else if k == 3 {
        seq!['&', 'l', 't', ';']
    } else {
        seq!['&', 'a', 'm', 'p', ';']
    }
}

/// The character replacement `k` gives back, 1 to 4.
spec fn step_char(k: nat) -> char {
    if k == 1 {
        '"'
    } else if k == 2 {
        '>'
    } else if k == 3 {
        '<'
    } else {
        '&'
    }
}

/// A partly read back text of a concatenation is that of each part in turn.
proof fn lemma_part_escaped_concat(a: Seq<char>, b: Seq<char>, k: nat)
    ensures
        part_escaped(a + b, k) == part_escaped(a, k) + part_escaped(b, k),
    decreases b.len(),
{
    if b.len() == 0 {
        assert(a + b == a);
        assert(part_escaped(a, k) + part_escaped(b, k) == part_escaped(a, k));
    } else {
        lemma_part_escaped_concat(a, b.drop_last(), k);
        assert((a + b).drop_last() == a + b.drop_last());
        assert((a + b).last() == b.last());
    }
}

/// Before any replacement, a partly read back text is the escaped text;
/// after all four, it is the text itself.
proof fn lemma_part_escaped_ends(s: Seq<char>)
    ensures
        part_escaped(s, 0) == html_escaped(s),
        part_escaped(s, 4) == s,
    decreases s.len(),
{
    if s.len() > 0 {
        lemma_part_escaped_ends(s.drop_last());
        let c = s.last();
        assert(part_char(c, 0) == html_char(c));
        assert(part_char(c, 4) == seq![c]);
        assert(s.drop_last().push(c) == s);
        assert(s.drop_last() + seq![c] == s);
    }
}

/// Text without `&` passes a replacement of a pattern that begins with `&`.
proof fn lemma_replace_passes(x: Seq<char>, rest: Seq<char>, pat: Seq<char>, rep: Seq<char>)
    requires
        pat.len() > 0,
        pat[0] == '&',
        forall|j: int| 0 <= j < x.len() ==> #[trigger] x[j] != '&',
    ensures
        replaced(x + rest, pat, rep) == x + replaced(rest, pat, rep),
    decreases x.len(),
{
    if x.len() > 0 {
        let t = x + rest;
        let x1 = x.subrange(1, x.len() as int);
        assert(t[0] == x[0]);
        assert(!begins_with(t, pat)) by {
            if begins_with(t, pat) {
                assert(t.subrange(0, pat.len() as int)[0] == t[0]);
            }
        }
        assert(t.subrange(1, t.len() as int) == x1 + rest);
        assert forall|j: int| 0 <= j < x1.len() implies #[trigger] x1[j] != '&' by {
            assert(x1[j] == x[j + 1]);
        }
        lemma_replace_passes(x1, rest, pat, rep);
        assert(seq![x[0]] + x1 == x);
    }
}

/// Replacement `k + 1` takes a text read back by `k` replacements one step further.
proof fn lemma_replace_step(s: Seq<char>, k: nat)
    requires
        k < 4,
    ensures
        replaced(part_escaped(s, k), step_pattern(k + 1), seq![step_char(k + 1)]) == part_escaped(s, k + 1),
    decreases s.len(),
{
    reveal_strlit("&amp;");
    reveal_strlit("&lt;");
    reveal_strlit("&gt;");
    reveal_strlit("&quot;");
    let pat = step_pattern(k + 1);
    let rep = seq![step_char(k + 1)];
    if s.len() == 0 {
        assert(part_escaped(s, k) == Seq::<char>::empty());
        assert(part_escaped(s, k + 1) == Seq::<char>::empty());
    } else {
        let c = s[0];
        let rest = s.subrange(1, s.len() as int);
        lemma_replace_step(rest, k);
        assert(s == seq![c] + rest);
        lemma_part_escaped_concat(seq![c], rest, k);
        lemma_part_escaped_concat(seq![c], rest, k + 1);
        assert(seq![c].drop_last() == Seq::<char>::empty());
        assert(seq![c].last() == c);
        assert(part_escaped(Seq::<char>::empty(), k) == Seq::<char>::empty());
        assert(part_escaped(Seq::<char>::empty(), (k + 1) as nat) == Seq::<char>::empty());
        assert(part_escaped(seq![c], k) == Seq::<char>::empty() + part_char(c, k));
        assert(part_escaped(seq![c], k + 1) == Seq::<char>::empty() + part_char(c, k + 1));
        assert(Seq::<char>::empty() + part_char(c, k) == part_char(c, k));
        assert(Seq::<char>::empty() + part_char(c, k + 1) == part_char(c, k + 1));
        let h = part_char(c, k);
        let e = part_escaped(rest, k);
        let t = h + e;
        assert(part_escaped(s, k) == t);
        assert(part_escaped(s, k + 1) == part_char(c, k + 1) + part_escaped(rest, k + 1));
        if undo_step(c) == k + 1 {
            assert(h == pat);
            assert(t.subrange(0, pat.len() as int) == pat);
            assert(t.subrange(pat.len() as int, t.len() as int) == e);
            assert(part_char(c, k + 1) == rep);
        } else if undo_step(c) <= k {
            assert(h == seq![c]);
            assert(c != '&');
            lemma_replace_passes(h, e, pat, rep);
            assert(part_char(c, k + 1) == h);
        } else {
            assert(h == html_char(c));
            assert(part_char(c, k + 1) == h);
            assert(h.len() >= 4 && h[0] == '&');
            assert(h[1] != pat[1]);
            assert(t[1] == h[1]);
            assert(!begins_with(t, pat)) by {
                if begins_with(t, pat) {
                    assert(t.subrange(0, pat.len() as int)[1] == t[1]);
                }
            }
            let h1 = h.subrange(1, h.len() as int);
            assert(t.subrange(1, t.len() as int) == h1 + e);
            assert forall|j: int| 0 <= j < h1.len() implies #[trigger] h1[j] != '&' by {
                assert(h1[j] == h[j + 1]);
            }
            lemma_replace_passes(h1, e, pat, rep);
            assert(seq![h[0]] + h1 == h);
        }
    }
}

/// Escaping loses nothing, read back as successive replacements too:
/// undoing `&quot;`, `&gt;`, `&lt;` and then `&amp;` in an escaped text gives
/// the text itself.
pub proof fn law_html_replacements_undo_escape(s: Seq<char>)
    ensures
        html_unescaped_by_replacing(html_escaped(s)) == s,
{
    lemma_part_escaped_ends(s);
    lemma_replace_step(s, 0);
    lemma_replace_step(s, 1);
    lemma_replace_step(s, 2);
    lemma_replace_step(s, 3);
}

/// `s` with `&`, `<`, `>` and `"` replaced by their HTML entities.
pub fn html_escape(s: &str) -> (r: String)
    ensures
        r@ == html_escaped(s@),
{
    let v = chars_of(s);
    let mut out = String::new();
    let mut i: usize = 0;
    while i < v.len()
        invariant
            i <= v@.len(),
            out@ == html_escaped(v@.take(i as int)),
        decreases v.len() - i,
    {
        proof {
            assert(v@.take(i + 1).drop_last() == v@.take(i as int));
            assert(v@.take(i + 1).last() == v@[i as int]);
        }
        let c = v[i];
        if c == '&' {
            push_str(&mut out, "&amp;");
        } else if c == '<' {
            push_str(&mut out, "&lt;");
        } else if c == '>' {
            push_str(&mut out, "&gt;");
        } else if c == '"' {
            push_str(&mut out, "&quot;");
        } else {
            push_char(&mut out, c);
        }
        i = i + 1;
    }
    assert(v@.take(i as int) == s@);
    out
}

/// One table row of the HTML digest. The URL goes in as it is; the other
/// fields are escaped; the snippet line appears only where the snippet is
/// not empty; a missing posting date shows as "—".
pub open spec fn html_row(j: ListingView) -> Seq<char> {
    html_row_head(j) + html_row_snippet(j) + html_row_tail(j)
}

/// The start of a row: the link to the posting with the escaped title.
pub open spec fn html_row_head(j: ListingView) -> Seq<char> {
    "<tr>\n  <td style=\"padding:12px 8px;border-bottom:1px solid #eee;\">\n    <a href=\""@ + j.url + "\" style=\"font-size:15px;font-weight:600;color:#0a66c2;text-decoration:none;\">"@ + html_escaped(j.title) + "</a>\n    "@
}

/// The snippet line of a row; empty where the snippet is missing or empty.
pub open spec fn html_row_snippet(j: ListingView) -> Seq<char> {
    let snippet = text_or(j.description_snippet, Seq::empty());
    if snippet.len() == 0 {
        Seq::empty()
    } else {
        "<br><span style=\"font-size:12px;color:#555;\">"@ + html_escaped(snippet) + "</span>"@
    }
}

/// The rest of a row: company, location, source and posting date, escaped.
pub open spec fn html_row_tail(j: ListingView) -> Seq<char> {
    "\n  </td>\n  <td style=\"padding:12px 8px;border-bottom:1px solid #eee;white-space:nowrap;\">"@ + html_escaped(j.company) + "</td>\n  <td style=\"padding:12px 8px;border-bottom:1px solid #eee;white-space:nowrap;\">"@ + html_escaped(j.location) + "</td>\n  <td style=\"padding:12px 8px;border-bottom:1px solid #eee;white-space:nowrap;color:#666;\">"@ + html_escaped(j.source) + "</td>\n  <td style=\"padding:12px 8px;border-bottom:1px solid #eee;white-space:nowrap;color:#999;font-size:12px;\">"@
        + html_escaped(text_or(j.posted_at, "—"@)) + "</td>\n</tr>"@
}

/// The rows of the HTML digest, one per job, in order.
pub open spec fn html_rows(jobs: Seq<ListingView>) -> Seq<char>
    decreases jobs.len(),
{
    if jobs.len() == 0 {
        Seq::empty()
    } else {
        html_rows(jobs.drop_last()) + html_row(jobs.last())
    }
}

/// The HTML digest for the date text `today`.
pub open spec fn html_digest(today: Seq<char>, jobs: Seq<ListingView>) -> Seq<char> {
    "<!DOCTYPE html>\n<html>\n<head><meta charset=\"utf-8\"><title>Pharma Job Alert</title></head>\n<body style=\"font-family:-apple-system,BlinkMacSystemFont,'Segoe UI',sans-serif;margin:0;padding:20px;background:#f5f5f5;\">\n  <div style=\"max-width:900px;margin:0 auto;background:#fff;border-radius:8px;padding:24px;box-shadow:0 2px 8px rgba(0,0,0,.08);\">\n    <h1 style=\"margin:0 0 4px;font-size:22px;color:#1a1a1a;\">Daily Pharma Job Alert</h1>\n    <p style=\"margin:0 0 20px;color:#666;font-size:14px;\">"@ + today + " — "@ + decimal(jobs.len()) + " new listing"@
        + plural_s(jobs.len()) + "</p>\n    <table width=\"100%\" cellpadding=\"0\" cellspacing=\"0\" style=\"border-collapse:collapse;\">\n      <thead>\n        <tr style=\"background:#f0f4f8;text-align:left;font-size:12px;color:#666;text-transform:uppercase;\">\n          <th style=\"padding:8px;\">Position</th>\n          <th style=\"padding:8px;white-space:nowrap;\">Company</th>\n          <th style=\"padding:8px;white-space:nowrap;\">Location</th>\n          <th style=\"padding:8px;white-space:nowrap;\">Source</th>\n          <th style=\"padding:8px;white-space:nowrap;\">Posted</th>\n        </tr>\n      </thead>\n      <tbody>\n        "@ + html_rows(jobs) + "\n      </tbody>\n    </table>\n    <p style=\"margin:24px 0 0;font-size:12px;color:#aaa;\">\n      Scraped automatically · <a href=\"https://github.com/your-username/pharma-job-alert\" style=\"color:#aaa;\">pharma-job-alert</a>\n    </p>\n  </div>\n</body>\n</html>"@
}

/// The views of a slice of listings.
pub open spec fn jobs_view(jobs: Seq<JobListing>) -> Seq<ListingView> {
    jobs.map_values(|j: JobListing| j@)
}

/// The start of a row.
fn row_head(j: &JobListing) -> (r: String)
    ensures
        r@ == html_row_head(j@),
{
    let mut out = String::from_str("<tr>\n  <td style=\"padding:12px 8px;border-bottom:1px solid #eee;\">\n    <a href=\"");
    push_str(&mut out, j.url.as_str());
    push_str(&mut out, "\" style=\"font-size:15px;font-weight:600;color:#0a66c2;text-decoration:none;\">");
    push_str(&mut out, html_escape(j.title.as_str()).as_str());
    push_str(&mut out, "</a>\n    ");
    out
}

/// The snippet line of a row.
fn row_snippet(j: &JobListing) -> (r: String)
    ensures
        r@ == html_row_snippet(j@),
{
    match &j.description_snippet {
        Some(s) => {
            if !s.as_str().is_empty() {
                let mut out = String::from_str("<br><span style=\"font-size:12px;color:#555;\">");
                push_str(&mut out, html_escape(s.as_str()).as_str());
                push_str(&mut out, "</span>");
                out
            } else {
                String::new()
            }
        },
        None => String::new(),
    }
}

/// The rest of a row.
fn row_tail(j: &JobListing) -> (r: String)
    ensures
        r@ == html_row_tail(j@),
{
    let mut out = String::from_str("\n  </td>\n  <td style=\"padding:12px 8px;border-bottom:1px solid #eee;white-space:nowrap;\">");
    push_str(&mut out, html_escape(j.company.as_str()).as_str());
    push_str(&mut out, "</td>\n  <td style=\"padding:12px 8px;border-bottom:1px solid #eee;white-space:nowrap;\">");
    push_str(&mut out, html_escape(j.location.as_str()).as_str());
    push_str(&mut out, "</td>\n  <td style=\"padding:12px 8px;border-bottom:1px solid #eee;white-space:nowrap;color:#666;\">");
    push_str(&mut out, html_escape(j.source.as_str()).as_str());
    push_str(&mut out, "</td>\n  <td style=\"padding:12px 8px;border-bottom:1px solid #eee;white-space:nowrap;color:#999;font-size:12px;\">");
    let posted = match &j.posted_at {
        Some(p) => html_escape(p.as_str()),
        None => html_escape("—"),
    };
    push_str(&mut out, posted.as_str());
    push_str(&mut out, "</td>\n</tr>");
    out
}

/// Writes one row of the HTML digest.
fn push_html_row(out: &mut String, j: &JobListing)
    ensures
        final(out)@ == old(out)@ + html_row(j@),
{
    let ghost start = out@;
    let a = row_head(j);
    let b = row_snippet(j);
    let c = row_tail(j);
    push_str(out, a.as_str());
    push_str(out, b.as_str());
    push_str(out, c.as_str());
    assert(out@ == start + html_row(j@));
}

/// The HTML digest of `jobs` for the date text `today`.
pub fn render_html(jobs: &[JobListing], today: &str) -> (r: String)
    ensures
        r@ == html_digest(today@, jobs_view(jobs@)),
{
    let mut rows = String::new();
    let mut i: usize = 0;
    while i < jobs.len()
        invariant
            i <= jobs@.len(),
            rows@ == html_rows(jobs_view(jobs@).take(i as int)),
        decreases jobs.len() - i,
    {
        proof {
            assert(jobs_view(jobs@).take(i + 1).drop_last() == jobs_view(jobs@).take(i as int));
            assert(jobs_view(jobs@).take(i + 1).last() == jobs@[i as int]@);
        }
        push_html_row(&mut rows, &jobs[i]);
        i = i + 1;
    }
    assert(jobs_view(jobs@).take(i as int) == jobs_view(jobs@));
    let mut out = String::from_str("<!DOCTYPE html>\n<html>\n<head><meta charset=\"utf-8\"><title>Pharma Job Alert</title></head>\n<body style=\"font-family:-apple-system,BlinkMacSystemFont,'Segoe UI',sans-serif;margin:0;padding:20px;background:#f5f5f5;\">\n  <div style=\"max-width:900px;margin:0 auto;background:#fff;border-radius:8px;padding:24px;box-shadow:0 2px 8px rgba(0,0,0,.08);\">\n    <h1 style=\"margin:0 0 4px;font-size:22px;color:#1a1a1a;\">Daily Pharma Job Alert</h1>\n    <p style=\"margin:0 0 20px;color:#666;font-size:14px;\">");
    push_str(&mut out, today);
    push_str(&mut out, " — ");
    push_str(&mut out, decimal_text(jobs.len()).as_str());
    push_str(&mut out, " new listing");
    if jobs.len() != 1 {
        push_char(&mut out, 's');
    }
    push_str(&mut out, "</p>\n    <table width=\"100%\" cellpadding=\"0\" cellspacing=\"0\" style=\"border-collapse:collapse;\">\n      <thead>\n        <tr style=\"background:#f0f4f8;text-align:left;font-size:12px;color:#666;text-transform:uppercase;\">\n          <th style=\"padding:8px;\">Position</th>\n          <th style=\"padding:8px;white-space:nowrap;\">Company</th>\n          <th style=\"padding:8px;white-space:nowrap;\">Location</th>\n          <th style=\"padding:8px;white-space:nowrap;\">Source</th>\n          <th style=\"padding:8px;white-space:nowrap;\">Posted</th>\n        </tr>\n      </thead>\n      <tbody>\n        ");
    push_str(&mut out, rows.as_str());
    push_str(&mut out, "\n      </tbody>\n    </table>\n    <p style=\"margin:24px 0 0;font-size:12px;color:#aaa;\">\n      Scraped automatically · <a href=\"https://github.com/your-username/pharma-job-alert\" style=\"color:#aaa;\">pharma-job-alert</a>\n    </p>\n  </div>\n</body>\n</html>");
    out
}

/// One entry of the plain-text digest.
pub open spec fn text_entry(j: ListingView) -> Seq<char> {
    "• "@ + j.title + "\n  "@ + j.company + " | "@ + j.location + " | "@ + j.source + "\n  "@ + j.url + "\n\n"@
}

/// The entries of the plain-text digest, one per job, in order.
pub open spec fn text_entries(jobs: Seq<ListingView>) -> Seq<char>
    decreases jobs.len(),
{
    if jobs.len() == 0 {
        Seq::empty()
    } else {
        text_entries(jobs.drop_last()) + text_entry(jobs.last())
    }
}

/// The plain-text digest for the date text `today`: a heading, a rule of 40
/// '=' and one entry per job. Fields go in unescaped.
pub open spec fn text_digest(today: Seq<char>, jobs: Seq<ListingView>) -> Seq<char> {
    "Daily Pharma Job Alert — "@ + today + "\n========================================\n\n"@ + text_entries(jobs)
}

/// The plain-text digest of `jobs` for the date text `today`.
pub fn render_text(jobs: &[JobListing], today: &str) -> (r: String)
    ensures
        r@ == text_digest(today@, jobs_view(jobs@)),
{
    let mut out = String::from_str("Daily Pharma Job Alert — ");
    push_str(&mut out, today);
    push_str(&mut out, "\n========================================\n\n");
    let ghost head = out@;
    let mut i: usize = 0;
    while i < jobs.len()
        invariant
            i <= jobs@.len(),
            out@ == head + text_entries(jobs_view(jobs@).take(i as int)),
        decreases jobs.len() - i,
    {
        proof {
            assert(jobs_view(jobs@).take(i + 1).drop_last() == jobs_view(jobs@).take(i as int));
            assert(jobs_view(jobs@).take(i + 1).last() == jobs@[i as int]@);
        }
        let j = &jobs[i];
        let ghost before = out@;
        push_str(&mut out, "• ");
        push_str(&mut out, j.title.as_str());
        push_str(&mut out, "\n  ");
        push_str(&mut out, j.company.as_str());
        push_str(&mut out, " | ");
        push_str(&mut out, j.location.as_str());
        push_str(&mut out, " | ");
        push_str(&mut out, j.source.as_str());
        push_str(&mut out, "\n  ");
        push_str(&mut out, j.url.as_str());
        push_str(&mut out, "\n\n");
        assert(out@ == before + text_entry(j@));
        i = i + 1;
    }
    assert(jobs_view(jobs@).take(i as int) == jobs_view(jobs@));
    out
}

/// A number below 100 as two decimal digits (`%m`, `%d`).
pub open spec fn two_digits(n: nat) -> Seq<char> {
    seq![digit_char((n / 10) as int), digit_char((n % 10) as int)]
}

/// A year from 1970 on as `%Y` writes it: its four digits up to 9999, a plus
/// sign and its digits after that.
pub open spec fn year_text(y: nat) -> Seq<char> {
    if y <= 9999 {
        decimal(y)
    } else {
        seq!['+'] + decimal(y)
    }
}

/// The English name of a month, 1 to 12 (`%B`).
pub open spec fn month_name(m: nat) -> Seq<char> {
    if m == 1 {
        "January"@
    } else if m == 2 {
        "February"@
    } else if m == 3 {
        "March"@
    } else if m == 4 {
        "April"@
    } else if m == 5 {
        "May"@
    } else if m == 6 {
        "June"@
    } else if m == 7 {
        "July"@
    } else if m == 8 {
        "August"@
    } else if m == 9 {
        "September"@
    } else if m == 10 {
        "October"@
    } else if m == 11 {
        "November"@
    } else {
        "December"@
    }
}

/// The English name of a weekday, 0 for Sunday to 6 for Saturday (`%A`).
pub open spec fn weekday_name(w: nat) -> Seq<char> {
    if w == 0 {
        "Sunday"@
    } else if w == 1 {
        "Monday"@
    } else if w == 2 {
        "Tuesday"@
    } else if w == 3 {
        "Wednesday"@
    } else if w == 4 {
        "Thursday"@
    } else if w == 5 {
        "Friday"@
    } else {
        "Saturday"@
    }
}

/// A weekday, year, month and day in range: the year from 1970 on, which is
/// where the clock's time can lie.
pub open spec fn date_in_range(w: nat, y: nat, m: nat, d: nat) -> bool {
    w <= 6 && 1970 <= y && 1 <= m <= 12 && 1 <= d <= 31
}

/// A date as "%A, %B %d %Y" writes it, e.g. "Monday, April 06 2026".
pub open spec fn long_date(w: nat, y: nat, m: nat, d: nat) -> Seq<char> {
    weekday_name(w) + ", "@ + month_name(m) + " "@ + two_digits(d) + " "@ + year_text(y)
}

/// A date as "%Y-%m-%d" writes it, e.g. "2026-04-06".
pub open spec fn iso_date(y: nat, m: nat, d: nat) -> Seq<char> {
    year_text(y) + "-"@ + two_digits(m) + "-"@ + two_digits(d)
}

/// `t` is a date in range as "%A, %B %d %Y" writes it.
pub open spec fn is_long_date(t: Seq<char>) -> bool {
    exists|w: nat, y: nat, m: nat, d: nat| date_in_range(w, y, m, d) && t == long_date(w, y, m, d)
}

/// `t` is a date in range as "%Y-%m-%d" writes it.
pub open spec fn is_iso_date(t: Seq<char>) -> bool {
    exists|y: nat, m: nat, d: nat| date_in_range(0, y, m, d) && t == iso_date(y, m, d)
}

/// Calls `chrono::Utc::now` and formats the date with `DateTime::format` as
/// "%A, %B %d %Y": the English weekday and month names, the day in two
/// digits and the year as `%Y` writes it. Which date it is, the clock
/// decides; chrono panics only where the clock reads before 1970.
#[verifier::external_body]
fn today_long() -> (r: String)
    ensures
        is_long_date(r@),
{
    chrono::Utc::now().format("%A, %B %d %Y").to_string()
}

/// Calls `chrono::Utc::now` and formats the date with `DateTime::format` as
/// "%Y-%m-%d": the year as `%Y` writes it, month and day in two digits.
/// Which date it is, the clock decides.
#[verifier::external_body]
fn today_iso() -> (r: String)
    ensures
        is_iso_date(r@),
{
    chrono::Utc::now().format("%Y-%m-%d").to_string()
}

/// The HTML digest of `jobs`, dated today (as "Weekday, Month DD YYYY").
pub fn build_html(jobs: &[JobListing]) -> (r: String)
    ensures
        exists|today: Seq<char>| is_long_date(today) && r@ == html_digest(today, jobs_view(jobs@)),
{
    let today = today_long();
    render_html(jobs, today.as_str())
}

/// The plain-text digest of `jobs`, dated today (as "YYYY-MM-DD").
pub fn build_text(jobs: &[JobListing]) -> (r: String)
    ensures
        exists|today: Seq<char>| is_iso_date(today) && r@ == text_digest(today, jobs_view(jobs@)),
{
    let today = today_iso();
    render_text(jobs, today.as_str())
}

/// Where an SMTP relay is used, how to reach it.
pub struct SmtpSettings {
    pub host: String,
    pub port: u16,
    pub username: String,
    pub password: String,
}

/// How the digest is sent.
pub enum Transport {
    /// SendGrid's web API, with this key
    SendGrid { api_key: String },
    /// An SMTP relay
    Smtp(SmtpSettings),
}

/// Why no digest can be sent.
#[derive(Debug, PartialEq, Eq, Structural)]
pub enum EmailError {
    /// Neither a SendGrid key nor an SMTP host is configured.
    NoTransport,
}

/// `t` is the transport `config` picks: SendGrid with the configured key
/// where one is given, else the SMTP relay at the configured host, on the
/// configured port (587 where none is given) with the configured user name
/// and password (empty where none is given).
pub open spec fn chosen_transport(config: &EmailConfig, t: Transport) -> bool {
    match config.sendgrid_api_key {
        Some(k) => t matches Transport::SendGrid { api_key } && api_key@ == k@,
        None => match config.smtp_host {
            Some(h) => t matches Transport::Smtp(s) && s.host@ == h@ && s.port == (match config.smtp_port {
                Some(p) => p,
                None => 587u16,
            }) && s.username@ == text_or(opt_text(config.smtp_username), Seq::empty())
                && s.password@ == text_or(opt_text(config.smtp_password), Seq::empty()),
            None => false,
        },
    }
}

/// The transport chosen carries the configured settings: SendGrid with the
/// configured key where one is given; otherwise, where a host is given, SMTP
/// to that host, on the configured port (587 where none is), logging in with
/// the configured user name and password (empty where none is given).
pub proof fn law_transport_carries_configuration(config: &EmailConfig, t: Transport)
    requires
        chosen_transport(config, t),
    ensures
        config.sendgrid_api_key matches Some(k) ==> (t matches Transport::SendGrid { api_key } && api_key@ == k@),
        config.sendgrid_api_key is None ==> {
            &&& config.smtp_host is Some
            &&& t is Smtp
            &&& t->Smtp_0.host@ == config.smtp_host->Some_0@
            &&& (config.smtp_port matches Some(p) ==> t->Smtp_0.port == p)
            &&& (config.smtp_port is None ==> t->Smtp_0.port == 587)
            &&& (config.smtp_username matches Some(u) ==> t->Smtp_0.username@ == u@)
            &&& (config.smtp_username is None ==> t->Smtp_0.username@.len() == 0)
            &&& (config.smtp_password matches Some(pw) ==> t->Smtp_0.password@ == pw@)
            &&& (config.smtp_password is None ==> t->Smtp_0.password@.len() == 0)
        },
{
}

/// The transport a configuration picks: SendGrid where a key is given, else
/// SMTP where a host is given (port 587 and empty credentials by default),
/// else none.
pub fn choose_transport(config: &EmailConfig) -> (r: Result<Transport, EmailError>)
    ensures
        match r {
            Ok(t) => chosen_transport(config, t),
            Err(e) => e == EmailError::NoTransport && config.sendgrid_api_key is None && config.smtp_host is None,
        },
        r is Err <==> (config.sendgrid_api_key is None && config.smtp_host is None),
{
    match &config.sendgrid_api_key {
        Some(k) => Ok(Transport::SendGrid { api_key: k.clone() }),
        None => match &config.smtp_host {
            Some(h) => Ok(
                Transport::Smtp(
                    SmtpSettings {
                        host: h.clone(),
                        port: match config.smtp_port {
                            Some(p) => p,
                            None => 587,
                        },
                        username: match &config.smtp_username {
                            Some(u) => u.clone(),
                            None => String::new(),
                        },
                        password: match &config.smtp_password {
                            Some(pw) => pw.clone(),
                            None => String::new(),
                        },
                    },
                ),
            ),
            None => Err(EmailError::NoTransport),
        },
    }
}

/// A digest ready to send.
pub struct Digest {
    pub subject: String,
    pub html: String,
    pub text: String,
    pub transport: Transport,
}

/// The daily digest of `jobs` under `config`: its subject, both bodies and
/// the transport; an error where no transport is configured.
pub fn prepare_digest(config: &EmailConfig, jobs: &[JobListing]) -> (r: Result<Digest, EmailError>)
    ensures
        match r {
            Ok(d) => {
                &&& d.subject@ == digest_subject_text(opt_text(config.subject_prefix), jobs@.len())
                &&& exists|today: Seq<char>| is_long_date(today) && d.html@ == html_digest(today, jobs_view(jobs@))
                &&& exists|today: Seq<char>| is_iso_date(today) && d.text@ == text_digest(today, jobs_view(jobs@))
                &&& chosen_transport(config, d.transport)
            },
            Err(e) => e == EmailError::NoTransport && config.sendgrid_api_key is None
                && config.smtp_host is None,
        },
        r is Err <==> (config.sendgrid_api_key is None && config.smtp_host is None),
{
    let subject = digest_subject(config, jobs.len());
    let html = build_html(jobs);
    let text = build_text(jobs);
    let transport = choose_transport(config)?;
    Ok(Digest { subject, html, text, transport })
}

/// Escaped text holds no `<`, `>` or `"`: it cannot open or close a tag or
/// an attribute value.
pub proof fn law_escaped_has_no_markup(s: Seq<char>)
    ensures
        forall|k: int|
            0 <= k < html_escaped(s).len() ==> {
                let c = #[trigger] html_escaped(s)[k];
                c != '<' && c != '>' && c != '"'
            },
    decreases s.len(),
{
    reveal_strlit("&amp;");
    reveal_strlit("&lt;");
    reveal_strlit("&gt;");
    reveal_strlit("&quot;");
    if s.len() > 0 {
        law_escaped_has_no_markup(s.drop_last());
        let a = html_escaped(s.drop_last());
        let b = html_char(s.last());
        assert forall|k: int| 0 <= k < html_escaped(s).len() implies {
            let c = #[trigger] html_escaped(s)[k];
            c != '<' && c != '>' && c != '"'
        } by {
            if k < a.len() {
                assert(html_escaped(s)[k] == a[k]);
            } else {
                assert(html_escaped(s)[k] == b[k - a.len()]);
            }
        }
    }
}

/// Text without `&`, `<`, `>` and `"` is left as it is.
pub proof fn law_escape_keeps_plain_text(s: Seq<char>)
    requires
        forall|k: int| 0 <= k < s.len() ==> {
            let c = #[trigger] s[k];
            c != '&' && c != '<' && c != '>' && c != '"'
        },
    ensures
        html_escaped(s) == s,
    decreases s.len(),
{
    if s.len() > 0 {
        assert(s[s.len() - 1] == s.last());
        law_escape_keeps_plain_text(s.drop_last());
        assert(s.drop_last().push(s.last()) == s);
    }
}

} // verus!
