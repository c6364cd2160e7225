use vstd::prelude::*;

use crate::config::texts;
use crate::models::{listings_view, opt_text, utc_now, JobListing, ListingView};
use crate::scrapers::{concat2, concat4, job_id, make_id};
use crate::text::{chars_of, is_white_space, lowercase, push_char, push_str, same_text, to_lowercase, trim, trim_end_spec, trim_spec, trim_start_spec};

verus! {

/// Generic scraper for Workday-hosted career portals. The JSON search API
/// is the same on every Workday instance; only the subdomain, the instance
/// version and the portal path differ.
#[derive(Clone, Debug)]
pub struct WorkdayScraper {
    pub company_id: String,
    pub portal: String,
    pub display_name: String,
    /// Workday instance version. Most companies use "wd3"; some "wd5".
    pub wd_instance: String,
}

/// Location words taken out of search text before it goes to Workday, which
/// searches titles and descriptions; the portal already scopes to one company.
pub open spec fn location_words() -> Seq<Seq<char>> {
    seq![
        "Basel"@,
        "Switzerland"@,
        "Zurich"@,
        "Zürich"@,
        "Zug"@,
        "Geneva"@,
        "Genf"@,
        "Allschwil"@,
        "pharma"@,
    ]
}

/// The location words.
fn location_word_list() -> (r: Vec<String>)
    ensures
        texts(r@) == location_words(),
{
    let r = vec![
        String::from_str("Basel"),
        String::from_str("Switzerland"),
        String::from_str("Zurich"),
        String::from_str("Zürich"),
        String::from_str("Zug"),
        String::from_str("Geneva"),
        String::from_str("Genf"),
        String::from_str("Allschwil"),
        String::from_str("pharma"),
    ];
    assert(texts(r@) == location_words());
    r
}

/// The runs of `s` between its space characters (`' '`), in order, empty
/// ones included: `s` cut at each space. The last run is the one still open
/// at the end of `s`.
pub open spec fn runs(s: Seq<char>) -> Seq<Seq<char>>
    decreases s.len(),
{
    if s.len() == 0 {
        seq![Seq::empty()]
    } else {
        let p = runs(s.drop_last());
        if s.last() == ' ' {
            p.push(Seq::empty())
        } else {
            p.drop_last().push(p.last().push(s.last()))
        }
    }
}

/// `w` holds no space.
pub open spec fn spaceless(w: Seq<char>) -> bool {
    forall|j: int| 0 <= j < w.len() ==> #[trigger] w[j] != ' '
}

/// `w` is one of the location words, whatever its case: its lowercase form,
/// as `str::to_lowercase` gives it, is that of a location word.
pub open spec fn is_location_word(w: Seq<char>) -> bool {
    exists|k: int| 0 <= k < location_words().len() && lowercase(w) == lowercase(#[trigger] location_words()[k])
}

/// A run that goes: a location word standing whole between spaces or ends.
pub open spec fn to_strip(w: Seq<char>) -> bool {
    w.len() > 0 && is_location_word(w)
}

/// The runs of `rs` that are not location words, in order.
pub open spec fn without_location_words(rs: Seq<Seq<char>>) -> Seq<Seq<char>>
    decreases rs.len(),
{
    if rs.len() == 0 {
        Seq::empty()
    } else if to_strip(rs.last()) {
        without_location_words(rs.drop_last())
    } else {
        without_location_words(rs.drop_last()).push(rs.last())
    }
}

/// The keyword before trimming: its runs other than location words, with a
/// space between neighbours, so that the spacing between the runs kept
/// stays as it was and a location word goes with one space next to it.
pub open spec fn kept_text(keyword: Seq<char>) -> Seq<char> {
    joined(without_location_words(runs(keyword)), " "@)
}

/// The search text of a keyword: every location word that stands whole
/// between spaces or ends taken out, in any case, then white space trimmed
/// at both ends as `str::trim` does.
pub open spec fn stripped_keyword(keyword: Seq<char>) -> Seq<char> {
    trim_spec(kept_text(keyword))
}

/// The runs `kept` after a run `w` has ended: `w` joins them unless it goes.
pub open spec fn keep_run(kept: Seq<Seq<char>>, w: Seq<char>) -> Seq<Seq<char>> {
    if to_strip(w) {
        kept
    } else {
        kept.push(w)
    }
}

/// The runs kept among those of `s` that have ended.
pub open spec fn kept_so_far(s: Seq<char>) -> Seq<Seq<char>> {
    without_location_words(runs(s).drop_last())
}

/// A text has at least one run.
proof fn lemma_runs_len(s: Seq<char>)
    ensures
        runs(s).len() >= 1,
    decreases s.len(),
{
    if s.len() > 0 {
        lemma_runs_len(s.drop_last());
    }
}

/// The runs of `s` after one more character `c`.
proof fn lemma_runs_push(s: Seq<char>, c: char)
    ensures
        c == ' ' ==> runs(s.push(c)) == runs(s).push(Seq::empty()),
        c != ' ' ==> runs(s.push(c)) == runs(s).drop_last().push(runs(s).last().push(c)),
{
    assert(s.push(c).drop_last() == s);
}

/// Where a run `w` ends, the runs kept are `keep_run` of those before.
proof fn lemma_kept_step(ended: Seq<Seq<char>>, w: Seq<char>)
    ensures
        without_location_words(ended.push(w)) == keep_run(without_location_words(ended), w),
{
    assert(ended.push(w).drop_last() == ended);
}

/// The lowercase forms of the location words.
fn lowercase_location_words() -> (r: Vec<String>)
    ensures
        r@.len() == location_words().len(),
        forall|k: int| 0 <= k < r@.len() ==> #[trigger] r@[k]@ == lowercase(location_words()[k]),
{
    let words = location_word_list();
    let mut out: Vec<String> = Vec::new();
    let mut i: usize = 0;
    while i < words.len()
        invariant
            i <= words@.len(),
            texts(words@) == location_words(),
            out@.len() == i,
            forall|k: int| 0 <= k < i ==> #[trigger] out@[k]@ == lowercase(location_words()[k]),
        decreases words.len() - i,
    {
        assert(texts(words@)[i as int] == words@[i as int]@);
        out.push(to_lowercase(words[i].as_str()));
        i = i + 1;
    }
    out
}

/// Whether `word` is a location word, given their lowercase forms.
fn is_location(word: &str, lower_words: &Vec<String>) -> (r: bool)
    requires
        lower_words@.len() == location_words().len(),
        forall|k: int| 0 <= k < lower_words@.len() ==> #[trigger] lower_words@[k]@ == lowercase(location_words()[k]),
    ensures
        r == is_location_word(word@),
{
    let lower = to_lowercase(word);
    let mut k: usize = 0;
    while k < lower_words.len()
        invariant
            k <= lower_words@.len(),
            lower_words@.len() == location_words().len(),
            forall|j: int| 0 <= j < lower_words@.len() ==> #[trigger] lower_words@[j]@ == lowercase(location_words()[j]),
            lower@ == lowercase(word@),
            forall|j: int| 0 <= j < k ==> lowercase(word@) != lowercase(#[trigger] location_words()[j]),
        decreases lower_words.len() - k,
    {
        if same_text(lower.as_str(), lower_words[k].as_str()) {
            assert(lower_words@[k as int]@ == lowercase(location_words()[k as int]));
            return true;
        }
        k = k + 1;
    }
    false
}

/// Appends the run `w` to `out`, the runs `kept` so far with a space between
/// neighbours, unless it is a location word.
fn add_run(out: &mut String, any: &mut bool, w: &str, lower_words: &Vec<String>, Ghost(kept): Ghost<Seq<Seq<char>>>)
    requires
        lower_words@.len() == location_words().len(),
        forall|k: int| 0 <= k < lower_words@.len() ==> #[trigger] lower_words@[k]@ == lowercase(location_words()[k]),
        old(out)@ == joined(kept, " "@),
        *old(any) == (kept.len() > 0),
    ensures
        final(out)@ == joined(keep_run(kept, w@), " "@),
        *final(any) == (keep_run(kept, w@).len() > 0),
{
    if !w.is_empty() && is_location(w, lower_words) {
        return;
    }
    assert(kept.push(w@).drop_last() == kept);
    if *any {
        push_str(out, " ");
    }
    push_str(out, w);
    *any = true;
}

/// The search text of a keyword: the location words ("Basel",
/// "Switzerland", "Zurich", "Zürich", "Zug", "Geneva", "Genf", "Allschwil",
/// "pharma", in any case) that stand whole between spaces or ends taken out,
/// each with one space next to it, then white space trimmed at both ends.
pub fn strip_location_words(keyword: &str) -> (r: String)
    ensures
        r@ == stripped_keyword(keyword@),
{
    let lower_words = lowercase_location_words();
    let chars = chars_of(keyword);
    let mut out = String::new();
    let mut any = false;
    let mut cur = String::new();
    let mut i: usize = 0;
    proof {
        reveal_strlit(" ");
        assert(chars@.take(0) == Seq::<char>::empty());
    }
    while i < chars.len()
        invariant
            i <= chars@.len(),
            chars@ == keyword@,
            lower_words@.len() == location_words().len(),
            forall|k: int| 0 <= k < lower_words@.len() ==> #[trigger] lower_words@[k]@ == lowercase(location_words()[k]),
            cur@ == runs(chars@.take(i as int)).last(),
            out@ == joined(kept_so_far(chars@.take(i as int)), " "@),
            any == (kept_so_far(chars@.take(i as int)).len() > 0),
        decreases chars.len() - i,
    {
        let c = chars[i];
        let ghost pre = chars@.take(i as int);
        proof {
            assert(chars@.take(i + 1) == pre.push(c));
            lemma_runs_len(pre);
            lemma_runs_push(pre, c);
            assert(runs(pre).drop_last().push(runs(pre).last()) == runs(pre));
            lemma_kept_step(runs(pre).drop_last(), cur@);
        }
        if c == ' ' {
            proof {
                assert(runs(pre).push(Seq::empty()).drop_last() == runs(pre));
                assert(kept_so_far(pre.push(c)) == keep_run(kept_so_far(pre), cur@));
            }
            add_run(&mut out, &mut any, cur.as_str(), &lower_words, Ghost(kept_so_far(pre)));
            cur = String::new();
        } else {
            proof {
                assert(runs(pre).drop_last().push(runs(pre).last().push(c)).drop_last() == runs(pre).drop_last());
                assert(kept_so_far(pre.push(c)) == kept_so_far(pre));
            }
            push_char(&mut cur, c);
        }
        i = i + 1;
    }
    proof {
        assert(chars@.take(i as int) == keyword@);
        lemma_runs_len(keyword@);
        assert(runs(keyword@).drop_last().push(runs(keyword@).last()) == runs(keyword@));
        lemma_kept_step(runs(keyword@).drop_last(), cur@);
    }
    add_run(&mut out, &mut any, cur.as_str(), &lower_words, Ghost(kept_so_far(keyword@)));
    trim(out.as_str())
}

/// Adding a text `w` without spaces to the end of `s` extends the last run of `s` by it.
proof fn lemma_runs_extend(s: Seq<char>, w: Seq<char>)
    requires
        spaceless(w),
    ensures
        runs(s + w) == runs(s).drop_last().push(runs(s).last() + w),
    decreases w.len(),
{
    lemma_runs_len(s);
    if w.len() == 0 {
        assert(s + w == s);
        assert(runs(s).last() + w == runs(s).last());
        assert(runs(s).drop_last().push(runs(s).last()) == runs(s));
    } else {
        let v = w.drop_last();
        let c = w.last();
        assert(w[w.len() - 1] != ' ');
        assert(spaceless(v)) by {
            assert forall|j: int| 0 <= j < v.len() implies #[trigger] v[j] != ' ' by {
                assert(v[j] == w[j]);
            }
        }
        lemma_runs_extend(s, v);
        assert(s + w == (s + v).push(c));
        lemma_runs_push(s + v, c);
        assert(runs(s + v).drop_last() == runs(s).drop_last());
        assert((runs(s).last() + v).push(c) == runs(s).last() + w);
    }
}

/// Runs without spaces, with a space between neighbours, are cut back into those runs.
proof fn lemma_runs_of_joined(ws: Seq<Seq<char>>)
    requires
        ws.len() >= 1,
        forall|i: int| 0 <= i < ws.len() ==> spaceless(#[trigger] ws[i]),
    ensures
        runs(joined(ws, " "@)) == ws,
    decreases ws.len(),
{
    reveal_strlit(" ");
    let w = ws.last();
    assert(spaceless(ws[ws.len() - 1]));
    if ws.len() == 1 {
        lemma_runs_extend(Seq::empty(), w);
        assert(Seq::<char>::empty() + w == w);
        assert(runs(Seq::<char>::empty()).drop_last().push(Seq::<char>::empty() + w) == ws);
    } else {
        let p = ws.drop_last();
        assert forall|i: int| 0 <= i < p.len() implies spaceless(#[trigger] p[i]) by {
            assert(p[i] == ws[i]);
        }
        lemma_runs_of_joined(p);
        let jp = joined(p, " "@);
        assert(joined(ws, " "@) == jp.push(' ') + w);
        lemma_runs_push(jp, ' ');
        lemma_runs_extend(jp.push(' '), w);
        assert(runs(jp).push(Seq::empty()).drop_last() == p);
        assert(Seq::<char>::empty() + w == w);
        assert(p.push(w) == ws);
    }
}

/// No run holds a space.
proof fn lemma_runs_spaceless(s: Seq<char>)
    ensures
        forall|i: int| 0 <= i < runs(s).len() ==> spaceless(#[trigger] runs(s)[i]),
    decreases s.len(),
{
    if s.len() > 0 {
        let t = s.drop_last();
        let c = s.last();
        lemma_runs_spaceless(t);
        lemma_runs_len(t);
        assert(t.push(c) == s);
        lemma_runs_push(t, c);
        let p = runs(t);
        assert forall|i: int| 0 <= i < runs(s).len() implies spaceless(#[trigger] runs(s)[i]) by {
            if i < p.len() - 1 {
                assert(runs(s)[i] == p[i]);
            } else if c == ' ' {
                if i < p.len() {
                    assert(runs(s)[i] == p[i]);
                }
            } else {
                let l = p.last().push(c);
                assert(runs(s)[i] == l);
                assert(spaceless(p[p.len() - 1]));
                assert forall|j: int| 0 <= j < l.len() implies #[trigger] l[j] != ' ' by {
                    if j < p.last().len() {
                        assert(l[j] == p[p.len() - 1][j]);
                    }
                }
            }
        }
    }
}

/// The runs kept hold no space, none of them goes, and each has every
/// property that all the runs have.
proof fn lemma_kept_runs(rs: Seq<Seq<char>>, good: spec_fn(Seq<char>) -> bool)
    requires
        forall|i: int| 0 <= i < rs.len() ==> good(#[trigger] rs[i]),
    ensures
        forall|i: int|
            0 <= i < without_location_words(rs).len() ==> good(#[trigger] without_location_words(rs)[i])
                && !to_strip(without_location_words(rs)[i]),
    decreases rs.len(),
{
    if rs.len() > 0 {
        let p = rs.drop_last();
        assert forall|i: int| 0 <= i < p.len() implies good(#[trigger] p[i]) by {
            assert(p[i] == rs[i]);
        }
        lemma_kept_runs(p, good);
        let n = without_location_words(p);
        assert(good(rs[rs.len() - 1]));
        if !to_strip(rs.last()) {
            assert forall|i: int| 0 <= i < without_location_words(rs).len() implies good(
                #[trigger] without_location_words(rs)[i],
            ) && !to_strip(without_location_words(rs)[i]) by {
                if i < n.len() {
                    assert(without_location_words(rs)[i] == n[i]);
                }
            }
        }
    }
}

/// Before trimming, the runs of the search text are the runs of the keyword
/// other than its location words, in order, where any are kept: a location
/// word standing whole between spaces or ends goes wherever it stands, in
/// any case, each time it occurs, and every other run stays as it was. So no
/// run of it is a location word.
pub proof fn law_kept_text_runs(keyword: Seq<char>)
    ensures
        without_location_words(runs(keyword)).len() > 0 ==> runs(kept_text(keyword)) == without_location_words(
            runs(keyword),
        ),
        forall|i: int| 0 <= i < runs(kept_text(keyword)).len() ==> !to_strip(#[trigger] runs(kept_text(keyword))[i]),
{
    let kept = without_location_words(runs(keyword));
    lemma_runs_spaceless(keyword);
    lemma_kept_runs(runs(keyword), |w: Seq<char>| spaceless(w));
    if kept.len() > 0 {
        lemma_runs_of_joined(kept);
    } else {
        assert(kept_text(keyword) == Seq::<char>::empty());
        assert(runs(Seq::<char>::empty()) == seq![Seq::<char>::empty()]);
    }
}

/// The first character of runs joined, where the first run is not empty.
proof fn lemma_joined_first(ws: Seq<Seq<char>>, sep: Seq<char>)
    requires
        ws.len() >= 1,
        ws[0].len() > 0,
    ensures
        joined(ws, sep).len() > 0,
        joined(ws, sep)[0] == ws[0][0],
    decreases ws.len(),
{
    if ws.len() > 1 {
        let p = ws.drop_last();
        assert(p[0] == ws[0]);
        lemma_joined_first(p, sep);
        let j = joined(p, sep);
        assert((j + sep + ws.last())[0] == j[0]);
    }
}

/// Words, with a space between neighbours, have nothing to trim.
proof fn lemma_trim_joined_words(ws: Seq<Seq<char>>)
    requires
        forall|i: int| 0 <= i < ws.len() ==> is_word(#[trigger] ws[i]),
    ensures
        trim_spec(joined(ws, " "@)) == joined(ws, " "@),
{
    let j = joined(ws, " "@);
    if ws.len() == 0 {
        assert(trim_end_spec(j) == j);
    } else {
        assert(is_word(ws[0]));
        assert(is_word(ws[ws.len() - 1]));
        lemma_joined_first(ws, " "@);
        let w = ws.last();
        if ws.len() == 1 {
            assert(j == w);
        } else {
            assert(j == joined(ws.drop_last(), " "@) + " "@ + w);
        }
        assert(j.last() == w[w.len() - 1]);
        assert(!is_white_space(j.last()));
        assert(trim_end_spec(j) == j);
        assert(!is_white_space(j[0]));
        assert(trim_start_spec(j) == j);
    }
}

/// A keyword of runs with a single space between neighbours keeps those of
/// its runs that are not location words, with a single space between
/// neighbours, trimmed; where the runs hold no white space at all, nothing
/// is trimmed.
pub proof fn law_strip_single_spaced(ws: Seq<Seq<char>>)
    requires
        forall|i: int| 0 <= i < ws.len() ==> (#[trigger] ws[i]).len() > 0 && spaceless(ws[i]),
    ensures
        stripped_keyword(joined(ws, " "@)) == trim_spec(joined(without_location_words(ws), " "@)),
        (forall|i: int| 0 <= i < ws.len() ==> is_word(#[trigger] ws[i])) ==> stripped_keyword(joined(ws, " "@))
            == joined(without_location_words(ws), " "@),
{
    if ws.len() == 0 {
        let e = seq![Seq::<char>::empty()];
        assert(joined(ws, " "@) == Seq::<char>::empty());
        assert(runs(Seq::<char>::empty()) == e);
        assert(e.drop_last() == Seq::<Seq<char>>::empty());
        assert(!to_strip(e.last()));
        assert(without_location_words(e.drop_last()) == Seq::<Seq<char>>::empty());
        assert(Seq::<Seq<char>>::empty().push(e.last()) == e);
        assert(without_location_words(e) == e);
        assert(joined(e, " "@) == Seq::<char>::empty());
    } else {
        assert forall|i: int| 0 <= i < ws.len() implies spaceless(#[trigger] ws[i]) by {}
        lemma_runs_of_joined(ws);
    }
    if forall|i: int| 0 <= i < ws.len() ==> is_word(#[trigger] ws[i]) {
        lemma_kept_runs(ws, |w: Seq<char>| is_word(w));
        lemma_trim_joined_words(without_location_words(ws));
    }
}

/// The only white space in `t` is the space `' '`.
pub open spec fn spaces_only(t: Seq<char>) -> bool {
    forall|i: int| 0 <= i < t.len() && is_white_space(#[trigger] t[i]) ==> t[i] == ' '
}

/// No run of `t` is a location word.
pub open spec fn no_location_run(t: Seq<char>) -> bool {
    forall|i: int| 0 <= i < runs(t).len() ==> !to_strip(#[trigger] runs(t)[i])
}

/// A space in front of a text adds an empty run in front of its runs.
proof fn lemma_runs_after_space(s: Seq<char>)
    ensures
        runs(seq![' '] + s) == seq![Seq::<char>::empty()] + runs(s),
    decreases s.len(),
{
    let e = Seq::<char>::empty();
    if s.len() == 0 {
        assert(seq![' '] + s == Seq::<char>::empty().push(' '));
        lemma_runs_push(Seq::<char>::empty(), ' ');
        assert(seq![e] + runs(s) == seq![e].push(e));
    } else {
        let t = s.drop_last();
        let c = s.last();
        lemma_runs_after_space(t);
        lemma_runs_len(t);
        assert(seq![' '] + s == (seq![' '] + t).push(c));
        assert(t.push(c) == s);
        lemma_runs_push(seq![' '] + t, c);
        lemma_runs_push(t, c);
        let r = runs(t);
        if c == ' ' {
            assert((seq![e] + r).push(e) == seq![e] + r.push(e));
        } else {
            assert((seq![e] + r).drop_last() == seq![e] + r.drop_last());
            assert((seq![e] + r).last() == r.last());
            assert((seq![e] + r.drop_last()).push(r.last().push(c)) == seq![e] + r.drop_last().push(r.last().push(c)));
        }
    }
}

/// Trimming white space at the end of a text whose white space is spaces
/// leaves no location word as a run where there was none.
proof fn lemma_trim_end_runs(t: Seq<char>)
    requires
        spaces_only(t),
        no_location_run(t),
    ensures
        spaces_only(trim_end_spec(t)),
        no_location_run(trim_end_spec(t)),
    decreases t.len(),
{
    if t.len() > 0 && is_white_space(t.last()) {
        let d = t.drop_last();
        assert(t[t.len() - 1] == ' ');
        assert(d.push(' ') == t);
        lemma_runs_push(d, ' ');
        assert forall|i: int| 0 <= i < runs(d).len() implies !to_strip(#[trigger] runs(d)[i]) by {
            assert(runs(t)[i] == runs(d)[i]);
        }
        assert forall|i: int| 0 <= i < d.len() && is_white_space(#[trigger] d[i]) implies d[i] == ' ' by {
            assert(d[i] == t[i]);
        }
        lemma_trim_end_runs(d);
    }
}

/// Trimming white space at the start of a text whose white space is spaces
/// leaves no location word as a run where there was none.
proof fn lemma_trim_start_runs(t: Seq<char>)
    requires
        spaces_only(t),
        no_location_run(t),
    ensures
        no_location_run(trim_start_spec(t)),
    decreases t.len(),
{
    if t.len() > 0 && is_white_space(t[0]) {
        let d = t.subrange(1, t.len() as int);
        assert(t[0] == ' ');
        assert(seq![' '] + d == t);
        lemma_runs_after_space(d);
        assert forall|i: int| 0 <= i < runs(d).len() implies !to_strip(#[trigger] runs(d)[i]) by {
            assert(runs(t)[i + 1] == runs(d)[i]);
        }
        assert forall|i: int| 0 <= i < d.len() && is_white_space(#[trigger] d[i]) implies d[i] == ' ' by {
            assert(d[i] == t[i + 1]);
        }
        lemma_trim_start_runs(d);
    }
}

/// The runs of a text whose white space is spaces hold no white space.
proof fn lemma_runs_no_white_space(s: Seq<char>)
    requires
        spaces_only(s),
    ensures
        forall|i: int| 0 <= i < runs(s).len() ==> no_white_space(#[trigger] runs(s)[i]),
    decreases s.len(),
{
    if s.len() > 0 {
        let t = s.drop_last();
        let c = s.last();
        assert forall|i: int| 0 <= i < t.len() && is_white_space(#[trigger] t[i]) implies t[i] == ' ' by {
            assert(t[i] == s[i]);
        }
        lemma_runs_no_white_space(t);
        lemma_runs_len(t);
        assert(t.push(c) == s);
        lemma_runs_push(t, c);
        let p = runs(t);
        assert(s[s.len() - 1] == c);
        assert forall|i: int| 0 <= i < runs(s).len() implies no_white_space(#[trigger] runs(s)[i]) by {
            if i < p.len() - 1 {
                assert(runs(s)[i] == p[i]);
            } else if c == ' ' {
                if i < p.len() {
                    assert(runs(s)[i] == p[i]);
                }
            } else {
                let l = p.last().push(c);
                assert(runs(s)[i] == l);
                assert(no_white_space(p[p.len() - 1]));
                assert forall|j: int| 0 <= j < l.len() implies !is_white_space(#[trigger] l[j]) by {
                    if j < p.last().len() {
                        assert(l[j] == p[p.len() - 1][j]);
                    }
                }
            }
        }
    }
}

/// `w` holds no white space.
pub open spec fn no_white_space(w: Seq<char>) -> bool {
    forall|j: int| 0 <= j < w.len() ==> !is_white_space(#[trigger] w[j])
}

/// Texts without white space, with a space between neighbours, hold no
/// white space but spaces.
proof fn lemma_joined_spaces_only(ws: Seq<Seq<char>>)
    requires
        forall|i: int| 0 <= i < ws.len() ==> no_white_space(#[trigger] ws[i]),
    ensures
        spaces_only(joined(ws, " "@)),
    decreases ws.len(),
{
    reveal_strlit(" ");
    if ws.len() == 1 {
        assert(no_white_space(ws[0]));
    } else if ws.len() > 1 {
        let p = ws.drop_last();
        let w = ws.last();
        assert forall|i: int| 0 <= i < p.len() implies no_white_space(#[trigger] p[i]) by {
            assert(p[i] == ws[i]);
        }
        lemma_joined_spaces_only(p);
        assert(no_white_space(ws[ws.len() - 1]));
        let a = joined(p, " "@);
        let j = joined(ws, " "@);
        assert(j == a + " "@ + w);
        assert forall|i: int| 0 <= i < j.len() && is_white_space(#[trigger] j[i]) implies j[i] == ' ' by {
            if i < a.len() {
                assert(j[i] == a[i]);
            } else if i > a.len() {
                assert(j[i] == w[i - a.len() - 1]);
            }
        }
    }
}

/// Where a keyword's only white space is spaces, no run of its search text
/// is a location word: trimming it cannot bring one to light. (A tab or
/// another white space next to a location word can: "Basel \tZug" keeps
/// "\tZug", which trims to "Zug".)
pub proof fn law_search_text_has_no_location_run(keyword: Seq<char>)
    requires
        spaces_only(keyword),
    ensures
        no_location_run(stripped_keyword(keyword)),
{
    let kept = without_location_words(runs(keyword));
    law_kept_text_runs(keyword);
    lemma_runs_no_white_space(keyword);
    lemma_kept_runs(runs(keyword), |w: Seq<char>| no_white_space(w));
    lemma_joined_spaces_only(kept);
    lemma_trim_end_runs(kept_text(keyword));
    lemma_trim_start_runs(trim_end_spec(kept_text(keyword)));
}

/// The location words are Basel, Switzerland, Zurich, Zürich, Zug, Geneva,
/// Genf, Allschwil and pharma: each of them, standing whole after a space at
/// the end of any keyword, is taken out, and the search text is that of the
/// keyword alone.
pub proof fn law_each_location_word_goes(keyword: Seq<char>, i: int)
    requires
        0 <= i < 9,
    ensures
        stripped_keyword(keyword + " "@ + seq!["Basel"@, "Switzerland"@, "Zurich"@, "Zürich"@, "Zug"@, "Geneva"@, "Genf"@, "Allschwil"@, "pharma"@][i])
            == stripped_keyword(keyword),
{
    reveal_strlit(" ");
    reveal_strlit("Basel");
    reveal_strlit("Switzerland");
    reveal_strlit("Zurich");
    reveal_strlit("Zürich");
    reveal_strlit("Zug");
    reveal_strlit("Geneva");
    reveal_strlit("Genf");
    reveal_strlit("Allschwil");
    reveal_strlit("pharma");
    let w = seq!["Basel"@, "Switzerland"@, "Zurich"@, "Zürich"@, "Zug"@, "Geneva"@, "Genf"@, "Allschwil"@, "pharma"@][i];
    assert(location_words()[i] == w);
    assert(is_location_word(w));
    assert(w.len() > 0);
    assert(spaceless(w));
    assert(keyword + " "@ + w == keyword.push(' ') + w);
    lemma_runs_len(keyword);
    lemma_runs_push(keyword, ' ');
    lemma_runs_extend(keyword.push(' '), w);
    assert(runs(keyword).push(Seq::empty()).drop_last() == runs(keyword));
    assert(Seq::<char>::empty() + w == w);
    assert(runs(keyword + " "@ + w) == runs(keyword).push(w));
    lemma_kept_step(runs(keyword), w);
}

/// `w` is a word: not empty, and no white space in it.
pub open spec fn is_word(w: Seq<char>) -> bool {
    w.len() > 0 && forall|j: int| 0 <= j < w.len() ==> !is_white_space(#[trigger] w[j])
}

/// A character as it is written inside a JSON string by `serde_json`: `"`
/// and `\` and the control characters below U+0020 are escaped (the short
/// forms where JSON has them, `\u00XX` with lowercase digits otherwise).
pub open spec fn json_char(c: char) -> Seq<char> {
    if c == '"' {
        seq!['\\', '"']
    } else if c == '\\' {
        seq!['\\', '\\']
    } else if c == '\u{8}' {
        seq!['\\', 'b']
    } else if c == '\t' {
        seq!['\\', 't']
    } else if c == '\n' {
        seq!['\\', 'n']
    } else if c == '\u{c}' {
        seq!['\\', 'f']
    } else if c == '\r' {
        seq!['\\', 'r']
    } else if (c as u32) < 0x20 {
        seq!['\\', 'u', '0', '0', crate::scrapers::hex_digit((c as u32) as int / 16), crate::scrapers::hex_digit((c as u32) as int % 16)]
    } else {
        seq![c]
    }
}

/// The contents of a JSON string literal holding `s`.
pub open spec fn json_escaped(s: Seq<char>) -> Seq<char>
    decreases s.len(),
{
    if s.len() == 0 {
        Seq::empty()
    } else {
        json_escaped(s.drop_last()) + json_char(s.last())
    }
}

/// Calls `serde_json::to_string` on a string, which writes it as a JSON
/// string literal: between double quotes, each character as `json_char`
/// says (the escape table of serde_json's serializer). Serializing a string
/// cannot fail, as it writes into a `Vec`.
#[verifier::external_body]
fn json_string(s: &str) -> (r: String)
    ensures
        r@ == seq!['"'] + json_escaped(s@) + seq!['"'],
{
    serde_json::to_string(s).unwrap_or_default()
}

/// The JSON search request Workday's API takes, as `serde_json` writes it
/// (keys in sorted order, no spaces): at most 20 postings from offset 0, no
/// facets, located in Switzerland, matching `search_text`.
pub open spec fn workday_search_body(search_text: Seq<char>) -> Seq<char> {
    "{\"appliedFacets\":{},\"limit\":20,\"locationSearchText\":\"Switzerland\",\"offset\":0,\"searchText\":"@
        + (seq!['"'] + json_escaped(search_text) + seq!['"']) + "}"@
}

/// The JSON search request for `search_text`.
pub fn search_body(search_text: &str) -> (r: String)
    ensures
        r@ == workday_search_body(search_text@),
{
    let mut out = String::from_str(
        "{\"appliedFacets\":{},\"limit\":20,\"locationSearchText\":\"Switzerland\",\"offset\":0,\"searchText\":",
    );
    push_str(&mut out, json_string(search_text).as_str());
    push_str(&mut out, "}");
    out
}

/// A search reply of Workday's API.
pub struct WorkdayResponse {
    pub job_postings: Vec<WorkdayJob>,
}

/// One posting of a Workday reply.
pub struct WorkdayJob {
    pub title: String,
    /// Path of the posting below the portal, e.g. "/job/Basel/Manager_R12345"
    pub external_path: String,
    pub locations_text: Option<String>,
    /// Human text like "Posted 2 Days Ago"
    pub posted_on: Option<String>,
    /// Extra metadata chips (employment type, department, etc.)
    pub bullet_fields: Vec<String>,
}

pub struct WorkdayJobView {
    pub title: Seq<char>,
    pub external_path: Seq<char>,
    pub locations_text: Option<Seq<char>>,
    pub posted_on: Option<Seq<char>>,
    pub bullet_fields: Seq<Seq<char>>,
}

impl View for WorkdayJob {
    type V = WorkdayJobView;

    open spec fn view(&self) -> WorkdayJobView {
        WorkdayJobView {
            title: self.title@,
            external_path: self.external_path@,
            locations_text: opt_text(self.locations_text),
            posted_on: opt_text(self.posted_on),
            bullet_fields: texts(self.bullet_fields@),
        }
    }
}

/// The parts joined with `sep` between neighbours (`[T]::join`).
pub open spec fn joined(parts: Seq<Seq<char>>, sep: Seq<char>) -> Seq<char>
    decreases parts.len(),
{
    if parts.len() == 0 {
        Seq::empty()
    } else if parts.len() == 1 {
        parts[0]
    } else {
        joined(parts.drop_last(), sep) + sep + parts.last()
    }
}

/// The parts joined with `sep` between neighbours.
pub fn join_texts(parts: &Vec<String>, sep: &str) -> (r: String)
    ensures
        r@ == joined(texts(parts@), sep@),
{
    let mut out = String::new();
    let mut i: usize = 0;
    while i < parts.len()
        invariant
            i <= parts@.len(),
            out@ == joined(texts(parts@).take(i as int), sep@),
        decreases parts.len() - i,
    {
        let ghost all = texts(parts@);
        proof {
            assert(all.take(i + 1).drop_last() == all.take(i as int));
            assert(all.take(i + 1).last() == parts@[i as int]@);
        }
        if i != 0 {
            push_str(&mut out, sep);
        } else {
            assert(all.take(i as int).len() == 0);
        }
        push_str(&mut out, parts[i].as_str());
        i = i + 1;
    }
    proof {
        assert(texts(parts@).take(i as int) == texts(parts@));
    }
    out
}

/// The portal's search endpoint.
pub open spec fn workday_api_url(company_id: Seq<char>, wd_instance: Seq<char>, portal: Seq<char>) -> Seq<char> {
    "https://"@ + company_id + "."@ + wd_instance + ".myworkdayjobs.com/wday/cxs/"@ + company_id + "/"@ + portal
        + "/jobs"@
}

/// The portal's address, in front of each posting's path.
pub open spec fn workday_apply_base(company_id: Seq<char>, wd_instance: Seq<char>, portal: Seq<char>) -> Seq<char> {
    "https://"@ + company_id + "."@ + wd_instance + ".myworkdayjobs.com/"@ + portal
}

/// The listing a Workday posting gives on a company's portal.
pub open spec fn workday_listing(display_name: Seq<char>, apply_base: Seq<char>, j: WorkdayJobView) -> ListingView {
    let url = apply_base + j.external_path;
    ListingView {
        id: job_id(display_name, url),
        title: j.title,
        company: display_name,
        location: match j.locations_text {
            Some(l) => l,
            None => Seq::empty(),
        },
        url: url,
        source: display_name + " (Careers)"@,
        posted_at: j.posted_on,
        description_snippet: if j.bullet_fields.len() == 0 {
            None
        } else {
            Some(joined(j.bullet_fields, " · "@))
        },
    }
}

/// The listings a list of postings gives, one per posting, in order.
pub open spec fn workday_listings(display_name: Seq<char>, apply_base: Seq<char>, jobs: Seq<WorkdayJob>) -> Seq<ListingView> {
    jobs.map_values(|j: WorkdayJob| workday_listing(display_name, apply_base, j@))
}

/// What a Workday posting gives, field by field: its title, the company's
/// display name as company, its location text (empty where it has none),
/// the portal's address followed by its path as URL, its posting date, its
/// chips joined with " · " as snippet (none where it has none), and
/// "<display name> (Careers)" as source.
pub proof fn law_workday_listing_fields(display_name: Seq<char>, apply_base: Seq<char>, j: WorkdayJobView)
    ensures
        ({
            let v = workday_listing(display_name, apply_base, j);
            &&& v.title == j.title
            &&& v.company == display_name
            &&& (j.locations_text matches Some(l) ==> v.location == l)
            &&& (j.locations_text is None ==> v.location.len() == 0)
            &&& v.url == apply_base + j.external_path
            &&& v.posted_at == j.posted_on
            &&& (j.bullet_fields.len() == 0 ==> v.description_snippet is None)
            &&& (j.bullet_fields.len() == 1 ==> v.description_snippet == Some(j.bullet_fields[0]))
            &&& (j.bullet_fields.len() > 1 ==> v.description_snippet == Some(
                joined(j.bullet_fields.drop_last(), " · "@) + " · "@ + j.bullet_fields.last(),
            ))
            &&& v.source == display_name + " (Careers)"@
            &&& v.id == job_id(display_name, v.url)
        }),
{
}

impl WorkdayScraper {
    /// The portal's search endpoint.
    pub fn api_url(&self) -> (r: String)
        ensures
            r@ == workday_api_url(self.company_id@, self.wd_instance@, self.portal@),
    {
        let mut u = concat4("https://", self.company_id.as_str(), ".", self.wd_instance.as_str());
        push_str(&mut u, ".myworkdayjobs.com/wday/cxs/");
        push_str(&mut u, self.company_id.as_str());
        push_str(&mut u, "/");
        push_str(&mut u, self.portal.as_str());
        push_str(&mut u, "/jobs");
        u
    }

    /// The portal's address, in front of each posting's path.
    pub fn apply_base(&self) -> (r: String)
        ensures
            r@ == workday_apply_base(self.company_id@, self.wd_instance@, self.portal@),
    {
        let mut u = concat4("https://", self.company_id.as_str(), ".", self.wd_instance.as_str());
        push_str(&mut u, ".myworkdayjobs.com/");
        push_str(&mut u, self.portal.as_str());
        u
    }

    /// The listing a posting gives.
    pub fn map_job(&self, apply_base: &str, job: WorkdayJob) -> (r: JobListing)
        ensures
            r@ == workday_listing(self.display_name@, apply_base@, job@),
    {
        let url = concat2(apply_base, job.external_path.as_str());
        let snippet = if job.bullet_fields.len() == 0 {
            None
        } else {
            Some(join_texts(&job.bullet_fields, " · "))
        };
        JobListing {
            id: make_id(self.display_name.as_str(), url.as_str()),
            title: job.title,
            company: self.display_name.clone(),
            location: match job.locations_text {
                Some(l) => l,
                None => String::new(),
            },
            url,
            source: concat2(self.display_name.as_str(), " (Careers)"),
            posted_at: job.posted_on,
            scraped_at: utc_now(),
            description_snippet: snippet,
        }
    }

    /// The listings a search reply gives, one per posting, in order.
    pub fn map_jobs(&self, resp: WorkdayResponse) -> (r: Vec<JobListing>)
        ensures
            listings_view(r@) == workday_listings(
                self.display_name@,
                workday_apply_base(self.company_id@, self.wd_instance@, self.portal@),
                resp.job_postings@,
            ),
    {
        let base = self.apply_base();
        let mut out: Vec<JobListing> = Vec::new();
        for job in it: resp.job_postings
            invariant
                base@ == workday_apply_base(self.company_id@, self.wd_instance@, self.portal@),
                listings_view(out@) == workday_listings(self.display_name@, base@, it.seq().take(it.index() as int)),
        {
            let ghost k = it.index() as int;
            let ghost jv = job@;
            assert(jv == it.seq()[k]@);
            let l = self.map_job(base.as_str(), job);
            let ghost before = out@;
            out.push(l);
            proof {
                assert(listings_view(out@) == listings_view(before).push(l@));
                assert(workday_listings(self.display_name@, base@, it.seq().take(k + 1)) == workday_listings(
                    self.display_name@,
                    base@,
                    it.seq().take(k),
                ).push(workday_listing(self.display_name@, base@, jv)));
            }
        }
        out
    }
}

/// Whatever the search text, its JSON form holds no control character, and
/// each `"` in it follows a `\`: the text cannot end the JSON string early.
pub proof fn law_json_escaped_stays_in_string(s: Seq<char>)
    ensures
        forall|k: int|
            0 <= k < json_escaped(s).len() ==> (#[trigger] json_escaped(s)[k] as u32) >= 0x20,
        forall|k: int|
            0 <= k < json_escaped(s).len() && #[trigger] json_escaped(s)[k] == '"' ==> k > 0 && json_escaped(s)[k - 1]
                == '\\',
    decreases s.len(),
{
    if s.len() > 0 {
        law_json_escaped_stays_in_string(s.drop_last());
        let a = json_escaped(s.drop_last());
        let b = json_char(s.last());
        let e = json_escaped(s);
        assert(e == a + b);
        assert forall|k: int| 0 <= k < e.len() implies (#[trigger] e[k] as u32) >= 0x20 by {
            if k < a.len() {
                assert(e[k] == a[k]);
            } else {
                assert(e[k] == b[k - a.len()]);
            }
        }
        assert forall|k: int| 0 <= k < e.len() && #[trigger] e[k] == '"' implies k > 0 && e[k - 1] == '\\' by {
            if k < a.len() {
                assert(e[k] == a[k]);
                assert(e[k - 1] == a[k - 1]);
            } else {
                assert(e[k] == b[k - a.len()]);
                assert(k - a.len() == 1);
                assert(e[k - 1] == b[0]);
            }
        }
    }
}

} // verus!
