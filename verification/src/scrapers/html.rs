use vstd::prelude::*;

use crate::models::opt_text;

verus! {

/// The optional texts of a list, as characters.
pub open spec fn opt_texts(v: Seq<Option<String>>) -> Seq<Option<Seq<char>>> {
    v.map_values(|o: Option<String>| opt_text(o))
}

/// What `scraper` finds in the HTML document `html`: for each element that
/// matches `card_selector`, in document order, the text (all descendant text
/// nodes joined) of the first element inside it that matches
/// `field_selector`, or `None` where nothing matches. `None` as a whole where
/// a selector does not parse.
pub uninterp spec fn card_texts_in(html: Seq<char>, card_selector: Seq<char>, field_selector: Seq<char>) -> Option<Seq<Option<Seq<char>>>>;

/// What `scraper` finds in the HTML document `html`: for each element that
/// matches `card_selector`, in document order, the value of attribute `attr`
/// of the first element inside it that matches `field_selector`, or `None`
/// where nothing matches or that element lacks the attribute. `None` as a
/// whole where a selector does not parse.
pub uninterp spec fn card_attrs_in(html: Seq<char>, card_selector: Seq<char>, field_selector: Seq<char>, attr: Seq<char>) -> Option<Seq<Option<Seq<char>>>>;

/// Calls `scraper`: `Html::parse_document` on `html`, `Selector::parse` on the
/// two selectors, `Html::select` for the cards, and for each card
/// `ElementRef::select(..).next()` and `ElementRef::text`. The result is a
/// function of the three strings alone, named `card_texts_in`.
#[verifier::external_body]
pub(crate) fn card_texts(html: &str, card_selector: &str, field_selector: &str) -> (r: Option<Vec<Option<String>>>)
    ensures
        match r {
            Some(v) => card_texts_in(html@, card_selector@, field_selector@) == Some(opt_texts(v@)),
            None => card_texts_in(html@, card_selector@, field_selector@) is None,
        },
{
    let doc = scraper::Html::parse_document(html);
    let cards = scraper::Selector::parse(card_selector).ok()?;
    let field = scraper::Selector::parse(field_selector).ok()?;
    Some(doc.select(&cards).map(|card| card.select(&field).next().map(|el| el.text().collect::<String>())).collect())
}

/// Calls `scraper`: `Html::parse_document` on `html`, `Selector::parse` on the
/// two selectors, `Html::select` for the cards, and for each card
/// `ElementRef::select(..).next()` and `ElementRef::attr`. The result is a
/// function of the four strings alone, named `card_attrs_in`.
#[verifier::external_body]
pub(crate) fn card_attrs(html: &str, card_selector: &str, field_selector: &str, attr: &str) -> (r: Option<Vec<Option<String>>>)
    ensures
        match r {
            Some(v) => card_attrs_in(html@, card_selector@, field_selector@, attr@) == Some(opt_texts(v@)),
            None => card_attrs_in(html@, card_selector@, field_selector@, attr@) is None,
        },
{
    let doc = scraper::Html::parse_document(html);
    let cards = scraper::Selector::parse(card_selector).ok()?;
    let field = scraper::Selector::parse(field_selector).ok()?;
    Some(doc.select(&cards).map(|card| card.select(&field).next().and_then(|el| el.value().attr(attr)).map(|a| a.to_string())).collect())
}

} // verus!
