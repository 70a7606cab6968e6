use vstd::prelude::*;
use crate::model::opt_view;

verus! {

/// What resolving `reference` against the absolute URL `base` gives, in
/// serialised form; `None` where `base` is no absolute URL or the result is
/// none.
pub uninterp spec fn joined_url(base: Seq<char>, reference: Seq<char>) -> Option<Seq<char>>;

/// The value of attribute `attr` on the first element that the CSS selector
/// `selector` matches in the document parsed from `html`, elements taken in
/// the order the parser created them (which may differ from document order
/// where the parser moves nodes); `None` where the selector does not parse,
/// nothing matches, or the element lacks the attribute.
pub uninterp spec fn first_attr(html: Seq<char>, selector: Seq<char>, attr: Seq<char>) -> Option<Seq<char>>;

/// Relies on url's `Url::parse` and `Url::join`: parses `base`, resolves
/// `reference` against it and serialises the result.
#[verifier::external_body]
pub(crate) fn resolve_url(base: &str, reference: &str) -> (r: Option<String>)
    ensures
        opt_view(r) == joined_url(base@, reference@),
{
    url::Url::parse(base).and_then(|b| b.join(reference)).ok().map(|u| u.to_string())
}

/// Relies on scraper's `Html::parse_document`, `Selector::parse`, `Html::select`
/// and `ElementRef::attr`: reads an attribute of the first matching element.
#[verifier::external_body]
pub(crate) fn select_attr(html: &str, selector: &str, attr: &str) -> (r: Option<String>)
    ensures
        opt_view(r) == first_attr(html@, selector@, attr@),
{
    let selector = scraper::Selector::parse(selector).ok()?;
    let dom = scraper::Html::parse_document(html);
    let value = dom.select(&selector).next()?.attr(attr).map(|v| v.to_string());
    value
}

} // verus!
