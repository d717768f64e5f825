//! Reading listing pages: the pagination control of a search result and the
//! score rows of each listing page.
use vstd::prelude::*;
use crate::text::{chars_of, parse_u32, parse_u32_spec, trim_text, trimmed};

verus! {

/// The inner markup of the elements that a CSS selector picks from an HTML
/// document, in the order of the parsed tree; `None` where the selector does not parse.
pub uninterp spec fn selected_html(page: Seq<char>, selector: Seq<char>) -> Option<Seq<Seq<char>>>;

/// The link of the last numbered entry of the pagination control.
pub const PAGINATION_SELECTOR: &'static str = ".page-item:nth-last-child(2) > a";

/// The single-core figure of each listing row.
pub const SINGLE_CORE_SELECTOR: &'static str = "div.list-col-inner > div.row > div.col-6:nth-child(4) > span.list-col-text-score";

/// The multi-core figure of each listing row.
pub const MULTI_CORE_SELECTOR: &'static str = "div.list-col-inner > div.row > div.col-6:nth-child(5) > span.list-col-text-score";

/// One benchmark result: its single-core and its multi-core score.
#[derive(Clone, Copy, Debug, PartialEq, Eq, Structural)]
pub struct ScorePair {
    pub single_core: u32,
    pub multi_core: u32,
}

/// Why a page could not be read.
#[derive(Clone, Copy, Debug, PartialEq, Eq, Structural)]
pub enum PageError {
    /// The page holds a different number of single-core and multi-core figures.
    ExtractionMismatch,
    /// A score figure, or the page number of the pagination control, is not a number.
    ExtractionParseError,
    /// A selector of the listing layout was refused by the HTML library.
    SelectorError,
}

/// What the first listing page of a search says: whether the name was found
/// and over how many pages its results run.
#[derive(Clone, Copy, Debug, PartialEq, Eq, Structural)]
pub struct Probe {
    pub exists: bool,
    pub page_count: u32,
}

/// Relies on scraper's `Selector::parse`, `Html::parse_document`, `Html::select`
/// and `ElementRef::inner_html`: the inner markup of every element that the
/// selector picks, in the order of the parsed tree, or `None` where the selector is refused.
#[verifier::external_body]
fn select_inner_html(page: &str, selector: &str) -> (r: Option<Vec<String>>)
    ensures
        r is Some <==> selected_html(page@, selector@) is Some,
        r is Some ==> texts(r->0@) == selected_html(page@, selector@)->0,
{
    match scraper::Selector::parse(selector) {
        Ok(sel) => Some(scraper::Html::parse_document(page).select(&sel).map(|e| e.inner_html()).collect()),
        Err(_) => None,
    }
}

pub open spec fn texts(v: Seq<String>) -> Seq<Seq<char>> {
    v.map_values(|s: String| s@)
}

pub open spec fn score_of(s: Seq<char>) -> Option<u32> {
    parse_u32_spec(trimmed(s))
}

/// What the inner markup of the pagination links says.
pub open spec fn probe_spec(links: Seq<Seq<char>>) -> Result<Probe, PageError> {
    if links.len() == 0 {
        Ok(Probe { exists: false, page_count: 0 })
    } else {
        match score_of(links[0]) {
            Some(n) => Ok(Probe { exists: true, page_count: if n == 0 { 1 } else { n } }),
            None => Err(PageError::ExtractionParseError),
        }
    }
}

pub open spec fn all_scores(s: Seq<Seq<char>>) -> bool {
    forall|i: int| 0 <= i < s.len() ==> (#[trigger] score_of(s[i])) is Some
}

/// The score pairs of a page, given the texts of its single-core and of its
/// multi-core figures: the i-th of each form the i-th pair.
pub open spec fn pairs_spec(single: Seq<Seq<char>>, multi: Seq<Seq<char>>) -> Result<Seq<ScorePair>, PageError> {
    if single.len() != multi.len() {
        Err(PageError::ExtractionMismatch)
    } else if !(all_scores(single) && all_scores(multi)) {
        Err(PageError::ExtractionParseError)
    } else {
        Ok(Seq::new(single.len(), |i: int| ScorePair {
            single_core: score_of(single[i])->0,
            multi_core: score_of(multi[i])->0,
        }))
    }
}

pub open spec fn pairs_view(r: Result<Vec<ScorePair>, PageError>) -> Result<Seq<ScorePair>, PageError> {
    match r {
        Ok(v) => Ok(v@),
        Err(e) => Err(e),
    }
}

fn score_text(s: &String) -> (r: Option<u32>)
    ensures
        r == score_of(s@),
{
    let t = trim_text(s.as_str());
    parse_u32(&chars_of(t.as_str()))
}

/// Reads the probe result from the inner markup of the pagination links: no
/// link means the name was not found; otherwise the first link gives the page
/// count, at least 1.
pub fn probe_from_links(links: &Vec<String>) -> (r: Result<Probe, PageError>)
    ensures
        r == probe_spec(texts(links@)),
{
    if links.len() == 0 {
        Ok(Probe { exists: false, page_count: 0 })
    } else {
        match score_text(&links[0]) {
            Some(n) => Ok(Probe { exists: true, page_count: if n == 0 { 1 } else { n } }),
            None => Err(PageError::ExtractionParseError),
        }
    }
}

/// Probes the first listing page of a search for its pagination control.
pub fn probe_page(page: &str) -> (r: Result<Probe, PageError>)
    ensures
        selected_html(page@, PAGINATION_SELECTOR@) is None ==> r == Err::<Probe, PageError>(PageError::SelectorError),
        selected_html(page@, PAGINATION_SELECTOR@) is Some ==> r == probe_spec(
            selected_html(page@, PAGINATION_SELECTOR@)->0,
        ),
{
    match select_inner_html(page, PAGINATION_SELECTOR) {
        Some(links) => probe_from_links(&links),
        None => Err(PageError::SelectorError),
    }
}

/// Pairs the single-core and multi-core figures of one page, in order.
pub fn pair_scores(single: &Vec<String>, multi: &Vec<String>) -> (r: Result<Vec<ScorePair>, PageError>)
    ensures
        pairs_view(r) == pairs_spec(texts(single@), texts(multi@)),
{
    let ghost s = texts(single@);
    let ghost m = texts(multi@);
    if single.len() != multi.len() {
        return Err(PageError::ExtractionMismatch);
    }
    let mut out: Vec<ScorePair> = Vec::new();
    let mut i: usize = 0;
    while i < single.len()
        invariant
            i <= single.len() == multi.len(),
            s == texts(single@),
            m == texts(multi@),
            forall|j: int| 0 <= j < i ==> (#[trigger] score_of(s[j])) is Some,
            forall|j: int| 0 <= j < i ==> (#[trigger] score_of(m[j])) is Some,
            out@.len() == i,
            forall|j: int| 0 <= j < i ==> (#[trigger] out@[j]) == (ScorePair {
                single_core: score_of(s[j])->0,
                multi_core: score_of(m[j])->0,
            }),
        decreases single.len() - i,
    {
        let a = score_text(&single[i]);
        let b = score_text(&multi[i]);
        match (a, b) {
            (Some(x), Some(y)) => {
                out.push(ScorePair { single_core: x, multi_core: y });
            },
            _ => {
                proof {
                    assert(s[i as int] == single@[i as int]@);
                    assert(m[i as int] == multi@[i as int]@);
                    assert(!(all_scores(s) && all_scores(m)));
                }
                return Err(PageError::ExtractionParseError);
            },
        }
        i = i + 1;
    }
    proof {
        assert(all_scores(s));
        assert(all_scores(m));
        assert(s.len() == single@.len() && m.len() == multi@.len());
        let expect = Seq::new(s.len(), |j: int| ScorePair {
            single_core: score_of(s[j])->0,
            multi_core: score_of(m[j])->0,
        });
        assert(out@ =~= expect);
        assert(pairs_spec(s, m) == Ok::<Seq<ScorePair>, PageError>(expect));
    }
    Ok(out)
}

/// The score pairs of one listing page.
pub open spec fn page_spec(page: Seq<char>) -> Result<Seq<ScorePair>, PageError> {
    let s = selected_html(page, SINGLE_CORE_SELECTOR@);
    let m = selected_html(page, MULTI_CORE_SELECTOR@);
    if s is None || m is None {
        Err(PageError::SelectorError)
    } else {
        pairs_spec(s->0, m->0)
    }
}

/// Extracts the score pairs of one listing page, in the order of the parsed tree.
pub fn extract_scores(page: &str) -> (r: Result<Vec<ScorePair>, PageError>)
    ensures
        pairs_view(r) == page_spec(page@),
{
    let single = match select_inner_html(page, SINGLE_CORE_SELECTOR) {
        Some(v) => v,
        None => return Err(PageError::SelectorError),
    };
    let multi = match select_inner_html(page, MULTI_CORE_SELECTOR) {
        Some(v) => v,
        None => return Err(PageError::SelectorError),
    };
    pair_scores(&single, &multi)
}

/// A page whose single-core and multi-core figures all read as numbers gives
/// one pair per row, the i-th pair made of the i-th figures; when the two
/// lists differ in length the page is refused as mismatched.
pub proof fn lemma_pairs_follow_rows(single: Seq<Seq<char>>, multi: Seq<Seq<char>>)
    ensures
        single.len() != multi.len() ==> pairs_spec(single, multi) == Err::<Seq<ScorePair>, PageError>(
            PageError::ExtractionMismatch,
        ),
        pairs_spec(single, multi) matches Ok(v) ==> v.len() == single.len() && forall|i: int|
            0 <= i < v.len() ==> Some((#[trigger] v[i]).single_core) == score_of(single[i])
                && Some(v[i].multi_core) == score_of(multi[i]),
{
}

/// A first page without pagination links means the name is absent, with no
/// pages; a pagination control whose last numbered link reads `n` means the
/// name is present over `n` pages, and at least one.
pub proof fn lemma_probe_outcomes(links: Seq<Seq<char>>)
    ensures
        links.len() == 0 ==> probe_spec(links) == Ok::<Probe, PageError>(Probe { exists: false, page_count: 0 }),
        links.len() > 0 && score_of(links[0]) is Some ==> probe_spec(links) == Ok::<Probe, PageError>(
            (Probe {
                exists: true,
                page_count: if score_of(links[0])->0 == 0 { 1 } else { score_of(links[0])->0 },
            }),
        ),
{
}

} // verus!
