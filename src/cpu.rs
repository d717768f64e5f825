//! The acquisition state of each requested processor and the decisions taken
//! on it: whether to probe, which pages to fetch, what a fetched page adds,
//! and which names block the run.
use vstd::prelude::*;
use crate::scrape::{extract_scores, page_spec, pairs_view, probe_page, selected_html, probe_spec, texts, PageError, Probe, ScorePair, PAGINATION_SELECTOR};
use crate::url::{to_url, url_spec};

verus! {

/// Whether a processor is known, to the cache or to the remote listing.
#[derive(Clone, Copy, Debug, PartialEq, Eq, Structural)]
pub enum Exist {
    Present,
    Absent,
    Unknown,
}

/// One requested processor and what has been learnt of it during a run.
#[derive(Debug)]
pub struct Cpu {
    pub name: String,
    pub single_core_score: Vec<u32>,
    pub multi_core_score: Vec<u32>,
    pub is_in_db: Exist,
    pub is_on_internet: Exist,
    pub pages: Vec<String>,
    pub number_of_pages: u32,
}

pub open spec fn singles(s: Seq<ScorePair>) -> Seq<u32> {
    s.map_values(|p: ScorePair| p.single_core)
}

pub open spec fn multis(s: Seq<ScorePair>) -> Seq<u32> {
    s.map_values(|p: ScorePair| p.multi_core)
}

/// The score pairs of a run of listing pages, page after page; the first
/// page that cannot be read decides the error.
pub open spec fn pages_spec(pages: Seq<Seq<char>>) -> Result<Seq<ScorePair>, PageError>
    decreases pages.len(),
{
    if pages.len() == 0 {
        Ok(seq![])
    } else {
        match pages_spec(pages.drop_last()) {
            Err(e) => Err(e),
            Ok(a) => match page_spec(pages.last()) {
                Err(e) => Err(e),
                Ok(b) => Ok(a + b),
            },
        }
    }
}

/// Whether the run must ask the remote listing about this processor.
pub open spec fn needs_probe_spec(c: Cpu) -> bool {
    c.is_in_db != Exist::Present
}

/// The pages still to fetch: pages 2 to the page count, for a processor that
/// is not cached.
pub open spec fn fetch_count(c: Cpu) -> nat {
    if c.is_in_db == Exist::Absent && c.number_of_pages >= 2 {
        (c.number_of_pages - 1) as nat
    } else {
        0
    }
}

/// The names of the processors that the remote listing does not know, in order.
pub open spec fn missing_spec(cpus: Seq<Cpu>) -> Seq<Seq<char>>
    decreases cpus.len(),
{
    if cpus.len() == 0 {
        seq![]
    } else if cpus.last().is_on_internet == Exist::Absent {
        missing_spec(cpus.drop_last()).push(cpus.last().name@)
    } else {
        missing_spec(cpus.drop_last())
    }
}

impl Default for Cpu {
    fn default() -> (r: Self)
        ensures
            r.name@ == Seq::<char>::empty(),
            r.single_core_score@ == Seq::<u32>::empty(),
            r.multi_core_score@ == Seq::<u32>::empty(),
            r.is_in_db == Exist::Unknown,
            r.is_on_internet == Exist::Unknown,
            r.pages@ == Seq::<String>::empty(),
            r.number_of_pages == 0,
    {
        Cpu {
            name: String::new(),
            single_core_score: Vec::new(),
            multi_core_score: Vec::new(),
            is_in_db: Exist::Unknown,
            is_on_internet: Exist::Unknown,
            pages: Vec::new(),
            number_of_pages: 0,
        }
    }
}

impl Cpu {
    /// A processor named `name`, whose cache state is known.
    pub fn new(name: String, cached: bool) -> (r: Cpu)
        ensures
            r.name@ == name@,
            r.is_in_db == (if cached { Exist::Present } else { Exist::Absent }),
            r.is_on_internet == Exist::Unknown,
            r.single_core_score@.len() == 0,
            r.multi_core_score@.len() == 0,
            r.pages@.len() == 0,
            r.number_of_pages == 0,
    {
        Cpu {
            name,
            single_core_score: Vec::new(),
            multi_core_score: Vec::new(),
            is_in_db: if cached { Exist::Present } else { Exist::Absent },
            is_on_internet: Exist::Unknown,
            pages: Vec::new(),
            number_of_pages: 0,
        }
    }

    /// Whether the remote listing must be asked about this processor: only a
    /// cached one is left alone.
    pub fn needs_probe(&self) -> (r: bool)
        ensures
            r == needs_probe_spec(*self),
    {
        self.is_in_db != Exist::Present
    }

    /// Records the first listing page of the search for this processor and
    /// what its pagination control says.
    pub fn record_probe(&mut self, first_page: String) -> (r: Result<Probe, PageError>)
        ensures
            final(self).pages@ == old(self).pages@.push(first_page),
            final(self).name == old(self).name,
            final(self).is_in_db == old(self).is_in_db,
            final(self).single_core_score == old(self).single_core_score,
            final(self).multi_core_score == old(self).multi_core_score,
            selected_html(first_page@, PAGINATION_SELECTOR@) is None ==> r == Err::<Probe, PageError>(PageError::SelectorError),
            selected_html(first_page@, PAGINATION_SELECTOR@) is Some ==> r == probe_spec(
                selected_html(first_page@, PAGINATION_SELECTOR@)->0,
            ),
            r matches Ok(p) ==> final(self).is_on_internet == (if p.exists { Exist::Present } else { Exist::Absent })
                && final(self).number_of_pages == p.page_count,
            r is Err ==> final(self).is_on_internet == old(self).is_on_internet
                && final(self).number_of_pages == old(self).number_of_pages,
    {
        let r = probe_page(first_page.as_str());
        self.pages.push(first_page);
        if let Ok(p) = r {
            self.is_on_internet = if p.exists { Exist::Present } else { Exist::Absent };
            self.number_of_pages = p.page_count;
        }
        r
    }

    /// The addresses of the listing pages that remain to be fetched: pages 2
    /// to the page count, and none for a processor that is cached.
    pub fn fetch_urls(&self) -> (r: Vec<String>)
        ensures
            r@.len() == fetch_count(*self),
            forall|i: int| 0 <= i < r@.len() ==> (#[trigger] r@[i])@ == url_spec(self.name@, (i + 2) as nat),
    {
        let mut out: Vec<String> = Vec::new();
        if self.is_in_db != Exist::Absent {
            return out;
        }
        let n: u32 = self.number_of_pages;
        if n < 2 {
            return out;
        }
        let mut page: u64 = 2;
        while page <= n as u64
            invariant
                2 <= page <= n as u64 + 1,
                n == self.number_of_pages,
                out@.len() == page - 2,
                forall|i: int| 0 <= i < out@.len() ==> (#[trigger] out@[i])@ == url_spec(self.name@, (i + 2) as nat),
            decreases n as u64 + 1 - page,
        {
            out.push(to_url(self.name.as_str(), page as u32));
            page = page + 1;
        }
        out
    }

    /// Appends score pairs to this processor's score series.
    pub fn append_scores(&mut self, pairs: &Vec<ScorePair>)
        ensures
            final(self).single_core_score@ == old(self).single_core_score@ + singles(pairs@),
            final(self).multi_core_score@ == old(self).multi_core_score@ + multis(pairs@),
            final(self).name == old(self).name,
            final(self).is_in_db == old(self).is_in_db,
            final(self).is_on_internet == old(self).is_on_internet,
            final(self).pages == old(self).pages,
            final(self).number_of_pages == old(self).number_of_pages,
    {
        let mut i: usize = 0;
        while i < pairs.len()
            invariant
                i <= pairs.len(),
                self.single_core_score@ == old(self).single_core_score@ + singles(pairs@.take(i as int)),
                self.multi_core_score@ == old(self).multi_core_score@ + multis(pairs@.take(i as int)),
                self.name == old(self).name,
                self.is_in_db == old(self).is_in_db,
                self.is_on_internet == old(self).is_on_internet,
                self.pages == old(self).pages,
                self.number_of_pages == old(self).number_of_pages,
            decreases pairs.len() - i,
        {
            let p = pairs[i];
            self.single_core_score.push(p.single_core);
            self.multi_core_score.push(p.multi_core);
            i = i + 1;
            assert(self.single_core_score@ =~= old(self).single_core_score@ + singles(pairs@.take(i as int)));
            assert(self.multi_core_score@ =~= old(self).multi_core_score@ + multis(pairs@.take(i as int)));
        }
        assert(pairs@.take(i as int) =~= pairs@);
    }

    /// Reads the score pairs of fetched listing pages, in page order, adds
    /// them to the score series, and keeps the pages. Returns the pairs read,
    /// which are the ones to store; on an unreadable page the series is left
    /// as it was.
    pub fn absorb_pages(&mut self, fetched: Vec<String>) -> (r: Result<Vec<ScorePair>, PageError>)
        ensures
            pairs_view(r) == pages_spec(texts(old(self).pages@ + fetched@)),
            final(self).pages@ == old(self).pages@ + fetched@,
            r matches Ok(v) ==> final(self).single_core_score@ == old(self).single_core_score@ + singles(v@)
                && final(self).multi_core_score@ == old(self).multi_core_score@ + multis(v@),
            r is Err ==> final(self).single_core_score == old(self).single_core_score
                && final(self).multi_core_score == old(self).multi_core_score,
            final(self).name == old(self).name,
            final(self).is_in_db == old(self).is_in_db,
            final(self).is_on_internet == old(self).is_on_internet,
            final(self).number_of_pages == old(self).number_of_pages,
    {
        let ghost added = fetched@;
        let mut more = fetched;
        self.pages.append(&mut more);
        let ghost all = texts(self.pages@);
        let mut found: Vec<ScorePair> = Vec::new();
        let mut i: usize = 0;
        while i < self.pages.len()
            invariant
                i <= self.pages@.len(),
                all == texts(self.pages@),
                self.pages@ == old(self).pages@ + added,
                added == fetched@,
                pages_spec(all.take(i as int)) == Ok::<Seq<ScorePair>, PageError>(found@),
                self.single_core_score == old(self).single_core_score,
                self.multi_core_score == old(self).multi_core_score,
                self.name == old(self).name,
                self.is_in_db == old(self).is_in_db,
                self.is_on_internet == old(self).is_on_internet,
                self.number_of_pages == old(self).number_of_pages,
            decreases self.pages@.len() - i,
        {
            proof {
                assert(all.take(i + 1).drop_last() =~= all.take(i as int));
                assert(all.take(i + 1).last() == self.pages@[i as int]@);
            }
            match extract_scores(self.pages[i].as_str()) {
                Ok(mut v) => {
                    found.append(&mut v);
                },
                Err(e) => {
                    proof {
                        assert(pages_spec(all.take(i + 1)) == Err::<Seq<ScorePair>, PageError>(e));
                        lemma_pages_error_stays(all, i as int + 1);
                        assert(pages_spec(all) == Err::<Seq<ScorePair>, PageError>(e));
                    }
                    return Err(e);
                },
            }
            i = i + 1;
        }
        assert(all.take(i as int) =~= all);
        self.append_scores(&found);
        Ok(found)
    }
}

proof fn lemma_pages_error_stays(pages: Seq<Seq<char>>, i: int)
    requires
        0 <= i <= pages.len(),
        pages_spec(pages.take(i)) is Err,
    ensures
        pages_spec(pages) == pages_spec(pages.take(i)),
    decreases pages.len() - i,
{
    if i < pages.len() {
        assert(pages.take(i + 1).drop_last() =~= pages.take(i));
        lemma_pages_error_stays(pages, i + 1);
    } else {
        assert(pages.take(i) =~= pages);
    }
}

/// A processor that the cache holds is never probed and has no page to fetch.
pub proof fn lemma_cached_never_fetched(c: Cpu)
    requires
        c.is_in_db == Exist::Present,
    ensures
        !needs_probe_spec(c),
        fetch_count(c) == 0,
{
}

/// The run may go on only when the remote listing knows every requested
/// processor; otherwise the names it does not know, in request order.
pub fn not_found(cpus: &Vec<Cpu>) -> (r: Result<(), Vec<String>>)
    ensures
        r is Ok <==> missing_spec(cpus@).len() == 0,
        r matches Err(v) ==> texts(v@) == missing_spec(cpus@),
{
    let mut names: Vec<String> = Vec::new();
    let mut i: usize = 0;
    while i < cpus.len()
        invariant
            i <= cpus@.len(),
            texts(names@) == missing_spec(cpus@.take(i as int)),
        decreases cpus@.len() - i,
    {
        proof {
            assert(cpus@.take(i + 1).drop_last() =~= cpus@.take(i as int));
        }
        if cpus[i].is_on_internet == Exist::Absent {
            names.push(cpus[i].name.clone());
        }
        i = i + 1;
        assert(texts(names@) =~= missing_spec(cpus@.take(i as int)));
    }
    assert(cpus@.take(i as int) =~= cpus@);
    if names.len() == 0 {
        Ok(())
    } else {
        Err(names)
    }
}

} // verus!
