//! Aggregation of per-issue extraction results.
//!
//! Each issue page is fetched independently by the caller; the fetch
//! outcomes come back here in issue order, one `Result` per issue. The
//! collector extracts the articles of every page that was fetched and
//! merges them into one flat record set. A page that failed to fetch
//! contributes nothing and does not disturb the records of any other
//! page; the merge is single-threaded, so no lock is needed.

use crate::extract::{articles_of, get_articles, Article};
use crate::html::MAX_MARKUP_LEN;
use vstd::prelude::*;

verus! {

/// Why one page could not be fetched; carried so a failed issue can be
/// reported and skipped without aborting the run.
#[derive(Debug, Clone)]
pub struct FetchError {
    pub message: String,
}

impl View for FetchError {
    type V = Seq<char>;

    open spec fn view(&self) -> Self::V {
        self.message@
    }
}

/// The fetched page text of each outcome, in issue order, with `None`
/// standing for a failed fetch.
pub open spec fn page_views(outcomes: Seq<Result<String, FetchError>>) -> Seq<
    Option<Seq<char>>,
> {
    outcomes.map_values(
        |o: Result<String, FetchError>|
            match o {
                Ok(page) => Some(page@),
                Err(_) => None,
            },
    )
}

/// The records one page contributes: its extracted articles when it was
/// fetched, nothing when the fetch failed.
pub open spec fn page_records(page: Option<Seq<char>>) -> Seq<(Seq<char>, Seq<char>)> {
    match page {
        Some(markup) => articles_of(markup),
        None => Seq::empty(),
    }
}

/// All records extracted from a run's fetched pages, in issue order.
pub open spec fn collected_from(pages: Seq<Option<Seq<char>>>) -> Seq<(Seq<char>, Seq<char>)>
    decreases pages.len(),
{
    if pages.len() == 0 {
        Seq::empty()
    } else {
        collected_from(pages.drop_last()) + page_records(pages.last())
    }
}

/// The number of records owed by the pages that were fetched: the sum of
/// the per-page article counts, failed fetches counting zero.
pub open spec fn collected_count(pages: Seq<Option<Seq<char>>>) -> nat
    decreases pages.len(),
{
    if pages.len() == 0 {
        0
    } else {
        collected_count(pages.drop_last()) + page_records(pages.last()).len()
    }
}

/// The merged result holds exactly the sum, over the successfully
/// fetched pages, of the number of records each contributes, whatever
/// the mix of successes and failures.
pub proof fn lemma_collected_size(pages: Seq<Option<Seq<char>>>)
    ensures
        collected_from(pages).len() == collected_count(pages),
    decreases pages.len(),
{
    if pages.len() > 0 {
        lemma_collected_size(pages.drop_last());
    }
}

/// Extending a run by one page appends exactly that page's records.
pub proof fn lemma_collected_take_step(pages: Seq<Option<Seq<char>>>, k: int)
    requires
        0 <= k < pages.len(),
    ensures
        collected_from(pages.take(k + 1)) == collected_from(pages.take(k)) + page_records(
            pages[k],
        ),
        collected_count(pages.take(k + 1)) == collected_count(pages.take(k)) + page_records(
            pages[k],
        ).len(),
{
    assert(pages.take(k + 1).drop_last() =~= pages.take(k));
    assert(pages.take(k + 1).last() == pages[k]);
}

/// The records of one successfully fetched page stand contiguously in
/// the merged result, at the offset owed by the pages before it: a
/// failure elsewhere in the run never removes them.
pub proof fn lemma_page_records_present(pages: Seq<Option<Seq<char>>>, k: int)
    requires
        0 <= k < pages.len(),
    ensures
        collected_from(pages).subrange(
            collected_count(pages.take(k)) as int,
            collected_count(pages.take(k)) as int + page_records(pages[k]).len(),
        ) == page_records(pages[k]),
    decreases pages.len(),
{
    let off = collected_count(pages.take(k)) as int;
    let n = page_records(pages[k]).len() as int;
    if k == pages.len() - 1 {
        assert(pages.take(k) =~= pages.drop_last());
        lemma_collected_size(pages.drop_last());
        assert(collected_from(pages).subrange(off, off + n) =~= page_records(pages[k]));
    } else {
        let front = pages.drop_last();
        lemma_page_records_present(front, k);
        assert(front.take(k) =~= pages.take(k));
        lemma_collected_size(front);
        lemma_collected_count_take_bound(front, k);
        assert(collected_from(pages).subrange(off, off + n) =~= collected_from(front).subrange(
            off,
            off + n,
        ));
    }
}

/// The records owed by the first k pages, plus those of page k itself,
/// never exceed the records owed by the whole run.
pub proof fn lemma_collected_count_take_bound(pages: Seq<Option<Seq<char>>>, k: int)
    requires
        0 <= k < pages.len(),
    ensures
        collected_count(pages.take(k)) + page_records(pages[k]).len() <= collected_count(pages),
    decreases pages.len(),
{
    if k == pages.len() - 1 {
        assert(pages.take(k) =~= pages.drop_last());
    } else {
        lemma_collected_count_take_bound(pages.drop_last(), k);
        assert(pages.drop_last().take(k) =~= pages.take(k));
    }
}

/// Merges the per-issue fetch outcomes into one flat record set: the
/// articles of every page that was fetched, in issue order; a failed
/// fetch contributes nothing and is skipped. The length bound on each
/// fetched page is a parser limit: markup past it would overrun the
/// parser's buffer cap.
pub fn collect_articles(outcomes: Vec<Result<String, FetchError>>) -> (articles: Vec<Article>)
    requires
        forall|i: int|
            0 <= i < outcomes@.len() ==> (#[trigger] outcomes@[i] matches Ok(page)
                ==> page@.len() < MAX_MARKUP_LEN),
    ensures
        articles@.map_values(|a: Article| a@) == collected_from(page_views(outcomes@)),
{
    let ghost pages = page_views(outcomes@);
    let mut articles: Vec<Article> = Vec::new();
    let mut k: usize = 0;
    while k < outcomes.len()
        invariant
            k <= outcomes.len(),
            pages == page_views(outcomes@),
            articles@.map_values(|a: Article| a@) == collected_from(pages.take(k as int)),
            forall|i: int|
                0 <= i < outcomes@.len() ==> (#[trigger] outcomes@[i] matches Ok(page)
                    ==> page@.len() < MAX_MARKUP_LEN),
        decreases outcomes.len() - k,
    {
        proof {
            lemma_collected_take_step(pages, k as int);
        }
        match &outcomes[k] {
            Ok(page) => {
                let mut found = get_articles(page.clone());
                articles.append(&mut found);
            },
            Err(_) => {},
        }
        proof {
            assert(articles@.map_values(|a: Article| a@) =~= collected_from(pages.take(k + 1)));
        }
        k = k + 1;
    }
    proof {
        assert(pages.take(outcomes@.len() as int) =~= pages);
    }
    articles
}

} // verus!
