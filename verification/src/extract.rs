//! Extraction of issues and articles from page markup.
//!
//! Both extractors are pure functions of the text they are given: the
//! archive extractor keeps the anchors under the archive container, the
//! article extractor first probes for one of the two recognized section
//! identifiers and then keeps the anchors of the page's first list. An
//! anchor without a link target is skipped rather than treated as fatal.

use crate::html::{
    anchors_under_class, find_anchors_under_class, find_first_list_anchors, first_list_anchors,
    has_elem_with_id, markup_has_id, RawAnchor, MAX_MARKUP_LEN,
};
use vstd::prelude::*;

verus! {

/// One entry of the archive page: a newsletter issue's title and URL.
#[derive(Debug, Clone, PartialEq)]
pub struct Issue {
    pub title: String,
    pub url: String,
}

impl View for Issue {
    type V = (Seq<char>, Seq<char>);

    open spec fn view(&self) -> Self::V {
        (self.title@, self.url@)
    }
}

/// One extracted article link: its title and URL. The record carries no
/// reference back to the issue it came from; the output schema is flat.
#[derive(Debug, Clone, PartialEq)]
pub struct Article {
    pub title: String,
    pub url: String,
}

impl View for Article {
    type V = (Seq<char>, Seq<char>);

    open spec fn view(&self) -> Self::V {
        (self.title@, self.url@)
    }
}

/// The (title, url) pairs kept from a sequence of anchors: one pair per
/// anchor that carries a link target, in order; an anchor without a
/// target is skipped.
pub open spec fn linked_pairs(anchors: Seq<(Seq<char>, Option<Seq<char>>)>) -> Seq<
    (Seq<char>, Seq<char>),
>
    decreases anchors.len(),
{
    if anchors.len() == 0 {
        Seq::empty()
    } else {
        linked_pairs(anchors.drop_last()) + match anchors.last().1 {
            Some(url) => seq![(anchors.last().0, url)],
            None => Seq::empty(),
        }
    }
}

/// What `get_issues` returns, as a function of the archive page text:
/// the (text, target) pairs of the anchors under the archive container,
/// in document order.
pub open spec fn issues_of(page: Seq<char>) -> Seq<(Seq<char>, Seq<char>)> {
    linked_pairs(anchors_under_class(page, "col-sm-8"@))
}

/// Whether the page carries one of the two recognized identifiers of the
/// article section (the current one, or the legacy one used by older
/// issue pages).
pub open spec fn has_article_section(page: Seq<char>) -> bool {
    has_elem_with_id(page, "news-blog-posts"@) || has_elem_with_id(page, "blog-posts"@)
}

/// What `get_articles` returns, as a function of the issue page text:
/// nothing when the page has no recognized article section, otherwise
/// the (text, target) pairs of the anchors of the page's first list, in
/// document order.
pub open spec fn articles_of(page: Seq<char>) -> Seq<(Seq<char>, Seq<char>)> {
    if has_article_section(page) {
        linked_pairs(first_list_anchors(page))
    } else {
        Seq::empty()
    }
}

/// The number of anchors in the sequence that carry a link target.
pub open spec fn linked_count(anchors: Seq<(Seq<char>, Option<Seq<char>>)>) -> nat
    decreases anchors.len(),
{
    if anchors.len() == 0 {
        0
    } else {
        linked_count(anchors.drop_last()) + if anchors.last().1 is Some {
            1nat
        } else {
            0nat
        }
    }
}

/// Exactly the anchors with a link target survive: the result holds one
/// pair per such anchor, however many anchors are skipped around them.
pub proof fn lemma_linked_pairs_count(anchors: Seq<(Seq<char>, Option<Seq<char>>)>)
    ensures
        linked_pairs(anchors).len() == linked_count(anchors),
    decreases anchors.len(),
{
    if anchors.len() > 0 {
        lemma_linked_pairs_count(anchors.drop_last());
    }
}

/// The archive extractor returns exactly one issue per anchor under the
/// container that carries a link target, whatever other anchors the
/// markup holds.
pub proof fn lemma_issue_count(page: Seq<char>)
    ensures
        issues_of(page).len() == linked_count(anchors_under_class(page, "col-sm-8"@)),
{
    lemma_linked_pairs_count(anchors_under_class(page, "col-sm-8"@));
}

/// On a page with a recognized section, the article extractor returns
/// exactly one article per first-list anchor that carries a link target.
pub proof fn lemma_article_count(page: Seq<char>)
    requires
        has_article_section(page),
    ensures
        articles_of(page).len() == linked_count(first_list_anchors(page)),
{
    lemma_linked_pairs_count(first_list_anchors(page));
}

/// When every anchor carries a link target, no anchor is skipped: each
/// yields its (text, target) pair, in order.
pub proof fn lemma_linked_pairs_complete(anchors: Seq<(Seq<char>, Option<Seq<char>>)>)
    requires
        forall|i: int| 0 <= i < anchors.len() ==> anchors[i].1 is Some,
    ensures
        linked_pairs(anchors).len() == anchors.len(),
        forall|i: int|
            0 <= i < anchors.len() ==> linked_pairs(anchors)[i] == (
                anchors[i].0,
                anchors[i].1->0,
            ),
    decreases anchors.len(),
{
    if anchors.len() > 0 {
        lemma_linked_pairs_complete(anchors.drop_last());
    }
}

/// For archive markup whose container anchors all carry link targets,
/// extraction keeps every one of them: one issue per anchor, in document
/// order, with that anchor's text and target.
pub proof fn lemma_issues_complete(page: Seq<char>)
    requires
        forall|i: int|
            0 <= i < anchors_under_class(page, "col-sm-8"@).len() ==> anchors_under_class(
                page,
                "col-sm-8"@,
            )[i].1 is Some,
    ensures
        issues_of(page).len() == anchors_under_class(page, "col-sm-8"@).len(),
        forall|i: int|
            0 <= i < anchors_under_class(page, "col-sm-8"@).len() ==> issues_of(page)[i] == (
                anchors_under_class(page, "col-sm-8"@)[i].0,
                anchors_under_class(page, "col-sm-8"@)[i].1->0,
            ),
{
    lemma_linked_pairs_complete(anchors_under_class(page, "col-sm-8"@));
}

/// Archive markup under which no anchor matches yields no issues; the
/// extractor has no failure outcome, so this is never an error.
pub proof fn lemma_no_anchors_no_issues(page: Seq<char>)
    requires
        anchors_under_class(page, "col-sm-8"@).len() == 0,
    ensures
        issues_of(page).len() == 0,
{
}

/// An issue page carrying neither recognized section identifier yields
/// no articles.
pub proof fn lemma_no_section_no_articles(page: Seq<char>)
    requires
        !has_article_section(page),
    ensures
        articles_of(page).len() == 0,
{
}

/// For an issue page with a recognized section whose first-list anchors
/// all carry link targets: one article per anchor, in document order,
/// with that anchor's text and target.
pub proof fn lemma_articles_complete(page: Seq<char>)
    requires
        has_article_section(page),
        forall|i: int|
            0 <= i < first_list_anchors(page).len() ==> first_list_anchors(page)[i].1 is Some,
    ensures
        articles_of(page).len() == first_list_anchors(page).len(),
        forall|i: int|
            0 <= i < first_list_anchors(page).len() ==> articles_of(page)[i] == (
                first_list_anchors(page)[i].0,
                first_list_anchors(page)[i].1->0,
            ),
{
    lemma_linked_pairs_complete(first_list_anchors(page));
}

/// Extraction is a pure function of the page text: any two results drawn
/// from the same markup are the same record sets, so re-running it can
/// never change the output.
pub proof fn lemma_extraction_deterministic(
    page: Seq<char>,
    issues1: Seq<(Seq<char>, Seq<char>)>,
    issues2: Seq<(Seq<char>, Seq<char>)>,
    articles1: Seq<(Seq<char>, Seq<char>)>,
    articles2: Seq<(Seq<char>, Seq<char>)>,
)
    requires
        issues1 == issues_of(page),
        issues2 == issues_of(page),
        articles1 == articles_of(page),
        articles2 == articles_of(page),
    ensures
        issues1 == issues2,
        articles1 == articles2,
{
}

/// Extracts the issue list from the archive page: one issue per anchor
/// under the archive container that carries a link target, in document
/// order. The length bound is a parser limit: markup past it would
/// overrun the parser's buffer cap.
pub fn get_issues(archive_page: String) -> (issues: Vec<Issue>)
    requires
        archive_page@.len() < MAX_MARKUP_LEN,
    ensures
        issues@.map_values(|i: Issue| i@) == issues_of(archive_page@),
{
    let anchors = find_anchors_under_class(archive_page.as_str(), "col-sm-8");
    let ghost all = anchors@.map_values(|a: RawAnchor| a@);
    let mut issues: Vec<Issue> = Vec::new();
    let mut k: usize = 0;
    while k < anchors.len()
        invariant
            k <= anchors.len(),
            all == anchors@.map_values(|a: RawAnchor| a@),
            issues@.map_values(|i: Issue| i@) == linked_pairs(all.take(k as int)),
        decreases anchors.len() - k,
    {
        proof {
            assert(all.take(k + 1).drop_last() =~= all.take(k as int));
        }
        let anchor = &anchors[k];
        match &anchor.href {
            Some(url) => {
                issues.push(Issue { title: anchor.text.clone(), url: url.clone() });
            },
            None => {},
        }
        proof {
            assert(issues@.map_values(|i: Issue| i@) =~= linked_pairs(all.take(k + 1)));
        }
        k = k + 1;
    }
    proof {
        assert(all.take(anchors@.len() as int) =~= all);
    }
    issues
}

/// Extracts the article list from one issue page: empty when the page
/// has no recognized article section, otherwise one article per anchor
/// of the page's first list that carries a link target, in document
/// order. The length bound is a parser limit: markup past it would
/// overrun the parser's buffer cap.
pub fn get_articles(issue_page: String) -> (articles: Vec<Article>)
    requires
        issue_page@.len() < MAX_MARKUP_LEN,
    ensures
        articles@.map_values(|a: Article| a@) == articles_of(issue_page@),
{
    if !markup_has_id(issue_page.as_str(), "news-blog-posts") && !markup_has_id(
        issue_page.as_str(),
        "blog-posts",
    ) {
        let empty: Vec<Article> = Vec::new();
        proof {
            assert(empty@.map_values(|a: Article| a@) =~= articles_of(issue_page@));
        }
        return empty;
    }
    let anchors = find_first_list_anchors(issue_page.as_str());
    let ghost all = anchors@.map_values(|a: RawAnchor| a@);
    let mut articles: Vec<Article> = Vec::new();
    let mut k: usize = 0;
    while k < anchors.len()
        invariant
            k <= anchors.len(),
            all == anchors@.map_values(|a: RawAnchor| a@),
            articles@.map_values(|a: Article| a@) == linked_pairs(all.take(k as int)),
        decreases anchors.len() - k,
    {
        proof {
            assert(all.take(k + 1).drop_last() =~= all.take(k as int));
        }
        let anchor = &anchors[k];
        match &anchor.href {
            Some(url) => {
                articles.push(Article { title: anchor.text.clone(), url: url.clone() });
            },
            None => {},
        }
        proof {
            assert(articles@.map_values(|a: Article| a@) =~= linked_pairs(all.take(k + 1)));
        }
        k = k + 1;
    }
    proof {
        assert(all.take(anchors@.len() as int) =~= all);
    }
    articles
}

} // verus!
