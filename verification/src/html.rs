//! Boundary to the `select` HTML parser.
//!
//! The rest of the library works on plain values; everything that has to
//! walk a parsed DOM is gathered here, in wrappers whose results are
//! named by uninterpreted spec functions. Each wrapper parses the markup
//! it is given and hands back the anchors (or the answer to a probe) as
//! plain data, so extraction logic above it can be verified.

use select::document::Document;
use select::predicate::{Attr, Class, Name, Predicate};
use vstd::prelude::*;

verus! {

/// Upper bound, in characters, on the markup the parser wrappers accept.
/// The tendril buffers under select's `Document::from` cap a string at
/// four gibibytes and panic past that, and a character encodes to at
/// most four bytes, so markup under 2^30 characters stays safely below
/// the cap.
pub const MAX_MARKUP_LEN: usize = 0x4000_0000;

/// An anchor element as found in parsed markup: its visible text and its
/// link target, absent when the element carries no `href` attribute.
#[derive(Debug, Clone)]
pub struct RawAnchor {
    pub text: String,
    pub href: Option<String>,
}

impl View for RawAnchor {
    type V = (Seq<char>, Option<Seq<char>>);

    open spec fn view(&self) -> Self::V {
        (
            self.text@,
            match self.href {
                Some(h) => Some(h@),
                None => None,
            },
        )
    }
}

/// The anchors that descend from an element bearing the given class, in
/// document order, each as (text, link target).
pub uninterp spec fn anchors_under_class(markup: Seq<char>, class: Seq<char>) -> Seq<
    (Seq<char>, Option<Seq<char>>),
>;

/// Whether some element of the markup carries an `id` attribute with
/// exactly the given value.
pub uninterp spec fn has_elem_with_id(markup: Seq<char>, id: Seq<char>) -> bool;

/// The anchors found inside the direct children of the first list
/// (`ul`) element of the markup, in document order, each as
/// (text, link target); empty when the markup holds no list.
pub uninterp spec fn first_list_anchors(markup: Seq<char>) -> Seq<
    (Seq<char>, Option<Seq<char>>),
>;

/// Relies on select's `Document::from` and `Find`: returns every anchor
/// element descending from an element whose `class` attribute contains
/// the given class, in document order (`Find` walks nodes in index
/// order, which is preorder document order). The length bound keeps the
/// markup below the tendril buffer cap, past which parsing panics.
#[verifier::external_body]
pub fn find_anchors_under_class(markup: &str, class: &str) -> (anchors: Vec<RawAnchor>)
    requires
        markup@.len() < MAX_MARKUP_LEN,
    ensures
        anchors@.map_values(|a: RawAnchor| a@) == anchors_under_class(markup@, class@),
{
    let dom = Document::from(markup);
    let mut found = Vec::new();
    for node in dom.find(Class(class).descendant(Name("a"))) {
        found.push(RawAnchor { text: node.text(), href: node.attr("href").map(|h| h.to_owned()) });
    }
    found
}

/// Relies on select's `Attr` predicate: reports whether any element of
/// the parsed markup has an `id` attribute equal to the given value.
/// The length bound keeps the markup below the tendril buffer cap, past
/// which parsing panics.
#[verifier::external_body]
pub fn markup_has_id(markup: &str, id: &str) -> (present: bool)
    requires
        markup@.len() < MAX_MARKUP_LEN,
    ensures
        present == has_elem_with_id(markup@, id@),
{
    let dom = Document::from(markup);
    dom.find(Attr("id", id)).next().is_some()
}

/// Relies on select's `Name` predicate and `Node::children`: returns the
/// anchors found under each direct child of the first `ul` element of
/// the parsed markup, in document order. The length bound keeps the
/// markup below the tendril buffer cap, past which parsing panics.
#[verifier::external_body]
pub fn find_first_list_anchors(markup: &str) -> (anchors: Vec<RawAnchor>)
    requires
        markup@.len() < MAX_MARKUP_LEN,
    ensures
        anchors@.map_values(|a: RawAnchor| a@) == first_list_anchors(markup@),
{
    let dom = Document::from(markup);
    let mut found = Vec::new();
    if let Some(list) = dom.find(Name("ul")).next() {
        for item in list.children() {
            for link in item.find(Name("a")) {
                found.push(
                    RawAnchor { text: link.text(), href: link.attr("href").map(|h| h.to_owned()) },
                );
            }
        }
    }
    found
}

} // verus!
