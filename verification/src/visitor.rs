//! The tree visitor: a depth-first traversal of a file's declaration tree
//! that collects the span of every export-boundary function.

use vstd::prelude::*;
use crate::classify::FnDecl;
use crate::classify::is_export_boundary_fn;
use crate::classify::is_no_mangle_pub_export_c_fn;
use crate::span::LineColumnEnds;

verus! {

/// One node of a parsed file's declaration tree, keeping only what the
/// visitor reads: function declarations, and the scopes that can hold
/// further declarations.
#[derive(Debug)]
pub enum SourceItem {
    /// A function declaration, with the items nested in its body.
    Fn { decl: FnDecl, nested: Vec<SourceItem> },
    /// A scope, such as an inline module, holding further items.
    Scope { nested: Vec<SourceItem> },
}

/// The spans that a single declaration contributes to the match set.
pub open spec fn fn_decl_matches(d: FnDecl) -> Seq<LineColumnEnds> {
    if is_export_boundary_fn(d) {
        seq![d.span]
    } else {
        Seq::empty()
    }
}

/// The match set of one item: its own span where the declaration matches,
/// followed by the matches of everything nested in it.
pub open spec fn item_matches(item: SourceItem) -> Seq<LineColumnEnds>
    decreases item,
{
    match item {
        SourceItem::Fn { decl, nested } => fn_decl_matches(decl) + matches_in(nested@),
        SourceItem::Scope { nested } => matches_in(nested@),
    }
}

/// The match set of a sequence of items: the spans of every matching
/// declaration at any nesting depth, in the encounter order of a single
/// depth-first traversal.
pub open spec fn matches_in(items: Seq<SourceItem>) -> Seq<LineColumnEnds>
    decreases items,
{
    if items.len() == 0 {
        Seq::empty()
    } else {
        matches_in(items.drop_last()) + item_matches(items.last())
    }
}

/// The declaration occurs in the item, at any nesting depth.
pub open spec fn decl_in_item(d: FnDecl, item: SourceItem) -> bool
    decreases item,
{
    match item {
        SourceItem::Fn { decl, nested } => decl == d || decl_in_items(d, nested@),
        SourceItem::Scope { nested } => decl_in_items(d, nested@),
    }
}

/// The declaration occurs in one of the items, at any nesting depth.
pub open spec fn decl_in_items(d: FnDecl, items: Seq<SourceItem>) -> bool
    decreases items,
{
    exists|i: int| 0 <= i < items.len() && decl_in_item(d, items[i])
}

proof fn lemma_concat_contains_left(a: Seq<LineColumnEnds>, b: Seq<LineColumnEnds>, x: LineColumnEnds)
    requires
        a.contains(x),
    ensures
        (a + b).contains(x),
{
    let i = choose|i: int| 0 <= i < a.len() && a[i] == x;
    assert((a + b)[i] == x);
}

proof fn lemma_concat_contains_right(a: Seq<LineColumnEnds>, b: Seq<LineColumnEnds>, x: LineColumnEnds)
    requires
        b.contains(x),
    ensures
        (a + b).contains(x),
{
    let i = choose|i: int| 0 <= i < b.len() && b[i] == x;
    assert((a + b)[a.len() + i] == x);
}

/// Traversal does not stop at any nesting level: a matching declaration
/// anywhere in the item has its span in the item's match set.
pub proof fn lemma_nested_match_is_found_in_item(d: FnDecl, item: SourceItem)
    requires
        decl_in_item(d, item),
        is_export_boundary_fn(d),
    ensures
        item_matches(item).contains(d.span),
    decreases item,
{
    match item {
        SourceItem::Fn { decl, nested } => {
            if decl == d {
                assert(fn_decl_matches(decl)[0] == d.span);
                lemma_concat_contains_left(fn_decl_matches(decl), matches_in(nested@), d.span);
            } else {
                lemma_nested_match_is_found(d, nested@);
                lemma_concat_contains_right(fn_decl_matches(decl), matches_in(nested@), d.span);
            }
        },
        SourceItem::Scope { nested } => {
            lemma_nested_match_is_found(d, nested@);
        },
    }
}

/// Traversal does not stop at any nesting level: a matching declaration
/// anywhere below the items — however deeply nested in scopes or in other
/// declarations — has its span in the match set of the items.
pub proof fn lemma_nested_match_is_found(d: FnDecl, items: Seq<SourceItem>)
    requires
        decl_in_items(d, items),
        is_export_boundary_fn(d),
    ensures
        matches_in(items).contains(d.span),
    decreases items,
{
    let i = choose|i: int| 0 <= i < items.len() && decl_in_item(d, items[i]);
    if i == items.len() - 1 {
        lemma_nested_match_is_found_in_item(d, items.last());
        lemma_concat_contains_right(matches_in(items.drop_last()), item_matches(items.last()), d.span);
    } else {
        assert(decl_in_items(d, items.drop_last())) by {
            assert(items.drop_last()[i] == items[i]);
        }
        lemma_nested_match_is_found(d, items.drop_last());
        lemma_concat_contains_left(matches_in(items.drop_last()), item_matches(items.last()), d.span);
    }
}

/// Every declaration's span in the item has its end no earlier than its
/// start, at any nesting depth.
pub open spec fn item_spans_ordered(item: SourceItem) -> bool
    decreases item,
{
    match item {
        SourceItem::Fn { decl, nested } => decl.span.ordered() && items_spans_ordered(nested@),
        SourceItem::Scope { nested } => items_spans_ordered(nested@),
    }
}

/// Every declaration's span below the items is ordered.
pub open spec fn items_spans_ordered(items: Seq<SourceItem>) -> bool
    decreases items,
{
    forall|i: int| 0 <= i < items.len() ==> item_spans_ordered(#[trigger] items[i])
}

/// The span is the span of some matching declaration in the item.
pub open spec fn span_is_a_match_in_item(item: SourceItem, x: LineColumnEnds) -> bool {
    exists|d: FnDecl| decl_in_item(d, item) && is_export_boundary_fn(d) && d.span == x
}

/// The span is the span of some matching declaration below the items.
pub open spec fn span_is_a_match(items: Seq<SourceItem>, x: LineColumnEnds) -> bool {
    exists|d: FnDecl| decl_in_items(d, items) && is_export_boundary_fn(d) && d.span == x
}

/// Soundness of the match set of one item: every span it holds is the span
/// of some matching declaration in that item.
pub proof fn lemma_every_span_is_a_match_in_item(item: SourceItem)
    ensures
        forall|k: int|
            0 <= k < item_matches(item).len() ==> span_is_a_match_in_item(
                item,
                #[trigger] item_matches(item)[k],
            ),
    decreases item,
{
    match item {
        SourceItem::Fn { decl, nested } => {
            lemma_every_span_is_a_match(nested@);
            let a = fn_decl_matches(decl);
            let b = matches_in(nested@);
            assert forall|k: int| 0 <= k < item_matches(item).len() implies span_is_a_match_in_item(
                item,
                #[trigger] item_matches(item)[k],
            ) by {
                if k < a.len() {
                    assert(is_export_boundary_fn(decl));
                    assert(item_matches(item)[k] == decl.span);
                    assert(decl_in_item(decl, item) && is_export_boundary_fn(decl) && decl.span
                        == item_matches(item)[k]);
                } else {
                    assert(item_matches(item)[k] == b[k - a.len()]);
                    let d = choose|d: FnDecl|
                        decl_in_items(d, nested@) && is_export_boundary_fn(d) && d.span == b[k
                            - a.len()];
                    assert(decl_in_item(d, item) && is_export_boundary_fn(d) && d.span
                        == item_matches(item)[k]);
                }
            }
        },
        SourceItem::Scope { nested } => {
            lemma_every_span_is_a_match(nested@);
            assert forall|k: int| 0 <= k < item_matches(item).len() implies span_is_a_match_in_item(
                item,
                #[trigger] item_matches(item)[k],
            ) by {
                let d = choose|d: FnDecl|
                    decl_in_items(d, nested@) && is_export_boundary_fn(d) && d.span == matches_in(
                        nested@,
                    )[k];
                assert(decl_in_item(d, item) && is_export_boundary_fn(d) && d.span == item_matches(
                    item,
                )[k]);
            }
        },
    }
}

/// Soundness of the match set: every span it holds is the span of some
/// matching declaration below the items — the traversal invents nothing.
pub proof fn lemma_every_span_is_a_match(items: Seq<SourceItem>)
    ensures
        forall|k: int|
            0 <= k < matches_in(items).len() ==> span_is_a_match(
                items,
                #[trigger] matches_in(items)[k],
            ),
    decreases items,
{
    if items.len() > 0 {
        lemma_every_span_is_a_match(items.drop_last());
        lemma_every_span_is_a_match_in_item(items.last());
        let a = matches_in(items.drop_last());
        let b = item_matches(items.last());
        assert forall|k: int| 0 <= k < matches_in(items).len() implies span_is_a_match(
            items,
            #[trigger] matches_in(items)[k],
        ) by {
            if k < a.len() {
                assert(matches_in(items)[k] == a[k]);
                let d = choose|d: FnDecl|
                    decl_in_items(d, items.drop_last()) && is_export_boundary_fn(d) && d.span
                        == a[k];
                let i = choose|i: int|
                    0 <= i < items.drop_last().len() && decl_in_item(d, items.drop_last()[i]);
                assert(items.drop_last()[i] == items[i]);
                assert(decl_in_items(d, items));
                assert(decl_in_items(d, items) && is_export_boundary_fn(d) && d.span == matches_in(
                    items,
                )[k]);
            } else {
                assert(matches_in(items)[k] == b[k - a.len()]);
                let d = choose|d: FnDecl|
                    decl_in_item(d, items.last()) && is_export_boundary_fn(d) && d.span == b[k
                        - a.len()];
                assert(decl_in_item(d, items[items.len() - 1]));
                assert(decl_in_items(d, items));
                assert(decl_in_items(d, items) && is_export_boundary_fn(d) && d.span == matches_in(
                    items,
                )[k]);
            }
        }
    }
}

proof fn lemma_decl_in_ordered_item(d: FnDecl, item: SourceItem)
    requires
        decl_in_item(d, item),
        item_spans_ordered(item),
    ensures
        d.span.ordered(),
    decreases item,
{
    match item {
        SourceItem::Fn { decl, nested } => {
            if decl != d {
                lemma_decl_in_ordered_items(d, nested@);
            }
        },
        SourceItem::Scope { nested } => {
            lemma_decl_in_ordered_items(d, nested@);
        },
    }
}

proof fn lemma_decl_in_ordered_items(d: FnDecl, items: Seq<SourceItem>)
    requires
        decl_in_items(d, items),
        items_spans_ordered(items),
    ensures
        d.span.ordered(),
    decreases items,
{
    let i = choose|i: int| 0 <= i < items.len() && decl_in_item(d, items[i]);
    lemma_decl_in_ordered_item(d, items[i]);
}

/// The span invariant carries through the traversal: where every
/// declaration's span in the tree ends no earlier than it starts — as the
/// extents a parser measures do — so does every span in the match set.
pub proof fn lemma_match_set_spans_ordered(items: Seq<SourceItem>)
    requires
        items_spans_ordered(items),
    ensures
        forall|k: int|
            0 <= k < matches_in(items).len() ==> (#[trigger] matches_in(items)[k]).ordered(),
{
    lemma_every_span_is_a_match(items);
    assert forall|k: int|
        0 <= k < matches_in(items).len() implies (#[trigger] matches_in(items)[k]).ordered() by {
        let d = choose|d: FnDecl|
            decl_in_items(d, items) && is_export_boundary_fn(d) && d.span == matches_in(items)[k];
        lemma_decl_in_ordered_items(d, items);
    }
}

/// Determinism: the match set is a function of the tree alone, so two
/// traversals of equal trees yield the same spans in the same order.
pub proof fn lemma_match_set_deterministic(
    r1: Seq<LineColumnEnds>,
    r2: Seq<LineColumnEnds>,
    items: Seq<SourceItem>,
)
    requires
        r1 == matches_in(items),
        r2 == matches_in(items),
    ensures
        r1 == r2,
{
}

/// The matches found in one file, in encounter order.
#[derive(Debug)]
pub struct NoManglePubExportCFns(pub Vec<LineColumnEnds>);

impl Default for NoManglePubExportCFns {
    /// An empty match set.
    fn default() -> (r: Self)
        ensures
            r.0@ == Seq::<LineColumnEnds>::empty(),
    {
        NoManglePubExportCFns(Vec::new())
    }
}

impl NoManglePubExportCFns {
    /// Visits a single function declaration: appends its span exactly when
    /// it has the export-boundary signature.
    pub fn visit_item_fn(&mut self, node: &FnDecl)
        ensures
            final(self).0@ == old(self).0@ + fn_decl_matches(*node),
    {
        if is_no_mangle_pub_export_c_fn(node) {
            self.0.push(node.span)
        };
    }

    /// Walks the items depth first, visiting every function declaration at
    /// any nesting depth; no subtree is pruned, whatever the enclosing
    /// declarations looked like. The appended spans are a function of the
    /// items alone, so re-running the traversal over an unchanged tree
    /// yields an identical match set.
    pub fn visit_items(&mut self, items: &Vec<SourceItem>)
        ensures
            final(self).0@ == old(self).0@ + matches_in(items@),
        decreases items@,
    {
        let ghost orig = self.0@;
        let mut i: usize = 0;
        while i < items.len()
            invariant
                i <= items.len(),
                self.0@ == orig + matches_in(items@.subrange(0, i as int)),
            decreases items.len() - i,
        {
            match &items[i] {
                SourceItem::Fn { decl, nested } => {
                    self.visit_item_fn(decl);
                    self.visit_items(nested);
                    proof {
                        assert(item_matches(items@[i as int]) == fn_decl_matches(*decl)
                            + matches_in(nested@));
                    }
                },
                SourceItem::Scope { nested } => {
                    self.visit_items(nested);
                    proof {
                        assert(item_matches(items@[i as int]) == matches_in(nested@));
                    }
                },
            }
            proof {
                let s = items@;
                let t = s.subrange(0, i as int + 1);
                assert(t.drop_last() =~= s.subrange(0, i as int));
                assert(t.last() == s[i as int]);
                assert(matches_in(t) == matches_in(s.subrange(0, i as int)) + item_matches(
                    s[i as int],
                ));
                assert(self.0@ =~= orig + matches_in(t));
            }
            i += 1;
        }
        proof {
            assert(items@.subrange(0, items@.len() as int) =~= items@);
        }
    }
}

} // verus!
