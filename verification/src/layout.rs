//! The panes of an exported layout.
use vstd::prelude::*;
use crate::schema::{LayoutNode, LayoutPane};
use crate::search::{first_where, lemma_first_found, lemma_first_missing};

verus! {

/// The panes of a layout, first side before second side.
pub open spec fn leaves(node: LayoutNode) -> Seq<LayoutPane>
    decreases node,
{
    match node {
        LayoutNode::Pane { pane } => seq![pane],
        LayoutNode::Split { first, second, .. } => leaves(*first) + leaves(*second),
    }
}

/// Appends the panes of a layout to `out`.
pub fn layout_leaves<'a>(node: &'a LayoutNode, out: &mut Vec<&'a LayoutPane>)
    ensures
        final(out)@ == old(out)@ + leaves(*node).map_values(|pane: LayoutPane| &pane),
    decreases *node,
{
    match node {
        LayoutNode::Pane { pane } => {
            out.push(pane);
            assert(out@ =~= old(out)@ + leaves(*node).map_values(|pane: LayoutPane| &pane));
        },
        LayoutNode::Split { first, second, .. } => {
            layout_leaves(first, out);
            layout_leaves(second, out);
            assert(out@ =~= old(out)@ + leaves(*node).map_values(|pane: LayoutPane| &pane));
        },
    }
}

pub open spec fn pane_named(pane_id: Seq<char>) -> spec_fn(LayoutPane) -> bool {
    |pane: LayoutPane| pane.pane_id is Some && pane.pane_id->0@ == pane_id
}

/// The identifier, as the layout has it, of the first pane named `pane_id`.
pub open spec fn pane_id_in(node: LayoutNode, pane_id: Seq<char>) -> Option<String> {
    match first_where(leaves(node), pane_named(pane_id)) {
        Some(i) => leaves(node)[i].pane_id,
        None => None,
    }
}

/// Looks a pane up in a layout.
pub fn find_pane_id(node: &LayoutNode, pane_id: &String) -> (found: Option<String>)
    ensures
        found == pane_id_in(*node, pane_id@),
{
    let mut panes: Vec<&LayoutPane> = Vec::new();
    layout_leaves(node, &mut panes);
    let ghost all = leaves(*node);
    assert(panes@ =~= all.map_values(|pane: LayoutPane| &pane));
    let mut i: usize = 0;
    while i < panes.len()
        invariant
            i <= panes@.len(),
            all == leaves(*node),
            panes@ == all.map_values(|pane: LayoutPane| &pane),
            forall|j: int| 0 <= j < i ==> !pane_named(pane_id@)(#[trigger] all[j]),
        decreases panes@.len() - i,
    {
        let pane = panes[i];
        assert(*pane == all[i as int]);
        if let Some(own) = &pane.pane_id {
            if *own == *pane_id {
                proof {
                    lemma_first_found(all, pane_named(pane_id@), i as int);
                }
                return Some(own.clone());
            }
        }
        i = i + 1;
    }
    proof {
        lemma_first_missing(all, pane_named(pane_id@));
    }
    None
}

} // verus!
