//! The layout tree. Nodes live in an `id_tree::Tree` and are addressed by
//! stable `id_tree::NodeId` handles, so a grab that lives across pointer
//! events can re-validate its target on every event instead of holding a
//! reference into the tree.
//!
//! The tree's contents are modelled by two uninterpreted maps, keyed by an
//! uninterpreted encoding of node identities: `tree_nodes` gives each live
//! node's payload and `tree_child_count` the length of its child list. The
//! trusted wrappers below state, over that model, exactly what the id_tree
//! calls they make do; the resize logic is verified against those contracts.

use vstd::prelude::*;

use crate::geometry::Orientation;

verus! {

/// Payload of a layout-tree node: a window leaf (an opaque surface handle)
/// or a split group with one extent per child, in child order.
#[derive(Debug, Clone, PartialEq)]
pub enum Data {
    Window { surface: u64 },
    Group { orientation: Orientation, sizes: Vec<i32> },
}

#[verifier::external_type_specification]
#[verifier::external_body]
#[verifier::reject_recursive_types(T)]
pub struct ExTree<T>(id_tree::Tree<T>);

#[verifier::external_type_specification]
#[verifier::external_body]
pub struct ExNodeId(id_tree::NodeId);

/// The identity a `NodeId` denotes. Distinct identifiers (pairs of tree
/// identity and arena slot) have distinct keys.
pub uninterp spec fn node_key(id: id_tree::NodeId) -> nat;

/// The payload of each live node of the tree, keyed by node identity.
pub uninterp spec fn tree_nodes(t: id_tree::Tree<Data>) -> Map<nat, Data>;

/// The number of children of each live node of the tree.
pub uninterp spec fn tree_child_count(t: id_tree::Tree<Data>) -> Map<nat, nat>;

/// Relies on `id_tree::NodeId::clone` (a derived `Clone`): the copy denotes
/// the same node as the original.
#[verifier::external_body]
pub(crate) fn clone_node_id(id: &id_tree::NodeId) -> (r: id_tree::NodeId)
    ensures
        node_key(r) == node_key(*id),
{
    id.clone()
}

/// Relies on `id_tree::Tree::get`, which is `Ok` exactly for identifiers of
/// live nodes of this tree, and on `id_tree::Node::data`. Never panics: ids
/// of foreign trees are rejected by the tree-identity check, and a tree's
/// node arena never shrinks.
#[verifier::external_body]
pub(crate) fn tree_get_data(t: &id_tree::Tree<Data>, id: &id_tree::NodeId) -> (r: Option<Data>)
    ensures
        match r {
            Some(d) => tree_nodes(*t).contains_key(node_key(*id)) && d == tree_nodes(
                *t,
            )[node_key(*id)] && tree_child_count(*t).contains_key(node_key(*id)),
            None => !tree_nodes(*t).contains_key(node_key(*id)),
        },
{
    t.get(id).ok().map(|n| n.data().clone())
}

/// Relies on `id_tree::Tree::children_ids`, which is `Ok` exactly for
/// identifiers of live nodes and yields one identifier per child.
#[verifier::external_body]
pub(crate) fn tree_child_len(t: &id_tree::Tree<Data>, id: &id_tree::NodeId) -> (r: Option<usize>)
    ensures
        match r {
            Some(n) => tree_nodes(*t).contains_key(node_key(*id)) && n == tree_child_count(
                *t,
            )[node_key(*id)],
            None => !tree_nodes(*t).contains_key(node_key(*id)),
        },
{
    t.children_ids(id).ok().map(|ids| ids.count())
}

/// Relies on `id_tree::Tree::get_mut` and `id_tree::Node::data_mut`:
/// replaces the payload of one live node and touches nothing else — neither
/// the set of live nodes nor any child list.
#[verifier::external_body]
pub(crate) fn tree_set_data(t: &mut id_tree::Tree<Data>, id: &id_tree::NodeId, d: Data)
    requires
        tree_nodes(*old(t)).contains_key(node_key(*id)),
    ensures
        tree_nodes(*final(t)) == tree_nodes(*old(t)).insert(node_key(*id), d),
        tree_child_count(*final(t)) == tree_child_count(*old(t)),
{
    *t.get_mut(id).unwrap().data_mut() = d;
}

} // verus!
