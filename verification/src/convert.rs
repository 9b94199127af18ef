//! Conversion into a node of the document tree.

use vstd::prelude::*;

verus! {

/// A value that can be turned into the node type `T`.
///
/// Every `push` of the library accepts anything that implements this trait
/// for the expected child type, so that text can be pushed where a
/// paragraph is expected. The view of the node that results is fixed by
/// [`IntoNode::node_view`].
pub trait IntoNode<T: View>: Sized {
    /// The view of the node that `self` is converted into.
    spec fn node_view(self) -> T::V;

    /// Convert `self` into a node.
    fn into_node(self) -> (node: T)
        ensures
            node@ == self.node_view(),
    ;
}

} // verus!
