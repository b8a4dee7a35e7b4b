//! A minimal reference host: the document is a single chain of
//! elements, node `k`'s parent being node `k - 1` and node 1 the root.
//!
//! It gives the host-facing traits a concrete, verified implementation,
//! so the trampoline can be driven end to end without a real document
//! tree: handles encode the node's position in the chain, and the
//! handler answers name, id and ancestry queries from a plain name
//! table.

use vstd::prelude::*;
use crate::handle::OpaqueHandle;
use crate::handle::VoidPtrLike;
use crate::hint::CssHint;
use crate::properties::CssProperty;
use crate::select::CssSelectHandler;
use crate::types::CssQName;

verus! {

/// One element of the chain document.  Positions start at 1, so a
/// node's position can double as its non-null handle encoding.
#[derive(Clone, Copy, PartialEq, Eq, Structural, Debug)]
pub struct ChainNode {
    addr: usize,
}

impl ChainNode {
    #[verifier::type_invariant]
    spec fn type_inv(self) -> bool {
        self.addr >= 1
    }

    /// The node's position in the chain, starting at 1.
    pub closed spec fn spec_index(self) -> usize {
        self.addr
    }

    pub fn new(index: usize) -> (n: ChainNode)
        requires
            index >= 1,
        ensures
            n.spec_index() == index,
    {
        ChainNode { addr: index }
    }

    pub fn index(&self) -> (i: usize)
        ensures
            i == self.spec_index(),
            i >= 1,
    {
        proof {
            use_type_invariant(self);
        }
        self.addr
    }
}

impl VoidPtrLike for ChainNode {
    closed spec fn spec_addr(&self) -> usize {
        self.addr
    }

    closed spec fn spec_of_addr(addr: usize) -> ChainNode {
        ChainNode { addr }
    }

    fn to_void_ptr(&self) -> (h: OpaqueHandle) {
        proof {
            use_type_invariant(self);
        }
        OpaqueHandle { addr: self.addr }
    }

    fn from_void_ptr(h: OpaqueHandle) -> (n: ChainNode) {
        ChainNode { addr: h.addr }
    }
}

/// The chain document's handler: node `k` is named `names[k - 1]`
/// (nodes past the table answer with `fallback`), the root alone
/// carries the id `root_id`, and every user-agent default hint is the
/// engine's default.  The chain keeps no ancestry beyond the immediate
/// parent, so the named-ancestor query answers like the named-parent
/// one.
pub struct ChainHandler {
    pub names: Vec<String>,
    pub root_id: String,
    pub fallback: String,
}

impl CssSelectHandler<ChainNode> for ChainHandler {
    open spec fn node_name_spec(&self, node: ChainNode) -> CssQName {
        if 1 <= node.spec_index() && node.spec_index() <= self.names@.len() {
            CssQName { ns: None, name: self.names@[node.spec_index() - 1] }
        } else {
            CssQName { ns: None, name: self.fallback }
        }
    }

    fn node_name(&self, node: &ChainNode) -> (q: CssQName) {
        let idx = node.index();
        if idx <= self.names.len() {
            CssQName { ns: None, name: self.names[idx - 1].clone() }
        } else {
            CssQName { ns: None, name: self.fallback.clone() }
        }
    }

    open spec fn node_id_spec(&self, node: ChainNode) -> Option<String> {
        if node.spec_index() == 1 {
            Some(self.root_id)
        } else {
            None
        }
    }

    fn node_id(&self, node: &ChainNode) -> (r: Option<String>) {
        if node.index() == 1 {
            Some(self.root_id.clone())
        } else {
            None
        }
    }

    closed spec fn named_parent_node_spec(&self, node: ChainNode, qname: CssQName) -> Option<
        ChainNode,
    > {
        if node.spec_index() > 1 && node.spec_index() - 1 <= self.names@.len() && qname.ns is None
            && qname.name@ == self.names@[node.spec_index() - 2]@ {
            Some(ChainNode { addr: (node.spec_index() - 1) as usize })
        } else {
            None
        }
    }

    fn named_parent_node(&self, node: &ChainNode, qname: &CssQName) -> (r: Option<ChainNode>) {
        let idx = node.index();
        if idx > 1 && idx - 1 <= self.names.len() && qname.ns.is_none() && qname.name == self.names[
            idx - 2
        ] {
            Some(ChainNode { addr: idx - 1 })
        } else {
            None
        }
    }

    closed spec fn parent_node_spec(&self, node: ChainNode) -> Option<ChainNode> {
        if node.spec_index() > 1 {
            Some(ChainNode { addr: (node.spec_index() - 1) as usize })
        } else {
            None
        }
    }

    fn parent_node(&self, node: &ChainNode) -> (r: Option<ChainNode>) {
        let idx = node.index();
        if idx > 1 {
            Some(ChainNode { addr: idx - 1 })
        } else {
            None
        }
    }

    open spec fn node_has_id_spec(&self, node: ChainNode, name: Seq<char>) -> bool {
        node.spec_index() == 1 && name == self.root_id@
    }

    fn node_has_id(&self, node: &ChainNode, name: String) -> (b: bool) {
        node.index() == 1 && name == self.root_id
    }

    open spec fn named_ancestor_node_spec(&self, node: ChainNode, qname: CssQName) -> Option<
        ChainNode,
    > {
        self.named_parent_node_spec(node, qname)
    }

    fn named_ancestor_node(&self, node: &ChainNode, qname: &CssQName) -> (r: Option<ChainNode>) {
        self.named_parent_node(node, qname)
    }

    open spec fn node_is_root_spec(&self, node: ChainNode) -> bool {
        node.spec_index() == 1
    }

    fn node_is_root(&self, node: &ChainNode) -> (b: bool) {
        node.index() == 1
    }

    open spec fn node_is_link_spec(&self, node: ChainNode) -> bool {
        false
    }

    fn node_is_link(&self, node: &ChainNode) -> (b: bool) {
        false
    }

    open spec fn ua_default_for_property_spec(&self, property: CssProperty) -> CssHint {
        CssHint::CssHintDefault
    }

    fn ua_default_for_property(&self, property: CssProperty) -> (h: CssHint) {
        CssHint::CssHintDefault
    }
}

} // verus!
