//! The opaque handle codec: a bit-identical, non-owning encoding of a
//! host node reference, used only for the duration of one engine call.
//!
//! The engine never inspects a handle; it only hands handles back to the
//! selection callbacks.  A host node type opts in by implementing
//! [`VoidPtrLike`], which fixes a pointer-sized, never-null encoding and
//! proves it invertible; the round trip is then an identity for every
//! node of every such type.

use vstd::prelude::*;

verus! {

/// The untyped, pointer-sized value a host node crosses the boundary
/// as.  Address zero is reserved as the absent sentinel for
/// option-shaped answers.
#[derive(Clone, Copy, PartialEq, Eq, Structural, Debug)]
pub struct OpaqueHandle {
    pub addr: usize,
}

impl OpaqueHandle {
    /// The absent ("null") handle.
    pub fn null() -> (h: OpaqueHandle)
        ensures
            h.addr == 0,
    {
        OpaqueHandle { addr: 0 }
    }

    pub open spec fn is_null(self) -> bool {
        self.addr == 0
    }
}

/// A host node type representable within one pointer-sized handle.  The
/// implementor fixes the encoding (`spec_addr`) and its inverse
/// (`spec_of_addr`); encoding must always yield a non-null handle that
/// decodes back to the node it came from, which is what the contracts
/// of the two conversions demand of every implementation.
pub trait VoidPtrLike: Sized {
    /// The pointer-sized encoding of this node.
    spec fn spec_addr(&self) -> usize;

    /// The node a given encoding stands for.
    spec fn spec_of_addr(addr: usize) -> Self;

    /// Encodes this node as a handle: never the null sentinel, and its
    /// decoding is the node itself.  No ownership moves: the handle is
    /// a transient view of the node.
    fn to_void_ptr(&self) -> (h: OpaqueHandle)
        ensures
            h.addr == self.spec_addr(),
            h.addr != 0,
            Self::spec_of_addr(h.addr) == *self,
    ;

    /// Decodes a handle previously produced by `to_void_ptr`.
    fn from_void_ptr(h: OpaqueHandle) -> (n: Self)
        requires
            h.addr != 0,
        ensures
            n == Self::spec_of_addr(h.addr),
    ;
}

/// Handle identity: for any host node, decoding the handle it encodes
/// to yields a node equal to the original.
pub fn handle_roundtrip<N: VoidPtrLike>(node: &N) -> (r: N)
    ensures
        r == *node,
{
    N::from_void_ptr(node.to_void_ptr())
}

/// The sentinel encoding of an option-shaped node answer: absent is
/// the null handle, a present node keeps its non-null encoding.
pub open spec fn spec_option_handle<N: VoidPtrLike>(node: Option<N>, h: OpaqueHandle) -> bool {
    match node {
        Some(n) => h.addr == n.spec_addr() && h.addr != 0,
        None => h.addr == 0,
    }
}

/// Encodes an option-shaped node answer as a present/absent sentinel
/// handle: absent is the null handle, a present node keeps its non-null
/// encoding.
pub fn option_to_void_ptr<N: VoidPtrLike>(node: &Option<N>) -> (h: OpaqueHandle)
    ensures
        spec_option_handle(*node, h),
{
    match node {
        Some(n) => n.to_void_ptr(),
        None => OpaqueHandle { addr: 0 },
    }
}

} // verus!
