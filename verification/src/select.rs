//! Selection: the typed handler capability set, the trampoline entry
//! points the engine's callback table is wired to, the selection context
//! that owns appended stylesheets, and the per-pseudo-element selection
//! results.
//!
//! The engine walks the host tree by calling back through a flat table
//! of untyped function pointers sharing one untyped context value.  Each
//! table slot's logic stands here as one typed function: decode the
//! node handle, consult the typed handler, encode the answer.  Slots the
//! host capability set does not cover get a documented conservative
//! default; slots with no safe default refuse loudly with the slot's
//! name instead of answering wrongly.

use vstd::prelude::*;
use vstd::pervasive::unreached;
use crate::errors::CssError;
use crate::errors::CssFailure;
use crate::errors::CssOperation;
use crate::errors::require_ok;
use crate::handle::OpaqueHandle;
use crate::handle::VoidPtrLike;
use crate::handle::option_to_void_ptr;
use crate::handle::spec_option_handle;
use crate::hint::CssHint;
use crate::hint::CssHintError;
use crate::hint::CssHintRecord;
use crate::hint::spec_blank_record;
use crate::hint::spec_hint_new;
use crate::hint::spec_hint_write;
use crate::properties::CssProperty;
use crate::properties::property_from_uint;
use crate::properties::spec_property_from_uint;
use crate::stylesheet::CssStylesheet;
use crate::types::CssQName;
use crate::types::CssUnit;
use crate::computed::CssComputedStyle;

verus! {

pub const CSS_MEDIA_AURAL: u64 = 0x001;
pub const CSS_MEDIA_BRAILLE: u64 = 0x002;
pub const CSS_MEDIA_EMBOSSED: u64 = 0x004;
pub const CSS_MEDIA_HANDHELD: u64 = 0x008;
pub const CSS_MEDIA_PRINT: u64 = 0x010;
pub const CSS_MEDIA_PROJECTION: u64 = 0x020;
pub const CSS_MEDIA_SCREEN: u64 = 0x040;
pub const CSS_MEDIA_SPEECH: u64 = 0x080;
pub const CSS_MEDIA_TTY: u64 = 0x100;
pub const CSS_MEDIA_TV: u64 = 0x200;
pub const CSS_MEDIA_ALL: u64 = 0x3ff;

/// Where a stylesheet sits in the cascade.
#[derive(Clone, Copy, PartialEq, Eq, Structural, Debug)]
pub enum CssOrigin {
    CssOriginUa,
    CssOriginUser,
    CssOriginAuthor,
}

impl CssOrigin {
    /// The engine's numeric code for this origin.
    pub open spec fn spec_to_ll(self) -> u32 {
        match self {
            CssOrigin::CssOriginUa => 0,
            CssOrigin::CssOriginUser => 1,
            CssOrigin::CssOriginAuthor => 2,
        }
    }

    pub fn to_ll(self) -> (c: u32)
        ensures
            c == self.spec_to_ll(),
    {
        match self {
            CssOrigin::CssOriginUa => 0,
            CssOrigin::CssOriginUser => 1,
            CssOrigin::CssOriginAuthor => 2,
        }
    }
}

/// The style targets a selection resolves independently.
#[derive(Clone, Copy, PartialEq, Eq, Structural, Debug)]
pub enum CssPseudoElement {
    CssPseudoElementNone,
    CssPseudoElementFirstLine,
    CssPseudoElementFirstLetter,
    CssPseudoElementBefore,
    CssPseudoElementAfter,
    CssPseudoElementCount,
}

/// How many pseudo-element slots one selection result carries.
pub const CSS_PSEUDO_ELEMENT_COUNT: usize = 5;

impl CssPseudoElement {
    /// The engine's index for this pseudo-element.
    pub open spec fn spec_to_ll(self) -> u32 {
        match self {
            CssPseudoElement::CssPseudoElementNone => 0,
            CssPseudoElement::CssPseudoElementFirstLine => 1,
            CssPseudoElement::CssPseudoElementFirstLetter => 2,
            CssPseudoElement::CssPseudoElementBefore => 3,
            CssPseudoElement::CssPseudoElementAfter => 4,
            CssPseudoElement::CssPseudoElementCount => 5,
        }
    }

    pub fn to_ll(self) -> (c: u32)
        ensures
            c == self.spec_to_ll(),
    {
        match self {
            CssPseudoElement::CssPseudoElementNone => 0,
            CssPseudoElement::CssPseudoElementFirstLine => 1,
            CssPseudoElement::CssPseudoElementFirstLetter => 2,
            CssPseudoElement::CssPseudoElementBefore => 3,
            CssPseudoElement::CssPseudoElementAfter => 4,
            CssPseudoElement::CssPseudoElementCount => 5,
        }
    }
}

/// The fixed capability set a host supplies to drive selection over its
/// own node type `N`.  Each executable capability is pinned to a spec
/// companion, so the trampoline's contracts can speak about exactly
/// what the handler answered.
pub trait CssSelectHandler<N>: Sized {
    /// The qualified name of a node.
    spec fn node_name_spec(&self, node: N) -> CssQName;

    fn node_name(&self, node: &N) -> (q: CssQName)
        ensures
            q == self.node_name_spec(*node),
    ;

    /// The node's id attribute value, if it has one.
    spec fn node_id_spec(&self, node: N) -> Option<String>;

    fn node_id(&self, node: &N) -> (r: Option<String>)
        ensures
            r == self.node_id_spec(*node),
    ;

    /// The nearest parent carrying the given qualified name.
    spec fn named_parent_node_spec(&self, node: N, qname: CssQName) -> Option<N>;

    fn named_parent_node(&self, node: &N, qname: &CssQName) -> (r: Option<N>)
        ensures
            r == self.named_parent_node_spec(*node, *qname),
    ;

    /// The node's parent, if it has one.
    spec fn parent_node_spec(&self, node: N) -> Option<N>;

    fn parent_node(&self, node: &N) -> (r: Option<N>)
        ensures
            r == self.parent_node_spec(*node),
    ;

    /// Whether the node's id attribute equals `name`.
    spec fn node_has_id_spec(&self, node: N, name: Seq<char>) -> bool;

    fn node_has_id(&self, node: &N, name: String) -> (b: bool)
        ensures
            b == self.node_has_id_spec(*node, name@),
    ;

    /// The nearest ancestor carrying the given qualified name.
    spec fn named_ancestor_node_spec(&self, node: N, qname: CssQName) -> Option<N>;

    fn named_ancestor_node(&self, node: &N, qname: &CssQName) -> (r: Option<N>)
        ensures
            r == self.named_ancestor_node_spec(*node, *qname),
    ;

    /// Whether the node is the document root.
    spec fn node_is_root_spec(&self, node: N) -> bool;

    fn node_is_root(&self, node: &N) -> (b: bool)
        ensures
            b == self.node_is_root_spec(*node),
    ;

    /// Whether the node is a link.
    spec fn node_is_link_spec(&self, node: N) -> bool;

    fn node_is_link(&self, node: &N) -> (b: bool)
        ensures
            b == self.node_is_link_spec(*node),
    ;

    /// The user-agent default hint for a property.
    spec fn ua_default_for_property_spec(&self, property: CssProperty) -> CssHint;

    fn ua_default_for_property(&self, property: CssProperty) -> (h: CssHint)
        ensures
            h == self.ua_default_for_property_spec(property),
    ;
}

/// The slots of the engine's callback table, for naming a slot in a
/// refusal.
#[derive(Clone, Copy, PartialEq, Eq, Structural, Debug)]
pub enum CssCallbackKind {
    NodeName,
    NodeClasses,
    NodeId,
    NamedAncestorNode,
    NamedParentNode,
    NamedSiblingNode,
    NamedGenericSiblingNode,
    ParentNode,
    SiblingNode,
    NodeHasName,
    NodeHasClass,
    NodeHasId,
    NodeHasAttribute,
    NodeHasAttributeEqual,
    NodeHasAttributeDashmatch,
    NodeHasAttributeIncludes,
    NodeHasAttributePrefix,
    NodeHasAttributeSuffix,
    NodeHasAttributeSubstring,
    NodeIsRoot,
    NodeCountSiblings,
    NodeIsEmpty,
    NodeIsLink,
    NodeIsVisited,
    NodeIsHover,
    NodeIsActive,
    NodeIsFocus,
    NodeIsEnabled,
    NodeIsDisabled,
    NodeIsChecked,
    NodeIsTarget,
    NodeIsLang,
    NodePresentationalHint,
    UaDefaultForProperty,
    ComputeFontSize,
}

/// Why a callback refused to answer: the slot has no safe default and
/// no handler capability, the engine named a property code outside the
/// closed enumeration, or a hint could not be encoded.
#[derive(Clone, Copy, PartialEq, Eq, Structural, Debug)]
pub enum CssCallbackError {
    Unimplemented(CssCallbackKind),
    UnknownProperty(u32),
    Hint(CssHintError),
}

/// Callback: the node's qualified name, from the handler.
pub fn node_name<N: VoidPtrLike, H: CssSelectHandler<N>>(handler: &H, node: OpaqueHandle) -> (r:
    Result<CssQName, CssCallbackError>)
    requires
        !node.is_null(),
    ensures
        r matches Ok(q) && q == handler.node_name_spec(N::spec_of_addr(node.addr)),
{
    let n = N::from_void_ptr(node);
    Ok(handler.node_name(&n))
}

/// Callback: the node's class list.  The capability set has no class
/// query; the documented default is the empty list.
pub fn node_classes(_node: OpaqueHandle) -> (r: Result<Vec<String>, CssCallbackError>)
    ensures
        r matches Ok(v) && v@ == Seq::<String>::empty(),
{
    Ok(Vec::new())
}

/// Callback: the node's id attribute value, from the handler.
pub fn node_id<N: VoidPtrLike, H: CssSelectHandler<N>>(handler: &H, node: OpaqueHandle) -> (r:
    Result<Option<String>, CssCallbackError>)
    requires
        !node.is_null(),
    ensures
        r matches Ok(id) && id == handler.node_id_spec(N::spec_of_addr(node.addr)),
{
    let n = N::from_void_ptr(node);
    Ok(handler.node_id(&n))
}

/// Callback: the nearest ancestor with the given name, from the
/// handler, as a present/absent sentinel handle.
pub fn named_ancestor_node<N: VoidPtrLike, H: CssSelectHandler<N>>(
    handler: &H,
    node: OpaqueHandle,
    qname: &CssQName,
) -> (r: Result<OpaqueHandle, CssCallbackError>)
    requires
        !node.is_null(),
    ensures
        r matches Ok(h) && spec_option_handle(
            handler.named_ancestor_node_spec(N::spec_of_addr(node.addr), *qname),
            h,
        ),
{
    let n = N::from_void_ptr(node);
    let ancestor = handler.named_ancestor_node(&n, qname);
    Ok(option_to_void_ptr(&ancestor))
}

/// Callback: the parent if it has the given name, from the handler, as
/// a present/absent sentinel handle.
pub fn named_parent_node<N: VoidPtrLike, H: CssSelectHandler<N>>(
    handler: &H,
    node: OpaqueHandle,
    qname: &CssQName,
) -> (r: Result<OpaqueHandle, CssCallbackError>)
    requires
        !node.is_null(),
    ensures
        r matches Ok(h) && spec_option_handle(
            handler.named_parent_node_spec(N::spec_of_addr(node.addr), *qname),
            h,
        ),
{
    let n = N::from_void_ptr(node);
    let parent = handler.named_parent_node(&n, qname);
    Ok(option_to_void_ptr(&parent))
}

/// Callback: the previous sibling with the given name.  The capability
/// set has no sibling queries; the documented default is "no such
/// sibling" (the absent handle).
pub fn named_sibling_node(_node: OpaqueHandle, _qname: &CssQName) -> (r: Result<
    OpaqueHandle,
    CssCallbackError,
>)
    ensures
        r matches Ok(h) && h.is_null(),
{
    Ok(OpaqueHandle::null())
}

/// Callback: the nearest previous sibling with the given element name.
/// No safe default exists, so this slot refuses loudly.
pub fn named_generic_sibling_node(_node: OpaqueHandle, _qname: &CssQName) -> (r: Result<
    OpaqueHandle,
    CssCallbackError,
>)
    ensures
        r == Err::<OpaqueHandle, CssCallbackError>(
            CssCallbackError::Unimplemented(CssCallbackKind::NamedGenericSiblingNode),
        ),
{
    Err(CssCallbackError::Unimplemented(CssCallbackKind::NamedGenericSiblingNode))
}

/// Callback: the node's parent, from the handler, as a present/absent
/// sentinel handle.
pub fn parent_node<N: VoidPtrLike, H: CssSelectHandler<N>>(handler: &H, node: OpaqueHandle) -> (r:
    Result<OpaqueHandle, CssCallbackError>)
    requires
        !node.is_null(),
    ensures
        r matches Ok(h) && spec_option_handle(
            handler.parent_node_spec(N::spec_of_addr(node.addr)),
            h,
        ),
{
    let n = N::from_void_ptr(node);
    let parent = handler.parent_node(&n);
    Ok(option_to_void_ptr(&parent))
}

/// Callback: the previous sibling.  The capability set has no sibling
/// queries; the documented default is "no such sibling" (the absent
/// handle).
pub fn sibling_node(_node: OpaqueHandle) -> (r: Result<OpaqueHandle, CssCallbackError>)
    ensures
        r matches Ok(h) && h.is_null(),
{
    Ok(OpaqueHandle::null())
}

/// Callback: whether the node has the given name.  No safe default
/// exists, so this slot refuses loudly.
pub fn node_has_name(_node: OpaqueHandle, _qname: &CssQName) -> (r: Result<bool, CssCallbackError>)
    ensures
        r == Err::<bool, CssCallbackError>(
            CssCallbackError::Unimplemented(CssCallbackKind::NodeHasName),
        ),
{
    Err(CssCallbackError::Unimplemented(CssCallbackKind::NodeHasName))
}

/// Callback: whether the node carries the given class.  The capability
/// set has no class query; the documented default is "no match".
pub fn node_has_class(_node: OpaqueHandle, _name: &str) -> (r: Result<bool, CssCallbackError>)
    ensures
        r == Ok::<bool, CssCallbackError>(false),
{
    Ok(false)
}

/// Callback: whether the node's id equals the given name, from the
/// handler.
pub fn node_has_id<N: VoidPtrLike, H: CssSelectHandler<N>>(
    handler: &H,
    node: OpaqueHandle,
    name: String,
) -> (r: Result<bool, CssCallbackError>)
    requires
        !node.is_null(),
    ensures
        r matches Ok(b) && b == handler.node_has_id_spec(N::spec_of_addr(node.addr), name@),
{
    let n = N::from_void_ptr(node);
    Ok(handler.node_has_id(&n, name))
}

/// Callback: whether the node has the given attribute.  No safe
/// default exists, so this slot refuses loudly.
pub fn node_has_attribute(_node: OpaqueHandle, _qname: &CssQName) -> (r: Result<
    bool,
    CssCallbackError,
>)
    ensures
        r == Err::<bool, CssCallbackError>(
            CssCallbackError::Unimplemented(CssCallbackKind::NodeHasAttribute),
        ),
{
    Err(CssCallbackError::Unimplemented(CssCallbackKind::NodeHasAttribute))
}

/// Callback: whether the node has the given attribute with exactly the
/// given value.  The capability set has no attribute queries; the
/// documented default is "no match".
pub fn node_has_attribute_equal(_node: OpaqueHandle, _qname: &CssQName, _value: &str) -> (r: Result<
    bool,
    CssCallbackError,
>)
    ensures
        r == Ok::<bool, CssCallbackError>(false),
{
    Ok(false)
}

/// Callback: dash-match on an attribute value.  No safe default
/// exists, so this slot refuses loudly.
pub fn node_has_attribute_dashmatch(_node: OpaqueHandle, _qname: &CssQName, _value: &str) -> (r:
    Result<bool, CssCallbackError>)
    ensures
        r == Err::<bool, CssCallbackError>(
            CssCallbackError::Unimplemented(CssCallbackKind::NodeHasAttributeDashmatch),
        ),
{
    Err(CssCallbackError::Unimplemented(CssCallbackKind::NodeHasAttributeDashmatch))
}

/// Callback: whitespace-list inclusion on an attribute value.  No safe
/// default exists, so this slot refuses loudly.
pub fn node_has_attribute_includes(_node: OpaqueHandle, _qname: &CssQName, _value: &str) -> (r:
    Result<bool, CssCallbackError>)
    ensures
        r == Err::<bool, CssCallbackError>(
            CssCallbackError::Unimplemented(CssCallbackKind::NodeHasAttributeIncludes),
        ),
{
    Err(CssCallbackError::Unimplemented(CssCallbackKind::NodeHasAttributeIncludes))
}

/// Callback: prefix match on an attribute value.  The capability set
/// has no attribute queries; the documented default is "no match".
pub fn node_has_attribute_prefix(_node: OpaqueHandle, _qname: &CssQName, _value: &str) -> (r:
    Result<bool, CssCallbackError>)
    ensures
        r == Ok::<bool, CssCallbackError>(false),
{
    Ok(false)
}

/// Callback: suffix match on an attribute value.  No safe default
/// exists, so this slot refuses loudly.
pub fn node_has_attribute_suffix(_node: OpaqueHandle, _qname: &CssQName, _value: &str) -> (r:
    Result<bool, CssCallbackError>)
    ensures
        r == Err::<bool, CssCallbackError>(
            CssCallbackError::Unimplemented(CssCallbackKind::NodeHasAttributeSuffix),
        ),
{
    Err(CssCallbackError::Unimplemented(CssCallbackKind::NodeHasAttributeSuffix))
}

/// Callback: substring match on an attribute value.  No safe default
/// exists, so this slot refuses loudly.
pub fn node_has_attribute_substring(_node: OpaqueHandle, _qname: &CssQName, _value: &str) -> (r:
    Result<bool, CssCallbackError>)
    ensures
        r == Err::<bool, CssCallbackError>(
            CssCallbackError::Unimplemented(CssCallbackKind::NodeHasAttributeSubstring),
        ),
{
    Err(CssCallbackError::Unimplemented(CssCallbackKind::NodeHasAttributeSubstring))
}

/// Callback: whether the node is the document root, from the handler.
pub fn node_is_root<N: VoidPtrLike, H: CssSelectHandler<N>>(handler: &H, node: OpaqueHandle) -> (r:
    Result<bool, CssCallbackError>)
    requires
        !node.is_null(),
    ensures
        r matches Ok(b) && b == handler.node_is_root_spec(N::spec_of_addr(node.addr)),
{
    let n = N::from_void_ptr(node);
    Ok(handler.node_is_root(&n))
}

/// Callback: how many siblings the node has.  The capability set has
/// no sibling queries; the documented default is zero.
pub fn node_count_siblings(_node: OpaqueHandle, _same_name: bool, _after: bool) -> (r: Result<
    i32,
    CssCallbackError,
>)
    ensures
        r == Ok::<i32, CssCallbackError>(0),
{
    Ok(0)
}

/// Callback: whether the node has no children.  The capability set has
/// no child query; the documented conservative default is "not empty",
/// so `:empty` selectors never match a node this layer knows nothing
/// about.
pub fn node_is_empty(_node: OpaqueHandle) -> (r: Result<bool, CssCallbackError>)
    ensures
        r == Ok::<bool, CssCallbackError>(false),
{
    Ok(false)
}

/// Callback: whether the node is a link, from the handler.
pub fn node_is_link<N: VoidPtrLike, H: CssSelectHandler<N>>(handler: &H, node: OpaqueHandle) -> (r:
    Result<bool, CssCallbackError>)
    requires
        !node.is_null(),
    ensures
        r matches Ok(b) && b == handler.node_is_link_spec(N::spec_of_addr(node.addr)),
{
    let n = N::from_void_ptr(node);
    Ok(handler.node_is_link(&n))
}

/// Callback: the `:visited` pseudo-class.  The capability set has no
/// visited state; the documented default is "no match".
pub fn node_is_visited(_node: OpaqueHandle) -> (r: Result<bool, CssCallbackError>)
    ensures
        r == Ok::<bool, CssCallbackError>(false),
{
    Ok(false)
}

/// Callback: the `:hover` pseudo-class.  The capability set has no
/// hover state; the documented default is "no match".
pub fn node_is_hover(_node: OpaqueHandle) -> (r: Result<bool, CssCallbackError>)
    ensures
        r == Ok::<bool, CssCallbackError>(false),
{
    Ok(false)
}

/// Callback: the `:active` pseudo-class.  The capability set has no
/// active state; the documented default is "no match".
pub fn node_is_active(_node: OpaqueHandle) -> (r: Result<bool, CssCallbackError>)
    ensures
        r == Ok::<bool, CssCallbackError>(false),
{
    Ok(false)
}

/// Callback: the `:focus` pseudo-class.  The capability set has no
/// focus state; the documented default is "no match".
pub fn node_is_focus(_node: OpaqueHandle) -> (r: Result<bool, CssCallbackError>)
    ensures
        r == Ok::<bool, CssCallbackError>(false),
{
    Ok(false)
}

/// Callback: the `:enabled` pseudo-class.  No safe default exists, so
/// this slot refuses loudly.
pub fn node_is_enabled(_node: OpaqueHandle) -> (r: Result<bool, CssCallbackError>)
    ensures
        r == Err::<bool, CssCallbackError>(
            CssCallbackError::Unimplemented(CssCallbackKind::NodeIsEnabled),
        ),
{
    Err(CssCallbackError::Unimplemented(CssCallbackKind::NodeIsEnabled))
}

/// Callback: the `:disabled` pseudo-class.  No safe default exists, so
/// this slot refuses loudly.
pub fn node_is_disabled(_node: OpaqueHandle) -> (r: Result<bool, CssCallbackError>)
    ensures
        r == Err::<bool, CssCallbackError>(
            CssCallbackError::Unimplemented(CssCallbackKind::NodeIsDisabled),
        ),
{
    Err(CssCallbackError::Unimplemented(CssCallbackKind::NodeIsDisabled))
}

/// Callback: the `:checked` pseudo-class.  No safe default exists, so
/// this slot refuses loudly.
pub fn node_is_checked(_node: OpaqueHandle) -> (r: Result<bool, CssCallbackError>)
    ensures
        r == Err::<bool, CssCallbackError>(
            CssCallbackError::Unimplemented(CssCallbackKind::NodeIsChecked),
        ),
{
    Err(CssCallbackError::Unimplemented(CssCallbackKind::NodeIsChecked))
}

/// Callback: the `:target` pseudo-class.  No safe default exists, so
/// this slot refuses loudly.
pub fn node_is_target(_node: OpaqueHandle) -> (r: Result<bool, CssCallbackError>)
    ensures
        r == Err::<bool, CssCallbackError>(
            CssCallbackError::Unimplemented(CssCallbackKind::NodeIsTarget),
        ),
{
    Err(CssCallbackError::Unimplemented(CssCallbackKind::NodeIsTarget))
}

/// Callback: the `:lang` pseudo-class.  The capability set has no
/// language query; the documented default is "no match".
pub fn node_is_lang(_node: OpaqueHandle, _lang: &str) -> (r: Result<bool, CssCallbackError>)
    ensures
        r == Ok::<bool, CssCallbackError>(false),
{
    Ok(false)
}

/// Callback: a presentational hint for one property.  The capability
/// set supplies none, so the answer is the engine's "property not set"
/// status.
pub fn node_presentational_hint(_node: OpaqueHandle, _property: u32) -> (r: CssError)
    ensures
        r == CssError::CssPropertyNotSet,
{
    CssError::CssPropertyNotSet
}

/// Callback: the user-agent default hint for a property, from the
/// handler, encoded into a fresh hint record.  A property code outside
/// the closed enumeration, or a handler hint the codec refuses, is
/// reported rather than encoded wrongly.
pub fn ua_default_for_property<N: VoidPtrLike, H: CssSelectHandler<N>>(
    handler: &H,
    property: u32,
) -> (r: Result<CssHintRecord, CssCallbackError>)
    ensures
        match r {
            Ok(rec) => rec.wf() && (spec_property_from_uint(property) matches Some(p)
                && spec_hint_write(
                p,
                handler.ua_default_for_property_spec(p),
                spec_blank_record(),
            ) == Ok::<Seq<u8>, CssHintError>(rec.spec_bytes())),
            Err(e) => match e {
                CssCallbackError::UnknownProperty(c) => c == property && spec_property_from_uint(
                    property,
                ) is None,
                CssCallbackError::Hint(he) => spec_property_from_uint(property) matches Some(p)
                    && spec_hint_write(
                    p,
                    handler.ua_default_for_property_spec(p),
                    spec_blank_record(),
                ) == Err::<Seq<u8>, CssHintError>(he),
                CssCallbackError::Unimplemented(k) => false,
            },
        },
{
    match property_from_uint(property) {
        Some(p) => {
            let hint = handler.ua_default_for_property(p);
            let mut rec = CssHintRecord::new();
            match hint.write_to_ll(p, &mut rec) {
                Ok(u) => Ok(rec),
                Err(e) => Err(CssCallbackError::Hint(e)),
            }
        },
        None => Err(CssCallbackError::UnknownProperty(property)),
    }
}

/// The hint the selection-time font-size slot writes: the parent's own
/// hint, or, for a root with no parent, the 16px default (16 multiplied
/// by 1024 fixed-point steps).
pub open spec fn spec_select_parent_hint(parent: Option<&CssHintRecord>) -> CssHint {
    match parent {
        None => CssHint::CssHintLength(CssUnit::CssUnitPx(16384)),
        Some(p) => spec_hint_new(CssProperty::CssPropFontSize, p.spec_bytes())->Ok_0,
    }
}

/// Callback: resolve a font size during plain selection.  The parent's
/// hint (or the root default of 16px) is written over the record; a
/// parent record that holds no recognizable dimension cannot be
/// re-encoded and is refused.
pub fn compute_font_size(parent: Option<&CssHintRecord>, size: &mut CssHintRecord) -> (r: Result<
    (),
    CssHintError,
>)
    requires
        old(size).wf(),
        parent matches Some(p) ==> p.wf(),
    ensures
        final(size).wf(),
        match r {
            Ok(u) => spec_hint_write(
                CssProperty::CssPropFontSize,
                spec_select_parent_hint(parent),
                old(size).spec_bytes(),
            ) == Ok::<Seq<u8>, CssHintError>(final(size).spec_bytes()),
            Err(e) => spec_hint_write(
                CssProperty::CssPropFontSize,
                spec_select_parent_hint(parent),
                old(size).spec_bytes(),
            ) == Err::<Seq<u8>, CssHintError>(e) && *final(size) == *old(size),
        },
{
    let parent_hint = match parent {
        None => CssHint::CssHintLength(CssUnit::CssUnitPx(16 * 1024)),
        Some(p) => match CssHint::new(CssProperty::CssPropFontSize, p) {
            Ok(h) => h,
            Err(e) => CssHint::CssHintUnknown,
        },
    };
    parent_hint.write_to_ll(CssProperty::CssPropFontSize, size)
}

/// A selection context: the ordered collection of stylesheets selection
/// runs against.  Appending transfers ownership of the sheet into the
/// context — that is what keeps a sheet alive exactly as long as the
/// context that selects against it — and the count the context reports
/// is always the number of sheets transferred in.
pub struct CssSelectCtx {
    sheets: Vec<CssStylesheet>,
}

/// Concludes a context-creation call: an empty context when the engine
/// accepted, a failure naming the code otherwise.
pub fn css_select_ctx_create(code: CssError) -> (r: Result<CssSelectCtx, CssFailure>)
    ensures
        match r {
            Ok(ctx) => code == CssError::CssOk && ctx.spec_sheets() == Seq::<CssStylesheet>::empty(),
            Err(f) => code != CssError::CssOk && f == (CssFailure {
                op: CssOperation::CreateSelectCtx,
                code,
            }),
        },
{
    match require_ok(code, CssOperation::CreateSelectCtx) {
        Ok(u) => Ok(CssSelectCtx { sheets: Vec::new() }),
        Err(f) => Err(f),
    }
}

impl CssSelectCtx {
    /// The sheets transferred into this context, in append order.
    pub closed spec fn spec_sheets(self) -> Seq<CssStylesheet> {
        self.sheets@
    }

    /// Takes ownership of `sheet` and registers it with the engine
    /// under the given origin and media mask; the engine's status
    /// decides whether the transfer happened.  Only a finalized
    /// stylesheet may be transferred.  On failure the sheet is
    /// released and the context is unchanged.
    pub fn append_sheet(
        &mut self,
        sheet: CssStylesheet,
        origin: CssOrigin,
        media: u64,
        code: CssError,
    ) -> (r: Result<(), CssFailure>)
        requires
            sheet.spec_done(),
        ensures
            match r {
                Ok(u) => code == CssError::CssOk && final(self).spec_sheets() == old(
                    self,
                ).spec_sheets().push(sheet),
                Err(f) => code != CssError::CssOk && f == (CssFailure {
                    op: CssOperation::AppendSheet,
                    code,
                }) && final(self).spec_sheets() == old(self).spec_sheets(),
            },
    {
        match require_ok(code, CssOperation::AppendSheet) {
            Ok(u) => {
                self.sheets.push(sheet);
                Ok(())
            },
            Err(f) => Err(f),
        }
    }

    /// How many sheets have been transferred into this context.
    pub fn count_sheets(&self) -> (n: usize)
        ensures
            n == self.spec_sheets().len(),
    {
        self.sheets.len()
    }
}

/// Ownership accounting: transferring any number of finalized sheets,
/// each accepted by the engine, into a fresh context leaves the
/// context reporting exactly that number.
pub fn sheet_count_accounting(sheets: Vec<CssStylesheet>, origin: CssOrigin, media: u64) -> (n:
    usize)
    requires
        forall|i: int| 0 <= i < sheets@.len() ==> sheets@[i].spec_done(),
    ensures
        n == sheets@.len(),
{
    let total = sheets.len();
    let mut remaining = sheets;
    let mut ctx = match css_select_ctx_create(CssError::CssOk) {
        Ok(c) => c,
        Err(f) => unreached(),
    };
    while remaining.len() > 0
        invariant
            remaining@.len() <= total,
            ctx.spec_sheets().len() == total - remaining@.len(),
            forall|i: int| 0 <= i < remaining@.len() ==> remaining@[i].spec_done(),
        decreases remaining@.len(),
    {
        let sheet = match remaining.pop() {
            Some(s) => s,
            None => unreached(),
        };
        match ctx.append_sheet(sheet, origin, media, CssError::CssOk) {
            Ok(u) => (),
            Err(f) => unreached(),
        }
    }
    ctx.count_sheets()
}

/// The styles one selection call resolved, one slot per pseudo-element;
/// the engine may leave a slot unfilled.  The results own their slots
/// and are destroyed together, never partially.
pub struct CssSelectResults {
    styles: Vec<Option<CssComputedStyle>>,
}

impl CssSelectResults {
    /// The per-pseudo-element slots, in the engine's index order.
    pub closed spec fn spec_styles(self) -> Seq<Option<CssComputedStyle>> {
        self.styles@
    }

    /// Well-formed results carry one slot per pseudo-element.
    pub open spec fn wf(self) -> bool {
        self.spec_styles().len() == CSS_PSEUDO_ELEMENT_COUNT
    }

    /// Concludes one selection call: wraps the styles the engine
    /// resolved when it reported success, surfaces the failure
    /// otherwise.  No partial results are ever handed out.
    pub fn from_select(styles: Vec<Option<CssComputedStyle>>, code: CssError) -> (r: Result<
        CssSelectResults,
        CssFailure,
    >)
        requires
            styles@.len() == CSS_PSEUDO_ELEMENT_COUNT,
        ensures
            match r {
                Ok(res) => code == CssError::CssOk && res.wf() && res.spec_styles() == styles@,
                Err(f) => code != CssError::CssOk && f == (CssFailure {
                    op: CssOperation::SelectStyle,
                    code,
                }),
            },
    {
        match require_ok(code, CssOperation::SelectStyle) {
            Ok(u) => Ok(CssSelectResults { styles }),
            Err(f) => Err(f),
        }
    }

    /// Whether the engine filled the slot for a pseudo-element.
    pub fn has_style(&self, element: CssPseudoElement) -> (b: bool)
        requires
            self.wf(),
            element.spec_to_ll() < CSS_PSEUDO_ELEMENT_COUNT,
        ensures
            b == (self.spec_styles()[element.spec_to_ll() as int] is Some),
    {
        let idx = element.to_ll() as usize;
        self.styles[idx].is_some()
    }

    /// Borrows the computed style for one pseudo-element.  The borrow
    /// ties the view's lifetime to these results: a view can never
    /// outlive the selection results it came from.
    pub fn computed_style(&self, element: CssPseudoElement) -> (s: &CssComputedStyle)
        requires
            self.wf(),
            element.spec_to_ll() < CSS_PSEUDO_ELEMENT_COUNT,
            self.spec_styles()[element.spec_to_ll() as int] is Some,
        ensures
            *s == self.spec_styles()[element.spec_to_ll() as int]->0,
    {
        let idx = element.to_ll() as usize;
        match &self.styles[idx] {
            Some(s) => s,
            None => unreached(),
        }
    }
}

} // verus!
