//! A verified adapter layer between a host document tree and a foreign CSS
//! selection engine.
//!
//! The engine itself (tokenizer, selector matching, cascade) is an external
//! collaborator reached over a C-shaped boundary; this crate holds everything
//! on the near side of that boundary and proves it correct:
//!
//! - the opaque-handle codec that passes host nodes through the engine
//!   ([`handle`]),
//! - the tagged-union hint codec, including the fixed-offset discriminant
//!   byte ([`hint`]),
//! - the unit, colour, property-id and status-code codecs ([`types`],
//!   [`properties`], [`errors`]),
//! - the selection-handler trampoline: one typed callback entry point per
//!   slot of the engine's handler table ([`select`]),
//! - the stylesheet / selection-context ownership model ([`stylesheet`],
//!   [`select`]),
//! - decoding of per-property computed values and the style composition
//!   algorithm ([`values`], [`computed`]).
//!
//! Functions that in a running system sit directly around an engine call
//! take the engine's reported status code (and, where applicable, its
//! reported values) as arguments: the unverified shell performs the call
//! and hands the outcome to the verified model, which decides what it
//! means and how the adapter's own state changes.

pub mod computed;
pub mod errors;
pub mod handle;
pub mod hint;
pub mod host;
pub mod properties;
pub mod select;
pub mod stylesheet;
pub mod types;
pub mod values;
