//! The stylesheet resource: creation parameters and the lifecycle of one
//! engine-parsed stylesheet.
//!
//! A stylesheet is created empty, fed zero or more byte chunks, and
//! finalized exactly once; afterwards it is immutable.  The engine holds
//! the parsed form; the verified model mirrors the lifecycle — the bytes
//! fed so far (as specification-only state) and whether parsing was
//! finished — and interprets the status code each engine call reported.
//! A "need more data" answer while appending is an expected control
//! outcome, not a failure.

use vstd::prelude::*;
use crate::errors::CssError;
use crate::errors::CssFailure;
use crate::errors::CssOperation;
use crate::errors::require_ok;
use crate::properties::CssFontStyle;
use crate::properties::CssFontVariant;
use crate::properties::CssFontWeight;
use crate::types::CssLanguageLevel;
use crate::types::CssUnit;

verus! {

/// Marker recording that the host registered a URL-resolution callback
/// with the engine; the callable itself lives in the unverified shell.
#[derive(Clone, Copy, PartialEq, Eq, Structural, Debug)]
pub struct CssUrlResolutionFn;

/// Marker for a host `@import`-notification callback (see
/// [`CssUrlResolutionFn`]).
#[derive(Clone, Copy, PartialEq, Eq, Structural, Debug)]
pub struct CssImportNotificationFn;

/// Marker for a host named-colour resolution callback (see
/// [`CssUrlResolutionFn`]).
#[derive(Clone, Copy, PartialEq, Eq, Structural, Debug)]
pub struct CssColorResolutionFn;

/// Marker for a host system-font resolution callback (see
/// [`CssUrlResolutionFn`]).
#[derive(Clone, Copy, PartialEq, Eq, Structural, Debug)]
pub struct CssFontResolutionFn;

/// Version tag of the parameter block handed to the engine at
/// stylesheet creation.
#[derive(Clone, Copy, PartialEq, Eq, Structural, Debug)]
pub enum CssStylesheetParamsVersion {
    CssStylesheetParamsVersion1,
}

/// Everything the engine is told when a stylesheet is created: language
/// level, charset, diagnostic URL and title, quirks and inline-style
/// flags, and which optional host callbacks are registered.
#[derive(Clone, Debug)]
pub struct CssStylesheetParams {
    pub params_version: CssStylesheetParamsVersion,
    pub level: CssLanguageLevel,
    pub charset: String,
    pub url: String,
    pub title: String,
    pub allow_quirks: bool,
    pub inline_style: bool,
    pub resolve: Option<CssUrlResolutionFn>,
    pub import: Option<CssImportNotificationFn>,
    pub color: Option<CssColorResolutionFn>,
    pub font: Option<CssFontResolutionFn>,
}

/// A system font description, as a host font-resolution callback
/// supplies it.
#[derive(Clone, Debug)]
pub struct CssSystemFont {
    pub style: CssFontStyle,
    pub variant: CssFontVariant,
    pub weight: CssFontWeight,
    pub size: CssUnit,
    pub line_height: CssUnit,
    pub family: String,
}

/// One engine-parsed stylesheet.  The engine owns the parsed form; this
/// value mirrors its lifecycle: the bytes fed so far and whether
/// parsing has been finished.  Once moved into a selection context the
/// context alone keeps it alive.
pub struct CssStylesheet {
    data: Ghost<Seq<u8>>,
    done: bool,
}

impl CssStylesheet {
    /// The bytes fed to the engine so far.
    pub closed spec fn spec_data(self) -> Seq<u8> {
        self.data@
    }

    /// Whether `data_done` has concluded parsing.
    pub closed spec fn spec_done(self) -> bool {
        self.done
    }

    /// Whether parsing has been concluded; afterwards the stylesheet
    /// accepts no more data.
    pub fn is_done(&self) -> (b: bool)
        ensures
            b == self.spec_done(),
    {
        self.done
    }

    /// Interprets the engine's answer to a size query issued while the
    /// stylesheet is alive: the reported byte count on success, a
    /// failure naming the operation otherwise.
    pub fn size(&self, reported: usize, code: CssError) -> (r: Result<usize, CssFailure>)
        ensures
            match r {
                Ok(n) => code == CssError::CssOk && n == reported,
                Err(f) => code != CssError::CssOk && f == (CssFailure {
                    op: CssOperation::StylesheetSize,
                    code,
                }),
            },
    {
        match require_ok(code, CssOperation::StylesheetSize) {
            Ok(u) => Ok(reported),
            Err(f) => Err(f),
        }
    }

    /// Records one chunk handed to the engine, given the status the
    /// engine reported for it.  "Need more data" is an expected control
    /// outcome and counts as acceptance; any other non-`CssOk` status
    /// is a failure and leaves the model unchanged.
    pub fn append_data(&mut self, data: &[u8], code: CssError) -> (r: Result<(), CssFailure>)
        requires
            !old(self).spec_done(),
        ensures
            !final(self).spec_done(),
            match r {
                Ok(u) => (code == CssError::CssOk || code == CssError::CssNeedData)
                    && final(self).spec_data() == old(self).spec_data() + data@,
                Err(f) => code != CssError::CssOk && code != CssError::CssNeedData && f
                    == (CssFailure { op: CssOperation::AppendStylesheetData, code })
                    && final(self).spec_data() == old(self).spec_data(),
            },
    {
        if code == CssError::CssOk || code == CssError::CssNeedData {
            self.data = Ghost(self.data@ + data@);
            Ok(())
        } else {
            Err(CssFailure { op: CssOperation::AppendStylesheetData, code })
        }
    }

    /// Concludes parsing, given the status the engine reported for its
    /// finish call.  On success the stylesheet becomes immutable.
    pub fn data_done(&mut self, code: CssError) -> (r: Result<(), CssFailure>)
        requires
            !old(self).spec_done(),
        ensures
            final(self).spec_data() == old(self).spec_data(),
            match r {
                Ok(u) => code == CssError::CssOk && final(self).spec_done(),
                Err(f) => code != CssError::CssOk && f == (CssFailure {
                    op: CssOperation::FinishStylesheetData,
                    code,
                }) && !final(self).spec_done(),
            },
    {
        match require_ok(code, CssOperation::FinishStylesheetData) {
            Ok(u) => {
                self.done = true;
                Ok(())
            },
            Err(f) => Err(f),
        }
    }
}

/// An owning reference to one stylesheet resource.
pub type CssStylesheetRef = CssStylesheet;

/// Concludes a stylesheet-creation call: a fresh, empty, unfinished
/// stylesheet when the engine accepted the parameters, a failure naming
/// the rejecting code otherwise.
pub fn css_stylesheet_create(params: &CssStylesheetParams, code: CssError) -> (r: Result<
    CssStylesheet,
    CssFailure,
>)
    ensures
        match r {
            Ok(sheet) => code == CssError::CssOk && sheet.spec_data() == Seq::<u8>::empty()
                && !sheet.spec_done(),
            Err(f) => code != CssError::CssOk && f == (CssFailure {
                op: CssOperation::CreateStylesheet,
                code,
            }),
        },
{
    match require_ok(code, CssOperation::CreateStylesheet) {
        Ok(u) => Ok(CssStylesheet { data: Ghost(Seq::empty()), done: false }),
        Err(f) => Err(f),
    }
}

} // verus!
