//! Status codes reported by the foreign engine, and the typed failure value
//! that carries a non-`CSS_OK` code back to the caller together with the
//! operation that observed it.

use vstd::prelude::*;

verus! {

/// The engine's `css_error` status enumeration.  `CssOk` is the success
/// code; everything else reports why an operation could not complete.
/// The numbering is part of the boundary: `to_code`/`from_code` are the
/// only places it is written down.
#[derive(Clone, Copy, PartialEq, Eq, Structural, Debug)]
pub enum CssError {
    CssOk,
    CssNoMem,
    CssBadParm,
    CssInvalid,
    CssFileNotFound,
    CssNeedData,
    CssBadCharset,
    CssEof,
    CssImportsPending,
    CssPropertyNotSet,
}

impl CssError {
    /// The numeric code the engine uses for this status.
    pub open spec fn spec_code(self) -> u32 {
        match self {
            CssError::CssOk => 0,
            CssError::CssNoMem => 1,
            CssError::CssBadParm => 2,
            CssError::CssInvalid => 3,
            CssError::CssFileNotFound => 4,
            CssError::CssNeedData => 5,
            CssError::CssBadCharset => 6,
            CssError::CssEof => 7,
            CssError::CssImportsPending => 8,
            CssError::CssPropertyNotSet => 9,
        }
    }

    /// The status named by a numeric code, if the code is one the engine
    /// defines.
    pub open spec fn spec_from_code(code: u32) -> Option<CssError> {
        if code == 0 {
            Some(CssError::CssOk)
        } else if code == 1 {
            Some(CssError::CssNoMem)
        } else if code == 2 {
            Some(CssError::CssBadParm)
        } else if code == 3 {
            Some(CssError::CssInvalid)
        } else if code == 4 {
            Some(CssError::CssFileNotFound)
        } else if code == 5 {
            Some(CssError::CssNeedData)
        } else if code == 6 {
            Some(CssError::CssBadCharset)
        } else if code == 7 {
            Some(CssError::CssEof)
        } else if code == 8 {
            Some(CssError::CssImportsPending)
        } else if code == 9 {
            Some(CssError::CssPropertyNotSet)
        } else {
            None
        }
    }

    pub fn to_code(self) -> (c: u32)
        ensures
            c == self.spec_code(),
            Self::spec_from_code(c) == Some(self),
    {
        match self {
            CssError::CssOk => 0,
            CssError::CssNoMem => 1,
            CssError::CssBadParm => 2,
            CssError::CssInvalid => 3,
            CssError::CssFileNotFound => 4,
            CssError::CssNeedData => 5,
            CssError::CssBadCharset => 6,
            CssError::CssEof => 7,
            CssError::CssImportsPending => 8,
            CssError::CssPropertyNotSet => 9,
        }
    }

    pub fn from_code(code: u32) -> (r: Option<CssError>)
        ensures
            r == Self::spec_from_code(code),
    {
        if code == 0 {
            Some(CssError::CssOk)
        } else if code == 1 {
            Some(CssError::CssNoMem)
        } else if code == 2 {
            Some(CssError::CssBadParm)
        } else if code == 3 {
            Some(CssError::CssInvalid)
        } else if code == 4 {
            Some(CssError::CssFileNotFound)
        } else if code == 5 {
            Some(CssError::CssNeedData)
        } else if code == 6 {
            Some(CssError::CssBadCharset)
        } else if code == 7 {
            Some(CssError::CssEof)
        } else if code == 8 {
            Some(CssError::CssImportsPending)
        } else if code == 9 {
            Some(CssError::CssPropertyNotSet)
        } else {
            None
        }
    }
}

/// The adapter operations that issue engine calls; a failure names the one
/// that observed the bad status.
#[derive(Clone, Copy, PartialEq, Eq, Structural, Debug)]
pub enum CssOperation {
    CreateStylesheet,
    StylesheetSize,
    AppendStylesheetData,
    FinishStylesheetData,
    CreateSelectCtx,
    AppendSheet,
    SelectStyle,
}

/// A non-`CssOk` status, together with the operation during which the
/// engine reported it.
#[derive(Clone, Copy, PartialEq, Eq, Structural, Debug)]
pub struct CssFailure {
    pub op: CssOperation,
    pub code: CssError,
}

/// Turns an engine status into a result: `CssOk` means the operation
/// succeeded, anything else is surfaced as a failure naming the operation.
pub fn require_ok(code: CssError, op: CssOperation) -> (r: Result<(), CssFailure>)
    ensures
        match r {
            Ok(u) => code == CssError::CssOk,
            Err(f) => code != CssError::CssOk && f == (CssFailure { op, code }),
        },
{
    if code == CssError::CssOk {
        Ok(())
    } else {
        Err(CssFailure { op, code })
    }
}

/// Pairs an engine status with the value the call produced: the value is
/// handed out exactly when the status is `CssOk`.
pub fn css_result<T>(code: CssError, val: T) -> (r: Result<T, CssError>)
    ensures
        match r {
            Ok(v) => code == CssError::CssOk && v == val,
            Err(e) => code != CssError::CssOk && e == code,
        },
{
    if code == CssError::CssOk {
        Ok(val)
    } else {
        Err(code)
    }
}

} // verus!
