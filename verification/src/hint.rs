//! The hint codec: translation between the engine's fixed-layout hint
//! record and the safe tagged [`CssHint`] variant.
//!
//! The engine's record is an untagged union payload followed by a
//! one-byte discriminant at a fixed offset past the payload.  Here the
//! record is modelled as a fixed-size byte buffer; the discriminant
//! offset is a single named constant, and every payload shape has one
//! reader and one writer, so this file is the only place the record's
//! layout appears.
//!
//! The encoder writes the payload bytes first and the discriminant byte
//! last: the discriminant is the commit point, so no prefix of an encode
//! ever shows a freshly written discriminant over stale payload bytes.

use vstd::prelude::*;
use crate::properties::CssFontFamily;
use crate::properties::CssProperty;
use crate::types::CssColor;
use crate::types::CssUnit;
use crate::types::spec_color_to_ll;
use crate::types::spec_unit_from_ll;
use crate::types::ll_unit_to_hl_unit;
use crate::values::CSS_COLOR_COLOR;
use crate::values::CSS_FONT_FAMILY_SANS_SERIF;
use crate::values::CSS_FONT_SIZE_DIMENSION;
use crate::values::CSS_QUOTES_NONE;

verus! {

/// Size of a hint record: a 16-byte union payload and the discriminant
/// byte just past it.
pub const HINT_RECORD_BYTES: usize = 17;

/// Fixed offset of the discriminant (status) byte.
pub const STATUS_FIELD_OFFSET: usize = 16;

/// The contents of a freshly zeroed hint record.
pub open spec fn spec_blank_record() -> Seq<u8> {
    Seq::new(HINT_RECORD_BYTES as nat, |i: int| 0u8)
}

/// A hint record in the engine's wire layout: the union payload in bytes
/// 0..16, the status byte at offset 16.
#[derive(Clone, Debug)]
pub struct CssHintRecord {
    bytes: Vec<u8>,
}

/// A safe reading of the record's contents: exactly one variant is
/// active, named by the record's status byte.
#[derive(Clone, Debug)]
pub enum CssHint {
    CssHintFontFamily(Vec<String>, CssFontFamily),
    CssHintLength(CssUnit),
    CssHintDefault,
    CssHintUnknown,
}

/// Refusals of the hint codec.  Decoding a property outside the
/// supported set reports `UnsupportedHint`; the other two mark contract
/// violations by the caller: encoding an `Unknown` hint, or a variant
/// whose payload shape does not belong to the target property.
#[derive(Clone, Copy, PartialEq, Eq, Structural, Debug)]
pub enum CssHintError {
    UnsupportedHint(CssProperty),
    UnknownHint(CssProperty),
    HintShapeMismatch(CssProperty),
}

/// The little-endian 32-bit value stored in four payload bytes.
pub open spec fn spec_read_u32(rec: Seq<u8>, off: int) -> u32 {
    (rec[off] as u32) | ((rec[off + 1] as u32) << 8) | ((rec[off + 2] as u32) << 16) | ((rec[off
        + 3] as u32) << 24)
}

/// The record with a 32-bit value stored little-endian at `off`.
pub open spec fn spec_write_u32(rec: Seq<u8>, off: int, x: u32) -> Seq<u8> {
    rec.update(off, (x & 0xff) as u8).update(off + 1, ((x >> 8) & 0xff) as u8).update(
        off + 2,
        ((x >> 16) & 0xff) as u8,
    ).update(off + 3, ((x >> 24) & 0xff) as u8)
}

/// Reading four bytes back after writing them yields the written value.
pub proof fn lemma_u32_le_roundtrip(rec: Seq<u8>, off: int, x: u32)
    requires
        0 <= off,
        off + 4 <= rec.len(),
    ensures
        spec_read_u32(spec_write_u32(rec, off, x), off) == x,
{
    assert((((x & 0xff) as u8 as u32) | ((((x >> 8) & 0xff) as u8 as u32) << 8) | ((((x >> 16)
        & 0xff) as u8 as u32) << 16) | ((((x >> 24) & 0xff) as u8 as u32) << 24)) == x)
        by (bit_vector);
}

impl CssHintRecord {
    /// The record's bytes, payload and status together.
    pub closed spec fn spec_bytes(self) -> Seq<u8> {
        self.bytes@
    }

    /// A record is well formed when it has exactly the engine's layout
    /// size.
    pub open spec fn wf(self) -> bool {
        self.spec_bytes().len() == HINT_RECORD_BYTES
    }

    /// A fresh, zeroed record.
    pub fn new() -> (r: CssHintRecord)
        ensures
            r.wf(),
            r.spec_bytes() == spec_blank_record(),
    {
        let mut bytes: Vec<u8> = Vec::new();
        let mut i: usize = 0;
        while i < HINT_RECORD_BYTES
            invariant
                i <= HINT_RECORD_BYTES,
                bytes@ =~= Seq::new(i as nat, |j: int| 0u8),
            decreases HINT_RECORD_BYTES - i,
        {
            bytes.push(0);
            i = i + 1;
            proof {
                assert(bytes@ =~= Seq::new(i as nat, |j: int| 0u8));
            }
        }
        proof {
            assert(bytes@ =~= Seq::new(HINT_RECORD_BYTES as nat, |j: int| 0u8));
        }
        CssHintRecord { bytes }
    }

    /// Adopts a record captured from the engine's memory, byte for
    /// byte.
    pub fn from_bytes(bytes: Vec<u8>) -> (r: CssHintRecord)
        requires
            bytes@.len() == HINT_RECORD_BYTES,
        ensures
            r.wf(),
            r.spec_bytes() == bytes@,
    {
        CssHintRecord { bytes }
    }

    /// The record's bytes, for copying back into the engine's memory.
    pub fn as_bytes(&self) -> (b: &Vec<u8>)
        ensures
            b@ == self.spec_bytes(),
    {
        &self.bytes
    }

    /// Reads the little-endian 32-bit payload field at `off`.
    fn read_u32_at(&self, off: usize) -> (x: u32)
        requires
            self.wf(),
            off + 4 <= STATUS_FIELD_OFFSET,
        ensures
            x == spec_read_u32(self.spec_bytes(), off as int),
    {
        let b0 = self.bytes[off];
        let b1 = self.bytes[off + 1];
        let b2 = self.bytes[off + 2];
        let b3 = self.bytes[off + 3];
        (b0 as u32) | ((b1 as u32) << 8) | ((b2 as u32) << 16) | ((b3 as u32) << 24)
    }

    /// Writes the little-endian 32-bit payload field at `off`.
    fn write_u32_at(&mut self, off: usize, x: u32)
        requires
            old(self).wf(),
            off + 4 <= STATUS_FIELD_OFFSET,
        ensures
            final(self).wf(),
            final(self).spec_bytes() == spec_write_u32(old(self).spec_bytes(), off as int, x),
    {
        self.bytes.set(off, (x & 0xff) as u8);
        self.bytes.set(off + 1, ((x >> 8) & 0xff) as u8);
        self.bytes.set(off + 2, ((x >> 16) & 0xff) as u8);
        self.bytes.set(off + 3, ((x >> 24) & 0xff) as u8);
    }
}

/// Reads the discriminant byte at its fixed offset past the payload.
pub fn get_css_hint_status(llhint: &CssHintRecord) -> (s: u8)
    requires
        llhint.wf(),
    ensures
        s == llhint.spec_bytes()[STATUS_FIELD_OFFSET as int],
{
    llhint.bytes[STATUS_FIELD_OFFSET]
}

/// Writes the discriminant byte at its fixed offset past the payload.
pub fn set_css_hint_status(llhint: &mut CssHintRecord, status: u8)
    requires
        old(llhint).wf(),
    ensures
        final(llhint).wf(),
        final(llhint).spec_bytes() == old(llhint).spec_bytes().update(
            STATUS_FIELD_OFFSET as int,
            status,
        ),
{
    llhint.bytes.set(STATUS_FIELD_OFFSET, status);
}

/// What decoding a record for a property yields.  Font size is the one
/// property the host-facing callbacks supply dimensioned hints for; any
/// other property is outside the supported set.
pub open spec fn spec_hint_new(property: CssProperty, rec: Seq<u8>) -> Result<
    CssHint,
    CssHintError,
> {
    if property == CssProperty::CssPropFontSize {
        if rec[STATUS_FIELD_OFFSET as int] == CSS_FONT_SIZE_DIMENSION {
            let value = spec_read_u32(rec, 0) as i32;
            let unit = spec_read_u32(rec, 4);
            match spec_unit_from_ll(unit, value) {
                Some(u) => Ok(CssHint::CssHintLength(u)),
                None => Ok(CssHint::CssHintUnknown),
            }
        } else {
            Ok(CssHint::CssHintUnknown)
        }
    } else {
        Err(CssHintError::UnsupportedHint(property))
    }
}

/// What encoding a hint for a property writes, if the pair is legal:
/// the payload field matching the variant, then the discriminant byte.
pub open spec fn spec_hint_write(property: CssProperty, hint: CssHint, rec: Seq<u8>) -> Result<
    Seq<u8>,
    CssHintError,
> {
    match (property, hint) {
        (CssProperty::CssPropFontFamily, CssHint::CssHintDefault) => Ok(
            spec_write_u32(spec_write_u32(rec, 0, 0), 4, 0).update(
                STATUS_FIELD_OFFSET as int,
                CSS_FONT_FAMILY_SANS_SERIF,
            ),
        ),
        (CssProperty::CssPropQuotes, CssHint::CssHintDefault) => Ok(
            spec_write_u32(spec_write_u32(rec, 0, 0), 4, 0).update(
                STATUS_FIELD_OFFSET as int,
                CSS_QUOTES_NONE,
            ),
        ),
        (CssProperty::CssPropColor, CssHint::CssHintDefault) => Ok(
            spec_write_u32(
                rec,
                0,
                spec_color_to_ll(CssColor { b: 0, g: 0, r: 0, a: 255 }),
            ).update(STATUS_FIELD_OFFSET as int, CSS_COLOR_COLOR),
        ),
        (CssProperty::CssPropFontSize, CssHint::CssHintLength(u)) => Ok(
            spec_write_u32(
                spec_write_u32(rec, 0, u.spec_to_ll().1 as u32),
                4,
                u.spec_to_ll().0,
            ).update(STATUS_FIELD_OFFSET as int, CSS_FONT_SIZE_DIMENSION),
        ),
        (p, CssHint::CssHintUnknown) => Err(CssHintError::UnknownHint(p)),
        (p, _) => Err(CssHintError::HintShapeMismatch(p)),
    }
}

impl CssHint {
    /// Decodes the record's active variant for `property`: reads the
    /// discriminant byte at its fixed offset, then the union field that
    /// discriminant names.  A property outside the supported set is
    /// refused with `UnsupportedHint`.
    pub fn new(property: CssProperty, hint: &CssHintRecord) -> (r: Result<CssHint, CssHintError>)
        requires
            hint.wf(),
        ensures
            r == spec_hint_new(property, hint.spec_bytes()),
    {
        match property {
            CssProperty::CssPropFontSize => {
                let status = get_css_hint_status(hint);
                if status == CSS_FONT_SIZE_DIMENSION {
                    let value = hint.read_u32_at(0) as i32;
                    let unit = hint.read_u32_at(4);
                    match ll_unit_to_hl_unit(unit, value) {
                        Some(u) => Ok(CssHint::CssHintLength(u)),
                        None => Ok(CssHint::CssHintUnknown),
                    }
                } else {
                    Ok(CssHint::CssHintUnknown)
                }
            },
            _ => Err(CssHintError::UnsupportedHint(property)),
        }
    }

    /// Encodes this hint into the record for `property`: writes the
    /// union field matching the variant, then the discriminant byte
    /// last.  Encoding `Unknown`, or a variant whose shape does not fit
    /// the property, is a contract violation and leaves the record
    /// untouched.
    pub fn write_to_ll(&self, property: CssProperty, llhint: &mut CssHintRecord) -> (r: Result<
        (),
        CssHintError,
    >)
        requires
            old(llhint).wf(),
        ensures
            final(llhint).wf(),
            match r {
                Ok(u) => spec_hint_write(property, *self, old(llhint).spec_bytes()) == Ok::<
                    Seq<u8>,
                    CssHintError,
                >(final(llhint).spec_bytes()),
                Err(e) => spec_hint_write(property, *self, old(llhint).spec_bytes()) == Err::<
                    Seq<u8>,
                    CssHintError,
                >(e) && *final(llhint) == *old(llhint),
            },
    {
        match (property, self) {
            (CssProperty::CssPropFontFamily, CssHint::CssHintDefault) => {
                llhint.write_u32_at(0, 0);
                llhint.write_u32_at(4, 0);
                set_css_hint_status(llhint, CSS_FONT_FAMILY_SANS_SERIF);
                Ok(())
            },
            (CssProperty::CssPropQuotes, CssHint::CssHintDefault) => {
                llhint.write_u32_at(0, 0);
                llhint.write_u32_at(4, 0);
                set_css_hint_status(llhint, CSS_QUOTES_NONE);
                Ok(())
            },
            (CssProperty::CssPropColor, CssHint::CssHintDefault) => {
                let black = CssColor { b: 0, g: 0, r: 0, a: 255 };
                llhint.write_u32_at(0, black.to_ll());
                set_css_hint_status(llhint, CSS_COLOR_COLOR);
                Ok(())
            },
            (CssProperty::CssPropFontSize, CssHint::CssHintLength(u)) => {
                let length = u.to_ll_css_hint_length();
                llhint.write_u32_at(0, length.value as u32);
                llhint.write_u32_at(4, length.unit);
                set_css_hint_status(llhint, CSS_FONT_SIZE_DIMENSION);
                Ok(())
            },
            (_, CssHint::CssHintUnknown) => Err(CssHintError::UnknownHint(property)),
            (_, _) => Err(CssHintError::HintShapeMismatch(property)),
        }
    }
}

/// Round trip: a dimensioned font-size hint decodes back to itself from
/// any record it was encoded into.
pub proof fn lemma_hint_roundtrip(u: CssUnit, rec: Seq<u8>)
    requires
        rec.len() == HINT_RECORD_BYTES,
    ensures
        forall|w: Seq<u8>|
            spec_hint_write(CssProperty::CssPropFontSize, CssHint::CssHintLength(u), rec) == Ok::<
                Seq<u8>,
                CssHintError,
            >(w) ==> spec_hint_new(CssProperty::CssPropFontSize, w) == Ok::<CssHint, CssHintError>(
                CssHint::CssHintLength(u),
            ),
{
    let value = u.spec_to_ll().1;
    let unit = u.spec_to_ll().0;
    let w1 = spec_write_u32(rec, 0, value as u32);
    let w2 = spec_write_u32(w1, 4, unit);
    let w = w2.update(STATUS_FIELD_OFFSET as int, CSS_FONT_SIZE_DIMENSION);
    lemma_u32_le_roundtrip(rec, 0, value as u32);
    lemma_u32_le_roundtrip(w1, 4, unit);
    assert(spec_read_u32(w, 0) == spec_read_u32(w1, 0));
    assert(spec_read_u32(w, 4) == spec_read_u32(w2, 4));
    assert((value as u32) as i32 == value) by (bit_vector);
    crate::types::lemma_unit_roundtrip(u);
}

/// Round trip, record side: a record that decodes to a dimensioned
/// font-size hint is reproduced byte for byte by re-encoding that hint
/// into it.
pub proof fn lemma_hint_encode_of_decode(rec: Seq<u8>, u: CssUnit)
    requires
        rec.len() == HINT_RECORD_BYTES,
        spec_hint_new(CssProperty::CssPropFontSize, rec) == Ok::<CssHint, CssHintError>(
            CssHint::CssHintLength(u),
        ),
    ensures
        spec_hint_write(CssProperty::CssPropFontSize, CssHint::CssHintLength(u), rec) == Ok::<
            Seq<u8>,
            CssHintError,
        >(rec),
{
    let x = spec_read_u32(rec, 0);
    let y = spec_read_u32(rec, 4);
    crate::types::lemma_unit_from_ll_roundtrip(y, x as i32);
    assert(u.spec_to_ll() == (y, x as i32));
    assert(((x as i32) as u32) == x) by (bit_vector);
    let b0 = rec[0];
    let b1 = rec[1];
    let b2 = rec[2];
    let b3 = rec[3];
    let c0 = rec[4];
    let c1 = rec[5];
    let c2 = rec[6];
    let c3 = rec[7];
    assert((((b0 as u32) | ((b1 as u32) << 8) | ((b2 as u32) << 16) | ((b3 as u32) << 24))
        & 0xff) as u8 == b0) by (bit_vector);
    assert(((((b0 as u32) | ((b1 as u32) << 8) | ((b2 as u32) << 16) | ((b3 as u32) << 24)) >> 8)
        & 0xff) as u8 == b1) by (bit_vector);
    assert(((((b0 as u32) | ((b1 as u32) << 8) | ((b2 as u32) << 16) | ((b3 as u32) << 24)) >> 16)
        & 0xff) as u8 == b2) by (bit_vector);
    assert(((((b0 as u32) | ((b1 as u32) << 8) | ((b2 as u32) << 16) | ((b3 as u32) << 24)) >> 24)
        & 0xff) as u8 == b3) by (bit_vector);
    assert((((c0 as u32) | ((c1 as u32) << 8) | ((c2 as u32) << 16) | ((c3 as u32) << 24))
        & 0xff) as u8 == c0) by (bit_vector);
    assert(((((c0 as u32) | ((c1 as u32) << 8) | ((c2 as u32) << 16) | ((c3 as u32) << 24)) >> 8)
        & 0xff) as u8 == c1) by (bit_vector);
    assert(((((c0 as u32) | ((c1 as u32) << 8) | ((c2 as u32) << 16) | ((c3 as u32) << 24)) >> 16)
        & 0xff) as u8 == c2) by (bit_vector);
    assert(((((c0 as u32) | ((c1 as u32) << 8) | ((c2 as u32) << 16) | ((c3 as u32) << 24)) >> 24)
        & 0xff) as u8 == c3) by (bit_vector);
    let w = spec_write_u32(spec_write_u32(rec, 0, x), 4, y).update(
        STATUS_FIELD_OFFSET as int,
        CSS_FONT_SIZE_DIMENSION,
    );
    assert(w =~= rec);
}

/// Discriminant/payload agreement: after any successful encode, the
/// discriminant byte read back at its fixed offset is exactly the one
/// the encoded variant calls for, and the payload field read back is
/// exactly the encoded payload.
pub proof fn lemma_hint_discriminant_payload_agreement(
    property: CssProperty,
    hint: CssHint,
    rec: Seq<u8>,
    w: Seq<u8>,
)
    requires
        rec.len() == HINT_RECORD_BYTES,
        spec_hint_write(property, hint, rec) == Ok::<Seq<u8>, CssHintError>(w),
    ensures
        w.len() == HINT_RECORD_BYTES,
        property == CssProperty::CssPropFontFamily ==> w[STATUS_FIELD_OFFSET as int]
            == CSS_FONT_FAMILY_SANS_SERIF && spec_read_u32(w, 0) == 0 && spec_read_u32(w, 4) == 0,
        property == CssProperty::CssPropQuotes ==> w[STATUS_FIELD_OFFSET as int] == CSS_QUOTES_NONE
            && spec_read_u32(w, 0) == 0 && spec_read_u32(w, 4) == 0,
        property == CssProperty::CssPropColor ==> w[STATUS_FIELD_OFFSET as int] == CSS_COLOR_COLOR
            && spec_read_u32(w, 0) == spec_color_to_ll(CssColor { b: 0, g: 0, r: 0, a: 255 }),
        property == CssProperty::CssPropFontSize ==> w[STATUS_FIELD_OFFSET as int]
            == CSS_FONT_SIZE_DIMENSION && (hint matches CssHint::CssHintLength(u) && spec_read_u32(
            w,
            0,
        ) as i32 == u.spec_to_ll().1 && spec_read_u32(w, 4) == u.spec_to_ll().0),
{
    match (property, hint) {
        (CssProperty::CssPropFontFamily, CssHint::CssHintDefault) => {
            let w1 = spec_write_u32(rec, 0, 0);
            lemma_u32_le_roundtrip(rec, 0, 0);
            lemma_u32_le_roundtrip(w1, 4, 0);
            assert(spec_read_u32(w, 0) == spec_read_u32(w1, 0));
        },
        (CssProperty::CssPropQuotes, CssHint::CssHintDefault) => {
            let w1 = spec_write_u32(rec, 0, 0);
            lemma_u32_le_roundtrip(rec, 0, 0);
            lemma_u32_le_roundtrip(w1, 4, 0);
            assert(spec_read_u32(w, 0) == spec_read_u32(w1, 0));
        },
        (CssProperty::CssPropColor, CssHint::CssHintDefault) => {
            lemma_u32_le_roundtrip(rec, 0, spec_color_to_ll(CssColor { b: 0, g: 0, r: 0, a: 255 }));
        },
        (CssProperty::CssPropFontSize, CssHint::CssHintLength(u)) => {
            let value = u.spec_to_ll().1;
            let unit = u.spec_to_ll().0;
            let w1 = spec_write_u32(rec, 0, value as u32);
            lemma_u32_le_roundtrip(rec, 0, value as u32);
            lemma_u32_le_roundtrip(w1, 4, unit);
            assert(spec_read_u32(w, 0) == spec_read_u32(w1, 0));
            assert((value as u32) as i32 == value) by (bit_vector);
        },
        (_, _) => {},
    }
}

} // verus!
