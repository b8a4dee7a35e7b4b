//! Core value types shared across the boundary: colours, qualified names,
//! language levels, and dimensioned values (a CSS unit carrying the
//! engine's 22.10 fixed-point payload).
//!
//! Every conversion to or from the engine's wire form is a total, exactly
//! specified map, and each direction inverts the other; the round-trip
//! lemmas at the bottom state that once and for all.

use vstd::prelude::*;

verus! {

/// A colour in the engine's packed byte order: blue in the lowest byte,
/// then green, red, alpha.
#[derive(Clone, Copy, PartialEq, Eq, Structural, Debug)]
pub struct CssColor {
    pub b: u8,
    pub g: u8,
    pub r: u8,
    pub a: u8,
}

/// The packed 32-bit form of a colour, blue in bits 0..8, green in 8..16,
/// red in 16..24, alpha in 24..32.
pub open spec fn spec_color_to_ll(c: CssColor) -> u32 {
    (c.b as u32) | ((c.g as u32) << 8) | ((c.r as u32) << 16) | ((c.a as u32) << 24)
}

/// The colour encoded by a packed 32-bit value.
pub open spec fn spec_color_from_ll(x: u32) -> CssColor {
    CssColor {
        b: (x & 0xff) as u8,
        g: ((x >> 8) & 0xff) as u8,
        r: ((x >> 16) & 0xff) as u8,
        a: ((x >> 24) & 0xff) as u8,
    }
}

impl CssColor {
    /// Packs this colour into the engine's 32-bit form.
    pub fn to_ll(&self) -> (x: u32)
        ensures
            x == spec_color_to_ll(*self),
    {
        (self.b as u32) | ((self.g as u32) << 8) | ((self.r as u32) << 16) | ((self.a as u32) << 24)
    }
}

/// Unpacks the engine's 32-bit colour form.
pub fn ll_color_to_hl_color(color: u32) -> (c: CssColor)
    ensures
        c == spec_color_from_ll(color),
{
    CssColor {
        b: (color & 0xff) as u8,
        g: ((color >> 8) & 0xff) as u8,
        r: ((color >> 16) & 0xff) as u8,
        a: ((color >> 24) & 0xff) as u8,
    }
}

/// Unpacking a packed colour yields the original bytes.
pub proof fn lemma_color_roundtrip(c: CssColor)
    ensures
        spec_color_from_ll(spec_color_to_ll(c)) == c,
{
    let b = c.b;
    let g = c.g;
    let r = c.r;
    let a = c.a;
    assert((((b as u32) | ((g as u32) << 8) | ((r as u32) << 16) | ((a as u32) << 24)) & 0xff)
        as u8 == b) by (bit_vector);
    assert(((((b as u32) | ((g as u32) << 8) | ((r as u32) << 16) | ((a as u32) << 24)) >> 8)
        & 0xff) as u8 == g) by (bit_vector);
    assert(((((b as u32) | ((g as u32) << 8) | ((r as u32) << 16) | ((a as u32) << 24)) >> 16)
        & 0xff) as u8 == r) by (bit_vector);
    assert(((((b as u32) | ((g as u32) << 8) | ((r as u32) << 16) | ((a as u32) << 24)) >> 24)
        & 0xff) as u8 == a) by (bit_vector);
}

/// Packing an unpacked colour yields the original 32-bit value.
pub proof fn lemma_color_to_ll_roundtrip(x: u32)
    ensures
        spec_color_to_ll(spec_color_from_ll(x)) == x,
{
    assert((((x & 0xff) as u8 as u32) | ((((x >> 8) & 0xff) as u8 as u32) << 8) | ((((x >> 16)
        & 0xff) as u8 as u32) << 16) | ((((x >> 24) & 0xff) as u8 as u32) << 24)) == x)
        by (bit_vector);
}

/// A qualified element name: an optional namespace and a local name.
/// The engine interns its strings; on this side of the boundary both parts
/// are carried as plain owned strings.
#[derive(Clone, Debug)]
pub struct CssQName {
    pub ns: Option<String>,
    pub name: String,
}

/// The CSS language level a stylesheet is parsed under.
#[derive(Clone, Copy, PartialEq, Eq, Structural, Debug)]
pub enum CssLanguageLevel {
    CssLevel1,
    CssLevel2,
    CssLevel21,
    CssLevel3,
    CssLevelDefault,
}

impl CssLanguageLevel {
    /// The engine's numeric code for this level.  The engine has no
    /// distinct code for the default level: it shares the code of
    /// level 2.1.
    pub open spec fn spec_to_ll(self) -> u32 {
        match self {
            CssLanguageLevel::CssLevel1 => 0,
            CssLanguageLevel::CssLevel2 => 1,
            CssLanguageLevel::CssLevel21 => 2,
            CssLanguageLevel::CssLevel3 => 3,
            CssLanguageLevel::CssLevelDefault => 2,
        }
    }

    pub fn to_ll(self) -> (c: u32)
        ensures
            c == self.spec_to_ll(),
    {
        match self {
            CssLanguageLevel::CssLevel1 => 0,
            CssLanguageLevel::CssLevel2 => 1,
            CssLanguageLevel::CssLevel21 => 2,
            CssLanguageLevel::CssLevel3 => 3,
            CssLanguageLevel::CssLevelDefault => 2,
        }
    }
}

/// A dimensioned value: one variant per CSS unit, each carrying the
/// engine's fixed-point payload (1024 fixed-point steps to the unit).
#[derive(Clone, Copy, PartialEq, Eq, Structural, Debug)]
pub enum CssUnit {
    CssUnitPx(i32),
    CssUnitEx(i32),
    CssUnitEm(i32),
    CssUnitIn(i32),
    CssUnitCm(i32),
    CssUnitMm(i32),
    CssUnitPt(i32),
    CssUnitPc(i32),
    CssUnitPct(i32),
    CssUnitDeg(i32),
    CssUnitGrad(i32),
    CssUnitRad(i32),
    CssUnitMs(i32),
    CssUnitS(i32),
    CssUnitHz(i32),
    CssUnitKHz(i32),
}

/// The engine's wire form of a dimensioned hint payload: the fixed-point
/// value followed by the numeric unit code.
#[derive(Clone, Copy, PartialEq, Eq, Structural, Debug)]
pub struct CssHintLength {
    pub value: i32,
    pub unit: u32,
}

impl CssUnit {
    /// The engine's (unit code, fixed-point value) pair for this value.
    pub open spec fn spec_to_ll(self) -> (u32, i32) {
        match self {
            CssUnit::CssUnitPx(v) => (0x0, v),
            CssUnit::CssUnitEx(v) => (0x1, v),
            CssUnit::CssUnitEm(v) => (0x2, v),
            CssUnit::CssUnitIn(v) => (0x3, v),
            CssUnit::CssUnitCm(v) => (0x4, v),
            CssUnit::CssUnitMm(v) => (0x5, v),
            CssUnit::CssUnitPt(v) => (0x6, v),
            CssUnit::CssUnitPc(v) => (0x7, v),
            CssUnit::CssUnitPct(v) => (0x8, v),
            CssUnit::CssUnitDeg(v) => (0x9, v),
            CssUnit::CssUnitGrad(v) => (0xa, v),
            CssUnit::CssUnitRad(v) => (0xb, v),
            CssUnit::CssUnitMs(v) => (0xc, v),
            CssUnit::CssUnitS(v) => (0xd, v),
            CssUnit::CssUnitHz(v) => (0xe, v),
            CssUnit::CssUnitKHz(v) => (0xf, v),
        }
    }

    pub fn to_ll(&self) -> (r: (u32, i32))
        ensures
            r == self.spec_to_ll(),
    {
        match *self {
            CssUnit::CssUnitPx(v) => (0x0, v),
            CssUnit::CssUnitEx(v) => (0x1, v),
            CssUnit::CssUnitEm(v) => (0x2, v),
            CssUnit::CssUnitIn(v) => (0x3, v),
            CssUnit::CssUnitCm(v) => (0x4, v),
            CssUnit::CssUnitMm(v) => (0x5, v),
            CssUnit::CssUnitPt(v) => (0x6, v),
            CssUnit::CssUnitPc(v) => (0x7, v),
            CssUnit::CssUnitPct(v) => (0x8, v),
            CssUnit::CssUnitDeg(v) => (0x9, v),
            CssUnit::CssUnitGrad(v) => (0xa, v),
            CssUnit::CssUnitRad(v) => (0xb, v),
            CssUnit::CssUnitMs(v) => (0xc, v),
            CssUnit::CssUnitS(v) => (0xd, v),
            CssUnit::CssUnitHz(v) => (0xe, v),
            CssUnit::CssUnitKHz(v) => (0xf, v),
        }
    }

    /// The wire form used inside a hint record.
    pub fn to_ll_css_hint_length(&self) -> (r: CssHintLength)
        ensures
            r.value == self.spec_to_ll().1,
            r.unit == self.spec_to_ll().0,
    {
        let (unit, value) = self.to_ll();
        CssHintLength { value, unit }
    }

    /// The fixed-point payload, whatever the unit.
    pub fn to_css_fixed(&self) -> (v: i32)
        ensures
            v == self.spec_to_ll().1,
    {
        match *self {
            CssUnit::CssUnitPx(v) => v,
            CssUnit::CssUnitEx(v) => v,
            CssUnit::CssUnitEm(v) => v,
            CssUnit::CssUnitIn(v) => v,
            CssUnit::CssUnitCm(v) => v,
            CssUnit::CssUnitMm(v) => v,
            CssUnit::CssUnitPt(v) => v,
            CssUnit::CssUnitPc(v) => v,
            CssUnit::CssUnitPct(v) => v,
            CssUnit::CssUnitDeg(v) => v,
            CssUnit::CssUnitGrad(v) => v,
            CssUnit::CssUnitRad(v) => v,
            CssUnit::CssUnitMs(v) => v,
            CssUnit::CssUnitS(v) => v,
            CssUnit::CssUnitHz(v) => v,
            CssUnit::CssUnitKHz(v) => v,
        }
    }

    /// The same unit with a new fixed-point payload.
    pub fn modify(&self, new_value: i32) -> (r: CssUnit)
        ensures
            r.spec_to_ll().0 == self.spec_to_ll().0,
            r.spec_to_ll().1 == new_value,
    {
        match *self {
            CssUnit::CssUnitPx(_) => CssUnit::CssUnitPx(new_value),
            CssUnit::CssUnitEx(_) => CssUnit::CssUnitEx(new_value),
            CssUnit::CssUnitEm(_) => CssUnit::CssUnitEm(new_value),
            CssUnit::CssUnitIn(_) => CssUnit::CssUnitIn(new_value),
            CssUnit::CssUnitCm(_) => CssUnit::CssUnitCm(new_value),
            CssUnit::CssUnitMm(_) => CssUnit::CssUnitMm(new_value),
            CssUnit::CssUnitPt(_) => CssUnit::CssUnitPt(new_value),
            CssUnit::CssUnitPc(_) => CssUnit::CssUnitPc(new_value),
            CssUnit::CssUnitPct(_) => CssUnit::CssUnitPct(new_value),
            CssUnit::CssUnitDeg(_) => CssUnit::CssUnitDeg(new_value),
            CssUnit::CssUnitGrad(_) => CssUnit::CssUnitGrad(new_value),
            CssUnit::CssUnitRad(_) => CssUnit::CssUnitRad(new_value),
            CssUnit::CssUnitMs(_) => CssUnit::CssUnitMs(new_value),
            CssUnit::CssUnitS(_) => CssUnit::CssUnitS(new_value),
            CssUnit::CssUnitHz(_) => CssUnit::CssUnitHz(new_value),
            CssUnit::CssUnitKHz(_) => CssUnit::CssUnitKHz(new_value),
        }
    }
}

/// The dimensioned value encoded by an engine (unit code, fixed-point)
/// pair, if the code names a unit.
pub open spec fn spec_unit_from_ll(unit: u32, value: i32) -> Option<CssUnit> {
    if unit == 0x0 {
        Some(CssUnit::CssUnitPx(value))
    } else if unit == 0x1 {
        Some(CssUnit::CssUnitEx(value))
    } else if unit == 0x2 {
        Some(CssUnit::CssUnitEm(value))
    } else if unit == 0x3 {
        Some(CssUnit::CssUnitIn(value))
    } else if unit == 0x4 {
        Some(CssUnit::CssUnitCm(value))
    } else if unit == 0x5 {
        Some(CssUnit::CssUnitMm(value))
    } else if unit == 0x6 {
        Some(CssUnit::CssUnitPt(value))
    } else if unit == 0x7 {
        Some(CssUnit::CssUnitPc(value))
    } else if unit == 0x8 {
        Some(CssUnit::CssUnitPct(value))
    } else if unit == 0x9 {
        Some(CssUnit::CssUnitDeg(value))
    } else if unit == 0xa {
        Some(CssUnit::CssUnitGrad(value))
    } else if unit == 0xb {
        Some(CssUnit::CssUnitRad(value))
    } else if unit == 0xc {
        Some(CssUnit::CssUnitMs(value))
    } else if unit == 0xd {
        Some(CssUnit::CssUnitS(value))
    } else if unit == 0xe {
        Some(CssUnit::CssUnitHz(value))
    } else if unit == 0xf {
        Some(CssUnit::CssUnitKHz(value))
    } else {
        None
    }
}

/// Decodes an engine (unit code, fixed-point) pair.
pub fn ll_unit_to_hl_unit(unit: u32, value: i32) -> (r: Option<CssUnit>)
    ensures
        r == spec_unit_from_ll(unit, value),
{
    if unit == 0x0 {
        Some(CssUnit::CssUnitPx(value))
    } else if unit == 0x1 {
        Some(CssUnit::CssUnitEx(value))
    } else if unit == 0x2 {
        Some(CssUnit::CssUnitEm(value))
    } else if unit == 0x3 {
        Some(CssUnit::CssUnitIn(value))
    } else if unit == 0x4 {
        Some(CssUnit::CssUnitCm(value))
    } else if unit == 0x5 {
        Some(CssUnit::CssUnitMm(value))
    } else if unit == 0x6 {
        Some(CssUnit::CssUnitPt(value))
    } else if unit == 0x7 {
        Some(CssUnit::CssUnitPc(value))
    } else if unit == 0x8 {
        Some(CssUnit::CssUnitPct(value))
    } else if unit == 0x9 {
        Some(CssUnit::CssUnitDeg(value))
    } else if unit == 0xa {
        Some(CssUnit::CssUnitGrad(value))
    } else if unit == 0xb {
        Some(CssUnit::CssUnitRad(value))
    } else if unit == 0xc {
        Some(CssUnit::CssUnitMs(value))
    } else if unit == 0xd {
        Some(CssUnit::CssUnitS(value))
    } else if unit == 0xe {
        Some(CssUnit::CssUnitHz(value))
    } else if unit == 0xf {
        Some(CssUnit::CssUnitKHz(value))
    } else {
        None
    }
}

/// Round trip, value side: decoding the wire form of any dimensioned
/// value yields the value again.
pub proof fn lemma_unit_roundtrip(u: CssUnit)
    ensures
        spec_unit_from_ll(u.spec_to_ll().0, u.spec_to_ll().1) == Some(u),
{
}

/// Round trip, wire side: any decodable (unit code, fixed-point) pair
/// re-encodes to exactly the same pair.
pub proof fn lemma_unit_from_ll_roundtrip(unit: u32, value: i32)
    ensures
        spec_unit_from_ll(unit, value) matches Some(u) ==> u.spec_to_ll() == (unit, value),
{
}

} // verus!
