//! The value tag codec: packing a small type tag and a payload (an
//! address or an inline scalar) into one fixed-width word.
//!
//! Two encoding modes exist, chosen once at build time: low-bits mode
//! keeps the tag in the low `GCTYPEBITS` bits of the word, high-bits
//! mode keeps it in the bits above `VALBITS`.  Callers may only rely on
//! the three operations `decode_tag`, `encode_ptr` and `strip_tag`,
//! never on a particular bit layout.
//!
//! The codec works on raw unsigned words; the signed view lives in
//! `LispObject` (see the `object` module).

use vstd::prelude::*;

verus! {

/// Number of bits reserved for the type tag.
pub const GCTYPEBITS: u64 = 3;

/// Number of bits of a word that carry the payload in high-bits mode.
pub const VALBITS: u64 = 61;

/// Build-time encoding mode of the word layout used by `LispObject`:
/// true selects low-bits mode.
pub const USE_LSB_TAG: bool = true;

/// Mask selecting the tag bits of a word in low-bits mode.
pub const TAG_MASK_LSB: u64 = 0x7;

/// Mask selecting the payload bits of a word in low-bits mode.
pub const VAL_MASK_LSB: u64 = 0xffff_ffff_ffff_fff8;

/// Mask selecting the payload bits of a word in high-bits mode.
pub const VAL_MASK_MSB: u64 = 0x1fff_ffff_ffff_ffff;

/// Exclusive upper bound of a pointer payload: `1 << VALBITS`.
pub const PAYLOAD_LIMIT: u64 = 0x2000_0000_0000_0000;

/// The type tag held by a word.  The two integer tags `Lisp_Int0` and
/// `Lisp_Int1` together encode the inline fixnum variant; every other
/// tag marks the payload as the address of an externally-owned object.
#[allow(non_camel_case_types)]
#[derive(Clone, Copy, PartialEq, Eq, Structural, Debug)]
pub enum Lisp_Type {
    Lisp_Symbol,
    Lisp_Misc,
    Lisp_Int0,
    Lisp_Cons,
    Lisp_String,
    Lisp_Vectorlike,
    Lisp_Int1,
    Lisp_Float,
}

/// The numeric discriminant of a tag as it appears inside a word.
pub open spec fn tag_code(t: Lisp_Type) -> u64 {
    match t {
        Lisp_Type::Lisp_Symbol => 0,
        Lisp_Type::Lisp_Misc => 1,
        Lisp_Type::Lisp_Int0 => 2,
        Lisp_Type::Lisp_Cons => 3,
        Lisp_Type::Lisp_String => 4,
        Lisp_Type::Lisp_Vectorlike => 5,
        Lisp_Type::Lisp_Int1 => 6,
        Lisp_Type::Lisp_Float => 7,
    }
}

/// The tag named by a numeric discriminant; `None` for a discriminant
/// outside the defined enumeration, the recognizable "invalid" answer
/// that a corrupted or foreign word decodes to.
pub open spec fn spec_tag_from_code(code: u64) -> Option<Lisp_Type> {
    if code == 0 {
        Some(Lisp_Type::Lisp_Symbol)
    } else if code == 1 {
        Some(Lisp_Type::Lisp_Misc)
    } else if code == 2 {
        Some(Lisp_Type::Lisp_Int0)
    } else if code == 3 {
        Some(Lisp_Type::Lisp_Cons)
    } else if code == 4 {
        Some(Lisp_Type::Lisp_String)
    } else if code == 5 {
        Some(Lisp_Type::Lisp_Vectorlike)
    } else if code == 6 {
        Some(Lisp_Type::Lisp_Int1)
    } else if code == 7 {
        Some(Lisp_Type::Lisp_Float)
    } else {
        None
    }
}

/// The raw tag discriminant a word carries under the given mode.
pub open spec fn spec_decode_code(raw: u64, lsb: bool) -> u64 {
    if lsb {
        raw & TAG_MASK_LSB
    } else {
        raw >> VALBITS
    }
}

/// The tag a word decodes to under the given mode.
pub open spec fn spec_decode_tag(raw: u64, lsb: bool) -> Option<Lisp_Type> {
    spec_tag_from_code(spec_decode_code(raw, lsb))
}

/// The untagged payload of a word under the given mode.
pub open spec fn spec_strip_tag(raw: u64, lsb: bool) -> u64 {
    if lsb {
        raw & VAL_MASK_LSB
    } else {
        raw & VAL_MASK_MSB
    }
}

/// Whether an address may stand as a pointer payload: within the
/// payload width, and aligned so that low-bits tagging leaves it
/// intact.
pub open spec fn spec_valid_payload(p: u64) -> bool {
    p % 8 == 0 && p < PAYLOAD_LIMIT
}

/// The word that packs a pointer payload with a tag under the given
/// mode.
pub open spec fn spec_encode_ptr(p: u64, t: Lisp_Type, lsb: bool) -> u64 {
    if lsb {
        ((p + tag_code(t)) as u64)
    } else {
        (((tag_code(t) << VALBITS) + p) as u64)
    }
}

/// Maps a numeric tag discriminant to the tag it names, or `None` for
/// a discriminant outside the defined enumeration.  Decoding never
/// fails loudly on a corrupted word: the absent answer is the sentinel
/// that inspection code renders as raw hex.
pub fn tag_from_code(code: u64) -> (r: Option<Lisp_Type>)
    ensures
        r == spec_tag_from_code(code),
{
    match code {
        0u64 => Some(Lisp_Type::Lisp_Symbol),
        1u64 => Some(Lisp_Type::Lisp_Misc),
        2u64 => Some(Lisp_Type::Lisp_Int0),
        3u64 => Some(Lisp_Type::Lisp_Cons),
        4u64 => Some(Lisp_Type::Lisp_String),
        5u64 => Some(Lisp_Type::Lisp_Vectorlike),
        6u64 => Some(Lisp_Type::Lisp_Int1),
        7u64 => Some(Lisp_Type::Lisp_Float),
        _ => None,
    }
}

/// Extracts the tag discriminant of a raw word under the given mode.
pub fn decode_code(raw: u64, lsb: bool) -> (r: u64)
    ensures
        r == spec_decode_code(raw, lsb),
{
    if lsb {
        raw & TAG_MASK_LSB
    } else {
        raw >> VALBITS
    }
}

/// Decodes the tag of a raw word under the given mode; `None` marks a
/// discriminant outside the defined enumeration.
pub fn decode_tag(raw: u64, lsb: bool) -> (r: Option<Lisp_Type>)
    ensures
        r == spec_decode_tag(raw, lsb),
{
    tag_from_code(decode_code(raw, lsb))
}

/// Recovers the untagged payload of a raw word under the given mode.
pub fn strip_tag(raw: u64, lsb: bool) -> (r: u64)
    ensures
        r == spec_strip_tag(raw, lsb),
{
    if lsb {
        raw & VAL_MASK_LSB
    } else {
        raw & VAL_MASK_MSB
    }
}

/// Packs a pointer payload and a tag into a raw word under the given
/// mode.
pub fn encode_ptr(p: u64, t: Lisp_Type, lsb: bool) -> (r: u64)
    requires
        spec_valid_payload(p),
    ensures
        r == spec_encode_ptr(p, t, lsb),
        spec_decode_tag(r, lsb) == Some(t),
        spec_strip_tag(r, lsb) == p,
{
    let c: u64 = match t {
        Lisp_Type::Lisp_Symbol => 0,
        Lisp_Type::Lisp_Misc => 1,
        Lisp_Type::Lisp_Int0 => 2,
        Lisp_Type::Lisp_Cons => 3,
        Lisp_Type::Lisp_String => 4,
        Lisp_Type::Lisp_Vectorlike => 5,
        Lisp_Type::Lisp_Int1 => 6,
        Lisp_Type::Lisp_Float => 7,
    };
    proof {
        lemma_tag_round_trip(p, t, lsb);
    }
    if lsb {
        p + c
    } else {
        proof {
            assert(c < 8 ==> (c << 61) <= 0xe000_0000_0000_0000) by (bit_vector);
        }
        (c << VALBITS) + p
    }
}

/// Round trip of the codec: for every tag and every valid payload, the
/// encoded word decodes to that tag and strips back to that payload,
/// under either encoding mode.
pub proof fn lemma_tag_round_trip(p: u64, t: Lisp_Type, lsb: bool)
    requires
        spec_valid_payload(p),
    ensures
        spec_decode_tag(spec_encode_ptr(p, t, lsb), lsb) == Some(t),
        spec_strip_tag(spec_encode_ptr(p, t, lsb), lsb) == p,
{
    let c = tag_code(t);
    assert(c < 8);
    if lsb {
        let w = (p + c) as u64;
        assert(w & TAG_MASK_LSB == c && w & VAL_MASK_LSB == p) by (bit_vector)
            requires
                p % 8 == 0 && p < 0x2000_0000_0000_0000 && c < 8 && w == (p + c) as u64,
        ;
    } else {
        let w = ((c << VALBITS) + p) as u64;
        assert(w >> VALBITS == c && w & VAL_MASK_MSB == p) by (bit_vector)
            requires
                p < 0x2000_0000_0000_0000 && c < 8 && w == ((c << 61) + p) as u64,
        ;
    }
}

/// Largest integer that the inline fixnum encoding holds: `2^61 - 1`.
pub const MOST_POSITIVE_FIXNUM: i64 = 0x1fff_ffff_ffff_ffff;

/// Smallest integer that the inline fixnum encoding holds: `-2^61`.
pub const MOST_NEGATIVE_FIXNUM: i64 = -0x2000_0000_0000_0000;

/// Whether an integer fits the inline fixnum encoding.
pub open spec fn fixnum_in_range(n: int) -> bool {
    MOST_NEGATIVE_FIXNUM <= n <= MOST_POSITIVE_FIXNUM
}

/// The word that encodes an inline integer under the given mode.  In
/// low-bits mode the value sits above the two low tag bits, and the
/// third bit carries the value's lowest bit, which is why two integer
/// tags exist; in high-bits mode nonnegative values take the
/// `Lisp_Int0` tag and negative values the `Lisp_Int1` tag with the
/// payload biased by `2^61`.
pub open spec fn spec_encode_fixnum(n: i64, lsb: bool) -> u64 {
    if lsb {
        ((n * 4 + 2) as u64)
    } else {
        if n >= 0 {
            (2u64 << VALBITS) | (n as u64)
        } else {
            (6u64 << VALBITS) | (((n + 0x2000_0000_0000_0000) as i64) as u64)
        }
    }
}

/// The inline integer a fixnum word carries under the given mode.
pub open spec fn spec_decode_fixnum(raw: u64, lsb: bool) -> int {
    if lsb {
        let q = raw >> 2;
        if q < 0x2000_0000_0000_0000 {
            q as int
        } else {
            q - 0x4000_0000_0000_0000
        }
    } else {
        let pay = raw & VAL_MASK_MSB;
        if raw >> VALBITS == 6 {
            pay - 0x2000_0000_0000_0000
        } else {
            pay as int
        }
    }
}

/// Whether a tag marks the inline integer variant.
pub open spec fn is_fixnum_tag(t: Lisp_Type) -> bool {
    t == Lisp_Type::Lisp_Int0 || t == Lisp_Type::Lisp_Int1
}

/// Round trip of the fixnum encoding: every in-range integer encodes
/// to a word carrying one of the two integer tags and decodes back to
/// itself, under either encoding mode.
pub proof fn lemma_fixnum_round_trip(n: i64, lsb: bool)
    requires
        fixnum_in_range(n as int),
    ensures
        spec_decode_fixnum(spec_encode_fixnum(n, lsb), lsb) == n as int,
        spec_decode_tag(spec_encode_fixnum(n, lsb), lsb) matches Some(t) && is_fixnum_tag(t),
{
    if lsb {
        let w = (n * 4 + 2) as u64;
        assert((w & 7 == 2 || w & 7 == 6) && (n >= 0 ==> w >> 2 < 0x2000_0000_0000_0000 && w >> 2
            == n) && (n < 0 ==> w >> 2 >= 0x2000_0000_0000_0000 && (w >> 2) - 0x4000_0000_0000_0000
            == n)) by (bit_vector)
            requires
                w == (n * 4 + 2) as u64 && -0x2000_0000_0000_0000 <= n <= 0x1fff_ffff_ffff_ffff,
        ;
    } else {
        if n >= 0 {
            let nu = n as u64;
            let w = (2u64 << VALBITS) | nu;
            assert(w >> 61 == 2 && (w & 0x1fff_ffff_ffff_ffff) == nu) by (bit_vector)
                requires
                    w == (2u64 << 61) | nu && nu <= 0x1fff_ffff_ffff_ffff,
            ;
        } else {
            let pu = ((n + 0x2000_0000_0000_0000) as i64) as u64;
            let w = (6u64 << VALBITS) | pu;
            assert(pu < 0x2000_0000_0000_0000) by (bit_vector)
                requires
                    pu == ((n + 0x2000_0000_0000_0000) as i64) as u64
                        && -0x2000_0000_0000_0000 <= n < 0,
            ;
            assert(w >> 61 == 6 && (w & 0x1fff_ffff_ffff_ffff) == pu) by (bit_vector)
                requires
                    w == (6u64 << 61) | pu && pu < 0x2000_0000_0000_0000,
            ;
        }
    }
}

/// Encodes an in-range integer as an inline fixnum word under the
/// given mode.
pub fn encode_fixnum(n: i64, lsb: bool) -> (r: u64)
    requires
        fixnum_in_range(n as int),
    ensures
        r == spec_encode_fixnum(n, lsb),
        spec_decode_fixnum(r, lsb) == n as int,
        spec_decode_tag(r, lsb) matches Some(t) && is_fixnum_tag(t),
{
    proof {
        lemma_fixnum_round_trip(n, lsb);
    }
    if lsb {
        let w: i64 = n * 4 + 2;
        proof {
            assert((n * 4 + 2) as i64 as u64 == (n * 4 + 2) as u64) by (bit_vector)
                requires
                    -0x2000_0000_0000_0000 <= n <= 0x1fff_ffff_ffff_ffff,
            ;
        }
        w as u64
    } else {
        if n >= 0 {
            (2u64 << VALBITS) | (n as u64)
        } else {
            let p: i64 = n + 0x2000_0000_0000_0000;
            (6u64 << VALBITS) | (p as u64)
        }
    }
}

/// Decodes the inline integer of a fixnum word under the given mode.
/// Total over all words; only words carrying an integer tag denote a
/// fixnum, which the dispatch layer checks before calling this.
pub fn decode_fixnum(raw: u64, lsb: bool) -> (r: i64)
    ensures
        r as int == spec_decode_fixnum(raw, lsb),
        fixnum_in_range(r as int),
{
    if lsb {
        let q: u64 = raw >> 2;
        proof {
            assert(raw >> 2 < 0x4000_0000_0000_0000) by (bit_vector);
        }
        if q < 0x2000_0000_0000_0000 {
            q as i64
        } else {
            (q as i64) - 0x4000_0000_0000_0000
        }
    } else {
        let pay: u64 = raw & VAL_MASK_MSB;
        proof {
            assert(raw & 0x1fff_ffff_ffff_ffff < 0x2000_0000_0000_0000) by (bit_vector);
        }
        if (raw >> VALBITS) == 6 {
            (pay as i64) - 0x2000_0000_0000_0000
        } else {
            pay as i64
        }
    }
}

/// The tag discriminant the codec itself extracts always lies below
/// the number of defined tags, in either mode, so only a discriminant
/// handed in from outside the codec can reach the invalid sentinel.
pub proof fn lemma_decode_code_in_range(raw: u64, lsb: bool)
    ensures
        spec_decode_code(raw, lsb) < 8,
        spec_decode_tag(raw, lsb).is_some(),
{
    if lsb {
        assert(raw & TAG_MASK_LSB < 8) by (bit_vector);
    } else {
        assert(raw >> VALBITS < 8) by (bit_vector);
    }
}

} // verus!

