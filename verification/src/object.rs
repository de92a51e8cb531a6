//! The tagged value word itself: a fixed-width signed integer whose
//! tag bits name the variant and whose remaining bits hold either an
//! inline integer or the address of an externally-owned object.
//!
//! This module holds the word-level operations: raw conversions from
//! and to the native integer types, tag extraction, pointer tagging
//! and untagging, the inline integer (fixnum / natnum) conversions
//! with their range checks, the well-known symbol words, and the
//! nil-directed combinators `map_or` and `map_or_else`.

use vstd::prelude::*;

use crate::codec::{
    decode_tag, encode_fixnum, encode_ptr, decode_fixnum, fixnum_in_range, is_fixnum_tag,
    spec_decode_fixnum, spec_decode_tag, spec_encode_ptr, spec_strip_tag, spec_valid_payload,
    strip_tag, Lisp_Type, MOST_POSITIVE_FIXNUM, USE_LSB_TAG,
};
use crate::ptr::ExternalPtr;

verus! {

/// The native signed integer wide enough to hold a tagged word.
#[allow(non_camel_case_types)]
pub type EmacsInt = i64;

/// The unsigned equivalent of `EmacsInt`.
#[allow(non_camel_case_types)]
pub type EmacsUint = u64;

/// Word of the symbol `nil`: the false value and the empty list.
pub const QNIL: i64 = 8;

/// Word of the symbol `t`: the canonical true value.
pub const QT: i64 = 16;

/// Word of the symbol `autoload`.
pub const QAUTOLOAD: i64 = 24;

/// Word of the symbol `subrp`, the expected-type descriptor of the
/// subroutine down-cast.
pub const QSUBRP: i64 = 32;

/// Word of the symbol `integer-or-marker-p`, the expected-type
/// descriptor of the signed integer conversion.
pub const QINTEGER_OR_MARKER_P: i64 = 40;

/// Word of the symbol `wholenump`, the expected-type descriptor of
/// the natural number conversion.
pub const QWHOLENUMP: i64 = 48;

/// Word of the symbol `lambda`.
pub const QLAMBDA: i64 = 56;

/// Word of the symbol `closure`.
pub const QCLOSURE: i64 = 64;

/// A tagged value: one fixed-width word holding a type tag and a
/// payload.  The word never owns its pointee; values with pointer
/// payloads borrow memory whose lifetime the allocator guarantees.
#[derive(Clone, Copy, PartialEq, Eq, Structural, Debug)]
pub struct LispObject(pub EmacsInt);

/// The wrong-type condition: a required-variant conversion met a
/// value of a different tag.  Carries the expected type's symbol word
/// and the offending value; it is always surfaced to the caller,
/// never silently recovered.
#[derive(Clone, Copy, PartialEq, Eq, Structural, Debug)]
pub struct WrongTypeError {
    /// Symbol word describing the expected type.
    pub expected: LispObject,
    /// The value whose tag did not match.
    pub value: LispObject,
}

impl LispObject {
    /// The word reinterpreted as its unsigned bit pattern.
    pub open spec fn raw(self) -> u64 {
        self.0 as u64
    }

    /// The tag the word decodes to under the build-time encoding
    /// mode; `None` is the invalid-tag sentinel.
    pub open spec fn spec_get_type(self) -> Option<Lisp_Type> {
        spec_decode_tag(self.raw(), USE_LSB_TAG)
    }

    /// Whether the word carries the given tag.
    pub open spec fn has_type(self, t: Lisp_Type) -> bool {
        self.spec_get_type() == Some(t)
    }

    /// The untagged address payload of the word.
    pub open spec fn spec_untagged(self) -> u64 {
        spec_strip_tag(self.raw(), USE_LSB_TAG)
    }

    /// Whether the word is the symbol `nil`.
    pub open spec fn spec_is_nil(self) -> bool {
        self.0 == QNIL
    }

    /// Whether the word carries an inline integer tag.
    pub open spec fn spec_is_fixnum(self) -> bool {
        match self.spec_get_type() {
            Some(t) => is_fixnum_tag(t),
            None => false,
        }
    }

    /// The inline integer the word denotes, meaningful on fixnum
    /// words.
    pub open spec fn spec_fixnum(self) -> int {
        spec_decode_fixnum(self.raw(), USE_LSB_TAG)
    }

    /// Whether the word denotes a natural number: a nonnegative
    /// inline integer.
    pub open spec fn spec_is_natnum(self) -> bool {
        self.spec_is_fixnum() && self.spec_fixnum() >= 0
    }

    /// Wraps a native signed word as a tagged value, bit for bit.
    #[allow(non_snake_case)]
    pub fn from_C(n: EmacsInt) -> (r: Self)
        ensures
            r.0 == n,
    {
        LispObject(n)
    }

    /// Wraps a native unsigned word as a tagged value, bit for bit.
    #[allow(non_snake_case)]
    pub fn from_C_unsigned(n: EmacsUint) -> (r: Self)
        ensures
            r.raw() == n,
    {
        proof {
            assert((n as i64) as u64 == n) by (bit_vector);
        }
        Self::from_C(n as EmacsInt)
    }

    /// The word as a native signed integer, bit for bit.
    #[allow(non_snake_case)]
    pub fn to_C(self) -> (r: EmacsInt)
        ensures
            r == self.0,
    {
        self.0
    }

    /// The word as a native unsigned integer, bit for bit.
    #[allow(non_snake_case)]
    pub fn to_C_unsigned(self) -> (r: EmacsUint)
        ensures
            r == self.raw(),
    {
        self.0 as EmacsUint
    }

    /// The true object for true, `nil` for false.
    pub fn from_bool(v: bool) -> (r: Self)
        ensures
            r.0 == if v { QT } else { QNIL },
    {
        if v {
            LispObject(QT)
        } else {
            LispObject(QNIL)
        }
    }

    /// Decodes the word's tag; `None` marks a discriminant outside
    /// the defined enumeration and is never treated as fatal.
    pub fn get_type(self) -> (r: Option<Lisp_Type>)
        ensures
            r == self.spec_get_type(),
    {
        decode_tag(self.to_C_unsigned(), USE_LSB_TAG)
    }

    /// Packs an external handle's address and a tag into a word.
    pub fn tag_ptr<T>(external: ExternalPtr<T>, ty: Lisp_Type) -> (r: LispObject)
        requires
            spec_valid_payload(external.addr),
        ensures
            r.raw() == spec_encode_ptr(external.addr, ty, USE_LSB_TAG),
            r.has_type(ty),
            r.spec_untagged() == external.addr,
    {
        let raw = encode_ptr(external.as_ptr(), ty, USE_LSB_TAG);
        Self::from_C_unsigned(raw)
    }

    /// Recovers the untagged address payload of the word.
    pub fn get_untaggedptr(self) -> (r: u64)
        ensures
            r == self.spec_untagged(),
    {
        strip_tag(self.to_C_unsigned(), USE_LSB_TAG)
    }

    /// Whether the value is the symbol `nil`.
    pub fn is_nil(self) -> (r: bool)
        ensures
            r == self.spec_is_nil(),
    {
        self.0 == QNIL
    }

    /// Whether the value is anything but the symbol `nil`.
    pub fn is_not_nil(self) -> (r: bool)
        ensures
            r == !self.spec_is_nil(),
    {
        self.0 != QNIL
    }

    /// Whether the value is the symbol `t`.
    pub fn is_t(self) -> (r: bool)
        ensures
            r == (self.0 == QT),
    {
        self.0 == QT
    }

    /// Whether the value carries an inline integer.
    pub fn is_fixnum(self) -> (r: bool)
        ensures
            r == self.spec_is_fixnum(),
    {
        match self.get_type() {
            Some(Lisp_Type::Lisp_Int0) => true,
            Some(Lisp_Type::Lisp_Int1) => true,
            _ => false,
        }
    }

    /// Encodes an in-range native integer as an inline fixnum value;
    /// decoding it through the same signed view is lossless.
    pub fn from_fixnum(n: EmacsInt) -> (r: Self)
        requires
            fixnum_in_range(n as int),
        ensures
            r.spec_is_fixnum(),
            r.spec_fixnum() == n as int,
    {
        Self::from_C_unsigned(encode_fixnum(n, USE_LSB_TAG))
    }

    /// Encodes an in-range native unsigned integer as an inline
    /// fixnum value; decoding it through the same unsigned view is
    /// lossless.
    pub fn from_natnum(n: EmacsUint) -> (r: Self)
        requires
            n <= MOST_POSITIVE_FIXNUM as u64,
        ensures
            r.spec_is_natnum(),
            r.spec_fixnum() == n as int,
    {
        Self::from_fixnum(n as i64)
    }

    /// The inline integer of the value, absent when the value does
    /// not carry an integer tag.
    pub fn as_fixnum(self) -> (r: Option<EmacsInt>)
        ensures
            r matches Some(v) ==> self.spec_is_fixnum() && v as int == self.spec_fixnum(),
            r is None <==> !self.spec_is_fixnum(),
    {
        if self.is_fixnum() {
            Some(decode_fixnum(self.to_C_unsigned(), USE_LSB_TAG))
        } else {
            None
        }
    }

    /// The inline integer of the value, or the wrong-type condition
    /// with the `integer-or-marker-p` descriptor when the value does
    /// not carry an integer tag.
    pub fn as_fixnum_or_error(self) -> (r: Result<EmacsInt, WrongTypeError>)
        ensures
            r matches Ok(v) ==> self.spec_is_fixnum() && v as int == self.spec_fixnum(),
            r matches Err(e) <==> !self.spec_is_fixnum() && r == Err::<EmacsInt, WrongTypeError>(
                (WrongTypeError { expected: LispObject(QINTEGER_OR_MARKER_P), value: self }),
            ),
    {
        match self.as_fixnum() {
            Some(v) => Ok(v),
            None => Err(WrongTypeError { expected: LispObject(QINTEGER_OR_MARKER_P), value: self }),
        }
    }

    /// The natural number the value denotes, absent when the value is
    /// not a nonnegative inline integer.
    pub fn as_natnum(self) -> (r: Option<EmacsUint>)
        ensures
            r matches Some(v) ==> self.spec_is_natnum() && v as int == self.spec_fixnum(),
            r is None <==> !self.spec_is_natnum(),
    {
        match self.as_fixnum() {
            Some(v) => if v >= 0 {
                Some(v as u64)
            } else {
                None
            },
            None => None,
        }
    }

    /// The natural number the value denotes, or the wrong-type
    /// condition with the `wholenump` descriptor: negative integers
    /// fail this conversion just as non-integers do.
    pub fn as_natnum_or_error(self) -> (r: Result<EmacsUint, WrongTypeError>)
        ensures
            r matches Ok(v) ==> self.spec_is_natnum() && v as int == self.spec_fixnum(),
            r matches Err(e) <==> !self.spec_is_natnum() && r == Err::<EmacsUint, WrongTypeError>(
                (WrongTypeError { expected: LispObject(QWHOLENUMP), value: self }),
            ),
    {
        match self.as_natnum() {
            Some(v) => Ok(v),
            None => Err(WrongTypeError { expected: LispObject(QWHOLENUMP), value: self }),
        }
    }

    /// Every well-known symbol word carries the symbol tag, so the
    /// dispatch layer sees `nil`, `t` and the expected-type
    /// descriptors as symbols.
    pub proof fn lemma_wellknown_words_are_symbols()
        ensures
            LispObject(QNIL).has_type(Lisp_Type::Lisp_Symbol),
            LispObject(QT).has_type(Lisp_Type::Lisp_Symbol),
            LispObject(QAUTOLOAD).has_type(Lisp_Type::Lisp_Symbol),
            LispObject(QSUBRP).has_type(Lisp_Type::Lisp_Symbol),
            LispObject(QINTEGER_OR_MARKER_P).has_type(Lisp_Type::Lisp_Symbol),
            LispObject(QWHOLENUMP).has_type(Lisp_Type::Lisp_Symbol),
            LispObject(QLAMBDA).has_type(Lisp_Type::Lisp_Symbol),
            LispObject(QCLOSURE).has_type(Lisp_Type::Lisp_Symbol),
    {
        assert((8i64 as u64) & 7 == 0 && (16i64 as u64) & 7 == 0 && (24i64 as u64) & 7 == 0 && (
        32i64 as u64) & 7 == 0 && (40i64 as u64) & 7 == 0 && (48i64 as u64) & 7 == 0 && (
        56i64 as u64) & 7 == 0 && (64i64 as u64) & 7 == 0) by (bit_vector);
    }

    /// Raw word identity: the strictest of the three equality
    /// relations, total and constant-time.
    pub fn eq(self, other: LispObject) -> (r: bool)
        ensures
            r == (self == other),
    {
        self.0 == other.0
    }

    /// The default for `nil`, else the action applied to the value:
    /// the designed absent-value no-op path, not error recovery.
    pub fn map_or<T, F: FnOnce(LispObject) -> T>(self, default: T, action: F) -> (r: T)
        requires
            !self.spec_is_nil() ==> action.requires((self,)),
        ensures
            self.spec_is_nil() ==> r == default,
            !self.spec_is_nil() ==> action.ensures((self,), r),
    {
        if self.is_nil() {
            default
        } else {
            action(self)
        }
    }

    /// The default closure's result for `nil`, else the action
    /// applied to the value.
    pub fn map_or_else<T, F: FnOnce() -> T, F1: FnOnce(LispObject) -> T>(
        self,
        default: F,
        action: F1,
    ) -> (r: T)
        requires
            self.spec_is_nil() ==> default.requires(()),
            !self.spec_is_nil() ==> action.requires((self,)),
        ensures
            self.spec_is_nil() ==> default.ensures((), r),
            !self.spec_is_nil() ==> action.ensures((self,), r),
    {
        if self.is_nil() {
            default()
        } else {
            action(self)
        }
    }
}

} // verus!
