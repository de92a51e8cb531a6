//! Tests of the tag codec: round trips of pointers and fixnums under
//! both encoding modes, and the invalid-tag sentinel.

use remacs_lisp::codec::{
    decode_fixnum, decode_tag, encode_fixnum, encode_ptr, strip_tag, tag_from_code, Lisp_Type,
    MOST_NEGATIVE_FIXNUM, MOST_POSITIVE_FIXNUM,
};
use remacs_lisp::heap::Lisp_Misc_Any;
use remacs_lisp::object::LispObject;

const ALL_TAGS: [Lisp_Type; 8] = [
    Lisp_Type::Lisp_Symbol,
    Lisp_Type::Lisp_Misc,
    Lisp_Type::Lisp_Int0,
    Lisp_Type::Lisp_Cons,
    Lisp_Type::Lisp_String,
    Lisp_Type::Lisp_Vectorlike,
    Lisp_Type::Lisp_Int1,
    Lisp_Type::Lisp_Float,
];

#[test]
fn test_lisp_misc_any_size() {
    // Should be 32 bits, which is 4 bytes.
    assert!(std::mem::size_of::<Lisp_Misc_Any>() == 4);
}

#[test]
fn test_round_trip_all_tags_both_modes() {
    let payloads: [u64; 4] = [0, 0x1000, 0x7fff_fff8, 0x1fff_ffff_ffff_fff8];
    for lsb in [true, false] {
        for tag in ALL_TAGS {
            for p in payloads {
                let w = encode_ptr(p, tag, lsb);
                assert_eq!(decode_tag(w, lsb), Some(tag));
                assert_eq!(strip_tag(w, lsb), p);
            }
        }
    }
}

#[test]
fn test_low_bits_scenario() {
    // A pointer 0x1000 tagged Cons in low-bits mode with a 3-bit tag.
    let w = encode_ptr(0x1000, Lisp_Type::Lisp_Cons, true);
    assert_eq!(decode_tag(w, true), Some(Lisp_Type::Lisp_Cons));
    assert_eq!(strip_tag(w, true), 0x1000);
    // The low bits hold the tag: masking with !0x7 recovers the payload.
    assert_eq!(w & 0xffff_ffff_ffff_fff8, 0x1000);
}

#[test]
fn test_invalid_tag_sentinel() {
    assert_eq!(tag_from_code(8), None);
    assert_eq!(tag_from_code(9), None);
    assert_eq!(tag_from_code(0xffff), None);
    assert_eq!(tag_from_code(7), Some(Lisp_Type::Lisp_Float));
    assert_eq!(tag_from_code(0), Some(Lisp_Type::Lisp_Symbol));
}

#[test]
fn test_fixnum_round_trip_both_modes() {
    let values: [i64; 7] = [
        0,
        1,
        -1,
        2305843009213693950,
        MOST_POSITIVE_FIXNUM,
        MOST_NEGATIVE_FIXNUM,
        -123456789,
    ];
    for lsb in [true, false] {
        for n in values {
            let w = encode_fixnum(n, lsb);
            assert_eq!(decode_fixnum(w, lsb), n);
            let t = decode_tag(w, lsb).unwrap();
            assert!(t == Lisp_Type::Lisp_Int0 || t == Lisp_Type::Lisp_Int1);
        }
    }
}

#[test]
fn test_fixnum_object_round_trip() {
    for n in [0i64, 5, -5, MOST_POSITIVE_FIXNUM, MOST_NEGATIVE_FIXNUM] {
        let v = LispObject::from_fixnum(n);
        assert!(v.is_fixnum());
        assert_eq!(v.as_fixnum(), Some(n));
        assert_eq!(v.as_fixnum_or_error().unwrap(), n);
    }
}

#[test]
fn test_natnum_round_trip() {
    for n in [0u64, 7, MOST_POSITIVE_FIXNUM as u64] {
        let v = LispObject::from_natnum(n);
        assert_eq!(v.as_natnum(), Some(n));
    }
    let neg = LispObject::from_fixnum(-1);
    assert_eq!(neg.as_natnum(), None);
}
