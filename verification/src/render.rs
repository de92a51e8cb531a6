//! The diagnostic rendering of tagged values: a verified counterpart
//! of a debug formatter, as a method returning a `String`.
//!
//! The renderer must stay robust against corrupted input: a word
//! whose tag lies outside the enumeration renders as raw hex of its
//! payload address and of the whole word instead of being
//! interpreted, and a pointer payload that does not name an object
//! of the heap degrades to a placeholder.  Rendering carries a depth
//! budget so that a cyclic structure prints an ellipsis rather than
//! looping.  Bytes outside printable ASCII render as `?`, and a
//! boxed float renders as its raw bit pattern: this library never
//! computes with float contents.

use vstd::prelude::*;

use crate::codec::{fixnum_in_range, Lisp_Type};
use crate::heap::{HeapObject, LispHeap};
use crate::object::LispObject;

verus! {

/// Relies on `String::push` of std: appends exactly the given
/// character to the string's contents.
pub assume_specification[ String::push ](s: &mut String, ch: char)
    ensures
        final(s)@ == old(s)@.push(ch),
;

/// Depth budget of the renderer.
pub const RENDER_DEPTH: u32 = 64;

/// The lower-case hex digit of a value below sixteen.
pub open spec fn hex_digit(d: u64) -> char {
    if d < 10 {
        ((48 + d) as u8) as char
    } else {
        ((87 + d) as u8) as char
    }
}

/// Hex rendering of an unsigned word, most significant digit first,
/// without leading zeros.
pub open spec fn hex_seq(n: u64) -> Seq<char>
    decreases n,
{
    if n < 16 {
        seq![hex_digit(n)]
    } else {
        hex_seq(n / 16).push(hex_digit(n % 16))
    }
}

/// Decimal rendering of an unsigned value.
pub open spec fn dec_seq_u(n: u64) -> Seq<char>
    decreases n,
{
    if n < 10 {
        seq![hex_digit(n)]
    } else {
        dec_seq_u(n / 10).push(hex_digit(n % 10))
    }
}

/// Decimal rendering of a signed value within the fixnum range.
pub open spec fn dec_seq(n: int) -> Seq<char> {
    if n < 0 {
        seq!['-'] + dec_seq_u((-n) as u64)
    } else {
        dec_seq_u(n as u64)
    }
}

/// A byte as it renders: itself when printable ASCII, `?` otherwise.
pub open spec fn byte_char(b: u8) -> char {
    if 32 <= b < 127 {
        b as char
    } else {
        '?'
    }
}

/// Byte contents as they render.
pub open spec fn byte_render(s: Seq<u8>) -> Seq<char> {
    Seq::new(s.len(), |i: int| byte_char(s[i]))
}

/// The rendering of a tagged value at a given depth budget.
pub open spec fn render_rec(heap: &LispHeap, v: LispObject, fuel: nat) -> Seq<char>
    decreases fuel, 0int, 0int,
{
    match v.spec_get_type() {
        None => "#<INVALID-OBJECT @ 0x"@ + hex_seq(v.spec_untagged()) + ": VAL(0x"@ + hex_seq(
            v.raw(),
        ) + ")>"@,
        Some(t) => if v.spec_is_nil() {
            "nil"@
        } else {
            match t {
                Lisp_Type::Lisp_Symbol => "'"@ + (match heap.spec_lookup(v.spec_untagged()) {
                    Some(HeapObject::Symbol(s)) => byte_render(s.name@),
                    _ => "#<dangling>"@,
                }),
                Lisp_Type::Lisp_Cons => if fuel == 0 {
                    "..."@
                } else {
                    "'("@ + render_list_rec(heap, v, (fuel - 1) as nat)
                },
                Lisp_Type::Lisp_Float => match heap.spec_lookup(v.spec_untagged()) {
                    Some(HeapObject::Float(f)) => "#<FLOAT 0x"@ + hex_seq(f.bits) + ">"@,
                    _ => "#<dangling>"@,
                },
                Lisp_Type::Lisp_Vectorlike => match heap.spec_lookup(v.spec_untagged()) {
                    Some(HeapObject::Vector(vec)) => if fuel == 0 {
                        "..."@
                    } else {
                        "["@ + render_elems_rec(heap, vec.contents@, (fuel - 1) as nat) + "]"@
                    },
                    _ => "#<VECTOR-LIKE @ 0x"@ + hex_seq(v.spec_untagged()) + ": VAL(0x"@
                        + hex_seq(v.raw()) + ")>"@,
                },
                Lisp_Type::Lisp_Int0 => dec_seq(v.spec_fixnum()),
                Lisp_Type::Lisp_Int1 => dec_seq(v.spec_fixnum()),
                Lisp_Type::Lisp_Misc => "#<MISC @ 0x"@ + hex_seq(v.spec_untagged()) + ": VAL(0x"@
                    + hex_seq(v.raw()) + ")>"@,
                Lisp_Type::Lisp_String => "\""@ + (match heap.spec_lookup(v.spec_untagged()) {
                    Some(HeapObject::Str(s)) => byte_render(s.bytes@),
                    _ => "#<dangling>"@,
                }) + "\""@,
            }
        },
    }
}

/// The rendering of a list tail: elements separated by spaces, a
/// close parenthesis after a `nil` tail, a dotted tail otherwise —
/// and an ellipsis once the depth budget is spent.
pub open spec fn render_list_rec(heap: &LispHeap, v: LispObject, fuel: nat) -> Seq<char>
    decreases fuel, 1int, 0int,
{
    if v.has_type(Lisp_Type::Lisp_Cons) && (heap.spec_lookup(v.spec_untagged()) matches Some(
        HeapObject::Cons(_),
    )) {
        if fuel == 0 {
            "..."@
        } else {
            match heap.spec_lookup(v.spec_untagged()) {
                Some(HeapObject::Cons(c)) => render_rec(heap, c.car, fuel) + " "@
                    + render_list_rec(heap, c.cdr, (fuel - 1) as nat),
                _ => Seq::<char>::empty(),
            }
        }
    } else if v.spec_is_nil() {
        ")"@
    } else {
        ". "@ + render_rec(heap, v, fuel)
    }
}

/// The rendering of vector elements, each followed by a space.
pub open spec fn render_elems_rec(heap: &LispHeap, s: Seq<LispObject>, fuel: nat) -> Seq<char>
    decreases fuel, 2int, s.len(),
{
    if s.len() == 0 {
        Seq::<char>::empty()
    } else {
        render_rec(heap, s[0], fuel) + " "@ + render_elems_rec(heap, s.skip(1), fuel)
    }
}

/// Appends the hex rendering of a word.
#[verifier::loop_isolation(false)]
fn push_hex(out: &mut String, n: u64) -> (nothing: ())
    ensures
        final(out)@ == old(out)@ + hex_seq(n),
    decreases n,
{
    if n >= 16 {
        push_hex(out, n / 16);
    }
    let d: u64 = n % 16;
    let c: u8 = if d < 10 {
        48 + (d as u8)
    } else {
        87 + (d as u8)
    };
    out.push(c as char);
    proof {
        assert(out@ =~= old(out)@ + hex_seq(n));
    }
}

/// Appends the decimal rendering of an unsigned value.
fn push_dec_u(out: &mut String, n: u64) -> (nothing: ())
    ensures
        final(out)@ == old(out)@ + dec_seq_u(n),
    decreases n,
{
    if n >= 10 {
        push_dec_u(out, n / 10);
    }
    let d: u64 = n % 10;
    let c: u8 = 48 + (d as u8);
    out.push(c as char);
    proof {
        assert(out@ =~= old(out)@ + dec_seq_u(n));
    }
}

/// Appends the decimal rendering of a signed in-range value.
fn push_dec(out: &mut String, n: i64) -> (nothing: ())
    requires
        fixnum_in_range(n as int),
    ensures
        final(out)@ == old(out)@ + dec_seq(n as int),
{
    if n < 0 {
        out.push('-');
        push_dec_u(out, (-n) as u64);
        proof {
            assert(out@ =~= old(out)@ + dec_seq(n as int));
        }
    } else {
        push_dec_u(out, n as u64);
    }
}

/// Appends byte contents as they render.
#[verifier::loop_isolation(false)]
fn push_bytes(out: &mut String, bytes: &Vec<u8>) -> (nothing: ())
    ensures
        final(out)@ == old(out)@ + byte_render(bytes@),
{
    let n = bytes.len();
    let mut i: usize = 0;
    while i < n
        invariant
            i <= n,
            out@ == old(out)@ + byte_render(bytes@.take(i as int)),
        decreases n - i,
    {
        let b = bytes[i];
        if 32 <= b && b < 127 {
            out.push(b as char);
        } else {
            out.push('?');
        }
        proof {
            assert(byte_render(bytes@.take(i + 1)) =~= byte_render(bytes@.take(i as int)).push(
                byte_char(bytes@[i as int]),
            ));
            assert(out@ =~= old(out)@ + byte_render(bytes@.take(i + 1)));
        }
        i += 1;
    }
    proof {
        assert(bytes@.take(n as int) =~= bytes@);
        assert(out@ =~= old(out)@ + byte_render(bytes@));
    }
}

/// Appends the rendering of a value at a given depth budget.
fn render_into(heap: &LispHeap, v: LispObject, fuel: u32, out: &mut String) -> (nothing: ())
    ensures
        final(out)@ == old(out)@ + render_rec(heap, v, fuel as nat),
    decreases fuel, 0int, 0int,
{
    match v.get_type() {
        None => {
            out.append("#<INVALID-OBJECT @ 0x");
            push_hex(out, v.get_untaggedptr());
            out.append(": VAL(0x");
            push_hex(out, v.to_C_unsigned());
            out.append(")>");
            proof {
                assert(out@ =~= old(out)@ + render_rec(heap, v, fuel as nat));
            }
        },
        Some(t) => {
            if v.is_nil() {
                out.append("nil");
                return;
            }
            match t {
                Lisp_Type::Lisp_Symbol => {
                    out.append("'");
                    match heap.lookup(v.get_untaggedptr()) {
                        Some(HeapObject::Symbol(s)) => push_bytes(out, &s.name),
                        _ => out.append("#<dangling>"),
                    }
                    proof {
                        assert(out@ =~= old(out)@ + render_rec(heap, v, fuel as nat));
                    }
                },
                Lisp_Type::Lisp_Cons => {
                    if fuel == 0 {
                        out.append("...");
                    } else {
                        out.append("'(");
                        render_list_into(heap, v, fuel - 1, out);
                    }
                    proof {
                        assert(out@ =~= old(out)@ + render_rec(heap, v, fuel as nat));
                    }
                },
                Lisp_Type::Lisp_Float => {
                    match heap.lookup(v.get_untaggedptr()) {
                        Some(HeapObject::Float(f)) => {
                            out.append("#<FLOAT 0x");
                            push_hex(out, f.bits);
                            out.append(">");
                        },
                        _ => out.append("#<dangling>"),
                    }
                    proof {
                        assert(out@ =~= old(out)@ + render_rec(heap, v, fuel as nat));
                    }
                },
                Lisp_Type::Lisp_Vectorlike => {
                    let is_plain_vector = match heap.lookup(v.get_untaggedptr()) {
                        Some(HeapObject::Vector(_)) => true,
                        _ => false,
                    };
                    if !is_plain_vector {
                        out.append("#<VECTOR-LIKE @ 0x");
                        push_hex(out, v.get_untaggedptr());
                        out.append(": VAL(0x");
                        push_hex(out, v.to_C_unsigned());
                        out.append(")>");
                    } else if fuel == 0 {
                        out.append("...");
                    } else {
                        out.append("[");
                        match heap.lookup(v.get_untaggedptr()) {
                            Some(HeapObject::Vector(vec)) => {
                                render_elems_into(heap, &vec.contents, fuel - 1, out);
                            },
                            _ => {
                                proof {
                                    assert(false);
                                }
                            },
                        }
                        out.append("]");
                    }
                    proof {
                        assert(out@ =~= old(out)@ + render_rec(heap, v, fuel as nat));
                    }
                },
                Lisp_Type::Lisp_Int0 => {
                    let n = crate::codec::decode_fixnum(v.to_C_unsigned(), crate::codec::USE_LSB_TAG);
                    push_dec(out, n);
                    proof {
                        assert(out@ =~= old(out)@ + render_rec(heap, v, fuel as nat));
                    }
                },
                Lisp_Type::Lisp_Int1 => {
                    let n = crate::codec::decode_fixnum(v.to_C_unsigned(), crate::codec::USE_LSB_TAG);
                    push_dec(out, n);
                    proof {
                        assert(out@ =~= old(out)@ + render_rec(heap, v, fuel as nat));
                    }
                },
                Lisp_Type::Lisp_Misc => {
                    out.append("#<MISC @ 0x");
                    push_hex(out, v.get_untaggedptr());
                    out.append(": VAL(0x");
                    push_hex(out, v.to_C_unsigned());
                    out.append(")>");
                    proof {
                        assert(out@ =~= old(out)@ + render_rec(heap, v, fuel as nat));
                    }
                },
                Lisp_Type::Lisp_String => {
                    out.append("\"");
                    match heap.lookup(v.get_untaggedptr()) {
                        Some(HeapObject::Str(s)) => push_bytes(out, &s.bytes),
                        _ => out.append("#<dangling>"),
                    }
                    out.append("\"");
                    proof {
                        assert(out@ =~= old(out)@ + render_rec(heap, v, fuel as nat));
                    }
                },
            }
        },
    }
}

/// Appends the rendering of a list tail.
fn render_list_into(heap: &LispHeap, v: LispObject, fuel: u32, out: &mut String) -> (nothing: ())
    ensures
        final(out)@ == old(out)@ + render_list_rec(heap, v, fuel as nat),
    decreases fuel, 1int, 0int,
{
    let parts: Option<(LispObject, LispObject)> = if v.is_cons() {
        match heap.lookup(v.get_untaggedptr()) {
            Some(HeapObject::Cons(c)) => Some((c.car, c.cdr)),
            _ => None,
        }
    } else {
        None
    };
    match parts {
        Some((car, cdr)) => {
            if fuel == 0 {
                out.append("...");
            } else {
                render_into(heap, car, fuel, out);
                out.append(" ");
                render_list_into(heap, cdr, fuel - 1, out);
            }
            proof {
                assert(out@ =~= old(out)@ + render_list_rec(heap, v, fuel as nat));
            }
        },
        None => {
            if v.is_nil() {
                out.append(")");
            } else {
                out.append(". ");
                render_into(heap, v, fuel, out);
            }
            proof {
                assert(out@ =~= old(out)@ + render_list_rec(heap, v, fuel as nat));
            }
        },
    }
}

/// Appends the rendering of vector elements.
#[verifier::loop_isolation(false)]
fn render_elems_into(heap: &LispHeap, elems: &Vec<LispObject>, fuel: u32, out: &mut String) -> (nothing: ())
    ensures
        final(out)@ == old(out)@ + render_elems_rec(heap, elems@, fuel as nat),
    decreases fuel, 2int, 0int,
{
    let n = elems.len();
    let mut i: usize = 0;
    proof {
        assert(elems@.skip(0) =~= elems@);
    }
    while i < n
        invariant
            i <= n,
            out@ + render_elems_rec(heap, elems@.skip(i as int), fuel as nat) == old(out)@
                + render_elems_rec(heap, elems@, fuel as nat),
        decreases n - i,
    {
        proof {
            assert(elems@.skip(i as int)[0] == elems@[i as int]);
            assert(elems@.skip(i as int).skip(1) =~= elems@.skip(i + 1));
        }
        render_into(heap, elems[i], fuel, out);
        out.append(" ");
        i += 1;
    }
    proof {
        assert(render_elems_rec(heap, elems@.skip(n as int), fuel as nat) =~= Seq::<
            char,
        >::empty());
        assert(out@ =~= old(out)@ + render_elems_rec(heap, elems@, fuel as nat));
    }
}

impl LispObject {
    /// Renders the value for diagnostics.  A word with an invalid
    /// tag, or a vector-like payload this library cannot interpret,
    /// renders as raw hex rather than failing; cyclic structures
    /// print an ellipsis at the depth budget.
    pub fn debug_format(self, heap: &LispHeap) -> (r: String)
        ensures
            r@ == render_rec(heap, self, RENDER_DEPTH as nat),
    {
        let mut out = String::new();
        render_into(heap, self, RENDER_DEPTH, &mut out);
        proof {
            assert(out@ =~= render_rec(heap, self, RENDER_DEPTH as nat));
        }
        out
    }
}

} // verus!
