//! The type mapper: Rust type syntax to C type syntax.

use vstd::prelude::*;
use crate::text::{
    is_white_space, lemma_trimmed_len, same_text, skip, starts_with, trim, trimmed,
};

verus! {

/// The C name of a primitive type; any other name is its own C name.
pub open spec fn primitive(s: Seq<char>) -> Seq<char> {
    if s == "()"@ {
        "void"@
    } else if s == "f32"@ {
        "float"@
    } else if s == "f64"@ {
        "double"@
    } else if s == "i8"@ {
        "int8_t"@
    } else if s == "i16"@ {
        "int16_t"@
    } else if s == "i32"@ {
        "int32_t"@
    } else if s == "i64"@ {
        "int64_t"@
    } else if s == "isize"@ {
        "intptr_t"@
    } else if s == "u8"@ {
        "uint8_t"@
    } else if s == "u16"@ {
        "uint16_t"@
    } else if s == "u32"@ {
        "uint32_t"@
    } else if s == "u64"@ {
        "uint64_t"@
    } else if s == "usize"@ {
        "uintptr_t"@
    } else {
        s
    }
}

/// Whether `s` is the syntax of a mutable raw pointer.
pub open spec fn is_mut_ptr(s: Seq<char>) -> bool {
    "*mut"@.is_prefix_of(s)
}

/// Whether `s` is the syntax of a constant raw pointer.
pub open spec fn is_const_ptr(s: Seq<char>) -> bool {
    "*const"@.is_prefix_of(s)
}

/// What a pointer type points to: the text behind `marker`, trimmed.
pub open spec fn pointee(s: Seq<char>, marker: Seq<char>) -> Seq<char> {
    trimmed(s.skip(marker.len() as int))
}

/// What a pointer type points to is a shorter text than the pointer type.
pub proof fn lemma_pointee_is_shorter(s: Seq<char>)
    ensures
        is_mut_ptr(s) ==> pointee(s, "*mut"@).len() < s.len(),
        is_const_ptr(s) ==> pointee(s, "*const"@).len() < s.len(),
{
    reveal_strlit("*mut");
    reveal_strlit("*const");
    lemma_trimmed_len(s.skip(4));
    lemma_trimmed_len(s.skip(6));
}

/// The C syntax of the Rust type `s`: a raw pointer is its pointee's C syntax followed
/// by `*`, behind `const ` where the pointer is constant; anything else is looked up
/// among the primitive types.
pub open spec fn c_type(s: Seq<char>) -> Seq<char>
    decreases s.len(),
{
    if is_mut_ptr(s) {
        proof {
            lemma_pointee_is_shorter(s);
        }
        c_type(pointee(s, "*mut"@)) + "*"@
    } else if is_const_ptr(s) {
        proof {
            lemma_pointee_is_shorter(s);
        }
        "const "@ + c_type(pointee(s, "*const"@)) + "*"@
    } else {
        primitive(s)
    }
}

/// Whether `s` is the name of a primitive type, which has a C name of its own.
pub open spec fn is_primitive(s: Seq<char>) -> bool {
    s == "()"@ || s == "f32"@ || s == "f64"@ || s == "i8"@ || s == "i16"@ || s == "i32"@ || s
        == "i64"@ || s == "isize"@ || s == "u8"@ || s == "u16"@ || s == "u32"@ || s == "u64"@ || s
        == "usize"@
}

/// `unit`, `n` times over.
pub open spec fn repeat(unit: Seq<char>, n: nat) -> Seq<char>
    decreases n,
{
    if n == 0 {
        Seq::empty()
    } else {
        repeat(unit, (n - 1) as nat) + unit
    }
}

/// How many pointer markers stand in front of the innermost pointee of `s`.
pub open spec fn depth(s: Seq<char>) -> nat
    decreases s.len(),
{
    if is_mut_ptr(s) {
        proof {
            lemma_pointee_is_shorter(s);
        }
        1 + depth(pointee(s, "*mut"@))
    } else if is_const_ptr(s) {
        proof {
            lemma_pointee_is_shorter(s);
        }
        1 + depth(pointee(s, "*const"@))
    } else {
        0
    }
}

/// How many of the pointer markers of `s` are those of constant pointers.
pub open spec fn const_depth(s: Seq<char>) -> nat
    decreases s.len(),
{
    if is_mut_ptr(s) {
        proof {
            lemma_pointee_is_shorter(s);
        }
        const_depth(pointee(s, "*mut"@))
    } else if is_const_ptr(s) {
        proof {
            lemma_pointee_is_shorter(s);
        }
        1 + const_depth(pointee(s, "*const"@))
    } else {
        0
    }
}

/// The innermost pointee of `s`: what is left when every pointer marker is taken off.
pub open spec fn innermost(s: Seq<char>) -> Seq<char>
    decreases s.len(),
{
    if is_mut_ptr(s) {
        proof {
            lemma_pointee_is_shorter(s);
        }
        innermost(pointee(s, "*mut"@))
    } else if is_const_ptr(s) {
        proof {
            lemma_pointee_is_shorter(s);
        }
        innermost(pointee(s, "*const"@))
    } else {
        s
    }
}

/// A text that is no pointer and no primitive type maps to itself.
pub proof fn lemma_other_names_pass_through(s: Seq<char>)
    requires
        !is_mut_ptr(s),
        !is_const_ptr(s),
        !is_primitive(s),
    ensures
        c_type(s) == s,
{
}

/// Putting a unit in front of its repetitions is the same as putting it behind them.
proof fn lemma_repeat_front(unit: Seq<char>, n: nat)
    ensures
        unit + repeat(unit, n) == repeat(unit, n) + unit,
    decreases n,
{
    if n == 0 {
        assert(unit + repeat(unit, n) =~= repeat(unit, n) + unit);
    } else {
        lemma_repeat_front(unit, (n - 1) as nat);
        assert(unit + repeat(unit, n) =~= (unit + repeat(unit, (n - 1) as nat)) + unit);
    }
}

/// Pointer nesting is kept: the mapped type is the mapped innermost pointee, with one
/// `*` behind it for each pointer marker and one `const ` before it for each marker of
/// a constant pointer.
pub proof fn lemma_pointer_depth_kept(s: Seq<char>)
    ensures
        c_type(s) == repeat("const "@, const_depth(s)) + primitive(innermost(s)) + repeat(
            "*"@,
            depth(s),
        ),
    decreases s.len(),
{
    lemma_pointee_is_shorter(s);
    if is_mut_ptr(s) {
        let t = pointee(s, "*mut"@);
        lemma_pointer_depth_kept(t);
        assert(c_type(s) =~= repeat("const "@, const_depth(t)) + primitive(innermost(t)) + (repeat(
            "*"@,
            depth(t),
        ) + "*"@));
    } else if is_const_ptr(s) {
        let t = pointee(s, "*const"@);
        lemma_pointer_depth_kept(t);
        lemma_repeat_front("const "@, const_depth(t));
        assert(c_type(s) =~= ("const "@ + repeat("const "@, const_depth(t))) + primitive(
            innermost(t),
        ) + (repeat("*"@, depth(t)) + "*"@));
    } else {
        assert(c_type(s) =~= repeat("const "@, 0) + primitive(s) + repeat("*"@, 0));
    }
}

/// `n` repetitions of `*` are `n` characters, each a `*`.
pub proof fn lemma_stars(n: nat)
    ensures
        repeat("*"@, n) == Seq::new(n, |i: int| '*'),
    decreases n,
{
    reveal_strlit("*");
    if n > 0 {
        lemma_stars((n - 1) as nat);
    }
    assert(repeat("*"@, n) =~= Seq::new(n, |i: int| '*'));
}

/// Behind a pointer marker and a space, a text without whitespace at its ends is the
/// pointee.
proof fn lemma_pointee_behind_marker(marker: Seq<char>, t: Seq<char>)
    requires
        trimmed(t) == t,
    ensures
        pointee(marker + " "@ + t, marker) == t,
{
    reveal_strlit(" ");
    let s = marker + " "@ + t;
    let rest = s.skip(marker.len() as int);
    assert(rest =~= " "@ + t);
    assert(rest.drop_first() =~= t);
    assert(is_white_space(rest[0]));
}

/// One more `*mut` in front of a type is one more level of indirection: one more `*`
/// behind the mapped type, and not one more `const `.
pub proof fn lemma_mut_marker_adds_a_level(t: Seq<char>)
    requires
        trimmed(t) == t,
    ensures
        depth("*mut "@ + t) == depth(t) + 1,
        const_depth("*mut "@ + t) == const_depth(t),
        innermost("*mut "@ + t) == innermost(t),
        c_type("*mut "@ + t) == c_type(t) + "*"@,
{
    reveal_strlit("*mut");
    reveal_strlit("*mut ");
    reveal_strlit(" ");
    let s = "*mut "@ + t;
    assert("*mut "@ =~= "*mut"@ + " "@);
    assert(s =~= "*mut"@ + " "@ + t);
    assert(s.subrange(0, 4) =~= "*mut"@);
    lemma_pointee_behind_marker("*mut"@, t);
}

/// One more `*const` in front of a type is one more level of indirection: one more `*`
/// behind the mapped type, and one more `const ` before it.
pub proof fn lemma_const_marker_adds_a_level(t: Seq<char>)
    requires
        trimmed(t) == t,
    ensures
        depth("*const "@ + t) == depth(t) + 1,
        const_depth("*const "@ + t) == const_depth(t) + 1,
        innermost("*const "@ + t) == innermost(t),
        c_type("*const "@ + t) == "const "@ + c_type(t) + "*"@,
{
    reveal_strlit("*mut");
    reveal_strlit("*const");
    reveal_strlit("*const ");
    reveal_strlit(" ");
    let s = "*const "@ + t;
    assert("*const "@ =~= "*const"@ + " "@);
    assert(s =~= "*const"@ + " "@ + t);
    assert(s.subrange(0, 6) =~= "*const"@);
    assert(!is_mut_ptr(s)) by {
        assert(s[1] == 'c');
        assert("*mut"@[1] == 'm');
        if is_mut_ptr(s) {
            assert(s.subrange(0, 4)[1] == "*mut"@[1]);
        }
    }
    lemma_pointee_behind_marker("*const"@, t);
}

/// Makes known what the names in the table of primitive types, and the pointer
/// markers, are made of.
proof fn reveal_names()
    ensures
        "()"@ == seq!['(', ')'],
        "f32"@ == seq!['f', '3', '2'],
        "f64"@ == seq!['f', '6', '4'],
        "i8"@ == seq!['i', '8'],
        "i16"@ == seq!['i', '1', '6'],
        "i32"@ == seq!['i', '3', '2'],
        "i64"@ == seq!['i', '6', '4'],
        "isize"@ == seq!['i', 's', 'i', 'z', 'e'],
        "u8"@ == seq!['u', '8'],
        "u16"@ == seq!['u', '1', '6'],
        "u32"@ == seq!['u', '3', '2'],
        "u64"@ == seq!['u', '6', '4'],
        "usize"@ == seq!['u', 's', 'i', 'z', 'e'],
        "void"@ == seq!['v', 'o', 'i', 'd'],
        "float"@ == seq!['f', 'l', 'o', 'a', 't'],
        "double"@ == seq!['d', 'o', 'u', 'b', 'l', 'e'],
        "int8_t"@ == seq!['i', 'n', 't', '8', '_', 't'],
        "int16_t"@ == seq!['i', 'n', 't', '1', '6', '_', 't'],
        "int32_t"@ == seq!['i', 'n', 't', '3', '2', '_', 't'],
        "int64_t"@ == seq!['i', 'n', 't', '6', '4', '_', 't'],
        "intptr_t"@ == seq!['i', 'n', 't', 'p', 't', 'r', '_', 't'],
        "uint8_t"@ == seq!['u', 'i', 'n', 't', '8', '_', 't'],
        "uint16_t"@ == seq!['u', 'i', 'n', 't', '1', '6', '_', 't'],
        "uint32_t"@ == seq!['u', 'i', 'n', 't', '3', '2', '_', 't'],
        "uint64_t"@ == seq!['u', 'i', 'n', 't', '6', '4', '_', 't'],
        "uintptr_t"@ == seq!['u', 'i', 'n', 't', 'p', 't', 'r', '_', 't'],
        "*mut"@ == seq!['*', 'm', 'u', 't'],
        "*const"@ == seq!['*', 'c', 'o', 'n', 's', 't'],
        "const "@ == seq!['c', 'o', 'n', 's', 't', ' '],
        "*"@ == seq!['*'],
{
    reveal_strlit("()");
    reveal_strlit("f32");
    reveal_strlit("f64");
    reveal_strlit("i8");
    reveal_strlit("i16");
    reveal_strlit("i32");
    reveal_strlit("i64");
    reveal_strlit("isize");
    reveal_strlit("u8");
    reveal_strlit("u16");
    reveal_strlit("u32");
    reveal_strlit("u64");
    reveal_strlit("usize");
    reveal_strlit("void");
    reveal_strlit("float");
    reveal_strlit("double");
    reveal_strlit("int8_t");
    reveal_strlit("int16_t");
    reveal_strlit("int32_t");
    reveal_strlit("int64_t");
    reveal_strlit("intptr_t");
    reveal_strlit("uint8_t");
    reveal_strlit("uint16_t");
    reveal_strlit("uint32_t");
    reveal_strlit("uint64_t");
    reveal_strlit("uintptr_t");
    reveal_strlit("*mut");
    reveal_strlit("*const");
    reveal_strlit("const ");
    reveal_strlit("*");
    assert("()"@ =~= seq!['(', ')']);
    assert("f32"@ =~= seq!['f', '3', '2']);
    assert("f64"@ =~= seq!['f', '6', '4']);
    assert("i8"@ =~= seq!['i', '8']);
    assert("i16"@ =~= seq!['i', '1', '6']);
    assert("i32"@ =~= seq!['i', '3', '2']);
    assert("i64"@ =~= seq!['i', '6', '4']);
    assert("isize"@ =~= seq!['i', 's', 'i', 'z', 'e']);
    assert("u8"@ =~= seq!['u', '8']);
    assert("u16"@ =~= seq!['u', '1', '6']);
    assert("u32"@ =~= seq!['u', '3', '2']);
    assert("u64"@ =~= seq!['u', '6', '4']);
    assert("usize"@ =~= seq!['u', 's', 'i', 'z', 'e']);
    assert("void"@ =~= seq!['v', 'o', 'i', 'd']);
    assert("float"@ =~= seq!['f', 'l', 'o', 'a', 't']);
    assert("double"@ =~= seq!['d', 'o', 'u', 'b', 'l', 'e']);
    assert("int8_t"@ =~= seq!['i', 'n', 't', '8', '_', 't']);
    assert("int16_t"@ =~= seq!['i', 'n', 't', '1', '6', '_', 't']);
    assert("int32_t"@ =~= seq!['i', 'n', 't', '3', '2', '_', 't']);
    assert("int64_t"@ =~= seq!['i', 'n', 't', '6', '4', '_', 't']);
    assert("intptr_t"@ =~= seq!['i', 'n', 't', 'p', 't', 'r', '_', 't']);
    assert("uint8_t"@ =~= seq!['u', 'i', 'n', 't', '8', '_', 't']);
    assert("uint16_t"@ =~= seq!['u', 'i', 'n', 't', '1', '6', '_', 't']);
    assert("uint32_t"@ =~= seq!['u', 'i', 'n', 't', '3', '2', '_', 't']);
    assert("uint64_t"@ =~= seq!['u', 'i', 'n', 't', '6', '4', '_', 't']);
    assert("uintptr_t"@ =~= seq!['u', 'i', 'n', 't', 'p', 't', 'r', '_', 't']);
    assert("*mut"@ =~= seq!['*', 'm', 'u', 't']);
    assert("*const"@ =~= seq!['*', 'c', 'o', 'n', 's', 't']);
    assert("const "@ =~= seq!['c', 'o', 'n', 's', 't', ' ']);
    assert("*"@ =~= seq!['*']);
}

/// Whether `s` is a text that the mapper leaves as it is: no pointer and no primitive
/// type.
pub open spec fn is_settled(s: Seq<char>) -> bool {
    !is_mut_ptr(s) && !is_const_ptr(s) && !is_primitive(s)
}

/// The C name of a primitive type is no pointer and no primitive type.
proof fn lemma_primitive_settled(s: Seq<char>)
    requires
        is_primitive(s),
    ensures
        is_settled(primitive(s)),
{
    reveal_names();
    let r = primitive(s);
    assert(r.len() >= 4);
    assert(r[0] != '*');
    assert(r[1] != '3' && r[1] != '6' && r[1] != '8' && r[1] != '1' && r[1] != 's');
}

/// A text that ends in `*` and has a settled text in front of that `*`, or starts with
/// `const `, is settled.
proof fn lemma_pointer_settled(inner: Seq<char>, constant: bool)
    requires
        is_settled(inner),
    ensures
        is_settled(
            if constant {
                "const "@ + inner + "*"@
            } else {
                inner + "*"@
            },
        ),
{
    reveal_names();
    let r = if constant {
        "const "@ + inner + "*"@
    } else {
        inner + "*"@
    };
    assert(r.last() == '*');
    if constant {
        assert(r[0] == 'c');
    } else {
        if is_mut_ptr(r) {
            if inner.len() >= 4 {
                assert(inner.subrange(0, 4) =~= r.subrange(0, 4));
            } else {
                assert(r.subrange(0, 4)[3] == 't');
            }
        }
        if is_const_ptr(r) {
            if inner.len() >= 6 {
                assert(inner.subrange(0, 6) =~= r.subrange(0, 6));
            } else {
                assert(r.subrange(0, 6)[5] == 't');
            }
        }
    }
}

/// What the mapper gives is settled: mapping it again changes nothing.
pub proof fn lemma_c_type_settled(s: Seq<char>)
    ensures
        is_settled(c_type(s)),
    decreases s.len(),
{
    lemma_pointee_is_shorter(s);
    if is_mut_ptr(s) {
        lemma_c_type_settled(pointee(s, "*mut"@));
        lemma_pointer_settled(c_type(pointee(s, "*mut"@)), false);
    } else if is_const_ptr(s) {
        lemma_c_type_settled(pointee(s, "*const"@));
        lemma_pointer_settled(c_type(pointee(s, "*const"@)), true);
    } else if is_primitive(s) {
        lemma_primitive_settled(s);
    }
}

/// Mapping is idempotent: a mapped type maps to itself.
pub proof fn lemma_c_type_idempotent(s: Seq<char>)
    ensures
        c_type(c_type(s)) == c_type(s),
{
    lemma_c_type_settled(s);
    lemma_other_names_pass_through(c_type(s));
}

/// Looks `typ` up among the primitive types.
pub fn c_primitive<'a>(typ: &'a str) -> (res: &'a str)
    ensures
        res@ == primitive(typ@),
{
    if same_text(typ, "()") {
        "void"
    } else if same_text(typ, "f32") {
        "float"
    } else if same_text(typ, "f64") {
        "double"
    } else if same_text(typ, "i8") {
        "int8_t"
    } else if same_text(typ, "i16") {
        "int16_t"
    } else if same_text(typ, "i32") {
        "int32_t"
    } else if same_text(typ, "i64") {
        "int64_t"
    } else if same_text(typ, "isize") {
        "intptr_t"
    } else if same_text(typ, "u8") {
        "uint8_t"
    } else if same_text(typ, "u16") {
        "uint16_t"
    } else if same_text(typ, "u32") {
        "uint32_t"
    } else if same_text(typ, "u64") {
        "uint64_t"
    } else if same_text(typ, "usize") {
        "uintptr_t"
    } else {
        typ
    }
}

/// Maps the Rust type syntax `typ` to C type syntax.
///
/// A raw pointer becomes its mapped pointee followed by `*`, behind `const ` where the
/// pointer is constant; a primitive type becomes its fixed-width C name; any other text
/// is taken for the name of a type declared elsewhere and comes back unchanged.
pub fn rust_to_c(typ: &str) -> (res: String)
    ensures
        res@ == c_type(typ@),
    decreases typ@.len(),
{
    proof {
        reveal_strlit("*mut");
        reveal_strlit("*const");
        lemma_pointee_is_shorter(typ@);
    }
    if starts_with(typ, "*mut") {
        let mut out = rust_to_c(trim(skip(typ, 4)));
        out.append("*");
        out
    } else if starts_with(typ, "*const") {
        let inner = rust_to_c(trim(skip(typ, 6)));
        let mut out = "const ".to_owned();
        out.append(inner.as_str());
        out.append("*");
        out
    } else {
        c_primitive(typ).to_owned()
    }
}

} // verus!
