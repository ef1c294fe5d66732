use rusty_cheddar::mapper::{c_primitive, rust_to_c};
use rusty_cheddar::text::{is_whitespace, same_text, skip, starts_with, trim};

#[test]
fn primitives_map_to_fixed_width_names() {
    assert_eq!(rust_to_c("()"), "void");
    assert_eq!(rust_to_c("f32"), "float");
    assert_eq!(rust_to_c("f64"), "double");
    assert_eq!(rust_to_c("i8"), "int8_t");
    assert_eq!(rust_to_c("i16"), "int16_t");
    assert_eq!(rust_to_c("i32"), "int32_t");
    assert_eq!(rust_to_c("i64"), "int64_t");
    assert_eq!(rust_to_c("isize"), "intptr_t");
    assert_eq!(rust_to_c("u8"), "uint8_t");
    assert_eq!(rust_to_c("u16"), "uint16_t");
    assert_eq!(rust_to_c("u32"), "uint32_t");
    assert_eq!(rust_to_c("u64"), "uint64_t");
    assert_eq!(rust_to_c("usize"), "uintptr_t");
}

#[test]
fn primitive_lookup_alone() {
    assert_eq!(c_primitive("u16"), "uint16_t");
    assert_eq!(c_primitive("*mut u16"), "*mut u16");
    assert_eq!(c_primitive(""), "");
}

#[test]
fn other_names_pass_through() {
    assert_eq!(rust_to_c("Point"), "Point");
    assert_eq!(rust_to_c("bool"), "bool");
    assert_eq!(rust_to_c(""), "");
    assert_eq!(rust_to_c("i128"), "i128");
    assert_eq!(rust_to_c(" i32"), " i32");
    assert_eq!(rust_to_c("i32 "), "i32 ");
    assert_eq!(rust_to_c("Option<i32>"), "Option<i32>");
}

#[test]
fn function_pointers_pass_through() {
    assert_eq!(rust_to_c("extern \"C\" fn(i32) -> i32"), "extern \"C\" fn(i32) -> i32");
    assert_eq!(rust_to_c("fn()"), "fn()");
}

#[test]
fn pointers_nest() {
    assert_eq!(rust_to_c("*mut i32"), "int32_t*");
    assert_eq!(rust_to_c("*const u8"), "const uint8_t*");
    assert_eq!(rust_to_c("*mut *const Point"), "const Point**");
    assert_eq!(rust_to_c("*const *mut *const ()"), "const const void***");
    assert_eq!(rust_to_c("*mut *mut *mut *mut f64"), "double****");
}

#[test]
fn pointer_depth_is_kept() {
    let mut typ = String::from("usize");
    let mut n = 0;
    while n < 40 {
        let mapped = rust_to_c(&typ);
        let consts = (n + 1) / 2;
        let expected = format!("{}uintptr_t{}", "const ".repeat(consts), "*".repeat(n));
        assert_eq!(mapped, expected);
        assert_eq!(mapped.matches('*').count(), n);
        assert_eq!(mapped.matches("const").count(), consts);
        typ = if n % 2 == 0 { format!("*const {}", typ) } else { format!("*mut {}", typ) };
        n += 1;
    }
}

#[test]
fn pointee_is_trimmed() {
    assert_eq!(rust_to_c("*mut    i32   "), "int32_t*");
    assert_eq!(rust_to_c("*const\t\n()"), "const void*");
    assert_eq!(rust_to_c("*mut\u{a0}u8"), "uint8_t*");
    assert_eq!(rust_to_c("*mut"), "*");
    assert_eq!(rust_to_c("*const"), "const *");
    assert_eq!(rust_to_c("*mut*mut"), "**");
}

#[test]
fn a_marker_is_a_prefix_and_no_more() {
    assert_eq!(rust_to_c("*mutable"), "able*");
    assert_eq!(rust_to_c("*constant"), "const ant*");
    assert_eq!(rust_to_c("*mu"), "*mu");
    assert_eq!(rust_to_c(" *mut i32"), " *mut i32");
    assert_eq!(rust_to_c("*Mut i32"), "*Mut i32");
}

#[test]
fn mapping_is_idempotent() {
    let samples = [
        "()", "f32", "f64", "i8", "i16", "i32", "i64", "isize", "u8", "u16", "u32", "u64",
        "usize", "*mut i32", "*const u8", "*mut *const Point", "*mut", "*const", "*mut*mut",
        "*mutable", "Point", "", "int32_t", "const void*", "*", "**", "*mu", "*mut *cons",
        "*const *mut u", "*mut \u{2003}\u{2003}",
    ];
    for s in samples.iter() {
        let once = rust_to_c(s);
        assert_eq!(rust_to_c(&once), once, "{:?}", s);
    }
}

#[test]
fn mapping_depends_on_the_text_alone() {
    let a = String::from("*mut i32");
    let b = ["*mut", " ", "i32"].concat();
    assert_eq!(rust_to_c(&a), rust_to_c(&b));
    assert_eq!(rust_to_c(&a), rust_to_c(&a));
}

#[test]
fn whitespace_agrees_with_std_on_every_char() {
    let mut n: u32 = 0;
    while n <= 0x10ffff {
        if let Some(c) = char::from_u32(n) {
            assert_eq!(is_whitespace(c), c.is_whitespace(), "U+{:04X}", n);
        }
        n += 1;
    }
}

#[test]
fn whitespace_by_code_point() {
    for c in ['\t', '\n', '\u{b}', '\u{c}', '\r', ' ', '\u{85}', '\u{a0}', '\u{1680}', '\u{2000}',
        '\u{200a}', '\u{2028}', '\u{2029}', '\u{202f}', '\u{205f}', '\u{3000}'].iter()
    {
        assert!(is_whitespace(*c), "{:?}", c);
    }
    for c in ['\u{8}', '\u{e}', 'a', '*', '\u{84}', '\u{86}', '\u{180e}', '\u{1fff}', '\u{200b}',
        '\u{2027}', '\u{202a}', '\u{2060}', '\u{3001}', '\u{feff}'].iter()
    {
        assert!(!is_whitespace(*c), "{:?}", c);
    }
}

#[test]
fn trim_and_prefix_agree_with_std() {
    let samples = [
        "", " ", "  a  ", "\t\nfoo bar\u{2003}", "*mut i32", "*mutable", "\u{a0}x\u{3000}", "x",
        " \u{85} ", "é è", " ünï çödé ", "\u{2028}\u{2029}", "a b", "ab ", " ab",
    ];
    for s in samples.iter() {
        assert_eq!(trim(s), s.trim());
        for p in ["", "*mut", "*const", " ", "x", "é", "*mut i32", "*mut i32 "].iter() {
            assert_eq!(starts_with(s, p), s.starts_with(p), "{:?} {:?}", s, p);
        }
    }
}

#[test]
fn trim_exact() {
    assert_eq!(trim("  a b  "), "a b");
    assert_eq!(trim("   "), "");
    assert_eq!(trim(""), "");
    assert_eq!(trim("x"), "x");
}

#[test]
fn skip_counts_characters() {
    assert_eq!(skip("*mut i32", 4), " i32");
    assert_eq!(skip("héllo", 2), "llo");
    assert_eq!(skip("abc", 0), "abc");
    assert_eq!(skip("abc", 3), "");
}

#[test]
fn same_text_compares_characters() {
    assert!(same_text("i32", "i32"));
    assert!(same_text("", ""));
    assert!(!same_text("i32", "i64"));
    assert!(!same_text("i32", "i3"));
    assert!(!same_text("C", "c"));
}

fn by_std(typ: &str) -> String {
    if typ.starts_with("*mut") {
        format!("{}*", by_std(typ["*mut".len()..].trim()))
    } else if typ.starts_with("*const") {
        format!("const {}*", by_std(typ["*const".len()..].trim()))
    } else {
        let table = [
            ("()", "void"), ("f32", "float"), ("f64", "double"), ("i8", "int8_t"),
            ("i16", "int16_t"), ("i32", "int32_t"), ("i64", "int64_t"), ("isize", "intptr_t"),
            ("u8", "uint8_t"), ("u16", "uint16_t"), ("u32", "uint32_t"), ("u64", "uint64_t"),
            ("usize", "uintptr_t"),
        ];
        for (rust, c) in table.iter() {
            if typ == *rust {
                return c.to_string();
            }
        }
        typ.to_string()
    }
}

#[test]
fn mapping_agrees_with_std_string_operations() {
    let tokens = ["*mut", "*const", " ", "\t", "\u{3000}", "i32", "u8", "()", "Point", "*", "é"];
    let mut corpus: Vec<String> = vec![String::new()];
    let mut start = 0;
    for _ in 0..4 {
        let end = corpus.len();
        for i in start..end {
            for t in tokens.iter() {
                let mut s = corpus[i].clone();
                s.push_str(t);
                corpus.push(s);
            }
        }
        start = end;
    }
    assert_eq!(corpus.len(), 1 + 11 + 121 + 1331 + 14641);
    for s in corpus.iter() {
        let mapped = rust_to_c(s);
        assert_eq!(mapped, by_std(s), "{:?}", s);
        assert_eq!(rust_to_c(&mapped), mapped, "{:?}", s);
    }
}
