use rusty_cheddar::{
    Abi, Arg, Attribute, CheddarPass, Config, Diagnostic, FunctionRetTy, Item, ItemKind, Outcome,
    Reason, Span, StructField, Variant, VariantData, Visibility,
};

fn span(lo: u32, hi: u32) -> Span {
    Span { lo, hi }
}

fn repr_c() -> Attribute {
    Attribute::Repr(vec![String::from("C")])
}

fn doc(text: &str) -> Attribute {
    Attribute::Doc(text.to_string())
}

fn item(name: &str, attrs: Vec<Attribute>, kind: ItemKind) -> Item {
    Item {
        name: name.to_string(),
        vis: Visibility::Public,
        attrs,
        generics: Vec::new(),
        span: span(10, 90),
        kind,
    }
}

fn field(name: &str, ty: &str) -> StructField {
    StructField { name: name.to_string(), attrs: Vec::new(), ty: ty.to_string() }
}

fn unit(name: &str) -> Variant {
    Variant {
        name: name.to_string(),
        attrs: Vec::new(),
        data: VariantData::Unit,
        disr: None,
        span: span(0, 0),
    }
}

fn arg(pat: &str, ty: &str) -> Arg {
    Arg { pat: pat.to_string(), ty: ty.to_string() }
}

fn function(name: &str, inputs: Vec<Arg>, output: FunctionRetTy) -> Item {
    item(name, vec![Attribute::NoMangle], ItemKind::Fn { abi: Abi::C, inputs, output })
}

fn point() -> Item {
    item(
        "Point",
        vec![repr_c()],
        ItemKind::Struct(VariantData::Struct(vec![field("x", "i32"), field("y", "i32")])),
    )
}

fn color() -> Item {
    item("Color", vec![repr_c()], ItemKind::Enum(vec![unit("Red"), unit("Green"), unit("Blue")]))
}

fn failed(span: Span, reason: Reason) -> Outcome {
    Outcome::Failed(Diagnostic { span, reason })
}

#[test]
fn a_new_pass_is_empty() {
    assert_eq!(CheddarPass::new().buffer(), "");
    assert_eq!(CheddarPass::with_config(Config { dir: Some(String::from("out")), file: None }).buffer(), "");
}

#[test]
fn struct_point() {
    let mut pass = CheddarPass::new();
    assert_eq!(pass.parse_struct(&point()), Outcome::Emitted);
    assert_eq!(pass.buffer(), "typedef struct Point {\n\tint32_t x;\n\tint32_t y;\n} Point;\n\n");
}

#[test]
fn enum_color() {
    let mut pass = CheddarPass::new();
    assert_eq!(pass.parse_enum(&color()), Outcome::Emitted);
    assert_eq!(pass.buffer(), "typedef enum Color {\n\tRed,\n\tGreen,\n\tBlue,\n} Color;\n\n");
}

#[test]
fn enum_with_discriminants_and_docs() {
    let mut red = unit("Red");
    red.disr = Some(String::from("1"));
    red.attrs = vec![doc("/// The first."), Attribute::Other];
    let mut blue = unit("Blue");
    blue.disr = Some(String::from("1 << 4"));
    let e = item(
        "Color",
        vec![doc("/// Colours."), repr_c(), doc("/// Three of them.")],
        ItemKind::Enum(vec![red, unit("Green"), blue]),
    );
    let mut pass = CheddarPass::new();
    assert_eq!(pass.check_item(&e), Outcome::Emitted);
    assert_eq!(
        pass.buffer(),
        "/// Colours.\n/// Three of them.\ntypedef enum Color {\n/// The first.\n\tRed = 1,\n\tGreen,\n\tBlue = 1 << 4,\n} Color;\n\n"
    );
}

#[test]
fn empty_enum_and_empty_struct() {
    let mut pass = CheddarPass::new();
    assert_eq!(pass.parse_enum(&item("Never", vec![repr_c()], ItemKind::Enum(vec![]))), Outcome::Emitted);
    assert_eq!(pass.buffer(), "typedef enum Never {\n} Never;\n\n");
    let mut pass = CheddarPass::new();
    let s = item("Empty", vec![repr_c()], ItemKind::Struct(VariantData::Struct(vec![])));
    assert_eq!(pass.parse_struct(&s), Outcome::Emitted);
    assert_eq!(pass.buffer(), "typedef struct Empty {\n} Empty;\n\n");
}

#[test]
fn struct_with_docs_and_pointers() {
    let mut data = field("data", "*const u8");
    data.attrs = vec![doc("/// The bytes."), doc("/// Not owned.")];
    let s = item(
        "Slice",
        vec![doc("/// A slice."), repr_c()],
        ItemKind::Struct(VariantData::Struct(vec![data, field("len", "usize"), field("next", "*mut Slice")])),
    );
    let mut pass = CheddarPass::new();
    assert_eq!(pass.parse_struct(&s), Outcome::Emitted);
    assert_eq!(
        pass.buffer(),
        "/// A slice.\ntypedef struct Slice {\n/// The bytes.\n/// Not owned.\n\tconst uint8_t* data;\n\tuintptr_t len;\n\tSlice* next;\n} Slice;\n\n"
    );
}

#[test]
fn unmarked_struct_and_enum_are_silent() {
    let mut pass = CheddarPass::new();
    let mut s = point();
    s.attrs = vec![doc("/// Not for C."), Attribute::Repr(vec![String::from("packed")])];
    assert_eq!(pass.parse_struct(&s), Outcome::Skipped);
    assert_eq!(pass.check_item(&s), Outcome::Skipped);
    let mut e = color();
    e.attrs = Vec::new();
    assert_eq!(pass.parse_enum(&e), Outcome::Skipped);
    assert_eq!(pass.check_item(&e), Outcome::Skipped);
    assert_eq!(pass.buffer(), "");
    assert_eq!(pass.scan(&[s, e]), vec![]);
    assert_eq!(pass.buffer(), "");
}

#[test]
fn unmarked_items_of_another_kind_are_skipped_by_each_emitter() {
    let mut pass = CheddarPass::new();
    let alias = item("Id", vec![], ItemKind::Ty(String::from("u64")));
    assert_eq!(pass.parse_enum(&alias), Outcome::Skipped);
    assert_eq!(pass.parse_struct(&alias), Outcome::Skipped);
    assert_eq!(pass.parse_fn(&alias), Outcome::Skipped);
    assert_eq!(pass.buffer(), "");
}

#[test]
fn generic_struct_fails_with_one_report() {
    let mut s = point();
    s.generics = vec![String::from("T")];
    s.span = span(120, 180);
    let mut pass = CheddarPass::new();
    assert_eq!(pass.parse_struct(&s), failed(span(120, 180), Reason::ParameterizedStruct));
    assert_eq!(pass.buffer(), "");
    let mut pass = CheddarPass::new();
    assert_eq!(
        pass.scan(&[s]),
        vec![Diagnostic { span: span(120, 180), reason: Reason::ParameterizedStruct }]
    );
    assert_eq!(pass.buffer(), "");
}

#[test]
fn generic_struct_without_repr_c_is_skipped() {
    let mut s = point();
    s.generics = vec![String::from("T")];
    s.attrs = Vec::new();
    let mut pass = CheddarPass::new();
    assert_eq!(pass.parse_struct(&s), Outcome::Skipped);
    assert_eq!(pass.buffer(), "");
}

#[test]
fn tuple_and_unit_structs_fail() {
    let mut pass = CheddarPass::new();
    let t = item("Pair", vec![repr_c()], ItemKind::Struct(VariantData::Tuple));
    assert_eq!(pass.parse_struct(&t), failed(span(10, 90), Reason::UnitOrTupleStruct));
    let u = item("Marker", vec![repr_c()], ItemKind::Struct(VariantData::Unit));
    assert_eq!(pass.parse_struct(&u), failed(span(10, 90), Reason::UnitOrTupleStruct));
    assert_eq!(pass.buffer(), "");
}

#[test]
fn generics_are_reported_before_the_shape() {
    let mut t = item("Pair", vec![repr_c()], ItemKind::Struct(VariantData::Tuple));
    t.generics = vec![String::from("'a")];
    let mut pass = CheddarPass::new();
    assert_eq!(pass.parse_struct(&t), failed(span(10, 90), Reason::ParameterizedStruct));
}

#[test]
fn generic_enum_fails() {
    let mut e = color();
    e.generics = vec![String::from("T")];
    let mut pass = CheddarPass::new();
    assert_eq!(pass.parse_enum(&e), failed(span(10, 90), Reason::ParameterizedEnum));
    assert_eq!(pass.buffer(), "");
}

#[test]
fn the_first_variant_with_data_fails_the_enum() {
    let mut a = unit("A");
    a.span = span(1, 2);
    let mut b = unit("B");
    b.span = span(3, 4);
    b.data = VariantData::Tuple;
    let mut c = unit("C");
    c.span = span(5, 6);
    c.data = VariantData::Struct(vec![field("x", "i32")]);
    let e = item("E", vec![repr_c()], ItemKind::Enum(vec![a, b, c]));
    let mut pass = CheddarPass::new();
    assert_eq!(pass.parse_enum(&e), failed(span(3, 4), Reason::NonUnitVariant));
    assert_eq!(pass.buffer(), "");
}

#[test]
fn a_last_variant_with_data_fails_the_enum() {
    let mut c = unit("C");
    c.span = span(5, 6);
    c.data = VariantData::Struct(vec![]);
    let e = item("E", vec![repr_c()], ItemKind::Enum(vec![unit("A"), unit("B"), c]));
    let mut pass = CheddarPass::new();
    assert_eq!(pass.parse_enum(&e), failed(span(5, 6), Reason::NonUnitVariant));
    assert_eq!(pass.buffer(), "");
}

#[test]
fn alias() {
    let mut pass = CheddarPass::new();
    let a = item("Handle", vec![doc("/// Opaque.")], ItemKind::Ty(String::from("*mut ()")));
    assert_eq!(pass.parse_ty(&a), Outcome::Emitted);
    assert_eq!(pass.buffer(), "/// Opaque.\ntypedef void* Handle;\n\n");
    let b = item("Id", vec![], ItemKind::Ty(String::from("u64")));
    assert_eq!(pass.check_item(&b), Outcome::Emitted);
    assert_eq!(pass.buffer(), "/// Opaque.\ntypedef void* Handle;\n\ntypedef uint64_t Id;\n\n");
}

#[test]
fn generic_alias_is_skipped() {
    let mut pass = CheddarPass::new();
    let mut a = item("Handle", vec![doc("/// Opaque.")], ItemKind::Ty(String::from("*mut T")));
    a.generics = vec![String::from("T")];
    assert_eq!(pass.parse_ty(&a), Outcome::Skipped);
    assert_eq!(pass.check_item(&a), Outcome::Skipped);
    assert_eq!(pass.buffer(), "");
}

#[test]
fn plain_function() {
    let mut pass = CheddarPass::new();
    let f = function("init", vec![], FunctionRetTy::DefaultReturn);
    assert_eq!(pass.parse_fn(&f), Outcome::Emitted);
    assert_eq!(pass.buffer(), "void init();\n\n");
}

#[test]
fn function_with_parameters_in_order() {
    let mut pass = CheddarPass::new();
    let mut f = function(
        "add",
        vec![arg("a", "i32"), arg("b", "*const Point"), arg("_", "f64"), arg("out", "*mut *mut u8")],
        FunctionRetTy::Return(String::from("*const i64")),
    );
    f.attrs = vec![doc("/// Adds."), Attribute::NoMangle, doc("/// Twice.")];
    assert_eq!(pass.parse_fn(&f), Outcome::Emitted);
    assert_eq!(
        pass.buffer(),
        "/// Adds.\n/// Twice.\nconst int64_t* add(int32_t a, const Point* b, double _, uint8_t** out);\n\n"
    );
}

#[test]
fn function_with_one_parameter() {
    let mut pass = CheddarPass::new();
    let f = function("free", vec![arg("ptr", "*mut ()")], FunctionRetTy::Return(String::from("()")));
    assert_eq!(pass.parse_fn(&f), Outcome::Emitted);
    assert_eq!(pass.buffer(), "void free(void* ptr);\n\n");
}

#[test]
fn parameter_count_and_order_match() {
    let mut inputs = Vec::new();
    let mut expected = Vec::new();
    let mut n = 0;
    while n < 12 {
        inputs.push(arg(&format!("p{}", n), if n % 2 == 0 { "u8" } else { "Thing" }));
        expected.push(format!("{} p{}", if n % 2 == 0 { "uint8_t" } else { "Thing" }, n));
        let mut pass = CheddarPass::new();
        let f = function("f", inputs.clone(), FunctionRetTy::DefaultReturn);
        assert_eq!(pass.parse_fn(&f), Outcome::Emitted);
        let text = pass.buffer().to_string();
        let inner = &text["void f(".len()..text.len() - ");\n\n".len()];
        let pieces: Vec<String> = inner.split(", ").map(|p| p.to_string()).collect();
        assert_eq!(pieces, expected);
        n += 1;
    }
}

#[test]
fn every_c_calling_convention_is_exported() {
    for abi in [Abi::C, Abi::Cdecl, Abi::Stdcall, Abi::Fastcall, Abi::System].iter() {
        let mut pass = CheddarPass::new();
        let f = item(
            "f",
            vec![Attribute::NoMangle],
            ItemKind::Fn { abi: *abi, inputs: vec![], output: FunctionRetTy::DefaultReturn },
        );
        assert_eq!(pass.parse_fn(&f), Outcome::Emitted, "{:?}", abi);
        assert_eq!(pass.buffer(), "void f();\n\n");
    }
}

#[test]
fn other_calling_conventions_are_skipped() {
    for abi in [Abi::Rust, Abi::Aapcs, Abi::Win64, Abi::RustIntrinsic, Abi::RustCall, Abi::PlatformIntrinsic].iter() {
        let mut pass = CheddarPass::new();
        let mut f = item(
            "f",
            vec![Attribute::NoMangle],
            ItemKind::Fn { abi: *abi, inputs: vec![], output: FunctionRetTy::NoReturn(span(1, 2)) },
        );
        f.generics = vec![String::from("T")];
        assert_eq!(pass.parse_fn(&f), Outcome::Skipped, "{:?}", abi);
        assert_eq!(pass.buffer(), "");
    }
}

#[test]
fn function_without_no_mangle_is_skipped() {
    let mut pass = CheddarPass::new();
    let mut f = function("f", vec![], FunctionRetTy::DefaultReturn);
    f.attrs = vec![doc("/// Hidden."), repr_c()];
    assert_eq!(pass.parse_fn(&f), Outcome::Skipped);
    assert_eq!(pass.buffer(), "");
}

#[test]
fn generic_function_fails() {
    let mut pass = CheddarPass::new();
    let mut f = function("f", vec![arg("x", "T")], FunctionRetTy::NoReturn(span(7, 8)));
    f.generics = vec![String::from("T")];
    assert_eq!(pass.parse_fn(&f), failed(span(10, 90), Reason::ParameterizedFn));
    assert_eq!(pass.buffer(), "");
}

#[test]
fn function_that_never_returns_fails_at_its_return_type() {
    let mut pass = CheddarPass::new();
    let f = function("abort", vec![], FunctionRetTy::NoReturn(span(40, 41)));
    assert_eq!(pass.parse_fn(&f), failed(span(40, 41), Reason::NoReturn));
    assert_eq!(pass.buffer(), "");
}

#[test]
fn private_items_are_skipped() {
    let mut pass = CheddarPass::new();
    for mut it in [point(), color(), function("f", vec![], FunctionRetTy::NoReturn(span(1, 2))),
        item("Id", vec![], ItemKind::Ty(String::from("u64")))]
    {
        it.vis = Visibility::Inherited;
        it.generics = vec![String::from("T")];
        assert_eq!(pass.check_item(&it), Outcome::Skipped);
    }
    assert_eq!(pass.buffer(), "");
}

#[test]
fn other_kinds_are_skipped() {
    let mut pass = CheddarPass::new();
    let m = item("module", vec![repr_c(), Attribute::NoMangle, doc("/// A module.")], ItemKind::Other);
    assert_eq!(pass.check_item(&m), Outcome::Skipped);
    assert_eq!(pass.buffer(), "");
}

#[test]
fn check_item_dispatches_by_kind() {
    let mut pass = CheddarPass::new();
    assert_eq!(pass.check_item(&point()), Outcome::Emitted);
    assert_eq!(pass.check_item(&color()), Outcome::Emitted);
    assert_eq!(pass.check_item(&function("f", vec![], FunctionRetTy::DefaultReturn)), Outcome::Emitted);
    assert_eq!(pass.check_item(&item("Id", vec![], ItemKind::Ty(String::from("u64")))), Outcome::Emitted);
    assert_eq!(
        pass.buffer(),
        "typedef struct Point {\n\tint32_t x;\n\tint32_t y;\n} Point;\n\ntypedef enum Color {\n\tRed,\n\tGreen,\n\tBlue,\n} Color;\n\nvoid f();\n\ntypedef uint64_t Id;\n\n"
    );
}

#[test]
fn the_buffer_only_grows() {
    let mut pass = CheddarPass::new();
    let items = [
        point(),
        item("Pair", vec![repr_c()], ItemKind::Struct(VariantData::Tuple)),
        color(),
        function("f", vec![arg("x", "T")], FunctionRetTy::DefaultReturn),
        item("Id", vec![], ItemKind::Ty(String::from("u64"))),
    ];
    let mut before = String::new();
    for it in items.iter() {
        let outcome = pass.check_item(it);
        let after = pass.buffer().to_string();
        assert!(after.starts_with(&before));
        if outcome == Outcome::Emitted {
            assert!(after.len() > before.len());
            assert!(after.ends_with(";\n\n"));
        } else {
            assert_eq!(after, before);
        }
        before = after;
    }
}

#[test]
fn every_reason_has_its_words() {
    assert_eq!(Reason::ParameterizedEnum.message(), "cheddar can not handle parameterized `#[repr(C)]` enums");
    assert_eq!(Reason::NonUnitVariant.message(), "cheddar can not handle `#[repr(C)]` enums with non-unit variants");
    assert_eq!(Reason::ParameterizedStruct.message(), "cheddar can not handle parameterized `#[repr(C)]` structs");
    assert_eq!(Reason::UnitOrTupleStruct.message(), "cheddar can not handle unit or tuple `#[repr(C)]` structs");
    assert_eq!(Reason::ParameterizedFn.message(), "cheddar can not handle parameterized extern functions");
    assert_eq!(Reason::NoReturn.message(), "panics across a C boundary are naughty!");
}

#[test]
fn only_a_function_that_never_returns_is_fatal() {
    assert!(Reason::NoReturn.is_fatal());
    for r in [Reason::ParameterizedEnum, Reason::NonUnitVariant, Reason::ParameterizedStruct,
        Reason::UnitOrTupleStruct, Reason::ParameterizedFn].iter()
    {
        assert!(!r.is_fatal(), "{:?}", r);
    }
}
