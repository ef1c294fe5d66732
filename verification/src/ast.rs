//! The declarations that a front end hands over, and their mathematical views.

use vstd::prelude::*;

verus! {

/// A region of the source text, by the byte positions of its two ends.
#[derive(Clone, Copy, Debug, PartialEq, Eq, Structural)]
pub struct Span {
    pub lo: u32,
    pub hi: u32,
}

/// Whether a declaration can be named from outside its crate.
#[derive(Clone, Copy, Debug, PartialEq, Eq, Structural)]
pub enum Visibility {
    /// Declared `pub`.
    Public,
    /// Declared without `pub`: as visible as what it stands in, and no further.
    Inherited,
}

/// The calling convention that a function is declared with.
#[derive(Clone, Copy, Debug, PartialEq, Eq, Structural)]
pub enum Abi {
    Cdecl,
    Stdcall,
    Fastcall,
    Aapcs,
    Win64,
    Rust,
    C,
    System,
    RustIntrinsic,
    RustCall,
    PlatformIntrinsic,
}

/// An attribute of a declaration, a field or a variant.
#[derive(Clone, Debug)]
pub enum Attribute {
    /// `#[repr(..)]`, with what it lists: a bare word as it is written, anything else
    /// as its whole source text.
    Repr(Vec<String>),
    /// `#[no_mangle]`.
    NoMangle,
    /// `#[doc = ".."]` with a string for its value, or a doc comment, with the text.
    Doc(String),
    /// Anything else.
    Other,
}

/// An attribute, as mathematics.
pub enum AttributeView {
    Repr(Seq<Seq<char>>),
    NoMangle,
    Doc(Seq<char>),
    Other,
}

impl View for Attribute {
    type V = AttributeView;

    open spec fn view(&self) -> AttributeView {
        match self {
            Attribute::Repr(words) => AttributeView::Repr(words@.map_values(|w: String| w@)),
            Attribute::NoMangle => AttributeView::NoMangle,
            Attribute::Doc(text) => AttributeView::Doc(text@),
            Attribute::Other => AttributeView::Other,
        }
    }
}

/// The views of a sequence of attributes, in order.
pub open spec fn attr_views(attrs: Seq<Attribute>) -> Seq<AttributeView> {
    attrs.map_values(|a: Attribute| a@)
}

/// A named field of a struct.
#[derive(Clone, Debug)]
pub struct StructField {
    pub name: String,
    pub attrs: Vec<Attribute>,
    /// The field's type, as Rust syntax.
    pub ty: String,
}

/// A named field, as mathematics.
pub struct StructFieldView {
    pub name: Seq<char>,
    pub attrs: Seq<AttributeView>,
    pub ty: Seq<char>,
}

impl View for StructField {
    type V = StructFieldView;

    open spec fn view(&self) -> StructFieldView {
        StructFieldView { name: self.name@, attrs: attr_views(self.attrs@), ty: self.ty@ }
    }
}

/// The shape of a struct, or of what an enum variant carries.
#[derive(Clone, Debug)]
pub enum VariantData {
    /// Named fields between braces.
    Struct(Vec<StructField>),
    /// Positional fields between parentheses.
    Tuple,
    /// No fields.
    Unit,
}

/// The shape of a struct or of a variant, as mathematics.
pub enum VariantDataView {
    Struct(Seq<StructFieldView>),
    Tuple,
    Unit,
}

impl View for VariantData {
    type V = VariantDataView;

    open spec fn view(&self) -> VariantDataView {
        match self {
            VariantData::Struct(fields) => VariantDataView::Struct(
                fields@.map_values(|f: StructField| f@),
            ),
            VariantData::Tuple => VariantDataView::Tuple,
            VariantData::Unit => VariantDataView::Unit,
        }
    }
}

/// A variant of an enum.
#[derive(Clone, Debug)]
pub struct Variant {
    pub name: String,
    pub attrs: Vec<Attribute>,
    /// What the variant carries. Only whether it is `Unit` is ever looked at.
    pub data: VariantData,
    /// The explicit discriminant, as Rust syntax.
    pub disr: Option<String>,
    pub span: Span,
}

/// A variant, as mathematics.
pub struct VariantView {
    pub name: Seq<char>,
    pub attrs: Seq<AttributeView>,
    pub data: VariantDataView,
    pub disr: Option<Seq<char>>,
    pub span: Span,
}

impl View for Variant {
    type V = VariantView;

    open spec fn view(&self) -> VariantView {
        VariantView {
            name: self.name@,
            attrs: attr_views(self.attrs@),
            data: self.data@,
            disr: match self.disr {
                Some(d) => Some(d@),
                None => None,
            },
            span: self.span,
        }
    }
}

/// A parameter of a function.
#[derive(Clone, Debug)]
pub struct Arg {
    /// The pattern that binds the argument, as Rust syntax.
    pub pat: String,
    /// The parameter's type, as Rust syntax.
    pub ty: String,
}

/// A parameter, as mathematics.
pub struct ArgView {
    pub pat: Seq<char>,
    pub ty: Seq<char>,
}

impl View for Arg {
    type V = ArgView;

    open spec fn view(&self) -> ArgView {
        ArgView { pat: self.pat@, ty: self.ty@ }
    }
}

/// What a function is declared to return.
#[derive(Clone, Debug)]
pub enum FunctionRetTy {
    /// `-> !`: the function never returns.
    NoReturn(Span),
    /// No return type is written.
    DefaultReturn,
    /// `-> T`, with `T` as Rust syntax.
    Return(String),
}

/// A declared return type, as mathematics.
pub enum FunctionRetTyView {
    NoReturn(Span),
    DefaultReturn,
    Return(Seq<char>),
}

impl View for FunctionRetTy {
    type V = FunctionRetTyView;

    open spec fn view(&self) -> FunctionRetTyView {
        match self {
            FunctionRetTy::NoReturn(span) => FunctionRetTyView::NoReturn(*span),
            FunctionRetTy::DefaultReturn => FunctionRetTyView::DefaultReturn,
            FunctionRetTy::Return(ty) => FunctionRetTyView::Return(ty@),
        }
    }
}

/// What kind of declaration an item is, with what is particular to the kind.
#[derive(Clone, Debug)]
pub enum ItemKind {
    /// `type Name = ..;`, with the aliased type as Rust syntax.
    Ty(String),
    /// `enum Name { .. }`.
    Enum(Vec<Variant>),
    /// `struct Name ..`.
    Struct(VariantData),
    /// `fn name(..) ..`.
    Fn { abi: Abi, inputs: Vec<Arg>, output: FunctionRetTy },
    /// A module, a trait, an impl, a constant and so on.
    Other,
}

/// The kind of a declaration, as mathematics.
pub enum ItemKindView {
    Ty(Seq<char>),
    Enum(Seq<VariantView>),
    Struct(VariantDataView),
    Fn { abi: Abi, inputs: Seq<ArgView>, output: FunctionRetTyView },
    Other,
}

impl View for ItemKind {
    type V = ItemKindView;

    open spec fn view(&self) -> ItemKindView {
        match self {
            ItemKind::Ty(ty) => ItemKindView::Ty(ty@),
            ItemKind::Enum(variants) => ItemKindView::Enum(variants@.map_values(|v: Variant| v@)),
            ItemKind::Struct(data) => ItemKindView::Struct(data@),
            ItemKind::Fn { abi, inputs, output } => ItemKindView::Fn {
                abi: *abi,
                inputs: inputs@.map_values(|a: Arg| a@),
                output: output@,
            },
            ItemKind::Other => ItemKindView::Other,
        }
    }
}

/// A top-level declaration.
#[derive(Clone, Debug)]
pub struct Item {
    pub name: String,
    pub vis: Visibility,
    /// The attributes, in the order in which they are written.
    pub attrs: Vec<Attribute>,
    /// The names of the generic parameters, lifetimes included.
    pub generics: Vec<String>,
    /// Where the declaration stands in the source.
    pub span: Span,
    pub kind: ItemKind,
}

/// A declaration, as mathematics.
pub struct ItemView {
    pub name: Seq<char>,
    pub vis: Visibility,
    pub attrs: Seq<AttributeView>,
    pub generics: Seq<Seq<char>>,
    pub span: Span,
    pub kind: ItemKindView,
}

impl View for Item {
    type V = ItemView;

    open spec fn view(&self) -> ItemView {
        ItemView {
            name: self.name@,
            vis: self.vis,
            attrs: attr_views(self.attrs@),
            generics: self.generics@.map_values(|g: String| g@),
            span: self.span,
            kind: self.kind@,
        }
    }
}

impl ItemView {
    /// Whether the declaration has generic parameters.
    pub open spec fn is_parameterized(self) -> bool {
        self.generics.len() > 0
    }
}

} // verus!
