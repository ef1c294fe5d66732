//! What each kind of declaration renders to, and when it does.

use vstd::prelude::*;
use crate::ast::{
    Abi, ArgView, FunctionRetTyView, ItemKindView, ItemView, Span, StructFieldView, VariantView,
};
use crate::attr::{docs, has_no_mangle, has_repr_c};
use crate::mapper::c_type;
use crate::diag::{Diagnostic, Outcome, Reason};
use crate::search::first_where;
use crate::text::{concat, join};

verus! {

/// Whether a variant carries data.
pub open spec fn carries_data() -> spec_fn(VariantView) -> bool {
    |variant: VariantView| !(variant.data is Unit)
}

/// The position of the first variant that carries data; the number of variants where
/// none does.
pub open spec fn first_non_unit(variants: Seq<VariantView>) -> int {
    first_where(variants, carries_data())
}

/// Whether a function with this calling convention can be called from C.
pub open spec fn is_c_abi(abi: Abi) -> bool {
    abi is C || abi is Cdecl || abi is Stdcall || abi is Fastcall || abi is System
}

/// The name of a variant, with its discriminant where one is written.
pub open spec fn variant_label(variant: VariantView) -> Seq<char> {
    match variant.disr {
        Some(disr) => variant.name + " = "@ + disr,
        None => variant.name,
    }
}

/// One line of an enum's body, under the variant's documentation.
pub open spec fn variant_text(variant: VariantView) -> Seq<char> {
    docs(variant.attrs) + "\t"@ + variant_label(variant) + ",\n"@
}

/// One line of a struct's body, under the field's documentation.
pub open spec fn field_text(field: StructFieldView) -> Seq<char> {
    docs(field.attrs) + "\t"@ + c_type(field.ty) + " "@ + field.name + ";\n"@
}

/// The lines of an enum's body: one for each of `variants`, in their order.
pub open spec fn variant_texts(variants: Seq<VariantView>) -> Seq<Seq<char>> {
    variants.map_values(|variant: VariantView| variant_text(variant))
}

/// The lines of a struct's body: one for each of `fields`, in their order.
pub open spec fn field_texts(fields: Seq<StructFieldView>) -> Seq<Seq<char>> {
    fields.map_values(|field: StructFieldView| field_text(field))
}

/// One parameter of a prototype.
pub open spec fn param_text(arg: ArgView) -> Seq<char> {
    c_type(arg.ty) + " "@ + arg.pat
}

/// The parameters of a prototype: one piece for each of `inputs`, in their order.
pub open spec fn param_texts(inputs: Seq<ArgView>) -> Seq<Seq<char>> {
    inputs.map_values(|arg: ArgView| param_text(arg))
}

/// The return type of a prototype.
pub open spec fn return_text(output: FunctionRetTyView) -> Seq<char> {
    match output {
        FunctionRetTyView::Return(ty) => c_type(ty),
        _ => "void"@,
    }
}

/// The `typedef` of a type alias.
pub open spec fn alias_text(item: ItemView) -> Seq<char>
    recommends
        item.kind is Ty,
{
    docs(item.attrs) + "typedef "@ + c_type(item.kind->Ty_0) + " "@ + item.name + ";\n\n"@
}

/// The `typedef enum` of an enum.
pub open spec fn enum_text(item: ItemView) -> Seq<char>
    recommends
        item.kind is Enum,
{
    docs(item.attrs) + "typedef enum "@ + item.name + " {\n"@ + concat(
        variant_texts(item.kind->Enum_0),
    ) + "} "@ + item.name + ";\n\n"@
}

/// The `typedef struct` of a struct with named fields.
pub open spec fn struct_text(item: ItemView) -> Seq<char>
    recommends
        item.kind is Struct,
        item.kind->Struct_0 is Struct,
{
    docs(item.attrs) + "typedef struct "@ + item.name + " {\n"@ + concat(
        field_texts(item.kind->Struct_0->Struct_0),
    ) + "} "@ + item.name + ";\n\n"@
}

/// The prototype of a function.
pub open spec fn fn_text(item: ItemView) -> Seq<char>
    recommends
        item.kind is Fn,
{
    docs(item.attrs) + return_text(item.kind->output) + " "@ + item.name + "("@ + join(
        param_texts(item.kind->inputs),
        ", "@,
    ) + ");\n\n"@
}

/// A failure at `span`.
pub open spec fn failed(span: Span, reason: Reason) -> Outcome {
    Outcome::Failed(Diagnostic { span, reason })
}

/// What becomes of a type alias: it is skipped where it has generic parameters.
pub open spec fn alias_outcome(item: ItemView) -> Outcome
    recommends
        item.kind is Ty,
{
    if item.is_parameterized() {
        Outcome::Skipped
    } else {
        Outcome::Emitted
    }
}

/// What becomes of an enum: it is skipped without `#[repr(C)]`, and fails with generic
/// parameters or, at the first such variant, with a variant that carries data.
pub open spec fn enum_outcome(item: ItemView) -> Outcome
    recommends
        has_repr_c(item.attrs) ==> item.kind is Enum,
{
    let variants = item.kind->Enum_0;
    if !has_repr_c(item.attrs) {
        Outcome::Skipped
    } else if item.is_parameterized() {
        failed(item.span, Reason::ParameterizedEnum)
    } else if first_non_unit(variants) < variants.len() {
        failed(variants[first_non_unit(variants)].span, Reason::NonUnitVariant)
    } else {
        Outcome::Emitted
    }
}

/// What becomes of a struct: it is skipped without `#[repr(C)]`, and fails with
/// generic parameters or without named fields.
pub open spec fn struct_outcome(item: ItemView) -> Outcome
    recommends
        has_repr_c(item.attrs) ==> item.kind is Struct,
{
    if !has_repr_c(item.attrs) {
        Outcome::Skipped
    } else if item.is_parameterized() {
        failed(item.span, Reason::ParameterizedStruct)
    } else if !(item.kind->Struct_0 is Struct) {
        failed(item.span, Reason::UnitOrTupleStruct)
    } else {
        Outcome::Emitted
    }
}

/// What becomes of a function: it is skipped without `#[no_mangle]` or with a calling
/// convention that C does not have, and fails with generic parameters or where it never
/// returns.
pub open spec fn fn_outcome(item: ItemView) -> Outcome
    recommends
        has_no_mangle(item.attrs) ==> item.kind is Fn,
{
    if !has_no_mangle(item.attrs) {
        Outcome::Skipped
    } else if !is_c_abi(item.kind->abi) {
        Outcome::Skipped
    } else if item.is_parameterized() {
        failed(item.span, Reason::ParameterizedFn)
    } else {
        match item.kind->output {
            FunctionRetTyView::NoReturn(span) => failed(span, Reason::NoReturn),
            _ => Outcome::Emitted,
        }
    }
}

/// `text` where `outcome` is that the declaration was rendered, else nothing.
pub open spec fn text_if_emitted(outcome: Outcome, text: Seq<char>) -> Seq<char> {
    if outcome is Emitted {
        text
    } else {
        Seq::empty()
    }
}

/// What the emitter for the kind of `item` makes of it.
pub open spec fn emitter_outcome(item: ItemView) -> Outcome {
    match item.kind {
        ItemKindView::Ty(_) => alias_outcome(item),
        ItemKindView::Enum(_) => enum_outcome(item),
        ItemKindView::Struct(_) => struct_outcome(item),
        ItemKindView::Fn { .. } => fn_outcome(item),
        ItemKindView::Other => Outcome::Skipped,
    }
}

/// The C declaration of `item`, should it be rendered.
pub open spec fn rendered(item: ItemView) -> Seq<char> {
    match item.kind {
        ItemKindView::Ty(_) => alias_text(item),
        ItemKindView::Enum(_) => enum_text(item),
        ItemKindView::Struct(_) => struct_text(item),
        ItemKindView::Fn { .. } => fn_text(item),
        ItemKindView::Other => Seq::empty(),
    }
}

/// What the emitter for the kind of `item` appends to the header: the declaration
/// where it is rendered, nothing where it is skipped or fails.
pub open spec fn emitter_text(item: ItemView) -> Seq<char> {
    text_if_emitted(emitter_outcome(item), rendered(item))
}

/// What becomes of `item` in a scan: only a public declaration reaches its emitter.
pub open spec fn item_outcome(item: ItemView) -> Outcome {
    if item.vis is Public {
        emitter_outcome(item)
    } else {
        Outcome::Skipped
    }
}

/// What a scan appends to the header for `item`.
pub open spec fn item_text(item: ItemView) -> Seq<char> {
    if item.vis is Public {
        emitter_text(item)
    } else {
        Seq::empty()
    }
}

/// Whether `outcome` is a failure that ends the whole translation.
pub open spec fn is_fatal(outcome: Outcome) -> bool {
    outcome matches Outcome::Failed(diagnostic) && diagnostic.reason.fatal()
}

/// Whether a declaration fails in a way that ends the whole translation.
pub open spec fn fails_fatally() -> spec_fn(ItemView) -> bool {
    |item: ItemView| is_fatal(item_outcome(item))
}

/// The position of the first of `items` whose failure ends the translation; their
/// number where none does.
pub open spec fn first_fatal(items: Seq<ItemView>) -> int {
    first_where(items, fails_fatally())
}

/// The declarations that a scan of `items` looks at: all of them, or those up to the
/// first whose failure ends the translation, that one included.
pub open spec fn scanned(items: Seq<ItemView>) -> Seq<ItemView> {
    if first_fatal(items) < items.len() {
        items.take(first_fatal(items) + 1)
    } else {
        items
    }
}

/// What a scan that looks at all of `items` appends to the header: the text of each, in
/// their order.
pub open spec fn texts(items: Seq<ItemView>) -> Seq<char> {
    concat(items.map_values(|item: ItemView| item_text(item)))
}

/// What a scan that looks at all of `items` reports: the failures, in the order of the
/// declarations that they are about.
pub open spec fn diagnostics(items: Seq<ItemView>) -> Seq<Diagnostic>
    decreases items.len(),
{
    if items.len() == 0 {
        Seq::empty()
    } else {
        match item_outcome(items.last()) {
            Outcome::Failed(diagnostic) => diagnostics(items.drop_last()).push(diagnostic),
            _ => diagnostics(items.drop_last()),
        }
    }
}

} // verus!
