//! What holds of every translation.

use vstd::prelude::*;
use crate::ast::ItemView;
use crate::attr::{docs, has_no_mangle, has_repr_c};
use crate::diag::{Diagnostic, Outcome, Reason};
use crate::render::{
    diagnostics, emitter_outcome, emitter_text, fails_fatally, field_text, field_texts,
    first_fatal, first_non_unit, is_c_abi, is_fatal, item_outcome, item_text, param_text,
    param_texts, return_text, scanned, texts, variant_text, variant_texts,
};
use crate::search::{lemma_first_where, lemma_first_where_is_first};
use crate::text::{
    concat, join, lemma_concat_add, lemma_concat_keeps_order, lemma_join_keeps_order, sep_if,
};

verus! {

/// The prototype of an exported function holds one parameter for each parameter of the
/// function, in their order: parameter `i` stands behind the list of the parameters
/// before it and in front of the list of those behind it.
pub proof fn lemma_parameters_keep_order(item: ItemView, i: int)
    requires
        item.vis is Public,
        item.kind is Fn,
        has_no_mangle(item.attrs),
        is_c_abi(item.kind->abi),
        !item.is_parameterized(),
        !(item.kind->output is NoReturn),
        0 <= i < item.kind->inputs.len(),
    ensures
        item_outcome(item) is Emitted,
        param_texts(item.kind->inputs).len() == item.kind->inputs.len(),
        item_text(item) == docs(item.attrs) + return_text(item.kind->output) + " "@ + item.name
            + "("@ + join(param_texts(item.kind->inputs.take(i)), ", "@) + sep_if(i > 0, ", "@)
            + param_text(item.kind->inputs[i]) + sep_if(i + 1 < item.kind->inputs.len(), ", "@)
            + join(param_texts(item.kind->inputs.skip(i + 1)), ", "@) + ");\n\n"@,
{
    let inputs = item.kind->inputs;
    let pieces = param_texts(inputs);
    lemma_join_keeps_order(pieces, ", "@, i);
    assert(pieces.take(i) =~= param_texts(inputs.take(i)));
    assert(pieces.skip(i + 1) =~= param_texts(inputs.skip(i + 1)));
    assert(item_text(item) =~= docs(item.attrs) + return_text(item.kind->output) + " "@ + item.name
        + "("@ + join(param_texts(inputs.take(i)), ", "@) + sep_if(i > 0, ", "@) + param_text(
        inputs[i],
    ) + sep_if(i + 1 < inputs.len(), ", "@) + join(param_texts(inputs.skip(i + 1)), ", "@)
        + ");\n\n"@);
}

/// The body of a rendered struct holds one line for each field, in their order: the
/// line of field `i` stands behind the lines of the fields before it and in front of
/// the lines of those behind it.
pub proof fn lemma_fields_keep_order(item: ItemView, i: int)
    requires
        item.vis is Public,
        item.kind is Struct,
        item.kind->Struct_0 is Struct,
        has_repr_c(item.attrs),
        !item.is_parameterized(),
        0 <= i < item.kind->Struct_0->Struct_0.len(),
    ensures
        item_outcome(item) is Emitted,
        field_texts(item.kind->Struct_0->Struct_0).len() == item.kind->Struct_0->Struct_0.len(),
        item_text(item) == docs(item.attrs) + "typedef struct "@ + item.name + " {\n"@ + concat(
            field_texts(item.kind->Struct_0->Struct_0.take(i)),
        ) + field_text(item.kind->Struct_0->Struct_0[i]) + concat(
            field_texts(item.kind->Struct_0->Struct_0.skip(i + 1)),
        ) + "} "@ + item.name + ";\n\n"@,
{
    let fields = item.kind->Struct_0->Struct_0;
    let lines = field_texts(fields);
    lemma_concat_keeps_order(lines, i);
    assert(lines.take(i) =~= field_texts(fields.take(i)));
    assert(lines.skip(i + 1) =~= field_texts(fields.skip(i + 1)));
    assert(item_text(item) =~= docs(item.attrs) + "typedef struct "@ + item.name + " {\n"@
        + concat(field_texts(fields.take(i))) + field_text(fields[i]) + concat(
        field_texts(fields.skip(i + 1)),
    ) + "} "@ + item.name + ";\n\n"@);
}

/// The body of a rendered enum holds one line for each variant, in their order: the
/// line of variant `i` stands behind the lines of the variants before it and in front
/// of the lines of those behind it.
pub proof fn lemma_variants_keep_order(item: ItemView, i: int)
    requires
        item.vis is Public,
        item.kind is Enum,
        has_repr_c(item.attrs),
        !item.is_parameterized(),
        first_non_unit(item.kind->Enum_0) == item.kind->Enum_0.len(),
        0 <= i < item.kind->Enum_0.len(),
    ensures
        item_outcome(item) is Emitted,
        variant_texts(item.kind->Enum_0).len() == item.kind->Enum_0.len(),
        item_text(item) == docs(item.attrs) + "typedef enum "@ + item.name + " {\n"@ + concat(
            variant_texts(item.kind->Enum_0.take(i)),
        ) + variant_text(item.kind->Enum_0[i]) + concat(
            variant_texts(item.kind->Enum_0.skip(i + 1)),
        ) + "} "@ + item.name + ";\n\n"@,
{
    let variants = item.kind->Enum_0;
    let lines = variant_texts(variants);
    lemma_concat_keeps_order(lines, i);
    assert(lines.take(i) =~= variant_texts(variants.take(i)));
    assert(lines.skip(i + 1) =~= variant_texts(variants.skip(i + 1)));
    assert(item_text(item) =~= docs(item.attrs) + "typedef enum "@ + item.name + " {\n"@ + concat(
        variant_texts(variants.take(i)),
    ) + variant_text(variants[i]) + concat(variant_texts(variants.skip(i + 1))) + "} "@
        + item.name + ";\n\n"@);
}

/// A struct or an enum without `#[repr(C)]` leaves no text and no report.
pub proof fn lemma_unmarked_is_silent(item: ItemView)
    requires
        item.kind is Struct || item.kind is Enum,
        !has_repr_c(item.attrs),
    ensures
        emitter_outcome(item) == Outcome::Skipped,
        emitter_text(item) == Seq::<char>::empty(),
        item_outcome(item) == Outcome::Skipped,
        item_text(item) == Seq::<char>::empty(),
        texts(scanned(seq![item])) == Seq::<char>::empty(),
        diagnostics(scanned(seq![item])) == Seq::<Diagnostic>::empty(),
{
    lemma_scan_of_one(item);
}

/// A function with `#[no_mangle]` and the calling convention `C`, without parameters,
/// without a return type, without generic parameters and without documentation,
/// renders to `void name();` and an empty line, and to nothing else. In a scan that
/// holds of a public one.
pub proof fn lemma_plain_function(item: ItemView)
    requires
        item.kind is Fn,
        has_no_mangle(item.attrs),
        item.kind->abi is C,
        !item.is_parameterized(),
        item.kind->inputs.len() == 0,
        item.kind->output is DefaultReturn,
        docs(item.attrs).len() == 0,
    ensures
        emitter_outcome(item) == Outcome::Emitted,
        emitter_text(item) == "void "@ + item.name + "();\n\n"@,
        item.vis is Public ==> {
            &&& texts(scanned(seq![item])) == "void "@ + item.name + "();\n\n"@
            &&& diagnostics(scanned(seq![item])) == Seq::<Diagnostic>::empty()
        },
{
    reveal_strlit("void");
    reveal_strlit("void ");
    reveal_strlit(" ");
    reveal_strlit("(");
    reveal_strlit(");\n\n");
    reveal_strlit("();\n\n");
    assert(emitter_text(item) =~= "void "@ + item.name + "();\n\n"@);
    lemma_scan_of_one(item);
}

/// A struct with `#[repr(C)]` and generic parameters leaves no text, and fails with
/// one report, which is at the struct and is not fatal. In a scan that holds of a
/// public one.
pub proof fn lemma_generic_struct_fails(item: ItemView)
    requires
        item.kind is Struct,
        has_repr_c(item.attrs),
        item.is_parameterized(),
    ensures
        emitter_outcome(item) == Outcome::Failed(
            Diagnostic { span: item.span, reason: Reason::ParameterizedStruct },
        ),
        !is_fatal(emitter_outcome(item)),
        emitter_text(item) == Seq::<char>::empty(),
        item.vis is Public ==> {
            &&& texts(scanned(seq![item])) == Seq::<char>::empty()
            &&& diagnostics(scanned(seq![item])) == seq![
                Diagnostic { span: item.span, reason: Reason::ParameterizedStruct },
            ]
        },
{
    lemma_scan_of_one(item);
}

/// A scan of one declaration gives the text of that declaration, and its failure where
/// it fails.
pub proof fn lemma_scan_of_one(item: ItemView)
    ensures
        scanned(seq![item]) == seq![item],
        texts(scanned(seq![item])) == item_text(item),
        diagnostics(scanned(seq![item])) == match item_outcome(item) {
            Outcome::Failed(diagnostic) => seq![diagnostic],
            _ => Seq::<Diagnostic>::empty(),
        },
{
    let one = seq![item];
    assert(one.take(1) =~= one);
    assert(one.drop_first() =~= Seq::<ItemView>::empty());
    assert(first_fatal(one.drop_first()) == 0);
    assert(scanned(one) == one);
    let lines = one.map_values(|item: ItemView| item_text(item));
    assert(lines.drop_last() =~= Seq::<Seq<char>>::empty());
    assert(concat(lines.drop_last()) =~= Seq::<char>::empty());
    assert(concat(lines) =~= item_text(item));
    assert(one.drop_last() =~= Seq::<ItemView>::empty());
    assert(diagnostics(one.drop_last()) =~= Seq::<Diagnostic>::empty());
    match item_outcome(item) {
        Outcome::Failed(diagnostic) => {
            assert(diagnostics(one) =~= seq![diagnostic]);
        },
        _ => {},
    }
}

/// The texts of two runs of declarations, one after the other, are the texts of the
/// first run followed by those of the second.
proof fn lemma_texts_add(a: Seq<ItemView>, b: Seq<ItemView>)
    ensures
        texts(a + b) == texts(a) + texts(b),
{
    let line = |item: ItemView| item_text(item);
    lemma_concat_add(a.map_values(line), b.map_values(line));
    assert((a + b).map_values(line) =~= a.map_values(line) + b.map_values(line));
}

/// The failures of two runs of declarations, one after the other, are the failures of
/// the first run followed by those of the second.
proof fn lemma_diagnostics_add(a: Seq<ItemView>, b: Seq<ItemView>)
    ensures
        diagnostics(a + b) == diagnostics(a) + diagnostics(b),
    decreases b.len(),
{
    if b.len() == 0 {
        assert(a + b =~= a);
        assert(diagnostics(a + b) =~= diagnostics(a) + diagnostics(b));
    } else {
        lemma_diagnostics_add(a, b.drop_last());
        assert((a + b).drop_last() =~= a + b.drop_last());
        assert((a + b).last() == b.last());
        assert(diagnostics(a + b) =~= diagnostics(a) + diagnostics(b));
    }
}

/// A scan takes the declarations in their order, and a failure that is not fatal
/// touches no other declaration: where nothing in `a` fails fatally, a scan of `a`
/// followed by `b` gives all that `a` gives, followed by what a scan of `b` gives.
pub proof fn lemma_scan_composes(a: Seq<ItemView>, b: Seq<ItemView>)
    requires
        first_fatal(a) == a.len(),
    ensures
        scanned(a + b) == a + scanned(b),
        texts(scanned(a + b)) == texts(a) + texts(scanned(b)),
        diagnostics(scanned(a + b)) == diagnostics(a) + diagnostics(scanned(b)),
{
    let all = a + b;
    lemma_first_where_is_first(a, fails_fatally());
    lemma_first_where_is_first(b, fails_fatally());
    let stop = a.len() + first_fatal(b);
    assert forall|k: int| 0 <= k < stop implies !is_fatal(item_outcome(#[trigger] all[k])) by {
        if k < a.len() {
            assert(all[k] == a[k]);
        } else {
            assert(all[k] == b[k - a.len()]);
        }
    }
    if stop < all.len() {
        assert(all[stop] == b[first_fatal(b)]);
    }
    lemma_first_where(all, fails_fatally(), stop);
    assert(scanned(all) =~= a + scanned(b));
    lemma_texts_add(a, scanned(b));
    lemma_diagnostics_add(a, scanned(b));
}

/// A fatal failure ends the scan: where the declaration at `stop` is the first that
/// fails fatally, the scan gives the texts of the declarations before it and, behind
/// their failures, its own; nothing behind it is looked at.
pub proof fn lemma_scan_stops(items: Seq<ItemView>, stop: int)
    requires
        0 <= stop < items.len(),
        first_fatal(items) == stop,
    ensures
        scanned(items) == items.take(stop + 1),
        texts(scanned(items)) == texts(items.take(stop)),
        is_fatal(item_outcome(items[stop])),
        diagnostics(scanned(items)) == diagnostics(items.take(stop)).push(
            item_outcome(items[stop])->Failed_0,
        ),
{
    lemma_first_where_is_first(items, fails_fatally());
    let seen = items.take(stop + 1);
    let line = |item: ItemView| item_text(item);
    assert(seen.drop_last() =~= items.take(stop));
    assert(seen.last() == items[stop]);
    assert(seen.map_values(line).drop_last() =~= items.take(stop).map_values(line));
    assert(texts(seen) =~= texts(items.take(stop)));
}

/// What is rendered of a declaration is a whole C declaration or nothing: a rendered
/// declaration ends in `;` and an empty line; a skipped or failed one leaves no text.
pub proof fn lemma_whole_declaration_or_nothing(item: ItemView)
    ensures
        item_outcome(item) is Emitted ==> ";\n\n"@.is_suffix_of(item_text(item)),
        !(item_outcome(item) is Emitted) ==> item_text(item) == Seq::<char>::empty(),
{
    if item_outcome(item) is Emitted {
        let text = item_text(item);
        let end = ";\n\n"@;
        reveal_strlit(";\n\n");
        reveal_strlit(");\n\n");
        assert(");\n\n"@.subrange(1, 4) =~= end);
        assert(text.subrange(text.len() - 3, text.len() as int) =~= end);
    }
}

/// The documentation of a rendered declaration stands right in front of it.
pub proof fn lemma_docs_come_first(item: ItemView)
    requires
        item_outcome(item) is Emitted,
    ensures
        docs(item.attrs).is_prefix_of(item_text(item)),
{
    let text = item_text(item);
    let d = docs(item.attrs);
    assert(text.subrange(0, d.len() as int) =~= d);
}

} // verus!
