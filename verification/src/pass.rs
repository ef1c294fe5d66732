//! The translator: it takes declarations one by one and accumulates the header's body.

use vstd::prelude::*;
use crate::ast::{
    Abi, Arg, FunctionRetTy, Item, ItemKind, ItemView, StructField, Variant, VariantData,
    Visibility,
};
use crate::attr::{has_no_mangle, has_repr_c, inspect_docs, inspect_no_mangle, inspect_repr_c};
use crate::mapper::rust_to_c;
use crate::diag::{Diagnostic, Outcome, Reason};
use crate::header::{guard, header_of, opt_view, Config, Header};
use crate::render::{
    alias_outcome, alias_text, carries_data, diagnostics, enum_outcome, enum_text, fails_fatally,
    field_texts, first_non_unit, fn_outcome, fn_text, is_c_abi, is_fatal, item_outcome,
    item_text, param_texts, return_text, scanned, struct_outcome, struct_text, text_if_emitted,
    texts, variant_texts,
};
use crate::search::lemma_first_where;
use crate::text::{concat, join};

verus! {

/// Accumulates the C declarations of the items that it is shown.
pub struct CheddarPass {
    buffer: String,
    dir: Option<String>,
    file: Option<String>,
}

/// A translator, as mathematics.
pub struct CheddarPassView {
    /// The declarations rendered so far.
    pub buffer: Seq<char>,
    /// The directory that the header is to be written to.
    pub dir: Option<Seq<char>>,
    /// The path of the header's file, from the directory.
    pub file: Option<Seq<char>>,
}

impl CheddarPassView {
    /// This state, with `text` at the end of what was rendered.
    pub open spec fn appended(self, text: Seq<char>) -> CheddarPassView {
        CheddarPassView { buffer: self.buffer + text, dir: self.dir, file: self.file }
    }
}

impl View for CheddarPass {
    type V = CheddarPassView;

    closed spec fn view(&self) -> CheddarPassView {
        CheddarPassView {
            buffer: self.buffer@,
            dir: opt_view(self.dir),
            file: opt_view(self.file),
        }
    }
}

/// The views of a sequence of declarations, in order.
pub open spec fn item_views(items: Seq<Item>) -> Seq<ItemView> {
    items.map_values(|item: Item| item@)
}

/// Tells whether a function with this calling convention can be called from C.
pub fn check_c_abi(abi: Abi) -> (res: bool)
    ensures
        res == is_c_abi(abi),
{
    match abi {
        Abi::C | Abi::Cdecl | Abi::Stdcall | Abi::Fastcall | Abi::System => true,
        _ => false,
    }
}

/// Returns the position of the first of `variants` that carries data, or their number
/// where none does.
fn find_non_unit(variants: &Vec<Variant>) -> (res: usize)
    ensures
        res == first_non_unit(variants@.map_values(|v: Variant| v@)),
        res <= variants@.len(),
{
    let ghost views = variants@.map_values(|v: Variant| v@);
    let mut i: usize = 0;
    while i < variants.len()
        invariant
            i <= variants@.len(),
            views == variants@.map_values(|v: Variant| v@),
            forall|k: int| 0 <= k < i ==> views[k].data is Unit,
        decreases variants@.len() - i,
    {
        match &variants[i].data {
            VariantData::Unit => {},
            _ => {
                proof {
                    lemma_first_where(views, carries_data(), i as int);
                }
                return i;
            },
        }
        i += 1;
    }
    proof {
        lemma_first_where(views, carries_data(), i as int);
    }
    i
}

impl CheddarPass {
    /// A translator that has rendered nothing yet, with no directory or file name chosen.
    pub fn new() -> (pass: CheddarPass)
        ensures
            pass@ == (CheddarPassView { buffer: Seq::empty(), dir: None, file: None }),
    {
        CheddarPass { buffer: String::new(), dir: None, file: None }
    }

    /// A translator that has rendered nothing yet, for the header that `config`
    /// describes.
    pub fn with_config(config: Config) -> (pass: CheddarPass)
        ensures
            pass@ == (CheddarPassView {
                buffer: Seq::empty(),
                dir: config@.dir,
                file: config@.file,
            }),
    {
        CheddarPass { buffer: String::new(), dir: config.dir, file: config.file }
    }

    /// What has been rendered so far.
    pub fn buffer(&self) -> (res: &str)
        ensures
            res@ == self@.buffer,
    {
        self.buffer.as_str()
    }

    /// Renders a type alias as a `typedef`, under its documentation. An alias with
    /// generic parameters is skipped.
    pub fn parse_ty(&mut self, item: &Item) -> (res: Outcome)
        requires
            item@.kind is Ty,
        ensures
            res == alias_outcome(item@),
            final(self)@ == old(self)@.appended(text_if_emitted(res, alias_text(item@))),
    {
        let docs = inspect_docs(item.attrs.as_slice());
        match &item.kind {
            ItemKind::Ty(ty) => {
                if item.generics.len() > 0 {
                    assert(self@.buffer + Seq::<char>::empty() =~= self@.buffer);
                    return Outcome::Skipped;
                }
                let aliased = rust_to_c(ty.as_str());
                self.buffer.append(docs.as_str());
                self.buffer.append("typedef ");
                self.buffer.append(aliased.as_str());
                self.buffer.append(" ");
                self.buffer.append(item.name.as_str());
                self.buffer.append(";\n\n");
                assert(self.buffer@ =~= old(self).buffer@ + alias_text(item@));
                Outcome::Emitted
            },
            _ => vstd::pervasive::unreached(),
        }
    }

    /// Renders an enum as a `typedef enum`, under its documentation, with one line for
    /// each variant. An enum without `#[repr(C)]` is skipped. One with generic
    /// parameters, or with a variant that carries data, fails and leaves nothing behind.
    pub fn parse_enum(&mut self, item: &Item) -> (res: Outcome)
        requires
            has_repr_c(item@.attrs) ==> item@.kind is Enum,
        ensures
            res == enum_outcome(item@),
            final(self)@ == old(self)@.appended(text_if_emitted(res, enum_text(item@))),
    {
        let (repr_c, docs) = inspect_repr_c(item.attrs.as_slice());
        assert(self@.buffer + Seq::<char>::empty() =~= self@.buffer);
        if !repr_c {
            return Outcome::Skipped;
        }
        match &item.kind {
            ItemKind::Enum(variants) => {
                if item.generics.len() > 0 {
                    return Outcome::Failed(
                        Diagnostic { span: item.span, reason: Reason::ParameterizedEnum },
                    );
                }
                let bad = find_non_unit(variants);
                if bad < variants.len() {
                    return Outcome::Failed(
                        Diagnostic { span: variants[bad].span, reason: Reason::NonUnitVariant },
                    );
                }
                self.buffer.append(docs.as_str());
                self.buffer.append("typedef enum ");
                self.buffer.append(item.name.as_str());
                self.buffer.append(" {\n");
                let ghost head = old(self).buffer@ + docs@ + "typedef enum "@ + item.name@ + " {\n"@;
                let ghost lines = variant_texts(variants@.map_values(|v: Variant| v@));
                let mut i: usize = 0;
                while i < variants.len()
                    invariant
                        i <= variants@.len(),
                        lines == variant_texts(variants@.map_values(|v: Variant| v@)),
                        self.buffer@ == head + concat(lines.take(i as int)),
                        self.dir == old(self).dir,
                        self.file == old(self).file,
                    decreases variants@.len() - i,
                {
                    let variant = &variants[i];
                    let docs = inspect_docs(variant.attrs.as_slice());
                    self.buffer.append(docs.as_str());
                    self.buffer.append("\t");
                    self.buffer.append(variant.name.as_str());
                    match &variant.disr {
                        Some(disr) => {
                            self.buffer.append(" = ");
                            self.buffer.append(disr.as_str());
                        },
                        None => {},
                    }
                    self.buffer.append(",\n");
                    proof {
                        assert(lines.take(i + 1).drop_last() =~= lines.take(i as int));
                        assert(self.buffer@ =~= head + concat(lines.take(i as int)) + lines[i as int]);
                    }
                    i += 1;
                }
                self.buffer.append("} ");
                self.buffer.append(item.name.as_str());
                self.buffer.append(";\n\n");
                proof {
                    assert(lines.take(i as int) =~= lines);
                    assert(self.buffer@ =~= old(self).buffer@ + enum_text(item@));
                }
                Outcome::Emitted
            },
            _ => vstd::pervasive::unreached(),
        }
    }

    /// Renders a struct as a `typedef struct`, under its documentation, with one line
    /// for each field. A struct without `#[repr(C)]` is skipped. One with generic
    /// parameters, or without named fields, fails and leaves nothing behind.
    pub fn parse_struct(&mut self, item: &Item) -> (res: Outcome)
        requires
            has_repr_c(item@.attrs) ==> item@.kind is Struct,
        ensures
            res == struct_outcome(item@),
            final(self)@ == old(self)@.appended(text_if_emitted(res, struct_text(item@))),
    {
        let (repr_c, docs) = inspect_repr_c(item.attrs.as_slice());
        assert(self@.buffer + Seq::<char>::empty() =~= self@.buffer);
        if !repr_c {
            return Outcome::Skipped;
        }
        match &item.kind {
            ItemKind::Struct(data) => {
                if item.generics.len() > 0 {
                    return Outcome::Failed(
                        Diagnostic { span: item.span, reason: Reason::ParameterizedStruct },
                    );
                }
                match data {
                    VariantData::Struct(fields) => {
                        self.buffer.append(docs.as_str());
                        self.buffer.append("typedef struct ");
                        self.buffer.append(item.name.as_str());
                        self.buffer.append(" {\n");
                        let ghost head = old(self).buffer@ + docs@ + "typedef struct "@
                            + item.name@ + " {\n"@;
                        let ghost lines = field_texts(fields@.map_values(|f: StructField| f@));
                        let mut i: usize = 0;
                        while i < fields.len()
                            invariant
                                i <= fields@.len(),
                                lines == field_texts(fields@.map_values(|f: StructField| f@)),
                                self.buffer@ == head + concat(lines.take(i as int)),
                                self.dir == old(self).dir,
                                self.file == old(self).file,
                            decreases fields@.len() - i,
                        {
                            let field = &fields[i];
                            let docs = inspect_docs(field.attrs.as_slice());
                            let ty = rust_to_c(field.ty.as_str());
                            self.buffer.append(docs.as_str());
                            self.buffer.append("\t");
                            self.buffer.append(ty.as_str());
                            self.buffer.append(" ");
                            self.buffer.append(field.name.as_str());
                            self.buffer.append(";\n");
                            proof {
                                assert(lines.take(i + 1).drop_last() =~= lines.take(i as int));
                                assert(self.buffer@ =~= head + concat(lines.take(i as int))
                                    + lines[i as int]);
                            }
                            i += 1;
                        }
                        self.buffer.append("} ");
                        self.buffer.append(item.name.as_str());
                        self.buffer.append(";\n\n");
                        proof {
                            assert(lines.take(i as int) =~= lines);
                            assert(self.buffer@ =~= old(self).buffer@ + struct_text(item@));
                        }
                        Outcome::Emitted
                    },
                    _ => Outcome::Failed(
                        Diagnostic { span: item.span, reason: Reason::UnitOrTupleStruct },
                    ),
                }
            },
            _ => vstd::pervasive::unreached(),
        }
    }

    /// Renders a function as a prototype, under its documentation, with its parameters
    /// in their order. A function without `#[no_mangle]`, or with a calling convention
    /// that C does not have, is skipped. One with generic parameters, or that never
    /// returns, fails and leaves nothing behind.
    pub fn parse_fn(&mut self, item: &Item) -> (res: Outcome)
        requires
            has_no_mangle(item@.attrs) ==> item@.kind is Fn,
        ensures
            res == fn_outcome(item@),
            final(self)@ == old(self)@.appended(text_if_emitted(res, fn_text(item@))),
    {
        let (no_mangle, docs) = inspect_no_mangle(item.attrs.as_slice());
        assert(self@.buffer + Seq::<char>::empty() =~= self@.buffer);
        if !no_mangle {
            return Outcome::Skipped;
        }
        match &item.kind {
            ItemKind::Fn { abi, inputs, output } => {
                if !check_c_abi(*abi) {
                    return Outcome::Skipped;
                }
                if item.generics.len() > 0 {
                    return Outcome::Failed(
                        Diagnostic { span: item.span, reason: Reason::ParameterizedFn },
                    );
                }
                let output_type = match output {
                    FunctionRetTy::NoReturn(span) => {
                        return Outcome::Failed(
                            Diagnostic { span: *span, reason: Reason::NoReturn },
                        );
                    },
                    FunctionRetTy::DefaultReturn => "void".to_owned(),
                    FunctionRetTy::Return(ty) => rust_to_c(ty.as_str()),
                };
                self.buffer.append(docs.as_str());
                self.buffer.append(output_type.as_str());
                self.buffer.append(" ");
                self.buffer.append(item.name.as_str());
                self.buffer.append("(");
                let ghost head = old(self).buffer@ + docs@ + return_text(output@) + " "@
                    + item.name@ + "("@;
                let ghost pieces = param_texts(inputs@.map_values(|a: Arg| a@));
                let mut i: usize = 0;
                while i < inputs.len()
                    invariant
                        i <= inputs@.len(),
                        pieces == param_texts(inputs@.map_values(|a: Arg| a@)),
                        self.buffer@ == head + join(pieces.take(i as int), ", "@),
                        self.dir == old(self).dir,
                        self.file == old(self).file,
                    decreases inputs@.len() - i,
                {
                    let arg = &inputs[i];
                    let arg_type = rust_to_c(arg.ty.as_str());
                    if i > 0 {
                        self.buffer.append(", ");
                    }
                    self.buffer.append(arg_type.as_str());
                    self.buffer.append(" ");
                    self.buffer.append(arg.pat.as_str());
                    proof {
                        assert(pieces.take(i + 1).drop_last() =~= pieces.take(i as int));
                        if i > 0 {
                            assert(self.buffer@ =~= head + join(pieces.take(i as int), ", "@) + ", "@
                                + pieces[i as int]);
                        } else {
                            assert(self.buffer@ =~= head + pieces[i as int]);
                        }
                    }
                    i += 1;
                }
                self.buffer.append(");\n\n");
                proof {
                    assert(pieces.take(i as int) =~= pieces);
                    assert(self.buffer@ =~= old(self).buffer@ + fn_text(item@));
                }
                Outcome::Emitted
            },
            _ => vstd::pervasive::unreached(),
        }
    }

    /// Takes one declaration. One that is not public is skipped; any other goes to the
    /// emitter for its kind, and a kind without an emitter is skipped.
    pub fn check_item(&mut self, item: &Item) -> (res: Outcome)
        ensures
            res == item_outcome(item@),
            final(self)@ == old(self)@.appended(item_text(item@)),
    {
        assert(self@.buffer + Seq::<char>::empty() =~= self@.buffer);
        match item.vis {
            Visibility::Inherited => {
                return Outcome::Skipped;
            },
            Visibility::Public => {},
        }
        match &item.kind {
            ItemKind::Ty(_) => self.parse_ty(item),
            ItemKind::Enum(_) => self.parse_enum(item),
            ItemKind::Struct(_) => self.parse_struct(item),
            ItemKind::Fn { .. } => self.parse_fn(item),
            ItemKind::Other => Outcome::Skipped,
        }
    }

    /// Takes `items` one by one, in their order, and returns what failed. A failure
    /// that is fatal ends the scan: the declarations behind it are not looked at.
    pub fn scan(&mut self, items: &[Item]) -> (res: Vec<Diagnostic>)
        ensures
            final(self)@ == old(self)@.appended(texts(scanned(item_views(items@)))),
            res@ == diagnostics(scanned(item_views(items@))),
    {
        let ghost views = item_views(items@);
        let mut res: Vec<Diagnostic> = Vec::new();
        let mut i: usize = 0;
        assert(self@.buffer + Seq::<char>::empty() =~= self@.buffer);
        while i < items.len()
            invariant
                i <= items@.len(),
                views == item_views(items@),
                forall|k: int| 0 <= k < i ==> !is_fatal(item_outcome(#[trigger] views[k])),
                self@ == old(self)@.appended(texts(views.take(i as int))),
                res@ == diagnostics(views.take(i as int)),
            decreases items@.len() - i,
        {
            let ghost seen = views.take(i as int);
            let ghost next = views.take(i + 1);
            let ghost before = self@;
            let outcome = self.check_item(&items[i]);
            proof {
                assert(next.drop_last() =~= seen);
                assert(next.map_values(|item: ItemView| item_text(item)).drop_last()
                    =~= seen.map_values(|item: ItemView| item_text(item)));
                assert(self@.buffer =~= old(self)@.buffer + texts(next));
            }
            match outcome {
                Outcome::Failed(diagnostic) => {
                    res.push(diagnostic);
                    if diagnostic.reason.is_fatal() {
                        proof {
                            lemma_first_where(views, fails_fatally(), i as int);
                        }
                        return res;
                    }
                },
                _ => {},
            }
            i += 1;
        }
        proof {
            lemma_first_where(views, fails_fatally(), i as int);
            assert(views.take(i as int) =~= views);
        }
        res
    }

    /// Ends the translation: returns the header that holds what was rendered.
    pub fn finalize(self) -> (res: Header)
        ensures
            res@ == header_of(self@.buffer, self@.dir, self@.file),
    {
        let file = match self.file {
            Some(f) => f,
            None => "cheddar.h".to_owned(),
        };
        let name = guard(file.as_str());
        let mut include_guard = "#ifndef ".to_owned();
        include_guard.append(name.as_str());
        include_guard.append("\n#define ");
        include_guard.append(name.as_str());
        include_guard.append("\n\n");
        Header {
            dir: self.dir,
            file,
            include_guard,
            cplusplus_guard: "#ifdef __cplusplus\nextern \"C\" {\n#endif\n\n".to_owned(),
            includes: "#include <stdint.h>\n#include <stdbool.h>\n\n".to_owned(),
            declarations: self.buffer,
            epilogue: "#ifdef __cplusplus\n}\n#endif\n\n#endif".to_owned(),
        }
    }
}

/// What a translation gives: the header, and what failed on the way.
#[derive(Clone, Debug)]
pub struct Translation {
    pub header: Header,
    pub diagnostics: Vec<Diagnostic>,
}

/// Translates `items`, in their order, into the header that `config` describes. A
/// failure that is fatal ends the scan; the header then holds what was rendered before
/// it.
pub fn translate(items: &[Item], config: Config) -> (res: Translation)
    ensures
        res.header@ == header_of(
            texts(scanned(item_views(items@))),
            config@.dir,
            config@.file,
        ),
        res.diagnostics@ == diagnostics(scanned(item_views(items@))),
{
    let mut pass = CheddarPass::with_config(config);
    let diagnostics = pass.scan(items);
    assert(Seq::<char>::empty() + texts(scanned(item_views(items@))) =~= texts(
        scanned(item_views(items@)),
    ));
    Translation { header: pass.finalize(), diagnostics }
}

} // verus!
