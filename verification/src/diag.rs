//! What is reported of a declaration that cannot be rendered.

use vstd::prelude::*;
use crate::ast::Span;

verus! {

/// Why a declaration that asks to be exported cannot be rendered in C.
#[derive(Clone, Copy, Debug, PartialEq, Eq, Structural)]
pub enum Reason {
    /// A `#[repr(C)]` enum has generic parameters.
    ParameterizedEnum,
    /// A variant of a `#[repr(C)]` enum carries data.
    NonUnitVariant,
    /// A `#[repr(C)]` struct has generic parameters.
    ParameterizedStruct,
    /// A `#[repr(C)]` struct has no named fields.
    UnitOrTupleStruct,
    /// An exported function has generic parameters.
    ParameterizedFn,
    /// An exported function never returns.
    NoReturn,
}

impl Reason {
    /// Whether the failure ends the whole translation, not only that of one declaration.
    pub open spec fn fatal(self) -> bool {
        self is NoReturn
    }

    /// The words of the report.
    pub open spec fn message_text(self) -> Seq<char> {
        match self {
            Reason::ParameterizedEnum => "cheddar can not handle parameterized `#[repr(C)]` enums"@,
            Reason::NonUnitVariant => "cheddar can not handle `#[repr(C)]` enums with non-unit variants"@,
            Reason::ParameterizedStruct => "cheddar can not handle parameterized `#[repr(C)]` structs"@,
            Reason::UnitOrTupleStruct => "cheddar can not handle unit or tuple `#[repr(C)]` structs"@,
            Reason::ParameterizedFn => "cheddar can not handle parameterized extern functions"@,
            Reason::NoReturn => "panics across a C boundary are naughty!"@,
        }
    }

    /// Tells whether the failure ends the whole translation.
    pub fn is_fatal(&self) -> (res: bool)
        ensures
            res == self.fatal(),
    {
        match self {
            Reason::NoReturn => true,
            _ => false,
        }
    }

    /// Returns the words of the report.
    pub fn message(&self) -> (res: String)
        ensures
            res@ == self.message_text(),
    {
        match self {
            Reason::ParameterizedEnum => "cheddar can not handle parameterized `#[repr(C)]` enums".to_owned(),
            Reason::NonUnitVariant => "cheddar can not handle `#[repr(C)]` enums with non-unit variants".to_owned(),
            Reason::ParameterizedStruct => "cheddar can not handle parameterized `#[repr(C)]` structs".to_owned(),
            Reason::UnitOrTupleStruct => "cheddar can not handle unit or tuple `#[repr(C)]` structs".to_owned(),
            Reason::ParameterizedFn => "cheddar can not handle parameterized extern functions".to_owned(),
            Reason::NoReturn => "panics across a C boundary are naughty!".to_owned(),
        }
    }
}

/// A failure, with the place in the source that it is about.
#[derive(Clone, Copy, Debug, PartialEq, Eq, Structural)]
pub struct Diagnostic {
    pub span: Span,
    pub reason: Reason,
}

/// What became of one declaration.
#[derive(Clone, Copy, Debug, PartialEq, Eq, Structural)]
pub enum Outcome {
    /// It was rendered into the header.
    Emitted,
    /// It is no part of the C interface; nothing was rendered and nothing is reported.
    Skipped,
    /// It asks to be exported and cannot be; nothing was rendered.
    Failed(Diagnostic),
}

} // verus!
