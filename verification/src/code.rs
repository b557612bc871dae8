//! Constructor expressions.
//!
//! A constructor expression is code in the host language that, once evaluated, yields a node
//! of the syntax tree. It mirrors the shape of the node it stands for: a leaf is a literal, an
//! inner node names a variant or a struct and holds one expression for each field. It owns all
//! the text it carries.

use crate::names::{Field, Record, Variant};
use crate::tokens::{is_ident, is_identifier};
use vstd::prelude::*;

verus! {

/// A constructor expression.
#[derive(Debug, PartialEq, Eq)]
pub enum Code {
    /// A variant without fields: its path.
    Unit(Variant),
    /// A variant with fields: its path applied to one expression for each field, in order.
    Call(Variant, Vec<Code>),
    /// A struct literal: the struct's path and each field by name, in order.
    Record(Record, Vec<(Field, Code)>),
    /// A vector of the given elements, in order.
    List(Vec<Code>),
    /// A pair.
    Pair(Box<Code>, Box<Code>),
    /// A value that is present.
    Present(Box<Code>),
    /// A value that is absent.
    Absent,
    /// A fresh allocation that holds the given value.
    Boxed(Box<Code>),
    /// An owned copy of the given text.
    Owned(String),
    /// The given text as an identifier: a name that the host resolves where the code is spliced
    /// in. It can be spelled where the text is an identifier of the host.
    Name(String),
    /// A signed 32-bit literal.
    Int(i32),
    /// An unsigned 32-bit literal.
    UInt(u32),
    /// An unsigned 16-bit literal.
    Short(u16),
    /// A boolean literal.
    Bool(bool),
    /// The single-precision number with the given IEEE 754 bit pattern.
    Float(u32),
    /// The double-precision number with the given IEEE 754 bit pattern.
    Double(u64),
}

/// The model of [`Code`].
pub enum SpecCode {
    Unit(Variant),
    Call(Variant, Seq<SpecCode>),
    Record(Record, Seq<(Field, SpecCode)>),
    List(Seq<SpecCode>),
    Pair(Box<SpecCode>, Box<SpecCode>),
    Present(Box<SpecCode>),
    Absent,
    Boxed(Box<SpecCode>),
    Owned(Seq<char>),
    Name(Seq<char>),
    Int(i32),
    UInt(u32),
    Short(u16),
    Bool(bool),
    Float(u32),
    Double(u64),
}

/// The model of a constructor expression.
pub open spec fn code_view(code: Code) -> SpecCode
    decreases code,
{
    match code {
        Code::Unit(variant) => SpecCode::Unit(variant),
        Code::Call(variant, args) => SpecCode::Call(variant, codes_view(args)),
        Code::Record(record, fields) => SpecCode::Record(record, fields_view(fields)),
        Code::List(items) => SpecCode::List(codes_view(items)),
        Code::Pair(a, b) => SpecCode::Pair(Box::new(code_view(*a)), Box::new(code_view(*b))),
        Code::Present(value) => SpecCode::Present(Box::new(code_view(*value))),
        Code::Absent => SpecCode::Absent,
        Code::Boxed(value) => SpecCode::Boxed(Box::new(code_view(*value))),
        Code::Owned(text) => SpecCode::Owned(text@),
        Code::Name(text) => SpecCode::Name(text@),
        Code::Int(x) => SpecCode::Int(x),
        Code::UInt(x) => SpecCode::UInt(x),
        Code::Short(x) => SpecCode::Short(x),
        Code::Bool(x) => SpecCode::Bool(x),
        Code::Float(bits) => SpecCode::Float(bits),
        Code::Double(bits) => SpecCode::Double(bits),
    }
}

/// The models of a vector of constructor expressions, in the order of the vector.
pub open spec fn codes_view(v: Vec<Code>) -> Seq<SpecCode>
    decreases v,
{
    Seq::new(
        v@.len(),
        |i: int|
            if 0 <= i < v@.len() {
                code_view(v@[i])
            } else {
                arbitrary()
            },
    )
}

/// The models of the fields of a struct literal, in the order of the vector.
pub open spec fn fields_view(v: Vec<(Field, Code)>) -> Seq<(Field, SpecCode)>
    decreases v,
{
    Seq::new(
        v@.len(),
        |i: int|
            if 0 <= i < v@.len() {
                (v@[i].0, code_view(v@[i].1))
            } else {
                arbitrary()
            },
    )
}

impl View for Code {
    type V = SpecCode;

    open spec fn view(&self) -> SpecCode {
        code_view(*self)
    }
}

impl SpecCode {
    /// The code that allocates a fresh indirection around `value`.
    pub open spec fn boxed(value: SpecCode) -> SpecCode {
        SpecCode::Boxed(Box::new(value))
    }

    /// The code of a value that may be absent: the absent form where there is none, the
    /// present form around the code of the value where there is one.
    pub open spec fn optional(value: Option<SpecCode>) -> SpecCode {
        match value {
            Some(code) => SpecCode::Present(Box::new(code)),
            None => SpecCode::Absent,
        }
    }
}

/// Whether a constructor expression can be spelled in the host language: every name in it is
/// an identifier.
pub open spec fn spellable(code: SpecCode) -> bool
    decreases code,
{
    match code {
        SpecCode::Call(_, args) => all_spellable(args),
        SpecCode::Record(_, fields) => fields_spellable(fields),
        SpecCode::List(items) => all_spellable(items),
        SpecCode::Pair(a, b) => spellable(*a) && spellable(*b),
        SpecCode::Present(value) => spellable(*value),
        SpecCode::Boxed(value) => spellable(*value),
        SpecCode::Name(text) => is_ident(text),
        _ => true,
    }
}

/// Whether each of a sequence of constructor expressions can be spelled.
pub open spec fn all_spellable(items: Seq<SpecCode>) -> bool
    decreases items,
{
    forall|i: int| 0 <= i < items.len() ==> spellable(#[trigger] items[i])
}

/// Whether the value of each field of a struct literal can be spelled.
pub open spec fn fields_spellable(fields: Seq<(Field, SpecCode)>) -> bool
    decreases fields,
{
    forall|i: int| 0 <= i < fields.len() ==> spellable((#[trigger] fields[i]).1)
}

/// The constructor expression of an owned text that may be absent.
pub open spec fn optional_owned_code(o: Option<Seq<char>>) -> SpecCode {
    SpecCode::optional(
        match o {
            Some(x) => Some(SpecCode::Owned(x)),
            None => None,
        },
    )
}

impl Code {
    /// Tells whether the constructor expression can be spelled in the host language.
    pub fn is_spellable(&self) -> (b: bool)
        ensures
            b == spellable(self@),
        decreases self,
    {
        match self {
            Code::Call(_, args) => all_are_spellable(args),
            Code::Record(_, fields) => fields_are_spellable(fields),
            Code::List(items) => all_are_spellable(items),
            Code::Pair(a, b) => a.is_spellable() && b.is_spellable(),
            Code::Present(value) => value.is_spellable(),
            Code::Boxed(value) => value.is_spellable(),
            Code::Name(text) => is_identifier(text.as_str()),
            _ => true,
        }
    }

    /// A variant applied to one field.
    pub fn call1(variant: Variant, a: Code) -> (code: Code)
        ensures
            code@ == SpecCode::Call(variant, seq![a@]),
    {
        let mut args: Vec<Code> = Vec::new();
        args.push(a);
        assert(codes_view(args) =~= seq![a@]);
        Code::Call(variant, args)
    }

    /// A variant applied to two fields.
    pub fn call2(variant: Variant, a: Code, b: Code) -> (code: Code)
        ensures
            code@ == SpecCode::Call(variant, seq![a@, b@]),
    {
        let mut args: Vec<Code> = Vec::new();
        args.push(a);
        args.push(b);
        assert(codes_view(args) =~= seq![a@, b@]);
        Code::Call(variant, args)
    }

    /// A variant applied to three fields.
    pub fn call3(variant: Variant, a: Code, b: Code, c: Code) -> (code: Code)
        ensures
            code@ == SpecCode::Call(variant, seq![a@, b@, c@]),
    {
        let mut args: Vec<Code> = Vec::new();
        args.push(a);
        args.push(b);
        args.push(c);
        assert(codes_view(args) =~= seq![a@, b@, c@]);
        Code::Call(variant, args)
    }

    /// A struct literal, from its fields in order.
    pub fn record(record: Record, fields: Vec<(Field, Code)>) -> (code: Code)
        ensures
            code@ == SpecCode::Record(record, fields_view(fields)),
    {
        Code::Record(record, fields)
    }
}

/// Tells whether each of a vector of constructor expressions can be spelled.
pub fn all_are_spellable(items: &Vec<Code>) -> (b: bool)
    ensures
        b == all_spellable(codes_view(*items)),
    decreases items,
{
    let mut i: usize = 0;
    while i < items.len()
        invariant
            i <= items.len(),
            forall|j: int| 0 <= j < i ==> spellable(#[trigger] codes_view(*items)[j]),
        decreases items.len() - i,
    {
        if !items[i].is_spellable() {
            assert(!spellable(codes_view(*items)[i as int]));
            return false;
        }
        i += 1;
    }
    true
}

/// Tells whether the value of each field of a struct literal can be spelled.
pub fn fields_are_spellable(fields: &Vec<(Field, Code)>) -> (b: bool)
    ensures
        b == fields_spellable(fields_view(*fields)),
    decreases fields,
{
    let mut i: usize = 0;
    while i < fields.len()
        invariant
            i <= fields.len(),
            forall|j: int| 0 <= j < i ==> spellable((#[trigger] fields_view(*fields)[j]).1),
        decreases fields.len() - i,
    {
        if !fields[i].1.is_spellable() {
            assert(!spellable(fields_view(*fields)[i as int].1));
            return false;
        }
        i += 1;
    }
    true
}

/// The fields of a struct literal with one field.
pub fn fields1(f0: Field, a: Code) -> (fields: Vec<(Field, Code)>)
    ensures
        fields_view(fields) == seq![(f0, a@)],
{
    let mut fields: Vec<(Field, Code)> = Vec::new();
    fields.push((f0, a));
    assert(fields_view(fields) =~= seq![(f0, a@)]);
    fields
}

/// The fields of a struct literal with two fields.
pub fn fields2(f0: Field, a: Code, f1: Field, b: Code) -> (fields: Vec<(Field, Code)>)
    ensures
        fields_view(fields) == seq![(f0, a@), (f1, b@)],
{
    let mut fields: Vec<(Field, Code)> = Vec::new();
    fields.push((f0, a));
    fields.push((f1, b));
    assert(fields_view(fields) =~= seq![(f0, a@), (f1, b@)]);
    fields
}

/// The fields of a struct literal with three fields.
pub fn fields3(f0: Field, a: Code, f1: Field, b: Code, f2: Field, c: Code) -> (fields: Vec<
    (Field, Code),
>)
    ensures
        fields_view(fields) == seq![(f0, a@), (f1, b@), (f2, c@)],
{
    let mut fields: Vec<(Field, Code)> = Vec::new();
    fields.push((f0, a));
    fields.push((f1, b));
    fields.push((f2, c));
    assert(fields_view(fields) =~= seq![(f0, a@), (f1, b@), (f2, c@)]);
    fields
}

/// The fields of a struct literal with four fields.
pub fn fields4(
    f0: Field,
    a: Code,
    f1: Field,
    b: Code,
    f2: Field,
    c: Code,
    f3: Field,
    d: Code,
) -> (fields: Vec<(Field, Code)>)
    ensures
        fields_view(fields) == seq![(f0, a@), (f1, b@), (f2, c@), (f3, d@)],
{
    let mut fields: Vec<(Field, Code)> = Vec::new();
    fields.push((f0, a));
    fields.push((f1, b));
    fields.push((f2, c));
    fields.push((f3, d));
    assert(fields_view(fields) =~= seq![(f0, a@), (f1, b@), (f2, c@), (f3, d@)]);
    fields
}

} // verus!
