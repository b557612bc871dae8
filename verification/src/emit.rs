//! From a constructor expression to the tokens that spell it.
//!
//! Every path of the syntax tree is spelled in full, from `glsl::syntax` down, so that the
//! tokens mean the same wherever they are spliced in. Text that is copied is spelled as a
//! string literal. A name that the host is to resolve is spelled as an identifier, which is why
//! only an expression whose names are identifiers can be spelled. A floating-point number is
//! spelled as the call that rebuilds it from its bit pattern, which keeps every bit of it. A
//! negative integer is spelled as a minus sign in front of a literal, and the least one, whose
//! magnitude no literal of its type can hold, by its name.

use crate::code::{
    Code, SpecCode, all_spellable, codes_view, fields_spellable, fields_view, spellable,
};
use crate::names::{Field, Record, Variant};
use crate::tokens::{
    Delimiter, Spacing, Token, push_group, push_i32, push_ident, push_punct, push_str, push_u16,
    push_u32, push_u64, stream_new, stream_tokens,
};
use vstd::prelude::*;

verus! {

/// The comma between two elements.
pub open spec fn comma() -> Token {
    Token::Punct(',', Spacing::Alone)
}

/// The colon between the name of a field and its value.
pub open spec fn colon() -> Token {
    Token::Punct(':', Spacing::Alone)
}

/// The two tokens of `::`.
pub open spec fn path_separator() -> Seq<Token> {
    seq![Token::Punct(':', Spacing::Joint), Token::Punct(':', Spacing::Alone)]
}

/// The tokens of the path `a::b`.
pub open spec fn path2(a: Seq<char>, b: Seq<char>) -> Seq<Token> {
    seq![Token::Ident(a)] + path_separator() + seq![Token::Ident(b)]
}

/// The tokens of the path of a struct of the syntax tree: `glsl::syntax::Name`.
pub open spec fn record_path(record: Record) -> Seq<Token> {
    path2("glsl"@, "syntax"@) + path_separator() + seq![Token::Ident(record.name())]
}

/// The tokens of the path of a variant of the syntax tree: `glsl::syntax::Owner::Name`.
pub open spec fn variant_path(variant: Variant) -> Seq<Token> {
    path2("glsl"@, "syntax"@) + path_separator() + seq![Token::Ident(variant.owner())]
        + path_separator() + seq![Token::Ident(variant.name())]
}

/// The parts of a list joined by commas: none before the first part and none after the last.
pub open spec fn separated(parts: Seq<Seq<Token>>) -> Seq<Token>
    decreases parts.len(),
{
    if parts.len() == 0 {
        Seq::empty()
    } else if parts.len() == 1 {
        parts[0]
    } else {
        separated(parts.drop_last()) + seq![comma()] + parts.last()
    }
}

/// The tokens that spell a constructor expression.
pub open spec fn code_tokens(code: SpecCode) -> Seq<Token>
    decreases code,
{
    match code {
        SpecCode::Unit(variant) => variant_path(variant),
        SpecCode::Call(variant, args) => variant_path(variant).push(
            Token::Group(Delimiter::Parenthesis, separated(codes_tokens(args))),
        ),
        SpecCode::Record(record, fields) => record_path(record).push(
            Token::Group(Delimiter::Brace, separated(fields_tokens(fields))),
        ),
        SpecCode::List(items) => seq![
            Token::Ident("vec"@),
            Token::Punct('!', Spacing::Alone),
            Token::Group(Delimiter::Bracket, separated(codes_tokens(items))),
        ],
        SpecCode::Pair(a, b) => seq![
            Token::Group(
                Delimiter::Parenthesis,
                code_tokens(*a) + seq![comma()] + code_tokens(*b),
            ),
        ],
        SpecCode::Present(value) => seq![
            Token::Ident("Some"@),
            Token::Group(Delimiter::Parenthesis, code_tokens(*value)),
        ],
        SpecCode::Absent => seq![Token::Ident("None"@)],
        SpecCode::Boxed(value) => path2("Box"@, "new"@).push(
            Token::Group(Delimiter::Parenthesis, code_tokens(*value)),
        ),
        SpecCode::Owned(text) => path2("String"@, "from"@).push(
            Token::Group(Delimiter::Parenthesis, seq![Token::Str(text)]),
        ),
        SpecCode::Name(text) => seq![Token::Ident(text)],
        SpecCode::Int(x) => int_tokens(x),
        SpecCode::UInt(x) => seq![Token::U32(x)],
        SpecCode::Short(x) => seq![Token::U16(x)],
        SpecCode::Bool(x) => seq![
            Token::Ident(
                if x {
                    "true"@
                } else {
                    "false"@
                },
            ),
        ],
        SpecCode::Float(bits) => path2("f32"@, "from_bits"@).push(
            Token::Group(Delimiter::Parenthesis, seq![Token::U32(bits)]),
        ),
        SpecCode::Double(bits) => path2("f64"@, "from_bits"@).push(
            Token::Group(Delimiter::Parenthesis, seq![Token::U64(bits)]),
        ),
    }
}

/// The tokens that spell a signed integer: its literal, or a minus sign and the literal of its
/// magnitude, or `i32::MIN`.
pub open spec fn int_tokens(x: i32) -> Seq<Token> {
    if x >= 0 {
        seq![Token::I32(x)]
    } else if x > i32::MIN {
        seq![Token::Punct('-', Spacing::Alone), Token::I32((-x) as i32)]
    } else {
        path2("i32"@, "MIN"@)
    }
}

/// The tokens of each of a sequence of constructor expressions, in the same order.
pub open spec fn codes_tokens(items: Seq<SpecCode>) -> Seq<Seq<Token>>
    decreases items,
{
    Seq::new(
        items.len(),
        |i: int|
            if 0 <= i < items.len() {
                code_tokens(items[i])
            } else {
                arbitrary()
            },
    )
}

/// The tokens of each field of a struct literal, in the same order: the name of the field, a
/// colon, and the tokens of its value.
pub open spec fn fields_tokens(fields: Seq<(Field, SpecCode)>) -> Seq<Seq<Token>>
    decreases fields,
{
    Seq::new(
        fields.len(),
        |i: int|
            if 0 <= i < fields.len() {
                seq![Token::Ident(fields[i].0.name()), colon()] + code_tokens(fields[i].1)
            } else {
                arbitrary()
            },
    )
}

/// Joining one part more: the comma comes before every part but the first.
pub proof fn lemma_separated_step(parts: Seq<Seq<Token>>, i: int)
    requires
        0 <= i < parts.len(),
    ensures
        separated(parts.take(i + 1)) == if i == 0 {
            parts[0]
        } else {
            separated(parts.take(i)) + seq![comma()] + parts[i]
        },
{
    let longer = parts.take(i + 1);
    assert(longer.last() == parts[i]);
    assert(longer.drop_last() =~= parts.take(i));
}

/// Appends `::`.
fn emit_path_separator(stream: &mut proc_macro2::TokenStream)
    ensures
        stream_tokens(*final(stream)) == stream_tokens(*old(stream)) + path_separator(),
{
    push_punct(stream, ':', Spacing::Joint);
    push_punct(stream, ':', Spacing::Alone);
    assert(stream_tokens(*stream) =~= stream_tokens(*old(stream)) + path_separator());
}

/// Appends the path `a::b`.
fn emit_path2(stream: &mut proc_macro2::TokenStream, a: &str, b: &str)
    requires
        crate::tokens::is_ident(a@),
        crate::tokens::is_ident(b@),
    ensures
        stream_tokens(*final(stream)) == stream_tokens(*old(stream)) + path2(a@, b@),
{
    push_ident(stream, a);
    emit_path_separator(stream);
    push_ident(stream, b);
    assert(stream_tokens(*stream) =~= stream_tokens(*old(stream)) + path2(a@, b@));
}

/// Appends `glsl::syntax`.
fn emit_syntax_path(stream: &mut proc_macro2::TokenStream)
    ensures
        stream_tokens(*final(stream)) == stream_tokens(*old(stream)) + path2("glsl"@, "syntax"@),
{
    proof {
        reveal_strlit("glsl");
        reveal_strlit("syntax");
    }
    emit_path2(stream, "glsl", "syntax");
}

/// Appends the path of a struct of the syntax tree.
fn emit_record_path(record: Record, stream: &mut proc_macro2::TokenStream)
    ensures
        stream_tokens(*final(stream)) == stream_tokens(*old(stream)) + record_path(record),
{
    emit_syntax_path(stream);
    emit_path_separator(stream);
    push_ident(stream, record.name_str());
    assert(stream_tokens(*stream) =~= stream_tokens(*old(stream)) + record_path(record));
}

/// Appends the path of a variant of the syntax tree.
fn emit_variant_path(variant: Variant, stream: &mut proc_macro2::TokenStream)
    ensures
        stream_tokens(*final(stream)) == stream_tokens(*old(stream)) + variant_path(variant),
{
    emit_syntax_path(stream);
    emit_path_separator(stream);
    push_ident(stream, variant.owner_str());
    emit_path_separator(stream);
    push_ident(stream, variant.name_str());
    assert(stream_tokens(*stream) =~= stream_tokens(*old(stream)) + variant_path(variant));
}

/// Appends a group that holds one literal.
fn emit_call_of_u32(stream: &mut proc_macro2::TokenStream, x: u32)
    ensures
        stream_tokens(*final(stream)) == stream_tokens(*old(stream)).push(
            Token::Group(Delimiter::Parenthesis, seq![Token::U32(x)]),
        ),
{
    let mut inner = stream_new();
    push_u32(&mut inner, x);
    assert(stream_tokens(inner) =~= seq![Token::U32(x)]);
    push_group(stream, Delimiter::Parenthesis, inner);
}

/// Appends a group that holds one literal.
fn emit_call_of_u64(stream: &mut proc_macro2::TokenStream, x: u64)
    ensures
        stream_tokens(*final(stream)) == stream_tokens(*old(stream)).push(
            Token::Group(Delimiter::Parenthesis, seq![Token::U64(x)]),
        ),
{
    let mut inner = stream_new();
    push_u64(&mut inner, x);
    assert(stream_tokens(inner) =~= seq![Token::U64(x)]);
    push_group(stream, Delimiter::Parenthesis, inner);
}

/// Appends the tokens that spell a constructor expression to a stream.
pub fn emit(code: &Code, stream: &mut proc_macro2::TokenStream)
    requires
        spellable(code@),
    ensures
        stream_tokens(*final(stream)) == stream_tokens(*old(stream)) + code_tokens(code@),
    decreases code,
{
    let ghost before = stream_tokens(*stream);
    match code {
        Code::Unit(variant) => {
            emit_variant_path(*variant, stream);
        },
        Code::Call(variant, args) => {
            emit_variant_path(*variant, stream);
            let mut inner = stream_new();
            emit_list(args, &mut inner);
            assert(stream_tokens(inner) =~= separated(codes_tokens(codes_view(*args))));
            push_group(stream, Delimiter::Parenthesis, inner);
            assert(stream_tokens(*stream) =~= before + code_tokens(code@));
        },
        Code::Record(record, fields) => {
            emit_record_path(*record, stream);
            let mut inner = stream_new();
            emit_fields(fields, &mut inner);
            assert(stream_tokens(inner) =~= separated(fields_tokens(fields_view(*fields))));
            push_group(stream, Delimiter::Brace, inner);
            assert(stream_tokens(*stream) =~= before + code_tokens(code@));
        },
        Code::List(items) => {
            proof {
                reveal_strlit("vec");
            }
            push_ident(stream, "vec");
            push_punct(stream, '!', Spacing::Alone);
            let mut inner = stream_new();
            emit_list(items, &mut inner);
            assert(stream_tokens(inner) =~= separated(codes_tokens(codes_view(*items))));
            push_group(stream, Delimiter::Bracket, inner);
            assert(stream_tokens(*stream) =~= before + code_tokens(code@));
        },
        Code::Pair(a, b) => {
            let mut inner = stream_new();
            emit(a, &mut inner);
            push_punct(&mut inner, ',', Spacing::Alone);
            emit(b, &mut inner);
            assert(stream_tokens(inner) =~= code_tokens(a@) + seq![comma()] + code_tokens(b@));
            push_group(stream, Delimiter::Parenthesis, inner);
            assert(stream_tokens(*stream) =~= before + code_tokens(code@));
        },
        Code::Present(value) => {
            proof {
                reveal_strlit("Some");
            }
            push_ident(stream, "Some");
            let mut inner = stream_new();
            emit(value, &mut inner);
            assert(stream_tokens(inner) =~= code_tokens(value@));
            push_group(stream, Delimiter::Parenthesis, inner);
            assert(stream_tokens(*stream) =~= before + code_tokens(code@));
        },
        Code::Absent => {
            proof {
                reveal_strlit("None");
            }
            push_ident(stream, "None");
            assert(stream_tokens(*stream) =~= before + code_tokens(code@));
        },
        Code::Boxed(value) => {
            proof {
                reveal_strlit("Box");
                reveal_strlit("new");
            }
            emit_path2(stream, "Box", "new");
            let mut inner = stream_new();
            emit(value, &mut inner);
            assert(stream_tokens(inner) =~= code_tokens(value@));
            push_group(stream, Delimiter::Parenthesis, inner);
            assert(stream_tokens(*stream) =~= before + code_tokens(code@));
        },
        Code::Owned(text) => {
            proof {
                reveal_strlit("String");
                reveal_strlit("from");
            }
            emit_path2(stream, "String", "from");
            let mut inner = stream_new();
            push_str(&mut inner, text.as_str());
            assert(stream_tokens(inner) =~= seq![Token::Str(text@)]);
            push_group(stream, Delimiter::Parenthesis, inner);
            assert(stream_tokens(*stream) =~= before + code_tokens(code@));
        },
        Code::Name(text) => {
            push_ident(stream, text.as_str());
            assert(stream_tokens(*stream) =~= before + code_tokens(code@));
        },
        Code::Int(x) => {
            if *x >= 0 {
                push_i32(stream, *x);
            } else if *x > i32::MIN {
                push_punct(stream, '-', Spacing::Alone);
                push_i32(stream, -*x);
            } else {
                proof {
                    reveal_strlit("i32");
                    reveal_strlit("MIN");
                }
                emit_path2(stream, "i32", "MIN");
            }
            assert(stream_tokens(*stream) =~= before + code_tokens(code@));
        },
        Code::UInt(x) => {
            push_u32(stream, *x);
            assert(stream_tokens(*stream) =~= before + code_tokens(code@));
        },
        Code::Short(x) => {
            push_u16(stream, *x);
            assert(stream_tokens(*stream) =~= before + code_tokens(code@));
        },
        Code::Bool(x) => {
            proof {
                reveal_strlit("true");
                reveal_strlit("false");
            }
            if *x {
                push_ident(stream, "true");
            } else {
                push_ident(stream, "false");
            }
            assert(stream_tokens(*stream) =~= before + code_tokens(code@));
        },
        Code::Float(bits) => {
            proof {
                reveal_strlit("f32");
                reveal_strlit("from_bits");
            }
            emit_path2(stream, "f32", "from_bits");
            emit_call_of_u32(stream, *bits);
            assert(stream_tokens(*stream) =~= before + code_tokens(code@));
        },
        Code::Double(bits) => {
            proof {
                reveal_strlit("f64");
                reveal_strlit("from_bits");
            }
            emit_path2(stream, "f64", "from_bits");
            emit_call_of_u64(stream, *bits);
            assert(stream_tokens(*stream) =~= before + code_tokens(code@));
        },
    }
}

/// Appends the tokens of a sequence of constructor expressions, with a comma between each two
/// of them.
pub fn emit_list(items: &Vec<Code>, stream: &mut proc_macro2::TokenStream)
    requires
        all_spellable(codes_view(*items)),
    ensures
        stream_tokens(*final(stream)) == stream_tokens(*old(stream)) + separated(
            codes_tokens(codes_view(*items)),
        ),
    decreases items,
{
    let ghost before = stream_tokens(*stream);
    let ghost parts = codes_tokens(codes_view(*items));
    let mut i: usize = 0;
    assert(parts.take(0) =~= Seq::<Seq<Token>>::empty());
    assert(stream_tokens(*stream) =~= before + separated(parts.take(0)));
    while i < items.len()
        invariant
            i <= items.len(),
            all_spellable(codes_view(*items)),
            parts == codes_tokens(codes_view(*items)),
            parts.len() == items.len(),
            stream_tokens(*stream) == before + separated(parts.take(i as int)),
        decreases items.len() - i,
    {
        if i > 0 {
            push_punct(stream, ',', Spacing::Alone);
        }
        assert(spellable(codes_view(*items)[i as int]));
        emit(&items[i], stream);
        proof {
            lemma_separated_step(parts, i as int);
            assert(parts[i as int] == code_tokens(items@[i as int]@));
            assert(stream_tokens(*stream) =~= before + separated(parts.take(i + 1)));
        }
        i += 1;
    }
    assert(parts.take(items.len() as int) =~= parts);
}

/// Appends the tokens of the fields of a struct literal, with a comma between each two of them.
pub fn emit_fields(fields: &Vec<(Field, Code)>, stream: &mut proc_macro2::TokenStream)
    requires
        fields_spellable(fields_view(*fields)),
    ensures
        stream_tokens(*final(stream)) == stream_tokens(*old(stream)) + separated(
            fields_tokens(fields_view(*fields)),
        ),
    decreases fields,
{
    let ghost before = stream_tokens(*stream);
    let ghost parts = fields_tokens(fields_view(*fields));
    let mut i: usize = 0;
    assert(parts.take(0) =~= Seq::<Seq<Token>>::empty());
    assert(stream_tokens(*stream) =~= before + separated(parts.take(0)));
    while i < fields.len()
        invariant
            i <= fields.len(),
            fields_spellable(fields_view(*fields)),
            parts == fields_tokens(fields_view(*fields)),
            parts.len() == fields.len(),
            stream_tokens(*stream) == before + separated(parts.take(i as int)),
        decreases fields.len() - i,
    {
        if i > 0 {
            push_punct(stream, ',', Spacing::Alone);
        }
        push_ident(stream, fields[i].0.name_str());
        push_punct(stream, ':', Spacing::Alone);
        assert(spellable(fields_view(*fields)[i as int].1));
        emit(&fields[i].1, stream);
        proof {
            lemma_separated_step(parts, i as int);
            assert(parts[i as int] == seq![Token::Ident(fields@[i as int].0.name()), colon()]
                + code_tokens(fields@[i as int].1@));
            assert(stream_tokens(*stream) =~= before + separated(parts.take(i + 1)));
        }
        i += 1;
    }
    assert(parts.take(fields.len() as int) =~= parts);
}

impl Code {
    /// The token stream that spells the constructor expression.
    pub fn to_token_stream(&self) -> (stream: proc_macro2::TokenStream)
        requires
            spellable(self@),
        ensures
            stream_tokens(stream) == code_tokens(self@),
    {
        let mut stream = stream_new();
        emit(self, &mut stream);
        assert(stream_tokens(stream) =~= code_tokens(self@));
        stream
    }
}

} // verus!
