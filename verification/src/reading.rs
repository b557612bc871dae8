//! No two constructor expressions are spelled alike, as long as no name in them is one of the
//! words `None`, `true` and `false`, by which the host spells values of its own.
//!
//! The tokens of a constructor expression tell which expression it is: the first token and the
//! number of tokens tell its form, the names in its path tell what it builds, and the groups
//! hold its parts, which the commas between them keep apart. Together with the evaluation of
//! constructor expressions this means that the tokens which the library hands to the host
//! determine the syntax tree that they were made from.

use crate::code::SpecCode;
use crate::emit::{
    code_tokens, codes_tokens, colon, comma, fields_tokens, path2, record_path, separated,
    variant_path,
};
use crate::model::SpecTranslationUnit;
use crate::names::{
    Field, Record, Variant, lemma_field_spelling, lemma_record_spelling, lemma_variant_spelling,
};
use crate::tokenizer::unit::translation_unit_code;
use crate::tokens::{Delimiter, Spacing, Token};
use vstd::prelude::*;

verus! {

/// Whether a text is one of the words by which the host spells a value that a constructor
/// expression also spells by itself.
pub open spec fn is_host_word(text: Seq<char>) -> bool {
    text == "None"@ || text == "true"@ || text == "false"@
}

/// Whether no name in a constructor expression is a word of the host.
pub open spec fn unambiguous(code: SpecCode) -> bool
    decreases code,
{
    match code {
        SpecCode::Call(_, args) => all_unambiguous(args),
        SpecCode::Record(_, fields) => fields_unambiguous(fields),
        SpecCode::List(items) => all_unambiguous(items),
        SpecCode::Pair(a, b) => unambiguous(*a) && unambiguous(*b),
        SpecCode::Present(value) => unambiguous(*value),
        SpecCode::Boxed(value) => unambiguous(*value),
        SpecCode::Name(text) => !is_host_word(text),
        _ => true,
    }
}

/// Whether no name in any of a sequence of constructor expressions is a word of the host.
pub open spec fn all_unambiguous(items: Seq<SpecCode>) -> bool
    decreases items,
{
    forall|i: int| 0 <= i < items.len() ==> unambiguous(#[trigger] items[i])
}

/// Whether no name in the value of any field of a struct literal is a word of the host.
pub open spec fn fields_unambiguous(fields: Seq<(Field, SpecCode)>) -> bool
    decreases fields,
{
    forall|i: int| 0 <= i < fields.len() ==> unambiguous((#[trigger] fields[i]).1)
}

/// Whether a run of tokens can stand between two commas: it is not empty and holds no comma
/// of its own outside of its groups.
pub open spec fn is_part(tokens: Seq<Token>) -> bool {
    &&& tokens.len() > 0
    &&& forall|i: int| 0 <= i < tokens.len() ==> #[trigger] tokens[i] != comma()
}

/// Whether each of several runs of tokens can stand between two commas.
pub open spec fn are_parts(parts: Seq<Seq<Token>>) -> bool {
    forall|i: int| 0 <= i < parts.len() ==> is_part(#[trigger] parts[i])
}

/// The shape of the path `a::b`.
pub proof fn lemma_path2_shape(a: Seq<char>, b: Seq<char>)
    ensures
        path2(a, b) == seq![
            Token::Ident(a),
            Token::Punct(':', Spacing::Joint),
            Token::Punct(':', Spacing::Alone),
            Token::Ident(b),
        ],
{
    assert(path2(a, b) =~= seq![
        Token::Ident(a),
        Token::Punct(':', Spacing::Joint),
        Token::Punct(':', Spacing::Alone),
        Token::Ident(b),
    ]);
}

/// The shape of the path of a struct.
pub proof fn lemma_record_path_shape(record: Record)
    ensures
        record_path(record) == seq![
            Token::Ident("glsl"@),
            Token::Punct(':', Spacing::Joint),
            Token::Punct(':', Spacing::Alone),
            Token::Ident("syntax"@),
            Token::Punct(':', Spacing::Joint),
            Token::Punct(':', Spacing::Alone),
            Token::Ident(record.name()),
        ],
{
    assert(record_path(record) =~= seq![
        Token::Ident("glsl"@),
        Token::Punct(':', Spacing::Joint),
        Token::Punct(':', Spacing::Alone),
        Token::Ident("syntax"@),
        Token::Punct(':', Spacing::Joint),
        Token::Punct(':', Spacing::Alone),
        Token::Ident(record.name()),
    ]);
}

/// The shape of the path of a variant.
pub proof fn lemma_variant_path_shape(variant: Variant)
    ensures
        variant_path(variant) == seq![
            Token::Ident("glsl"@),
            Token::Punct(':', Spacing::Joint),
            Token::Punct(':', Spacing::Alone),
            Token::Ident("syntax"@),
            Token::Punct(':', Spacing::Joint),
            Token::Punct(':', Spacing::Alone),
            Token::Ident(variant.owner()),
            Token::Punct(':', Spacing::Joint),
            Token::Punct(':', Spacing::Alone),
            Token::Ident(variant.name()),
        ],
{
    assert(variant_path(variant) =~= seq![
        Token::Ident("glsl"@),
        Token::Punct(':', Spacing::Joint),
        Token::Punct(':', Spacing::Alone),
        Token::Ident("syntax"@),
        Token::Punct(':', Spacing::Joint),
        Token::Punct(':', Spacing::Alone),
        Token::Ident(variant.owner()),
        Token::Punct(':', Spacing::Joint),
        Token::Punct(':', Spacing::Alone),
        Token::Ident(variant.name()),
    ]);
}

/// The form of a constructor expression, as far as the number of its tokens and the first of
/// them tell it.
pub open spec fn has_shape(code: SpecCode, tokens: Seq<Token>) -> bool {
    match code {
        SpecCode::Unit(variant) => tokens == variant_path(variant) && tokens.len() == 10,
        SpecCode::Call(variant, args) => {
            &&& tokens.len() == 11
            &&& tokens.take(10) == variant_path(variant)
            &&& tokens[10] == Token::Group(Delimiter::Parenthesis, separated(codes_tokens(args)))
        },
        SpecCode::Record(record, fields) => {
            &&& tokens.len() == 8
            &&& tokens.take(7) == record_path(record)
            &&& tokens[7] == Token::Group(Delimiter::Brace, separated(fields_tokens(fields)))
        },
        SpecCode::List(items) => {
            &&& tokens.len() == 3
            &&& tokens[0] == Token::Ident("vec"@)
            &&& tokens[2] == Token::Group(Delimiter::Bracket, separated(codes_tokens(items)))
        },
        SpecCode::Pair(a, b) => {
            &&& tokens.len() == 1
            &&& tokens[0] == Token::Group(
                Delimiter::Parenthesis,
                code_tokens(*a) + seq![comma()] + code_tokens(*b),
            )
        },
        SpecCode::Present(value) => {
            &&& tokens.len() == 2
            &&& tokens[0] == Token::Ident("Some"@)
            &&& tokens[1] == Token::Group(Delimiter::Parenthesis, code_tokens(*value))
        },
        SpecCode::Absent => tokens.len() == 1 && tokens[0] == Token::Ident("None"@),
        SpecCode::Boxed(value) => {
            &&& tokens.len() == 5
            &&& tokens[0] == Token::Ident("Box"@)
            &&& tokens[4] == Token::Group(Delimiter::Parenthesis, code_tokens(*value))
        },
        SpecCode::Owned(text) => {
            &&& tokens.len() == 5
            &&& tokens[0] == Token::Ident("String"@)
            &&& tokens[4] == Token::Group(Delimiter::Parenthesis, seq![Token::Str(text)])
        },
        SpecCode::Name(text) => tokens.len() == 1 && tokens[0] == Token::Ident(text),
        SpecCode::Int(x) => {
            if x >= 0 {
                tokens.len() == 1 && tokens[0] == Token::I32(x)
            } else if x > i32::MIN {
                &&& tokens.len() == 2
                &&& tokens[0] == Token::Punct('-', Spacing::Alone)
                &&& tokens[1] == Token::I32((-x) as i32)
            } else {
                tokens.len() == 4 && tokens[0] == Token::Ident("i32"@)
            }
        },
        SpecCode::UInt(x) => tokens.len() == 1 && tokens[0] == Token::U32(x),
        SpecCode::Short(x) => tokens.len() == 1 && tokens[0] == Token::U16(x),
        SpecCode::Bool(x) => {
            &&& tokens.len() == 1
            &&& tokens[0] == Token::Ident(
                if x {
                    "true"@
                } else {
                    "false"@
                },
            )
        },
        SpecCode::Float(bits) => {
            &&& tokens.len() == 5
            &&& tokens[0] == Token::Ident("f32"@)
            &&& tokens[4] == Token::Group(Delimiter::Parenthesis, seq![Token::U32(bits)])
        },
        SpecCode::Double(bits) => {
            &&& tokens.len() == 5
            &&& tokens[0] == Token::Ident("f64"@)
            &&& tokens[4] == Token::Group(Delimiter::Parenthesis, seq![Token::U64(bits)])
        },
    }
}

/// The tokens of a constructor expression have the shape of its form.
pub proof fn lemma_shape(code: SpecCode)
    ensures
        has_shape(code, code_tokens(code)),
{
    let tokens = code_tokens(code);
    match code {
        SpecCode::Unit(variant) => {
            lemma_variant_path_shape(variant);
        },
        SpecCode::Call(variant, _) => {
            lemma_variant_path_shape(variant);
            assert(tokens.take(10) =~= variant_path(variant));
        },
        SpecCode::Record(record, _) => {
            lemma_record_path_shape(record);
            assert(tokens.take(7) =~= record_path(record));
        },
        SpecCode::Boxed(_) => {
            lemma_path2_shape("Box"@, "new"@);
        },
        SpecCode::Owned(_) => {
            lemma_path2_shape("String"@, "from"@);
        },
        SpecCode::Int(_) => {
            lemma_path2_shape("i32"@, "MIN"@);
        },
        SpecCode::Float(_) => {
            lemma_path2_shape("f32"@, "from_bits"@);
        },
        SpecCode::Double(_) => {
            lemma_path2_shape("f64"@, "from_bits"@);
        },
        _ => {},
    }
}

/// The tokens of a constructor expression can stand between two commas.
pub proof fn lemma_code_is_part(code: SpecCode)
    ensures
        is_part(code_tokens(code)),
{
    lemma_shape(code);
    let tokens = code_tokens(code);
    match code {
        SpecCode::Unit(variant) => {
            lemma_variant_path_shape(variant);
        },
        SpecCode::Call(variant, _) => {
            lemma_variant_path_shape(variant);
            assert forall|i: int| 0 <= i < tokens.len() implies #[trigger] tokens[i] != comma() by {
                if i < 10 {
                    assert(tokens[i] == tokens.take(10)[i]);
                }
            }
        },
        SpecCode::Record(record, _) => {
            lemma_record_path_shape(record);
            assert forall|i: int| 0 <= i < tokens.len() implies #[trigger] tokens[i] != comma() by {
                if i < 7 {
                    assert(tokens[i] == tokens.take(7)[i]);
                }
            }
        },
        SpecCode::Boxed(_) => {
            lemma_path2_shape("Box"@, "new"@);
        },
        SpecCode::Owned(_) => {
            lemma_path2_shape("String"@, "from"@);
        },
        SpecCode::Int(_) => {
            lemma_path2_shape("i32"@, "MIN"@);
        },
        SpecCode::Float(_) => {
            lemma_path2_shape("f32"@, "from_bits"@);
        },
        SpecCode::Double(_) => {
            lemma_path2_shape("f64"@, "from_bits"@);
        },
        _ => {},
    }
}

/// The tokens of each of a sequence of constructor expressions can stand between two commas.
pub proof fn lemma_codes_are_parts(items: Seq<SpecCode>)
    ensures
        are_parts(codes_tokens(items)),
        codes_tokens(items).len() == items.len(),
{
    let parts = codes_tokens(items);
    assert forall|i: int| 0 <= i < parts.len() implies is_part(#[trigger] parts[i]) by {
        lemma_code_is_part(items[i]);
    }
}

/// The tokens of each field of a struct literal can stand between two commas.
pub proof fn lemma_fields_are_parts(fields: Seq<(Field, SpecCode)>)
    ensures
        are_parts(fields_tokens(fields)),
        fields_tokens(fields).len() == fields.len(),
{
    let parts = fields_tokens(fields);
    assert forall|i: int| 0 <= i < parts.len() implies is_part(#[trigger] parts[i]) by {
        lemma_code_is_part(fields[i].1);
        let value = code_tokens(fields[i].1);
        let part = parts[i];
        assert(part == seq![Token::Ident(fields[i].0.name()), colon()] + value);
        assert forall|j: int| 0 <= j < part.len() implies #[trigger] part[j] != comma() by {
            if j >= 2 {
                assert(part[j] == value[j - 2]);
            }
        }
    }
}

/// Joined parts are not empty unless there is no part.
pub proof fn lemma_separated_len(parts: Seq<Seq<Token>>)
    requires
        are_parts(parts),
    ensures
        parts.len() == 0 ==> separated(parts).len() == 0,
        parts.len() > 0 ==> separated(parts).len() > 0,
        parts.len() == 1 ==> separated(parts) == parts[0],
        parts.len() > 1 ==> separated(parts) == separated(parts.drop_last()) + seq![comma()]
            + parts.last(),
{
}

/// The commas keep the parts apart: parts that are joined to the same tokens are the same
/// parts.
pub proof fn lemma_separated_tells_parts(p: Seq<Seq<Token>>, q: Seq<Seq<Token>>)
    requires
        are_parts(p),
        are_parts(q),
        separated(p) == separated(q),
    ensures
        p == q,
    decreases p.len(),
{
    lemma_separated_len(p);
    lemma_separated_len(q);
    let s = separated(p);
    if p.len() == 0 || q.len() == 0 {
        assert(p =~= q);
    } else if p.len() == 1 && q.len() == 1 {
        assert(p =~= q);
    } else if p.len() == 1 {
        // one part holds no comma, several parts do
        let b = separated(q.drop_last());
        assert(s[b.len() as int] == comma());
        assert(is_part(p[0]));
    } else if q.len() == 1 {
        let a = separated(p.drop_last());
        assert(s[a.len() as int] == comma());
        assert(is_part(q[0]));
    } else {
        let a = separated(p.drop_last());
        let x = p.last();
        let b = separated(q.drop_last());
        let y = q.last();
        assert(is_part(x));
        assert(is_part(y));
        assert(s == a + seq![comma()] + x);
        assert(s == b + seq![comma()] + y);
        assert(s.len() == a.len() + 1 + x.len());
        assert(s.len() == b.len() + 1 + y.len());
        // the last comma stands at the same place in both
        if a.len() < b.len() {
            let k = b.len() as int;
            assert(s[k] == comma());
            assert(s[k] == x[k - a.len() - 1]);
        } else if b.len() < a.len() {
            let k = a.len() as int;
            assert(s[k] == comma());
            assert(s[k] == y[k - b.len() - 1]);
        }
        assert(a.len() == b.len());
        assert(a =~= b) by {
            assert forall|i: int| 0 <= i < a.len() implies a[i] == b[i] by {
                assert(s[i] == a[i]);
                assert(s[i] == b[i]);
            }
        }
        assert(x =~= y) by {
            assert forall|i: int| 0 <= i < x.len() implies x[i] == y[i] by {
                assert(s[a.len() + 1 + i] == x[i]);
                assert(s[b.len() + 1 + i] == y[i]);
            }
        }
        let p0 = p.drop_last();
        let q0 = q.drop_last();
        assert(are_parts(p0)) by {
            assert forall|i: int| 0 <= i < p0.len() implies is_part(#[trigger] p0[i]) by {
                assert(p0[i] == p[i]);
            }
        }
        assert(are_parts(q0)) by {
            assert forall|i: int| 0 <= i < q0.len() implies is_part(#[trigger] q0[i]) by {
                assert(q0[i] == q[i]);
            }
        }
        lemma_separated_tells_parts(p0, q0);
        assert(p =~= p0.push(x));
        assert(q =~= q0.push(y));
    }
}

/// The tokens of a constructor expression tell which expression it is.
pub proof fn lemma_spelling_tells_code(a: SpecCode, b: SpecCode)
    requires
        code_tokens(a) == code_tokens(b),
        unambiguous(a),
        unambiguous(b),
    ensures
        a == b,
    decreases a,
{
    lemma_shape(a);
    lemma_shape(b);
    reveal_strlit("glsl");
    reveal_strlit("vec");
    reveal_strlit("Some");
    reveal_strlit("None");
    reveal_strlit("Box");
    reveal_strlit("String");
    reveal_strlit("i32");
    reveal_strlit("f32");
    reveal_strlit("f64");
    reveal_strlit("true");
    reveal_strlit("false");
    let tokens = code_tokens(a);
    assert("Some"@[0] != "None"@[0]);
    assert("None"@[0] != "true"@[0]);
    assert("None"@[0] != "false"@[0]);
    assert("true"@[0] != "false"@[0]);
    assert("Box"@[0] != "String"@[0]);
    assert("Box"@[0] != "f32"@[0]);
    assert("String"@[0] != "f32"@[0]);
    assert("f32"@[1] != "f64"@[1]);
    assert("Box"@[0] != "f64"@[0]);
    assert("String"@[0] != "f64"@[0]);
    match a {
        SpecCode::Unit(va) => {
            assert(b is Unit);
            let vb = b->Unit_0;
            lemma_variant_path_shape(va);
            lemma_variant_path_shape(vb);
            assert(tokens[6] == Token::Ident(va.owner()));
            assert(tokens[6] == Token::Ident(vb.owner()));
            assert(tokens[9] == Token::Ident(va.name()));
            assert(tokens[9] == Token::Ident(vb.name()));
            lemma_variant_spelling(va, vb);
        },
        SpecCode::Call(va, args_a) => {
            assert(b is Call);
            let vb = b->Call_0;
            let args_b = b->Call_1;
            lemma_variant_path_shape(va);
            lemma_variant_path_shape(vb);
            let path = tokens.take(10);
            assert(path[6] == Token::Ident(va.owner()));
            assert(path[6] == Token::Ident(vb.owner()));
            assert(path[9] == Token::Ident(va.name()));
            assert(path[9] == Token::Ident(vb.name()));
            lemma_variant_spelling(va, vb);
            lemma_codes_are_parts(args_a);
            lemma_codes_are_parts(args_b);
            lemma_separated_tells_parts(codes_tokens(args_a), codes_tokens(args_b));
            lemma_spelling_tells_codes(args_a, args_b);
        },
        SpecCode::Record(ra, fields_a) => {
            assert(b is Record);
            let rb = b->Record_0;
            let fields_b = b->Record_1;
            lemma_record_path_shape(ra);
            lemma_record_path_shape(rb);
            let path = tokens.take(7);
            assert(path[6] == Token::Ident(ra.name()));
            assert(path[6] == Token::Ident(rb.name()));
            lemma_record_spelling(ra, rb);
            lemma_fields_are_parts(fields_a);
            lemma_fields_are_parts(fields_b);
            lemma_separated_tells_parts(fields_tokens(fields_a), fields_tokens(fields_b));
            lemma_spelling_tells_fields(fields_a, fields_b);
        },
        SpecCode::List(items_a) => {
            assert(b is List);
            let items_b = b->List_0;
            lemma_codes_are_parts(items_a);
            lemma_codes_are_parts(items_b);
            lemma_separated_tells_parts(codes_tokens(items_a), codes_tokens(items_b));
            lemma_spelling_tells_codes(items_a, items_b);
        },
        SpecCode::Pair(a0, a1) => {
            assert(b is Pair);
            let b0 = b->Pair_0;
            let b1 = b->Pair_1;
            lemma_code_is_part(*a0);
            lemma_code_is_part(*a1);
            lemma_code_is_part(*b0);
            lemma_code_is_part(*b1);
            let p = seq![code_tokens(*a0), code_tokens(*a1)];
            let q = seq![code_tokens(*b0), code_tokens(*b1)];
            assert(separated(p) == code_tokens(*a0) + seq![comma()] + code_tokens(*a1)) by {
                assert(p.drop_last() =~= seq![code_tokens(*a0)]);
                assert(separated(p.drop_last()) == code_tokens(*a0));
            }
            assert(separated(q) == code_tokens(*b0) + seq![comma()] + code_tokens(*b1)) by {
                assert(q.drop_last() =~= seq![code_tokens(*b0)]);
                assert(separated(q.drop_last()) == code_tokens(*b0));
            }
            lemma_separated_tells_parts(p, q);
            assert(p[0] == q[0]);
            assert(p[1] == q[1]);
            lemma_spelling_tells_code(*a0, *b0);
            lemma_spelling_tells_code(*a1, *b1);
        },
        SpecCode::Present(value) => {
            assert(b is Present);
            lemma_spelling_tells_code(*value, *b->Present_0);
        },
        SpecCode::Boxed(value) => {
            assert(b is Boxed);
            lemma_spelling_tells_code(*value, *b->Boxed_0);
        },
        SpecCode::Owned(text) => {
            assert(b is Owned);
            assert(seq![Token::Str(text)][0] == seq![Token::Str(b->Owned_0)][0]);
        },
        SpecCode::Float(bits) => {
            assert(b is Float);
            assert(seq![Token::U32(bits)][0] == seq![Token::U32(b->Float_0)][0]);
        },
        SpecCode::Double(bits) => {
            assert(b is Double);
            assert(seq![Token::U64(bits)][0] == seq![Token::U64(b->Double_0)][0]);
        },
        _ => {},
    }
}

/// The tokens of each of a sequence of constructor expressions tell which sequence it is.
pub proof fn lemma_spelling_tells_codes(p: Seq<SpecCode>, q: Seq<SpecCode>)
    requires
        codes_tokens(p) == codes_tokens(q),
        all_unambiguous(p),
        all_unambiguous(q),
    ensures
        p == q,
    decreases p,
{
    assert(codes_tokens(p).len() == p.len());
    assert(codes_tokens(q).len() == q.len());
    assert forall|i: int| 0 <= i < p.len() implies p[i] == q[i] by {
        assert(codes_tokens(p)[i] == code_tokens(p[i]));
        assert(codes_tokens(q)[i] == code_tokens(q[i]));
        assert(unambiguous(p[i]) && unambiguous(q[i]));
        lemma_spelling_tells_code(p[i], q[i]);
    }
    assert(p =~= q);
}

/// The tokens of each field of a struct literal tell which fields they are.
pub proof fn lemma_spelling_tells_fields(p: Seq<(Field, SpecCode)>, q: Seq<(Field, SpecCode)>)
    requires
        fields_tokens(p) == fields_tokens(q),
        fields_unambiguous(p),
        fields_unambiguous(q),
    ensures
        p == q,
    decreases p,
{
    assert(fields_tokens(p).len() == p.len());
    assert(fields_tokens(q).len() == q.len());
    assert forall|i: int| 0 <= i < p.len() implies p[i] == q[i] by {
        let x = fields_tokens(p)[i];
        let y = fields_tokens(q)[i];
        let vx = code_tokens(p[i].1);
        let vy = code_tokens(q[i].1);
        assert(x == seq![Token::Ident(p[i].0.name()), colon()] + vx);
        assert(y == seq![Token::Ident(q[i].0.name()), colon()] + vy);
        assert(x[0] == Token::Ident(p[i].0.name()));
        assert(y[0] == Token::Ident(q[i].0.name()));
        lemma_field_spelling(p[i].0, q[i].0);
        assert(vx =~= vy) by {
            assert(vx.len() == x.len() - 2);
            assert(vy.len() == y.len() - 2);
            assert forall|j: int| 0 <= j < vx.len() implies vx[j] == vy[j] by {
                assert(x[j + 2] == vx[j]);
                assert(y[j + 2] == vy[j]);
            }
        }
        assert(unambiguous(p[i].1) && unambiguous(q[i].1));
        lemma_spelling_tells_code(p[i].1, q[i].1);
    }
    assert(p =~= q);
}

/// The tokens that are handed to the host determine the translation unit: two units whose
/// constructor expressions are spelled alike are the same unit, where neither names anything
/// by a word of the host.
pub proof fn lemma_tokens_determine_unit(a: SpecTranslationUnit, b: SpecTranslationUnit)
    requires
        code_tokens(translation_unit_code(a)) == code_tokens(translation_unit_code(b)),
        unambiguous(translation_unit_code(a)),
        unambiguous(translation_unit_code(b)),
    ensures
        a == b,
{
    lemma_spelling_tells_code(translation_unit_code(a), translation_unit_code(b));
    crate::laws::lemma_code_determines_unit(a, b);
}

} // verus!
