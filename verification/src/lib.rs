//! Quasiquoting of GLSL: from a shader to the host code that rebuilds its syntax tree.
//!
//! A shader that is embedded in a host program is parsed while the host is built. What
//! the host needs in its place is an expression that, once compiled and run, yields the very
//! syntax tree that the parser produced. This crate computes that expression:
//!
//! - [`syntax`] is the syntax tree, [`model`] its mathematical model;
//! - [`code`] is the constructor expression, [`names`] what it can name;
//! - [`tokenizer`] maps every node of the tree to its constructor expression;
//! - [`evaluator`] reads a constructor expression back and shows that no node is lost;
//! - [`emit`] spells a constructor expression as a token stream, through [`tokens`];
//! - [`reading`] shows that no two constructor expressions are spelled alike;
//! - [`laws`] states what holds of the tokenizers as a whole.
//!
//! The entry points are [`glsl`], for a shader written in the host's own tokens, and
//! [`glsl_str_tokens`] with [`glsl_str`], for a shader handed over as one string literal.
//! Parsing is not done here: they take the parser as an argument, and [`expand`] says what
//! becomes of each of its verdicts.
//!
//! A variable, a named type and a globally qualified name are spelled as identifiers, for the
//! host to resolve. The parser yields only names that are identifiers; a tree from elsewhere is
//! tested with [`names_are_identifiers`] before it is expanded.

pub mod code;
pub mod emit;
pub mod evaluator;
pub mod laws;
pub mod model;
pub mod names;
pub mod quoted;
pub mod quoted_option;
pub mod reading;
pub mod syntax;
pub mod tokenizer;
pub mod tokens;

use crate::code::spellable;
use crate::emit::code_tokens;
use crate::model::{SpecTranslationUnit, translation_unit_view};
use crate::syntax::TranslationUnit;
use crate::tokenizer::unit::{tokenize_translation_unit, translation_unit_code};
use crate::tokens::stream_tokens;
use vstd::prelude::*;
use vstd::string::StringExecFns;

verus! {

/// Why an expansion was abandoned. Either way the build is to stop: there is no partial result.
#[derive(Debug, PartialEq, Eq)]
pub enum Error {
    /// The parser rejected the shader. The text is the parser's own description of the failure.
    Parse(String),
    /// The string surface was handed something else than one string literal. The text is what
    /// it was handed.
    Invocation(String),
}

/// What every message about a wrong invocation starts with.
pub open spec fn invocation_prefix() -> Seq<char> {
    "GLSL error: incorrect macro invocation, "@ + "please use a single opaque string; saw "@
}

impl Error {
    /// The text of [`Error::message`].
    pub open spec fn message_text(self) -> Seq<char> {
        match self {
            Error::Parse(description) => "GLSL error: "@ + description@,
            Error::Invocation(seen) => invocation_prefix() + seen@,
        }
    }

    /// The message with which the build is aborted.
    pub fn message(&self) -> (text: String)
        ensures
            text@ == self.message_text(),
    {
        match self {
            Error::Parse(description) => {
                String::from_str("GLSL error: ").concat(description.as_str())
            },
            Error::Invocation(seen) => {
                let prefix = String::from_str("GLSL error: incorrect macro invocation, ");
                let prefix = prefix.concat("please use a single opaque string; saw ");
                assert(prefix@ =~= invocation_prefix());
                prefix.concat(seen.as_str())
            },
        }
    }
}

/// What a parser makes of a shader: its translation unit, or a description of why there is
/// none.
pub type Parsed = Result<TranslationUnit, String>;

/// Whether a translation unit can be spelled in the host language: every variable, every named
/// type and every globally qualified name in it is an identifier.
pub open spec fn well_named(tu: SpecTranslationUnit) -> bool {
    spellable(translation_unit_code(tu))
}

/// Whether the verdict of a parser can be expanded: where it holds a translation unit, the unit
/// is well named.
pub open spec fn is_well_named(parsed: Parsed) -> bool {
    parsed matches Ok(tu) ==> well_named(translation_unit_view(tu))
}

/// Tells whether a translation unit can be spelled in the host language.
pub fn names_are_identifiers(tu: &TranslationUnit) -> (b: bool)
    ensures
        b == well_named(translation_unit_view(*tu)),
{
    tokenize_translation_unit(tu).is_spellable()
}

/// Whether `result` is the expansion that is owed for the verdict `parsed` of the parser: the
/// tokens of the whole translation unit where there is one, and the parser's failure, with its
/// description unchanged, where there is none.
pub open spec fn is_expansion(
    parsed: Parsed,
    result: Result<proc_macro2::TokenStream, Error>,
) -> bool {
    match parsed {
        Ok(tu) => {
            &&& result matches Ok(stream)
            &&& stream_tokens(stream) == code_tokens(
                translation_unit_code(translation_unit_view(tu)),
            )
        },
        Err(description) => {
            &&& result matches Err(Error::Parse(text))
            &&& text@ == description@
        },
    }
}

/// Whether a text has the shape of a string literal: a double quote at either end.
pub open spec fn is_string_literal(literal: Seq<char>) -> bool {
    literal.len() >= 2 && literal[0] == '"' && literal[literal.len() - 1] == '"'
}

/// What stands between the delimiters of a string literal, unchanged.
pub open spec fn literal_interior(literal: Seq<char>) -> Seq<char> {
    literal.subrange(1, literal.len() - 1)
}

/// Whether `result` rejects a text that is no string literal: the failure holds the text as it
/// was handed over.
pub open spec fn is_rejection<T>(literal: Seq<char>, result: Result<T, Error>) -> bool {
    &&& result matches Err(Error::Invocation(seen))
    &&& seen@ == literal
}

/// Expands the verdict of the parser: tokenizes the translation unit and spells it as a token
/// stream, or hands the failure on.
pub fn expand(parsed: Parsed) -> (result: Result<proc_macro2::TokenStream, Error>)
    requires
        is_well_named(parsed),
    ensures
        is_expansion(parsed, result),
{
    match parsed {
        Ok(tu) => Ok(tokenize_translation_unit(&tu).to_token_stream()),
        Err(description) => Err(Error::Parse(description)),
    }
}

/// Strips the delimiters of a string literal, or says that the text is none.
pub fn unquote(literal: &str) -> (result: Result<&str, Error>)
    ensures
        is_string_literal(literal@) ==> (result matches Ok(interior) && interior@
            == literal_interior(literal@)),
        !is_string_literal(literal@) ==> is_rejection(literal@, result),
{
    let n = literal.unicode_len();
    if n >= 2 && literal.get_char(0) == '"' && literal.get_char(n - 1) == '"' {
        Ok(literal.substring_char(1, n - 1))
    } else {
        Err(Error::Invocation(literal.to_owned()))
    }
}

/// The token surface: expands a shader that was written in the host's own tokens.
///
/// `source` is the text of those tokens and `parse` the parser. The shader is parsed once and
/// the verdict is expanded as [`expand`] says.
pub fn glsl<P: FnOnce(&str) -> Parsed>(source: &str, parse: P) -> (result: Result<
    proc_macro2::TokenStream,
    Error,
>)
    requires
        parse.requires((source,)),
        forall|parsed: Parsed| parse.ensures((source,), parsed) ==> is_well_named(parsed),
    ensures
        exists|parsed: Parsed| parse.ensures((source,), parsed) && is_expansion(parsed, result),
{
    let parsed = parse(source);
    expand(parsed)
}

/// The string surface: expands a shader that was handed over as one string literal.
///
/// `literal` is the text of the literal, delimiters included, and `parse` the parser. The
/// delimiters are stripped and what stands between them is parsed unchanged, so that a
/// directive line keeps the line end that it needs. A text that is no string literal is not
/// parsed at all.
pub fn glsl_str<P: FnOnce(&str) -> Parsed>(literal: &str, parse: P) -> (result: Result<
    proc_macro2::TokenStream,
    Error,
>)
    requires
        forall|source: &str|
            is_string_literal(literal@) && source@ == literal_interior(literal@)
                ==> parse.requires((source,)),
        forall|source: &str, parsed: Parsed|
            parse.ensures((source,), parsed) ==> is_well_named(parsed),
    ensures
        is_string_literal(literal@) ==> exists|source: &str, parsed: Parsed|
            source@ == literal_interior(literal@) && parse.ensures((source,), parsed)
                && is_expansion(parsed, result),
        !is_string_literal(literal@) ==> is_rejection(literal@, result),
{
    match unquote(literal) {
        Ok(source) => {
            let parsed = parse(source);
            expand(parsed)
        },
        Err(error) => Err(error),
    }
}

/// What a token of the host is, as far as the string surface needs to know.
#[derive(Debug, Clone, Copy, PartialEq, Eq)]
pub enum TokenKind {
    /// A literal of any kind.
    Literal,
    /// Anything else: an identifier, a punctuation character or a group.
    Other,
}

/// The texts of some tokens joined by single blanks.
pub open spec fn joined(texts: Seq<Seq<char>>) -> Seq<char>
    decreases texts.len(),
{
    if texts.len() == 0 {
        Seq::empty()
    } else if texts.len() == 1 {
        texts[0]
    } else {
        joined(texts.drop_last()) + seq![' '] + texts.last()
    }
}

/// The text of each of some tokens, in their order.
pub open spec fn texts(tokens: Seq<(TokenKind, String)>) -> Seq<Seq<char>> {
    Seq::new(tokens.len(), |i: int| tokens[i].1@)
}

/// Whether the tokens are what the string surface takes: exactly one token, a literal, whose
/// text has the shape of a string literal.
pub open spec fn is_one_string_literal(tokens: Seq<(TokenKind, String)>) -> bool {
    &&& tokens.len() == 1
    &&& tokens[0].0 == TokenKind::Literal
    &&& is_string_literal(tokens[0].1@)
}

/// Joining one text more: the blank comes before every text but the first.
pub proof fn lemma_joined_step(texts: Seq<Seq<char>>, i: int)
    requires
        0 <= i < texts.len(),
    ensures
        joined(texts.take(i + 1)) == if i == 0 {
            texts[0]
        } else {
            joined(texts.take(i)) + seq![' '] + texts[i]
        },
{
    let longer = texts.take(i + 1);
    assert(longer.last() == texts[i]);
    assert(longer.drop_last() =~= texts.take(i));
}

/// The texts of the tokens, joined by single blanks.
fn seen(tokens: &Vec<(TokenKind, String)>) -> (text: String)
    ensures
        text@ == joined(texts(tokens@)),
{
    let ghost all = texts(tokens@);
    let mut text = String::new();
    let mut i: usize = 0;
    assert(all.take(0) =~= Seq::<Seq<char>>::empty());
    while i < tokens.len()
        invariant
            i <= tokens.len(),
            all == texts(tokens@),
            text@ == joined(all.take(i as int)),
        decreases tokens.len() - i,
    {
        if i > 0 {
            proof {
                reveal_strlit(" ");
            }
            text.append(" ");
            assert(text@ =~= joined(all.take(i as int)) + seq![' ']);
        }
        text.append(tokens[i].1.as_str());
        proof {
            lemma_joined_step(all, i as int);
        }
        i += 1;
    }
    assert(all.take(tokens.len() as int) =~= all);
    text
}

/// The string surface, from the tokens of the invocation: expands a shader that was handed
/// over as one string literal.
///
/// `tokens` holds every token that the surface was handed, each by its kind and its text, and
/// `parse` is the parser. Exactly one token, a string literal, is owed; then the delimiters are
/// stripped and what stands between them is parsed unchanged. Anything else is rejected
/// without parsing: no token, a token that is no string literal, or more than one token.
pub fn glsl_str_tokens<P: FnOnce(&str) -> Parsed>(
    tokens: &Vec<(TokenKind, String)>,
    parse: P,
) -> (result: Result<proc_macro2::TokenStream, Error>)
    requires
        forall|source: &str|
            is_one_string_literal(tokens@) && source@ == literal_interior(tokens@[0].1@)
                ==> parse.requires((source,)),
        forall|source: &str, parsed: Parsed|
            parse.ensures((source,), parsed) ==> is_well_named(parsed),
    ensures
        is_one_string_literal(tokens@) ==> exists|source: &str, parsed: Parsed|
            source@ == literal_interior(tokens@[0].1@) && parse.ensures((source,), parsed)
                && is_expansion(parsed, result),
        !is_one_string_literal(tokens@) ==> is_rejection(joined(texts(tokens@)), result),
{
    if tokens.len() == 1 {
        match tokens[0].0 {
            TokenKind::Literal => {
                assert(joined(texts(tokens@)) == tokens@[0].1@);
                return glsl_str(tokens[0].1.as_str(), parse);
            },
            TokenKind::Other => {},
        }
    }
    Err(Error::Invocation(seen(tokens)))
}

} // verus!
