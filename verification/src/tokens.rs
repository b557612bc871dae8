//! Token streams of the host language.
//!
//! A constructor expression reaches the host compiler as a `proc_macro2::TokenStream`. This
//! module holds the model of what such a stream contains and the few operations through which
//! the library fills one. The operations are calls into `proc_macro2` and `quote`; what is
//! stated of them here is taken from those crates and is not proved.

use vstd::prelude::*;

verus! {

/// The brackets around a group of tokens.
#[derive(Debug, Clone, Copy, PartialEq, Eq)]
pub enum Delimiter {
    /// `( .. )`
    Parenthesis,
    /// `{ .. }`
    Brace,
    /// `[ .. ]`
    Bracket,
}

/// Whether a punctuation character is glued to the one that follows it.
#[derive(Debug, Clone, Copy, PartialEq, Eq)]
pub enum Spacing {
    /// The character stands by itself.
    Alone,
    /// The character and the next one form one operator, as the two colons of `::` do.
    Joint,
}

/// One token of a stream, without its position in any source.
pub enum Token {
    /// An identifier or a keyword.
    Ident(Seq<char>),
    /// One punctuation character.
    Punct(char, Spacing),
    /// The string literal that denotes the given text.
    Str(Seq<char>),
    /// The integer literal with the suffix `i32`. A literal has no sign: the number is not
    /// negative.
    I32(i32),
    /// The integer literal with the suffix `u32`.
    U32(u32),
    /// The integer literal with the suffix `u16`.
    U16(u16),
    /// The integer literal with the suffix `u64`.
    U64(u64),
    /// A bracketed group and the tokens inside it.
    Group(Delimiter, Seq<Token>),
}

/// Whether a character may start an identifier.
pub open spec fn is_ident_start(c: char) -> bool {
    c == '_' || ('a' <= c && c <= 'z') || ('A' <= c && c <= 'Z')
}

/// Whether a character may follow the first character of an identifier.
pub open spec fn is_ident_continue(c: char) -> bool {
    is_ident_start(c) || ('0' <= c && c <= '9')
}

/// Whether a text is an identifier made of ASCII letters, digits and underscores.
pub open spec fn is_ident(s: Seq<char>) -> bool {
    &&& s.len() > 0
    &&& is_ident_start(s[0])
    &&& forall|i: int| 0 < i < s.len() ==> is_ident_continue(#[trigger] s[i])
}

/// Tells whether a text is an identifier made of ASCII letters, digits and underscores.
pub fn is_identifier(text: &str) -> (b: bool)
    ensures
        b == is_ident(text@),
{
    let n = text.unicode_len();
    if n == 0 {
        return false;
    }
    let first = text.get_char(0);
    if !(first == '_' || ('a' <= first && first <= 'z') || ('A' <= first && first <= 'Z')) {
        return false;
    }
    let mut i: usize = 1;
    while i < n
        invariant
            1 <= i <= n,
            n == text@.len(),
            forall|j: int| 0 < j < i ==> is_ident_continue(#[trigger] text@[j]),
        decreases n - i,
    {
        let c = text.get_char(i);
        let letter = c == '_' || ('a' <= c && c <= 'z') || ('A' <= c && c <= 'Z');
        if !(letter || ('0' <= c && c <= '9')) {
            assert(!is_ident_continue(text@[i as int]));
            return false;
        }
        i += 1;
    }
    true
}

/// Whether a character is one of the punctuation characters of the host language.
pub open spec fn is_punct(c: char) -> bool {
    c == '!' || c == '#' || c == '$' || c == '%' || c == '&' || c == '\'' || c == '*' || c == '+'
        || c == ',' || c == '-' || c == '.' || c == '/' || c == ':' || c == ';' || c == '<'
        || c == '=' || c == '>' || c == '?' || c == '@' || c == '^' || c == '|' || c == '~'
}

#[verifier::external_type_specification]
#[verifier::external_body]
pub struct ExTokenStream(proc_macro2::TokenStream);

/// The tokens that a stream holds, in order and without their spans.
pub uninterp spec fn stream_tokens(stream: proc_macro2::TokenStream) -> Seq<Token>;

/// `proc_macro2::TokenStream::new`: a stream that holds no token.
#[verifier::external_body]
pub(crate) fn stream_new() -> (stream: proc_macro2::TokenStream)
    ensures
        stream_tokens(stream) == Seq::<Token>::empty(),
{
    proc_macro2::TokenStream::new()
}

/// `proc_macro2::Ident::new` at the call site, appended with `quote::TokenStreamExt::append`:
/// the stream gains one identifier at its end. `Ident::new` panics on a text that is no
/// identifier; such a text is kept out.
#[verifier::external_body]
pub(crate) fn push_ident(stream: &mut proc_macro2::TokenStream, name: &str)
    requires
        is_ident(name@),
    ensures
        stream_tokens(*final(stream)) == stream_tokens(*old(stream)).push(Token::Ident(name@)),
{
    let ident = proc_macro2::Ident::new(name, proc_macro2::Span::call_site());
    quote::TokenStreamExt::append(stream, ident);
}

/// `proc_macro2::Punct::new`, appended with `quote::TokenStreamExt::append`: the stream gains
/// one punctuation character at its end. `Punct::new` panics on a character that is no
/// punctuation; such a character is kept out.
#[verifier::external_body]
pub(crate) fn push_punct(stream: &mut proc_macro2::TokenStream, ch: char, spacing: Spacing)
    requires
        is_punct(ch),
    ensures
        stream_tokens(*final(stream)) == stream_tokens(*old(stream)).push(
            Token::Punct(ch, spacing),
        ),
{
    let spacing = match spacing {
        Spacing::Alone => proc_macro2::Spacing::Alone,
        Spacing::Joint => proc_macro2::Spacing::Joint,
    };
    quote::TokenStreamExt::append(stream, proc_macro2::Punct::new(ch, spacing));
}

/// `proc_macro2::Group::new`, appended with `quote::TokenStreamExt::append`: the stream gains
/// one group at its end, which holds the tokens of `inner` between the given delimiters.
#[verifier::external_body]
pub(crate) fn push_group(
    stream: &mut proc_macro2::TokenStream,
    delimiter: Delimiter,
    inner: proc_macro2::TokenStream,
)
    ensures
        stream_tokens(*final(stream)) == stream_tokens(*old(stream)).push(
            Token::Group(delimiter, stream_tokens(inner)),
        ),
{
    let delimiter = match delimiter {
        Delimiter::Parenthesis => proc_macro2::Delimiter::Parenthesis,
        Delimiter::Brace => proc_macro2::Delimiter::Brace,
        Delimiter::Bracket => proc_macro2::Delimiter::Bracket,
    };
    quote::TokenStreamExt::append(stream, proc_macro2::Group::new(delimiter, inner));
}

/// `quote::ToTokens::to_tokens` of a `str`: the stream gains, at its end, the string literal
/// that denotes the text.
#[verifier::external_body]
pub(crate) fn push_str(stream: &mut proc_macro2::TokenStream, text: &str)
    ensures
        stream_tokens(*final(stream)) == stream_tokens(*old(stream)).push(Token::Str(text@)),
{
    quote::ToTokens::to_tokens(text, stream);
}

/// `quote::ToTokens::to_tokens` of an `i32`: the stream gains, at its end, the literal of the
/// number with the suffix `i32`. A negative number is kept out: `proc_macro2` may take it in as
/// two tokens, a minus sign and a literal, or as one.
#[verifier::external_body]
pub(crate) fn push_i32(stream: &mut proc_macro2::TokenStream, x: i32)
    requires
        0 <= x,
    ensures
        stream_tokens(*final(stream)) == stream_tokens(*old(stream)).push(Token::I32(x)),
{
    quote::ToTokens::to_tokens(&x, stream);
}

/// `quote::ToTokens::to_tokens` of a `u32`: the stream gains, at its end, the literal of the
/// number with the suffix `u32`.
#[verifier::external_body]
pub(crate) fn push_u32(stream: &mut proc_macro2::TokenStream, x: u32)
    ensures
        stream_tokens(*final(stream)) == stream_tokens(*old(stream)).push(Token::U32(x)),
{
    quote::ToTokens::to_tokens(&x, stream);
}

/// `quote::ToTokens::to_tokens` of a `u16`: the stream gains, at its end, the literal of the
/// number with the suffix `u16`.
#[verifier::external_body]
pub(crate) fn push_u16(stream: &mut proc_macro2::TokenStream, x: u16)
    ensures
        stream_tokens(*final(stream)) == stream_tokens(*old(stream)).push(Token::U16(x)),
{
    quote::ToTokens::to_tokens(&x, stream);
}

/// `quote::ToTokens::to_tokens` of a `u64`: the stream gains, at its end, the literal of the
/// number with the suffix `u64`.
#[verifier::external_body]
pub(crate) fn push_u64(stream: &mut proc_macro2::TokenStream, x: u64)
    ensures
        stream_tokens(*final(stream)) == stream_tokens(*old(stream)).push(Token::U64(x)),
{
    quote::ToTokens::to_tokens(&x, stream);
}

} // verus!
