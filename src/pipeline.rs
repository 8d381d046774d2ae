use vstd::prelude::*;

use crate::charset::Charset;
use crate::codec::{ascii_bytes, encode_outcome, encode_text, encoder_output, is_ascii_text};
use crate::diagnostic::{
    arity_message, not_a_literal_message, not_a_string_message, outcome_view, Diagnostic,
    DiagnosticView, ErrorKind, Span,
};
use crate::literal::{decode_literal, decode_literal_token, is_raw_literal_of};

verus! {

/// An argument token of a macro invocation: a literal, with its source text as
/// written (quotes, prefixes and escapes included), or any other token.
#[derive(Clone, Debug, PartialEq, Eq)]
pub enum Token {
    Literal(String),
    Other,
}

/// What the argument check makes of the invocation's tokens: the source text
/// of the sole literal, or the diagnostic. No token is an arity error at the
/// call site; an excess token is one at the first excess token.
pub open spec fn sole_literal_outcome(tokens: Seq<Token>) -> Result<Seq<char>, DiagnosticView> {
    if tokens.len() == 0 {
        Err(DiagnosticView { kind: ErrorKind::Arity, message: arity_message(), span: Span::CallSite })
    } else if tokens.len() > 1 {
        Err(DiagnosticView { kind: ErrorKind::Arity, message: arity_message(), span: Span::Arg(1) })
    } else {
        match tokens[0] {
            Token::Literal(raw) => Ok(raw@),
            Token::Other => Err(
                DiagnosticView {
                    kind: ErrorKind::NotALiteral,
                    message: not_a_literal_message(),
                    span: Span::Arg(0),
                },
            ),
        }
    }
}

/// The outcome of converting the invocation `tokens` into `charset`. A sole
/// literal that decodes as neither a string nor a character, including a text
/// that does not fit the string parser (see `fits_string_parser`), is
/// reported as not a string.
pub open spec fn convert_outcome(tokens: Seq<Token>, charset: Charset) -> Result<
    Seq<u8>,
    DiagnosticView,
> {
    match sole_literal_outcome(tokens) {
        Err(d) => Err(d),
        Ok(raw) => match decode_literal(raw) {
            None => Err(
                DiagnosticView {
                    kind: ErrorKind::NotAString,
                    message: not_a_string_message(),
                    span: Span::Arg(0),
                },
            ),
            Some(value) => encode_outcome(value.text(), charset),
        },
    }
}

/// Whether `r`, the result for `tokens`, leaves ASCII text as it is: where the
/// sole literal decodes to an ASCII text, the bytes are that text's own.
pub open spec fn keeps_ascii(tokens: Seq<Token>, r: Result<Vec<u8>, Diagnostic>) -> bool {
    tokens.len() == 1 ==> (tokens[0] matches Token::Literal(raw) ==> (decode_literal(raw@)
        matches Some(value) ==> (is_ascii_text(value.text()) ==> (r matches Ok(bytes) && bytes@
        == ascii_bytes(value.text())))))
}

/// Whether `r`, the result for `tokens`, encodes the contents of a raw string
/// literal as they stand, with no escape read in them: where the sole literal
/// is the raw string literal of `body` and decodes, `body` itself is encoded.
pub open spec fn keeps_raw_contents(tokens: Seq<Token>, charset: Charset, r: Result<
    Vec<u8>,
    Diagnostic,
>) -> bool {
    tokens.len() == 1 ==> (tokens[0] matches Token::Literal(raw) ==> forall|body: Seq<char>|
        #[trigger] is_raw_literal_of(raw@, body) && decode_literal(raw@) is Some ==> outcome_view(r)
            == encode_outcome(body, charset))
}

/// Checks that the invocation holds exactly one token and that it is a
/// literal; returns that literal's source text.
pub fn sole_literal(tokens: &Vec<Token>) -> (r: Result<&str, Diagnostic>)
    ensures
        match r {
            Ok(raw) => sole_literal_outcome(tokens@) == Ok::<Seq<char>, DiagnosticView>(raw@),
            Err(d) => sole_literal_outcome(tokens@) == Err::<Seq<char>, DiagnosticView>(d@),
        },
{
    if tokens.len() == 0 {
        return Err(Diagnostic::arity(Span::CallSite));
    }
    if tokens.len() > 1 {
        return Err(Diagnostic::arity(Span::Arg(1)));
    }
    match &tokens[0] {
        Token::Literal(raw) => Ok(raw.as_str()),
        Token::Other => Err(Diagnostic::not_a_literal(Span::Arg(0))),
    }
}

/// Converts the sole literal argument of an invocation into `charset`: the
/// encoded bytes, or the diagnostic that replaces the expansion.
pub fn convert(tokens: &Vec<Token>, charset: Charset) -> (r: Result<Vec<u8>, Diagnostic>)
    ensures
        outcome_view(r) == convert_outcome(tokens@, charset),
        tokens@.len() == 0 ==> (r matches Err(d) && d.kind == ErrorKind::Arity && d.span
            == Span::CallSite),
        tokens@.len() == 1 && tokens@[0] is Other ==> (r matches Err(d) && d.kind
            == ErrorKind::NotALiteral && d.span == Span::Arg(0)),
        tokens@.len() == 1 ==> (tokens@[0] matches Token::Literal(raw) ==> (decode_literal(raw@)
            matches Some(value) ==> (encoder_output(charset.spec_name(), value.text()).1 ==> (r
            matches Err(d) && d.kind == ErrorKind::UnmappableCharacter && d.span == Span::Arg(0))))),
        keeps_ascii(tokens@, r),
        keeps_raw_contents(tokens@, charset, r),
{
    let raw = match sole_literal(tokens) {
        Ok(raw) => raw,
        Err(d) => return Err(d),
    };
    let value = match decode_literal_token(raw) {
        Some(value) => value,
        None => return Err(Diagnostic::not_a_string(Span::Arg(0))),
    };
    let text = value.into_text();
    encode_text(text.as_str(), charset)
}

} // verus!
