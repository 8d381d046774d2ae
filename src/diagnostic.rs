use vstd::prelude::*;

use crate::charset::Charset;

verus! {

/// Where a diagnostic points: at the macro invocation as a whole, or at one of
/// its argument tokens, counted from zero.
#[derive(Clone, Copy, Debug, PartialEq, Eq, Structural)]
pub enum Span {
    CallSite,
    Arg(usize),
}

/// The ways in which a conversion can fail.
#[derive(Clone, Copy, Debug, PartialEq, Eq, Structural)]
pub enum ErrorKind {
    /// The invocation did not hold exactly one token.
    Arity,
    /// The sole token is not a literal.
    NotALiteral,
    /// The literal is neither a string nor a character literal.
    NotAString,
    /// The text holds a character that the character set cannot represent.
    UnmappableCharacter,
}

/// A compile-time error, anchored at the most specific span available.
#[derive(Clone, Debug, PartialEq, Eq)]
pub struct Diagnostic {
    pub kind: ErrorKind,
    pub message: String,
    pub span: Span,
}

/// The mathematical value of a [`Diagnostic`].
pub struct DiagnosticView {
    pub kind: ErrorKind,
    pub message: Seq<char>,
    pub span: Span,
}

impl View for Diagnostic {
    type V = DiagnosticView;

    open spec fn view(&self) -> DiagnosticView {
        DiagnosticView { kind: self.kind, message: self.message@, span: self.span }
    }
}

/// The value of a conversion's result: the encoded bytes, or the diagnostic.
pub open spec fn outcome_view(r: Result<Vec<u8>, Diagnostic>) -> Result<Seq<u8>, DiagnosticView> {
    match r {
        Ok(bytes) => Ok(bytes@),
        Err(d) => Err(d@),
    }
}

/// The message for an invocation that does not hold exactly one token.
pub open spec fn arity_message() -> Seq<char> {
    "macro takes 1 argument"@
}

/// The message for a sole token that is not a literal.
pub open spec fn not_a_literal_message() -> Seq<char> {
    "argument must be a literal"@
}

/// The message for a literal that is neither a string nor a character.
pub open spec fn not_a_string_message() -> Seq<char> {
    "literal must be a string"@
}

/// The message for text that `charset` cannot represent.
pub open spec fn unmappable_message(text: Seq<char>, charset: Charset) -> Seq<char> {
    text + " cannot be converted to "@ + charset.spec_name()
}

impl Diagnostic {
    /// The diagnostic for an invocation that does not hold exactly one token.
    pub fn arity(span: Span) -> (r: Diagnostic)
        ensures
            r@ == (DiagnosticView { kind: ErrorKind::Arity, message: arity_message(), span }),
    {
        Diagnostic { kind: ErrorKind::Arity, message: String::from_str("macro takes 1 argument"), span }
    }

    /// The diagnostic for a sole token that is not a literal.
    pub fn not_a_literal(span: Span) -> (r: Diagnostic)
        ensures
            r@ == (DiagnosticView {
                kind: ErrorKind::NotALiteral,
                message: not_a_literal_message(),
                span,
            }),
    {
        Diagnostic {
            kind: ErrorKind::NotALiteral,
            message: String::from_str("argument must be a literal"),
            span,
        }
    }

    /// The diagnostic for a literal that is neither a string nor a character.
    pub fn not_a_string(span: Span) -> (r: Diagnostic)
        ensures
            r@ == (DiagnosticView {
                kind: ErrorKind::NotAString,
                message: not_a_string_message(),
                span,
            }),
    {
        Diagnostic {
            kind: ErrorKind::NotAString,
            message: String::from_str("literal must be a string"),
            span,
        }
    }

    /// The diagnostic for `text` that `charset` cannot represent.
    pub fn unmappable(text: &str, charset: Charset, span: Span) -> (r: Diagnostic)
        ensures
            r@ == (DiagnosticView {
                kind: ErrorKind::UnmappableCharacter,
                message: unmappable_message(text@, charset),
                span,
            }),
    {
        let mut message = String::from_str(text);
        message.append(" cannot be converted to ");
        message.append(charset.name());
        Diagnostic { kind: ErrorKind::UnmappableCharacter, message, span }
    }
}

} // verus!
