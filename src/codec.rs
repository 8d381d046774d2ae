use vstd::prelude::*;

use crate::charset::{is_charset_name, Charset};
use crate::diagnostic::{
    outcome_view, unmappable_message, Diagnostic, DiagnosticView, ErrorKind, Span,
};

verus! {

/// What `encoding_rs` makes of `text` in the encoding found under `label`: the
/// encoded bytes, and whether some character had no mapping.
pub uninterp spec fn encoder_output(label: Seq<char>, text: Seq<char>) -> (Seq<u8>, bool);

/// Whether every character of `text` is ASCII.
pub open spec fn is_ascii_text(text: Seq<char>) -> bool {
    forall|i: int| 0 <= i < text.len() ==> (text[i] as u32) < 0x80
}

/// The bytes of an ASCII text, one per character.
pub open spec fn ascii_bytes(text: Seq<char>) -> Seq<u8> {
    Seq::new(text.len(), |i: int| text[i] as u8)
}

/// Relies on `encoding_rs::Encoding::for_label`, to find the codec named
/// `label` (every charset name is a label of the Encoding Standard, so it is
/// found), and on `Encoding::encode`, which encodes the whole of `text` with
/// it and reports whether some character was unmappable. `encode` panics only
/// where the size of its output buffer overflows `usize`, which needs a text of
/// some 2^63 bytes. As `encode` documents, an ASCII text in an ASCII-compatible
/// encoding (each of these is) comes back as its own bytes, nothing unmappable.
#[verifier::external_body]
fn encode_with(label: &str, text: &str) -> (r: (Vec<u8>, bool))
    requires
        is_charset_name(label@),
    ensures
        (r.0@, r.1) == encoder_output(label@, text@),
        is_ascii_text(text@) ==> r.0@ == ascii_bytes(text@) && !r.1,
{
    let encoding = encoding_rs::Encoding::for_label(label.as_bytes()).unwrap();
    let (bytes, _, unmappable) = encoding.encode(text);
    (bytes.into_owned(), unmappable)
}

/// The outcome of encoding `text` into `charset`, given what the codec returned.
pub open spec fn codec_outcome(text: Seq<char>, charset: Charset, bytes: Seq<u8>, unmappable: bool)
    -> Result<Seq<u8>, DiagnosticView>
{
    if unmappable {
        Err(DiagnosticView {
            kind: ErrorKind::UnmappableCharacter,
            message: unmappable_message(text, charset),
            span: Span::Arg(0),
        })
    } else {
        Ok(bytes)
    }
}

/// The outcome of encoding `text` into `charset`.
pub open spec fn encode_outcome(text: Seq<char>, charset: Charset) -> Result<Seq<u8>, DiagnosticView> {
    let (bytes, unmappable) = encoder_output(charset.spec_name(), text);
    codec_outcome(text, charset, bytes, unmappable)
}

/// Accepts the codec's output for `text`, or rejects it when some character
/// was unmappable; the diagnostic points at the literal, the sole argument.
pub fn accept_encoded(
    text: &str,
    charset: Charset,
    bytes: Vec<u8>,
    unmappable: bool,
) -> (r: Result<Vec<u8>, Diagnostic>)
    ensures
        outcome_view(r) == codec_outcome(text@, charset, bytes@, unmappable),
{
    if unmappable {
        Err(Diagnostic::unmappable(text, charset, Span::Arg(0)))
    } else {
        Ok(bytes)
    }
}

/// Encodes the decoded text of a literal into `charset`.
pub fn encode_text(text: &str, charset: Charset) -> (r: Result<Vec<u8>, Diagnostic>)
    ensures
        outcome_view(r) == encode_outcome(text@, charset),
        is_ascii_text(text@) ==> (r matches Ok(bytes) && bytes@ == ascii_bytes(text@)),
{
    let (bytes, unmappable) = encode_with(charset.name(), text);
    accept_encoded(text, charset, bytes, unmappable)
}

} // verus!
