//! Conversion of string and character literals into byte-string literals in a
//! legacy character set, as a procedural macro performs it: the argument tokens
//! are checked, the literal is decoded, the text is encoded, and either the
//! encoded bytes or a diagnostic anchored at the offending token comes out.

pub mod charset;
pub mod codec;
pub mod diagnostic;
pub mod emit;
pub mod entry;
pub mod laws;
pub mod literal;
pub mod pipeline;

pub use charset::Charset;
pub use codec::{accept_encoded, encode_text};
pub use diagnostic::{Diagnostic, ErrorKind, Span};
pub use emit::error_source;
pub use entry::{
    big5, invoke, euc_jp, euc_kr, gb18030, gbk, iso_8859_10, iso_8859_13, iso_8859_15, iso_8859_16,
    iso_8859_2, iso_8859_4, iso_8859_5, iso_8859_6, iso_8859_7, iso_8859_8, koi8_r, koi8_u,
    shift_jis, windows_1251, windows_1252, windows_1253, windows_1254, windows_1255, windows_1256,
    windows_1257, windows_874,
};
pub use literal::{decode_literal_token, LiteralValue};
pub use pipeline::{convert, sole_literal, Token};
