use vstd::prelude::*;

use crate::charset::Charset;
use crate::literal::{decode_literal, LiteralView};
use crate::pipeline::{convert_outcome, Token};

verus! {

/// A string literal whose text is the one character `c` and a character
/// literal of `c` convert alike: to the same bytes, or to the same diagnostic,
/// in every character set.
pub proof fn lemma_literal_kinds_agree(
    string_token: Token,
    char_token: Token,
    c: char,
    charset: Charset,
)
    requires
        string_token matches Token::Literal(raw) && decode_literal(raw@) == Some(
            LiteralView::TextString(seq![c]),
        ),
        char_token matches Token::Literal(raw) && decode_literal(raw@) == Some(
            LiteralView::SingleChar(c),
        ),
    ensures
        convert_outcome(seq![string_token], charset) == convert_outcome(seq![char_token], charset),
{
    assert(seq![string_token][0] == string_token);
    assert(seq![char_token][0] == char_token);
}

} // verus!
