use vstd::prelude::*;

use crate::literal::string_of_char;

verus! {

/// A character as it is written inside a string literal: the quote, the
/// backslash and the carriage return (which may not stand bare) are escaped.
pub open spec fn escape_char(c: char) -> Seq<char> {
    if c == '"' {
        seq!['\\', '"']
    } else if c == '\\' {
        seq!['\\', '\\']
    } else if c == '\r' {
        seq!['\\', 'r']
    } else {
        seq![c]
    }
}

/// A text as it is written between the quotes of a string literal.
pub open spec fn escape_text(s: Seq<char>) -> Seq<char>
    decreases s.len(),
{
    if s.len() == 0 {
        seq![]
    } else {
        escape_text(s.drop_last()) + escape_char(s.last())
    }
}

/// The source of the expansion that reports `message` as a compile error.
pub open spec fn error_expansion(message: Seq<char>) -> Seq<char> {
    "compile_error!(\""@ + escape_text(message) + "\")"@
}

fn escaped_char(c: char) -> (r: String)
    ensures
        r@ == escape_char(c),
{
    if c == '"' {
        proof {
            reveal_strlit("\\\"");
        }
        String::from_str("\\\"")
    } else if c == '\\' {
        proof {
            reveal_strlit("\\\\");
        }
        String::from_str("\\\\")
    } else if c == '\r' {
        proof {
            reveal_strlit("\\r");
        }
        String::from_str("\\r")
    } else {
        string_of_char(c)
    }
}

/// The source of a well-formed expansion that reports `message` as a compile
/// error; whatever the message holds, it stays inside the string literal.
pub fn error_source(message: &str) -> (r: String)
    ensures
        r@ == error_expansion(message@),
{
    let n = message.unicode_len();
    let mut out = String::from_str("compile_error!(\"");
    let mut i: usize = 0;
    while i < n
        invariant
            n == message@.len(),
            i <= n,
            out@ == "compile_error!(\""@ + escape_text(message@.subrange(0, i as int)),
        decreases n - i,
    {
        let c = message.get_char(i);
        let piece = escaped_char(c);
        proof {
            let next = message@.subrange(0, i + 1);
            assert(next.drop_last() =~= message@.subrange(0, i as int));
        }
        out.append(piece.as_str());
        i = i + 1;
    }
    assert(message@.subrange(0, n as int) =~= message@);
    out.append("\")");
    out
}

} // verus!
