use vstd::prelude::*;

verus! {

/// `litrs::ParseError`, the error of litrs's literal parsers; it is carried
/// through, never read.
#[verifier::external_type_specification]
#[verifier::external_body]
pub struct ExParseError(litrs::ParseError);

/// The text that `litrs` reads from `raw` as a string or raw string literal,
/// escapes resolved; `None` where `raw` is no such literal.
pub uninterp spec fn string_literal_value(raw: Seq<char>) -> Option<Seq<char>>;

/// The character that `litrs` reads from `raw` as a character literal; `None`
/// where `raw` is no such literal.
pub uninterp spec fn char_literal_value(raw: Seq<char>) -> Option<char>;

/// Whether `raw` can be handed to litrs's string parser. At each backslash
/// escape that parser slices its input up to the start of the last character,
/// which panics unless that character is a single byte (ASCII).
pub open spec fn fits_string_parser(raw: Seq<char>) -> bool {
    !raw.contains('\\') || (raw.len() > 0 && (raw.last() as u32) < 0x80)
}

/// Whether `text` stands between the delimiters of the raw string literal
/// `raw`: after `r`, `h` hashes and a quote, and right before a quote.
pub open spec fn raw_literal_body(raw: Seq<char>, text: Seq<char>) -> bool {
    exists|h: int|
        #![trigger raw[1 + h]]
        0 <= h && 2 + h + text.len() < raw.len() && (forall|j: int| 1 <= j < 1 + h ==> raw[j] == '#')
            && raw[1 + h] == '"' && raw.subrange(2 + h, 2 + h + text.len()) == text && raw[2 + h
            + text.len()] == '"'
}

/// `n` hash signs.
pub open spec fn hashes(n: nat) -> Seq<char> {
    Seq::new(n, |i: int| '#')
}

/// Whether `raw` is the raw string literal `r#…#"body"#…#` of `body`, with no
/// quote inside `body`.
pub open spec fn is_raw_literal_of(raw: Seq<char>, body: Seq<char>) -> bool {
    &&& exists|n: nat|
        raw == seq!['r'] + #[trigger] hashes(n) + seq!['"'] + body + seq!['"'] + hashes(n)
    &&& !body.contains('"')
}

/// Relies on `litrs::StringLit::parse`, which accepts the string and raw string
/// literals, and on `StringLit::value`, the literal's text with its escapes
/// resolved; for a raw string literal that value is the text between its
/// delimiters, which `parse` locates. `parse` panics on some texts that hold a backslash and end in a
/// non-ASCII character; `requires` leaves those out.
#[verifier::external_body]
fn parse_string_literal(raw: &str) -> (r: Result<String, litrs::ParseError>)
    requires
        fits_string_parser(raw@),
    ensures
        r matches Ok(text) ==> string_literal_value(raw@) == Some(text@),
        r is Err ==> string_literal_value(raw@) is None,
        raw@.len() > 0 && raw@[0] == 'r' ==> (r matches Ok(text) ==> raw_literal_body(
            raw@,
            text@,
        )),
{
    match litrs::StringLit::parse(raw) {
        Ok(lit) => Ok(lit.value().to_string()),
        Err(e) => Err(e),
    }
}

/// Relies on `litrs::CharLit::parse`, which accepts the character literals
/// (each input it accepts starts with `'`), and on `CharLit::value`, the character that the literal denotes.
#[verifier::external_body]
fn parse_char_literal(raw: &str) -> (r: Result<char, litrs::ParseError>)
    ensures
        r matches Ok(c) ==> char_literal_value(raw@) == Some(c),
        r is Err ==> char_literal_value(raw@) is None,
        r is Ok ==> raw@.len() > 0 && raw@[0] == '\'',
{
    match litrs::CharLit::parse(raw) {
        Ok(lit) => Ok(lit.value()),
        Err(e) => Err(e),
    }
}

/// Relies on std's `String::from(char)`: the string of that one character.
#[verifier::external_body]
pub(crate) fn string_of_char(c: char) -> (r: String)
    ensures
        r@ == seq![c],
{
    String::from(c)
}

/// The decoded value of a literal token.
#[derive(Clone, Debug, PartialEq, Eq)]
pub enum LiteralValue {
    TextString(String),
    SingleChar(char),
}

/// The mathematical value of a [`LiteralValue`].
pub enum LiteralView {
    TextString(Seq<char>),
    SingleChar(char),
}

impl View for LiteralValue {
    type V = LiteralView;

    open spec fn view(&self) -> LiteralView {
        match self {
            LiteralValue::TextString(s) => LiteralView::TextString(s@),
            LiteralValue::SingleChar(c) => LiteralView::SingleChar(*c),
        }
    }
}

impl LiteralView {
    /// The text of the value: a character stands for the one-character text.
    pub open spec fn text(self) -> Seq<char> {
        match self {
            LiteralView::TextString(s) => s,
            LiteralView::SingleChar(c) => seq![c],
        }
    }
}

/// Whether the string parser may be handed `raw`; see [`fits_string_parser`].
fn check_fits_string_parser(raw: &str) -> (r: bool)
    ensures
        r == fits_string_parser(raw@),
{
    let n = raw.unicode_len();
    if n > 0 {
        let last = raw.get_char(n - 1);
        if (last as u32) < 0x80 {
            return true;
        }
        assert(raw@.last() == last);
    }
    assert(!(raw@.len() > 0 && (raw@.last() as u32) < 0x80));
    let mut i: usize = 0;
    while i < n
        invariant
            n == raw@.len(),
            i <= n,
            !(raw@.len() > 0 && (raw@.last() as u32) < 0x80),
            forall|j: int| 0 <= j < i ==> raw@[j] != '\\',
        decreases n - i,
    {
        if raw.get_char(i) == '\\' {
            assert(raw@.contains('\\'));
            return false;
        }
        i = i + 1;
    }
    true
}

/// How a raw literal token decodes: as a string literal if it is one, else as
/// a character literal if it is one, else not at all. A text that does not fit
/// the string parser is not read as a string literal; no string literal
/// without a suffix is such a text, since each one ends in `"` or `#`.
pub open spec fn decode_literal(raw: Seq<char>) -> Option<LiteralView> {
    let as_string = if fits_string_parser(raw) {
        string_literal_value(raw)
    } else {
        None
    };
    match as_string {
        Some(text) => Some(LiteralView::TextString(text)),
        None => match char_literal_value(raw) {
            Some(c) => Some(LiteralView::SingleChar(c)),
            None => None,
        },
    }
}

/// The text between the delimiters of a raw string literal is its body.
proof fn lemma_raw_body_unique(raw: Seq<char>, body: Seq<char>, text: Seq<char>)
    requires
        is_raw_literal_of(raw, body),
        raw_literal_body(raw, text),
    ensures
        text == body,
{
    let n = choose|n: nat|
        raw == seq!['r'] + #[trigger] hashes(n) + seq!['"'] + body + seq!['"'] + hashes(n);
    let h = choose|h: int|
        #![trigger raw[1 + h]]
        0 <= h && 2 + h + text.len() < raw.len() && (forall|j: int| 1 <= j < 1 + h ==> raw[j] == '#')
            && raw[1 + h] == '"' && raw.subrange(2 + h, 2 + h + text.len()) == text && raw[2 + h
            + text.len()] == '"';
    let opening = seq!['r'] + hashes(n) + seq!['"'];
    let closing = seq!['"'] + hashes(n);
    assert(raw =~= opening + body + closing);
    let (b, t) = (body.len() as int, text.len() as int);
    assert forall|k: int| 1 <= k < 1 + n implies raw[k] == '#' by {
        assert(raw[k] == opening[k]);
    }
    assert(raw[1 + n as int] == opening[1 + n as int]);
    if h < n {
        assert(raw[1 + h] == '#');
    }
    if h > n {
        assert(raw[1 + n as int] == '#');
    }
    assert(h == n);
    if t < b {
        assert(raw[2 + n + t] == body[t]);
        assert(body.contains('"'));
    }
    if t > b {
        assert(raw[2 + n + t] == closing[t - b]);
        assert(closing[t - b] == hashes(n)[t - b - 1]);
    }
    assert(t == b);
    assert(text =~= body) by {
        assert forall|k: int| 0 <= k < b implies text[k] == body[k] by {
            assert(text[k] == raw.subrange(2 + h, 2 + h + t)[k]);
            assert(raw[2 + n + k] == body[k]);
        }
    }
}

/// Decodes the source text of a literal token. A string literal is tried
/// first, then a character literal.
pub fn decode_literal_token(raw: &str) -> (r: Option<LiteralValue>)
    ensures
        r matches Some(v) ==> decode_literal(raw@) == Some(v@),
        r is None ==> decode_literal(raw@) is None,
        forall|body: Seq<char>| #[trigger]
            is_raw_literal_of(raw@, body) ==> (r matches Some(v) ==> v@ == LiteralView::TextString(
                body,
            )),
{
    if check_fits_string_parser(raw) {
        if let Ok(text) = parse_string_literal(raw) {
            proof {
                assert forall|body: Seq<char>| #[trigger]
                    is_raw_literal_of(raw@, body) implies text@ == body by {
                    let n = choose|n: nat|
                        raw@ == seq!['r'] + #[trigger] hashes(n) + seq!['"'] + body + seq!['"']
                            + hashes(n);
                    assert(raw@[0] == 'r');
                    lemma_raw_body_unique(raw@, body, text@);
                }
            }
            return Some(LiteralValue::TextString(text));
        }
    }
    proof {
        assert forall|body: Seq<char>| #[trigger] is_raw_literal_of(raw@, body) implies raw@[0]
            == 'r' by {
            let n = choose|n: nat|
                raw@ == seq!['r'] + #[trigger] hashes(n) + seq!['"'] + body + seq!['"'] + hashes(n);
            assert(raw@[0] == 'r');
        }
    }
    match parse_char_literal(raw) {
        Ok(c) => Some(LiteralValue::SingleChar(c)),
        Err(_) => None,
    }
}

impl LiteralValue {
    /// The text of the value; a character becomes a one-character text.
    pub fn into_text(self) -> (r: String)
        ensures
            r@ == self@.text(),
    {
        match self {
            LiteralValue::TextString(s) => s,
            LiteralValue::SingleChar(c) => string_of_char(c),
        }
    }
}

} // verus!
