use encoded::{
    accept_encoded, convert, invoke, decode_literal_token, encode_text, error_source, euc_kr, gb18030,
    koi8_r, shift_jis, sole_literal, windows_1252, Charset, Diagnostic, ErrorKind, LiteralValue,
    Span, Token,
};

fn literal(raw: &str) -> Vec<Token> {
    vec![Token::Literal(raw.to_string())]
}

#[test]
fn no_arguments_is_an_arity_error() {
    let err = shift_jis(&vec![]).unwrap_err();
    assert_eq!(err.kind, ErrorKind::Arity);
    assert_eq!(err.span, Span::CallSite);
    assert_eq!(err.message, "macro takes 1 argument");
}

#[test]
fn excess_argument_is_pointed_at() {
    let tokens = vec![Token::Literal("\"a\"".to_string()), Token::Literal("\"b\"".to_string())];
    let err = convert(&tokens, Charset::ShiftJis).unwrap_err();
    assert_eq!(err.kind, ErrorKind::Arity);
    assert_eq!(err.span, Span::Arg(1));
}

#[test]
fn identifier_is_not_a_literal() {
    let err = shift_jis(&vec![Token::Other]).unwrap_err();
    assert_eq!(
        err,
        Diagnostic {
            kind: ErrorKind::NotALiteral,
            message: "argument must be a literal".to_string(),
            span: Span::Arg(0),
        }
    );
}

#[test]
fn numeric_literal_is_not_a_string() {
    let err = shift_jis(&literal("42")).unwrap_err();
    assert_eq!(err.kind, ErrorKind::NotAString);
    assert_eq!(err.span, Span::Arg(0));
    assert_eq!(err.message, "literal must be a string");
}

#[test]
fn byte_string_literal_is_not_a_string() {
    let err = shift_jis(&literal("b\"abc\"")).unwrap_err();
    assert_eq!(err.kind, ErrorKind::NotAString);
}

#[test]
fn ideograph_is_unmappable_in_koi8_r() {
    let err = koi8_r(&literal("\"漢\"")).unwrap_err();
    assert_eq!(err.kind, ErrorKind::UnmappableCharacter);
    assert_eq!(err.span, Span::Arg(0));
    assert_eq!(err.message, "漢 cannot be converted to KOI8-R");
}

#[test]
fn unmappable_kanji_in_shift_jis() {
    let err = shift_jis(&literal("\"鷗外\"")).unwrap_err();
    assert_eq!(err.kind, ErrorKind::UnmappableCharacter);
    assert_eq!(err.message, "鷗外 cannot be converted to Shift_JIS");
}

#[test]
fn empty_string_encodes_to_nothing() {
    assert_eq!(shift_jis(&literal("\"\"")), Ok(vec![]));
}

#[test]
fn encoded_text_decodes_back() {
    let cases: Vec<(Charset, &'static encoding_rs::Encoding, &str)> = vec![
        (Charset::ShiftJis, encoding_rs::SHIFT_JIS, "漢字かなカナabc"),
        (Charset::Koi8R, encoding_rs::KOI8_R, "Кириллица"),
        (Charset::EucKr, encoding_rs::EUC_KR, "한글"),
        (Charset::Windows1252, encoding_rs::WINDOWS_1252, "œufs €"),
    ];
    for (charset, encoding, text) in cases {
        let raw = format!("\"{}\"", text);
        let bytes = convert(&literal(&raw), charset).unwrap();
        let (decoded, had_errors) = encoding.decode_without_bom_handling(&bytes);
        assert!(!had_errors);
        assert_eq!(decoded, text);
    }
}

#[test]
fn string_and_char_literals_agree() {
    for (string_raw, char_raw) in [("\"字\"", "'字'"), ("\"a\"", "'a'"), ("\"\\n\"", "'\\n'")] {
        assert_eq!(shift_jis(&literal(string_raw)), shift_jis(&literal(char_raw)));
        assert_eq!(gb18030(&literal(string_raw)), gb18030(&literal(char_raw)));
        assert_eq!(euc_kr(&literal(string_raw)), euc_kr(&literal(char_raw)));
    }
    assert_eq!(koi8_r(&literal("\"字\"")), koi8_r(&literal("'字'")));
    assert_eq!(windows_1252(&literal("\"€\"")), Ok(vec![0x80]));
    assert_eq!(windows_1252(&literal("'€'")), Ok(vec![0x80]));
}

#[test]
fn raw_string_keeps_backslashes() {
    assert_eq!(shift_jis(&literal(r#"r"\x41""#)), Ok(b"\\x41".to_vec()));
    assert_eq!(shift_jis(&literal(r#""\x41""#)), Ok(b"A".to_vec()));
}

#[test]
fn literal_tokens_decode() {
    assert_eq!(
        decode_literal_token("\"a\\tb\""),
        Some(LiteralValue::TextString("a\tb".to_string()))
    );
    assert_eq!(decode_literal_token("'\\u{5b57}'"), Some(LiteralValue::SingleChar('字')));
    assert_eq!(decode_literal_token("true"), None);
    assert_eq!(LiteralValue::SingleChar('字').into_text(), "字");
}

#[test]
fn sole_literal_returns_source_text() {
    assert_eq!(sole_literal(&literal("'x'")), Ok("'x'"));
    assert_eq!(sole_literal(&vec![Token::Other]).unwrap_err().kind, ErrorKind::NotALiteral);
}

#[test]
fn codec_output_is_accepted_or_rejected() {
    assert_eq!(accept_encoded("ab", Charset::Big5, vec![0x61, 0x62], false), Ok(vec![0x61, 0x62]));
    let err = accept_encoded("ab", Charset::Big5, vec![0x61, 0x62], true).unwrap_err();
    assert_eq!(err.kind, ErrorKind::UnmappableCharacter);
    assert_eq!(err.message, "ab cannot be converted to Big5");
    assert_eq!(err.span, Span::Arg(0));
}

#[test]
fn encode_text_transcodes() {
    assert_eq!(encode_text("漢字", Charset::ShiftJis), Ok(vec![0x8a, 0xbf, 0x8e, 0x9a]));
    assert_eq!(encode_text("abc", Charset::ShiftJis), Ok(b"abc".to_vec()));
}

#[test]
fn charset_names() {
    assert_eq!(Charset::ShiftJis.name(), "Shift_JIS");
    assert_eq!(Charset::Gb18030.name(), "gb18030");
    assert_eq!(Charset::Iso8859_8.name(), "ISO-8859-8");
}

#[test]
fn error_source_escapes_message() {
    assert_eq!(error_source("macro takes 1 argument"), "compile_error!(\"macro takes 1 argument\")");
    assert_eq!(
        error_source("a\"b\\c\rd\ne"),
        "compile_error!(\"a\\\"b\\\\c\\rd\ne\")"
    );
    assert_eq!(error_source(""), "compile_error!(\"\")");
}

#[test]
fn invoke_dispatches_by_macro_name() {
    let tokens = literal("\"漢字\"");
    assert_eq!(invoke("shift_jis", &tokens), Some(Ok(vec![0x8a, 0xbf, 0x8e, 0x9a])));
    assert_eq!(invoke("euc_jp", &tokens), Some(Ok(vec![0xb4, 0xc1, 0xbb, 0xfa])));
    assert_eq!(invoke("utf_8", &tokens), None);
    assert_eq!(invoke("Shift_JIS", &tokens), None);
    let err = invoke("koi8_r", &vec![]).unwrap().unwrap_err();
    assert_eq!(err.kind, ErrorKind::Arity);
}

#[test]
fn macro_names_round_trip() {
    assert_eq!(Charset::from_macro_name("koi8_u"), Some(Charset::Koi8U));
    assert_eq!(Charset::from_macro_name("windows_1257"), Some(Charset::Windows1257));
    assert_eq!(Charset::from_macro_name("iso_8859_1"), None);
    assert_eq!(Charset::Iso8859_16.macro_name(), "iso_8859_16");
}

#[test]
fn yen_sign_shares_the_backslash_byte() {
    assert_eq!(shift_jis(&literal("\"¥\"")), Ok(vec![0x5c]));
    assert_eq!(shift_jis(&literal("\"\\\\\"")), Ok(vec![0x5c]));
}

#[test]
fn escape_before_non_ascii_end_is_not_a_string() {
    for raw in ["\"\\n\"é", "\"\\é", "\"a\\tb\"ü"] {
        let err = shift_jis(&literal(raw)).unwrap_err();
        assert_eq!(err.kind, ErrorKind::NotAString);
        assert_eq!(err.span, Span::Arg(0));
    }
    assert_eq!(decode_literal_token("\"\\n\"é"), None);
    assert_eq!(shift_jis(&literal("\"\\n\"")), Ok(vec![0x0a]));
    assert_eq!(shift_jis(&literal("'\\n'")), Ok(vec![0x0a]));
}

#[test]
fn ascii_passes_through_every_charset() {
    let names = [
        "big5", "euc_jp", "euc_kr", "gbk", "gb18030", "iso_8859_2", "iso_8859_4", "iso_8859_5",
        "iso_8859_6", "iso_8859_7", "iso_8859_8", "iso_8859_10", "iso_8859_13", "iso_8859_15",
        "iso_8859_16", "koi8_r", "koi8_u", "shift_jis", "windows_874", "windows_1251",
        "windows_1252", "windows_1253", "windows_1254", "windows_1255", "windows_1256",
        "windows_1257",
    ];
    let raw = r#""a~\\Z 0\"""#;
    for name in names {
        assert_eq!(invoke(name, &literal(raw)), Some(Ok(b"a~\\Z 0\"".to_vec())), "{}", name);
    }
}

#[test]
fn raw_string_contents_are_encoded_as_written() {
    assert_eq!(
        shift_jis(&literal(r####"r#"漢\u{5b57}\n"#"####)),
        Ok(vec![0x8a, 0xbf, b'\\', b'u', b'{', b'5', b'b', b'5', b'7', b'}', b'\\', b'n'])
    );
}
