use vstd::prelude::*;

use crate::charset::{lemma_macro_names_distinct, Charset};
use crate::diagnostic::{outcome_view, Diagnostic};
use crate::pipeline::{convert, convert_outcome, keeps_ascii, keeps_raw_contents, Token};

verus! {

/// Runs the macro called `name` on `tokens`: the outcome of converting them
/// into that macro's character set, or `None` where no macro has that name.
pub fn invoke(name: &str, tokens: &Vec<Token>) -> (r: Option<Result<Vec<u8>, Diagnostic>>)
    ensures
        r is None <==> forall|c: Charset| #[trigger] c.spec_macro_name() != name@,
        forall|c: Charset| #[trigger]
            c.spec_macro_name() == name@ ==> (r matches Some(out) && outcome_view(out)
                == convert_outcome(tokens@, c)),
{
    match Charset::from_macro_name(name) {
        Some(charset) => {
            let out = convert(tokens, charset);
            proof {
                assert forall|c: Charset| #[trigger] c.spec_macro_name() == name@ implies c
                    == charset by {
                    lemma_macro_names_distinct(c, charset);
                }
            }
            Some(out)
        },
        None => None,
    }
}

/// Converts the sole literal argument of `tokens` into Big5.
pub fn big5(tokens: &Vec<Token>) -> (r: Result<Vec<u8>, Diagnostic>)
    ensures
        outcome_view(r) == convert_outcome(tokens@, Charset::Big5),
        keeps_ascii(tokens@, r),
        keeps_raw_contents(tokens@, Charset::Big5, r),
{
    convert(tokens, Charset::Big5)
}

/// Converts the sole literal argument of `tokens` into EUC-JP.
pub fn euc_jp(tokens: &Vec<Token>) -> (r: Result<Vec<u8>, Diagnostic>)
    ensures
        outcome_view(r) == convert_outcome(tokens@, Charset::EucJp),
        keeps_ascii(tokens@, r),
        keeps_raw_contents(tokens@, Charset::EucJp, r),
{
    convert(tokens, Charset::EucJp)
}

/// Converts the sole literal argument of `tokens` into EUC-KR.
pub fn euc_kr(tokens: &Vec<Token>) -> (r: Result<Vec<u8>, Diagnostic>)
    ensures
        outcome_view(r) == convert_outcome(tokens@, Charset::EucKr),
        keeps_ascii(tokens@, r),
        keeps_raw_contents(tokens@, Charset::EucKr, r),
{
    convert(tokens, Charset::EucKr)
}

/// Converts the sole literal argument of `tokens` into GBK.
pub fn gbk(tokens: &Vec<Token>) -> (r: Result<Vec<u8>, Diagnostic>)
    ensures
        outcome_view(r) == convert_outcome(tokens@, Charset::Gbk),
        keeps_ascii(tokens@, r),
        keeps_raw_contents(tokens@, Charset::Gbk, r),
{
    convert(tokens, Charset::Gbk)
}

/// Converts the sole literal argument of `tokens` into gb18030.
pub fn gb18030(tokens: &Vec<Token>) -> (r: Result<Vec<u8>, Diagnostic>)
    ensures
        outcome_view(r) == convert_outcome(tokens@, Charset::Gb18030),
        keeps_ascii(tokens@, r),
        keeps_raw_contents(tokens@, Charset::Gb18030, r),
{
    convert(tokens, Charset::Gb18030)
}

/// Converts the sole literal argument of `tokens` into ISO-8859-2.
pub fn iso_8859_2(tokens: &Vec<Token>) -> (r: Result<Vec<u8>, Diagnostic>)
    ensures
        outcome_view(r) == convert_outcome(tokens@, Charset::Iso8859_2),
        keeps_ascii(tokens@, r),
        keeps_raw_contents(tokens@, Charset::Iso8859_2, r),
{
    convert(tokens, Charset::Iso8859_2)
}

/// Converts the sole literal argument of `tokens` into ISO-8859-4.
pub fn iso_8859_4(tokens: &Vec<Token>) -> (r: Result<Vec<u8>, Diagnostic>)
    ensures
        outcome_view(r) == convert_outcome(tokens@, Charset::Iso8859_4),
        keeps_ascii(tokens@, r),
        keeps_raw_contents(tokens@, Charset::Iso8859_4, r),
{
    convert(tokens, Charset::Iso8859_4)
}

/// Converts the sole literal argument of `tokens` into ISO-8859-5.
pub fn iso_8859_5(tokens: &Vec<Token>) -> (r: Result<Vec<u8>, Diagnostic>)
    ensures
        outcome_view(r) == convert_outcome(tokens@, Charset::Iso8859_5),
        keeps_ascii(tokens@, r),
        keeps_raw_contents(tokens@, Charset::Iso8859_5, r),
{
    convert(tokens, Charset::Iso8859_5)
}

/// Converts the sole literal argument of `tokens` into ISO-8859-6.
pub fn iso_8859_6(tokens: &Vec<Token>) -> (r: Result<Vec<u8>, Diagnostic>)
    ensures
        outcome_view(r) == convert_outcome(tokens@, Charset::Iso8859_6),
        keeps_ascii(tokens@, r),
        keeps_raw_contents(tokens@, Charset::Iso8859_6, r),
{
    convert(tokens, Charset::Iso8859_6)
}

/// Converts the sole literal argument of `tokens` into ISO-8859-7.
pub fn iso_8859_7(tokens: &Vec<Token>) -> (r: Result<Vec<u8>, Diagnostic>)
    ensures
        outcome_view(r) == convert_outcome(tokens@, Charset::Iso8859_7),
        keeps_ascii(tokens@, r),
        keeps_raw_contents(tokens@, Charset::Iso8859_7, r),
{
    convert(tokens, Charset::Iso8859_7)
}

/// Converts the sole literal argument of `tokens` into ISO-8859-8.
pub fn iso_8859_8(tokens: &Vec<Token>) -> (r: Result<Vec<u8>, Diagnostic>)
    ensures
        outcome_view(r) == convert_outcome(tokens@, Charset::Iso8859_8),
        keeps_ascii(tokens@, r),
        keeps_raw_contents(tokens@, Charset::Iso8859_8, r),
{
    convert(tokens, Charset::Iso8859_8)
}

/// Converts the sole literal argument of `tokens` into ISO-8859-10.
pub fn iso_8859_10(tokens: &Vec<Token>) -> (r: Result<Vec<u8>, Diagnostic>)
    ensures
        outcome_view(r) == convert_outcome(tokens@, Charset::Iso8859_10),
        keeps_ascii(tokens@, r),
        keeps_raw_contents(tokens@, Charset::Iso8859_10, r),
{
    convert(tokens, Charset::Iso8859_10)
}

/// Converts the sole literal argument of `tokens` into ISO-8859-13.
pub fn iso_8859_13(tokens: &Vec<Token>) -> (r: Result<Vec<u8>, Diagnostic>)
    ensures
        outcome_view(r) == convert_outcome(tokens@, Charset::Iso8859_13),
        keeps_ascii(tokens@, r),
        keeps_raw_contents(tokens@, Charset::Iso8859_13, r),
{
    convert(tokens, Charset::Iso8859_13)
}

/// Converts the sole literal argument of `tokens` into ISO-8859-15.
pub fn iso_8859_15(tokens: &Vec<Token>) -> (r: Result<Vec<u8>, Diagnostic>)
    ensures
        outcome_view(r) == convert_outcome(tokens@, Charset::Iso8859_15),
        keeps_ascii(tokens@, r),
        keeps_raw_contents(tokens@, Charset::Iso8859_15, r),
{
    convert(tokens, Charset::Iso8859_15)
}

/// Converts the sole literal argument of `tokens` into ISO-8859-16.
pub fn iso_8859_16(tokens: &Vec<Token>) -> (r: Result<Vec<u8>, Diagnostic>)
    ensures
        outcome_view(r) == convert_outcome(tokens@, Charset::Iso8859_16),
        keeps_ascii(tokens@, r),
        keeps_raw_contents(tokens@, Charset::Iso8859_16, r),
{
    convert(tokens, Charset::Iso8859_16)
}

/// Converts the sole literal argument of `tokens` into KOI8-R.
pub fn koi8_r(tokens: &Vec<Token>) -> (r: Result<Vec<u8>, Diagnostic>)
    ensures
        outcome_view(r) == convert_outcome(tokens@, Charset::Koi8R),
        keeps_ascii(tokens@, r),
        keeps_raw_contents(tokens@, Charset::Koi8R, r),
{
    convert(tokens, Charset::Koi8R)
}

/// Converts the sole literal argument of `tokens` into KOI8-U.
pub fn koi8_u(tokens: &Vec<Token>) -> (r: Result<Vec<u8>, Diagnostic>)
    ensures
        outcome_view(r) == convert_outcome(tokens@, Charset::Koi8U),
        keeps_ascii(tokens@, r),
        keeps_raw_contents(tokens@, Charset::Koi8U, r),
{
    convert(tokens, Charset::Koi8U)
}

/// Converts the sole literal argument of `tokens` into Shift_JIS.
pub fn shift_jis(tokens: &Vec<Token>) -> (r: Result<Vec<u8>, Diagnostic>)
    ensures
        outcome_view(r) == convert_outcome(tokens@, Charset::ShiftJis),
        keeps_ascii(tokens@, r),
        keeps_raw_contents(tokens@, Charset::ShiftJis, r),
{
    convert(tokens, Charset::ShiftJis)
}

/// Converts the sole literal argument of `tokens` into windows-874.
pub fn windows_874(tokens: &Vec<Token>) -> (r: Result<Vec<u8>, Diagnostic>)
    ensures
        outcome_view(r) == convert_outcome(tokens@, Charset::Windows874),
        keeps_ascii(tokens@, r),
        keeps_raw_contents(tokens@, Charset::Windows874, r),
{
    convert(tokens, Charset::Windows874)
}

/// Converts the sole literal argument of `tokens` into windows-1251.
pub fn windows_1251(tokens: &Vec<Token>) -> (r: Result<Vec<u8>, Diagnostic>)
    ensures
        outcome_view(r) == convert_outcome(tokens@, Charset::Windows1251),
        keeps_ascii(tokens@, r),
        keeps_raw_contents(tokens@, Charset::Windows1251, r),
{
    convert(tokens, Charset::Windows1251)
}

/// Converts the sole literal argument of `tokens` into windows-1252.
pub fn windows_1252(tokens: &Vec<Token>) -> (r: Result<Vec<u8>, Diagnostic>)
    ensures
        outcome_view(r) == convert_outcome(tokens@, Charset::Windows1252),
        keeps_ascii(tokens@, r),
        keeps_raw_contents(tokens@, Charset::Windows1252, r),
{
    convert(tokens, Charset::Windows1252)
}

/// Converts the sole literal argument of `tokens` into windows-1253.
pub fn windows_1253(tokens: &Vec<Token>) -> (r: Result<Vec<u8>, Diagnostic>)
    ensures
        outcome_view(r) == convert_outcome(tokens@, Charset::Windows1253),
        keeps_ascii(tokens@, r),
        keeps_raw_contents(tokens@, Charset::Windows1253, r),
{
    convert(tokens, Charset::Windows1253)
}

/// Converts the sole literal argument of `tokens` into windows-1254.
pub fn windows_1254(tokens: &Vec<Token>) -> (r: Result<Vec<u8>, Diagnostic>)
    ensures
        outcome_view(r) == convert_outcome(tokens@, Charset::Windows1254),
        keeps_ascii(tokens@, r),
        keeps_raw_contents(tokens@, Charset::Windows1254, r),
{
    convert(tokens, Charset::Windows1254)
}

/// Converts the sole literal argument of `tokens` into windows-1255.
pub fn windows_1255(tokens: &Vec<Token>) -> (r: Result<Vec<u8>, Diagnostic>)
    ensures
        outcome_view(r) == convert_outcome(tokens@, Charset::Windows1255),
        keeps_ascii(tokens@, r),
        keeps_raw_contents(tokens@, Charset::Windows1255, r),
{
    convert(tokens, Charset::Windows1255)
}

/// Converts the sole literal argument of `tokens` into windows-1256.
pub fn windows_1256(tokens: &Vec<Token>) -> (r: Result<Vec<u8>, Diagnostic>)
    ensures
        outcome_view(r) == convert_outcome(tokens@, Charset::Windows1256),
        keeps_ascii(tokens@, r),
        keeps_raw_contents(tokens@, Charset::Windows1256, r),
{
    convert(tokens, Charset::Windows1256)
}

/// Converts the sole literal argument of `tokens` into windows-1257.
pub fn windows_1257(tokens: &Vec<Token>) -> (r: Result<Vec<u8>, Diagnostic>)
    ensures
        outcome_view(r) == convert_outcome(tokens@, Charset::Windows1257),
        keeps_ascii(tokens@, r),
        keeps_raw_contents(tokens@, Charset::Windows1257, r),
{
    convert(tokens, Charset::Windows1257)
}

} // verus!
