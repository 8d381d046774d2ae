use vstd::prelude::*;

verus! {

/// The character sets that literals can be converted into.
///
/// Each one stands for exactly one codec of `encoding_rs`; its name is that
/// codec's canonical name, which is also a label under which the codec is found.
#[derive(Clone, Copy, Debug, PartialEq, Eq, Hash)]
pub enum Charset {
    Big5,
    EucJp,
    EucKr,
    Gbk,
    Gb18030,
    Iso8859_2,
    Iso8859_4,
    Iso8859_5,
    Iso8859_6,
    Iso8859_7,
    Iso8859_8,
    Iso8859_10,
    Iso8859_13,
    Iso8859_15,
    Iso8859_16,
    Koi8R,
    Koi8U,
    ShiftJis,
    Windows874,
    Windows1251,
    Windows1252,
    Windows1253,
    Windows1254,
    Windows1255,
    Windows1256,
    Windows1257,
}

impl Charset {
    /// The canonical name of the character set.
    pub open spec fn spec_name(self) -> Seq<char> {
        match self {
            Charset::Big5 => "Big5"@,
            Charset::EucJp => "EUC-JP"@,
            Charset::EucKr => "EUC-KR"@,
            Charset::Gbk => "GBK"@,
            Charset::Gb18030 => "gb18030"@,
            Charset::Iso8859_2 => "ISO-8859-2"@,
            Charset::Iso8859_4 => "ISO-8859-4"@,
            Charset::Iso8859_5 => "ISO-8859-5"@,
            Charset::Iso8859_6 => "ISO-8859-6"@,
            Charset::Iso8859_7 => "ISO-8859-7"@,
            Charset::Iso8859_8 => "ISO-8859-8"@,
            Charset::Iso8859_10 => "ISO-8859-10"@,
            Charset::Iso8859_13 => "ISO-8859-13"@,
            Charset::Iso8859_15 => "ISO-8859-15"@,
            Charset::Iso8859_16 => "ISO-8859-16"@,
            Charset::Koi8R => "KOI8-R"@,
            Charset::Koi8U => "KOI8-U"@,
            Charset::ShiftJis => "Shift_JIS"@,
            Charset::Windows874 => "windows-874"@,
            Charset::Windows1251 => "windows-1251"@,
            Charset::Windows1252 => "windows-1252"@,
            Charset::Windows1253 => "windows-1253"@,
            Charset::Windows1254 => "windows-1254"@,
            Charset::Windows1255 => "windows-1255"@,
            Charset::Windows1256 => "windows-1256"@,
            Charset::Windows1257 => "windows-1257"@,
        }
    }

    /// The canonical name of the character set, as diagnostics show it.
    pub fn name(self) -> (r: &'static str)
        ensures
            r@ == self.spec_name(),
    {
        match self {
            Charset::Big5 => "Big5",
            Charset::EucJp => "EUC-JP",
            Charset::EucKr => "EUC-KR",
            Charset::Gbk => "GBK",
            Charset::Gb18030 => "gb18030",
            Charset::Iso8859_2 => "ISO-8859-2",
            Charset::Iso8859_4 => "ISO-8859-4",
            Charset::Iso8859_5 => "ISO-8859-5",
            Charset::Iso8859_6 => "ISO-8859-6",
            Charset::Iso8859_7 => "ISO-8859-7",
            Charset::Iso8859_8 => "ISO-8859-8",
            Charset::Iso8859_10 => "ISO-8859-10",
            Charset::Iso8859_13 => "ISO-8859-13",
            Charset::Iso8859_15 => "ISO-8859-15",
            Charset::Iso8859_16 => "ISO-8859-16",
            Charset::Koi8R => "KOI8-R",
            Charset::Koi8U => "KOI8-U",
            Charset::ShiftJis => "Shift_JIS",
            Charset::Windows874 => "windows-874",
            Charset::Windows1251 => "windows-1251",
            Charset::Windows1252 => "windows-1252",
            Charset::Windows1253 => "windows-1253",
            Charset::Windows1254 => "windows-1254",
            Charset::Windows1255 => "windows-1255",
            Charset::Windows1256 => "windows-1256",
            Charset::Windows1257 => "windows-1257",
        }
    }

    /// The name of the macro that converts into this character set.
    pub open spec fn spec_macro_name(self) -> Seq<char> {
        match self {
            Charset::Big5 => "big5"@,
            Charset::EucJp => "euc_jp"@,
            Charset::EucKr => "euc_kr"@,
            Charset::Gbk => "gbk"@,
            Charset::Gb18030 => "gb18030"@,
            Charset::Iso8859_2 => "iso_8859_2"@,
            Charset::Iso8859_4 => "iso_8859_4"@,
            Charset::Iso8859_5 => "iso_8859_5"@,
            Charset::Iso8859_6 => "iso_8859_6"@,
            Charset::Iso8859_7 => "iso_8859_7"@,
            Charset::Iso8859_8 => "iso_8859_8"@,
            Charset::Iso8859_10 => "iso_8859_10"@,
            Charset::Iso8859_13 => "iso_8859_13"@,
            Charset::Iso8859_15 => "iso_8859_15"@,
            Charset::Iso8859_16 => "iso_8859_16"@,
            Charset::Koi8R => "koi8_r"@,
            Charset::Koi8U => "koi8_u"@,
            Charset::ShiftJis => "shift_jis"@,
            Charset::Windows874 => "windows_874"@,
            Charset::Windows1251 => "windows_1251"@,
            Charset::Windows1252 => "windows_1252"@,
            Charset::Windows1253 => "windows_1253"@,
            Charset::Windows1254 => "windows_1254"@,
            Charset::Windows1255 => "windows_1255"@,
            Charset::Windows1256 => "windows_1256"@,
            Charset::Windows1257 => "windows_1257"@,
        }
    }

    /// The name of the macro that converts into this character set.
    pub fn macro_name(self) -> (r: &'static str)
        ensures
            r@ == self.spec_macro_name(),
    {
        match self {
            Charset::Big5 => "big5",
            Charset::EucJp => "euc_jp",
            Charset::EucKr => "euc_kr",
            Charset::Gbk => "gbk",
            Charset::Gb18030 => "gb18030",
            Charset::Iso8859_2 => "iso_8859_2",
            Charset::Iso8859_4 => "iso_8859_4",
            Charset::Iso8859_5 => "iso_8859_5",
            Charset::Iso8859_6 => "iso_8859_6",
            Charset::Iso8859_7 => "iso_8859_7",
            Charset::Iso8859_8 => "iso_8859_8",
            Charset::Iso8859_10 => "iso_8859_10",
            Charset::Iso8859_13 => "iso_8859_13",
            Charset::Iso8859_15 => "iso_8859_15",
            Charset::Iso8859_16 => "iso_8859_16",
            Charset::Koi8R => "koi8_r",
            Charset::Koi8U => "koi8_u",
            Charset::ShiftJis => "shift_jis",
            Charset::Windows874 => "windows_874",
            Charset::Windows1251 => "windows_1251",
            Charset::Windows1252 => "windows_1252",
            Charset::Windows1253 => "windows_1253",
            Charset::Windows1254 => "windows_1254",
            Charset::Windows1255 => "windows_1255",
            Charset::Windows1256 => "windows_1256",
            Charset::Windows1257 => "windows_1257",
        }
    }

    /// The character set whose macro is called `name`, if there is one.
    pub fn from_macro_name(name: &str) -> (r: Option<Charset>)
        ensures
            r matches Some(c) ==> c.spec_macro_name() == name@,
            r is None ==> forall|c: Charset| #[trigger] c.spec_macro_name() != name@,
    {
        if same_text(name, Charset::Big5.macro_name()) {
            return Some(Charset::Big5);
        }
        if same_text(name, Charset::EucJp.macro_name()) {
            return Some(Charset::EucJp);
        }
        if same_text(name, Charset::EucKr.macro_name()) {
            return Some(Charset::EucKr);
        }
        if same_text(name, Charset::Gbk.macro_name()) {
            return Some(Charset::Gbk);
        }
        if same_text(name, Charset::Gb18030.macro_name()) {
            return Some(Charset::Gb18030);
        }
        if same_text(name, Charset::Iso8859_2.macro_name()) {
            return Some(Charset::Iso8859_2);
        }
        if same_text(name, Charset::Iso8859_4.macro_name()) {
            return Some(Charset::Iso8859_4);
        }
        if same_text(name, Charset::Iso8859_5.macro_name()) {
            return Some(Charset::Iso8859_5);
        }
        if same_text(name, Charset::Iso8859_6.macro_name()) {
            return Some(Charset::Iso8859_6);
        }
        if same_text(name, Charset::Iso8859_7.macro_name()) {
            return Some(Charset::Iso8859_7);
        }
        if same_text(name, Charset::Iso8859_8.macro_name()) {
            return Some(Charset::Iso8859_8);
        }
        if same_text(name, Charset::Iso8859_10.macro_name()) {
            return Some(Charset::Iso8859_10);
        }
        if same_text(name, Charset::Iso8859_13.macro_name()) {
            return Some(Charset::Iso8859_13);
        }
        if same_text(name, Charset::Iso8859_15.macro_name()) {
            return Some(Charset::Iso8859_15);
        }
        if same_text(name, Charset::Iso8859_16.macro_name()) {
            return Some(Charset::Iso8859_16);
        }
        if same_text(name, Charset::Koi8R.macro_name()) {
            return Some(Charset::Koi8R);
        }
        if same_text(name, Charset::Koi8U.macro_name()) {
            return Some(Charset::Koi8U);
        }
        if same_text(name, Charset::ShiftJis.macro_name()) {
            return Some(Charset::ShiftJis);
        }
        if same_text(name, Charset::Windows874.macro_name()) {
            return Some(Charset::Windows874);
        }
        if same_text(name, Charset::Windows1251.macro_name()) {
            return Some(Charset::Windows1251);
        }
        if same_text(name, Charset::Windows1252.macro_name()) {
            return Some(Charset::Windows1252);
        }
        if same_text(name, Charset::Windows1253.macro_name()) {
            return Some(Charset::Windows1253);
        }
        if same_text(name, Charset::Windows1254.macro_name()) {
            return Some(Charset::Windows1254);
        }
        if same_text(name, Charset::Windows1255.macro_name()) {
            return Some(Charset::Windows1255);
        }
        if same_text(name, Charset::Windows1256.macro_name()) {
            return Some(Charset::Windows1256);
        }
        if same_text(name, Charset::Windows1257.macro_name()) {
            return Some(Charset::Windows1257);
        }
        None
    }
}

/// No two character sets share a macro name.
pub proof fn lemma_macro_names_distinct(a: Charset, b: Charset)
    requires
        a.spec_macro_name() == b.spec_macro_name(),
    ensures
        a == b,
{
    reveal_strlit("big5");
    reveal_strlit("euc_jp");
    reveal_strlit("euc_kr");
    reveal_strlit("gbk");
    reveal_strlit("gb18030");
    reveal_strlit("iso_8859_2");
    reveal_strlit("iso_8859_4");
    reveal_strlit("iso_8859_5");
    reveal_strlit("iso_8859_6");
    reveal_strlit("iso_8859_7");
    reveal_strlit("iso_8859_8");
    reveal_strlit("iso_8859_10");
    reveal_strlit("iso_8859_13");
    reveal_strlit("iso_8859_15");
    reveal_strlit("iso_8859_16");
    reveal_strlit("koi8_r");
    reveal_strlit("koi8_u");
    reveal_strlit("shift_jis");
    reveal_strlit("windows_874");
    reveal_strlit("windows_1251");
    reveal_strlit("windows_1252");
    reveal_strlit("windows_1253");
    reveal_strlit("windows_1254");
    reveal_strlit("windows_1255");
    reveal_strlit("windows_1256");
    reveal_strlit("windows_1257");
    // The length and the last two characters already tell the names apart.
    let (x, y) = (a.spec_macro_name(), b.spec_macro_name());
    assert(x.len() == y.len() && x.last() == y.last() && x[x.len() - 2] == y[y.len() - 2]);
}

/// Whether `a` and `b` hold the same characters.
fn same_text(a: &str, b: &str) -> (r: bool)
    ensures
        r == (a@ == b@),
{
    let n = a.unicode_len();
    if n != b.unicode_len() {
        return false;
    }
    let mut i: usize = 0;
    while i < n
        invariant
            n == a@.len(),
            n == b@.len(),
            i <= n,
            a@.subrange(0, i as int) == b@.subrange(0, i as int),
        decreases n - i,
    {
        if a.get_char(i) != b.get_char(i) {
            return false;
        }
        assert(a@.subrange(0, i + 1) =~= a@.subrange(0, i as int).push(a@[i as int]));
        assert(b@.subrange(0, i + 1) =~= b@.subrange(0, i as int).push(b@[i as int]));
        i = i + 1;
    }
    assert(a@ =~= a@.subrange(0, n as int));
    assert(b@ =~= b@.subrange(0, n as int));
    true
}

/// Whether `label` is the name of one of the supported character sets.
pub open spec fn is_charset_name(label: Seq<char>) -> bool {
    exists|c: Charset| #[trigger] c.spec_name() == label
}

} // verus!
