//! The languages of the messages, and how one is chosen from a locale.
use vstd::prelude::*;

use crate::text::{chars_eq, chars_of, chars_slice, find_from, occurs_at, split_pieces, string_of};

mod texts;

pub use texts::{msg_for_lang, texts};

verus! {

/// A language of the messages.
#[derive(Clone, Copy, Debug, PartialEq, Eq, Structural)]
pub enum Lang {
    Zh,
    En,
    Ja,
    Ko,
    Fr,
    De,
    Es,
    Ru,
    Pt,
    It,
    Ar,
    Hi,
    Vi,
    Th,
    Tr,
    Pl,
    Nl,
    Id,
    Uk,
    Cs,
    Sv,
    El,
    He,
    Ro,
    Hu,
    Da,
    Fi,
    No,
}

/// The texts of one language: the help of each option, and the messages of
/// a run (those that hold a number or names as the text around them).
#[derive(Clone, Copy)]
pub struct I18n {
    pub about: &'static str,
    pub path: &'static str,
    pub dry_run: &'static str,
    pub write: &'static str,
    pub check: &'static str,
    pub max_segments: &'static str,
    pub keep_segments: &'static str,
    pub allow_crate: &'static str,
    pub extra_crate: &'static str,
    pub quiet: &'static str,
    pub show: &'static str,
    pub verbose: &'static str,
    pub no_cache: &'static str,
    pub failed_init_runtime: &'static str,
    /// The text before and after the number of files whose paths exceed the limit.
    pub found_exceeding_limit_parts: (&'static str, &'static str),
    /// The text before and after the number of files that can be simplified.
    pub can_be_simplified_parts: (&'static str, &'static str),
    /// The text before the file, between the file and the error, and after the error.
    pub error_processing_file_parts: (&'static str, &'static str, &'static str),
}

/// The decimal digit for `d` (below 10).
pub open spec fn digit_char(d: nat) -> char {
    ('0' as u32 + d) as char
}

/// The decimal writing of `n`.
pub open spec fn decimal(n: nat) -> Seq<char>
    decreases n,
{
    if n < 10 {
        seq![digit_char(n)]
    } else {
        decimal(n / 10) + seq![digit_char(n % 10)]
    }
}

/// The decimal writing of `n`.
pub fn decimal_string(n: usize) -> (r: String)
    ensures
        r@ == decimal(n as nat),
{
    let mut digits: Vec<char> = Vec::new();
    let mut x: usize = n;
    loop
        invariant_except_break
            decimal(n as nat) == decimal(x as nat) + digits@.reverse(),
        ensures
            decimal(n as nat) == digits@.reverse(),
        decreases x,
    {
        let d = x % 10;
        let c = if d == 0 {
            '0'
        } else if d == 1 {
            '1'
        } else if d == 2 {
            '2'
        } else if d == 3 {
            '3'
        } else if d == 4 {
            '4'
        } else if d == 5 {
            '5'
        } else if d == 6 {
            '6'
        } else if d == 7 {
            '7'
        } else if d == 8 {
            '8'
        } else {
            '9'
        };
        assert(c == digit_char(d as nat));
        let ghost before = digits@;
        digits.push(c);
        assert(digits@.reverse() =~= seq![c] + before.reverse());
        if x < 10 {
            assert(decimal(x as nat) == seq![c]);
            assert(decimal(n as nat) =~= digits@.reverse());
            break;
        }
        assert(decimal(x as nat) == decimal((x / 10) as nat) + seq![c]);
        assert(decimal(n as nat) =~= decimal((x / 10) as nat) + digits@.reverse());
        x = x / 10;
    }
    let mut out: Vec<char> = Vec::new();
    let mut i: usize = digits.len();
    while i > 0
        invariant
            i <= digits@.len(),
            out@ == digits@.subrange(i as int, digits@.len() as int).reverse(),
        decreases i,
    {
        i = i - 1;
        out.push(digits[i]);
        assert(out@ =~= digits@.subrange(i as int, digits@.len() as int).reverse());
    }
    assert(digits@.subrange(0, digits@.len() as int) =~= digits@);
    assert(out@ =~= decimal(n as nat));
    string_of(out.as_slice())
}

impl I18n {
    /// The message that `count` files have paths exceeding the limit.
    pub fn found_exceeding_limit(&self, count: usize) -> (r: String)
        ensures
            r@ == self.found_exceeding_limit_parts.0@ + decimal(count as nat) + self.found_exceeding_limit_parts.1@,
    {
        let mut s = String::new();
        s.append(self.found_exceeding_limit_parts.0);
        s.append(decimal_string(count).as_str());
        s.append(self.found_exceeding_limit_parts.1);
        s
    }

    /// The message that `count` files can be simplified.
    pub fn can_be_simplified(&self, count: usize) -> (r: String)
        ensures
            r@ == self.can_be_simplified_parts.0@ + decimal(count as nat) + self.can_be_simplified_parts.1@,
    {
        let mut s = String::new();
        s.append(self.can_be_simplified_parts.0);
        s.append(decimal_string(count).as_str());
        s.append(self.can_be_simplified_parts.1);
        s
    }

    /// The message that processing `file` failed with `err`.
    pub fn error_processing_file(&self, file: &str, err: &str) -> (r: String)
        ensures
            r@ == self.error_processing_file_parts.0@ + file@ + self.error_processing_file_parts.1@ + err@
                + self.error_processing_file_parts.2@,
    {
        let mut s = String::new();
        s.append(self.error_processing_file_parts.0);
        s.append(file);
        s.append(self.error_processing_file_parts.1);
        s.append(err);
        s.append(self.error_processing_file_parts.2);
        s
    }
}

/// The language whose code (ISO 639-1 or 639-2) or English name is `code`
/// (in lower case).
pub open spec fn code_lang(code: Seq<char>) -> Option<Lang> {
    if code == "en"@ || code == "eng"@ || code == "english"@ {
        Some(Lang::En)
    } else if code == "ja"@ || code == "jpn"@ || code == "japanese"@ {
        Some(Lang::Ja)
    } else if code == "ko"@ || code == "kor"@ || code == "korean"@ {
        Some(Lang::Ko)
    } else if code == "fr"@ || code == "fra"@ || code == "fre"@ || code == "french"@ {
        Some(Lang::Fr)
    } else if code == "de"@ || code == "deu"@ || code == "ger"@ || code == "german"@ {
        Some(Lang::De)
    } else if code == "es"@ || code == "spa"@ || code == "spanish"@ {
        Some(Lang::Es)
    } else if code == "ru"@ || code == "rus"@ || code == "russian"@ {
        Some(Lang::Ru)
    } else if code == "pt"@ || code == "por"@ || code == "portuguese"@ {
        Some(Lang::Pt)
    } else if code == "it"@ || code == "ita"@ || code == "italian"@ {
        Some(Lang::It)
    } else if code == "ar"@ || code == "ara"@ || code == "arabic"@ {
        Some(Lang::Ar)
    } else if code == "hi"@ || code == "hin"@ || code == "hindi"@ {
        Some(Lang::Hi)
    } else if code == "vi"@ || code == "vie"@ || code == "vietnamese"@ {
        Some(Lang::Vi)
    } else if code == "th"@ || code == "tha"@ || code == "thai"@ {
        Some(Lang::Th)
    } else if code == "tr"@ || code == "tur"@ || code == "turkish"@ {
        Some(Lang::Tr)
    } else if code == "pl"@ || code == "pol"@ || code == "polish"@ {
        Some(Lang::Pl)
    } else if code == "nl"@ || code == "nld"@ || code == "dut"@ || code == "dutch"@ {
        Some(Lang::Nl)
    } else if code == "id"@ || code == "ind"@ || code == "in"@ || code == "indonesian"@ {
        Some(Lang::Id)
    } else if code == "uk"@ || code == "ukr"@ || code == "ukrainian"@ {
        Some(Lang::Uk)
    } else if code == "cs"@ || code == "ces"@ || code == "cze"@ || code == "czech"@ {
        Some(Lang::Cs)
    } else if code == "sv"@ || code == "swe"@ || code == "swedish"@ {
        Some(Lang::Sv)
    } else if code == "el"@ || code == "ell"@ || code == "gre"@ || code == "greek"@ {
        Some(Lang::El)
    } else if code == "he"@ || code == "heb"@ || code == "iw"@ || code == "hebrew"@ {
        Some(Lang::He)
    } else if code == "ro"@ || code == "ron"@ || code == "rum"@ || code == "romanian"@ {
        Some(Lang::Ro)
    } else if code == "hu"@ || code == "hun"@ || code == "hungarian"@ {
        Some(Lang::Hu)
    } else if code == "da"@ || code == "dan"@ || code == "danish"@ {
        Some(Lang::Da)
    } else if code == "fi"@ || code == "fin"@ || code == "finnish"@ {
        Some(Lang::Fi)
    } else if code == "no"@ || code == "nor"@ || code == "nb"@ || code == "nn"@ || code == "norwegian"@ {
        Some(Lang::No)
    } else {
        None
    }
}

/// The ISO 639-1 code of each language.
pub open spec fn iso_code(l: Lang) -> Seq<char> {
    match l {
        Lang::Zh => "zh"@,
        Lang::En => "en"@,
        Lang::Ja => "ja"@,
        Lang::Ko => "ko"@,
        Lang::Fr => "fr"@,
        Lang::De => "de"@,
        Lang::Es => "es"@,
        Lang::Ru => "ru"@,
        Lang::Pt => "pt"@,
        Lang::It => "it"@,
        Lang::Ar => "ar"@,
        Lang::Hi => "hi"@,
        Lang::Vi => "vi"@,
        Lang::Th => "th"@,
        Lang::Tr => "tr"@,
        Lang::Pl => "pl"@,
        Lang::Nl => "nl"@,
        Lang::Id => "id"@,
        Lang::Uk => "uk"@,
        Lang::Cs => "cs"@,
        Lang::Sv => "sv"@,
        Lang::El => "el"@,
        Lang::He => "he"@,
        Lang::Ro => "ro"@,
        Lang::Hu => "hu"@,
        Lang::Da => "da"@,
        Lang::Fi => "fi"@,
        Lang::No => "no"@,
    }
}

/// The two-letter code of each language other than Chinese names that
/// language, and is not `c` or `posix`.
proof fn lemma_code_lang_iso(l: Lang)
    requires
        l != Lang::Zh,
    ensures
        code_lang(iso_code(l)) == Some(l),
        iso_code(l) != "c"@,
        iso_code(l) != "posix"@,
        iso_code(l).len() == 2,
{
    reveal_strlit("c");
    reveal_strlit("posix");
    assert("c"@.len() == 1);
    assert("posix"@.len() == 5);
    match l {
        Lang::Zh => {},
        Lang::En => {
            reveal_strlit("en");
            assert("en"@[0] == 'e' && "en"@[1] == 'n');
        },
        Lang::Ja => {
            reveal_strlit("en");
            assert("en"@[0] == 'e' && "en"@[1] == 'n');
            reveal_strlit("eng");
            reveal_strlit("english");
            reveal_strlit("ja");
            assert("ja"@[0] == 'j' && "ja"@[1] == 'a');
        },
        Lang::Ko => {
            reveal_strlit("en");
            assert("en"@[0] == 'e' && "en"@[1] == 'n');
            reveal_strlit("eng");
            reveal_strlit("english");
            reveal_strlit("ja");
            assert("ja"@[0] == 'j' && "ja"@[1] == 'a');
            reveal_strlit("jpn");
            reveal_strlit("japanese");
            reveal_strlit("ko");
            assert("ko"@[0] == 'k' && "ko"@[1] == 'o');
        },
        Lang::Fr => {
            reveal_strlit("en");
            assert("en"@[0] == 'e' && "en"@[1] == 'n');
            reveal_strlit("eng");
            reveal_strlit("english");
            reveal_strlit("ja");
            assert("ja"@[0] == 'j' && "ja"@[1] == 'a');
            reveal_strlit("jpn");
            reveal_strlit("japanese");
            reveal_strlit("ko");
            assert("ko"@[0] == 'k' && "ko"@[1] == 'o');
            reveal_strlit("kor");
            reveal_strlit("korean");
            reveal_strlit("fr");
            assert("fr"@[0] == 'f' && "fr"@[1] == 'r');
        },
        Lang::De => {
            reveal_strlit("en");
            assert("en"@[0] == 'e' && "en"@[1] == 'n');
            reveal_strlit("eng");
            reveal_strlit("english");
            reveal_strlit("ja");
            assert("ja"@[0] == 'j' && "ja"@[1] == 'a');
            reveal_strlit("jpn");
            reveal_strlit("japanese");
            reveal_strlit("ko");
            assert("ko"@[0] == 'k' && "ko"@[1] == 'o');
            reveal_strlit("kor");
            reveal_strlit("korean");
            reveal_strlit("fr");
            assert("fr"@[0] == 'f' && "fr"@[1] == 'r');
            reveal_strlit("fra");
            reveal_strlit("fre");
            reveal_strlit("french");
            reveal_strlit("de");
            assert("de"@[0] == 'd' && "de"@[1] == 'e');
        },
        Lang::Es => {
            reveal_strlit("en");
            assert("en"@[0] == 'e' && "en"@[1] == 'n');
            reveal_strlit("eng");
            reveal_strlit("english");
            reveal_strlit("ja");
            assert("ja"@[0] == 'j' && "ja"@[1] == 'a');
            reveal_strlit("jpn");
            reveal_strlit("japanese");
            reveal_strlit("ko");
            assert("ko"@[0] == 'k' && "ko"@[1] == 'o');
            reveal_strlit("kor");
            reveal_strlit("korean");
            reveal_strlit("fr");
            assert("fr"@[0] == 'f' && "fr"@[1] == 'r');
            reveal_strlit("fra");
            reveal_strlit("fre");
            reveal_strlit("french");
            reveal_strlit("de");
            assert("de"@[0] == 'd' && "de"@[1] == 'e');
            reveal_strlit("deu");
            reveal_strlit("ger");
            reveal_strlit("german");
            reveal_strlit("es");
            assert("es"@[0] == 'e' && "es"@[1] == 's');
        },
        Lang::Ru => {
            reveal_strlit("en");
            assert("en"@[0] == 'e' && "en"@[1] == 'n');
            reveal_strlit("eng");
            reveal_strlit("english");
            reveal_strlit("ja");
            assert("ja"@[0] == 'j' && "ja"@[1] == 'a');
            reveal_strlit("jpn");
            reveal_strlit("japanese");
            reveal_strlit("ko");
            assert("ko"@[0] == 'k' && "ko"@[1] == 'o');
            reveal_strlit("kor");
            reveal_strlit("korean");
            reveal_strlit("fr");
            assert("fr"@[0] == 'f' && "fr"@[1] == 'r');
            reveal_strlit("fra");
            reveal_strlit("fre");
            reveal_strlit("french");
            reveal_strlit("de");
            assert("de"@[0] == 'd' && "de"@[1] == 'e');
            reveal_strlit("deu");
            reveal_strlit("ger");
            reveal_strlit("german");
            reveal_strlit("es");
            assert("es"@[0] == 'e' && "es"@[1] == 's');
            reveal_strlit("spa");
            reveal_strlit("spanish");
            reveal_strlit("ru");
            assert("ru"@[0] == 'r' && "ru"@[1] == 'u');
        },
        Lang::Pt => {
            reveal_strlit("en");
            assert("en"@[0] == 'e' && "en"@[1] == 'n');
            reveal_strlit("eng");
            reveal_strlit("english");
            reveal_strlit("ja");
            assert("ja"@[0] == 'j' && "ja"@[1] == 'a');
            reveal_strlit("jpn");
            reveal_strlit("japanese");
            reveal_strlit("ko");
            assert("ko"@[0] == 'k' && "ko"@[1] == 'o');
            reveal_strlit("kor");
            reveal_strlit("korean");
            reveal_strlit("fr");
            assert("fr"@[0] == 'f' && "fr"@[1] == 'r');
            reveal_strlit("fra");
            reveal_strlit("fre");
            reveal_strlit("french");
            reveal_strlit("de");
            assert("de"@[0] == 'd' && "de"@[1] == 'e');
            reveal_strlit("deu");
            reveal_strlit("ger");
            reveal_strlit("german");
            reveal_strlit("es");
            assert("es"@[0] == 'e' && "es"@[1] == 's');
            reveal_strlit("spa");
            reveal_strlit("spanish");
            reveal_strlit("ru");
            assert("ru"@[0] == 'r' && "ru"@[1] == 'u');
            reveal_strlit("rus");
            reveal_strlit("russian");
            reveal_strlit("pt");
            assert("pt"@[0] == 'p' && "pt"@[1] == 't');
        },
        Lang::It => {
            reveal_strlit("en");
            assert("en"@[0] == 'e' && "en"@[1] == 'n');
            reveal_strlit("eng");
            reveal_strlit("english");
            reveal_strlit("ja");
            assert("ja"@[0] == 'j' && "ja"@[1] == 'a');
            reveal_strlit("jpn");
            reveal_strlit("japanese");
            reveal_strlit("ko");
            assert("ko"@[0] == 'k' && "ko"@[1] == 'o');
            reveal_strlit("kor");
            reveal_strlit("korean");
            reveal_strlit("fr");
            assert("fr"@[0] == 'f' && "fr"@[1] == 'r');
            reveal_strlit("fra");
            reveal_strlit("fre");
            reveal_strlit("french");
            reveal_strlit("de");
            assert("de"@[0] == 'd' && "de"@[1] == 'e');
            reveal_strlit("deu");
            reveal_strlit("ger");
            reveal_strlit("german");
            reveal_strlit("es");
            assert("es"@[0] == 'e' && "es"@[1] == 's');
            reveal_strlit("spa");
            reveal_strlit("spanish");
            reveal_strlit("ru");
            assert("ru"@[0] == 'r' && "ru"@[1] == 'u');
            reveal_strlit("rus");
            reveal_strlit("russian");
            reveal_strlit("pt");
            assert("pt"@[0] == 'p' && "pt"@[1] == 't');
            reveal_strlit("por");
            reveal_strlit("portuguese");
            reveal_strlit("it");
            assert("it"@[0] == 'i' && "it"@[1] == 't');
        },
        Lang::Ar => {
            reveal_strlit("en");
            assert("en"@[0] == 'e' && "en"@[1] == 'n');
            reveal_strlit("eng");
            reveal_strlit("english");
            reveal_strlit("ja");
            assert("ja"@[0] == 'j' && "ja"@[1] == 'a');
            reveal_strlit("jpn");
            reveal_strlit("japanese");
            reveal_strlit("ko");
            assert("ko"@[0] == 'k' && "ko"@[1] == 'o');
            reveal_strlit("kor");
            reveal_strlit("korean");
            reveal_strlit("fr");
            assert("fr"@[0] == 'f' && "fr"@[1] == 'r');
            reveal_strlit("fra");
            reveal_strlit("fre");
            reveal_strlit("french");
            reveal_strlit("de");
            assert("de"@[0] == 'd' && "de"@[1] == 'e');
            reveal_strlit("deu");
            reveal_strlit("ger");
            reveal_strlit("german");
            reveal_strlit("es");
            assert("es"@[0] == 'e' && "es"@[1] == 's');
            reveal_strlit("spa");
            reveal_strlit("spanish");
            reveal_strlit("ru");
            assert("ru"@[0] == 'r' && "ru"@[1] == 'u');
            reveal_strlit("rus");
            reveal_strlit("russian");
            reveal_strlit("pt");
            assert("pt"@[0] == 'p' && "pt"@[1] == 't');
            reveal_strlit("por");
            reveal_strlit("portuguese");
            reveal_strlit("it");
            assert("it"@[0] == 'i' && "it"@[1] == 't');
            reveal_strlit("ita");
            reveal_strlit("italian");
            reveal_strlit("ar");
            assert("ar"@[0] == 'a' && "ar"@[1] == 'r');
        },
        Lang::Hi => {
            reveal_strlit("en");
            assert("en"@[0] == 'e' && "en"@[1] == 'n');
            reveal_strlit("eng");
            reveal_strlit("english");
            reveal_strlit("ja");
            assert("ja"@[0] == 'j' && "ja"@[1] == 'a');
            reveal_strlit("jpn");
            reveal_strlit("japanese");
            reveal_strlit("ko");
            assert("ko"@[0] == 'k' && "ko"@[1] == 'o');
            reveal_strlit("kor");
            reveal_strlit("korean");
            reveal_strlit("fr");
            assert("fr"@[0] == 'f' && "fr"@[1] == 'r');
            reveal_strlit("fra");
            reveal_strlit("fre");
            reveal_strlit("french");
            reveal_strlit("de");
            assert("de"@[0] == 'd' && "de"@[1] == 'e');
            reveal_strlit("deu");
            reveal_strlit("ger");
            reveal_strlit("german");
            reveal_strlit("es");
            assert("es"@[0] == 'e' && "es"@[1] == 's');
            reveal_strlit("spa");
            reveal_strlit("spanish");
            reveal_strlit("ru");
            assert("ru"@[0] == 'r' && "ru"@[1] == 'u');
            reveal_strlit("rus");
            reveal_strlit("russian");
            reveal_strlit("pt");
            assert("pt"@[0] == 'p' && "pt"@[1] == 't');
            reveal_strlit("por");
            reveal_strlit("portuguese");
            reveal_strlit("it");
            assert("it"@[0] == 'i' && "it"@[1] == 't');
            reveal_strlit("ita");
            reveal_strlit("italian");
            reveal_strlit("ar");
            assert("ar"@[0] == 'a' && "ar"@[1] == 'r');
            reveal_strlit("ara");
            reveal_strlit("arabic");
            reveal_strlit("hi");
            assert("hi"@[0] == 'h' && "hi"@[1] == 'i');
        },
        Lang::Vi => {
            reveal_strlit("en");
            assert("en"@[0] == 'e' && "en"@[1] == 'n');
            reveal_strlit("eng");
            reveal_strlit("english");
            reveal_strlit("ja");
            assert("ja"@[0] == 'j' && "ja"@[1] == 'a');
            reveal_strlit("jpn");
            reveal_strlit("japanese");
            reveal_strlit("ko");
            assert("ko"@[0] == 'k' && "ko"@[1] == 'o');
            reveal_strlit("kor");
            reveal_strlit("korean");
            reveal_strlit("fr");
            assert("fr"@[0] == 'f' && "fr"@[1] == 'r');
            reveal_strlit("fra");
            reveal_strlit("fre");
            reveal_strlit("french");
            reveal_strlit("de");
            assert("de"@[0] == 'd' && "de"@[1] == 'e');
            reveal_strlit("deu");
            reveal_strlit("ger");
            reveal_strlit("german");
            reveal_strlit("es");
            assert("es"@[0] == 'e' && "es"@[1] == 's');
            reveal_strlit("spa");
            reveal_strlit("spanish");
            reveal_strlit("ru");
            assert("ru"@[0] == 'r' && "ru"@[1] == 'u');
            reveal_strlit("rus");
            reveal_strlit("russian");
            reveal_strlit("pt");
            assert("pt"@[0] == 'p' && "pt"@[1] == 't');
            reveal_strlit("por");
            reveal_strlit("portuguese");
            reveal_strlit("it");
            assert("it"@[0] == 'i' && "it"@[1] == 't');
            reveal_strlit("ita");
            reveal_strlit("italian");
            reveal_strlit("ar");
            assert("ar"@[0] == 'a' && "ar"@[1] == 'r');
            reveal_strlit("ara");
            reveal_strlit("arabic");
            reveal_strlit("hi");
            assert("hi"@[0] == 'h' && "hi"@[1] == 'i');
            reveal_strlit("hin");
            reveal_strlit("hindi");
            reveal_strlit("vi");
            assert("vi"@[0] == 'v' && "vi"@[1] == 'i');
        },
        Lang::Th => {
            reveal_strlit("en");
            assert("en"@[0] == 'e' && "en"@[1] == 'n');
            reveal_strlit("eng");
            reveal_strlit("english");
            reveal_strlit("ja");
            assert("ja"@[0] == 'j' && "ja"@[1] == 'a');
            reveal_strlit("jpn");
            reveal_strlit("japanese");
            reveal_strlit("ko");
            assert("ko"@[0] == 'k' && "ko"@[1] == 'o');
            reveal_strlit("kor");
            reveal_strlit("korean");
            reveal_strlit("fr");
            assert("fr"@[0] == 'f' && "fr"@[1] == 'r');
            reveal_strlit("fra");
            reveal_strlit("fre");
            reveal_strlit("french");
            reveal_strlit("de");
            assert("de"@[0] == 'd' && "de"@[1] == 'e');
            reveal_strlit("deu");
            reveal_strlit("ger");
            reveal_strlit("german");
            reveal_strlit("es");
            assert("es"@[0] == 'e' && "es"@[1] == 's');
            reveal_strlit("spa");
            reveal_strlit("spanish");
            reveal_strlit("ru");
            assert("ru"@[0] == 'r' && "ru"@[1] == 'u');
            reveal_strlit("rus");
            reveal_strlit("russian");
            reveal_strlit("pt");
            assert("pt"@[0] == 'p' && "pt"@[1] == 't');
            reveal_strlit("por");
            reveal_strlit("portuguese");
            reveal_strlit("it");
            assert("it"@[0] == 'i' && "it"@[1] == 't');
            reveal_strlit("ita");
            reveal_strlit("italian");
            reveal_strlit("ar");
            assert("ar"@[0] == 'a' && "ar"@[1] == 'r');
            reveal_strlit("ara");
            reveal_strlit("arabic");
            reveal_strlit("hi");
            assert("hi"@[0] == 'h' && "hi"@[1] == 'i');
            reveal_strlit("hin");
            reveal_strlit("hindi");
            reveal_strlit("vi");
            assert("vi"@[0] == 'v' && "vi"@[1] == 'i');
            reveal_strlit("vie");
            reveal_strlit("vietnamese");
            reveal_strlit("th");
            assert("th"@[0] == 't' && "th"@[1] == 'h');
        },
        Lang::Tr => {
            reveal_strlit("en");
            assert("en"@[0] == 'e' && "en"@[1] == 'n');
            reveal_strlit("eng");
            reveal_strlit("english");
            reveal_strlit("ja");
            assert("ja"@[0] == 'j' && "ja"@[1] == 'a');
            reveal_strlit("jpn");
            reveal_strlit("japanese");
            reveal_strlit("ko");
            assert("ko"@[0] == 'k' && "ko"@[1] == 'o');
            reveal_strlit("kor");
            reveal_strlit("korean");
            reveal_strlit("fr");
            assert("fr"@[0] == 'f' && "fr"@[1] == 'r');
            reveal_strlit("fra");
            reveal_strlit("fre");
            reveal_strlit("french");
            reveal_strlit("de");
            assert("de"@[0] == 'd' && "de"@[1] == 'e');
            reveal_strlit("deu");
            reveal_strlit("ger");
            reveal_strlit("german");
            reveal_strlit("es");
            assert("es"@[0] == 'e' && "es"@[1] == 's');
            reveal_strlit("spa");
            reveal_strlit("spanish");
            reveal_strlit("ru");
            assert("ru"@[0] == 'r' && "ru"@[1] == 'u');
            reveal_strlit("rus");
            reveal_strlit("russian");
            reveal_strlit("pt");
            assert("pt"@[0] == 'p' && "pt"@[1] == 't');
            reveal_strlit("por");
            reveal_strlit("portuguese");
            reveal_strlit("it");
            assert("it"@[0] == 'i' && "it"@[1] == 't');
            reveal_strlit("ita");
            reveal_strlit("italian");
            reveal_strlit("ar");
            assert("ar"@[0] == 'a' && "ar"@[1] == 'r');
            reveal_strlit("ara");
            reveal_strlit("arabic");
            reveal_strlit("hi");
            assert("hi"@[0] == 'h' && "hi"@[1] == 'i');
            reveal_strlit("hin");
            reveal_strlit("hindi");
            reveal_strlit("vi");
            assert("vi"@[0] == 'v' && "vi"@[1] == 'i');
            reveal_strlit("vie");
            reveal_strlit("vietnamese");
            reveal_strlit("th");
            assert("th"@[0] == 't' && "th"@[1] == 'h');
            reveal_strlit("tha");
            reveal_strlit("thai");
            reveal_strlit("tr");
            assert("tr"@[0] == 't' && "tr"@[1] == 'r');
        },
        Lang::Pl => {
            reveal_strlit("en");
            assert("en"@[0] == 'e' && "en"@[1] == 'n');
            reveal_strlit("eng");
            reveal_strlit("english");
            reveal_strlit("ja");
            assert("ja"@[0] == 'j' && "ja"@[1] == 'a');
            reveal_strlit("jpn");
            reveal_strlit("japanese");
            reveal_strlit("ko");
            assert("ko"@[0] == 'k' && "ko"@[1] == 'o');
            reveal_strlit("kor");
            reveal_strlit("korean");
            reveal_strlit("fr");
            assert("fr"@[0] == 'f' && "fr"@[1] == 'r');
            reveal_strlit("fra");
            reveal_strlit("fre");
            reveal_strlit("french");
            reveal_strlit("de");
            assert("de"@[0] == 'd' && "de"@[1] == 'e');
            reveal_strlit("deu");
            reveal_strlit("ger");
            reveal_strlit("german");
            reveal_strlit("es");
            assert("es"@[0] == 'e' && "es"@[1] == 's');
            reveal_strlit("spa");
            reveal_strlit("spanish");
            reveal_strlit("ru");
            assert("ru"@[0] == 'r' && "ru"@[1] == 'u');
            reveal_strlit("rus");
            reveal_strlit("russian");
            reveal_strlit("pt");
            assert("pt"@[0] == 'p' && "pt"@[1] == 't');
            reveal_strlit("por");
            reveal_strlit("portuguese");
            reveal_strlit("it");
            assert("it"@[0] == 'i' && "it"@[1] == 't');
            reveal_strlit("ita");
            reveal_strlit("italian");
            reveal_strlit("ar");
            assert("ar"@[0] == 'a' && "ar"@[1] == 'r');
            reveal_strlit("ara");
            reveal_strlit("arabic");
            reveal_strlit("hi");
            assert("hi"@[0] == 'h' && "hi"@[1] == 'i');
            reveal_strlit("hin");
            reveal_strlit("hindi");
            reveal_strlit("vi");
            assert("vi"@[0] == 'v' && "vi"@[1] == 'i');
            reveal_strlit("vie");
            reveal_strlit("vietnamese");
            reveal_strlit("th");
            assert("th"@[0] == 't' && "th"@[1] == 'h');
            reveal_strlit("tha");
            reveal_strlit("thai");
            reveal_strlit("tr");
            assert("tr"@[0] == 't' && "tr"@[1] == 'r');
            reveal_strlit("tur");
            reveal_strlit("turkish");
            reveal_strlit("pl");
            assert("pl"@[0] == 'p' && "pl"@[1] == 'l');
        },
        Lang::Nl => {
            reveal_strlit("en");
            assert("en"@[0] == 'e' && "en"@[1] == 'n');
            reveal_strlit("eng");
            reveal_strlit("english");
            reveal_strlit("ja");
            assert("ja"@[0] == 'j' && "ja"@[1] == 'a');
            reveal_strlit("jpn");
            reveal_strlit("japanese");
            reveal_strlit("ko");
            assert("ko"@[0] == 'k' && "ko"@[1] == 'o');
            reveal_strlit("kor");
            reveal_strlit("korean");
            reveal_strlit("fr");
            assert("fr"@[0] == 'f' && "fr"@[1] == 'r');
            reveal_strlit("fra");
            reveal_strlit("fre");
            reveal_strlit("french");
            reveal_strlit("de");
            assert("de"@[0] == 'd' && "de"@[1] == 'e');
            reveal_strlit("deu");
            reveal_strlit("ger");
            reveal_strlit("german");
            reveal_strlit("es");
            assert("es"@[0] == 'e' && "es"@[1] == 's');
            reveal_strlit("spa");
            reveal_strlit("spanish");
            reveal_strlit("ru");
            assert("ru"@[0] == 'r' && "ru"@[1] == 'u');
            reveal_strlit("rus");
            reveal_strlit("russian");
            reveal_strlit("pt");
            assert("pt"@[0] == 'p' && "pt"@[1] == 't');
            reveal_strlit("por");
            reveal_strlit("portuguese");
            reveal_strlit("it");
            assert("it"@[0] == 'i' && "it"@[1] == 't');
            reveal_strlit("ita");
            reveal_strlit("italian");
            reveal_strlit("ar");
            assert("ar"@[0] == 'a' && "ar"@[1] == 'r');
            reveal_strlit("ara");
            reveal_strlit("arabic");
            reveal_strlit("hi");
            assert("hi"@[0] == 'h' && "hi"@[1] == 'i');
            reveal_strlit("hin");
            reveal_strlit("hindi");
            reveal_strlit("vi");
            assert("vi"@[0] == 'v' && "vi"@[1] == 'i');
            reveal_strlit("vie");
            reveal_strlit("vietnamese");
            reveal_strlit("th");
            assert("th"@[0] == 't' && "th"@[1] == 'h');
            reveal_strlit("tha");
            reveal_strlit("thai");
            reveal_strlit("tr");
            assert("tr"@[0] == 't' && "tr"@[1] == 'r');
            reveal_strlit("tur");
            reveal_strlit("turkish");
            reveal_strlit("pl");
            assert("pl"@[0] == 'p' && "pl"@[1] == 'l');
            reveal_strlit("pol");
            reveal_strlit("polish");
            reveal_strlit("nl");
            assert("nl"@[0] == 'n' && "nl"@[1] == 'l');
        },
        Lang::Id => {
            reveal_strlit("en");
            assert("en"@[0] == 'e' && "en"@[1] == 'n');
            reveal_strlit("eng");
            reveal_strlit("english");
            reveal_strlit("ja");
            assert("ja"@[0] == 'j' && "ja"@[1] == 'a');
            reveal_strlit("jpn");
            reveal_strlit("japanese");
            reveal_strlit("ko");
            assert("ko"@[0] == 'k' && "ko"@[1] == 'o');
            reveal_strlit("kor");
            reveal_strlit("korean");
            reveal_strlit("fr");
            assert("fr"@[0] == 'f' && "fr"@[1] == 'r');
            reveal_strlit("fra");
            reveal_strlit("fre");
            reveal_strlit("french");
            reveal_strlit("de");
            assert("de"@[0] == 'd' && "de"@[1] == 'e');
            reveal_strlit("deu");
            reveal_strlit("ger");
            reveal_strlit("german");
            reveal_strlit("es");
            assert("es"@[0] == 'e' && "es"@[1] == 's');
            reveal_strlit("spa");
            reveal_strlit("spanish");
            reveal_strlit("ru");
            assert("ru"@[0] == 'r' && "ru"@[1] == 'u');
            reveal_strlit("rus");
            reveal_strlit("russian");
            reveal_strlit("pt");
            assert("pt"@[0] == 'p' && "pt"@[1] == 't');
            reveal_strlit("por");
            reveal_strlit("portuguese");
            reveal_strlit("it");
            assert("it"@[0] == 'i' && "it"@[1] == 't');
            reveal_strlit("ita");
            reveal_strlit("italian");
            reveal_strlit("ar");
            assert("ar"@[0] == 'a' && "ar"@[1] == 'r');
            reveal_strlit("ara");
            reveal_strlit("arabic");
            reveal_strlit("hi");
            assert("hi"@[0] == 'h' && "hi"@[1] == 'i');
            reveal_strlit("hin");
            reveal_strlit("hindi");
            reveal_strlit("vi");
            assert("vi"@[0] == 'v' && "vi"@[1] == 'i');
            reveal_strlit("vie");
            reveal_strlit("vietnamese");
            reveal_strlit("th");
            assert("th"@[0] == 't' && "th"@[1] == 'h');
            reveal_strlit("tha");
            reveal_strlit("thai");
            reveal_strlit("tr");
            assert("tr"@[0] == 't' && "tr"@[1] == 'r');
            reveal_strlit("tur");
            reveal_strlit("turkish");
            reveal_strlit("pl");
            assert("pl"@[0] == 'p' && "pl"@[1] == 'l');
            reveal_strlit("pol");
            reveal_strlit("polish");
            reveal_strlit("nl");
            assert("nl"@[0] == 'n' && "nl"@[1] == 'l');
            reveal_strlit("nld");
            reveal_strlit("dut");
            reveal_strlit("dutch");
            reveal_strlit("id");
            assert("id"@[0] == 'i' && "id"@[1] == 'd');
        },
        Lang::Uk => {
            reveal_strlit("en");
            assert("en"@[0] == 'e' && "en"@[1] == 'n');
            reveal_strlit("eng");
            reveal_strlit("english");
            reveal_strlit("ja");
            assert("ja"@[0] == 'j' && "ja"@[1] == 'a');
            reveal_strlit("jpn");
            reveal_strlit("japanese");
            reveal_strlit("ko");
            assert("ko"@[0] == 'k' && "ko"@[1] == 'o');
            reveal_strlit("kor");
            reveal_strlit("korean");
            reveal_strlit("fr");
            assert("fr"@[0] == 'f' && "fr"@[1] == 'r');
            reveal_strlit("fra");
            reveal_strlit("fre");
            reveal_strlit("french");
            reveal_strlit("de");
            assert("de"@[0] == 'd' && "de"@[1] == 'e');
            reveal_strlit("deu");
            reveal_strlit("ger");
            reveal_strlit("german");
            reveal_strlit("es");
            assert("es"@[0] == 'e' && "es"@[1] == 's');
            reveal_strlit("spa");
            reveal_strlit("spanish");
            reveal_strlit("ru");
            assert("ru"@[0] == 'r' && "ru"@[1] == 'u');
            reveal_strlit("rus");
            reveal_strlit("russian");
            reveal_strlit("pt");
            assert("pt"@[0] == 'p' && "pt"@[1] == 't');
            reveal_strlit("por");
            reveal_strlit("portuguese");
            reveal_strlit("it");
            assert("it"@[0] == 'i' && "it"@[1] == 't');
            reveal_strlit("ita");
            reveal_strlit("italian");
            reveal_strlit("ar");
            assert("ar"@[0] == 'a' && "ar"@[1] == 'r');
            reveal_strlit("ara");
            reveal_strlit("arabic");
            reveal_strlit("hi");
            assert("hi"@[0] == 'h' && "hi"@[1] == 'i');
            reveal_strlit("hin");
            reveal_strlit("hindi");
            reveal_strlit("vi");
            assert("vi"@[0] == 'v' && "vi"@[1] == 'i');
            reveal_strlit("vie");
            reveal_strlit("vietnamese");
            reveal_strlit("th");
            assert("th"@[0] == 't' && "th"@[1] == 'h');
            reveal_strlit("tha");
            reveal_strlit("thai");
            reveal_strlit("tr");
            assert("tr"@[0] == 't' && "tr"@[1] == 'r');
            reveal_strlit("tur");
            reveal_strlit("turkish");
            reveal_strlit("pl");
            assert("pl"@[0] == 'p' && "pl"@[1] == 'l');
            reveal_strlit("pol");
            reveal_strlit("polish");
            reveal_strlit("nl");
            assert("nl"@[0] == 'n' && "nl"@[1] == 'l');
            reveal_strlit("nld");
            reveal_strlit("dut");
            reveal_strlit("dutch");
            reveal_strlit("id");
            assert("id"@[0] == 'i' && "id"@[1] == 'd');
            reveal_strlit("ind");
            reveal_strlit("in");
            assert("in"@[0] == 'i' && "in"@[1] == 'n');
            reveal_strlit("indonesian");
            reveal_strlit("uk");
            assert("uk"@[0] == 'u' && "uk"@[1] == 'k');
        },
        Lang::Cs => {
            reveal_strlit("en");
            assert("en"@[0] == 'e' && "en"@[1] == 'n');
            reveal_strlit("eng");
            reveal_strlit("english");
            reveal_strlit("ja");
            assert("ja"@[0] == 'j' && "ja"@[1] == 'a');
            reveal_strlit("jpn");
            reveal_strlit("japanese");
            reveal_strlit("ko");
            assert("ko"@[0] == 'k' && "ko"@[1] == 'o');
            reveal_strlit("kor");
            reveal_strlit("korean");
            reveal_strlit("fr");
            assert("fr"@[0] == 'f' && "fr"@[1] == 'r');
            reveal_strlit("fra");
            reveal_strlit("fre");
            reveal_strlit("french");
            reveal_strlit("de");
            assert("de"@[0] == 'd' && "de"@[1] == 'e');
            reveal_strlit("deu");
            reveal_strlit("ger");
            reveal_strlit("german");
            reveal_strlit("es");
            assert("es"@[0] == 'e' && "es"@[1] == 's');
            reveal_strlit("spa");
            reveal_strlit("spanish");
            reveal_strlit("ru");
            assert("ru"@[0] == 'r' && "ru"@[1] == 'u');
            reveal_strlit("rus");
            reveal_strlit("russian");
            reveal_strlit("pt");
            assert("pt"@[0] == 'p' && "pt"@[1] == 't');
            reveal_strlit("por");
            reveal_strlit("portuguese");
            reveal_strlit("it");
            assert("it"@[0] == 'i' && "it"@[1] == 't');
            reveal_strlit("ita");
            reveal_strlit("italian");
            reveal_strlit("ar");
            assert("ar"@[0] == 'a' && "ar"@[1] == 'r');
            reveal_strlit("ara");
            reveal_strlit("arabic");
            reveal_strlit("hi");
            assert("hi"@[0] == 'h' && "hi"@[1] == 'i');
            reveal_strlit("hin");
            reveal_strlit("hindi");
            reveal_strlit("vi");
            assert("vi"@[0] == 'v' && "vi"@[1] == 'i');
            reveal_strlit("vie");
            reveal_strlit("vietnamese");
            reveal_strlit("th");
            assert("th"@[0] == 't' && "th"@[1] == 'h');
            reveal_strlit("tha");
            reveal_strlit("thai");
            reveal_strlit("tr");
            assert("tr"@[0] == 't' && "tr"@[1] == 'r');
            reveal_strlit("tur");
            reveal_strlit("turkish");
            reveal_strlit("pl");
            assert("pl"@[0] == 'p' && "pl"@[1] == 'l');
            reveal_strlit("pol");
            reveal_strlit("polish");
            reveal_strlit("nl");
            assert("nl"@[0] == 'n' && "nl"@[1] == 'l');
            reveal_strlit("nld");
            reveal_strlit("dut");
            reveal_strlit("dutch");
            reveal_strlit("id");
            assert("id"@[0] == 'i' && "id"@[1] == 'd');
            reveal_strlit("ind");
            reveal_strlit("in");
            assert("in"@[0] == 'i' && "in"@[1] == 'n');
            reveal_strlit("indonesian");
            reveal_strlit("uk");
            assert("uk"@[0] == 'u' && "uk"@[1] == 'k');
            reveal_strlit("ukr");
            reveal_strlit("ukrainian");
            reveal_strlit("cs");
            assert("cs"@[0] == 'c' && "cs"@[1] == 's');
        },
        Lang::Sv => {
            reveal_strlit("en");
            assert("en"@[0] == 'e' && "en"@[1] == 'n');
            reveal_strlit("eng");
            reveal_strlit("english");
            reveal_strlit("ja");
            assert("ja"@[0] == 'j' && "ja"@[1] == 'a');
            reveal_strlit("jpn");
            reveal_strlit("japanese");
            reveal_strlit("ko");
            assert("ko"@[0] == 'k' && "ko"@[1] == 'o');
            reveal_strlit("kor");
            reveal_strlit("korean");
            reveal_strlit("fr");
            assert("fr"@[0] == 'f' && "fr"@[1] == 'r');
            reveal_strlit("fra");
            reveal_strlit("fre");
            reveal_strlit("french");
            reveal_strlit("de");
            assert("de"@[0] == 'd' && "de"@[1] == 'e');
            reveal_strlit("deu");
            reveal_strlit("ger");
            reveal_strlit("german");
            reveal_strlit("es");
            assert("es"@[0] == 'e' && "es"@[1] == 's');
            reveal_strlit("spa");
            reveal_strlit("spanish");
            reveal_strlit("ru");
            assert("ru"@[0] == 'r' && "ru"@[1] == 'u');
            reveal_strlit("rus");
            reveal_strlit("russian");
            reveal_strlit("pt");
            assert("pt"@[0] == 'p' && "pt"@[1] == 't');
            reveal_strlit("por");
            reveal_strlit("portuguese");
            reveal_strlit("it");
            assert("it"@[0] == 'i' && "it"@[1] == 't');
            reveal_strlit("ita");
            reveal_strlit("italian");
            reveal_strlit("ar");
            assert("ar"@[0] == 'a' && "ar"@[1] == 'r');
            reveal_strlit("ara");
            reveal_strlit("arabic");
            reveal_strlit("hi");
            assert("hi"@[0] == 'h' && "hi"@[1] == 'i');
            reveal_strlit("hin");
            reveal_strlit("hindi");
            reveal_strlit("vi");
            assert("vi"@[0] == 'v' && "vi"@[1] == 'i');
            reveal_strlit("vie");
            reveal_strlit("vietnamese");
            reveal_strlit("th");
            assert("th"@[0] == 't' && "th"@[1] == 'h');
            reveal_strlit("tha");
            reveal_strlit("thai");
            reveal_strlit("tr");
            assert("tr"@[0] == 't' && "tr"@[1] == 'r');
            reveal_strlit("tur");
            reveal_strlit("turkish");
            reveal_strlit("pl");
            assert("pl"@[0] == 'p' && "pl"@[1] == 'l');
            reveal_strlit("pol");
            reveal_strlit("polish");
            reveal_strlit("nl");
            assert("nl"@[0] == 'n' && "nl"@[1] == 'l');
            reveal_strlit("nld");
            reveal_strlit("dut");
            reveal_strlit("dutch");
            reveal_strlit("id");
            assert("id"@[0] == 'i' && "id"@[1] == 'd');
            reveal_strlit("ind");
            reveal_strlit("in");
            assert("in"@[0] == 'i' && "in"@[1] == 'n');
            reveal_strlit("indonesian");
            reveal_strlit("uk");
            assert("uk"@[0] == 'u' && "uk"@[1] == 'k');
            reveal_strlit("ukr");
            reveal_strlit("ukrainian");
            reveal_strlit("cs");
            assert("cs"@[0] == 'c' && "cs"@[1] == 's');
            reveal_strlit("ces");
            reveal_strlit("cze");
            reveal_strlit("czech");
            reveal_strlit("sv");
            assert("sv"@[0] == 's' && "sv"@[1] == 'v');
        },
        Lang::El => {
            reveal_strlit("en");
            assert("en"@[0] == 'e' && "en"@[1] == 'n');
            reveal_strlit("eng");
            reveal_strlit("english");
            reveal_strlit("ja");
            assert("ja"@[0] == 'j' && "ja"@[1] == 'a');
            reveal_strlit("jpn");
            reveal_strlit("japanese");
            reveal_strlit("ko");
            assert("ko"@[0] == 'k' && "ko"@[1] == 'o');
            reveal_strlit("kor");
            reveal_strlit("korean");
            reveal_strlit("fr");
            assert("fr"@[0] == 'f' && "fr"@[1] == 'r');
            reveal_strlit("fra");
            reveal_strlit("fre");
            reveal_strlit("french");
            reveal_strlit("de");
            assert("de"@[0] == 'd' && "de"@[1] == 'e');
            reveal_strlit("deu");
            reveal_strlit("ger");
            reveal_strlit("german");
            reveal_strlit("es");
            assert("es"@[0] == 'e' && "es"@[1] == 's');
            reveal_strlit("spa");
            reveal_strlit("spanish");
            reveal_strlit("ru");
            assert("ru"@[0] == 'r' && "ru"@[1] == 'u');
            reveal_strlit("rus");
            reveal_strlit("russian");
            reveal_strlit("pt");
            assert("pt"@[0] == 'p' && "pt"@[1] == 't');
            reveal_strlit("por");
            reveal_strlit("portuguese");
            reveal_strlit("it");
            assert("it"@[0] == 'i' && "it"@[1] == 't');
            reveal_strlit("ita");
            reveal_strlit("italian");
            reveal_strlit("ar");
            assert("ar"@[0] == 'a' && "ar"@[1] == 'r');
            reveal_strlit("ara");
            reveal_strlit("arabic");
            reveal_strlit("hi");
            assert("hi"@[0] == 'h' && "hi"@[1] == 'i');
            reveal_strlit("hin");
            reveal_strlit("hindi");
            reveal_strlit("vi");
            assert("vi"@[0] == 'v' && "vi"@[1] == 'i');
            reveal_strlit("vie");
            reveal_strlit("vietnamese");
            reveal_strlit("th");
            assert("th"@[0] == 't' && "th"@[1] == 'h');
            reveal_strlit("tha");
            reveal_strlit("thai");
            reveal_strlit("tr");
            assert("tr"@[0] == 't' && "tr"@[1] == 'r');
            reveal_strlit("tur");
            reveal_strlit("turkish");
            reveal_strlit("pl");
            assert("pl"@[0] == 'p' && "pl"@[1] == 'l');
            reveal_strlit("pol");
            reveal_strlit("polish");
            reveal_strlit("nl");
            assert("nl"@[0] == 'n' && "nl"@[1] == 'l');
            reveal_strlit("nld");
            reveal_strlit("dut");
            reveal_strlit("dutch");
            reveal_strlit("id");
            assert("id"@[0] == 'i' && "id"@[1] == 'd');
            reveal_strlit("ind");
            reveal_strlit("in");
            assert("in"@[0] == 'i' && "in"@[1] == 'n');
            reveal_strlit("indonesian");
            reveal_strlit("uk");
            assert("uk"@[0] == 'u' && "uk"@[1] == 'k');
            reveal_strlit("ukr");
            reveal_strlit("ukrainian");
            reveal_strlit("cs");
            assert("cs"@[0] == 'c' && "cs"@[1] == 's');
            reveal_strlit("ces");
            reveal_strlit("cze");
            reveal_strlit("czech");
            reveal_strlit("sv");
            assert("sv"@[0] == 's' && "sv"@[1] == 'v');
            reveal_strlit("swe");
            reveal_strlit("swedish");
            reveal_strlit("el");
            assert("el"@[0] == 'e' && "el"@[1] == 'l');
        },
        Lang::He => {
            reveal_strlit("en");
            assert("en"@[0] == 'e' && "en"@[1] == 'n');
            reveal_strlit("eng");
            reveal_strlit("english");
            reveal_strlit("ja");
            assert("ja"@[0] == 'j' && "ja"@[1] == 'a');
            reveal_strlit("jpn");
            reveal_strlit("japanese");
            reveal_strlit("ko");
            assert("ko"@[0] == 'k' && "ko"@[1] == 'o');
            reveal_strlit("kor");
            reveal_strlit("korean");
            reveal_strlit("fr");
            assert("fr"@[0] == 'f' && "fr"@[1] == 'r');
            reveal_strlit("fra");
            reveal_strlit("fre");
            reveal_strlit("french");
            reveal_strlit("de");
            assert("de"@[0] == 'd' && "de"@[1] == 'e');
            reveal_strlit("deu");
            reveal_strlit("ger");
            reveal_strlit("german");
            reveal_strlit("es");
            assert("es"@[0] == 'e' && "es"@[1] == 's');
            reveal_strlit("spa");
            reveal_strlit("spanish");
            reveal_strlit("ru");
            assert("ru"@[0] == 'r' && "ru"@[1] == 'u');
            reveal_strlit("rus");
            reveal_strlit("russian");
            reveal_strlit("pt");
            assert("pt"@[0] == 'p' && "pt"@[1] == 't');
            reveal_strlit("por");
            reveal_strlit("portuguese");
            reveal_strlit("it");
            assert("it"@[0] == 'i' && "it"@[1] == 't');
            reveal_strlit("ita");
            reveal_strlit("italian");
            reveal_strlit("ar");
            assert("ar"@[0] == 'a' && "ar"@[1] == 'r');
            reveal_strlit("ara");
            reveal_strlit("arabic");
            reveal_strlit("hi");
            assert("hi"@[0] == 'h' && "hi"@[1] == 'i');
            reveal_strlit("hin");
            reveal_strlit("hindi");
            reveal_strlit("vi");
            assert("vi"@[0] == 'v' && "vi"@[1] == 'i');
            reveal_strlit("vie");
            reveal_strlit("vietnamese");
            reveal_strlit("th");
            assert("th"@[0] == 't' && "th"@[1] == 'h');
            reveal_strlit("tha");
            reveal_strlit("thai");
            reveal_strlit("tr");
            assert("tr"@[0] == 't' && "tr"@[1] == 'r');
            reveal_strlit("tur");
            reveal_strlit("turkish");
            reveal_strlit("pl");
            assert("pl"@[0] == 'p' && "pl"@[1] == 'l');
            reveal_strlit("pol");
            reveal_strlit("polish");
            reveal_strlit("nl");
            assert("nl"@[0] == 'n' && "nl"@[1] == 'l');
            reveal_strlit("nld");
            reveal_strlit("dut");
            reveal_strlit("dutch");
            reveal_strlit("id");
            assert("id"@[0] == 'i' && "id"@[1] == 'd');
            reveal_strlit("ind");
            reveal_strlit("in");
            assert("in"@[0] == 'i' && "in"@[1] == 'n');
            reveal_strlit("indonesian");
            reveal_strlit("uk");
            assert("uk"@[0] == 'u' && "uk"@[1] == 'k');
            reveal_strlit("ukr");
            reveal_strlit("ukrainian");
            reveal_strlit("cs");
            assert("cs"@[0] == 'c' && "cs"@[1] == 's');
            reveal_strlit("ces");
            reveal_strlit("cze");
            reveal_strlit("czech");
            reveal_strlit("sv");
            assert("sv"@[0] == 's' && "sv"@[1] == 'v');
            reveal_strlit("swe");
            reveal_strlit("swedish");
            reveal_strlit("el");
            assert("el"@[0] == 'e' && "el"@[1] == 'l');
            reveal_strlit("ell");
            reveal_strlit("gre");
            reveal_strlit("greek");
            reveal_strlit("he");
            assert("he"@[0] == 'h' && "he"@[1] == 'e');
        },
        Lang::Ro => {
            reveal_strlit("en");
            assert("en"@[0] == 'e' && "en"@[1] == 'n');
            reveal_strlit("eng");
            reveal_strlit("english");
            reveal_strlit("ja");
            assert("ja"@[0] == 'j' && "ja"@[1] == 'a');
            reveal_strlit("jpn");
            reveal_strlit("japanese");
            reveal_strlit("ko");
            assert("ko"@[0] == 'k' && "ko"@[1] == 'o');
            reveal_strlit("kor");
            reveal_strlit("korean");
            reveal_strlit("fr");
            assert("fr"@[0] == 'f' && "fr"@[1] == 'r');
            reveal_strlit("fra");
            reveal_strlit("fre");
            reveal_strlit("french");
            reveal_strlit("de");
            assert("de"@[0] == 'd' && "de"@[1] == 'e');
            reveal_strlit("deu");
            reveal_strlit("ger");
            reveal_strlit("german");
            reveal_strlit("es");
            assert("es"@[0] == 'e' && "es"@[1] == 's');
            reveal_strlit("spa");
            reveal_strlit("spanish");
            reveal_strlit("ru");
            assert("ru"@[0] == 'r' && "ru"@[1] == 'u');
            reveal_strlit("rus");
            reveal_strlit("russian");
            reveal_strlit("pt");
            assert("pt"@[0] == 'p' && "pt"@[1] == 't');
            reveal_strlit("por");
            reveal_strlit("portuguese");
            reveal_strlit("it");
            assert("it"@[0] == 'i' && "it"@[1] == 't');
            reveal_strlit("ita");
            reveal_strlit("italian");
            reveal_strlit("ar");
            assert("ar"@[0] == 'a' && "ar"@[1] == 'r');
            reveal_strlit("ara");
            reveal_strlit("arabic");
            reveal_strlit("hi");
            assert("hi"@[0] == 'h' && "hi"@[1] == 'i');
            reveal_strlit("hin");
            reveal_strlit("hindi");
            reveal_strlit("vi");
            assert("vi"@[0] == 'v' && "vi"@[1] == 'i');
            reveal_strlit("vie");
            reveal_strlit("vietnamese");
            reveal_strlit("th");
            assert("th"@[0] == 't' && "th"@[1] == 'h');
            reveal_strlit("tha");
            reveal_strlit("thai");
            reveal_strlit("tr");
            assert("tr"@[0] == 't' && "tr"@[1] == 'r');
            reveal_strlit("tur");
            reveal_strlit("turkish");
            reveal_strlit("pl");
            assert("pl"@[0] == 'p' && "pl"@[1] == 'l');
            reveal_strlit("pol");
            reveal_strlit("polish");
            reveal_strlit("nl");
            assert("nl"@[0] == 'n' && "nl"@[1] == 'l');
            reveal_strlit("nld");
            reveal_strlit("dut");
            reveal_strlit("dutch");
            reveal_strlit("id");
            assert("id"@[0] == 'i' && "id"@[1] == 'd');
            reveal_strlit("ind");
            reveal_strlit("in");
            assert("in"@[0] == 'i' && "in"@[1] == 'n');
            reveal_strlit("indonesian");
            reveal_strlit("uk");
            assert("uk"@[0] == 'u' && "uk"@[1] == 'k');
            reveal_strlit("ukr");
            reveal_strlit("ukrainian");
            reveal_strlit("cs");
            assert("cs"@[0] == 'c' && "cs"@[1] == 's');
            reveal_strlit("ces");
            reveal_strlit("cze");
            reveal_strlit("czech");
            reveal_strlit("sv");
            assert("sv"@[0] == 's' && "sv"@[1] == 'v');
            reveal_strlit("swe");
            reveal_strlit("swedish");
            reveal_strlit("el");
            assert("el"@[0] == 'e' && "el"@[1] == 'l');
            reveal_strlit("ell");
            reveal_strlit("gre");
            reveal_strlit("greek");
            reveal_strlit("he");
            assert("he"@[0] == 'h' && "he"@[1] == 'e');
            reveal_strlit("heb");
            reveal_strlit("iw");
            assert("iw"@[0] == 'i' && "iw"@[1] == 'w');
            reveal_strlit("hebrew");
            reveal_strlit("ro");
            assert("ro"@[0] == 'r' && "ro"@[1] == 'o');
        },
        Lang::Hu => {
            reveal_strlit("en");
            assert("en"@[0] == 'e' && "en"@[1] == 'n');
            reveal_strlit("eng");
            reveal_strlit("english");
            reveal_strlit("ja");
            assert("ja"@[0] == 'j' && "ja"@[1] == 'a');
            reveal_strlit("jpn");
            reveal_strlit("japanese");
            reveal_strlit("ko");
            assert("ko"@[0] == 'k' && "ko"@[1] == 'o');
            reveal_strlit("kor");
            reveal_strlit("korean");
            reveal_strlit("fr");
            assert("fr"@[0] == 'f' && "fr"@[1] == 'r');
            reveal_strlit("fra");
            reveal_strlit("fre");
            reveal_strlit("french");
            reveal_strlit("de");
            assert("de"@[0] == 'd' && "de"@[1] == 'e');
            reveal_strlit("deu");
            reveal_strlit("ger");
            reveal_strlit("german");
            reveal_strlit("es");
            assert("es"@[0] == 'e' && "es"@[1] == 's');
            reveal_strlit("spa");
            reveal_strlit("spanish");
            reveal_strlit("ru");
            assert("ru"@[0] == 'r' && "ru"@[1] == 'u');
            reveal_strlit("rus");
            reveal_strlit("russian");
            reveal_strlit("pt");
            assert("pt"@[0] == 'p' && "pt"@[1] == 't');
            reveal_strlit("por");
            reveal_strlit("portuguese");
            reveal_strlit("it");
            assert("it"@[0] == 'i' && "it"@[1] == 't');
            reveal_strlit("ita");
            reveal_strlit("italian");
            reveal_strlit("ar");
            assert("ar"@[0] == 'a' && "ar"@[1] == 'r');
            reveal_strlit("ara");
            reveal_strlit("arabic");
            reveal_strlit("hi");
            assert("hi"@[0] == 'h' && "hi"@[1] == 'i');
            reveal_strlit("hin");
            reveal_strlit("hindi");
            reveal_strlit("vi");
            assert("vi"@[0] == 'v' && "vi"@[1] == 'i');
            reveal_strlit("vie");
            reveal_strlit("vietnamese");
            reveal_strlit("th");
            assert("th"@[0] == 't' && "th"@[1] == 'h');
            reveal_strlit("tha");
            reveal_strlit("thai");
            reveal_strlit("tr");
            assert("tr"@[0] == 't' && "tr"@[1] == 'r');
            reveal_strlit("tur");
            reveal_strlit("turkish");
            reveal_strlit("pl");
            assert("pl"@[0] == 'p' && "pl"@[1] == 'l');
            reveal_strlit("pol");
            reveal_strlit("polish");
            reveal_strlit("nl");
            assert("nl"@[0] == 'n' && "nl"@[1] == 'l');
            reveal_strlit("nld");
            reveal_strlit("dut");
            reveal_strlit("dutch");
            reveal_strlit("id");
            assert("id"@[0] == 'i' && "id"@[1] == 'd');
            reveal_strlit("ind");
            reveal_strlit("in");
            assert("in"@[0] == 'i' && "in"@[1] == 'n');
            reveal_strlit("indonesian");
            reveal_strlit("uk");
            assert("uk"@[0] == 'u' && "uk"@[1] == 'k');
            reveal_strlit("ukr");
            reveal_strlit("ukrainian");
            reveal_strlit("cs");
            assert("cs"@[0] == 'c' && "cs"@[1] == 's');
            reveal_strlit("ces");
            reveal_strlit("cze");
            reveal_strlit("czech");
            reveal_strlit("sv");
            assert("sv"@[0] == 's' && "sv"@[1] == 'v');
            reveal_strlit("swe");
            reveal_strlit("swedish");
            reveal_strlit("el");
            assert("el"@[0] == 'e' && "el"@[1] == 'l');
            reveal_strlit("ell");
            reveal_strlit("gre");
            reveal_strlit("greek");
            reveal_strlit("he");
            assert("he"@[0] == 'h' && "he"@[1] == 'e');
            reveal_strlit("heb");
            reveal_strlit("iw");
            assert("iw"@[0] == 'i' && "iw"@[1] == 'w');
            reveal_strlit("hebrew");
            reveal_strlit("ro");
            assert("ro"@[0] == 'r' && "ro"@[1] == 'o');
            reveal_strlit("ron");
            reveal_strlit("rum");
            reveal_strlit("romanian");
            reveal_strlit("hu");
            assert("hu"@[0] == 'h' && "hu"@[1] == 'u');
        },
        Lang::Da => {
            reveal_strlit("en");
            assert("en"@[0] == 'e' && "en"@[1] == 'n');
            reveal_strlit("eng");
            reveal_strlit("english");
            reveal_strlit("ja");
            assert("ja"@[0] == 'j' && "ja"@[1] == 'a');
            reveal_strlit("jpn");
            reveal_strlit("japanese");
            reveal_strlit("ko");
            assert("ko"@[0] == 'k' && "ko"@[1] == 'o');
            reveal_strlit("kor");
            reveal_strlit("korean");
            reveal_strlit("fr");
            assert("fr"@[0] == 'f' && "fr"@[1] == 'r');
            reveal_strlit("fra");
            reveal_strlit("fre");
            reveal_strlit("french");
            reveal_strlit("de");
            assert("de"@[0] == 'd' && "de"@[1] == 'e');
            reveal_strlit("deu");
            reveal_strlit("ger");
            reveal_strlit("german");
            reveal_strlit("es");
            assert("es"@[0] == 'e' && "es"@[1] == 's');
            reveal_strlit("spa");
            reveal_strlit("spanish");
            reveal_strlit("ru");
            assert("ru"@[0] == 'r' && "ru"@[1] == 'u');
            reveal_strlit("rus");
            reveal_strlit("russian");
            reveal_strlit("pt");
            assert("pt"@[0] == 'p' && "pt"@[1] == 't');
            reveal_strlit("por");
            reveal_strlit("portuguese");
            reveal_strlit("it");
            assert("it"@[0] == 'i' && "it"@[1] == 't');
            reveal_strlit("ita");
            reveal_strlit("italian");
            reveal_strlit("ar");
            assert("ar"@[0] == 'a' && "ar"@[1] == 'r');
            reveal_strlit("ara");
            reveal_strlit("arabic");
            reveal_strlit("hi");
            assert("hi"@[0] == 'h' && "hi"@[1] == 'i');
            reveal_strlit("hin");
            reveal_strlit("hindi");
            reveal_strlit("vi");
            assert("vi"@[0] == 'v' && "vi"@[1] == 'i');
            reveal_strlit("vie");
            reveal_strlit("vietnamese");
            reveal_strlit("th");
            assert("th"@[0] == 't' && "th"@[1] == 'h');
            reveal_strlit("tha");
            reveal_strlit("thai");
            reveal_strlit("tr");
            assert("tr"@[0] == 't' && "tr"@[1] == 'r');
            reveal_strlit("tur");
            reveal_strlit("turkish");
            reveal_strlit("pl");
            assert("pl"@[0] == 'p' && "pl"@[1] == 'l');
            reveal_strlit("pol");
            reveal_strlit("polish");
            reveal_strlit("nl");
            assert("nl"@[0] == 'n' && "nl"@[1] == 'l');
            reveal_strlit("nld");
            reveal_strlit("dut");
            reveal_strlit("dutch");
            reveal_strlit("id");
            assert("id"@[0] == 'i' && "id"@[1] == 'd');
            reveal_strlit("ind");
            reveal_strlit("in");
            assert("in"@[0] == 'i' && "in"@[1] == 'n');
            reveal_strlit("indonesian");
            reveal_strlit("uk");
            assert("uk"@[0] == 'u' && "uk"@[1] == 'k');
            reveal_strlit("ukr");
            reveal_strlit("ukrainian");
            reveal_strlit("cs");
            assert("cs"@[0] == 'c' && "cs"@[1] == 's');
            reveal_strlit("ces");
            reveal_strlit("cze");
            reveal_strlit("czech");
            reveal_strlit("sv");
            assert("sv"@[0] == 's' && "sv"@[1] == 'v');
            reveal_strlit("swe");
            reveal_strlit("swedish");
            reveal_strlit("el");
            assert("el"@[0] == 'e' && "el"@[1] == 'l');
            reveal_strlit("ell");
            reveal_strlit("gre");
            reveal_strlit("greek");
            reveal_strlit("he");
            assert("he"@[0] == 'h' && "he"@[1] == 'e');
            reveal_strlit("heb");
            reveal_strlit("iw");
            assert("iw"@[0] == 'i' && "iw"@[1] == 'w');
            reveal_strlit("hebrew");
            reveal_strlit("ro");
            assert("ro"@[0] == 'r' && "ro"@[1] == 'o');
            reveal_strlit("ron");
            reveal_strlit("rum");
            reveal_strlit("romanian");
            reveal_strlit("hu");
            assert("hu"@[0] == 'h' && "hu"@[1] == 'u');
            reveal_strlit("hun");
            reveal_strlit("hungarian");
            reveal_strlit("da");
            assert("da"@[0] == 'd' && "da"@[1] == 'a');
        },
        Lang::Fi => {
            reveal_strlit("en");
            assert("en"@[0] == 'e' && "en"@[1] == 'n');
            reveal_strlit("eng");
            reveal_strlit("english");
            reveal_strlit("ja");
            assert("ja"@[0] == 'j' && "ja"@[1] == 'a');
            reveal_strlit("jpn");
            reveal_strlit("japanese");
            reveal_strlit("ko");
            assert("ko"@[0] == 'k' && "ko"@[1] == 'o');
            reveal_strlit("kor");
            reveal_strlit("korean");
            reveal_strlit("fr");
            assert("fr"@[0] == 'f' && "fr"@[1] == 'r');
            reveal_strlit("fra");
            reveal_strlit("fre");
            reveal_strlit("french");
            reveal_strlit("de");
            assert("de"@[0] == 'd' && "de"@[1] == 'e');
            reveal_strlit("deu");
            reveal_strlit("ger");
            reveal_strlit("german");
            reveal_strlit("es");
            assert("es"@[0] == 'e' && "es"@[1] == 's');
            reveal_strlit("spa");
            reveal_strlit("spanish");
            reveal_strlit("ru");
            assert("ru"@[0] == 'r' && "ru"@[1] == 'u');
            reveal_strlit("rus");
            reveal_strlit("russian");
            reveal_strlit("pt");
            assert("pt"@[0] == 'p' && "pt"@[1] == 't');
            reveal_strlit("por");
            reveal_strlit("portuguese");
            reveal_strlit("it");
            assert("it"@[0] == 'i' && "it"@[1] == 't');
            reveal_strlit("ita");
            reveal_strlit("italian");
            reveal_strlit("ar");
            assert("ar"@[0] == 'a' && "ar"@[1] == 'r');
            reveal_strlit("ara");
            reveal_strlit("arabic");
            reveal_strlit("hi");
            assert("hi"@[0] == 'h' && "hi"@[1] == 'i');
            reveal_strlit("hin");
            reveal_strlit("hindi");
            reveal_strlit("vi");
            assert("vi"@[0] == 'v' && "vi"@[1] == 'i');
            reveal_strlit("vie");
            reveal_strlit("vietnamese");
            reveal_strlit("th");
            assert("th"@[0] == 't' && "th"@[1] == 'h');
            reveal_strlit("tha");
            reveal_strlit("thai");
            reveal_strlit("tr");
            assert("tr"@[0] == 't' && "tr"@[1] == 'r');
            reveal_strlit("tur");
            reveal_strlit("turkish");
            reveal_strlit("pl");
            assert("pl"@[0] == 'p' && "pl"@[1] == 'l');
            reveal_strlit("pol");
            reveal_strlit("polish");
            reveal_strlit("nl");
            assert("nl"@[0] == 'n' && "nl"@[1] == 'l');
            reveal_strlit("nld");
            reveal_strlit("dut");
            reveal_strlit("dutch");
            reveal_strlit("id");
            assert("id"@[0] == 'i' && "id"@[1] == 'd');
            reveal_strlit("ind");
            reveal_strlit("in");
            assert("in"@[0] == 'i' && "in"@[1] == 'n');
            reveal_strlit("indonesian");
            reveal_strlit("uk");
            assert("uk"@[0] == 'u' && "uk"@[1] == 'k');
            reveal_strlit("ukr");
            reveal_strlit("ukrainian");
            reveal_strlit("cs");
            assert("cs"@[0] == 'c' && "cs"@[1] == 's');
            reveal_strlit("ces");
            reveal_strlit("cze");
            reveal_strlit("czech");
            reveal_strlit("sv");
            assert("sv"@[0] == 's' && "sv"@[1] == 'v');
            reveal_strlit("swe");
            reveal_strlit("swedish");
            reveal_strlit("el");
            assert("el"@[0] == 'e' && "el"@[1] == 'l');
            reveal_strlit("ell");
            reveal_strlit("gre");
            reveal_strlit("greek");
            reveal_strlit("he");
            assert("he"@[0] == 'h' && "he"@[1] == 'e');
            reveal_strlit("heb");
            reveal_strlit("iw");
            assert("iw"@[0] == 'i' && "iw"@[1] == 'w');
            reveal_strlit("hebrew");
            reveal_strlit("ro");
            assert("ro"@[0] == 'r' && "ro"@[1] == 'o');
            reveal_strlit("ron");
            reveal_strlit("rum");
            reveal_strlit("romanian");
            reveal_strlit("hu");
            assert("hu"@[0] == 'h' && "hu"@[1] == 'u');
            reveal_strlit("hun");
            reveal_strlit("hungarian");
            reveal_strlit("da");
            assert("da"@[0] == 'd' && "da"@[1] == 'a');
            reveal_strlit("dan");
            reveal_strlit("danish");
            reveal_strlit("fi");
            assert("fi"@[0] == 'f' && "fi"@[1] == 'i');
        },
        Lang::No => {
            reveal_strlit("en");
            assert("en"@[0] == 'e' && "en"@[1] == 'n');
            reveal_strlit("eng");
            reveal_strlit("english");
            reveal_strlit("ja");
            assert("ja"@[0] == 'j' && "ja"@[1] == 'a');
            reveal_strlit("jpn");
            reveal_strlit("japanese");
            reveal_strlit("ko");
            assert("ko"@[0] == 'k' && "ko"@[1] == 'o');
            reveal_strlit("kor");
            reveal_strlit("korean");
            reveal_strlit("fr");
            assert("fr"@[0] == 'f' && "fr"@[1] == 'r');
            reveal_strlit("fra");
            reveal_strlit("fre");
            reveal_strlit("french");
            reveal_strlit("de");
            assert("de"@[0] == 'd' && "de"@[1] == 'e');
            reveal_strlit("deu");
            reveal_strlit("ger");
            reveal_strlit("german");
            reveal_strlit("es");
            assert("es"@[0] == 'e' && "es"@[1] == 's');
            reveal_strlit("spa");
            reveal_strlit("spanish");
            reveal_strlit("ru");
            assert("ru"@[0] == 'r' && "ru"@[1] == 'u');
            reveal_strlit("rus");
            reveal_strlit("russian");
            reveal_strlit("pt");
            assert("pt"@[0] == 'p' && "pt"@[1] == 't');
            reveal_strlit("por");
            reveal_strlit("portuguese");
            reveal_strlit("it");
            assert("it"@[0] == 'i' && "it"@[1] == 't');
            reveal_strlit("ita");
            reveal_strlit("italian");
            reveal_strlit("ar");
            assert("ar"@[0] == 'a' && "ar"@[1] == 'r');
            reveal_strlit("ara");
            reveal_strlit("arabic");
            reveal_strlit("hi");
            assert("hi"@[0] == 'h' && "hi"@[1] == 'i');
            reveal_strlit("hin");
            reveal_strlit("hindi");
            reveal_strlit("vi");
            assert("vi"@[0] == 'v' && "vi"@[1] == 'i');
            reveal_strlit("vie");
            reveal_strlit("vietnamese");
            reveal_strlit("th");
            assert("th"@[0] == 't' && "th"@[1] == 'h');
            reveal_strlit("tha");
            reveal_strlit("thai");
            reveal_strlit("tr");
            assert("tr"@[0] == 't' && "tr"@[1] == 'r');
            reveal_strlit("tur");
            reveal_strlit("turkish");
            reveal_strlit("pl");
            assert("pl"@[0] == 'p' && "pl"@[1] == 'l');
            reveal_strlit("pol");
            reveal_strlit("polish");
            reveal_strlit("nl");
            assert("nl"@[0] == 'n' && "nl"@[1] == 'l');
            reveal_strlit("nld");
            reveal_strlit("dut");
            reveal_strlit("dutch");
            reveal_strlit("id");
            assert("id"@[0] == 'i' && "id"@[1] == 'd');
            reveal_strlit("ind");
            reveal_strlit("in");
            assert("in"@[0] == 'i' && "in"@[1] == 'n');
            reveal_strlit("indonesian");
            reveal_strlit("uk");
            assert("uk"@[0] == 'u' && "uk"@[1] == 'k');
            reveal_strlit("ukr");
            reveal_strlit("ukrainian");
            reveal_strlit("cs");
            assert("cs"@[0] == 'c' && "cs"@[1] == 's');
            reveal_strlit("ces");
            reveal_strlit("cze");
            reveal_strlit("czech");
            reveal_strlit("sv");
            assert("sv"@[0] == 's' && "sv"@[1] == 'v');
            reveal_strlit("swe");
            reveal_strlit("swedish");
            reveal_strlit("el");
            assert("el"@[0] == 'e' && "el"@[1] == 'l');
            reveal_strlit("ell");
            reveal_strlit("gre");
            reveal_strlit("greek");
            reveal_strlit("he");
            assert("he"@[0] == 'h' && "he"@[1] == 'e');
            reveal_strlit("heb");
            reveal_strlit("iw");
            assert("iw"@[0] == 'i' && "iw"@[1] == 'w');
            reveal_strlit("hebrew");
            reveal_strlit("ro");
            assert("ro"@[0] == 'r' && "ro"@[1] == 'o');
            reveal_strlit("ron");
            reveal_strlit("rum");
            reveal_strlit("romanian");
            reveal_strlit("hu");
            assert("hu"@[0] == 'h' && "hu"@[1] == 'u');
            reveal_strlit("hun");
            reveal_strlit("hungarian");
            reveal_strlit("da");
            assert("da"@[0] == 'd' && "da"@[1] == 'a');
            reveal_strlit("dan");
            reveal_strlit("danish");
            reveal_strlit("fi");
            assert("fi"@[0] == 'f' && "fi"@[1] == 'i');
            reveal_strlit("fin");
            reveal_strlit("finnish");
            reveal_strlit("no");
            assert("no"@[0] == 'n' && "no"@[1] == 'o');
        },
    }
}

/// A locale whose language subtag (before any `_`, `-`, `.`, `@` or `:`,
/// in any case, white space around it ignored) is the ISO 639-1 code of a
/// language names that language: `es_ES.UTF-8` is Spanish, `PT-br` is
/// Portuguese; so two different languages never share a code.
pub proof fn law_iso_code_names_its_language(locale: Seq<char>, l: Lang)
    requires
        l != Lang::Zh,
        !has_zh(trim_white(locale)),
        lower(trim_white(until_sep(trim_white(locale)))) == iso_code(l),
    ensures
        locale_lang(locale) == Some(l),
{
    lemma_code_lang_iso(l);
    let t = trim_white(locale);
    if t.len() == 0 {
        assert(until_sep(t).len() == 0);
        assert(trim_white(until_sep(t)).len() == 0);
    }
}

/// Chinese is named by `zh` anywhere in the locale, in any case.
pub proof fn law_zh_names_chinese(locale: Seq<char>)
    requires
        has_zh(trim_white(locale)),
    ensures
        locale_lang(locale) == Some(Lang::Zh),
{
    let t = trim_white(locale);
    let i = choose|i: int| 0 <= i < t.len() - 1 && lower_char(#[trigger] t[i]) == 'z' && lower_char(t[i + 1]) == 'h';
    assert(t.len() > 0);
}

/// The language whose code or English name is `code` (in lower case).
fn lang_of_code(code: &[char]) -> (r: Option<Lang>)
    ensures
        r == code_lang(code@),
{
    if chars_eq(code, chars_of("en").as_slice()) {
        return Some(Lang::En);
    }
    if chars_eq(code, chars_of("eng").as_slice()) {
        return Some(Lang::En);
    }
    if chars_eq(code, chars_of("english").as_slice()) {
        return Some(Lang::En);
    }
    if chars_eq(code, chars_of("ja").as_slice()) {
        return Some(Lang::Ja);
    }
    if chars_eq(code, chars_of("jpn").as_slice()) {
        return Some(Lang::Ja);
    }
    if chars_eq(code, chars_of("japanese").as_slice()) {
        return Some(Lang::Ja);
    }
    if chars_eq(code, chars_of("ko").as_slice()) {
        return Some(Lang::Ko);
    }
    if chars_eq(code, chars_of("kor").as_slice()) {
        return Some(Lang::Ko);
    }
    if chars_eq(code, chars_of("korean").as_slice()) {
        return Some(Lang::Ko);
    }
    if chars_eq(code, chars_of("fr").as_slice()) {
        return Some(Lang::Fr);
    }
    if chars_eq(code, chars_of("fra").as_slice()) {
        return Some(Lang::Fr);
    }
    if chars_eq(code, chars_of("fre").as_slice()) {
        return Some(Lang::Fr);
    }
    if chars_eq(code, chars_of("french").as_slice()) {
        return Some(Lang::Fr);
    }
    if chars_eq(code, chars_of("de").as_slice()) {
        return Some(Lang::De);
    }
    if chars_eq(code, chars_of("deu").as_slice()) {
        return Some(Lang::De);
    }
    if chars_eq(code, chars_of("ger").as_slice()) {
        return Some(Lang::De);
    }
    if chars_eq(code, chars_of("german").as_slice()) {
        return Some(Lang::De);
    }
    if chars_eq(code, chars_of("es").as_slice()) {
        return Some(Lang::Es);
    }
    if chars_eq(code, chars_of("spa").as_slice()) {
        return Some(Lang::Es);
    }
    if chars_eq(code, chars_of("spanish").as_slice()) {
        return Some(Lang::Es);
    }
    if chars_eq(code, chars_of("ru").as_slice()) {
        return Some(Lang::Ru);
    }
    if chars_eq(code, chars_of("rus").as_slice()) {
        return Some(Lang::Ru);
    }
    if chars_eq(code, chars_of("russian").as_slice()) {
        return Some(Lang::Ru);
    }
    if chars_eq(code, chars_of("pt").as_slice()) {
        return Some(Lang::Pt);
    }
    if chars_eq(code, chars_of("por").as_slice()) {
        return Some(Lang::Pt);
    }
    if chars_eq(code, chars_of("portuguese").as_slice()) {
        return Some(Lang::Pt);
    }
    if chars_eq(code, chars_of("it").as_slice()) {
        return Some(Lang::It);
    }
    if chars_eq(code, chars_of("ita").as_slice()) {
        return Some(Lang::It);
    }
    if chars_eq(code, chars_of("italian").as_slice()) {
        return Some(Lang::It);
    }
    if chars_eq(code, chars_of("ar").as_slice()) {
        return Some(Lang::Ar);
    }
    if chars_eq(code, chars_of("ara").as_slice()) {
        return Some(Lang::Ar);
    }
    if chars_eq(code, chars_of("arabic").as_slice()) {
        return Some(Lang::Ar);
    }
    if chars_eq(code, chars_of("hi").as_slice()) {
        return Some(Lang::Hi);
    }
    if chars_eq(code, chars_of("hin").as_slice()) {
        return Some(Lang::Hi);
    }
    if chars_eq(code, chars_of("hindi").as_slice()) {
        return Some(Lang::Hi);
    }
    if chars_eq(code, chars_of("vi").as_slice()) {
        return Some(Lang::Vi);
    }
    if chars_eq(code, chars_of("vie").as_slice()) {
        return Some(Lang::Vi);
    }
    if chars_eq(code, chars_of("vietnamese").as_slice()) {
        return Some(Lang::Vi);
    }
    if chars_eq(code, chars_of("th").as_slice()) {
        return Some(Lang::Th);
    }
    if chars_eq(code, chars_of("tha").as_slice()) {
        return Some(Lang::Th);
    }
    if chars_eq(code, chars_of("thai").as_slice()) {
        return Some(Lang::Th);
    }
    if chars_eq(code, chars_of("tr").as_slice()) {
        return Some(Lang::Tr);
    }
    if chars_eq(code, chars_of("tur").as_slice()) {
        return Some(Lang::Tr);
    }
    if chars_eq(code, chars_of("turkish").as_slice()) {
        return Some(Lang::Tr);
    }
    if chars_eq(code, chars_of("pl").as_slice()) {
        return Some(Lang::Pl);
    }
    if chars_eq(code, chars_of("pol").as_slice()) {
        return Some(Lang::Pl);
    }
    if chars_eq(code, chars_of("polish").as_slice()) {
        return Some(Lang::Pl);
    }
    if chars_eq(code, chars_of("nl").as_slice()) {
        return Some(Lang::Nl);
    }
    if chars_eq(code, chars_of("nld").as_slice()) {
        return Some(Lang::Nl);
    }
    if chars_eq(code, chars_of("dut").as_slice()) {
        return Some(Lang::Nl);
    }
    if chars_eq(code, chars_of("dutch").as_slice()) {
        return Some(Lang::Nl);
    }
    if chars_eq(code, chars_of("id").as_slice()) {
        return Some(Lang::Id);
    }
    if chars_eq(code, chars_of("ind").as_slice()) {
        return Some(Lang::Id);
    }
    if chars_eq(code, chars_of("in").as_slice()) {
        return Some(Lang::Id);
    }
    if chars_eq(code, chars_of("indonesian").as_slice()) {
        return Some(Lang::Id);
    }
    if chars_eq(code, chars_of("uk").as_slice()) {
        return Some(Lang::Uk);
    }
    if chars_eq(code, chars_of("ukr").as_slice()) {
        return Some(Lang::Uk);
    }
    if chars_eq(code, chars_of("ukrainian").as_slice()) {
        return Some(Lang::Uk);
    }
    if chars_eq(code, chars_of("cs").as_slice()) {
        return Some(Lang::Cs);
    }
    if chars_eq(code, chars_of("ces").as_slice()) {
        return Some(Lang::Cs);
    }
    if chars_eq(code, chars_of("cze").as_slice()) {
        return Some(Lang::Cs);
    }
    if chars_eq(code, chars_of("czech").as_slice()) {
        return Some(Lang::Cs);
    }
    if chars_eq(code, chars_of("sv").as_slice()) {
        return Some(Lang::Sv);
    }
    if chars_eq(code, chars_of("swe").as_slice()) {
        return Some(Lang::Sv);
    }
    if chars_eq(code, chars_of("swedish").as_slice()) {
        return Some(Lang::Sv);
    }
    if chars_eq(code, chars_of("el").as_slice()) {
        return Some(Lang::El);
    }
    if chars_eq(code, chars_of("ell").as_slice()) {
        return Some(Lang::El);
    }
    if chars_eq(code, chars_of("gre").as_slice()) {
        return Some(Lang::El);
    }
    if chars_eq(code, chars_of("greek").as_slice()) {
        return Some(Lang::El);
    }
    if chars_eq(code, chars_of("he").as_slice()) {
        return Some(Lang::He);
    }
    if chars_eq(code, chars_of("heb").as_slice()) {
        return Some(Lang::He);
    }
    if chars_eq(code, chars_of("iw").as_slice()) {
        return Some(Lang::He);
    }
    if chars_eq(code, chars_of("hebrew").as_slice()) {
        return Some(Lang::He);
    }
    if chars_eq(code, chars_of("ro").as_slice()) {
        return Some(Lang::Ro);
    }
    if chars_eq(code, chars_of("ron").as_slice()) {
        return Some(Lang::Ro);
    }
    if chars_eq(code, chars_of("rum").as_slice()) {
        return Some(Lang::Ro);
    }
    if chars_eq(code, chars_of("romanian").as_slice()) {
        return Some(Lang::Ro);
    }
    if chars_eq(code, chars_of("hu").as_slice()) {
        return Some(Lang::Hu);
    }
    if chars_eq(code, chars_of("hun").as_slice()) {
        return Some(Lang::Hu);
    }
    if chars_eq(code, chars_of("hungarian").as_slice()) {
        return Some(Lang::Hu);
    }
    if chars_eq(code, chars_of("da").as_slice()) {
        return Some(Lang::Da);
    }
    if chars_eq(code, chars_of("dan").as_slice()) {
        return Some(Lang::Da);
    }
    if chars_eq(code, chars_of("danish").as_slice()) {
        return Some(Lang::Da);
    }
    if chars_eq(code, chars_of("fi").as_slice()) {
        return Some(Lang::Fi);
    }
    if chars_eq(code, chars_of("fin").as_slice()) {
        return Some(Lang::Fi);
    }
    if chars_eq(code, chars_of("finnish").as_slice()) {
        return Some(Lang::Fi);
    }
    if chars_eq(code, chars_of("no").as_slice()) {
        return Some(Lang::No);
    }
    if chars_eq(code, chars_of("nor").as_slice()) {
        return Some(Lang::No);
    }
    if chars_eq(code, chars_of("nb").as_slice()) {
        return Some(Lang::No);
    }
    if chars_eq(code, chars_of("nn").as_slice()) {
        return Some(Lang::No);
    }
    if chars_eq(code, chars_of("norwegian").as_slice()) {
        return Some(Lang::No);
    }
    None
}

/// Is `c` white space (the Unicode property `White_Space`, as `char::is_whitespace` tests it)?
pub open spec fn is_white(c: char) -> bool {
    let u = c as u32;
    (9 <= u <= 13) || u == 32 || u == 0x85 || u == 0xa0 || u == 0x1680 || (0x2000 <= u <= 0x200a) || u == 0x2028
        || u == 0x2029 || u == 0x202f || u == 0x205f || u == 0x3000
}

/// `s` without its leading and trailing white space.
pub open spec fn trim_white(s: Seq<char>) -> Seq<char>
    decreases s.len(),
{
    if s.len() > 0 && is_white(s[0]) {
        trim_white(s.drop_first())
    } else if s.len() > 0 && is_white(s.last()) {
        trim_white(s.drop_last())
    } else {
        s
    }
}

/// The ASCII lower case of `c`.
pub open spec fn lower_char(c: char) -> char {
    if 'A' <= c <= 'Z' {
        ((c as u32) + 32) as char
    } else {
        c
    }
}

/// `s` in ASCII lower case.
pub open spec fn lower(s: Seq<char>) -> Seq<char> {
    s.map_values(|c: char| lower_char(c))
}

/// Does `s` hold `zh` in any case?
pub open spec fn has_zh(s: Seq<char>) -> bool {
    exists|i: int| 0 <= i < s.len() - 1 && lower_char(#[trigger] s[i]) == 'z' && lower_char(s[i + 1]) == 'h'
}

/// Does `c` separate the language of a locale from the rest?
pub open spec fn is_locale_sep(c: char) -> bool {
    c == '.' || c == '@' || c == '_' || c == '-' || c == ':'
}

/// The text before the first separator.
pub open spec fn until_sep(s: Seq<char>) -> Seq<char>
    decreases s.len(),
{
    if s.len() == 0 || is_locale_sep(s[0]) {
        Seq::empty()
    } else {
        seq![s[0]] + until_sep(s.drop_first())
    }
}

/// The language a locale names: Chinese when it holds `zh` in any case;
/// none for the `C` and `POSIX` locales; else the language whose code or
/// English name is its first part (before any of `.@_-:`), in any case.
pub open spec fn locale_lang(locale: Seq<char>) -> Option<Lang> {
    let t = trim_white(locale);
    if t.len() == 0 {
        None
    } else if has_zh(t) {
        Some(Lang::Zh)
    } else {
        let first = lower(trim_white(until_sep(t)));
        if first == "c"@ || first == "posix"@ {
            None
        } else {
            code_lang(first)
        }
    }
}

fn white(c: char) -> (r: bool)
    ensures
        r == is_white(c),
{
    let u = c as u32;
    (9 <= u && u <= 13) || u == 32 || u == 0x85 || u == 0xa0 || u == 0x1680 || (0x2000 <= u && u <= 0x200a) || u
        == 0x2028 || u == 0x2029 || u == 0x202f || u == 0x205f || u == 0x3000
}

fn trim_white_chars(s: &[char]) -> (r: Vec<char>)
    ensures
        r@ == trim_white(s@),
{
    let mut a: usize = 0;
    let mut b: usize = s.len();
    assert(s@.subrange(0, s@.len() as int) =~= s@);
    while a < b && white(s[a])
        invariant
            a <= b <= s@.len(),
            trim_white(s@) == trim_white(s@.subrange(a as int, b as int)),
        decreases b - a,
    {
        assert(s@.subrange(a as int, b as int).drop_first() =~= s@.subrange(a + 1, b as int));
        a = a + 1;
    }
    while a < b && white(s[b - 1])
        invariant
            a <= b <= s@.len(),
            trim_white(s@) == trim_white(s@.subrange(a as int, b as int)),
            a < b ==> !is_white(s@[a as int]),
        decreases b - a,
    {
        assert(s@.subrange(a as int, b as int).drop_last() =~= s@.subrange(a as int, b - 1));
        assert(s@.subrange(a as int, b as int)[0] == s@[a as int]);
        b = b - 1;
    }
    if a < b {
        assert(s@.subrange(a as int, b as int)[0] == s@[a as int]);
        assert(s@.subrange(a as int, b as int).last() == s@[b - 1]);
    }
    chars_slice(s, a, b)
}

fn lower_chars(s: &[char]) -> (r: Vec<char>)
    ensures
        r@ == lower(s@),
{
    let mut r: Vec<char> = Vec::new();
    let mut i: usize = 0;
    while i < s.len()
        invariant
            i <= s@.len(),
            r@ == lower(s@.take(i as int)),
        decreases s@.len() - i,
    {
        let c = s[i];
        let l = if 'A' <= c && c <= 'Z' {
            (((c as u32) + 32) as u8) as char
        } else {
            c
        };
        r.push(l);
        i = i + 1;
        assert(r@ =~= lower(s@.take(i as int)));
    }
    assert(s@.take(s@.len() as int) =~= s@);
    r
}

fn has_zh_chars(s: &[char]) -> (r: bool)
    ensures
        r == has_zh(s@),
{
    if s.len() < 2 {
        return false;
    }
    let mut i: usize = 0;
    while i < s.len() - 1
        invariant
            s@.len() >= 2,
            i <= s@.len() - 1,
            forall|j: int| 0 <= j < i && j < s@.len() - 1 ==> !(lower_char(#[trigger] s@[j]) == 'z' && lower_char(s@[j + 1]) == 'h'),
        decreases s@.len() - i,
    {
        let a = s[i];
        let b = s[i + 1];
        if (a == 'z' || a == 'Z') && (b == 'h' || b == 'H') {
            assert(lower_char(s@[i as int]) == 'z' && lower_char(s@[i + 1]) == 'h');
            return true;
        }
        i = i + 1;
    }
    assert forall|j: int| 0 <= j < s@.len() - 1 implies !(lower_char(#[trigger] s@[j]) == 'z' && lower_char(s@[j + 1]) == 'h') by {
        assert(j < i);
    }
    false
}

fn until_sep_chars(s: &[char]) -> (r: Vec<char>)
    ensures
        r@ == until_sep(s@),
{
    let mut i: usize = 0;
    assert(s@.skip(0) =~= s@);
    while i < s.len() && !(s[i] == '.' || s[i] == '@' || s[i] == '_' || s[i] == '-' || s[i] == ':')
        invariant
            i <= s@.len(),
            until_sep(s@) == s@.take(i as int) + until_sep(s@.skip(i as int)),
        decreases s@.len() - i,
    {
        assert(s@.skip(i as int)[0] == s@[i as int]);
        assert(s@.skip(i as int).drop_first() =~= s@.skip(i + 1));
        assert(s@.take(i + 1) =~= s@.take(i as int) + seq![s@[i as int]]);
        i = i + 1;
    }
    if i < s.len() {
        assert(s@.skip(i as int)[0] == s@[i as int]);
    }
    assert(s@.take(i as int) + Seq::<char>::empty() =~= s@.take(i as int));
    chars_slice(s, 0, i)
}

/// The language that the locale `locale` (such as `zh_CN.UTF-8` or
/// `fr_FR`) names, if it names one.
pub fn match_locale_str(locale: &str) -> (r: Option<Lang>)
    ensures
        r == locale_lang(locale@),
{
    let cs = chars_of(locale);
    let t = trim_white_chars(cs.as_slice());
    if t.len() == 0 {
        return None;
    }
    if has_zh_chars(t.as_slice()) {
        return Some(Lang::Zh);
    }
    let head = until_sep_chars(t.as_slice());
    let first_trimmed = trim_white_chars(head.as_slice());
    let first = lower_chars(first_trimmed.as_slice());
    if chars_eq(first.as_slice(), chars_of("c").as_slice()) || chars_eq(first.as_slice(), chars_of("posix").as_slice()) {
        return None;
    }
    lang_of_code(first.as_slice())
}

proof fn lemma_lower_char(c: char)
    ensures
        lower_char(lower_char(c)) == lower_char(c),
        is_white(lower_char(c)) == is_white(c),
        is_locale_sep(lower_char(c)) == is_locale_sep(c),
{
    if 'A' <= c <= 'Z' {
        let u = (c as u32) + 32;
        assert(65 <= c as u32 <= 90);
        assert((u as char) as u32 == u);
    }
}

proof fn lemma_trim_white_lower(s: Seq<char>)
    ensures
        trim_white(lower(s)) == lower(trim_white(s)),
    decreases s.len(),
{
    let l = lower(s);
    if s.len() > 0 {
        lemma_lower_char(s[0]);
        lemma_lower_char(s.last());
        assert(l[0] == lower_char(s[0]));
        assert(l.last() == lower_char(s.last()));
        if is_white(s[0]) {
            assert(l.drop_first() =~= lower(s.drop_first()));
            lemma_trim_white_lower(s.drop_first());
        } else if is_white(s.last()) {
            assert(l.drop_last() =~= lower(s.drop_last()));
            lemma_trim_white_lower(s.drop_last());
        }
    }
}

proof fn lemma_until_sep_lower(s: Seq<char>)
    ensures
        until_sep(lower(s)) == lower(until_sep(s)),
    decreases s.len(),
{
    if s.len() > 0 {
        lemma_lower_char(s[0]);
        let l = lower(s);
        assert(l[0] == lower_char(s[0]));
        if !is_locale_sep(s[0]) {
            assert(l.drop_first() =~= lower(s.drop_first()));
            lemma_until_sep_lower(s.drop_first());
            assert(lower(seq![s[0]] + until_sep(s.drop_first())) =~= seq![lower_char(s[0])] + lower(until_sep(s.drop_first())));
        } else {
            assert(lower(Seq::<char>::empty()) =~= Seq::<char>::empty());
        }
    } else {
        assert(lower(s) =~= s);
    }
}

proof fn lemma_lower_twice(s: Seq<char>)
    ensures
        lower(lower(s)) == lower(s),
{
    assert forall|i: int| 0 <= i < s.len() implies lower(lower(s))[i] == lower(s)[i] by {
        lemma_lower_char(s[i]);
    }
    assert(lower(lower(s)) =~= lower(s));
}

proof fn lemma_has_zh_lower(t: Seq<char>)
    ensures
        has_zh(lower(t)) == has_zh(t),
{
    let l = lower(t);
    if has_zh(t) {
        let i = choose|i: int| 0 <= i < t.len() - 1 && lower_char(#[trigger] t[i]) == 'z' && lower_char(t[i + 1]) == 'h';
        lemma_lower_char(t[i]);
        lemma_lower_char(t[i + 1]);
        assert(lower_char(l[i]) == 'z' && lower_char(l[i + 1]) == 'h');
    }
    if has_zh(l) {
        let i = choose|i: int| 0 <= i < l.len() - 1 && lower_char(#[trigger] l[i]) == 'z' && lower_char(l[i + 1]) == 'h';
        lemma_lower_char(t[i]);
        lemma_lower_char(t[i + 1]);
        assert(lower_char(t[i]) == 'z' && lower_char(t[i + 1]) == 'h');
    }
}

/// The language a locale names does not depend on the case of its ASCII letters.
pub proof fn law_locale_case_insensitive(locale: Seq<char>)
    ensures
        locale_lang(lower(locale)) == locale_lang(locale),
{
    let t = trim_white(locale);
    lemma_trim_white_lower(locale);
    lemma_has_zh_lower(t);
    lemma_until_sep_lower(t);
    lemma_trim_white_lower(until_sep(t));
    lemma_lower_twice(trim_white(until_sep(t)));
}

proof fn lemma_trim_white_prefix(pre: Seq<char>, x: Seq<char>)
    requires
        forall|i: int| 0 <= i < pre.len() ==> is_white(#[trigger] pre[i]),
    ensures
        trim_white(pre + x) == trim_white(x),
    decreases pre.len(),
{
    if pre.len() > 0 {
        assert((pre + x)[0] == pre[0]);
        assert((pre + x).drop_first() =~= pre.drop_first() + x);
        lemma_trim_white_prefix(pre.drop_first(), x);
    } else {
        assert(pre + x =~= x);
    }
}

proof fn lemma_trim_white_suffix(x: Seq<char>, post: Seq<char>)
    requires
        forall|i: int| 0 <= i < post.len() ==> is_white(#[trigger] post[i]),
    ensures
        trim_white(x + post) == trim_white(x),
    decreases x.len() + post.len(),
{
    let xp = x + post;
    if x.len() > 0 && is_white(x[0]) {
        assert(xp[0] == x[0]);
        assert(xp.drop_first() =~= x.drop_first() + post);
        lemma_trim_white_suffix(x.drop_first(), post);
    } else if post.len() > 0 {
        if x.len() == 0 {
            assert(xp[0] == post[0]);
            assert(xp.drop_first() =~= x + post.drop_first());
            assert(is_white(post[0]));
            lemma_trim_white_suffix(x, post.drop_first());
        } else {
            assert(xp[0] == x[0]);
            assert(xp.last() == post.last());
            assert(is_white(post[post.len() - 1]));
            assert(xp.drop_last() =~= x + post.drop_last());
            lemma_trim_white_suffix(x, post.drop_last());
        }
    } else {
        assert(xp =~= x);
    }
}

/// The language a locale names depends neither on the case of its ASCII
/// letters nor on the white space around it: a locale written with other
/// case and padded with white space names the same language.
pub proof fn law_locale_case_and_space(locale: Seq<char>, other: Seq<char>, pre: Seq<char>, post: Seq<char>)
    requires
        lower(other) == lower(locale),
        forall|i: int| 0 <= i < pre.len() ==> is_white(#[trigger] pre[i]),
        forall|i: int| 0 <= i < post.len() ==> is_white(#[trigger] post[i]),
    ensures
        locale_lang(pre + other + post) == locale_lang(locale),
{
    lemma_trim_white_prefix(pre, other + post);
    lemma_trim_white_suffix(other, post);
    assert(pre + other + post =~= pre + (other + post));
    law_locale_case_insensitive(other);
    law_locale_case_insensitive(locale);
}

/// The language of the first locale that names one, among the values of the
/// locale variables (in order of precedence), each a list separated by `:`;
/// English when none does.
pub open spec fn detect_spec(values: Seq<Seq<char>>) -> Lang
    decreases values.len(),
{
    if values.len() == 0 {
        Lang::En
    } else {
        match first_lang(split_pieces(values[0], seq![':'])) {
            Some(l) => l,
            None => detect_spec(values.drop_first()),
        }
    }
}

/// The language of the first of the locales that names one.
pub open spec fn first_lang(locales: Seq<Seq<char>>) -> Option<Lang>
    decreases locales.len(),
{
    if locales.len() == 0 {
        None
    } else {
        match locale_lang(locales[0]) {
            Some(l) => Some(l),
            None => first_lang(locales.drop_first()),
        }
    }
}

/// The language of the first locale that names one among `values`, the
/// values of the locale variables in order of precedence; English when
/// none does.
pub fn detect_lang(values: &Vec<String>) -> (r: Lang)
    ensures
        r == detect_spec(values.deep_view()),
{
    let ghost vs = values.deep_view();
    let mut i: usize = 0;
    assert(vs.skip(0) =~= vs);
    while i < values.len()
        invariant
            i <= vs.len(),
            vs == values.deep_view(),
            detect_spec(vs) == detect_spec(vs.skip(i as int)),
        decreases vs.len() - i,
    {
        let cs = chars_of(values[i].as_str());
        assert(vs.skip(i as int)[0] == cs@);
        assert(vs.skip(i as int).drop_first() =~= vs.skip(i + 1));
        let mut start: usize = 0;
        assert(cs@.skip(0) =~= cs@);
        loop
            invariant
                start <= cs@.len(),
                vs == values.deep_view(),
                i < vs.len(),
                vs.skip(i as int)[0] == cs@,
                first_lang(split_pieces(cs@, seq![':'])) == first_lang(split_pieces(cs@.skip(start as int), seq![':'])),
                detect_spec(vs) == detect_spec(vs.skip(i as int)),
            ensures
                first_lang(split_pieces(cs@, seq![':'])) is None,
            decreases cs@.len() - start,
        {
            let ghost rest = cs@.skip(start as int);
            let mut j: usize = start;
            while j < cs.len() && cs[j] != ':'
                invariant
                    start <= j <= cs@.len(),
                    forall|k: int| start <= k < j ==> cs@[k] != ':',
                decreases cs@.len() - j,
            {
                j = j + 1;
            }
            proof {
                lemma_split_colon(rest, (j - start) as int);
            }
            let piece = chars_slice(cs.as_slice(), start, j);
            assert(piece@ =~= rest.take(j - start));
            let ghost tail = if j < cs@.len() {
                split_pieces(cs@.skip(j + 1), seq![':'])
            } else {
                Seq::<Seq<char>>::empty()
            };
            proof {
                if j < cs@.len() {
                    assert(rest.skip(j - start + 1) =~= cs@.skip(j + 1));
                } else {
                    assert(rest.take(j - start) =~= rest);
                }
                assert(split_pieces(rest, seq![':']) =~= seq![piece@] + tail);
                assert((seq![piece@] + tail)[0] == piece@);
                assert((seq![piece@] + tail).drop_first() =~= tail);
            }
            let s = string_of(piece.as_slice());
            match match_locale_str(s.as_str()) {
                Some(l) => {
                    assert(first_lang(split_pieces(cs@, seq![':'])) == Some(l));
                    assert(vs.skip(i as int).len() > 0);
                    assert(detect_spec(vs.skip(i as int)) == l);
                    return l;
                },
                None => {},
            }
            if j == cs.len() {
                assert(first_lang(tail) is None);
                break;
            }
            start = j + 1;
        }
        i = i + 1;
    }
    Lang::En
}

/// How a text splits at its first `:` (or not at all).
proof fn lemma_split_colon(s: Seq<char>, j: int)
    requires
        0 <= j <= s.len(),
        forall|k: int| 0 <= k < j ==> s[k] != ':',
        j < s.len() ==> s[j] == ':',
    ensures
        j == s.len() ==> split_pieces(s, seq![':']) == seq![s],
        j < s.len() ==> split_pieces(s, seq![':']) == seq![s.take(j)] + split_pieces(s.skip(j + 1), seq![':']),
{
    let sep = seq![':'];
    assert forall|k: int| 0 <= k < j implies !occurs_at(s, sep, k) by {
        if k + 1 <= s.len() {
            assert(s.subrange(k, k + 1)[0] == s[k]);
        }
    }
    lemma_find_from_first(s, sep, 0, j);
    if j < s.len() {
        assert(s.subrange(j, j + 1) =~= sep);
    }
}

/// With no occurrence of `pat` before `j`, the search from `i` goes on at `j`.
proof fn lemma_find_from_first(s: Seq<char>, pat: Seq<char>, i: int, j: int)
    requires
        0 <= i <= j,
        forall|k: int| i <= k < j ==> !occurs_at(s, pat, k),
    ensures
        find_from(s, pat, i) == find_from(s, pat, j),
    decreases j - i,
{
    if i < j {
        lemma_find_from_first(s, pat, i + 1, j);
    }
}

} // verus!
