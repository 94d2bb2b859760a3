//! Locales: the fixed set of language codes, and the fallback for any other
//! code.

use crate::text::str_eq;
use vstd::prelude::*;
use vstd::string::StringExecFns;

verus! {

/// A supported language.
#[derive(Debug, Clone, Copy, PartialEq, Eq, Structural)]
pub enum Locale {
    EN,
    ES,
    IT,
    UA,
}

/// The text of the code `en`.
pub open spec fn code_en() -> Seq<char> {
    seq!['e', 'n']
}

/// The text of the code `es`.
pub open spec fn code_es() -> Seq<char> {
    seq!['e', 's']
}

/// The text of the code `it`.
pub open spec fn code_it() -> Seq<char> {
    seq!['i', 't']
}

/// The text of the code `ua`.
pub open spec fn code_ua() -> Seq<char> {
    seq!['u', 'a']
}

/// `code` is one of the four supported language codes.
pub open spec fn is_supported_code(code: Seq<char>) -> bool {
    code == code_en() || code == code_es() || code == code_it() || code == code_ua()
}

/// The locale that a code selects: the locale of that code for a supported
/// code, and English for every other text.
pub open spec fn locale_of_code(code: Seq<char>) -> Locale {
    if code == code_es() {
        Locale::ES
    } else if code == code_it() {
        Locale::IT
    } else if code == code_ua() {
        Locale::UA
    } else {
        Locale::EN
    }
}

proof fn reveal_codes()
    ensures
        "en"@ == code_en(),
        "es"@ == code_es(),
        "it"@ == code_it(),
        "ua"@ == code_ua(),
{
    reveal_strlit("en");
    reveal_strlit("es");
    reveal_strlit("it");
    reveal_strlit("ua");
    assert("en"@ =~= code_en());
    assert("es"@ =~= code_es());
    assert("it"@ =~= code_it());
    assert("ua"@ =~= code_ua());
}

fn locale_of(code: &str) -> (locale: Locale)
    ensures
        locale == locale_of_code(code@),
{
    proof {
        reveal_codes();
    }
    if str_eq(code, "es") {
        Locale::ES
    } else if str_eq(code, "it") {
        Locale::IT
    } else if str_eq(code, "ua") {
        Locale::UA
    } else {
        Locale::EN
    }
}

impl Locale {
    /// The two-letter code of the locale.
    pub open spec fn code(self) -> Seq<char> {
        match self {
            Locale::EN => code_en(),
            Locale::ES => code_es(),
            Locale::IT => code_it(),
            Locale::UA => code_ua(),
        }
    }

    /// The locale of a code. A text that is none of the four codes selects
    /// English.
    pub fn from_str(locale: &str) -> (result: Locale)
        ensures
            result == locale_of_code(locale@),
            !is_supported_code(locale@) ==> result == Locale::EN,
    {
        locale_of(locale)
    }

    /// The code of the locale as a static string slice.
    pub fn as_str(&self) -> (code: &'static str)
        ensures
            code@ == self.code(),
    {
        proof {
            reveal_codes();
        }
        match self {
            Locale::EN => "en",
            Locale::ES => "es",
            Locale::IT => "it",
            Locale::UA => "ua",
        }
    }

    /// The code of the locale as an owned string.
    pub fn to_string(&self) -> (code: String)
        ensures
            code@ == self.code(),
    {
        String::from_str(self.as_str())
    }
}

/// The language of a user as the store holds it: any text.
#[derive(Debug, PartialEq, Eq)]
pub struct UserLocale {
    pub language: String,
}

impl Clone for UserLocale {
    fn clone(&self) -> (copy: Self)
        ensures
            copy == *self,
    {
        UserLocale { language: self.language.clone() }
    }
}

impl UserLocale {
    /// The locale that the stored language selects, English when it is no
    /// supported code.
    pub fn locale(&self) -> (result: Locale)
        ensures
            result == locale_of_code(self.language@),
            !is_supported_code(self.language@) ==> result == Locale::EN,
    {
        locale_of(self.language.as_str())
    }

    /// The code under which the stored language is shown: its own text when
    /// it is a supported code, `en` otherwise.
    pub fn to_string(&self) -> (code: String)
        ensures
            code@ == locale_of_code(self.language@).code(),
    {
        self.locale().to_string()
    }
}

/// A locale is found again from its code.
pub proof fn lemma_locale_code_round_trip(locale: Locale)
    ensures
        is_supported_code(locale.code()),
        locale_of_code(locale.code()) == locale,
{
    assert(code_en()[1] != code_es()[1]);
    assert(code_en()[0] != code_it()[0]);
    assert(code_en()[0] != code_ua()[0]);
    assert(code_es()[0] != code_it()[0]);
    assert(code_es()[0] != code_ua()[0]);
    assert(code_it()[0] != code_ua()[0]);
}

/// A supported code is the code of the locale that it selects.
pub proof fn lemma_supported_code_is_kept(code: Seq<char>)
    requires
        is_supported_code(code),
    ensures
        locale_of_code(code).code() == code,
{
    assert(code_en()[1] != code_es()[1]);
    assert(code_en()[0] != code_it()[0]);
    assert(code_en()[0] != code_ua()[0]);
}

} // verus!
