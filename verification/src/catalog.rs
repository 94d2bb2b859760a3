//! The message catalog: the texts of the templates by locale and key, and the
//! substitution of values for the placeholders of a text.
//!
//! A placeholder is written `%{name}`. The catalog is a
//! `rust_i18n::SimpleBackend`, and the substitution is that of
//! `rust_i18n::replace_patterns`.

use crate::locale::code_en;
use rust_i18n::Backend;
use vstd::prelude::*;
use vstd::string::StrSliceExecFns;
use vstd::string::StringExecFns;

verus! {

/// `rust_i18n::SimpleBackend`, the store of texts that the catalog is built
/// on. Nothing of its inside is known to the proofs but what
/// [`backend_entries`] names.
#[verifier::external_type_specification]
#[verifier::external_body]
pub struct ExSimpleBackend(rust_i18n::SimpleBackend);

/// What a backend holds: for each locale, the texts by key.
pub uninterp spec fn backend_entries(backend: rust_i18n::SimpleBackend) -> Map<
    Seq<char>,
    Map<Seq<char>, Seq<char>>,
>;

/// The text that `rust_i18n::replace_patterns` makes of `input` when it puts
/// `values` in the places that `names` name.
pub uninterp spec fn replaced_patterns(
    input: Seq<char>,
    names: Seq<Seq<char>>,
    values: Seq<Seq<char>>,
) -> Seq<char>;

/// The texts of a locale after one more text was stored under `key`.
pub open spec fn with_entry(
    entries: Map<Seq<char>, Map<Seq<char>, Seq<char>>>,
    locale: Seq<char>,
    key: Seq<char>,
    text: Seq<char>,
) -> Map<Seq<char>, Map<Seq<char>, Seq<char>>> {
    let texts = if entries.contains_key(locale) {
        entries[locale]
    } else {
        Map::empty()
    };
    entries.insert(locale, texts.insert(key, text))
}

/// `rust_i18n::SimpleBackend::new`: a backend without any locale.
#[verifier::external_body]
fn backend_new() -> (backend: rust_i18n::SimpleBackend)
    ensures
        forall|locale: Seq<char>| !backend_entries(backend).contains_key(locale),
{
    rust_i18n::SimpleBackend::new()
}

/// `rust_i18n::SimpleBackend::add_translations`, with one text: the text is
/// stored under the locale and key, in place of what was stored there, and
/// nothing else changes.
#[verifier::external_body]
fn backend_add(backend: &mut rust_i18n::SimpleBackend, locale: &str, key: &str, text: &str)
    ensures
        backend_entries(*final(backend)) == with_entry(
            backend_entries(*old(backend)),
            locale@,
            key@,
            text@,
        ),
{
    let mut data = std::collections::HashMap::new();
    data.insert(key, text);
    backend.add_translations(locale, &data);
}

/// `Backend::translate` of `rust_i18n::SimpleBackend`: the text stored under
/// the locale and key, if there is one.
#[verifier::external_body]
fn backend_translate(backend: &rust_i18n::SimpleBackend, locale: &str, key: &str) -> (text:
    Option<String>)
    ensures
        text is Some <==> (backend_entries(*backend).contains_key(locale@) && backend_entries(
            *backend,
        )[locale@].contains_key(key@)),
        text matches Some(t) ==> t@ == backend_entries(*backend)[locale@][key@],
{
    backend.translate(locale, key).map(|s| s.to_string())
}

/// `rust_i18n::replace_patterns`: the input with each placeholder replaced by
/// the value of its name. The function cuts the input one byte before each
/// brace that it takes for the start of a placeholder, so it is only called
/// on an input in which every such brace follows a character of one byte.
#[verifier::external_body]
fn replace_patterns(input: &str, names: &Vec<&str>, values: &Vec<String>) -> (output: String)
    requires
        cuts_follow_ascii(input@),
    ensures
        output@ == replaced_patterns(input@, names_view(names@), values_view(values@)),
{
    rust_i18n::replace_patterns(input, names.as_slice(), values.as_slice())
}

/// The names of a substitution as plain values.
pub open spec fn names_view(names: Seq<&str>) -> Seq<Seq<char>> {
    names.map_values(|name: &str| name@)
}

/// The values of a substitution as plain values.
pub open spec fn values_view(values: Seq<String>) -> Seq<Seq<char>> {
    values.map_values(|value: String| value@)
}

/// The character takes one byte in UTF-8.
pub open spec fn is_ascii_char(c: char) -> bool {
    (c as u32) < 128
}

/// Where the scan for placeholders stands. The scan reads the text from
/// left to right. It waits for a `%` (stage 0), then for the `{` that follows
/// it, at any distance (stage 1), then for the `}` that closes it (stage 2).
/// It notes each of these two braces, and takes the braces it has noted two
/// by two, as the start and the end of a placeholder.
pub struct Scan {
    /// What the scan waits for.
    pub stage: int,
    /// Whether the next brace that the scan notes is the first of its two.
    pub next_starts: bool,
}

/// The scan after one more character.
pub open spec fn scan_step(before: Scan, c: char) -> Scan {
    if before.stage == 1 && c == '{' {
        Scan { stage: 2, next_starts: !before.next_starts }
    } else if before.stage == 2 && c == '}' {
        Scan { stage: 0, next_starts: !before.next_starts }
    } else if c == '%' {
        Scan { stage: 1, next_starts: before.next_starts }
    } else {
        before
    }
}

/// The scan before the character at `position`.
pub open spec fn scan(text: Seq<char>, position: int) -> Scan
    decreases position,
{
    if position <= 0 {
        Scan { stage: 0, next_starts: true }
    } else {
        scan_step(scan(text, position - 1), text[position - 1])
    }
}

/// The scan notes the character `c`.
pub open spec fn is_noted(before: Scan, c: char) -> bool {
    (before.stage == 1 && c == '{') || (before.stage == 2 && c == '}')
}

/// The character at `position` is a brace that the scan takes for the start
/// of a placeholder. The text is cut one byte before such a brace.
pub open spec fn is_cut(text: Seq<char>, position: int) -> bool {
    scan(text, position).next_starts && is_noted(scan(text, position), text[position])
}

/// Every brace that is taken for the start of a placeholder follows a
/// character of one byte. Only such a text can have values substituted.
pub open spec fn cuts_follow_ascii(text: Seq<char>) -> bool {
    forall|i: int| 0 < i < text.len() && #[trigger] is_cut(text, i) ==> is_ascii_char(text[i - 1])
}

/// What becomes of a template text when values are put in place of its
/// placeholders. A text without arguments is taken as it is, and so is a text
/// that cannot have values substituted.
pub open spec fn filled(text: Seq<char>, names: Seq<Seq<char>>, values: Seq<Seq<char>>) -> Seq<
    char,
> {
    if names.len() > 0 && cuts_follow_ascii(text) {
        replaced_patterns(text, names, values)
    } else {
        text
    }
}

fn check_cuts(text: &str) -> (ok: bool)
    ensures
        ok == cuts_follow_ascii(text@),
{
    let n = text.unicode_len();
    let mut stage: u8 = 0;
    let mut next_starts = true;
    let mut i: usize = 0;
    while i < n
        invariant
            i <= n,
            n == text@.len(),
            stage == scan(text@, i as int).stage,
            next_starts == scan(text@, i as int).next_starts,
            forall|j: int| 0 < j < i && #[trigger] is_cut(text@, j) ==> is_ascii_char(text@[j - 1]),
        decreases n - i,
    {
        let c = text.get_char(i);
        let noted = (stage == 1 && c == '{') || (stage == 2 && c == '}');
        assert(noted == is_noted(scan(text@, i as int), c));
        if noted && next_starts && i > 0 && (text.get_char(i - 1) as u32) >= 128 {
            assert(is_cut(text@, i as int) && !is_ascii_char(text@[i - 1]));
            return false;
        }
        if stage == 1 && c == '{' {
            stage = 2;
            next_starts = !next_starts;
        } else if stage == 2 && c == '}' {
            stage = 0;
            next_starts = !next_starts;
        } else if c == '%' {
            stage = 1;
        }
        i = i + 1;
    }
    true
}

/// Puts values in place of the placeholders of a template text.
pub fn fill(text: String, names: &Vec<&str>, values: &Vec<String>) -> (output: String)
    ensures
        output@ == filled(text@, names_view(names@), values_view(values@)),
{
    if names.len() > 0 && check_cuts(text.as_str()) {
        replace_patterns(text.as_str(), names, values)
    } else {
        text
    }
}

/// The texts of the templates, by locale and key.
pub struct Catalog {
    backend: rust_i18n::SimpleBackend,
}

impl Catalog {
    /// What the catalog holds: for each locale, the texts by key.
    pub closed spec fn entries(&self) -> Map<Seq<char>, Map<Seq<char>, Seq<char>>> {
        backend_entries(self.backend)
    }

    /// The catalog holds a text under the locale and key.
    pub open spec fn has(&self, locale: Seq<char>, key: Seq<char>) -> bool {
        self.entries().contains_key(locale) && self.entries()[locale].contains_key(key)
    }

    /// The text of `key` for `locale`: the one stored under the locale where
    /// there is one, else the one stored under English, else the key itself.
    pub open spec fn text(&self, locale: Seq<char>, key: Seq<char>) -> Seq<char> {
        if self.has(locale, key) {
            self.entries()[locale][key]
        } else if self.has(code_en(), key) {
            self.entries()[code_en()][key]
        } else {
            key
        }
    }

    /// The page that the catalog makes of `key` for `locale` with the given
    /// values.
    pub open spec fn page(
        &self,
        locale: Seq<char>,
        key: Seq<char>,
        names: Seq<Seq<char>>,
        values: Seq<Seq<char>>,
    ) -> Seq<char> {
        filled(self.text(locale, key), names, values)
    }

    /// A catalog without any text.
    pub fn new() -> (catalog: Catalog)
        ensures
            forall|locale: Seq<char>, key: Seq<char>| !catalog.has(locale, key),
    {
        Catalog { backend: backend_new() }
    }

    /// Stores `text` under `locale` and `key`, in place of any text that was
    /// stored there.
    pub fn add(&mut self, locale: &str, key: &str, text: &str)
        ensures
            final(self).entries() == with_entry(old(self).entries(), locale@, key@, text@),
            final(self).has(locale@, key@),
            final(self).entries()[locale@][key@] == text@,
    {
        backend_add(&mut self.backend, locale, key, text);
    }

    /// The text stored under `locale` and `key`, if there is one.
    pub fn translate(&self, locale: &str, key: &str) -> (text: Option<String>)
        ensures
            text is Some <==> self.has(locale@, key@),
            text matches Some(t) ==> t@ == self.entries()[locale@][key@],
    {
        backend_translate(&self.backend, locale, key)
    }

    /// The text of `key` for `locale`, with English as the fallback locale
    /// and the key itself as the last resort.
    pub fn lookup(&self, locale: &str, key: &str) -> (text: String)
        ensures
            text@ == self.text(locale@, key@),
    {
        proof {
            reveal_strlit("en");
            assert("en"@ =~= code_en());
        }
        match self.translate(locale, key) {
            Some(text) => text,
            None => match self.translate("en", key) {
                Some(text) => text,
                None => String::from_str(key),
            },
        }
    }

    /// The page of `key` for `locale`: its text, with the values put in place
    /// of the placeholders that the names name.
    pub fn render(&self, locale: &str, key: &str, names: &Vec<&str>, values: &Vec<String>) -> (page:
        String)
        ensures
            page@ == self.page(locale@, key@, names_view(names@), values_view(values@)),
    {
        fill(self.lookup(locale, key), names, values)
    }
}

} // verus!
