//! Text direction of languages and accessibility roles.

use crate::strings::str_eq;
use vstd::prelude::*;
use vstd::string::{StrSliceExecFns, StringExecFns};

verus! {

/// Reading direction of text.
#[derive(Debug, Clone, Copy, PartialEq, Eq, Structural)]
pub enum TextDirection {
    LeftToRight,
    RightToLeft,
}

/// `s` begins with the two characters `a`, `b`.
pub open spec fn starts_with2(s: Seq<char>, a: char, b: char) -> bool {
    s.len() >= 2 && s[0] == a && s[1] == b
}

/// Right to left for Arabic, Hebrew, Persian, Urdu and Yiddish language
/// tags, left to right otherwise.
pub open spec fn direction_of(lang: Seq<char>) -> TextDirection {
    if starts_with2(lang, 'a', 'r') || starts_with2(lang, 'h', 'e') || starts_with2(lang, 'f', 'a')
        || starts_with2(lang, 'u', 'r') || starts_with2(lang, 'y', 'i') {
        TextDirection::RightToLeft
    } else {
        TextDirection::LeftToRight
    }
}

fn has_prefix2(s: &str, len: usize, a: char, b: char) -> (r: bool)
    requires
        len == s@.len(),
    ensures
        r == starts_with2(s@, a, b),
{
    len >= 2 && s.get_char(0) == a && s.get_char(1) == b
}

impl TextDirection {
    /// Direction of a language tag.
    pub fn from_lang(lang: &str) -> (r: Self)
        ensures
            r == direction_of(lang@),
    {
        let n = lang.unicode_len();
        if has_prefix2(lang, n, 'a', 'r') || has_prefix2(lang, n, 'h', 'e') || has_prefix2(lang, n, 'f', 'a')
            || has_prefix2(lang, n, 'u', 'r') || has_prefix2(lang, n, 'y', 'i') {
            TextDirection::RightToLeft
        } else {
            TextDirection::LeftToRight
        }
    }

    /// Whether text runs right to left.
    pub fn is_rtl(&self) -> (r: bool)
        ensures
            r == (*self == TextDirection::RightToLeft),
    {
        match self {
            TextDirection::RightToLeft => true,
            TextDirection::LeftToRight => false,
        }
    }
}

/// Roles announced to assistive technology.
#[derive(Debug, Clone, Copy, PartialEq, Eq, Structural)]
pub enum AccessibilityRole {
    NoRole,
    Button,
    Heading { level: u8 },
    Link,
    List,
    ListItem,
    TextBox,
    Label,
    StatusBar,
    Menu,
    MenuItem,
    Dialog,
    Alert,
    ProgressBar,
    Tab,
    TabPanel,
}

/// Upper-case form of a string as `str::to_uppercase` gives it.
pub uninterp spec fn upper_of(s: Seq<char>) -> Seq<char>;

/// Relies on `str::to_uppercase`: the Unicode upper-case mapping of each
/// character; the result depends on the characters alone.
#[verifier::external_body]
fn to_upper(s: &str) -> (r: String)
    ensures
        r@ == upper_of(s@),
{
    s.to_uppercase()
}

/// Number formatting and text conventions of a language and region.
#[derive(Debug, Clone)]
pub struct Locale {
    /// Language code, e.g. "en".
    pub language: String,
    /// Region code, e.g. "US".
    pub region: Option<String>,
    pub text_direction: TextDirection,
    pub decimal_separator: char,
    pub thousands_separator: char,
    pub date_format: String,
    pub time_format: String,
    pub currency_symbol: String,
    /// Whether the currency symbol precedes the amount.
    pub currency_before: bool,
}

/// Languages that write decimals with a comma.
pub open spec fn comma_decimal(lang: Seq<char>) -> bool {
    lang == "de"@ || lang == "es"@ || lang == "fr"@ || lang == "it"@ || lang == "pt"@ || lang == "ru"@
}

/// The region is the given one.
pub open spec fn region_is(region: Option<Seq<char>>, r: Seq<char>) -> bool {
    region == Some(r)
}

/// Date format: US English month first, other English day first, Japanese,
/// Chinese and Korean year first, dotted day first otherwise.
pub open spec fn date_format_of(lang: Seq<char>, region: Option<Seq<char>>) -> Seq<char> {
    if lang == "en"@ && region_is(region, "US"@) {
        "%m/%d/%Y"@
    } else if lang == "en"@ {
        "%d/%m/%Y"@
    } else if lang == "ja"@ || lang == "zh"@ || lang == "ko"@ {
        "%Y-%m-%d"@
    } else {
        "%d.%m.%Y"@
    }
}

/// Time format: 12-hour for US English, 24-hour otherwise.
pub open spec fn time_format_of(lang: Seq<char>, region: Option<Seq<char>>) -> Seq<char> {
    if lang == "en"@ && region_is(region, "US"@) {
        "%I:%M %p"@
    } else {
        "%H:%M"@
    }
}

/// Currency symbol: pound for British English, yen for Japanese, riyal for
/// Saudi Arabic, dollar otherwise.
pub open spec fn currency_of(lang: Seq<char>, region: Option<Seq<char>>) -> Seq<char> {
    if lang == "en"@ && region_is(region, "US"@) {
        "$"@
    } else if lang == "en"@ && region_is(region, "GB"@) {
        "\u{a3}"@
    } else if lang == "ja"@ {
        "\u{a5}"@
    } else if lang == "ar"@ && region_is(region, "SA"@) {
        "\u{fdfc}"@
    } else {
        "$"@
    }
}

/// View of an optional string.
pub open spec fn opt_view(o: Option<String>) -> Option<Seq<char>> {
    match o {
        Some(s) => Some(s@),
        None => None,
    }
}

/// Index of the first `-` at or after `i`, or the length.
pub open spec fn dash_from(s: Seq<char>, i: int) -> int
    decreases s.len() - i,
{
    if i >= s.len() {
        s.len() as int
    } else if s[i] == '-' {
        i
    } else {
        dash_from(s, i + 1)
    }
}

fn find_dash(s: &Vec<char>, from: usize) -> (r: usize)
    requires
        from <= s@.len(),
    ensures
        r == dash_from(s@, from as int),
        from <= r <= s@.len(),
{
    let mut i = from;
    while i < s.len() && s[i] != '-'
        invariant
            from <= i <= s@.len(),
            dash_from(s@, i as int) == dash_from(s@, from as int),
        decreases s@.len() - i,
    {
        i = i + 1;
    }
    i
}

fn string_from(s: &Vec<char>, start: usize, end: usize) -> (r: String)
    requires
        start <= end <= s@.len(),
    ensures
        r@ == s@.subrange(start as int, end as int),
{
    let mut out = String::new();
    let mut i = start;
    while i < end
        invariant
            start <= i <= end,
            end <= s@.len(),
            out@ == s@.subrange(start as int, i as int),
        decreases end - i,
    {
        crate::strings::string_push(&mut out, s[i]);
        i = i + 1;
        assert(out@ =~= s@.subrange(start as int, i as int));
    }
    out
}

fn chars_vec(s: &str) -> (r: Vec<char>)
    ensures
        r@ == s@,
{
    let n = s.unicode_len();
    let mut v: Vec<char> = Vec::new();
    let mut i: usize = 0;
    while i < n
        invariant
            n == s@.len(),
            i <= n,
            v@ == s@.subrange(0, i as int),
        decreases n - i,
    {
        v.push(s.get_char(i));
        i = i + 1;
        assert(v@ =~= s@.subrange(0, i as int));
    }
    assert(s@.subrange(0, n as int) =~= s@);
    v
}

impl Locale {
    /// The conventions of a language and region.
    pub open spec fn conventions(self, lang: Seq<char>, region: Option<Seq<char>>) -> bool {
        &&& self.language@ == lang
        &&& opt_view(self.region) == region
        &&& self.text_direction == direction_of(lang)
        &&& self.decimal_separator == if comma_decimal(lang) { ',' } else { '.' }
        &&& self.thousands_separator == if comma_decimal(lang) { '.' } else { ',' }
        &&& self.date_format@ == date_format_of(lang, region)
        &&& self.time_format@ == time_format_of(lang, region)
        &&& self.currency_symbol@ == currency_of(lang, region)
        &&& self.currency_before
    }

    /// The locale of a language and an optional region.
    pub fn new(language: &str, region: Option<String>) -> (r: Self)
        ensures
            r.conventions(language@, opt_view(region)),
    {
        let ghost reg = opt_view(region);
        let text_direction = TextDirection::from_lang(language);
        let comma = str_eq(language, "de") || str_eq(language, "es") || str_eq(language, "fr")
            || str_eq(language, "it") || str_eq(language, "pt") || str_eq(language, "ru");
        let (decimal_separator, thousands_separator) = if comma { (',', '.') } else { ('.', ',') };
        let is_en = str_eq(language, "en");
        let (us, gb, sa) = match &region {
            Some(r) => (str_eq(r.as_str(), "US"), str_eq(r.as_str(), "GB"), str_eq(r.as_str(), "SA")),
            None => (false, false, false),
        };
        let date_format = if is_en && us {
            String::from_str("%m/%d/%Y")
        } else if is_en {
            String::from_str("%d/%m/%Y")
        } else if str_eq(language, "ja") || str_eq(language, "zh") || str_eq(language, "ko") {
            String::from_str("%Y-%m-%d")
        } else {
            String::from_str("%d.%m.%Y")
        };
        let time_format = if is_en && us {
            String::from_str("%I:%M %p")
        } else {
            String::from_str("%H:%M")
        };
        let currency_symbol = if is_en && us {
            String::from_str("$")
        } else if is_en && gb {
            String::from_str("\u{a3}")
        } else if str_eq(language, "ja") {
            String::from_str("\u{a5}")
        } else if str_eq(language, "ar") && sa {
            String::from_str("\u{fdfc}")
        } else {
            String::from_str("$")
        };
        Locale {
            language: String::from_str(language),
            region,
            text_direction,
            decimal_separator,
            thousands_separator,
            date_format,
            time_format,
            currency_symbol,
            currency_before: true,
        }
    }

    /// Parse `language-REGION`: the language is the text before the first
    /// `-` ("en" when that is empty), the region the next part upper-cased;
    /// an empty string gives the default locale.
    pub fn from_string(locale_str: &str) -> (r: Self)
        ensures
            locale_str@.len() == 0 ==> r.conventions("en"@, Some("US"@)),
            locale_str@.len() > 0 ==> {
                let s = locale_str@;
                let d0 = dash_from(s, 0);
                let lang = if d0 > 0 { s.subrange(0, d0) } else { "en"@ };
                let region = if d0 < s.len() {
                    Some(upper_of(s.subrange(d0 + 1, dash_from(s, d0 + 1))))
                } else {
                    None
                };
                r.conventions(lang, region)
            },
    {
        if locale_str.is_empty() {
            return Self::default();
        }
        let s = chars_vec(locale_str);
        let d0 = find_dash(&s, 0);
        let language = if d0 > 0 { string_from(&s, 0, d0) } else { String::from_str("en") };
        let region = if d0 < s.len() {
            let d1 = find_dash(&s, d0 + 1);
            let part = string_from(&s, d0 + 1, d1);
            Some(to_upper(part.as_str()))
        } else {
            None
        };
        Self::new(language.as_str(), region)
    }
}

impl Default for Locale {
    /// US English.
    fn default() -> (r: Self)
        ensures
            r.conventions("en"@, Some("US"@)),
    {
        Self::new("en", Some(String::from_str("US")))
    }
}

} // verus!
