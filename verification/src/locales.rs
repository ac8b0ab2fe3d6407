//! The locales a catalog can be translated into.
use vstd::prelude::*;
use crate::text::str_eq;

verus! {

/// A locale: its gettext code and its English name.
#[derive(Debug, Clone, Copy, PartialEq, Eq)]
pub struct Locale {
    pub code: &'static str,
    pub name: &'static str,
}

impl Locale {
    /// The text shown for the locale: `code — name` (its `Display`).
    pub fn display_text(&self) -> (r: String)
        ensures
            r@ == self.code@ + " \u{2014} "@ + self.name@,
    {
        String::from_str(self.code).concat(" \u{2014} ").concat(self.name)
    }
}

/// A locale as plain values: (code, name).
pub open spec fn locale_view(l: Locale) -> (Seq<char>, Seq<char>) {
    (l.code@, l.name@)
}

/// The known locales as plain values, in the order they are offered.
pub open spec fn locale_table() -> Seq<(Seq<char>, Seq<char>)> {
    Seq::empty()
        .push(("af"@, "Afrikaans"@))
        .push(("ak"@, "Akan"@))
        .push(("am"@, "Amharic"@))
        .push(("an"@, "Aragonese"@))
        .push(("ar"@, "Arabic"@))
        .push(("ar_DZ"@, "Arabic (Algeria)"@))
        .push(("ar_EG"@, "Arabic (Egypt)"@))
        .push(("ar_MA"@, "Arabic (Morocco)"@))
        .push(("ar_SA"@, "Arabic (Saudi Arabia)"@))
        .push(("as"@, "Assamese"@))
        .push(("ast"@, "Asturian"@))
        .push(("az"@, "Azerbaijani"@))
        .push(("be"@, "Belarusian"@))
        .push(("bg"@, "Bulgarian"@))
        .push(("bn"@, "Bengali"@))
        .push(("bn_BD"@, "Bengali (Bangladesh)"@))
        .push(("bn_IN"@, "Bengali (India)"@))
        .push(("bo"@, "Tibetan"@))
        .push(("br"@, "Breton"@))
        .push(("bs"@, "Bosnian"@))
        .push(("ca"@, "Catalan"@))
        .push(("ce"@, "Chechen"@))
        .push(("ckb"@, "Central Kurdish"@))
        .push(("co"@, "Corsican"@))
        .push(("cs"@, "Czech"@))
        .push(("cy"@, "Welsh"@))
        .push(("da"@, "Danish"@))
        .push(("de"@, "German"@))
        .push(("de_AT"@, "German (Austria)"@))
        .push(("de_CH"@, "German (Switzerland)"@))
        .push(("dz"@, "Dzongkha"@))
        .push(("el"@, "Greek"@))
        .push(("en"@, "English"@))
        .push(("en_AU"@, "English (Australia)"@))
        .push(("en_CA"@, "English (Canada)"@))
        .push(("en_GB"@, "English (United Kingdom)"@))
        .push(("en_NZ"@, "English (New Zealand)"@))
        .push(("en_ZA"@, "English (South Africa)"@))
        .push(("eo"@, "Esperanto"@))
        .push(("es"@, "Spanish"@))
        .push(("es_AR"@, "Spanish (Argentina)"@))
        .push(("es_CL"@, "Spanish (Chile)"@))
        .push(("es_CO"@, "Spanish (Colombia)"@))
        .push(("es_CR"@, "Spanish (Costa Rica)"@))
        .push(("es_EC"@, "Spanish (Ecuador)"@))
        .push(("es_GT"@, "Spanish (Guatemala)"@))
        .push(("es_HN"@, "Spanish (Honduras)"@))
        .push(("es_MX"@, "Spanish (Mexico)"@))
        .push(("es_PE"@, "Spanish (Peru)"@))
        .push(("es_PR"@, "Spanish (Puerto Rico)"@))
        .push(("es_UY"@, "Spanish (Uruguay)"@))
        .push(("es_VE"@, "Spanish (Venezuela)"@))
        .push(("et"@, "Estonian"@))
        .push(("eu"@, "Basque"@))
        .push(("fa"@, "Persian"@))
        .push(("ff"@, "Fulah"@))
        .push(("fi"@, "Finnish"@))
        .push(("fil"@, "Filipino"@))
        .push(("fo"@, "Faroese"@))
        .push(("fr"@, "French"@))
        .push(("fr_BE"@, "French (Belgium)"@))
        .push(("fr_CA"@, "French (Canada)"@))
        .push(("fr_CH"@, "French (Switzerland)"@))
        .push(("fy"@, "Western Frisian"@))
        .push(("ga"@, "Irish"@))
        .push(("gd"@, "Scottish Gaelic"@))
        .push(("gl"@, "Galician"@))
        .push(("gu"@, "Gujarati"@))
        .push(("gv"@, "Manx"@))
        .push(("ha"@, "Hausa"@))
        .push(("he"@, "Hebrew"@))
        .push(("hi"@, "Hindi"@))
        .push(("hr"@, "Croatian"@))
        .push(("ht"@, "Haitian Creole"@))
        .push(("hu"@, "Hungarian"@))
        .push(("hy"@, "Armenian"@))
        .push(("ia"@, "Interlingua"@))
        .push(("id"@, "Indonesian"@))
        .push(("ig"@, "Igbo"@))
        .push(("is"@, "Icelandic"@))
        .push(("it"@, "Italian"@))
        .push(("ja"@, "Japanese"@))
        .push(("jv"@, "Javanese"@))
        .push(("ka"@, "Georgian"@))
        .push(("kab"@, "Kabyle"@))
        .push(("kk"@, "Kazakh"@))
        .push(("km"@, "Khmer"@))
        .push(("kn"@, "Kannada"@))
        .push(("ko"@, "Korean"@))
        .push(("ku"@, "Kurdish"@))
        .push(("ky"@, "Kyrgyz"@))
        .push(("la"@, "Latin"@))
        .push(("lb"@, "Luxembourgish"@))
        .push(("lo"@, "Lao"@))
        .push(("lt"@, "Lithuanian"@))
        .push(("lv"@, "Latvian"@))
        .push(("mg"@, "Malagasy"@))
        .push(("mi"@, "Maori"@))
        .push(("mk"@, "Macedonian"@))
        .push(("ml"@, "Malayalam"@))
        .push(("mn"@, "Mongolian"@))
        .push(("mr"@, "Marathi"@))
        .push(("ms"@, "Malay"@))
        .push(("mt"@, "Maltese"@))
        .push(("my"@, "Burmese"@))
        .push(("nb"@, "Norwegian Bokm\\u{e5}l"@))
        .push(("ne"@, "Nepali"@))
        .push(("nl"@, "Dutch"@))
        .push(("nl_BE"@, "Dutch (Belgium)"@))
        .push(("nn"@, "Norwegian Nynorsk"@))
        .push(("oc"@, "Occitan"@))
        .push(("or"@, "Odia"@))
        .push(("pa"@, "Punjabi"@))
        .push(("pl"@, "Polish"@))
        .push(("ps"@, "Pashto"@))
        .push(("pt"@, "Portuguese"@))
        .push(("pt_BR"@, "Portuguese (Brazil)"@))
        .push(("pt_PT"@, "Portuguese (Portugal)"@))
        .push(("rm"@, "Romansh"@))
        .push(("ro"@, "Romanian"@))
        .push(("ru"@, "Russian"@))
        .push(("rw"@, "Kinyarwanda"@))
        .push(("sa"@, "Sanskrit"@))
        .push(("sc"@, "Sardinian"@))
        .push(("sd"@, "Sindhi"@))
        .push(("si"@, "Sinhala"@))
        .push(("sk"@, "Slovak"@))
        .push(("sl"@, "Slovenian"@))
        .push(("so"@, "Somali"@))
        .push(("sq"@, "Albanian"@))
        .push(("sr"@, "Serbian"@))
        .push(("sr_Latn"@, "Serbian (Latin)"@))
        .push(("su"@, "Sundanese"@))
        .push(("sv"@, "Swedish"@))
        .push(("sw"@, "Swahili"@))
        .push(("ta"@, "Tamil"@))
        .push(("te"@, "Telugu"@))
        .push(("tg"@, "Tajik"@))
        .push(("th"@, "Thai"@))
        .push(("ti"@, "Tigrinya"@))
        .push(("tk"@, "Turkmen"@))
        .push(("tl"@, "Tagalog"@))
        .push(("tr"@, "Turkish"@))
        .push(("tt"@, "Tatar"@))
        .push(("ug"@, "Uyghur"@))
        .push(("uk"@, "Ukrainian"@))
        .push(("ur"@, "Urdu"@))
        .push(("uz"@, "Uzbek"@))
        .push(("vi"@, "Vietnamese"@))
        .push(("wa"@, "Walloon"@))
        .push(("wo"@, "Wolof"@))
        .push(("xh"@, "Xhosa"@))
        .push(("yi"@, "Yiddish"@))
        .push(("yo"@, "Yoruba"@))
        .push(("zh_CN"@, "Chinese (Simplified)"@))
        .push(("zh_HK"@, "Chinese (Hong Kong)"@))
        .push(("zh_TW"@, "Chinese (Traditional)"@))
        .push(("zu"@, "Zulu"@))
}

fn push_locale(r: &mut Vec<Locale>, l: Locale)
    ensures
        final(r)@.map_values(|l: Locale| locale_view(l)) == old(r)@.map_values(|l: Locale| locale_view(l)).push(locale_view(l)),
{
    r.push(l);
    assert(final(r)@.map_values(|l: Locale| locale_view(l)) =~= old(r)@.map_values(|l: Locale| locale_view(l)).push(locale_view(l)));
}

/// The known locales, in the order they are offered.
#[verifier::rlimit(100)]
pub fn all_locales() -> (r: Vec<Locale>)
    ensures
        r@.map_values(|l: Locale| locale_view(l)) == locale_table(),
{
    let mut r: Vec<Locale> = Vec::new();
    assert(r@.map_values(|l: Locale| locale_view(l)) =~= Seq::<(Seq<char>, Seq<char>)>::empty());
    push_locale(&mut r, Locale { code: "af", name: "Afrikaans" });
    push_locale(&mut r, Locale { code: "ak", name: "Akan" });
    push_locale(&mut r, Locale { code: "am", name: "Amharic" });
    push_locale(&mut r, Locale { code: "an", name: "Aragonese" });
    push_locale(&mut r, Locale { code: "ar", name: "Arabic" });
    push_locale(&mut r, Locale { code: "ar_DZ", name: "Arabic (Algeria)" });
    push_locale(&mut r, Locale { code: "ar_EG", name: "Arabic (Egypt)" });
    push_locale(&mut r, Locale { code: "ar_MA", name: "Arabic (Morocco)" });
    push_locale(&mut r, Locale { code: "ar_SA", name: "Arabic (Saudi Arabia)" });
    push_locale(&mut r, Locale { code: "as", name: "Assamese" });
    push_locale(&mut r, Locale { code: "ast", name: "Asturian" });
    push_locale(&mut r, Locale { code: "az", name: "Azerbaijani" });
    push_locale(&mut r, Locale { code: "be", name: "Belarusian" });
    push_locale(&mut r, Locale { code: "bg", name: "Bulgarian" });
    push_locale(&mut r, Locale { code: "bn", name: "Bengali" });
    push_locale(&mut r, Locale { code: "bn_BD", name: "Bengali (Bangladesh)" });
    push_locale(&mut r, Locale { code: "bn_IN", name: "Bengali (India)" });
    push_locale(&mut r, Locale { code: "bo", name: "Tibetan" });
    push_locale(&mut r, Locale { code: "br", name: "Breton" });
    push_locale(&mut r, Locale { code: "bs", name: "Bosnian" });
    push_locale(&mut r, Locale { code: "ca", name: "Catalan" });
    push_locale(&mut r, Locale { code: "ce", name: "Chechen" });
    push_locale(&mut r, Locale { code: "ckb", name: "Central Kurdish" });
    push_locale(&mut r, Locale { code: "co", name: "Corsican" });
    push_locale(&mut r, Locale { code: "cs", name: "Czech" });
    push_locale(&mut r, Locale { code: "cy", name: "Welsh" });
    push_locale(&mut r, Locale { code: "da", name: "Danish" });
    push_locale(&mut r, Locale { code: "de", name: "German" });
    push_locale(&mut r, Locale { code: "de_AT", name: "German (Austria)" });
    push_locale(&mut r, Locale { code: "de_CH", name: "German (Switzerland)" });
    push_locale(&mut r, Locale { code: "dz", name: "Dzongkha" });
    push_locale(&mut r, Locale { code: "el", name: "Greek" });
    push_locale(&mut r, Locale { code: "en", name: "English" });
    push_locale(&mut r, Locale { code: "en_AU", name: "English (Australia)" });
    push_locale(&mut r, Locale { code: "en_CA", name: "English (Canada)" });
    push_locale(&mut r, Locale { code: "en_GB", name: "English (United Kingdom)" });
    push_locale(&mut r, Locale { code: "en_NZ", name: "English (New Zealand)" });
    push_locale(&mut r, Locale { code: "en_ZA", name: "English (South Africa)" });
    push_locale(&mut r, Locale { code: "eo", name: "Esperanto" });
    push_locale(&mut r, Locale { code: "es", name: "Spanish" });
    push_locale(&mut r, Locale { code: "es_AR", name: "Spanish (Argentina)" });
    push_locale(&mut r, Locale { code: "es_CL", name: "Spanish (Chile)" });
    push_locale(&mut r, Locale { code: "es_CO", name: "Spanish (Colombia)" });
    push_locale(&mut r, Locale { code: "es_CR", name: "Spanish (Costa Rica)" });
    push_locale(&mut r, Locale { code: "es_EC", name: "Spanish (Ecuador)" });
    push_locale(&mut r, Locale { code: "es_GT", name: "Spanish (Guatemala)" });
    push_locale(&mut r, Locale { code: "es_HN", name: "Spanish (Honduras)" });
    push_locale(&mut r, Locale { code: "es_MX", name: "Spanish (Mexico)" });
    push_locale(&mut r, Locale { code: "es_PE", name: "Spanish (Peru)" });
    push_locale(&mut r, Locale { code: "es_PR", name: "Spanish (Puerto Rico)" });
    push_locale(&mut r, Locale { code: "es_UY", name: "Spanish (Uruguay)" });
    push_locale(&mut r, Locale { code: "es_VE", name: "Spanish (Venezuela)" });
    push_locale(&mut r, Locale { code: "et", name: "Estonian" });
    push_locale(&mut r, Locale { code: "eu", name: "Basque" });
    push_locale(&mut r, Locale { code: "fa", name: "Persian" });
    push_locale(&mut r, Locale { code: "ff", name: "Fulah" });
    push_locale(&mut r, Locale { code: "fi", name: "Finnish" });
    push_locale(&mut r, Locale { code: "fil", name: "Filipino" });
    push_locale(&mut r, Locale { code: "fo", name: "Faroese" });
    push_locale(&mut r, Locale { code: "fr", name: "French" });
    push_locale(&mut r, Locale { code: "fr_BE", name: "French (Belgium)" });
    push_locale(&mut r, Locale { code: "fr_CA", name: "French (Canada)" });
    push_locale(&mut r, Locale { code: "fr_CH", name: "French (Switzerland)" });
    push_locale(&mut r, Locale { code: "fy", name: "Western Frisian" });
    push_locale(&mut r, Locale { code: "ga", name: "Irish" });
    push_locale(&mut r, Locale { code: "gd", name: "Scottish Gaelic" });
    push_locale(&mut r, Locale { code: "gl", name: "Galician" });
    push_locale(&mut r, Locale { code: "gu", name: "Gujarati" });
    push_locale(&mut r, Locale { code: "gv", name: "Manx" });
    push_locale(&mut r, Locale { code: "ha", name: "Hausa" });
    push_locale(&mut r, Locale { code: "he", name: "Hebrew" });
    push_locale(&mut r, Locale { code: "hi", name: "Hindi" });
    push_locale(&mut r, Locale { code: "hr", name: "Croatian" });
    push_locale(&mut r, Locale { code: "ht", name: "Haitian Creole" });
    push_locale(&mut r, Locale { code: "hu", name: "Hungarian" });
    push_locale(&mut r, Locale { code: "hy", name: "Armenian" });
    push_locale(&mut r, Locale { code: "ia", name: "Interlingua" });
    push_locale(&mut r, Locale { code: "id", name: "Indonesian" });
    push_locale(&mut r, Locale { code: "ig", name: "Igbo" });
    push_locale(&mut r, Locale { code: "is", name: "Icelandic" });
    push_locale(&mut r, Locale { code: "it", name: "Italian" });
    push_locale(&mut r, Locale { code: "ja", name: "Japanese" });
    push_locale(&mut r, Locale { code: "jv", name: "Javanese" });
    push_locale(&mut r, Locale { code: "ka", name: "Georgian" });
    push_locale(&mut r, Locale { code: "kab", name: "Kabyle" });
    push_locale(&mut r, Locale { code: "kk", name: "Kazakh" });
    push_locale(&mut r, Locale { code: "km", name: "Khmer" });
    push_locale(&mut r, Locale { code: "kn", name: "Kannada" });
    push_locale(&mut r, Locale { code: "ko", name: "Korean" });
    push_locale(&mut r, Locale { code: "ku", name: "Kurdish" });
    push_locale(&mut r, Locale { code: "ky", name: "Kyrgyz" });
    push_locale(&mut r, Locale { code: "la", name: "Latin" });
    push_locale(&mut r, Locale { code: "lb", name: "Luxembourgish" });
    push_locale(&mut r, Locale { code: "lo", name: "Lao" });
    push_locale(&mut r, Locale { code: "lt", name: "Lithuanian" });
    push_locale(&mut r, Locale { code: "lv", name: "Latvian" });
    push_locale(&mut r, Locale { code: "mg", name: "Malagasy" });
    push_locale(&mut r, Locale { code: "mi", name: "Maori" });
    push_locale(&mut r, Locale { code: "mk", name: "Macedonian" });
    push_locale(&mut r, Locale { code: "ml", name: "Malayalam" });
    push_locale(&mut r, Locale { code: "mn", name: "Mongolian" });
    push_locale(&mut r, Locale { code: "mr", name: "Marathi" });
    push_locale(&mut r, Locale { code: "ms", name: "Malay" });
    push_locale(&mut r, Locale { code: "mt", name: "Maltese" });
    push_locale(&mut r, Locale { code: "my", name: "Burmese" });
    push_locale(&mut r, Locale { code: "nb", name: "Norwegian Bokm\\u{e5}l" });
    push_locale(&mut r, Locale { code: "ne", name: "Nepali" });
    push_locale(&mut r, Locale { code: "nl", name: "Dutch" });
    push_locale(&mut r, Locale { code: "nl_BE", name: "Dutch (Belgium)" });
    push_locale(&mut r, Locale { code: "nn", name: "Norwegian Nynorsk" });
    push_locale(&mut r, Locale { code: "oc", name: "Occitan" });
    push_locale(&mut r, Locale { code: "or", name: "Odia" });
    push_locale(&mut r, Locale { code: "pa", name: "Punjabi" });
    push_locale(&mut r, Locale { code: "pl", name: "Polish" });
    push_locale(&mut r, Locale { code: "ps", name: "Pashto" });
    push_locale(&mut r, Locale { code: "pt", name: "Portuguese" });
    push_locale(&mut r, Locale { code: "pt_BR", name: "Portuguese (Brazil)" });
    push_locale(&mut r, Locale { code: "pt_PT", name: "Portuguese (Portugal)" });
    push_locale(&mut r, Locale { code: "rm", name: "Romansh" });
    push_locale(&mut r, Locale { code: "ro", name: "Romanian" });
    push_locale(&mut r, Locale { code: "ru", name: "Russian" });
    push_locale(&mut r, Locale { code: "rw", name: "Kinyarwanda" });
    push_locale(&mut r, Locale { code: "sa", name: "Sanskrit" });
    push_locale(&mut r, Locale { code: "sc", name: "Sardinian" });
    push_locale(&mut r, Locale { code: "sd", name: "Sindhi" });
    push_locale(&mut r, Locale { code: "si", name: "Sinhala" });
    push_locale(&mut r, Locale { code: "sk", name: "Slovak" });
    push_locale(&mut r, Locale { code: "sl", name: "Slovenian" });
    push_locale(&mut r, Locale { code: "so", name: "Somali" });
    push_locale(&mut r, Locale { code: "sq", name: "Albanian" });
    push_locale(&mut r, Locale { code: "sr", name: "Serbian" });
    push_locale(&mut r, Locale { code: "sr_Latn", name: "Serbian (Latin)" });
    push_locale(&mut r, Locale { code: "su", name: "Sundanese" });
    push_locale(&mut r, Locale { code: "sv", name: "Swedish" });
    push_locale(&mut r, Locale { code: "sw", name: "Swahili" });
    push_locale(&mut r, Locale { code: "ta", name: "Tamil" });
    push_locale(&mut r, Locale { code: "te", name: "Telugu" });
    push_locale(&mut r, Locale { code: "tg", name: "Tajik" });
    push_locale(&mut r, Locale { code: "th", name: "Thai" });
    push_locale(&mut r, Locale { code: "ti", name: "Tigrinya" });
    push_locale(&mut r, Locale { code: "tk", name: "Turkmen" });
    push_locale(&mut r, Locale { code: "tl", name: "Tagalog" });
    push_locale(&mut r, Locale { code: "tr", name: "Turkish" });
    push_locale(&mut r, Locale { code: "tt", name: "Tatar" });
    push_locale(&mut r, Locale { code: "ug", name: "Uyghur" });
    push_locale(&mut r, Locale { code: "uk", name: "Ukrainian" });
    push_locale(&mut r, Locale { code: "ur", name: "Urdu" });
    push_locale(&mut r, Locale { code: "uz", name: "Uzbek" });
    push_locale(&mut r, Locale { code: "vi", name: "Vietnamese" });
    push_locale(&mut r, Locale { code: "wa", name: "Walloon" });
    push_locale(&mut r, Locale { code: "wo", name: "Wolof" });
    push_locale(&mut r, Locale { code: "xh", name: "Xhosa" });
    push_locale(&mut r, Locale { code: "yi", name: "Yiddish" });
    push_locale(&mut r, Locale { code: "yo", name: "Yoruba" });
    push_locale(&mut r, Locale { code: "zh_CN", name: "Chinese (Simplified)" });
    push_locale(&mut r, Locale { code: "zh_HK", name: "Chinese (Hong Kong)" });
    push_locale(&mut r, Locale { code: "zh_TW", name: "Chinese (Traditional)" });
    push_locale(&mut r, Locale { code: "zu", name: "Zulu" });
    r
}

/// The position of the first locale from `from` on whose code is `code`.
pub open spec fn locale_index(table: Seq<(Seq<char>, Seq<char>)>, code: Seq<char>, from: int) -> Option<int>
    decreases table.len() - from,
{
    if from < 0 || from >= table.len() {
        None
    } else if table[from].0 == code {
        Some(from)
    } else {
        locale_index(table, code, from + 1)
    }
}

/// The known locale with a code, if any.
pub fn find_locale(code: &str) -> (r: Option<Locale>)
    ensures
        match locale_index(locale_table(), code@, 0) {
            Some(i) => r matches Some(l) && locale_view(l) == locale_table()[i],
            None => r is None,
        },
{
    let all = all_locales();
    let ghost t = locale_table();
    let mut i: usize = 0;
    while i < all.len()
        invariant
            all@.map_values(|l: Locale| locale_view(l)) == t,
            t == locale_table(),
            i <= all@.len(),
            locale_index(t, code@, 0) == locale_index(t, code@, i as int),
        decreases all.len() - i,
    {
        assert(locale_view(all@[i as int]) == t[i as int]);
        if str_eq(all[i].code, code) {
            return Some(all[i]);
        }
        i = i + 1;
    }
    None
}

} // verus!
