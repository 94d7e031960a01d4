//! The lookup table from two-letter language codes to full language
//! names, used to phrase the translation instructions.
//!
//! The mapping is total: a code that is not listed falls back to the
//! English language name.

use vstd::prelude::*;

verus! {

/// The language name that belongs to a two-letter code; any code that is
/// not listed maps to the English fallback name.
pub open spec fn language_name_spec(code: Seq<char>) -> Seq<char> {
    if code.len() != 2 {
        "English"@
    } else if code[0] == 'a' && code[1] == 'b' {
        "Abkhazian"@
    } else if code[0] == 'a' && code[1] == 'a' {
        "Afar"@
    } else if code[0] == 'a' && code[1] == 'f' {
        "Afrikaans"@
    } else if code[0] == 'a' && code[1] == 'k' {
        "Akan"@
    } else if code[0] == 's' && code[1] == 'q' {
        "Albanian"@
    } else if code[0] == 'a' && code[1] == 'm' {
        "Amharic"@
    } else if code[0] == 'a' && code[1] == 'r' {
        "Arabic"@
    } else if code[0] == 'a' && code[1] == 'n' {
        "Aragonese"@
    } else if code[0] == 'h' && code[1] == 'y' {
        "Armenian"@
    } else if code[0] == 'a' && code[1] == 's' {
        "Assamese"@
    } else if code[0] == 'a' && code[1] == 'v' {
        "Avaric"@
    } else if code[0] == 'a' && code[1] == 'e' {
        "Avestan"@
    } else if code[0] == 'a' && code[1] == 'y' {
        "Aymara"@
    } else if code[0] == 'a' && code[1] == 'z' {
        "Azerbaijani"@
    } else if code[0] == 'b' && code[1] == 'a' {
        "Bashkir"@
    } else if code[0] == 'b' && code[1] == 'm' {
        "Bambara"@
    } else if code[0] == 'e' && code[1] == 'u' {
        "Basque"@
    } else if code[0] == 'b' && code[1] == 'e' {
        "Belarusian"@
    } else if code[0] == 'b' && code[1] == 'n' {
        "Bengali"@
    } else if code[0] == 'b' && code[1] == 'h' {
        "Bihari languages"@
    } else if code[0] == 'b' && code[1] == 'i' {
        "Bislama"@
    } else if code[0] == 'b' && code[1] == 's' {
        "Bosnian"@
    } else if code[0] == 'b' && code[1] == 'r' {
        "Breton"@
    } else if code[0] == 'b' && code[1] == 'g' {
        "Bulgarian"@
    } else if code[0] == 'm' && code[1] == 'y' {
        "Burmese"@
    } else if code[0] == 'c' && code[1] == 'a' {
        "Catalan"@
    } else if code[0] == 'c' && code[1] == 'h' {
        "Chamorro"@
    } else if code[0] == 'c' && code[1] == 'e' {
        "Chechen"@
    } else if code[0] == 'n' && code[1] == 'y' {
        "Chichewa"@
    } else if code[0] == 'z' && code[1] == 'h' {
        "Chinese"@
    } else if code[0] == 'c' && code[1] == 'v' {
        "Chuvash"@
    } else if code[0] == 'k' && code[1] == 'w' {
        "Cornish"@
    } else if code[0] == 'c' && code[1] == 'o' {
        "Corsican"@
    } else if code[0] == 'c' && code[1] == 'r' {
        "Cree"@
    } else if code[0] == 'h' && code[1] == 'r' {
        "Croatian"@
    } else if code[0] == 'c' && code[1] == 's' {
        "Czech"@
    } else if code[0] == 'd' && code[1] == 'a' {
        "Danish"@
    } else if code[0] == 'd' && code[1] == 'v' {
        "Divehi"@
    } else if code[0] == 'n' && code[1] == 'l' {
        "Dutch"@
    } else if code[0] == 'd' && code[1] == 'z' {
        "Dzongkha"@
    } else if code[0] == 'e' && code[1] == 'n' {
        "English"@
    } else if code[0] == 'e' && code[1] == 'o' {
        "Esperanto"@
    } else if code[0] == 'e' && code[1] == 't' {
        "Estonian"@
    } else if code[0] == 'e' && code[1] == 'e' {
        "Ewe"@
    } else if code[0] == 'f' && code[1] == 'o' {
        "Faroese"@
    } else if code[0] == 'f' && code[1] == 'j' {
        "Fijian"@
    } else if code[0] == 'f' && code[1] == 'i' {
        "Finnish"@
    } else if code[0] == 'f' && code[1] == 'r' {
        "French"@
    } else if code[0] == 'f' && code[1] == 'f' {
        "Fulah"@
    } else if code[0] == 'g' && code[1] == 'l' {
        "Galician"@
    } else if code[0] == 'k' && code[1] == 'a' {
        "Georgian"@
    } else if code[0] == 'd' && code[1] == 'e' {
        "German"@
    } else if code[0] == 'e' && code[1] == 'l' {
        "Greek"@
    } else if code[0] == 'g' && code[1] == 'n' {
        "Guarani"@
    } else if code[0] == 'g' && code[1] == 'u' {
        "Gujarati"@
    } else if code[0] == 'h' && code[1] == 't' {
        "Haitian Creole"@
    } else if code[0] == 'h' && code[1] == 'a' {
        "Hausa"@
    } else if code[0] == 'h' && code[1] == 'e' {
        "Hebrew"@
    } else if code[0] == 'h' && code[1] == 'z' {
        "Herero"@
    } else if code[0] == 'h' && code[1] == 'i' {
        "Hindi"@
    } else if code[0] == 'h' && code[1] == 'o' {
        "Hiri Motu"@
    } else if code[0] == 'h' && code[1] == 'u' {
        "Hungarian"@
    } else if code[0] == 'i' && code[1] == 'a' {
        "Interlingua"@
    } else if code[0] == 'i' && code[1] == 'd' {
        "Indonesian"@
    } else if code[0] == 'i' && code[1] == 'e' {
        "Interlingue"@
    } else if code[0] == 'g' && code[1] == 'a' {
        "Irish"@
    } else if code[0] == 'i' && code[1] == 'g' {
        "Igbo"@
    } else if code[0] == 'i' && code[1] == 'k' {
        "Inupiaq"@
    } else if code[0] == 'i' && code[1] == 'o' {
        "Ido"@
    } else if code[0] == 'i' && code[1] == 's' {
        "Icelandic"@
    } else if code[0] == 'i' && code[1] == 't' {
        "Italian"@
    } else if code[0] == 'i' && code[1] == 'u' {
        "Inuktitut"@
    } else if code[0] == 'j' && code[1] == 'a' {
        "Japanese"@
    } else if code[0] == 'j' && code[1] == 'v' {
        "Javanese"@
    } else if code[0] == 'k' && code[1] == 'l' {
        "Kalaallisut"@
    } else if code[0] == 'k' && code[1] == 'n' {
        "Kannada"@
    } else if code[0] == 'k' && code[1] == 'r' {
        "Kanuri"@
    } else if code[0] == 'k' && code[1] == 's' {
        "Kashmiri"@
    } else if code[0] == 'k' && code[1] == 'k' {
        "Kazakh"@
    } else if code[0] == 'k' && code[1] == 'm' {
        "Khmer"@
    } else if code[0] == 'k' && code[1] == 'i' {
        "Kikuyu"@
    } else if code[0] == 'r' && code[1] == 'w' {
        "Kinyarwanda"@
    } else if code[0] == 'k' && code[1] == 'y' {
        "Kirghiz"@
    } else if code[0] == 'k' && code[1] == 'v' {
        "Komi"@
    } else if code[0] == 'k' && code[1] == 'g' {
        "Kongo"@
    } else if code[0] == 'k' && code[1] == 'o' {
        "Korean"@
    } else if code[0] == 'k' && code[1] == 'u' {
        "Kurdish"@
    } else if code[0] == 'k' && code[1] == 'j' {
        "Kuanyama"@
    } else if code[0] == 'l' && code[1] == 'a' {
        "Latin"@
    } else if code[0] == 'l' && code[1] == 'b' {
        "Luxembourgish"@
    } else if code[0] == 'l' && code[1] == 'g' {
        "Ganda"@
    } else if code[0] == 'l' && code[1] == 'i' {
        "Limburgan"@
    } else if code[0] == 'l' && code[1] == 'n' {
        "Lingala"@
    } else if code[0] == 'l' && code[1] == 'o' {
        "Lao"@
    } else if code[0] == 'l' && code[1] == 't' {
        "Lithuanian"@
    } else if code[0] == 'l' && code[1] == 'u' {
        "Luba-Katanga"@
    } else if code[0] == 'l' && code[1] == 'v' {
        "Latvian"@
    } else if code[0] == 'g' && code[1] == 'v' {
        "Manx"@
    } else if code[0] == 'm' && code[1] == 'k' {
        "Macedonian"@
    } else if code[0] == 'm' && code[1] == 'g' {
        "Malagasy"@
    } else if code[0] == 'm' && code[1] == 's' {
        "Malay"@
    } else if code[0] == 'm' && code[1] == 'l' {
        "Malayalam"@
    } else if code[0] == 'm' && code[1] == 't' {
        "Maltese"@
    } else if code[0] == 'm' && code[1] == 'i' {
        "Maori"@
    } else if code[0] == 'm' && code[1] == 'r' {
        "Marathi"@
    } else if code[0] == 'm' && code[1] == 'h' {
        "Marshallese"@
    } else if code[0] == 'm' && code[1] == 'n' {
        "Mongolian"@
    } else if code[0] == 'n' && code[1] == 'a' {
        "Nauru"@
    } else if code[0] == 'n' && code[1] == 'v' {
        "Navajo"@
    } else if code[0] == 'n' && code[1] == 'd' {
        "North Ndebele"@
    } else if code[0] == 'n' && code[1] == 'e' {
        "Nepali"@
    } else if code[0] == 'n' && code[1] == 'g' {
        "Ndonga"@
    } else if code[0] == 'n' && code[1] == 'b' {
        "Norwegian Bokm\u{00e5}l"@
    } else if code[0] == 'n' && code[1] == 'n' {
        "Norwegian Nynorsk"@
    } else if code[0] == 'n' && code[1] == 'o' {
        "Norwegian"@
    } else if code[0] == 'i' && code[1] == 'i' {
        "Sichuan Yi"@
    } else if code[0] == 'n' && code[1] == 'r' {
        "South Ndebele"@
    } else if code[0] == 'o' && code[1] == 'c' {
        "Occitan"@
    } else if code[0] == 'o' && code[1] == 'j' {
        "Ojibwa"@
    } else if code[0] == 'c' && code[1] == 'u' {
        "Church Slavic"@
    } else if code[0] == 'o' && code[1] == 'm' {
        "Oromo"@
    } else if code[0] == 'o' && code[1] == 'r' {
        "Oriya"@
    } else if code[0] == 'o' && code[1] == 's' {
        "Ossetian"@
    } else if code[0] == 'p' && code[1] == 'a' {
        "Punjabi"@
    } else if code[0] == 'p' && code[1] == 'i' {
        "Pali"@
    } else if code[0] == 'f' && code[1] == 'a' {
        "Persian"@
    } else if code[0] == 'p' && code[1] == 'l' {
        "Polish"@
    } else if code[0] == 'p' && code[1] == 's' {
        "Pashto"@
    } else if code[0] == 'p' && code[1] == 't' {
        "Portuguese"@
    } else if code[0] == 'q' && code[1] == 'u' {
        "Quechua"@
    } else if code[0] == 'r' && code[1] == 'm' {
        "Romansh"@
    } else if code[0] == 'r' && code[1] == 'n' {
        "Rundi"@
    } else if code[0] == 'r' && code[1] == 'o' {
        "Romanian"@
    } else if code[0] == 'r' && code[1] == 'u' {
        "Russian"@
    } else if code[0] == 's' && code[1] == 'a' {
        "Sanskrit"@
    } else if code[0] == 's' && code[1] == 'c' {
        "Sardinian"@
    } else if code[0] == 's' && code[1] == 'd' {
        "Sindhi"@
    } else if code[0] == 's' && code[1] == 'e' {
        "Northern Sami"@
    } else if code[0] == 's' && code[1] == 'm' {
        "Samoan"@
    } else if code[0] == 's' && code[1] == 'g' {
        "Sango"@
    } else if code[0] == 's' && code[1] == 'r' {
        "Serbian"@
    } else if code[0] == 'g' && code[1] == 'd' {
        "Gaelic"@
    } else if code[0] == 's' && code[1] == 'n' {
        "Shona"@
    } else if code[0] == 's' && code[1] == 'i' {
        "Sinhala"@
    } else if code[0] == 's' && code[1] == 'k' {
        "Slovak"@
    } else if code[0] == 's' && code[1] == 'l' {
        "Slovenian"@
    } else if code[0] == 's' && code[1] == 'o' {
        "Somali"@
    } else if code[0] == 's' && code[1] == 't' {
        "Southern Sotho"@
    } else if code[0] == 'e' && code[1] == 's' {
        "Spanish"@
    } else if code[0] == 's' && code[1] == 'u' {
        "Sundanese"@
    } else if code[0] == 's' && code[1] == 'w' {
        "Swahili"@
    } else if code[0] == 's' && code[1] == 's' {
        "Swati"@
    } else if code[0] == 's' && code[1] == 'v' {
        "Swedish"@
    } else if code[0] == 't' && code[1] == 'a' {
        "Tamil"@
    } else if code[0] == 't' && code[1] == 'e' {
        "Telugu"@
    } else if code[0] == 't' && code[1] == 'g' {
        "Tajik"@
    } else if code[0] == 't' && code[1] == 'h' {
        "Thai"@
    } else if code[0] == 't' && code[1] == 'i' {
        "Tigrinya"@
    } else if code[0] == 'b' && code[1] == 'o' {
        "Tibetan"@
    } else if code[0] == 't' && code[1] == 'k' {
        "Turkmen"@
    } else if code[0] == 't' && code[1] == 'l' {
        "Tagalog"@
    } else if code[0] == 't' && code[1] == 'n' {
        "Tswana"@
    } else if code[0] == 't' && code[1] == 'o' {
        "Tonga"@
    } else if code[0] == 't' && code[1] == 'r' {
        "Turkish"@
    } else if code[0] == 't' && code[1] == 's' {
        "Tsonga"@
    } else if code[0] == 't' && code[1] == 't' {
        "Tatar"@
    } else if code[0] == 't' && code[1] == 'w' {
        "Twi"@
    } else if code[0] == 't' && code[1] == 'y' {
        "Tahitian"@
    } else if code[0] == 'u' && code[1] == 'g' {
        "Uighur"@
    } else if code[0] == 'u' && code[1] == 'k' {
        "Ukrainian"@
    } else if code[0] == 'u' && code[1] == 'r' {
        "Urdu"@
    } else if code[0] == 'u' && code[1] == 'z' {
        "Uzbek"@
    } else if code[0] == 'v' && code[1] == 'e' {
        "Venda"@
    } else if code[0] == 'v' && code[1] == 'i' {
        "Vietnamese"@
    } else if code[0] == 'v' && code[1] == 'o' {
        "Volap\u{00fc}k"@
    } else if code[0] == 'w' && code[1] == 'a' {
        "Walloon"@
    } else if code[0] == 'c' && code[1] == 'y' {
        "Welsh"@
    } else if code[0] == 'w' && code[1] == 'o' {
        "Wolof"@
    } else if code[0] == 'f' && code[1] == 'y' {
        "Western Frisian"@
    } else if code[0] == 'x' && code[1] == 'h' {
        "Xhosa"@
    } else if code[0] == 'y' && code[1] == 'i' {
        "Yiddish"@
    } else if code[0] == 'y' && code[1] == 'o' {
        "Yoruba"@
    } else if code[0] == 'z' && code[1] == 'a' {
        "Zhuang"@
    } else if code[0] == 'z' && code[1] == 'u' {
        "Zulu"@
    } else {
        "English"@
    }
}

/// Whether a two-letter code stands in the lookup table.
pub open spec fn is_listed_code(code: Seq<char>) -> bool {
    code.len() == 2 && (
        (code[0] == 'a' && code[1] == 'b') ||
        (code[0] == 'a' && code[1] == 'a') ||
        (code[0] == 'a' && code[1] == 'f') ||
        (code[0] == 'a' && code[1] == 'k') ||
        (code[0] == 's' && code[1] == 'q') ||
        (code[0] == 'a' && code[1] == 'm') ||
        (code[0] == 'a' && code[1] == 'r') ||
        (code[0] == 'a' && code[1] == 'n') ||
        (code[0] == 'h' && code[1] == 'y') ||
        (code[0] == 'a' && code[1] == 's') ||
        (code[0] == 'a' && code[1] == 'v') ||
        (code[0] == 'a' && code[1] == 'e') ||
        (code[0] == 'a' && code[1] == 'y') ||
        (code[0] == 'a' && code[1] == 'z') ||
        (code[0] == 'b' && code[1] == 'a') ||
        (code[0] == 'b' && code[1] == 'm') ||
        (code[0] == 'e' && code[1] == 'u') ||
        (code[0] == 'b' && code[1] == 'e') ||
        (code[0] == 'b' && code[1] == 'n') ||
        (code[0] == 'b' && code[1] == 'h') ||
        (code[0] == 'b' && code[1] == 'i') ||
        (code[0] == 'b' && code[1] == 's') ||
        (code[0] == 'b' && code[1] == 'r') ||
        (code[0] == 'b' && code[1] == 'g') ||
        (code[0] == 'm' && code[1] == 'y') ||
        (code[0] == 'c' && code[1] == 'a') ||
        (code[0] == 'c' && code[1] == 'h') ||
        (code[0] == 'c' && code[1] == 'e') ||
        (code[0] == 'n' && code[1] == 'y') ||
        (code[0] == 'z' && code[1] == 'h') ||
        (code[0] == 'c' && code[1] == 'v') ||
        (code[0] == 'k' && code[1] == 'w') ||
        (code[0] == 'c' && code[1] == 'o') ||
        (code[0] == 'c' && code[1] == 'r') ||
        (code[0] == 'h' && code[1] == 'r') ||
        (code[0] == 'c' && code[1] == 's') ||
        (code[0] == 'd' && code[1] == 'a') ||
        (code[0] == 'd' && code[1] == 'v') ||
        (code[0] == 'n' && code[1] == 'l') ||
        (code[0] == 'd' && code[1] == 'z') ||
        (code[0] == 'e' && code[1] == 'n') ||
        (code[0] == 'e' && code[1] == 'o') ||
        (code[0] == 'e' && code[1] == 't') ||
        (code[0] == 'e' && code[1] == 'e') ||
        (code[0] == 'f' && code[1] == 'o') ||
        (code[0] == 'f' && code[1] == 'j') ||
        (code[0] == 'f' && code[1] == 'i') ||
        (code[0] == 'f' && code[1] == 'r') ||
        (code[0] == 'f' && code[1] == 'f') ||
        (code[0] == 'g' && code[1] == 'l') ||
        (code[0] == 'k' && code[1] == 'a') ||
        (code[0] == 'd' && code[1] == 'e') ||
        (code[0] == 'e' && code[1] == 'l') ||
        (code[0] == 'g' && code[1] == 'n') ||
        (code[0] == 'g' && code[1] == 'u') ||
        (code[0] == 'h' && code[1] == 't') ||
        (code[0] == 'h' && code[1] == 'a') ||
        (code[0] == 'h' && code[1] == 'e') ||
        (code[0] == 'h' && code[1] == 'z') ||
        (code[0] == 'h' && code[1] == 'i') ||
        (code[0] == 'h' && code[1] == 'o') ||
        (code[0] == 'h' && code[1] == 'u') ||
        (code[0] == 'i' && code[1] == 'a') ||
        (code[0] == 'i' && code[1] == 'd') ||
        (code[0] == 'i' && code[1] == 'e') ||
        (code[0] == 'g' && code[1] == 'a') ||
        (code[0] == 'i' && code[1] == 'g') ||
        (code[0] == 'i' && code[1] == 'k') ||
        (code[0] == 'i' && code[1] == 'o') ||
        (code[0] == 'i' && code[1] == 's') ||
        (code[0] == 'i' && code[1] == 't') ||
        (code[0] == 'i' && code[1] == 'u') ||
        (code[0] == 'j' && code[1] == 'a') ||
        (code[0] == 'j' && code[1] == 'v') ||
        (code[0] == 'k' && code[1] == 'l') ||
        (code[0] == 'k' && code[1] == 'n') ||
        (code[0] == 'k' && code[1] == 'r') ||
        (code[0] == 'k' && code[1] == 's') ||
        (code[0] == 'k' && code[1] == 'k') ||
        (code[0] == 'k' && code[1] == 'm') ||
        (code[0] == 'k' && code[1] == 'i') ||
        (code[0] == 'r' && code[1] == 'w') ||
        (code[0] == 'k' && code[1] == 'y') ||
        (code[0] == 'k' && code[1] == 'v') ||
        (code[0] == 'k' && code[1] == 'g') ||
        (code[0] == 'k' && code[1] == 'o') ||
        (code[0] == 'k' && code[1] == 'u') ||
        (code[0] == 'k' && code[1] == 'j') ||
        (code[0] == 'l' && code[1] == 'a') ||
        (code[0] == 'l' && code[1] == 'b') ||
        (code[0] == 'l' && code[1] == 'g') ||
        (code[0] == 'l' && code[1] == 'i') ||
        (code[0] == 'l' && code[1] == 'n') ||
        (code[0] == 'l' && code[1] == 'o') ||
        (code[0] == 'l' && code[1] == 't') ||
        (code[0] == 'l' && code[1] == 'u') ||
        (code[0] == 'l' && code[1] == 'v') ||
        (code[0] == 'g' && code[1] == 'v') ||
        (code[0] == 'm' && code[1] == 'k') ||
        (code[0] == 'm' && code[1] == 'g') ||
        (code[0] == 'm' && code[1] == 's') ||
        (code[0] == 'm' && code[1] == 'l') ||
        (code[0] == 'm' && code[1] == 't') ||
        (code[0] == 'm' && code[1] == 'i') ||
        (code[0] == 'm' && code[1] == 'r') ||
        (code[0] == 'm' && code[1] == 'h') ||
        (code[0] == 'm' && code[1] == 'n') ||
        (code[0] == 'n' && code[1] == 'a') ||
        (code[0] == 'n' && code[1] == 'v') ||
        (code[0] == 'n' && code[1] == 'd') ||
        (code[0] == 'n' && code[1] == 'e') ||
        (code[0] == 'n' && code[1] == 'g') ||
        (code[0] == 'n' && code[1] == 'b') ||
        (code[0] == 'n' && code[1] == 'n') ||
        (code[0] == 'n' && code[1] == 'o') ||
        (code[0] == 'i' && code[1] == 'i') ||
        (code[0] == 'n' && code[1] == 'r') ||
        (code[0] == 'o' && code[1] == 'c') ||
        (code[0] == 'o' && code[1] == 'j') ||
        (code[0] == 'c' && code[1] == 'u') ||
        (code[0] == 'o' && code[1] == 'm') ||
        (code[0] == 'o' && code[1] == 'r') ||
        (code[0] == 'o' && code[1] == 's') ||
        (code[0] == 'p' && code[1] == 'a') ||
        (code[0] == 'p' && code[1] == 'i') ||
        (code[0] == 'f' && code[1] == 'a') ||
        (code[0] == 'p' && code[1] == 'l') ||
        (code[0] == 'p' && code[1] == 's') ||
        (code[0] == 'p' && code[1] == 't') ||
        (code[0] == 'q' && code[1] == 'u') ||
        (code[0] == 'r' && code[1] == 'm') ||
        (code[0] == 'r' && code[1] == 'n') ||
        (code[0] == 'r' && code[1] == 'o') ||
        (code[0] == 'r' && code[1] == 'u') ||
        (code[0] == 's' && code[1] == 'a') ||
        (code[0] == 's' && code[1] == 'c') ||
        (code[0] == 's' && code[1] == 'd') ||
        (code[0] == 's' && code[1] == 'e') ||
        (code[0] == 's' && code[1] == 'm') ||
        (code[0] == 's' && code[1] == 'g') ||
        (code[0] == 's' && code[1] == 'r') ||
        (code[0] == 'g' && code[1] == 'd') ||
        (code[0] == 's' && code[1] == 'n') ||
        (code[0] == 's' && code[1] == 'i') ||
        (code[0] == 's' && code[1] == 'k') ||
        (code[0] == 's' && code[1] == 'l') ||
        (code[0] == 's' && code[1] == 'o') ||
        (code[0] == 's' && code[1] == 't') ||
        (code[0] == 'e' && code[1] == 's') ||
        (code[0] == 's' && code[1] == 'u') ||
        (code[0] == 's' && code[1] == 'w') ||
        (code[0] == 's' && code[1] == 's') ||
        (code[0] == 's' && code[1] == 'v') ||
        (code[0] == 't' && code[1] == 'a') ||
        (code[0] == 't' && code[1] == 'e') ||
        (code[0] == 't' && code[1] == 'g') ||
        (code[0] == 't' && code[1] == 'h') ||
        (code[0] == 't' && code[1] == 'i') ||
        (code[0] == 'b' && code[1] == 'o') ||
        (code[0] == 't' && code[1] == 'k') ||
        (code[0] == 't' && code[1] == 'l') ||
        (code[0] == 't' && code[1] == 'n') ||
        (code[0] == 't' && code[1] == 'o') ||
        (code[0] == 't' && code[1] == 'r') ||
        (code[0] == 't' && code[1] == 's') ||
        (code[0] == 't' && code[1] == 't') ||
        (code[0] == 't' && code[1] == 'w') ||
        (code[0] == 't' && code[1] == 'y') ||
        (code[0] == 'u' && code[1] == 'g') ||
        (code[0] == 'u' && code[1] == 'k') ||
        (code[0] == 'u' && code[1] == 'r') ||
        (code[0] == 'u' && code[1] == 'z') ||
        (code[0] == 'v' && code[1] == 'e') ||
        (code[0] == 'v' && code[1] == 'i') ||
        (code[0] == 'v' && code[1] == 'o') ||
        (code[0] == 'w' && code[1] == 'a') ||
        (code[0] == 'c' && code[1] == 'y') ||
        (code[0] == 'w' && code[1] == 'o') ||
        (code[0] == 'f' && code[1] == 'y') ||
        (code[0] == 'x' && code[1] == 'h') ||
        (code[0] == 'y' && code[1] == 'i') ||
        (code[0] == 'y' && code[1] == 'o') ||
        (code[0] == 'z' && code[1] == 'a') ||
        (code[0] == 'z' && code[1] == 'u')
    )
}

/// A code that is not in the lookup table maps to the English fallback
/// language name.
pub proof fn lemma_unlisted_code_maps_to_english(code: Seq<char>)
    requires
        !is_listed_code(code),
    ensures
        language_name_spec(code) == "English"@,
{
}

/// Maps a two-letter language code to the full language name; unknown
/// codes fall back to English.
#[verifier::rlimit(100)]
pub fn iso_to_name(code: &str) -> (name: &'static str)
    ensures
        name@ == language_name_spec(code@),
{
    let n = code.unicode_len();
    if n != 2 {
        return "English";
    }
    let c0 = code.get_char(0);
    let c1 = code.get_char(1);
    if c0 == 'a' && c1 == 'b' {
        "Abkhazian"
    } else if c0 == 'a' && c1 == 'a' {
        "Afar"
    } else if c0 == 'a' && c1 == 'f' {
        "Afrikaans"
    } else if c0 == 'a' && c1 == 'k' {
        "Akan"
    } else if c0 == 's' && c1 == 'q' {
        "Albanian"
    } else if c0 == 'a' && c1 == 'm' {
        "Amharic"
    } else if c0 == 'a' && c1 == 'r' {
        "Arabic"
    } else if c0 == 'a' && c1 == 'n' {
        "Aragonese"
    } else if c0 == 'h' && c1 == 'y' {
        "Armenian"
    } else if c0 == 'a' && c1 == 's' {
        "Assamese"
    } else if c0 == 'a' && c1 == 'v' {
        "Avaric"
    } else if c0 == 'a' && c1 == 'e' {
        "Avestan"
    } else if c0 == 'a' && c1 == 'y' {
        "Aymara"
    } else if c0 == 'a' && c1 == 'z' {
        "Azerbaijani"
    } else if c0 == 'b' && c1 == 'a' {
        "Bashkir"
    } else if c0 == 'b' && c1 == 'm' {
        "Bambara"
    } else if c0 == 'e' && c1 == 'u' {
        "Basque"
    } else if c0 == 'b' && c1 == 'e' {
        "Belarusian"
    } else if c0 == 'b' && c1 == 'n' {
        "Bengali"
    } else if c0 == 'b' && c1 == 'h' {
        "Bihari languages"
    } else if c0 == 'b' && c1 == 'i' {
        "Bislama"
    } else if c0 == 'b' && c1 == 's' {
        "Bosnian"
    } else if c0 == 'b' && c1 == 'r' {
        "Breton"
    } else if c0 == 'b' && c1 == 'g' {
        "Bulgarian"
    } else if c0 == 'm' && c1 == 'y' {
        "Burmese"
    } else if c0 == 'c' && c1 == 'a' {
        "Catalan"
    } else if c0 == 'c' && c1 == 'h' {
        "Chamorro"
    } else if c0 == 'c' && c1 == 'e' {
        "Chechen"
    } else if c0 == 'n' && c1 == 'y' {
        "Chichewa"
    } else if c0 == 'z' && c1 == 'h' {
        "Chinese"
    } else if c0 == 'c' && c1 == 'v' {
        "Chuvash"
    } else if c0 == 'k' && c1 == 'w' {
        "Cornish"
    } else if c0 == 'c' && c1 == 'o' {
        "Corsican"
    } else if c0 == 'c' && c1 == 'r' {
        "Cree"
    } else if c0 == 'h' && c1 == 'r' {
        "Croatian"
    } else if c0 == 'c' && c1 == 's' {
        "Czech"
    } else if c0 == 'd' && c1 == 'a' {
        "Danish"
    } else if c0 == 'd' && c1 == 'v' {
        "Divehi"
    } else if c0 == 'n' && c1 == 'l' {
        "Dutch"
    } else if c0 == 'd' && c1 == 'z' {
        "Dzongkha"
    } else if c0 == 'e' && c1 == 'n' {
        "English"
    } else if c0 == 'e' && c1 == 'o' {
        "Esperanto"
    } else if c0 == 'e' && c1 == 't' {
        "Estonian"
    } else if c0 == 'e' && c1 == 'e' {
        "Ewe"
    } else if c0 == 'f' && c1 == 'o' {
        "Faroese"
    } else if c0 == 'f' && c1 == 'j' {
        "Fijian"
    } else if c0 == 'f' && c1 == 'i' {
        "Finnish"
    } else if c0 == 'f' && c1 == 'r' {
        "French"
    } else if c0 == 'f' && c1 == 'f' {
        "Fulah"
    } else if c0 == 'g' && c1 == 'l' {
        "Galician"
    } else if c0 == 'k' && c1 == 'a' {
        "Georgian"
    } else if c0 == 'd' && c1 == 'e' {
        "German"
    } else if c0 == 'e' && c1 == 'l' {
        "Greek"
    } else if c0 == 'g' && c1 == 'n' {
        "Guarani"
    } else if c0 == 'g' && c1 == 'u' {
        "Gujarati"
    } else if c0 == 'h' && c1 == 't' {
        "Haitian Creole"
    } else if c0 == 'h' && c1 == 'a' {
        "Hausa"
    } else if c0 == 'h' && c1 == 'e' {
        "Hebrew"
    } else if c0 == 'h' && c1 == 'z' {
        "Herero"
    } else if c0 == 'h' && c1 == 'i' {
        "Hindi"
    } else if c0 == 'h' && c1 == 'o' {
        "Hiri Motu"
    } else if c0 == 'h' && c1 == 'u' {
        "Hungarian"
    } else if c0 == 'i' && c1 == 'a' {
        "Interlingua"
    } else if c0 == 'i' && c1 == 'd' {
        "Indonesian"
    } else if c0 == 'i' && c1 == 'e' {
        "Interlingue"
    } else if c0 == 'g' && c1 == 'a' {
        "Irish"
    } else if c0 == 'i' && c1 == 'g' {
        "Igbo"
    } else if c0 == 'i' && c1 == 'k' {
        "Inupiaq"
    } else if c0 == 'i' && c1 == 'o' {
        "Ido"
    } else if c0 == 'i' && c1 == 's' {
        "Icelandic"
    } else if c0 == 'i' && c1 == 't' {
        "Italian"
    } else if c0 == 'i' && c1 == 'u' {
        "Inuktitut"
    } else if c0 == 'j' && c1 == 'a' {
        "Japanese"
    } else if c0 == 'j' && c1 == 'v' {
        "Javanese"
    } else if c0 == 'k' && c1 == 'l' {
        "Kalaallisut"
    } else if c0 == 'k' && c1 == 'n' {
        "Kannada"
    } else if c0 == 'k' && c1 == 'r' {
        "Kanuri"
    } else if c0 == 'k' && c1 == 's' {
        "Kashmiri"
    } else if c0 == 'k' && c1 == 'k' {
        "Kazakh"
    } else if c0 == 'k' && c1 == 'm' {
        "Khmer"
    } else if c0 == 'k' && c1 == 'i' {
        "Kikuyu"
    } else if c0 == 'r' && c1 == 'w' {
        "Kinyarwanda"
    } else if c0 == 'k' && c1 == 'y' {
        "Kirghiz"
    } else if c0 == 'k' && c1 == 'v' {
        "Komi"
    } else if c0 == 'k' && c1 == 'g' {
        "Kongo"
    } else if c0 == 'k' && c1 == 'o' {
        "Korean"
    } else if c0 == 'k' && c1 == 'u' {
        "Kurdish"
    } else if c0 == 'k' && c1 == 'j' {
        "Kuanyama"
    } else if c0 == 'l' && c1 == 'a' {
        "Latin"
    } else if c0 == 'l' && c1 == 'b' {
        "Luxembourgish"
    } else if c0 == 'l' && c1 == 'g' {
        "Ganda"
    } else if c0 == 'l' && c1 == 'i' {
        "Limburgan"
    } else if c0 == 'l' && c1 == 'n' {
        "Lingala"
    } else if c0 == 'l' && c1 == 'o' {
        "Lao"
    } else if c0 == 'l' && c1 == 't' {
        "Lithuanian"
    } else if c0 == 'l' && c1 == 'u' {
        "Luba-Katanga"
    } else if c0 == 'l' && c1 == 'v' {
        "Latvian"
    } else if c0 == 'g' && c1 == 'v' {
        "Manx"
    } else if c0 == 'm' && c1 == 'k' {
        "Macedonian"
    } else if c0 == 'm' && c1 == 'g' {
        "Malagasy"
    } else if c0 == 'm' && c1 == 's' {
        "Malay"
    } else if c0 == 'm' && c1 == 'l' {
        "Malayalam"
    } else if c0 == 'm' && c1 == 't' {
        "Maltese"
    } else if c0 == 'm' && c1 == 'i' {
        "Maori"
    } else if c0 == 'm' && c1 == 'r' {
        "Marathi"
    } else if c0 == 'm' && c1 == 'h' {
        "Marshallese"
    } else if c0 == 'm' && c1 == 'n' {
        "Mongolian"
    } else if c0 == 'n' && c1 == 'a' {
        "Nauru"
    } else if c0 == 'n' && c1 == 'v' {
        "Navajo"
    } else if c0 == 'n' && c1 == 'd' {
        "North Ndebele"
    } else if c0 == 'n' && c1 == 'e' {
        "Nepali"
    } else if c0 == 'n' && c1 == 'g' {
        "Ndonga"
    } else if c0 == 'n' && c1 == 'b' {
        "Norwegian Bokm\u{00e5}l"
    } else if c0 == 'n' && c1 == 'n' {
        "Norwegian Nynorsk"
    } else if c0 == 'n' && c1 == 'o' {
        "Norwegian"
    } else if c0 == 'i' && c1 == 'i' {
        "Sichuan Yi"
    } else if c0 == 'n' && c1 == 'r' {
        "South Ndebele"
    } else if c0 == 'o' && c1 == 'c' {
        "Occitan"
    } else if c0 == 'o' && c1 == 'j' {
        "Ojibwa"
    } else if c0 == 'c' && c1 == 'u' {
        "Church Slavic"
    } else if c0 == 'o' && c1 == 'm' {
        "Oromo"
    } else if c0 == 'o' && c1 == 'r' {
        "Oriya"
    } else if c0 == 'o' && c1 == 's' {
        "Ossetian"
    } else if c0 == 'p' && c1 == 'a' {
        "Punjabi"
    } else if c0 == 'p' && c1 == 'i' {
        "Pali"
    } else if c0 == 'f' && c1 == 'a' {
        "Persian"
    } else if c0 == 'p' && c1 == 'l' {
        "Polish"
    } else if c0 == 'p' && c1 == 's' {
        "Pashto"
    } else if c0 == 'p' && c1 == 't' {
        "Portuguese"
    } else if c0 == 'q' && c1 == 'u' {
        "Quechua"
    } else if c0 == 'r' && c1 == 'm' {
        "Romansh"
    } else if c0 == 'r' && c1 == 'n' {
        "Rundi"
    } else if c0 == 'r' && c1 == 'o' {
        "Romanian"
    } else if c0 == 'r' && c1 == 'u' {
        "Russian"
    } else if c0 == 's' && c1 == 'a' {
        "Sanskrit"
    } else if c0 == 's' && c1 == 'c' {
        "Sardinian"
    } else if c0 == 's' && c1 == 'd' {
        "Sindhi"
    } else if c0 == 's' && c1 == 'e' {
        "Northern Sami"
    } else if c0 == 's' && c1 == 'm' {
        "Samoan"
    } else if c0 == 's' && c1 == 'g' {
        "Sango"
    } else if c0 == 's' && c1 == 'r' {
        "Serbian"
    } else if c0 == 'g' && c1 == 'd' {
        "Gaelic"
    } else if c0 == 's' && c1 == 'n' {
        "Shona"
    } else if c0 == 's' && c1 == 'i' {
        "Sinhala"
    } else if c0 == 's' && c1 == 'k' {
        "Slovak"
    } else if c0 == 's' && c1 == 'l' {
        "Slovenian"
    } else if c0 == 's' && c1 == 'o' {
        "Somali"
    } else if c0 == 's' && c1 == 't' {
        "Southern Sotho"
    } else if c0 == 'e' && c1 == 's' {
        "Spanish"
    } else if c0 == 's' && c1 == 'u' {
        "Sundanese"
    } else if c0 == 's' && c1 == 'w' {
        "Swahili"
    } else if c0 == 's' && c1 == 's' {
        "Swati"
    } else if c0 == 's' && c1 == 'v' {
        "Swedish"
    } else if c0 == 't' && c1 == 'a' {
        "Tamil"
    } else if c0 == 't' && c1 == 'e' {
        "Telugu"
    } else if c0 == 't' && c1 == 'g' {
        "Tajik"
    } else if c0 == 't' && c1 == 'h' {
        "Thai"
    } else if c0 == 't' && c1 == 'i' {
        "Tigrinya"
    } else if c0 == 'b' && c1 == 'o' {
        "Tibetan"
    } else if c0 == 't' && c1 == 'k' {
        "Turkmen"
    } else if c0 == 't' && c1 == 'l' {
        "Tagalog"
    } else if c0 == 't' && c1 == 'n' {
        "Tswana"
    } else if c0 == 't' && c1 == 'o' {
        "Tonga"
    } else if c0 == 't' && c1 == 'r' {
        "Turkish"
    } else if c0 == 't' && c1 == 's' {
        "Tsonga"
    } else if c0 == 't' && c1 == 't' {
        "Tatar"
    } else if c0 == 't' && c1 == 'w' {
        "Twi"
    } else if c0 == 't' && c1 == 'y' {
        "Tahitian"
    } else if c0 == 'u' && c1 == 'g' {
        "Uighur"
    } else if c0 == 'u' && c1 == 'k' {
        "Ukrainian"
    } else if c0 == 'u' && c1 == 'r' {
        "Urdu"
    } else if c0 == 'u' && c1 == 'z' {
        "Uzbek"
    } else if c0 == 'v' && c1 == 'e' {
        "Venda"
    } else if c0 == 'v' && c1 == 'i' {
        "Vietnamese"
    } else if c0 == 'v' && c1 == 'o' {
        "Volap\u{00fc}k"
    } else if c0 == 'w' && c1 == 'a' {
        "Walloon"
    } else if c0 == 'c' && c1 == 'y' {
        "Welsh"
    } else if c0 == 'w' && c1 == 'o' {
        "Wolof"
    } else if c0 == 'f' && c1 == 'y' {
        "Western Frisian"
    } else if c0 == 'x' && c1 == 'h' {
        "Xhosa"
    } else if c0 == 'y' && c1 == 'i' {
        "Yiddish"
    } else if c0 == 'y' && c1 == 'o' {
        "Yoruba"
    } else if c0 == 'z' && c1 == 'a' {
        "Zhuang"
    } else if c0 == 'z' && c1 == 'u' {
        "Zulu"
    } else {
        "English"
    }
}

} // verus!
