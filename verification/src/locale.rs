//! The one-line description of the program in the operator's language.

use vstd::prelude::*;

verus! {

/// Whether a character ends the language part of a locale name such as
/// `de_DE.UTF-8`.
pub open spec fn is_separator(c: char) -> bool {
    c == '.' || c == '_'
}

/// The length of the language part of a locale name: the number of characters
/// before the first `.` or `_`, or all of them where there is neither.
pub open spec fn language_len(locale: Seq<char>) -> nat
    decreases locale.len(),
{
    if locale.len() == 0 || is_separator(locale[0]) {
        0
    } else {
        1 + language_len(locale.drop_first())
    }
}

/// The language part of a locale name.
pub open spec fn language_of(locale: Seq<char>) -> Seq<char> {
    locale.take(language_len(locale) as int)
}

/// The description for a locale name. Spanish, Chinese, Portuguese and German
/// have their own; every other language, and an empty name, get the English one.
pub open spec fn description_text(locale: Seq<char>) -> Seq<char> {
    let language = language_of(locale);
    if language == "es"@ {
        "Monitorea y controla temperatura CPU"@
    } else if language == "zh"@ {
        "监控和控制CPU温度"@
    } else if language == "pt"@ {
        "Monitore e controle temperatura CPU"@
    } else if language == "de"@ {
        "CPU-Temperatur überwachen und steuern"@
    } else {
        "Monitor and control CPU temperature"@
    }
}

/// The locale name that decides the language: the first of the three settings
/// that is set, in the order given, and the empty name where none is.
pub open spec fn chosen_locale(
    lang: Option<Seq<char>>,
    lc_all: Option<Seq<char>>,
    lc_messages: Option<Seq<char>>,
) -> Seq<char> {
    match (lang, lc_all, lc_messages) {
        (Some(name), _, _) => name,
        (None, Some(name), _) => name,
        (None, None, Some(name)) => name,
        (None, None, None) => Seq::empty(),
    }
}

/// The view of a setting that may be unset.
pub open spec fn setting_view(setting: Option<String>) -> Option<Seq<char>> {
    match setting {
        Some(name) => Some(name@),
        None => None,
    }
}

/// Picks the locale name that decides the language from the settings `LANG`,
/// `LC_ALL` and `LC_MESSAGES`, each handed in as read, `None` where unset.
pub fn select_locale(lang: Option<String>, lc_all: Option<String>, lc_messages: Option<String>) -> (name:
    String)
    ensures
        name@ == chosen_locale(
            setting_view(lang),
            setting_view(lc_all),
            setting_view(lc_messages),
        ),
{
    match lang {
        Some(name) => name,
        None => match lc_all {
            Some(name) => name,
            None => match lc_messages {
                Some(name) => name,
                None => String::new(),
            },
        },
    }
}

/// The description of the program in the language of a locale name.
pub fn localized_description(locale: &str) -> (text: &'static str)
    ensures
        text@ == description_text(locale@),
{
    let n: usize = locale.unicode_len();
    proof {
        reveal_strlit("es");
        reveal_strlit("zh");
        reveal_strlit("pt");
        reveal_strlit("de");
        lemma_two_letter_language(locale@, "es"@);
        lemma_two_letter_language(locale@, "zh"@);
        lemma_two_letter_language(locale@, "pt"@);
        lemma_two_letter_language(locale@, "de"@);
    }
    if n < 2 {
        return "Monitor and control CPU temperature";
    }
    let first = locale.get_char(0);
    let second = locale.get_char(1);
    if n > 2 {
        let third = locale.get_char(2);
        if third != '.' && third != '_' {
            return "Monitor and control CPU temperature";
        }
    }
    if first == 'e' && second == 's' {
        "Monitorea y controla temperatura CPU"
    } else if first == 'z' && second == 'h' {
        "监控和控制CPU温度"
    } else if first == 'p' && second == 't' {
        "Monitore e controle temperatura CPU"
    } else if first == 'd' && second == 'e' {
        "CPU-Temperatur überwachen und steuern"
    } else {
        "Monitor and control CPU temperature"
    }
}

/// The language part holds no separator, and it ends at a separator or at the
/// end of the name: it is the longest beginning of the name without one.
pub proof fn lemma_language_is_longest_plain_prefix(locale: Seq<char>)
    ensures
        language_len(locale) <= locale.len(),
        forall|i: int| 0 <= i < language_len(locale) ==> !is_separator(#[trigger] locale[i]),
        language_len(locale) < locale.len() ==> is_separator(locale[language_len(locale) as int]),
    decreases locale.len(),
{
    if locale.len() > 0 && !is_separator(locale[0]) {
        let rest = locale.drop_first();
        lemma_language_is_longest_plain_prefix(rest);
        assert forall|i: int| 0 <= i < language_len(locale) implies !is_separator(
            #[trigger] locale[i],
        ) by {
            if i > 0 {
                assert(locale[i] == rest[i - 1]);
            }
        }
        if language_len(locale) < locale.len() {
            assert(locale[language_len(locale) as int] == rest[language_len(rest) as int]);
        }
    }
}

/// The language part is a given code of two letters exactly where the name
/// begins with those letters and then ends or goes on with a separator.
proof fn lemma_two_letter_language(locale: Seq<char>, code: Seq<char>)
    requires
        code.len() == 2,
        !is_separator(code[0]),
        !is_separator(code[1]),
    ensures
        language_of(locale) == code <==> {
            &&& locale.len() >= 2
            &&& locale[0] == code[0]
            &&& locale[1] == code[1]
            &&& (locale.len() == 2 || is_separator(locale[2]))
        },
{
    lemma_language_is_longest_plain_prefix(locale);
    let language = language_of(locale);
    assert(language.len() == language_len(locale));
    if locale.len() >= 2 && !is_separator(locale[0]) && !is_separator(locale[1]) {
        let rest = locale.drop_first();
        let tail = rest.drop_first();
        assert(rest[0] == locale[1]);
        assert(language_len(locale) == 1 + language_len(rest));
        assert(language_len(rest) == 1 + language_len(tail));
        if locale.len() > 2 {
            assert(tail[0] == locale[2]);
        }
    }
    if language == code {
        assert(language[0] == locale[0]);
        assert(language[1] == locale[1]);
    }
    if locale.len() >= 2 && locale[0] == code[0] && locale[1] == code[1] && (locale.len() == 2
        || is_separator(locale[2])) {
        assert(language =~= code);
    }
}

} // verus!
