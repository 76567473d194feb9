//! The settings: the theme, the language, and the texts of every language.

use crate::language_type::LanguageType;
use crate::theme_type::ThemeType;
use vstd::prelude::*;
use vstd::string::*;

verus! {

/// A text of the user interface that differs from language to language.
#[derive(Debug, Clone, Copy, PartialEq, Eq, Structural)]
pub enum TextKey {
    Settings,
    CopyToClipboard,
    Main,
    Decimal,
    Hexadecimal,
    Octal,
    ChooseATheme,
    ChooseALanguage,
    Light,
    Dark,
    Custom,
}

impl TextKey {
    /// Every key, in the order in which the texts are looked up.
    pub const ALL: [TextKey; 11] = [
        TextKey::Settings,
        TextKey::CopyToClipboard,
        TextKey::Main,
        TextKey::Decimal,
        TextKey::Hexadecimal,
        TextKey::Octal,
        TextKey::ChooseATheme,
        TextKey::ChooseALanguage,
        TextKey::Light,
        TextKey::Dark,
        TextKey::Custom,
    ];

    /// The place of the key in the order of the look-ups.
    pub open spec fn position(self) -> int {
        match self {
            TextKey::Settings => 0,
            TextKey::CopyToClipboard => 1,
            TextKey::Main => 2,
            TextKey::Decimal => 3,
            TextKey::Hexadecimal => 4,
            TextKey::Octal => 5,
            TextKey::ChooseATheme => 6,
            TextKey::ChooseALanguage => 7,
            TextKey::Light => 8,
            TextKey::Dark => 9,
            TextKey::Custom => 10,
        }
    }

    /// The name under which the text is filed.
    pub open spec fn name_text(self) -> Seq<char> {
        match self {
            TextKey::Settings => "settings"@,
            TextKey::CopyToClipboard => "copy_to_clipboard"@,
            TextKey::Main => "main"@,
            TextKey::Decimal => "decimal"@,
            TextKey::Hexadecimal => "hexadecimal"@,
            TextKey::Octal => "octal"@,
            TextKey::ChooseATheme => "choose_a_theme"@,
            TextKey::ChooseALanguage => "choose_a_language"@,
            TextKey::Light => "light"@,
            TextKey::Dark => "dark"@,
            TextKey::Custom => "custom"@,
        }
    }

    /// The place of the key in the order of the look-ups.
    pub fn index(&self) -> (index: usize)
        ensures
            index == self.position(),
    {
        match self {
            TextKey::Settings => 0,
            TextKey::CopyToClipboard => 1,
            TextKey::Main => 2,
            TextKey::Decimal => 3,
            TextKey::Hexadecimal => 4,
            TextKey::Octal => 5,
            TextKey::ChooseATheme => 6,
            TextKey::ChooseALanguage => 7,
            TextKey::Light => 8,
            TextKey::Dark => 9,
            TextKey::Custom => 10,
        }
    }

    /// The name under which the text is filed.
    pub fn name(&self) -> (name: &'static str)
        ensures
            name@ == self.name_text(),
    {
        match self {
            TextKey::Settings => "settings",
            TextKey::CopyToClipboard => "copy_to_clipboard",
            TextKey::Main => "main",
            TextKey::Decimal => "decimal",
            TextKey::Hexadecimal => "hexadecimal",
            TextKey::Octal => "octal",
            TextKey::ChooseATheme => "choose_a_theme",
            TextKey::ChooseALanguage => "choose_a_language",
            TextKey::Light => "light",
            TextKey::Dark => "dark",
            TextKey::Custom => "custom",
        }
    }
}

/// A text that a language lacks.
#[derive(Debug, Clone, Copy, PartialEq, Eq, Structural)]
pub struct MissingText {
    /// The language that lacks the text.
    pub language: LanguageType,
    /// The text that it lacks.
    pub key: TextKey,
}

/// The texts of one language.
#[derive(Debug, Clone)]
pub struct DisplayTexts {
    /// The caption of the button that opens the settings page.
    pub setting_str: String,
    /// The placeholder of the lists that copy the value.
    pub copy_to_clipboard_str: String,
    /// The caption of the button that opens the main page.
    pub main_str: String,
    /// The heading of the decimal column.
    pub decimal_str: String,
    /// The heading of the hexadecimal column.
    pub hexadecimal_str: String,
    /// The heading of the octal column.
    pub octal_str: String,
    /// The heading of the list of themes.
    pub choose_a_theme_str: String,
    /// The heading of the list of languages.
    pub choose_a_language_str: String,
    /// The name of the light theme.
    pub light_str: String,
    /// The name of the dark theme.
    pub dark_str: String,
    /// The name of the custom theme.
    pub custom_str: String,
}

impl DisplayTexts {
    /// The text filed under `key`.
    pub open spec fn text_of(&self, key: TextKey) -> Seq<char> {
        match key {
            TextKey::Settings => self.setting_str@,
            TextKey::CopyToClipboard => self.copy_to_clipboard_str@,
            TextKey::Main => self.main_str@,
            TextKey::Decimal => self.decimal_str@,
            TextKey::Hexadecimal => self.hexadecimal_str@,
            TextKey::Octal => self.octal_str@,
            TextKey::ChooseATheme => self.choose_a_theme_str@,
            TextKey::ChooseALanguage => self.choose_a_language_str@,
            TextKey::Light => self.light_str@,
            TextKey::Dark => self.dark_str@,
            TextKey::Custom => self.custom_str@,
        }
    }

    /// The texts are those that the look-ups in `found` gave, key by key.
    pub open spec fn holds(&self, found: Seq<Option<String>>) -> bool {
        forall|key: TextKey| #[trigger] self.text_of(key) == found[key.position()]->0@
    }

    /// The text filed under `key`.
    pub fn get(&self, key: TextKey) -> (text: &str)
        ensures
            text@ == self.text_of(key),
    {
        match key {
            TextKey::Settings => self.setting_str.as_str(),
            TextKey::CopyToClipboard => self.copy_to_clipboard_str.as_str(),
            TextKey::Main => self.main_str.as_str(),
            TextKey::Decimal => self.decimal_str.as_str(),
            TextKey::Hexadecimal => self.hexadecimal_str.as_str(),
            TextKey::Octal => self.octal_str.as_str(),
            TextKey::ChooseATheme => self.choose_a_theme_str.as_str(),
            TextKey::ChooseALanguage => self.choose_a_language_str.as_str(),
            TextKey::Light => self.light_str.as_str(),
            TextKey::Dark => self.dark_str.as_str(),
            TextKey::Custom => self.custom_str.as_str(),
        }
    }
}

/// Whether the look-ups in `found` gave a text for `key`. A list too short
/// to reach the key's place gave none.
pub open spec fn is_found(found: Seq<Option<String>>, key: TextKey) -> bool {
    key.position() < found.len() && found[key.position()] is Some
}

/// The first key, in the order of the look-ups, for which `found` has no
/// text; `None` where every key has one.
pub open spec fn first_missing(found: Seq<Option<String>>) -> Option<TextKey> {
    if !is_found(found, TextKey::Settings) {
        Some(TextKey::Settings)
    } else if !is_found(found, TextKey::CopyToClipboard) {
        Some(TextKey::CopyToClipboard)
    } else if !is_found(found, TextKey::Main) {
        Some(TextKey::Main)
    } else if !is_found(found, TextKey::Decimal) {
        Some(TextKey::Decimal)
    } else if !is_found(found, TextKey::Hexadecimal) {
        Some(TextKey::Hexadecimal)
    } else if !is_found(found, TextKey::Octal) {
        Some(TextKey::Octal)
    } else if !is_found(found, TextKey::ChooseATheme) {
        Some(TextKey::ChooseATheme)
    } else if !is_found(found, TextKey::ChooseALanguage) {
        Some(TextKey::ChooseALanguage)
    } else if !is_found(found, TextKey::Light) {
        Some(TextKey::Light)
    } else if !is_found(found, TextKey::Dark) {
        Some(TextKey::Dark)
    } else if !is_found(found, TextKey::Custom) {
        Some(TextKey::Custom)
    } else {
        None
    }
}

/// A copy of the text that the look-ups gave for `key`.
fn find_text(found: &Vec<Option<String>>, key: TextKey) -> (text: Option<String>)
    ensures
        text is Some == is_found(found@, key),
        text matches Some(copy) ==> copy@ == found@[key.position()]->0@,
{
    let index = key.index();
    if index < found.len() {
        match &found[index] {
            Some(text) => Some(text.clone()),
            None => None,
        }
    } else {
        None
    }
}

/// A choice on the settings page.
#[derive(Debug, Clone, PartialEq, Eq, Structural)]
pub enum SettingsMessage {
    ThemeChanged(ThemeType),
    Language(LanguageType),
}

/// The settings: the chosen theme, the chosen language, and the texts of
/// every language, complete.
#[derive(Debug, Clone)]
pub struct BinaryCalulatorSettings {
    /// The chosen theme.
    pub theme: ThemeType,
    /// The chosen language.
    pub language: LanguageType,
    /// The English texts.
    pub english: DisplayTexts,
    /// The German texts.
    pub deutsch: DisplayTexts,
}

/// One theme as it is offered on the settings page.
#[derive(Debug, Clone)]
pub struct ThemeChoice {
    /// The name of the theme in the chosen language.
    pub label: String,
    /// The theme.
    pub theme: ThemeType,
}

/// One language as it is offered on the settings page.
#[derive(Debug, Clone)]
pub struct LanguageChoice {
    /// The name of the language.
    pub label: String,
    /// The language.
    pub language: LanguageType,
}

/// What the settings page shows.
#[derive(Debug, Clone)]
pub struct SettingsView {
    /// The heading of the list of themes.
    pub theme_heading: String,
    /// The themes on offer.
    pub themes: Vec<ThemeChoice>,
    /// The theme that is marked as chosen.
    pub selected_theme: ThemeType,
    /// The heading of the list of languages.
    pub language_heading: String,
    /// The languages on offer.
    pub languages: Vec<LanguageChoice>,
    /// The language that is marked as chosen.
    pub selected_language: LanguageType,
}

impl BinaryCalulatorSettings {
    /// The texts of `language`.
    pub open spec fn texts_of(&self, language: LanguageType) -> DisplayTexts {
        match language {
            LanguageType::English => self.english,
            LanguageType::Deutsch => self.deutsch,
        }
    }

    /// The name of `theme` in the chosen language.
    pub open spec fn theme_label(&self, theme: ThemeType) -> Seq<char> {
        match theme {
            ThemeType::Light => self.texts_of(self.language).light_str@,
            ThemeType::Dark => self.texts_of(self.language).dark_str@,
            ThemeType::Custom => self.texts_of(self.language).custom_str@,
        }
    }

    /// `view` is the settings page of these settings: each list under its
    /// heading, every theme and every language on offer in its order and
    /// under its name, and the chosen ones marked.
    pub open spec fn shown_by(&self, view: SettingsView) -> bool {
        &&& view.theme_heading@ == self.texts_of(self.language).choose_a_theme_str@
        &&& view.themes@.len() == 3
        &&& view.themes@[0].theme == ThemeType::Light
        &&& view.themes@[1].theme == ThemeType::Dark
        &&& view.themes@[2].theme == ThemeType::Custom
        &&& forall|i: int|
            0 <= i < 3 ==> (#[trigger] view.themes@[i]).label@ == self.theme_label(
                view.themes@[i].theme,
            )
        &&& view.selected_theme == self.theme
        &&& view.language_heading@ == self.texts_of(self.language).choose_a_language_str@
        &&& view.languages@.len() == 2
        &&& view.languages@[0].language == LanguageType::English
        &&& view.languages@[1].language == LanguageType::Deutsch
        &&& forall|i: int|
            0 <= i < 2 ==> (#[trigger] view.languages@[i]).label@
                == view.languages@[i].language.name_text()
        &&& view.selected_language == self.language
    }

    /// Takes the texts of one language from the look-ups of every key, in
    /// the order of `TextKey::ALL`. Fails on the first key without a text.
    pub fn read_language(language: LanguageType, found: &Vec<Option<String>>) -> (texts: Result<
        DisplayTexts,
        MissingText,
    >)
        ensures
            (match first_missing(found@) {
                Some(key) => texts == Err::<DisplayTexts, MissingText>(
                    MissingText { language, key },
                ),
                None => texts is Ok && texts->Ok_0.holds(found@),
            }),
    {
        let setting_str = match find_text(found, TextKey::Settings) {
            Some(text) => text,
            None => {
                return Err(MissingText { language, key: TextKey::Settings });
            },
        };
        let copy_to_clipboard_str = match find_text(found, TextKey::CopyToClipboard) {
            Some(text) => text,
            None => {
                return Err(MissingText { language, key: TextKey::CopyToClipboard });
            },
        };
        let main_str = match find_text(found, TextKey::Main) {
            Some(text) => text,
            None => {
                return Err(MissingText { language, key: TextKey::Main });
            },
        };
        let decimal_str = match find_text(found, TextKey::Decimal) {
            Some(text) => text,
            None => {
                return Err(MissingText { language, key: TextKey::Decimal });
            },
        };
        let hexadecimal_str = match find_text(found, TextKey::Hexadecimal) {
            Some(text) => text,
            None => {
                return Err(MissingText { language, key: TextKey::Hexadecimal });
            },
        };
        let octal_str = match find_text(found, TextKey::Octal) {
            Some(text) => text,
            None => {
                return Err(MissingText { language, key: TextKey::Octal });
            },
        };
        let choose_a_theme_str = match find_text(found, TextKey::ChooseATheme) {
            Some(text) => text,
            None => {
                return Err(MissingText { language, key: TextKey::ChooseATheme });
            },
        };
        let choose_a_language_str = match find_text(found, TextKey::ChooseALanguage) {
            Some(text) => text,
            None => {
                return Err(MissingText { language, key: TextKey::ChooseALanguage });
            },
        };
        let light_str = match find_text(found, TextKey::Light) {
            Some(text) => text,
            None => {
                return Err(MissingText { language, key: TextKey::Light });
            },
        };
        let dark_str = match find_text(found, TextKey::Dark) {
            Some(text) => text,
            None => {
                return Err(MissingText { language, key: TextKey::Dark });
            },
        };
        let custom_str = match find_text(found, TextKey::Custom) {
            Some(text) => text,
            None => {
                return Err(MissingText { language, key: TextKey::Custom });
            },
        };
        Ok(DisplayTexts { setting_str, copy_to_clipboard_str, main_str, decimal_str, hexadecimal_str, octal_str, choose_a_theme_str, choose_a_language_str, light_str, dark_str, custom_str })
    }

    /// The settings at the start: the dark theme and English. The texts of
    /// every language are taken here, so that a missing one shows before
    /// anything is drawn. English is looked at first.
    pub fn new(english: &Vec<Option<String>>, deutsch: &Vec<Option<String>>) -> (settings: Result<
        Self,
        MissingText,
    >)
        ensures
            (match (first_missing(english@), first_missing(deutsch@)) {
                (Some(key), _) => settings == Err::<Self, MissingText>(
                    MissingText { language: LanguageType::English, key },
                ),
                (None, Some(key)) => settings == Err::<Self, MissingText>(
                    MissingText { language: LanguageType::Deutsch, key },
                ),
                (None, None) => {
                    &&& settings matches Ok(made)
                    &&& made.theme == ThemeType::Dark
                    &&& made.language == LanguageType::English
                    &&& made.english.holds(english@)
                    &&& made.deutsch.holds(deutsch@)
                },
            }),
    {
        let english = match Self::read_language(LanguageType::English, english) {
            Ok(texts) => texts,
            Err(missing) => {
                return Err(missing);
            },
        };
        let deutsch = match Self::read_language(LanguageType::Deutsch, deutsch) {
            Ok(texts) => texts,
            Err(missing) => {
                return Err(missing);
            },
        };
        Ok(
            BinaryCalulatorSettings {
                theme: ThemeType::Dark,
                language: LanguageType::English,
                english,
                deutsch,
            },
        )
    }

    /// Takes a choice made on the settings page.
    pub fn update(&mut self, msg: SettingsMessage)
        ensures
            *final(self) == (match msg {
                SettingsMessage::ThemeChanged(theme) => (BinaryCalulatorSettings {
                    theme,
                    ..*old(self)
                }),
                SettingsMessage::Language(language) => (BinaryCalulatorSettings {
                    language,
                    ..*old(self)
                }),
            }),
    {
        match msg {
            SettingsMessage::ThemeChanged(theme) => {
                self.theme = theme;
            },
            SettingsMessage::Language(language) => {
                self.language = language;
            },
        }
    }

    /// What the settings page shows.
    pub fn view(&self) -> (view: SettingsView)
        ensures
            self.shown_by(view),
    {
        let texts = self.texts();
        let themes = vec![
            ThemeChoice { label: texts.light_str.clone(), theme: ThemeType::Light },
            ThemeChoice { label: texts.dark_str.clone(), theme: ThemeType::Dark },
            ThemeChoice { label: texts.custom_str.clone(), theme: ThemeType::Custom },
        ];
        let languages = vec![
            LanguageChoice {
                label: String::from_str(LanguageType::English.name()),
                language: LanguageType::English,
            },
            LanguageChoice {
                label: String::from_str(LanguageType::Deutsch.name()),
                language: LanguageType::Deutsch,
            },
        ];
        SettingsView {
            theme_heading: texts.choose_a_theme_str.clone(),
            themes,
            selected_theme: self.theme,
            language_heading: texts.choose_a_language_str.clone(),
            languages,
            selected_language: self.language,
        }
    }

    /// The texts of the chosen language.
    pub fn texts(&self) -> (texts: &DisplayTexts)
        ensures
            *texts == self.texts_of(self.language),
    {
        match self.language {
            LanguageType::English => &self.english,
            LanguageType::Deutsch => &self.deutsch,
        }
    }

    /// The chosen theme.
    pub fn theme(&self) -> (theme: ThemeType)
        ensures
            theme == self.theme,
    {
        self.theme
    }

    /// The caption of the button that opens the settings page.
    pub fn setting_str(&self) -> (text: &str)
        ensures
            text@ == self.texts_of(self.language).setting_str@,
    {
        self.texts().setting_str.as_str()
    }

    /// The placeholder of the lists that copy the value.
    pub fn copy_to_clipboard_str(&self) -> (text: &str)
        ensures
            text@ == self.texts_of(self.language).copy_to_clipboard_str@,
    {
        self.texts().copy_to_clipboard_str.as_str()
    }

    /// The caption of the button that opens the main page.
    pub fn main_str(&self) -> (text: &str)
        ensures
            text@ == self.texts_of(self.language).main_str@,
    {
        self.texts().main_str.as_str()
    }

    /// The heading of the decimal column.
    pub fn decimal_str(&self) -> (text: &str)
        ensures
            text@ == self.texts_of(self.language).decimal_str@,
    {
        self.texts().decimal_str.as_str()
    }

    /// The heading of the hexadecimal column.
    pub fn hexadecimal_str(&self) -> (text: &str)
        ensures
            text@ == self.texts_of(self.language).hexadecimal_str@,
    {
        self.texts().hexadecimal_str.as_str()
    }

    /// The heading of the octal column.
    pub fn octal_str(&self) -> (text: &str)
        ensures
            text@ == self.texts_of(self.language).octal_str@,
    {
        self.texts().octal_str.as_str()
    }
}

} // verus!
