use binary_calculator::calculator::{
    BinaryCalculator, PageView, Pages, WINDOW_HEIGHT, WINDOW_WIDTH,
};
use binary_calculator::dec_formats::DecFormats;
use binary_calculator::hex_formats::HexFormats;
use binary_calculator::language_type::LanguageType;
use binary_calculator::messages::Message;
use binary_calculator::settings::{
    BinaryCalulatorSettings, MissingText, SettingsMessage, TextKey,
};
use binary_calculator::theme_type::ThemeType;

fn lookups(prefix: &str) -> Vec<Option<String>> {
    TextKey::ALL.iter().map(|key| Some(format!("{}:{}", prefix, key.name()))).collect()
}

fn settings() -> BinaryCalulatorSettings {
    BinaryCalulatorSettings::new(&lookups("en"), &lookups("de")).unwrap()
}

fn calculator(value: u32) -> BinaryCalculator {
    let mut calculator = BinaryCalculator::new(settings());
    calculator.value = value;
    calculator
}

#[test]
fn text_keys_names_and_order() {
    let names: Vec<&str> = TextKey::ALL.iter().map(|key| key.name()).collect();
    assert_eq!(
        names,
        vec![
            "settings",
            "copy_to_clipboard",
            "main",
            "decimal",
            "hexadecimal",
            "octal",
            "choose_a_theme",
            "choose_a_language",
            "light",
            "dark",
            "custom"
        ]
    );
    for (place, key) in TextKey::ALL.iter().enumerate() {
        assert_eq!(key.index(), place);
    }
}

#[test]
fn languages_and_themes() {
    assert_eq!(LanguageType::ALL, [LanguageType::English, LanguageType::Deutsch]);
    assert_eq!(ThemeType::ALL, [ThemeType::Light, ThemeType::Dark, ThemeType::Custom]);
    assert_eq!(LanguageType::English.tag(), "en");
    assert_eq!(LanguageType::Deutsch.tag(), "de");
    assert_eq!(LanguageType::English.name(), format!("{:?}", LanguageType::English));
    assert_eq!(LanguageType::Deutsch.name(), format!("{:?}", LanguageType::Deutsch));
}

#[test]
fn settings_start_dark_and_english() {
    let settings = settings();
    assert_eq!(settings.theme(), ThemeType::Dark);
    assert_eq!(settings.language, LanguageType::English);
    assert_eq!(settings.setting_str(), "en:settings");
    assert_eq!(settings.copy_to_clipboard_str(), "en:copy_to_clipboard");
    assert_eq!(settings.main_str(), "en:main");
    assert_eq!(settings.decimal_str(), "en:decimal");
    assert_eq!(settings.hexadecimal_str(), "en:hexadecimal");
    assert_eq!(settings.octal_str(), "en:octal");
    for key in TextKey::ALL {
        assert_eq!(settings.english.get(key), format!("en:{}", key.name()));
        assert_eq!(settings.deutsch.get(key), format!("de:{}", key.name()));
        assert_eq!(settings.texts().get(key), format!("en:{}", key.name()));
    }
}

#[test]
fn missing_text_is_reported_with_language_and_key() {
    let mut english = lookups("en");
    english[4] = None;
    english[9] = None;
    assert_eq!(
        BinaryCalulatorSettings::new(&english, &lookups("de")).err(),
        Some(MissingText { language: LanguageType::English, key: TextKey::Hexadecimal })
    );
    let mut german = lookups("de");
    german[10] = None;
    assert_eq!(
        BinaryCalulatorSettings::new(&lookups("en"), &german).err(),
        Some(MissingText { language: LanguageType::Deutsch, key: TextKey::Custom })
    );
    assert_eq!(
        BinaryCalulatorSettings::new(&english, &german).err(),
        Some(MissingText { language: LanguageType::English, key: TextKey::Hexadecimal })
    );
    let short: Vec<Option<String>> = lookups("de").into_iter().take(3).collect();
    assert_eq!(
        BinaryCalulatorSettings::read_language(LanguageType::Deutsch, &short).err(),
        Some(MissingText { language: LanguageType::Deutsch, key: TextKey::Decimal })
    );
    assert_eq!(
        BinaryCalulatorSettings::read_language(LanguageType::Deutsch, &vec![]).err(),
        Some(MissingText { language: LanguageType::Deutsch, key: TextKey::Settings })
    );
    let texts = BinaryCalulatorSettings::read_language(LanguageType::Deutsch, &lookups("x"))
        .unwrap();
    assert_eq!(texts.octal_str, "x:octal");
    assert_eq!(texts.choose_a_language_str, "x:choose_a_language");
}

#[test]
fn settings_update_switches_theme_and_language() {
    let mut settings = settings();
    settings.update(SettingsMessage::ThemeChanged(ThemeType::Custom));
    assert_eq!(settings.theme(), ThemeType::Custom);
    assert_eq!(settings.language, LanguageType::English);
    settings.update(SettingsMessage::Language(LanguageType::Deutsch));
    assert_eq!(settings.language, LanguageType::Deutsch);
    assert_eq!(settings.theme(), ThemeType::Custom);
    assert_eq!(settings.main_str(), "de:main");
    assert_eq!(settings.octal_str(), "de:octal");
    settings.update(SettingsMessage::Language(LanguageType::English));
    assert_eq!(settings.main_str(), "en:main");
}

#[test]
fn settings_view_lists_choices() {
    let mut settings = settings();
    settings.update(SettingsMessage::Language(LanguageType::Deutsch));
    settings.update(SettingsMessage::ThemeChanged(ThemeType::Light));
    let view = settings.view();
    assert_eq!(view.theme_heading, "de:choose_a_theme");
    assert_eq!(view.language_heading, "de:choose_a_language");
    assert_eq!(view.selected_theme, ThemeType::Light);
    assert_eq!(view.selected_language, LanguageType::Deutsch);
    let themes: Vec<(String, ThemeType)> =
        view.themes.iter().map(|choice| (choice.label.clone(), choice.theme)).collect();
    assert_eq!(
        themes,
        vec![
            ("de:light".to_string(), ThemeType::Light),
            ("de:dark".to_string(), ThemeType::Dark),
            ("de:custom".to_string(), ThemeType::Custom),
        ]
    );
    let languages: Vec<(String, LanguageType)> =
        view.languages.iter().map(|choice| (choice.label.clone(), choice.language)).collect();
    assert_eq!(
        languages,
        vec![
            ("English".to_string(), LanguageType::English),
            ("Deutsch".to_string(), LanguageType::Deutsch),
        ]
    );
}

#[test]
fn calculator_starts_at_zero_on_main_page() {
    let calculator = BinaryCalculator::new(settings());
    assert_eq!(calculator.value, 0);
    assert!(!calculator.signed);
    assert_eq!(calculator.page, Pages::Main);
    assert_eq!(Pages::default(), Pages::Main);
    assert_eq!(calculator.title(), "Binary Calculator");
    assert_eq!(calculator.theme(), ThemeType::Dark);
    assert_eq!((WINDOW_WIDTH, WINDOW_HEIGHT), (885, 450));
}

#[test]
fn update_shifts_and_inverts() {
    let mut calculator = calculator(0x8000_0000);
    assert_eq!(calculator.update(Message::ShiftLeft), None);
    assert_eq!(calculator.value, 0);
    calculator.value = 1;
    assert_eq!(calculator.update(Message::ShiftRight), None);
    assert_eq!(calculator.value, 0);
    assert_eq!(calculator.update(Message::Not), None);
    assert_eq!(calculator.value, 0xFFFF_FFFF);
    calculator.update(Message::ShiftLeft);
    assert_eq!(calculator.value, 0xFFFF_FFFE);
    calculator.update(Message::ShiftRight);
    assert_eq!(calculator.value, 0x7FFF_FFFF);
}

#[test]
fn update_takes_text_input() {
    let mut calculator = calculator(9);
    calculator.update(Message::DecInputChanged("1.234".to_string()));
    assert_eq!(calculator.value, 1234);
    calculator.update(Message::DecInputChanged("12x".to_string()));
    assert_eq!(calculator.value, 1234);
    calculator.update(Message::HexInputChanged("00ff 0001".to_string()));
    assert_eq!(calculator.value, 0x00FF_0001);
    calculator.update(Message::HexInputChanged("zz".to_string()));
    assert_eq!(calculator.value, 0x00FF_0001);
    calculator.update(Message::HexInputChanged(String::new()));
    assert_eq!(calculator.value, 0);
    calculator.value = 5;
    calculator.update(Message::DecInputChanged(String::new()));
    assert_eq!(calculator.value, 0);
    calculator.update(Message::InputU32Changed(42));
    assert_eq!(calculator.value, 42);
}

#[test]
fn update_copies_in_every_layout() {
    let mut calculator = calculator(0x0011_EEFF);
    assert_eq!(
        calculator.update(Message::HexCopy(HexFormats::MotorolaArray)),
        Some("[0x00, 0x11, 0xee, 0xff]".to_string())
    );
    assert_eq!(
        calculator.update(Message::HexCopy(HexFormats::Intel4BlocksWithX)),
        Some("0xff 0xee 0x11 0x00".to_string())
    );
    assert_eq!(calculator.copy_hex_to_clipboard(HexFormats::MotorolaSmall1Block), "0011eeff");
    assert_eq!(
        calculator.update(Message::DecCopy(DecFormats::Plain)),
        Some("1175295".to_string())
    );
    assert_eq!(
        calculator.update(Message::DecCopy(DecFormats::PointSeperator)),
        Some("1.175.295".to_string())
    );
    assert_eq!(
        calculator.update(Message::DecCopy(DecFormats::CommaSeperator)),
        Some("1,175,295".to_string())
    );
    assert_eq!(calculator.value, 0x0011_EEFF);
}

#[test]
fn update_switches_pages_sign_and_settings() {
    let mut calculator = calculator(3);
    assert_eq!(calculator.update(Message::Settings), None);
    assert_eq!(calculator.page, Pages::Settings);
    assert_eq!(calculator.update(Message::Main), None);
    assert_eq!(calculator.page, Pages::Main);
    assert_eq!(calculator.update(Message::SignToggled(true)), None);
    assert!(calculator.signed);
    calculator.update(Message::SignToggled(false));
    assert!(!calculator.signed);
    calculator.update(Message::SettingsMessage(SettingsMessage::ThemeChanged(ThemeType::Light)));
    assert_eq!(calculator.theme(), ThemeType::Light);
    calculator.update(Message::SettingsMessage(SettingsMessage::Language(LanguageType::Deutsch)));
    assert_eq!(calculator.settings.language, LanguageType::Deutsch);
    assert_eq!(calculator.value, 3);
}

#[test]
fn view_shows_every_representation() {
    let mut calculator = calculator(0xFFFF_FFFF);
    let view = calculator.view();
    assert_eq!(view.main_button, "en:main");
    assert_eq!(view.settings_button, "en:settings");
    match view.page {
        PageView::Main(main) => {
            assert_eq!(main.value, 0xFFFF_FFFF);
            assert_eq!(main.hexadecimal, "ffff ffff");
            assert_eq!(main.decimal, "4.294.967.295");
            assert_eq!(main.octal, "37 777 777 777");
            assert!(!main.signed);
            assert_eq!(main.sign_label, "unsigned");
            assert_eq!(main.hexadecimal_heading, "en:hexadecimal");
            assert_eq!(main.decimal_heading, "en:decimal");
            assert_eq!(main.octal_heading, "en:octal");
            assert_eq!(main.copy_placeholder, "en:copy_to_clipboard");
        }
        PageView::Settings(_) => panic!("the main page was expected"),
    }
    calculator.update(Message::SignToggled(true));
    match calculator.view().page {
        PageView::Main(main) => {
            assert_eq!(main.decimal, "-1");
            assert!(main.signed);
            assert_eq!(main.sign_label, "signed");
        }
        PageView::Settings(_) => panic!("the main page was expected"),
    }
    calculator.update(Message::Settings);
    match calculator.view().page {
        PageView::Settings(page) => {
            assert_eq!(page.selected_theme, ThemeType::Dark);
            assert_eq!(page.themes.len(), 3);
        }
        PageView::Main(_) => panic!("the settings page was expected"),
    }
}

#[test]
fn view_of_zero() {
    match calculator(0).view().page {
        PageView::Main(main) => {
            assert_eq!(main.hexadecimal, "0000 0000");
            assert_eq!(main.decimal, "0");
            assert_eq!(main.octal, "00 000 000 000");
        }
        PageView::Settings(_) => panic!("the main page was expected"),
    }
}
