use desktop_shell::locale::{get_sys_locale, resolve_locale};

#[test]
fn no_report_resolves_to_the_fallback() {
    assert_eq!(resolve_locale(None), "en-US");
}

#[test]
fn a_report_is_passed_on_unchanged() {
    assert_eq!(resolve_locale(Some(String::from("fr-FR"))), "fr-FR");
    assert_eq!(resolve_locale(Some(String::from("zh-Hant-TW"))), "zh-Hant-TW");
}

#[test]
fn a_reported_fallback_tag_stays_itself() {
    assert_eq!(resolve_locale(Some(String::from("en-US"))), "en-US");
}

#[test]
fn an_empty_report_is_not_replaced() {
    assert_eq!(resolve_locale(Some(String::new())), "");
}

#[test]
fn an_odd_report_is_not_normalised() {
    assert_eq!(resolve_locale(Some(String::from("de_DE.UTF-8"))), "de_DE.UTF-8");
    assert_eq!(resolve_locale(Some(String::from("日本語"))), "日本語");
}

#[test]
fn the_system_locale_is_the_platform_report_resolved() {
    let expected = sys_locale::get_locale().unwrap_or_else(|| String::from("en-US"));
    assert_eq!(get_sys_locale(), expected);
}
