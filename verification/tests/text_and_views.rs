use lexito::desktop::{
    language_count_label, plural_form_label, progress_tone, project_summary, request_for_entry, resolve_theme,
    spinner_frame, status_label, truncate, EntryFilter, ProgressTone, ThemeChoice,
};
use lexito::locales::{all_locales, find_locale};
use lexito::model::{CatalogStats, EntryStatus};
use lexito::project::{chrono_now, format_timestamp, list_projects, projects_root};
use lexito::settings::ThemePreference;
use lexito::text::{decimal_string, is_blank, parse_unsigned, trim_str};

fn stats(total: usize) -> CatalogStats {
    CatalogStats { total, translated: 0, untranslated: total, fuzzy: 0, obsolete: 0, warnings: 0 }
}

#[test]
fn unsigned_parsing_follows_from_str() {
    assert_eq!(parse_unsigned("42", u64::MAX), Some(42));
    assert_eq!(parse_unsigned("+7", u64::MAX), Some(7));
    assert_eq!(parse_unsigned("", u64::MAX), None);
    assert_eq!(parse_unsigned("+", u64::MAX), None);
    assert_eq!(parse_unsigned("-1", u64::MAX), None);
    assert_eq!(parse_unsigned("1 2", u64::MAX), None);
    assert_eq!(parse_unsigned("18446744073709551615", u64::MAX), Some(u64::MAX));
    assert_eq!(parse_unsigned("18446744073709551616", u64::MAX), None);
    assert_eq!(parse_unsigned("300", 255), None);
    assert_eq!(parse_unsigned("255", 255), Some(255));
}

#[test]
fn a_written_count_reads_back() {
    for n in [0u64, 9, 10, 12345, u64::MAX] {
        assert_eq!(parse_unsigned(&decimal_string(n), u64::MAX), Some(n));
    }
}

#[test]
fn trimming_and_blanks() {
    assert_eq!(trim_str("\t a b \n"), "a b");
    assert!(is_blank(" \u{3000}\n"));
    assert!(!is_blank(" x "));
}

#[test]
fn truncation_marks_cut_text() {
    assert_eq!(truncate("short", 36), "short");
    assert_eq!(truncate("abcdef", 3), "abc...");
    assert_eq!(truncate("ééé", 2), "éé...");
}

#[test]
fn labels() {
    assert_eq!(status_label(EntryStatus::Fuzzy), "Fuzzy");
    assert_eq!(EntryFilter::Warnings.label(), "Warnings");
    assert_eq!(plural_form_label(0), "Plural form 0 (e.g. n = 0 or n >= 2)");
    assert_eq!(plural_form_label(1), "Plural form 1 (e.g. n = 2\u{2013}4)");
    assert_eq!(plural_form_label(5), "Plural form 5");
    assert_eq!(language_count_label(0), "No languages");
    assert_eq!(language_count_label(1), "1 language");
    assert_eq!(language_count_label(12), "12 languages");
    assert_eq!(project_summary(1, &vec![]), ("1 language".to_string(), "0 entries".to_string()));
    assert_eq!(
        project_summary(2, &vec![("fr".to_string(), stats(5)), ("de".to_string(), stats(9))]),
        ("2 languages".to_string(), "9 entries".to_string())
    );
    assert_eq!(spinner_frame(0), '\u{280B}');
    assert_eq!(spinner_frame(13), '\u{2838}');
    assert_eq!(progress_tone(100), ProgressTone::Complete);
    assert_eq!(progress_tone(50), ProgressTone::Half);
    assert_eq!(progress_tone(49), ProgressTone::Low);
}

#[test]
fn themes_resolve() {
    assert_eq!(resolve_theme(ThemePreference::Dark, true), ThemeChoice::Mocha);
    assert_eq!(resolve_theme(ThemePreference::Light, false), ThemeChoice::Latte);
    assert_eq!(resolve_theme(ThemePreference::System, true), ThemeChoice::Latte);
    assert_eq!(resolve_theme(ThemePreference::System, false), ThemeChoice::Mocha);
}

#[test]
fn locales_are_listed_and_found() {
    let all = all_locales();
    assert_eq!(all.len(), 158);
    assert_eq!(all[0].code, "af");
    let fr = find_locale("fr").unwrap();
    assert_eq!(fr.display_text(), format!("fr \u{2014} {}", fr.name));
    assert!(find_locale("xx_YY").is_none());
}

#[test]
fn requests_carry_non_blank_comments() {
    let entry = lexito::model::CatalogEntry {
        key: lexito::model::EntryKey { msgid: "Hi".to_string(), msgctxt: None },
        msgid: "Hi".to_string(),
        msgid_plural: None,
        msgctxt: None,
        msgstr: String::new(),
        msgstr_plural: Vec::new(),
        extracted_comment: "  ".to_string(),
        translator_comment: "keep short".to_string(),
        references: vec!["a.c:1".to_string()],
        flags: Vec::new(),
        previous_msgid: None,
        previous_msgid_plural: None,
        previous_msgctxt: None,
        obsolete: false,
        status: EntryStatus::Untranslated,
        warnings: Vec::new(),
    };
    let r = request_for_entry(entry, "de".to_string());
    assert_eq!(r.comments, vec!["keep short".to_string()]);
    assert_eq!(r.references, vec!["a.c:1".to_string()]);
    assert_eq!(r.target_locale, "de");
}

#[test]
fn projects_are_listed_by_name() {
    let listed = list_projects(vec![
        ("b".to_string(), "/p/b".to_string()),
        ("a".to_string(), "/p/a".to_string()),
        ("B".to_string(), "/p/B".to_string()),
    ]);
    let names: Vec<&str> = listed.iter().map(|p| p.0.as_str()).collect();
    assert_eq!(names, vec!["B", "a", "b"]);
    assert_eq!(projects_root(Some("/home/u")), "/home/u/Lexito");
    let now = chrono_now();
    assert_eq!(now.len(), 20);
    assert_eq!(&now[4..5], "-");
    assert_eq!(&now[10..11], "T");
    assert!(now.ends_with('Z'));
}

#[test]
fn timestamps_are_iso_8601_utc() {
    assert_eq!(format_timestamp(0), "1970-01-01T00:00:00Z");
    assert_eq!(format_timestamp(1_700_000_000), "2023-11-14T22:13:20Z");
    assert_eq!(format_timestamp(951_782_400), "2000-02-29T00:00:00Z");
    assert_eq!(format_timestamp(4_107_542_399), "2100-02-28T23:59:59Z");
    assert_eq!(format_timestamp(4_107_542_400), "2100-03-01T00:00:00Z");
}
