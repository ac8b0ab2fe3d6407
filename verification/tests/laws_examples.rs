use lexito::catalog::CatalogDocument;
use lexito::client::{chunk_requests, BatchItem, TranslationRequest};
use lexito::editor::LexitoApp;
use lexito::model::{EntryKey, EntryStatus, TranslationPayload};
use lexito::project::Project;
use lexito::settings::{AppSettings, ProviderProfile, ProviderType, SecretStore, SettingsStore, TranslationPreferences};
use lexito::validation::validate_translation;

const PO: &str = "msgid \"\"
msgstr \"\"
\"Language: fr\\n\"

msgid \"<b>%d</b> file\"
msgid_plural \"<b>%d</b> files\"
msgstr[0] \"\"
msgstr[1] \"\"

#, fuzzy
msgid \"Later\"
msgstr \"Plus tard\"

msgid \"Now\"
msgstr \"Maintenant\"
";

#[test]
fn counts_partition_the_entries() {
    let d = CatalogDocument::open_po("fr.po", PO).unwrap();
    let s = d.session().stats;
    assert_eq!(s.total, d.session().entries.len());
    assert_eq!(s.translated + s.untranslated + s.fuzzy + s.obsolete, s.total);
    assert_eq!((s.translated, s.untranslated, s.fuzzy), (1, 1, 1));
}

#[test]
fn the_source_text_is_a_valid_translation() {
    let d = CatalogDocument::open_po("fr.po", PO).unwrap();
    let plural = &d.session().entries[0];
    let payload = TranslationPayload {
        singular: plural.msgid.clone(),
        plurals: vec![plural.msgid_plural.clone().unwrap()],
    };
    assert!(validate_translation(plural, &payload).is_empty());
    let single = &d.session().entries[2];
    let payload = TranslationPayload { singular: single.msgid.clone(), plurals: Vec::new() };
    assert!(validate_translation(single, &payload).is_empty());
}

#[test]
fn a_saved_provider_is_found_by_its_id() {
    let mut settings = AppSettings::default();
    let p = ProviderProfile {
        id: 11,
        name: "P".to_string(),
        provider_type: ProviderType::OpenAI,
        base_url: "https://api.openai.com/v1/".to_string(),
        model: "m".to_string(),
    };
    settings.upsert_provider(p.clone());
    settings.active_provider_id = Some(11);
    assert_eq!(settings.active_provider().unwrap().name, "P");
}

#[test]
fn a_removed_language_has_no_catalog() {
    let (mut project, dir) = Project::create("X", "/t.pot", "/r", false, "0".to_string()).unwrap();
    project.add_language("fr", false, PO).unwrap();
    project.add_language("de", false, PO).unwrap();
    assert_eq!(project.remove_language("fr").as_deref(), Some("fr.po"));
    assert!(project.po_path("fr", &dir).is_none());
    assert_eq!(project.po_path("de", &dir).as_deref(), Some("/r/X/de.po"));
    assert!(project.remove_language("fr").is_none());
}

#[test]
fn stored_preferences_read_back() {
    let mut settings = AppSettings::default();
    settings.translation = TranslationPreferences {
        timeout_secs: Some(45),
        batch_concurrency: Some(3),
        auto_compile_mo_on_save: true,
        default_locale: Some("fr".to_string()),
        system_prompt: Some("Keep tone formal.".to_string()),
    };
    let app = LexitoApp::boot(SettingsStore::with_root("/c"), SecretStore::new(), settings, Vec::new(), "0.2".to_string());
    let prefs = app.translation_preferences(true).unwrap();
    assert_eq!(prefs.timeout_secs, Some(45));
    assert_eq!(prefs.batch_concurrency, Some(3));
    assert!(prefs.auto_compile_mo_on_save);
    assert_eq!(prefs.default_locale.as_deref(), Some("fr"));
    assert_eq!(prefs.system_prompt.as_deref(), Some("Keep tone formal."));
}

#[test]
fn chunks_hold_every_request_once_in_order() {
    let items: Vec<BatchItem> = (0..101)
        .map(|i| BatchItem {
            request: TranslationRequest {
                key: EntryKey { msgid: i.to_string(), msgctxt: None },
                target_locale: "fr".to_string(),
                msgid: i.to_string(),
                msgid_plural: None,
                msgctxt: None,
                comments: Vec::new(),
                references: Vec::new(),
            },
        })
        .collect();
    let chunks = chunk_requests(&items);
    let flat: Vec<String> = chunks.iter().flatten().map(|r| r.msgid.clone()).collect();
    let expected: Vec<String> = (0..101).map(|i: i32| i.to_string()).collect();
    assert_eq!(flat, expected);
    assert!(chunks.iter().all(|c| !c.is_empty() && c.len() <= 50));
}

fn counts_agree(d: &CatalogDocument) {
    let s = d.session().stats;
    let es = &d.session().entries;
    let count = |st: EntryStatus| es.iter().filter(|e| e.status == st).count();
    assert_eq!(s.total, es.len());
    assert_eq!(s.translated, count(EntryStatus::Translated));
    assert_eq!(s.untranslated, count(EntryStatus::Untranslated));
    assert_eq!(s.fuzzy, count(EntryStatus::Fuzzy));
    assert_eq!(s.obsolete, count(EntryStatus::Obsolete));
    assert_eq!(s.warnings, es.iter().filter(|e| !e.warnings.is_empty()).count());
}

#[test]
fn edits_keep_statistics_counting_the_entries() {
    let mut d = CatalogDocument::open_po("fr.po", PO).unwrap();
    counts_agree(&d);
    let now = EntryKey { msgid: "Now".to_string(), msgctxt: None };
    d.set_fuzzy(&now, true).unwrap();
    counts_agree(&d);
    d.update_translation(&now, TranslationPayload { singular: "%d".to_string(), plurals: Vec::new() }, false).unwrap();
    counts_agree(&d);
    d.set_locale("de");
    counts_agree(&d);
    let missing = EntryKey { msgid: "Nope".to_string(), msgctxt: None };
    assert!(d.set_fuzzy(&missing, true).is_err());
    counts_agree(&d);
}

#[test]
fn setting_fuzzy_twice_is_once() {
    let mut d = CatalogDocument::open_po("fr.po", PO).unwrap();
    let later = EntryKey { msgid: "Later".to_string(), msgctxt: None };
    d.set_fuzzy(&later, true).unwrap();
    let once = d.session().entries[1].flags.clone();
    let stats_once = d.session().stats;
    let text_once = d.render_save(Some("a.po".to_string()), false).unwrap().po_text;
    d.set_fuzzy(&later, true).unwrap();
    assert_eq!(d.session().entries[1].flags, once);
    assert_eq!(d.session().stats, stats_once);
    assert_eq!(d.render_save(Some("a.po".to_string()), false).unwrap().po_text, text_once);
    assert_eq!(once.iter().filter(|f| f.as_str() == "fuzzy").count(), 1);
    assert_eq!(d.session().entries[1].msgstr, "Plus tard");
    d.set_fuzzy(&later, false).unwrap();
    d.set_fuzzy(&later, false).unwrap();
    assert!(!d.session().entries[1].flags.iter().any(|f| f == "fuzzy"));
}

#[test]
fn saving_writes_the_rendered_catalog() {
    let mut d = CatalogDocument::open_po("fr.po", PO).unwrap();
    let preview = d.render_save(None, true).unwrap();
    let mo = d.compile_mo(None).unwrap();
    let saved = d.save_po(None, true).unwrap();
    assert_eq!(saved.po_text, preview.po_text);
    assert_eq!(saved.mo_bytes, preview.mo_bytes);
    assert_eq!(saved.mo_bytes.as_deref(), Some(mo.1.as_slice()));
    assert!(saved.po_text.contains("msgid \"Now\"\nmsgstr \"Maintenant\""));
    let reopened = CatalogDocument::open_po("fr.po", &saved.po_text).unwrap();
    assert_eq!(reopened.session().stats, d.session().stats);
}
