use lexito::client::{BatchProgressEvent, BatchItemResult, TranslationMetadata, TranslationResponse};
use lexito::desktop::{AppScreen, EntryFilter, SingleTranslationFinished};
use lexito::editor::{Command, Key, LexitoApp, Message};
use lexito::model::{EntryKey, EntryStatus};
use lexito::project::Project;
use lexito::settings::{AppSettings, ProviderProfile, ProviderType, SecretStore, SettingsStore};

const FR_PO: &str = "msgid \"\"
msgstr \"\"
\"Language: fr\\n\"

msgid \"Hello %s\"
msgstr \"Bonjour %s\"

#, fuzzy
msgid \"Goodbye\"
msgstr \"Au revoir\"

msgid \"Open\"
msgstr \"\"
";

fn app() -> LexitoApp {
    LexitoApp::boot(
        SettingsStore::with_root("/cfg"),
        SecretStore::new(),
        AppSettings::default(),
        vec![("Demo".to_string(), "/p/Demo".to_string())],
        "0.2".to_string(),
    )
}

fn project() -> Project {
    let (mut p, _) = Project::create("Demo", "/src/messages.pot", "/p", false, "1".to_string()).unwrap();
    p.add_language("fr", false, FR_PO).unwrap();
    p
}

fn opened() -> LexitoApp {
    let mut a = app();
    a.update(Message::ProjectLoaded(Ok((project(), "/p/Demo".to_string(), vec![Some(FR_PO.to_string())]))));
    a.update(Message::LanguageOpened(Ok(("/p/Demo/fr.po".to_string(), FR_PO.to_string(), "fr".to_string()))));
    a
}

fn response(singular: &str) -> TranslationResponse {
    TranslationResponse {
        singular: singular.to_string(),
        plurals: Vec::new(),
        metadata: TranslationMetadata {
            provider_name: "Prov".to_string(),
            model: "mod".to_string(),
            raw_response: String::new(),
        },
    }
}

fn key(msgid: &str) -> EntryKey {
    EntryKey { msgid: msgid.to_string(), msgctxt: None }
}

#[test]
fn boot_fills_preference_fields() {
    let a = app();
    assert_eq!(a.screen, AppScreen::ProjectList);
    assert_eq!(a.timeout_input, "60");
    assert_eq!(a.concurrency_input, "4");
    assert_eq!(a.title(), "lexito");
}

#[test]
fn opening_a_project_and_a_language() {
    let mut a = app();
    assert!(matches!(a.update(Message::OpenProject("/p/Demo".to_string())), Command::LoadProject(d) if d == "/p/Demo"));
    assert_eq!(a.status, "Loading project\u{2026}");
    a.update(Message::ProjectLoaded(Ok((project(), "/p/Demo".to_string(), vec![Some(FR_PO.to_string())]))));
    assert_eq!(a.screen, AppScreen::ProjectDashboard);
    assert_eq!(a.status, "Opened project: Demo");
    assert_eq!(a.language_stats.len(), 1);
    assert_eq!(a.language_stats[0].1.total, 3);
    match a.update(Message::OpenLanguage("fr".to_string())) {
        Command::OpenLanguage { po_path, locale } => {
            assert_eq!(po_path, "/p/Demo/fr.po");
            assert_eq!(locale, "fr");
        },
        _ => panic!("expected to open the language"),
    }
    assert!(matches!(a.update(Message::OpenLanguage("de".to_string())), Command::Nothing));
    assert_eq!(a.status, "No .po file configured for 'de'");
    a.update(Message::LanguageOpened(Ok(("/p/Demo/fr.po".to_string(), FR_PO.to_string(), "fr".to_string()))));
    assert_eq!(a.screen, AppScreen::Workspace);
    assert_eq!(a.status, "Translations loaded.");
    assert_eq!(a.title(), "lexito - Demo (fr)");
    assert_eq!(a.workspace.selected_key.as_ref().unwrap().msgid, "Hello %s");
    assert_eq!(a.workspace.singular_input, "Bonjour %s");
}

#[test]
fn keyboard_moves_the_selection() {
    let mut a = opened();
    assert!(matches!(a.update(Message::KeyPressed { key: Key::ArrowDown, command: false }), Command::ScrollTo { position: 1, count: 3 }));
    assert_eq!(a.workspace.selected_key.as_ref().unwrap().msgid, "Goodbye");
    a.update(Message::SelectNextEntry);
    a.update(Message::SelectNextEntry);
    assert_eq!(a.workspace.selected_key.as_ref().unwrap().msgid, "Open");
    a.update(Message::SelectPrevEntry);
    assert_eq!(a.workspace.selected_key.as_ref().unwrap().msgid, "Goodbye");
    assert_eq!(a.workspace.singular_input, "Au revoir");
}

#[test]
fn filters_select_their_first_entry() {
    let mut a = opened();
    a.update(Message::FilterSelected(EntryFilter::Untranslated));
    assert_eq!(a.workspace.selected_key.as_ref().unwrap().msgid, "Open");
    a.update(Message::FilterSelected(EntryFilter::Obsolete));
    assert!(a.workspace.selected_key.is_none());
}

#[test]
fn local_edits_are_validated_then_stored_as_reviewed() {
    let mut a = opened();
    a.update(Message::SingularChanged("Salut".to_string()));
    a.update(Message::ApplyLocalEdit);
    assert!(a.status.starts_with("Edit not applied: "));
    a.update(Message::SingularChanged("Salut %s".to_string()));
    a.update(Message::KeyPressed { key: Key::Enter, command: true });
    assert_eq!(a.status, "Entry updated.");
    let entry = &a.workspace.catalog.as_ref().unwrap().session().entries[0];
    assert_eq!(entry.msgstr, "Salut %s");
    assert_eq!(entry.status, EntryStatus::Translated);
}

#[test]
fn ai_translations_are_stored_fuzzy() {
    let mut a = opened();
    a.update(Message::SingleTranslationFinished(Ok(SingleTranslationFinished {
        key: key("Open"),
        response: response("Ouvrir"),
    })));
    assert_eq!(a.status, "Applied AI translation via Prov / mod.");
    let entry = &a.workspace.catalog.as_ref().unwrap().session().entries[2];
    assert_eq!(entry.msgstr, "Ouvrir");
    assert_eq!(entry.status, EntryStatus::Fuzzy);
    a.update(Message::SingleTranslationFinished(Ok(SingleTranslationFinished {
        key: key("Hello %s"),
        response: response("Salut"),
    })));
    assert!(a.status.starts_with("AI output for 'Hello %s' needs review: "));
}

#[test]
fn approving_all_fuzzy_entries() {
    let mut a = opened();
    a.update(Message::ApproveAllFuzzy);
    assert_eq!(a.status, "Approved 1 fuzzy entries.");
    assert_eq!(a.workspace.catalog.as_ref().unwrap().session().stats.fuzzy, 0);
}

#[test]
fn toggling_the_fuzzy_flag() {
    let mut a = opened();
    a.update(Message::ToggleSelectedFuzzy);
    assert_eq!(a.status, "Entry marked fuzzy.");
    a.update(Message::ToggleSelectedFuzzy);
    assert_eq!(a.status, "Entry marked reviewed.");
}

#[test]
fn batches_report_progress() {
    let mut a = opened();
    match a.update(Message::BatchTranslateUntranslated) {
        Command::PrepareBatch { filter, locale } => {
            assert_eq!(filter, EntryFilter::Untranslated);
            assert_eq!(locale, "fr");
        },
        _ => panic!("expected a batch"),
    }
    match a.update(Message::BatchClientReady { filter: EntryFilter::Untranslated, locale: "fr".to_string() }) {
        Command::RunBatch(items) => {
            assert_eq!(items.len(), 1);
            assert_eq!(items[0].request.msgid, "Open");
        },
        _ => panic!("expected the batch to run"),
    }
    assert!(a.workspace.batch_running);
    a.update(Message::BatchProgress(BatchProgressEvent::Started { total: 1 }));
    assert_eq!(a.status, "Translating 1 entries\u{2026}");
    a.update(Message::BatchProgress(BatchProgressEvent::Item {
        completed: 1,
        total: 1,
        item: BatchItemResult { key: key("Open"), result: Err("rate limited".to_string()) },
    }));
    assert_eq!(a.status, "Translating: 1/1. Last error: rate limited");
    a.update(Message::BatchProgress(BatchProgressEvent::Finished { completed: 1, total: 1 }));
    assert_eq!(a.status, "Batch translation finished: 1/1.");
    assert!(!a.workspace.batch_running);
    assert!(matches!(a.update(Message::CancelBatch), Command::Nothing));
}

#[test]
fn saving_uses_the_catalog_destination() {
    let mut a = opened();
    match a.update(Message::KeyPressed { key: Key::Character("s".to_string()), command: true }) {
        Command::SaveCatalog(saved) => {
            assert_eq!(saved.outcome.po_path, "/p/Demo/fr.po");
            assert_eq!(saved.outcome.mo_path.as_deref(), Some("/p/Demo/fr.mo"));
        },
        _ => panic!("expected a save"),
    }
    let outcome = lexito::model::SaveOutcome {
        po_path: "/p/Demo/fr.po".to_string(),
        mo_path: Some("/p/Demo/fr.mo".to_string()),
    };
    a.update(Message::CatalogSaved(Ok(outcome)));
    assert_eq!(a.status, "Saved /p/Demo/fr.po and compiled /p/Demo/fr.mo");
}

#[test]
fn translation_requests_need_a_selection() {
    let mut a = app();
    assert!(matches!(a.update(Message::TranslateSelectedPressed), Command::Nothing));
    assert_eq!(a.status, "Select an entry first.");
    let mut b = opened();
    match b.update(Message::TranslateSelectedPressed) {
        Command::Translate(r) => {
            assert_eq!(r.msgid, "Hello %s");
            assert_eq!(r.target_locale, "fr");
        },
        _ => panic!("expected a request"),
    }
}

#[test]
fn preferences_are_parsed_in_order() {
    let mut a = app();
    a.update(Message::TimeoutChanged(" 45 ".to_string()));
    a.update(Message::ConcurrencyChanged("0".to_string()));
    let prefs = a.translation_preferences(true).unwrap();
    assert_eq!(prefs.timeout_secs, Some(45));
    assert_eq!(prefs.batch_concurrency, Some(1));
    assert_eq!(a.translation_preferences(false).unwrap_err(), "Temperature must be a number.");
    a.update(Message::TimeoutChanged("-1".to_string()));
    assert_eq!(a.translation_preferences(true).unwrap_err(), "Timeout must be an integer number of seconds.");
    a.update(Message::TimeoutChanged("+7".to_string()));
    a.update(Message::ConcurrencyChanged("x".to_string()));
    assert_eq!(a.translation_preferences(true).unwrap_err(), "Concurrency must be a whole number.");
    assert!(matches!(a.update(Message::SaveSettingsPressed { temperature_ok: true }), Command::Nothing));
    assert_eq!(a.status, "Concurrency must be a whole number.");
}

#[test]
fn clients_need_an_active_provider_and_a_key() {
    let mut a = app();
    assert_eq!(a.client_config(None, true).unwrap_err(), "No active provider configured. Add one in Settings.");
    let p = ProviderProfile {
        id: 3,
        name: "P".to_string(),
        provider_type: ProviderType::OpenAI,
        base_url: "https://api.openai.com/v1/".to_string(),
        model: "gpt".to_string(),
    };
    a.settings.upsert_provider(p);
    a.update(Message::SelectProvider(3));
    assert_eq!(a.status, "Active provider switched.");
    assert_eq!(a.client_config(Some(Ok(None)), true).unwrap_err(), "No API key stored for the active provider.");
    let (profile, prefs) = a.client_config(Some(Ok(Some("sk".to_string()))), true).unwrap();
    assert_eq!(profile.api_key, "sk");
    assert_eq!(prefs.timeout_secs, Some(60));
    a.update(Message::RemoveProvider(3));
    assert_eq!(a.settings.active_provider_id, None);
    assert_eq!(a.status, "Provider removed.");
}

#[test]
fn editing_a_provider_with_a_key_fetches_models() {
    let mut a = app();
    a.settings.upsert_provider(ProviderProfile {
        id: 8,
        name: "R".to_string(),
        provider_type: ProviderType::OpenRouter,
        base_url: "https://openrouter.ai/api/v1/".to_string(),
        model: "x".to_string(),
    });
    match a.update(Message::EditProvider { id: 8, stored_key: "sk".to_string() }) {
        Command::FetchModels { provider_type, api_key } => {
            assert_eq!(provider_type, ProviderType::OpenRouter);
            assert_eq!(api_key, "sk");
        },
        _ => panic!("expected a fetch"),
    }
    assert!(a.models_loading);
    a.update(Message::ModelsFetched(Err("down".to_string())));
    assert_eq!(a.status, "Failed to fetch models: down");
    assert!(!a.models_loading);
    a.update(Message::DraftApiKeyChanged("  ".to_string()));
    a.update(Message::FetchModels);
    assert_eq!(a.status, "Enter an API key first.");
}

#[test]
fn creating_a_project_needs_a_name_and_a_template() {
    let mut a = app();
    a.update(Message::CreateProject);
    assert_eq!(a.status, "Enter a project name.");
    a.update(Message::NewProjectNameChanged(" Demo ".to_string()));
    a.update(Message::CreateProject);
    assert_eq!(a.status, "Pick a .pot file first.");
    a.update(Message::PotFilePicked(Some("/t/m.pot".to_string())));
    match a.update(Message::CreateProject) {
        Command::CreateProject { name, pot_path } => {
            assert_eq!(name, "Demo");
            assert_eq!(pot_path, "/t/m.pot");
        },
        _ => panic!("expected a project to be created"),
    }
    assert!(a.creating_project);
}
