use lexito::desktop::EntryFilter;
use lexito::editor::{LexitoApp, Message};
use lexito::model::{EntryKey, EntryStatus};
use lexito::models::ModelInfo;
use lexito::project::Project;
use lexito::screens::{filter_pills, theme_pills};
use lexito::settings::{AppSettings, ProviderProfile, ProviderType, SecretStore, SettingsStore, ThemePreference};

const FR_PO: &str = "msgid \"\"
msgstr \"\"
\"Language: fr\\n\"

#. shown on the greeting
#: src/a.c:1 src/b.c:2
#, c-format
msgid \"Hello %s\"
msgstr \"Bonjour\"

#, fuzzy
msgid \"Goodbye\"
msgstr \"Au revoir\"

msgid \"One file\"
msgid_plural \"%d files\"
msgstr[0] \"\"
msgstr[1] \"\"

msgctxt \"menu\"
msgid \"A very long source text that the list has to cut short\"
msgstr \"\"
";

fn app() -> LexitoApp {
    LexitoApp::boot(
        SettingsStore::with_root("/cfg"),
        SecretStore::new(),
        AppSettings::default(),
        vec![("Demo".to_string(), "/p/Demo".to_string()), ("Other".to_string(), "/p/Other".to_string())],
        "0.2".to_string(),
    )
}

fn project() -> Project {
    let (mut p, _) = Project::create("Demo", "/src/messages.pot", "/p", false, "1".to_string()).unwrap();
    p.add_language("fr", false, FR_PO).unwrap();
    p.add_language("xx", false, FR_PO).unwrap();
    p
}

fn opened() -> LexitoApp {
    let mut a = app();
    a.update(Message::ProjectLoaded(Ok((
        project(),
        "/p/Demo".to_string(),
        vec![Some(FR_PO.to_string()), None],
    ))));
    a.update(Message::LanguageOpened(Ok(("/p/Demo/fr.po".to_string(), FR_PO.to_string(), "fr".to_string()))));
    a
}

fn key(msgid: &str) -> EntryKey {
    EntryKey { msgid: msgid.to_string(), msgctxt: None }
}

#[test]
fn entry_rows_follow_the_filter_and_the_selection() {
    let mut a = opened();
    let rows = a.workspace.entry_rows();
    assert_eq!(rows.len(), 4);
    assert_eq!(rows[0].label, "Hello %s");
    assert!(rows[0].selected);
    assert!(!rows[1].selected);
    assert_eq!(rows[1].status, EntryStatus::Fuzzy);
    assert_eq!(rows[3].label, "A very long source text that the lis...");
    assert_eq!(rows[3].key.msgctxt.as_deref(), Some("menu"));
    a.update(Message::FilterSelected(EntryFilter::Untranslated));
    let rows = a.workspace.entry_rows();
    assert_eq!(rows.len(), 2);
    assert_eq!(rows[0].label, "One file");
    assert!(rows[0].selected);
}

#[test]
fn sidebar_shows_source_stats_and_filters() {
    let a = opened();
    let side = a.workspace.sidebar().unwrap();
    assert_eq!(side.source, "Source: /p/Demo/fr.po");
    assert_eq!(side.stats.total, 4);
    assert_eq!(side.stats.fuzzy, 1);
    assert_eq!(side.locale.map(|l| l.name), Some("French"));
    assert_eq!(side.filters.len(), 5);
    assert_eq!(side.filters[0].label, "All");
    assert!(side.filters[0].active);
    assert_eq!(side.filters[4].label, "Obsolete");
    assert!(!side.filters[4].active);
    assert!(app().workspace.sidebar().is_none());
}

#[test]
fn filter_pills_mark_the_one_in_use() {
    let pills = filter_pills(EntryFilter::Warnings);
    let active: Vec<&str> = pills.iter().filter(|p| p.active).map(|p| p.label).collect();
    assert_eq!(active, vec!["Warnings"]);
}

#[test]
fn entry_panel_shows_details_of_the_selection() {
    let mut a = opened();
    let panel = a.workspace.entry_panel().unwrap();
    assert_eq!(panel.msgid, "Hello %s");
    assert_eq!(panel.status_label, "Translated");
    assert_eq!(panel.references.as_deref(), Some("src/a.c:1, src/b.c:2"));
    assert_eq!(panel.comment.as_deref(), Some("shown on the greeting"));
    assert_eq!(panel.flags.as_deref(), Some("c-format"));
    assert_eq!(panel.singular, "Bonjour");
    assert!(panel.plural_inputs.is_empty());
    assert_eq!(panel.fuzzy_toggle, "Mark fuzzy");
    assert_eq!(panel.warnings, vec!["The translation changed or dropped placeholders.".to_string()]);

    a.update(Message::SelectEntry(key("Goodbye")));
    let panel = a.workspace.entry_panel().unwrap();
    assert_eq!(panel.fuzzy_toggle, "Mark reviewed");
    assert_eq!(panel.references, None);
    assert_eq!(panel.comment, None);
    assert_eq!(panel.flags.as_deref(), Some("fuzzy"));

    a.update(Message::SelectEntry(key("One file")));
    let panel = a.workspace.entry_panel().unwrap();
    assert_eq!(panel.plural_source.as_deref(), Some("%d files"));
    assert_eq!(panel.plural_inputs.len(), 2);
    assert_eq!(panel.plural_inputs[0].0, "Plural form 0 (e.g. n = 0 or n >= 2)");
    assert_eq!(panel.plural_inputs[1].0, "Plural form 1 (e.g. n = 2\u{2013}4)");

    assert!(app().workspace.entry_panel().is_none());
}

#[test]
fn header_offers_catalog_actions_only_with_a_catalog() {
    let h = app().workspace_header();
    assert_eq!(h.project_name, "lexito");
    assert_eq!(h.language, "");
    assert!(!h.catalog_actions);
    let h = opened().workspace_header();
    assert_eq!(h.project_name, "Demo");
    assert_eq!(h.language, "fr");
    assert!(h.catalog_actions);
}

#[test]
fn batch_overlay_only_while_a_batch_runs() {
    let mut a = opened();
    assert!(a.workspace.batch_overlay().is_none());
    a.workspace.batch_running = true;
    a.workspace.batch_total = 4;
    a.workspace.batch_completed = 1;
    a.workspace.spinner_tick = 12;
    let o = a.workspace.batch_overlay().unwrap();
    assert_eq!(o.frame, '\u{2839}');
    assert_eq!((o.completed, o.total), (1, 4));
    a.workspace.batch_total = 0;
    assert!(a.workspace.batch_overlay().is_none());
}

#[test]
fn settings_screen_lists_providers_and_themes() {
    let mut a = app();
    a.settings.upsert_provider(ProviderProfile {
        id: 3,
        name: "P".to_string(),
        provider_type: ProviderType::Anthropic,
        base_url: "https://api.anthropic.com/v1/".to_string(),
        model: "sonnet-4".to_string(),
    });
    a.update(Message::SelectProvider(3));
    a.update(Message::ThemePreferenceChanged(ThemePreference::Light));
    let s = a.settings_screen();
    assert!(matches!(s.back, Message::GoToProjects));
    assert_eq!(s.providers.len(), 1);
    assert_eq!(s.providers[0].type_label, "Anthropic");
    assert_eq!(s.providers[0].model, "sonnet-4");
    assert!(s.providers[0].active);
    assert!(s.editor.is_none());
    let chosen: Vec<&str> = s.themes.iter().filter(|t| t.active).map(|t| t.label).collect();
    assert_eq!(chosen, vec!["Light"]);
    assert_eq!(s.themes[1].label, "System");
    assert!(matches!(opened().settings_screen().back, Message::GoToDashboard));
}

#[test]
fn theme_pills_in_order() {
    let labels: Vec<&str> = theme_pills(ThemePreference::System).iter().map(|t| t.label).collect();
    assert_eq!(labels, vec!["Dark", "System", "Light"]);
}

#[test]
fn provider_editor_titles_and_fetch_button() {
    let mut a = app();
    assert!(a.provider_editor().is_none());
    a.update(Message::AddProvider);
    let e = a.provider_editor().unwrap();
    assert_eq!(e.title, "Add Provider");
    assert_eq!(e.fetch_label, "Fetch models");
    assert!(e.fetch_enabled);
    assert!(e.selected_model.is_none());
    a.update(Message::ModelsFetched(Ok(vec![
        ModelInfo { id: "m1".to_string(), display_name: "One".to_string() },
        ModelInfo { id: "m2".to_string(), display_name: "Two".to_string() },
    ])));
    a.update(Message::DraftModelSelected(ModelInfo { id: "m2".to_string(), display_name: "Two".to_string() }));
    a.models_loading = true;
    let e = a.provider_editor().unwrap();
    assert_eq!(e.fetch_label, "Loading\u{2026}");
    assert!(!e.fetch_enabled);
    assert_eq!(e.selected_model.map(|m| m.display_name), Some("Two".to_string()));
}

#[test]
fn dashboard_cards_use_known_statistics() {
    let a = opened();
    let d = a.dashboard().unwrap();
    assert_eq!(d.project_name, "Demo");
    assert_eq!(d.languages_label, "2 languages");
    assert_eq!(d.entries_label, "4 entries");
    assert_eq!(d.cards.len(), 2);
    assert_eq!(d.cards[0].locale, "fr");
    assert_eq!(d.cards[0].display_name, "French");
    assert_eq!((d.cards[0].translated, d.cards[0].total, d.cards[0].fuzzy), (1, 4, 1));
    assert_eq!(d.cards[1].display_name, "");
    assert!(app().dashboard().is_none());
}

#[test]
fn project_list_cards_and_template_name() {
    let mut a = app();
    let l = a.project_list_screen(&vec![0, 3]);
    assert_eq!(l.template, None);
    assert_eq!(l.cards.len(), 2);
    assert_eq!(l.cards[0].languages, "No languages");
    assert_eq!(l.cards[1].languages, "3 languages");
    assert_eq!(l.cards[1].dir, "/p/Other");
    let l = a.project_list_screen(&vec![1]);
    assert_eq!(l.cards[0].languages, "1 language");
    assert_eq!(l.cards[1].languages, "No languages");
    a.update(Message::PotFilePicked(Some("/t/sub/messages.pot".to_string())));
    assert_eq!(a.project_list_screen(&vec![]).template.as_deref(), Some("messages.pot"));
    a.update(Message::PotFilePicked(Some("/".to_string())));
    assert_eq!(a.project_list_screen(&vec![]).template.as_deref(), Some("selected"));
}
