use lexito::settings::{
    AiError, AppSettings, ProviderDraft, ProviderProfile, ProviderType, SecretStore, SettingsStore, ThemePreference,
    TranslationPreferences, KEYRING_SERVICE,
};

fn profile(id: u128, name: &str, provider_type: ProviderType) -> ProviderProfile {
    ProviderProfile {
        id,
        name: name.to_string(),
        provider_type,
        base_url: provider_type.base_url().to_string(),
        model: "m".to_string(),
    }
}

#[test]
fn labels_and_defaults() {
    assert_eq!(ThemePreference::default(), ThemePreference::Dark);
    assert_eq!(ThemePreference::System.label(), "System");
    assert_eq!(ThemePreference::all(), vec![ThemePreference::Dark, ThemePreference::System, ThemePreference::Light]);
    assert_eq!(ProviderType::default(), ProviderType::OpenAI);
    assert_eq!(ProviderType::OpenRouter.label(), "OpenRouter");
    assert_eq!(ProviderType::Anthropic.base_url(), "https://api.anthropic.com/v1/");
    assert_eq!(ProviderType::all().len(), 3);
    let prefs = TranslationPreferences::default();
    assert!(!prefs.auto_compile_mo_on_save);
    assert!(prefs.timeout_secs.is_none());
    assert!(lexito::settings::default_true());
}

#[test]
fn upsert_replaces_or_appends() {
    let mut settings = AppSettings::default();
    settings.upsert_provider(profile(1, "one", ProviderType::OpenAI));
    settings.upsert_provider(profile(2, "two", ProviderType::Anthropic));
    settings.upsert_provider(profile(1, "uno", ProviderType::OpenRouter));
    assert_eq!(settings.providers.len(), 2);
    assert_eq!(settings.providers[0].name, "uno");
    assert_eq!(settings.providers[0].provider_type, ProviderType::OpenRouter);
    assert!(settings.active_provider().is_none());
    settings.active_provider_id = Some(2);
    assert_eq!(settings.active_provider().unwrap().name, "two");
}

#[test]
fn saved_provider_becomes_active_when_none_is() {
    let mut settings = AppSettings::default();
    settings.record_provider(profile(5, "five", ProviderType::OpenAI));
    assert_eq!(settings.active_provider_id, Some(5));
    settings.record_provider(profile(6, "six", ProviderType::OpenAI));
    assert_eq!(settings.active_provider_id, Some(5));
    assert_eq!(settings.providers.len(), 2);
}

#[test]
fn removing_the_active_provider_activates_the_first_left() {
    let mut settings = AppSettings::default();
    settings.upsert_provider(profile(1, "one", ProviderType::OpenAI));
    settings.upsert_provider(profile(2, "two", ProviderType::OpenAI));
    settings.upsert_provider(profile(3, "three", ProviderType::OpenAI));
    settings.active_provider_id = Some(1);
    settings.remove_provider(1);
    assert_eq!(settings.providers.len(), 2);
    assert_eq!(settings.active_provider_id, Some(2));
    settings.remove_provider(3);
    assert_eq!(settings.active_provider_id, Some(2));
    settings.remove_provider(2);
    assert_eq!(settings.active_provider_id, None);
}

#[test]
fn normalizing_sets_canonical_base_urls() {
    let mut settings = AppSettings::default();
    let mut p = profile(1, "one", ProviderType::OpenRouter);
    p.base_url = "https://example.com/".to_string();
    settings.upsert_provider(p);
    settings.normalize_providers();
    assert_eq!(settings.providers[0].base_url, "https://openrouter.ai/api/v1/");
}

#[test]
fn draft_becomes_a_trimmed_profile() {
    let draft = ProviderDraft {
        id: None,
        name: "  Mine ".to_string(),
        provider_type: ProviderType::Anthropic,
        model: " sonnet-4 ".to_string(),
        api_key: "sk".to_string(),
    };
    let (p, key) = draft.clone().into_profile_with_id(42).unwrap();
    assert_eq!(p.id, 42);
    assert_eq!(p.name, "Mine");
    assert_eq!(p.model, "sonnet-4");
    assert_eq!(p.base_url, "https://api.anthropic.com/v1/");
    assert_eq!(key, "sk");
    let (q, _) = ProviderDraft { id: Some(9), ..draft }.into_profile().unwrap();
    assert_eq!(q.id, 9);
    let d = ProviderDraft::default();
    assert_eq!(d.name, "OpenAI");
    assert!(d.api_key.is_empty());
}

#[test]
fn fresh_provider_ids_differ() {
    let draft = ProviderDraft::default();
    let (a, _) = draft.clone().into_profile().unwrap();
    let (b, _) = draft.into_profile().unwrap();
    assert_ne!(a.id, b.id);
}

#[test]
fn stores_know_their_places() {
    let store = SettingsStore::with_root("/cfg/lexito");
    assert_eq!(store.path(), "/cfg/lexito/settings.toml");
    assert_eq!(store.root_dir(), "/cfg/lexito");
    assert!(matches!(SettingsStore::new(None), Err(AiError::Settings(m)) if m == "could not resolve project directories"));
    assert_eq!(SettingsStore::new(Some("/x")).unwrap().root_dir(), "/x");
    assert_eq!(SecretStore::new().service, KEYRING_SERVICE);
}

#[test]
fn keychain_outcomes() {
    assert_eq!(SecretStore::lookup_outcome(Ok("k".to_string())).unwrap(), Some("k".to_string()));
    assert_eq!(SecretStore::lookup_outcome(Err("NoEntry".to_string())).unwrap(), None);
    assert!(matches!(SecretStore::lookup_outcome(Err("locked".to_string())), Err(AiError::SecretStore(m)) if m == "locked"));
}

#[test]
fn error_messages() {
    assert_eq!(AiError::MissingApiKey.message(), "missing API key for provider");
    assert_eq!(AiError::InvalidUrl("x".to_string()).message(), "invalid provider URL: x");
    assert_eq!(AiError::InvalidResponse("y".to_string()).message(), "provider returned an invalid response: y");
}
