//! Application settings: AI providers, translation preferences and theme,
//! and where they are kept.
use vstd::prelude::*;
use crate::text::{contains, chars_of, is_blank, trim, trim_str};
use crate::model::opt_view;
use crate::paths::{join, path_join};

verus! {

/// Why an AI or settings operation failed.
#[derive(Debug, Clone)]
pub enum AiError {
    MissingProvider,
    MissingApiKey,
    InvalidUrl(String),
    /// An HTTP request failed; the message says how.
    Http(String),
    InvalidResponse(String),
    SecretStore(String),
    Settings(String),
}

/// The message an error displays.
pub open spec fn ai_error_message(e: AiError) -> Seq<char> {
    match e {
        AiError::MissingProvider => "no active AI provider is configured"@,
        AiError::MissingApiKey => "missing API key for provider"@,
        AiError::InvalidUrl(m) => "invalid provider URL: "@ + m@,
        AiError::Http(m) => "http request failed: "@ + m@,
        AiError::InvalidResponse(m) => "provider returned an invalid response: "@ + m@,
        AiError::SecretStore(m) => "keychain operation failed: "@ + m@,
        AiError::Settings(m) => "settings operation failed: "@ + m@,
    }
}

impl AiError {
    /// The message of the error, as `Display` shows it.
    pub fn message(&self) -> (r: String)
        ensures
            r@ == ai_error_message(*self),
    {
        match self {
            AiError::MissingProvider => String::from_str("no active AI provider is configured"),
            AiError::MissingApiKey => String::from_str("missing API key for provider"),
            AiError::InvalidUrl(m) => String::from_str("invalid provider URL: ").concat(m.as_str()),
            AiError::Http(m) => String::from_str("http request failed: ").concat(m.as_str()),
            AiError::InvalidResponse(m) => {
                String::from_str("provider returned an invalid response: ").concat(m.as_str())
            },
            AiError::SecretStore(m) => String::from_str("keychain operation failed: ").concat(m.as_str()),
            AiError::Settings(m) => String::from_str("settings operation failed: ").concat(m.as_str()),
        }
    }
}

/// The colour theme the user prefers.
#[derive(Debug, Clone, Copy, PartialEq, Eq, Structural)]
pub enum ThemePreference {
    Dark,
    Light,
    System,
}

/// The label of a theme preference.
pub open spec fn theme_label(t: ThemePreference) -> Seq<char> {
    match t {
        ThemePreference::Dark => "Dark"@,
        ThemePreference::Light => "Light"@,
        ThemePreference::System => "System"@,
    }
}

impl ThemePreference {
    /// The preferences in the order the settings screen lists them.
    pub fn all() -> (r: Vec<ThemePreference>)
        ensures
            r@ == seq![ThemePreference::Dark, ThemePreference::System, ThemePreference::Light],
    {
        let mut r = Vec::new();
        r.push(ThemePreference::Dark);
        r.push(ThemePreference::System);
        r.push(ThemePreference::Light);
        assert(r@ =~= seq![ThemePreference::Dark, ThemePreference::System, ThemePreference::Light]);
        r
    }

    /// The label shown for the preference.
    pub fn label(self) -> (r: &'static str)
        ensures
            r@ == theme_label(self),
    {
        match self {
            ThemePreference::Dark => "Dark",
            ThemePreference::Light => "Light",
            ThemePreference::System => "System",
        }
    }
}

impl Default for ThemePreference {
    fn default() -> (r: ThemePreference)
        ensures
            r == ThemePreference::Dark,
    {
        ThemePreference::Dark
    }
}

/// The kind of AI service a provider is.
#[derive(Debug, Clone, Copy, PartialEq, Eq, Structural)]
pub enum ProviderType {
    OpenAI,
    OpenRouter,
    Anthropic,
}

/// The API base URL of a provider type.
pub open spec fn provider_base_url(t: ProviderType) -> Seq<char> {
    match t {
        ProviderType::OpenAI => "https://api.openai.com/v1/"@,
        ProviderType::OpenRouter => "https://openrouter.ai/api/v1/"@,
        ProviderType::Anthropic => "https://api.anthropic.com/v1/"@,
    }
}

/// The label of a provider type.
pub open spec fn provider_label(t: ProviderType) -> Seq<char> {
    match t {
        ProviderType::OpenAI => "OpenAI"@,
        ProviderType::OpenRouter => "OpenRouter"@,
        ProviderType::Anthropic => "Anthropic"@,
    }
}

impl ProviderType {
    /// The provider types in the order the settings screen lists them.
    pub fn all() -> (r: Vec<ProviderType>)
        ensures
            r@ == seq![ProviderType::OpenAI, ProviderType::OpenRouter, ProviderType::Anthropic],
    {
        let mut r = Vec::new();
        r.push(ProviderType::OpenAI);
        r.push(ProviderType::OpenRouter);
        r.push(ProviderType::Anthropic);
        assert(r@ =~= seq![ProviderType::OpenAI, ProviderType::OpenRouter, ProviderType::Anthropic]);
        r
    }

    /// The API base URL of the provider type.
    pub fn base_url(&self) -> (r: &'static str)
        ensures
            r@ == provider_base_url(*self),
    {
        match self {
            ProviderType::OpenAI => "https://api.openai.com/v1/",
            ProviderType::OpenRouter => "https://openrouter.ai/api/v1/",
            ProviderType::Anthropic => "https://api.anthropic.com/v1/",
        }
    }

    /// The label shown for the provider type.
    pub fn label(&self) -> (r: &'static str)
        ensures
            r@ == provider_label(*self),
    {
        match self {
            ProviderType::OpenAI => "OpenAI",
            ProviderType::OpenRouter => "OpenRouter",
            ProviderType::Anthropic => "Anthropic",
        }
    }
}

impl Default for ProviderType {
    fn default() -> (r: ProviderType)
        ensures
            r == ProviderType::OpenAI,
    {
        ProviderType::OpenAI
    }
}

/// What `url::Url::parse` gives for a text: the URL's serialization, or
/// `None` when the text is not a valid URL.
pub uninterp spec fn url_parse(text: Seq<char>) -> Option<Seq<char>>;

/// Parses a URL with `url::Url::parse` and gives back its serialization
/// (`Url::to_string`), or the parse error's message. The contract claims
/// that success and the serialization are the named function of the text;
/// the error message is not described.
#[verifier::external_body]
pub(crate) fn parse_url(text: &str) -> (r: Result<String, String>)
    ensures
        r is Ok == url_parse(text@) is Some,
        r matches Ok(u) ==> url_parse(text@) == Some(u@),
{
    url::Url::parse(text).map(|u| u.to_string()).map_err(|e| e.to_string())
}

/// A fresh random provider id (`uuid::Uuid::new_v4`, as its 128 bits).
/// Nothing is claimed of the value.
#[verifier::external_body]
fn fresh_provider_id() -> (r: u128)
{
    uuid::Uuid::new_v4().as_u128()
}

/// A configured AI provider.
#[derive(Debug, Clone)]
pub struct ProviderProfile {
    /// The provider's id (the 128 bits of its UUID).
    pub id: u128,
    pub name: String,
    pub provider_type: ProviderType,
    /// The API base URL, as a serialized URL.
    pub base_url: String,
    pub model: String,
}

/// Translation preferences, but for the sampling temperature, which is a
/// float and is held beside these by the caller.
#[derive(Debug, Clone)]
pub struct TranslationPreferences {
    pub timeout_secs: Option<u64>,
    pub batch_concurrency: Option<usize>,
    pub auto_compile_mo_on_save: bool,
    pub default_locale: Option<String>,
    pub system_prompt: Option<String>,
}

/// The default of `auto_compile_mo_on_save` when settings omit it.
pub fn default_true() -> (r: bool)
    ensures
        r,
{
    true
}

impl Default for TranslationPreferences {
    fn default() -> (r: TranslationPreferences)
        ensures
            r.timeout_secs is None,
            r.batch_concurrency is None,
            !r.auto_compile_mo_on_save,
            r.default_locale is None,
            r.system_prompt is None,
    {
        TranslationPreferences {
            timeout_secs: None,
            batch_concurrency: None,
            auto_compile_mo_on_save: false,
            default_locale: None,
            system_prompt: None,
        }
    }
}

/// The application settings.
#[derive(Debug, Clone)]
pub struct AppSettings {
    pub providers: Vec<ProviderProfile>,
    pub active_provider_id: Option<u128>,
    pub translation: TranslationPreferences,
    pub theme: ThemePreference,
    pub last_opened_path: Option<String>,
}

impl Default for AppSettings {
    fn default() -> (r: AppSettings)
        ensures
            r.providers@.len() == 0,
            r.active_provider_id is None,
            r.theme == ThemePreference::Dark,
            r.last_opened_path is None,
    {
        AppSettings {
            providers: Vec::new(),
            active_provider_id: None,
            translation: TranslationPreferences::default(),
            theme: ThemePreference::Dark,
            last_opened_path: None,
        }
    }
}

/// The ids of the providers, in order.
pub open spec fn provider_ids(ps: Seq<ProviderProfile>) -> Seq<u128> {
    ps.map_values(|p: ProviderProfile| p.id)
}

/// The position of the first provider with `id`, if any.
pub open spec fn provider_index(ps: Seq<ProviderProfile>, id: u128) -> Option<int> {
    if provider_ids(ps).contains(id) {
        Some(choose|i: int| 0 <= i < ps.len() && ps[i].id == id && forall|j: int| 0 <= j < i ==> ps[j].id != id)
    } else {
        None
    }
}

/// The providers after an upsert: the first with the same id replaced, or
/// the new one appended.
pub open spec fn upserted(ps: Seq<ProviderProfile>, p: ProviderProfile) -> Seq<ProviderProfile> {
    match provider_index(ps, p.id) {
        Some(i) => ps.update(i, p),
        None => ps.push(p),
    }
}

/// The first provider with `id`, if any.
pub(crate) fn find_provider(ps: &Vec<ProviderProfile>, id: u128) -> (r: Option<usize>)
    ensures
        match r {
            Some(i) => provider_index(ps@, id) == Some(i as int) && i < ps@.len(),
            None => provider_index(ps@, id) is None,
        },
{
    let mut i: usize = 0;
    while i < ps.len()
        invariant
            i <= ps@.len(),
            forall|j: int| 0 <= j < i ==> ps@[j].id != id,
        decreases ps.len() - i,
    {
        if ps[i].id == id {
            proof {
                assert(provider_ids(ps@)[i as int] == id);
                let k = choose|k: int| 0 <= k < ps@.len() && ps@[k].id == id && forall|j: int|
                    0 <= j < k ==> ps@[j].id != id;
                if k < i {
                    assert(ps@[k].id != id);
                }
                if i < k {
                    assert(ps@[i as int].id != id);
                }
            }
            return Some(i);
        }
        i = i + 1;
    }
    proof {
        if provider_ids(ps@).contains(id) {
            let w = choose|w: int| 0 <= w < provider_ids(ps@).len() && provider_ids(ps@)[w] == id;
            assert(ps@[w].id == id);
        }
    }
    None
}

impl AppSettings {
    /// The active provider: the first provider with the active id.
    pub fn active_provider(&self) -> (r: Option<&ProviderProfile>)
        ensures
            match self.active_provider_id {
                None => r is None,
                Some(id) => match provider_index(self.providers@, id) {
                    Some(i) => r == Some(&self.providers@[i]),
                    None => r is None,
                },
            },
    {
        let id = match self.active_provider_id {
            Some(id) => id,
            None => return None,
        };
        match find_provider(&self.providers, id) {
            Some(i) => Some(&self.providers[i]),
            None => None,
        }
    }

    /// Replaces the first provider with the same id, or appends the new one.
    pub fn upsert_provider(&mut self, provider: ProviderProfile)
        ensures
            final(self).providers@ == upserted(old(self).providers@, provider),
            final(self).active_provider_id == old(self).active_provider_id,
            final(self).theme == old(self).theme,
            final(self).last_opened_path == old(self).last_opened_path,
            final(self).translation == old(self).translation,
    {
        match find_provider(&self.providers, provider.id) {
            Some(i) => {
                self.providers.set(i, provider);
            },
            None => {
                self.providers.push(provider);
            },
        }
    }

    /// Sets each provider's base URL to the parsed base URL of its type
    /// (left as it was when that does not parse).
    pub fn normalize_providers(&mut self)
        ensures
            final(self).providers@.len() == old(self).providers@.len(),
            forall|i: int| 0 <= i < final(self).providers@.len() ==> {
                let p = #[trigger] final(self).providers@[i];
                let q = old(self).providers@[i];
                &&& p.id == q.id
                &&& p.name == q.name
                &&& p.provider_type == q.provider_type
                &&& p.model == q.model
                &&& p.base_url@ == match url_parse(provider_base_url(q.provider_type)) {
                    Some(u) => u,
                    None => q.base_url@,
                }
            },
            final(self).active_provider_id == old(self).active_provider_id,
            final(self).theme == old(self).theme,
            final(self).last_opened_path == old(self).last_opened_path,
            final(self).translation == old(self).translation,
    {
        let ghost old_ps = self.providers@;
        let mut i: usize = 0;
        while i < self.providers.len()
            invariant
                i <= self.providers@.len(),
                self.active_provider_id == old(self).active_provider_id,
                self.theme == old(self).theme,
                self.last_opened_path == old(self).last_opened_path,
                self.translation == old(self).translation,
                self.providers@.len() == old_ps.len(),
                forall|k: int| i <= k < old_ps.len() ==> self.providers@[k] == old_ps[k],
                forall|k: int| 0 <= k < i ==> {
                    let p = #[trigger] self.providers@[k];
                    let q = old_ps[k];
                    &&& p.id == q.id
                    &&& p.name == q.name
                    &&& p.provider_type == q.provider_type
                    &&& p.model == q.model
                    &&& p.base_url@ == match url_parse(provider_base_url(q.provider_type)) {
                        Some(u) => u,
                        None => q.base_url@,
                    }
                },
            decreases self.providers.len() - i,
        {
            let parsed = parse_url(self.providers[i].provider_type.base_url());
            match parsed {
                Ok(u) => {
                    let q = &self.providers[i];
                    let p = ProviderProfile {
                        id: q.id,
                        name: q.name.clone(),
                        provider_type: q.provider_type,
                        base_url: u,
                        model: q.model.clone(),
                    };
                    self.providers.set(i, p);
                },
                Err(_) => {},
            }
            i = i + 1;
        }
    }
}

/// Where settings are kept: `settings.toml` in a configuration directory.
#[derive(Debug, Clone)]
pub struct SettingsStore {
    root: String,
}

impl SettingsStore {
    /// The store in the platform's configuration directory for the
    /// application, when one is known.
    pub fn new(config_dir: Option<&str>) -> (r: Result<SettingsStore, AiError>)
        ensures
            match config_dir {
                Some(d) => r matches Ok(s) && s.root()@ == d@,
                None => r matches Err(AiError::Settings(m)) && m@ == "could not resolve project directories"@,
            },
    {
        match config_dir {
            Some(d) => Ok(SettingsStore { root: String::from_str(d) }),
            None => Err(AiError::Settings(String::from_str("could not resolve project directories"))),
        }
    }

    /// The directory the store keeps its file in.
    pub closed spec fn root(self) -> String {
        self.root
    }

    /// The store in the directory `root`.
    pub fn with_root(root: &str) -> (r: SettingsStore)
        ensures
            r.root()@ == root@,
    {
        SettingsStore { root: String::from_str(root) }
    }

    /// The directory the store keeps its file in.
    pub fn root_dir(&self) -> (r: &str)
        ensures
            r@ == self.root()@,
    {
        self.root.as_str()
    }

    /// The settings file.
    pub fn path(&self) -> (r: String)
        ensures
            r@ == path_join(self.root()@, "settings.toml"@),
    {
        join(self.root.as_str(), "settings.toml")
    }
}

/// The keychain service the API keys are stored under.
pub const KEYRING_SERVICE: &'static str = "com.lexito.desktop";

/// Where API keys are kept: a keychain service.
#[derive(Debug, Clone)]
pub struct SecretStore {
    pub service: String,
}

impl SecretStore {
    /// The store for this application's keychain service.
    pub fn new() -> (r: SecretStore)
        ensures
            r.service@ == KEYRING_SERVICE@,
    {
        SecretStore { service: String::from_str(KEYRING_SERVICE) }
    }

    /// The outcome of a keychain lookup: a stored key, no key (when the
    /// keychain error mentions `NoEntry`), or a keychain error.
    pub fn lookup_outcome(lookup: Result<String, String>) -> (r: Result<Option<String>, AiError>)
        ensures
            match lookup {
                Ok(k) => r matches Ok(Some(k2)) && k2 == k,
                Err(m) => if crate::text::contains_seq(m@, "NoEntry"@) {
                    r matches Ok(None)
                } else {
                    r matches Err(AiError::SecretStore(m2)) && m2 == m
                },
            },
    {
        match lookup {
            Ok(k) => Ok(Some(k)),
            Err(m) => {
                let cs = chars_of(m.as_str());
                let pat = chars_of("NoEntry");
                if contains(&cs, &pat) {
                    Ok(None)
                } else {
                    Err(AiError::SecretStore(m))
                }
            },
        }
    }
}

/// A provider being edited: its id when it already exists, and the API key
/// typed in.
#[derive(Debug, Clone)]
pub struct ProviderDraft {
    pub id: Option<u128>,
    pub name: String,
    pub provider_type: ProviderType,
    pub model: String,
    pub api_key: String,
}

impl Default for ProviderDraft {
    fn default() -> (r: ProviderDraft)
        ensures
            r.id is None,
            r.name@ == "OpenAI"@,
            r.provider_type == ProviderType::OpenAI,
            r.model@.len() == 0,
            r.api_key@.len() == 0,
    {
        ProviderDraft {
            id: None,
            name: String::from_str("OpenAI"),
            provider_type: ProviderType::OpenAI,
            model: String::new(),
            api_key: String::new(),
        }
    }
}

impl ProviderDraft {
    /// The profile for the draft, given the id a new provider gets: the
    /// draft's own id when it has one, the type's parsed base URL, and the
    /// name and model trimmed; with the API key beside it. A base URL that
    /// does not parse is `InvalidUrl`.
    pub fn into_profile_with_id(self, fresh_id: u128) -> (r: Result<(ProviderProfile, String), AiError>)
        ensures
            url_parse(provider_base_url(self.provider_type)) is None ==> (r matches Err(e) && e is InvalidUrl),
            url_parse(provider_base_url(self.provider_type)) is Some ==> (r matches Ok((p, key)) && p.id == (match self.id {
                Some(id) => id,
                None => fresh_id,
            }) && p.name@ == trim(self.name@) && p.provider_type == self.provider_type
                && Some(p.base_url@) == url_parse(provider_base_url(self.provider_type))
                && p.model@ == trim(self.model@) && key == self.api_key),
    {
        let id = match self.id {
            Some(id) => id,
            None => fresh_id,
        };
        let base_url = match parse_url(self.provider_type.base_url()) {
            Ok(u) => u,
            Err(m) => return Err(AiError::InvalidUrl(m)),
        };
        let profile = ProviderProfile {
            id,
            name: trim_str(self.name.as_str()),
            provider_type: self.provider_type,
            base_url,
            model: trim_str(self.model.as_str()),
        };
        Ok((profile, self.api_key))
    }

    /// The profile for the draft (see `into_profile_with_id`); a new
    /// provider gets a fresh random id.
    pub fn into_profile(self) -> (r: Result<(ProviderProfile, String), AiError>)
        ensures
            url_parse(provider_base_url(self.provider_type)) is None ==> (r matches Err(e) && e is InvalidUrl),
            url_parse(provider_base_url(self.provider_type)) is Some ==> (r matches Ok((p, key))
                && (self.id matches Some(id) ==> p.id == id) && p.name@ == trim(self.name@)
                && p.provider_type == self.provider_type
                && Some(p.base_url@) == url_parse(provider_base_url(self.provider_type))
                && p.model@ == trim(self.model@) && key == self.api_key),
    {
        let fresh = match self.id {
            Some(id) => id,
            None => fresh_provider_id(),
        };
        self.into_profile_with_id(fresh)
    }
}

impl ProviderProfile {
    /// A copy of the profile.
    pub fn duplicate(&self) -> (r: ProviderProfile)
        ensures
            r == *self,
    {
        ProviderProfile {
            id: self.id,
            name: self.name.clone(),
            provider_type: self.provider_type,
            base_url: self.base_url.clone(),
            model: self.model.clone(),
        }
    }
}

/// The providers without those with `id`, in order.
pub open spec fn without_provider(ps: Seq<ProviderProfile>, id: u128) -> Seq<ProviderProfile>
    decreases ps.len(),
{
    if ps.len() == 0 {
        Seq::empty()
    } else {
        let rest = without_provider(ps.drop_last(), id);
        if ps.last().id == id { rest } else { rest.push(ps.last()) }
    }
}

impl AppSettings {
    /// Removes every provider with `id`; when it was the active one, the
    /// first remaining provider (if any) becomes active.
    pub fn remove_provider(&mut self, id: u128)
        ensures
            final(self).providers@ == without_provider(old(self).providers@, id),
            final(self).active_provider_id == if old(self).active_provider_id == Some(id) {
                if final(self).providers@.len() > 0 { Some(final(self).providers@[0].id) } else { None }
            } else {
                old(self).active_provider_id
            },
            final(self).theme == old(self).theme,
            final(self).last_opened_path == old(self).last_opened_path,
            final(self).translation == old(self).translation,
    {
        let ghost ps = self.providers@;
        let mut kept: Vec<ProviderProfile> = Vec::new();
        let mut i: usize = 0;
        while i < self.providers.len()
            invariant
                ps == self.providers@,
                i <= ps.len(),
                kept@ == without_provider(ps.take(i as int), id),
            decreases self.providers.len() - i,
        {
            assert(ps.take(i + 1).drop_last() =~= ps.take(i as int));
            if self.providers[i].id != id {
                kept.push(self.providers[i].duplicate());
            }
            i = i + 1;
        }
        assert(ps.take(ps.len() as int) =~= ps);
        self.providers = kept;
        if self.active_provider_id == Some(id) {
            self.active_provider_id = if self.providers.len() > 0 { Some(self.providers[0].id) } else { None };
        }
    }

    /// Records a saved provider: it replaces the provider with its id or is
    /// appended, and becomes active when none is.
    pub fn record_provider(&mut self, provider: ProviderProfile)
        ensures
            final(self).providers@ == upserted(old(self).providers@, provider),
            final(self).active_provider_id == match old(self).active_provider_id {
                Some(a) => Some(a),
                None => Some(provider.id),
            },
            final(self).theme == old(self).theme,
            final(self).last_opened_path == old(self).last_opened_path,
            final(self).translation == old(self).translation,
    {
        let id = provider.id;
        self.upsert_provider(provider);
        if self.active_provider_id.is_none() {
            self.active_provider_id = Some(id);
        }
    }
}

impl ProviderDraft {
    /// A copy of the draft.
    pub fn duplicate(&self) -> (r: ProviderDraft)
        ensures
            r == *self,
    {
        ProviderDraft {
            id: self.id,
            name: self.name.clone(),
            provider_type: self.provider_type,
            model: self.model.clone(),
            api_key: self.api_key.clone(),
        }
    }
}

fn copy_text(o: &Option<String>) -> (r: Option<String>)
    ensures
        r == *o,
{
    match o {
        Some(s) => Some(s.clone()),
        None => None,
    }
}

impl TranslationPreferences {
    /// A copy of the preferences.
    pub fn duplicate(&self) -> (r: TranslationPreferences)
        ensures
            r == *self,
    {
        TranslationPreferences {
            timeout_secs: self.timeout_secs,
            batch_concurrency: self.batch_concurrency,
            auto_compile_mo_on_save: self.auto_compile_mo_on_save,
            default_locale: copy_text(&self.default_locale),
            system_prompt: copy_text(&self.system_prompt),
        }
    }
}

impl AppSettings {
    /// A copy of the settings.
    pub fn duplicate(&self) -> (r: AppSettings)
        ensures
            r.providers@ == self.providers@,
            r.active_provider_id == self.active_provider_id,
            r.translation == self.translation,
            r.theme == self.theme,
            r.last_opened_path == self.last_opened_path,
    {
        let mut providers: Vec<ProviderProfile> = Vec::new();
        let mut i: usize = 0;
        while i < self.providers.len()
            invariant
                i <= self.providers@.len(),
                providers@ == self.providers@.take(i as int),
            decreases self.providers.len() - i,
        {
            providers.push(self.providers[i].duplicate());
            assert(self.providers@.take(i + 1) =~= self.providers@.take(i as int).push(self.providers@[i as int]));
            i = i + 1;
        }
        assert(self.providers@.take(self.providers@.len() as int) =~= self.providers@);
        AppSettings {
            providers,
            active_provider_id: self.active_provider_id,
            translation: self.translation.duplicate(),
            theme: self.theme,
            last_opened_path: copy_text(&self.last_opened_path),
        }
    }
}

} // verus!
