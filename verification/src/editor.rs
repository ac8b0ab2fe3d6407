//! The editor's state and what each user action or finished task does to
//! it. Work outside the library (files, dialogs, the keychain, network
//! calls) is asked for by the `Command` an update gives back; its result
//! comes back as a `Message`.
use vstd::prelude::*;
use crate::catalog::{CatalogDocument, SavedCatalog};
use crate::client::{resolved, BatchItem, BatchProgressEvent, ResolvedProviderProfile, TranslationRequest};
use crate::desktop::{AppScreen, EntryFilter, SingleTranslationFinished};
use crate::locales::Locale;
use crate::model::{CatalogStats, SaveOutcome, StatsModel, copy_opt, opt_view};
use crate::models::ModelInfo;
use crate::project::{Project, language_stats, first_language};
use crate::settings::{
    AiError, AppSettings, ProviderDraft, ProviderProfile, ProviderType, SecretStore, SettingsStore, ThemePreference,
    TranslationPreferences, ai_error_message, provider_index,
};
use crate::paths::path_join;
use crate::text::{decimal, decimal_string, is_blank, parse_unsigned, trim, trim_str, unsigned_value};
use crate::workspace::Workspace;

verus! {

/// The state of the editor.
#[derive(Debug)]
pub struct LexitoApp {
    pub settings_store: SettingsStore,
    pub secret_store: SecretStore,
    pub settings: AppSettings,
    pub theme_preference: ThemePreference,
    pub screen: AppScreen,
    pub status: String,
    /// The projects found: (name, directory).
    pub projects: Vec<(String, String)>,
    pub current_project: Option<Project>,
    pub current_project_dir: Option<String>,
    pub language_stats: Vec<(String, CatalogStats)>,
    pub current_language: Option<String>,
    pub new_project_name: String,
    pub new_project_pot_path: Option<String>,
    pub creating_project: bool,
    pub workspace: Workspace,
    pub editing_provider: Option<ProviderDraft>,
    pub available_models: Vec<ModelInfo>,
    pub models_loading: bool,
    pub models_error: Option<String>,
    pub temperature_input: String,
    pub timeout_input: String,
    pub concurrency_input: String,
    pub default_locale_input: String,
    pub system_prompt_input: String,
    pub auto_compile_on_save: bool,
}

/// The text of a parsed optional count, or a default.
pub open spec fn count_text(n: Option<nat>, default: Seq<char>) -> Seq<char> {
    match n {
        Some(n) => decimal(n),
        None => default,
    }
}

/// The value of an unsigned integer field, trimmed, when it parses and is
/// at most `max`.
pub open spec fn field_value(s: Seq<char>, max: nat) -> Option<nat> {
    match unsigned_value(trim(s)) {
        Some(n) => if n <= max { Some(n) } else { None },
        None => None,
    }
}

/// A trimmed text, or nothing when it is blank.
pub open spec fn nonblank(s: Seq<char>) -> Option<Seq<char>> {
    if trim(s).len() > 0 { Some(trim(s)) } else { None }
}

/// The status after an action: its own status, or the old one.
pub open spec fn status_after(old_status: Seq<char>, st: Option<Seq<char>>) -> Seq<char> {
    match st {
        Some(s) => s,
        None => old_status,
    }
}

/// Statistics per language as plain values.
pub open spec fn stats_view(v: Seq<(String, CatalogStats)>) -> Seq<(Seq<char>, StatsModel)> {
    v.map_values(|p: (String, CatalogStats)| (p.0@, p.1@))
}

impl LexitoApp {
    /// The open catalog, if any, is well formed.
    pub open spec fn inv(self) -> bool {
        self.workspace.inv()
    }

    /// The editor as it starts: the project list, the stored settings, and
    /// the preference fields filled from them (the temperature field is
    /// given as text).
    pub fn boot(
        settings_store: SettingsStore,
        secret_store: SecretStore,
        settings: AppSettings,
        projects: Vec<(String, String)>,
        temperature_input: String,
    ) -> (r: LexitoApp)
        ensures
            r.inv(),
            r.settings_store == settings_store,
            r.secret_store == secret_store,
            r.settings == settings,
            r.screen == AppScreen::ProjectList,
            r.status@.len() == 0,
            r.projects == projects,
            r.language_stats@.len() == 0,
            r.current_project_dir is None,
            r.current_language is None,
            r.new_project_name@.len() == 0,
            r.new_project_pot_path is None,
            !r.creating_project,
            r.available_models@.len() == 0,
            !r.models_loading,
            r.models_error is None,
            r.workspace.selected_key is None,
            r.workspace.filter == EntryFilter::All,
            r.workspace.singular_input@.len() == 0,
            r.workspace.plural_inputs@.len() == 0,
            !r.workspace.batch_running,
            r.theme_preference == settings.theme,
            r.timeout_input@ == count_text(match settings.translation.timeout_secs {
                Some(n) => Some(n as nat),
                None => None,
            }, "60"@),
            r.concurrency_input@ == count_text(match settings.translation.batch_concurrency {
                Some(n) => Some(n as nat),
                None => None,
            }, "4"@),
            r.default_locale_input@ == match settings.translation.default_locale {
                Some(l) => l@,
                None => Seq::empty(),
            },
            r.system_prompt_input@ == match settings.translation.system_prompt {
                Some(p) => p@,
                None => Seq::empty(),
            },
            r.auto_compile_on_save == settings.translation.auto_compile_mo_on_save,
            r.temperature_input == temperature_input,
            r.workspace.catalog is None,
            r.workspace.locale_input@ == r.default_locale_input@,
            r.current_project is None,
            r.editing_provider is None,
    {
        let timeout_input = match settings.translation.timeout_secs {
            Some(n) => decimal_string(n),
            None => String::from_str("60"),
        };
        let concurrency_input = match settings.translation.batch_concurrency {
            Some(n) => decimal_string(n as u64),
            None => String::from_str("4"),
        };
        let default_locale_input = match &settings.translation.default_locale {
            Some(l) => l.clone(),
            None => String::new(),
        };
        let system_prompt_input = match &settings.translation.system_prompt {
            Some(p) => p.clone(),
            None => String::new(),
        };
        let auto_compile_on_save = settings.translation.auto_compile_mo_on_save;
        let theme_preference = settings.theme;
        let workspace = Workspace::new(default_locale_input.clone());
        LexitoApp {
            settings_store,
            secret_store,
            settings,
            theme_preference,
            screen: AppScreen::ProjectList,
            status: String::new(),
            projects,
            current_project: None,
            current_project_dir: None,
            language_stats: Vec::new(),
            current_language: None,
            new_project_name: String::new(),
            new_project_pot_path: None,
            creating_project: false,
            workspace,
            editing_provider: None,
            available_models: Vec::new(),
            models_loading: false,
            models_error: None,
            temperature_input,
            timeout_input,
            concurrency_input,
            default_locale_input,
            system_prompt_input,
            auto_compile_on_save,
        }
    }

    /// The window title: the application, the project and the language.
    pub fn title(&self) -> (r: String)
        ensures
            r@ == match self.current_project {
                Some(p) => match self.current_language {
                    Some(l) => "lexito - "@ + p.project.name@ + " ("@ + l@ + ")"@,
                    None => "lexito - "@ + p.project.name@,
                },
                None => "lexito"@,
            },
    {
        match &self.current_project {
            Some(project) => match &self.current_language {
                Some(lang) => String::from_str("lexito - ").concat(project.project.name.as_str()).concat(" (").concat(
                    lang.as_str(),
                ).concat(")"),
                None => String::from_str("lexito - ").concat(project.project.name.as_str()),
            },
            None => String::from_str("lexito"),
        }
    }

    /// The translation preferences from the preference fields; whether the
    /// temperature field holds a number is given. Each field that does not
    /// parse gives its own message, in the order temperature, timeout,
    /// concurrency.
    pub fn translation_preferences(&self, temperature_ok: bool) -> (r: Result<TranslationPreferences, String>)
        ensures
            match r {
                Ok(p) => preferences_outcome(*self, temperature_ok) == Ok::<PrefsView, Seq<char>>(prefs_view(p)),
                Err(e) => preferences_outcome(*self, temperature_ok) == Err::<PrefsView, Seq<char>>(e@),
            },
    {
        if !temperature_ok {
            return Err(String::from_str("Temperature must be a number."));
        }
        let timeout_secs = match parse_unsigned(trim_str(self.timeout_input.as_str()).as_str(), u64::MAX) {
            Some(t) => t,
            None => return Err(String::from_str("Timeout must be an integer number of seconds.")),
        };
        let concurrency = match parse_unsigned(trim_str(self.concurrency_input.as_str()).as_str(), usize::MAX as u64) {
            Some(c) => c as usize,
            None => return Err(String::from_str("Concurrency must be a whole number.")),
        };
        let default_locale = if !is_blank(self.default_locale_input.as_str()) {
            Some(trim_str(self.default_locale_input.as_str()))
        } else {
            None
        };
        let system_prompt = if !is_blank(self.system_prompt_input.as_str()) {
            Some(trim_str(self.system_prompt_input.as_str()))
        } else {
            None
        };
        Ok(TranslationPreferences {
            timeout_secs: Some(timeout_secs),
            batch_concurrency: Some(if concurrency == 0 { 1 } else { concurrency }),
            auto_compile_mo_on_save: self.auto_compile_on_save,
            default_locale,
            system_prompt,
        })
    }

    /// What a client is built from: the active provider with its API key,
    /// and the translation preferences. `key_lookup` is the keychain lookup
    /// for the active provider (`None` when none was made).
    pub fn client_config(
        &self,
        key_lookup: Option<Result<Option<String>, AiError>>,
        temperature_ok: bool,
    ) -> (r: Result<(ResolvedProviderProfile, TranslationPreferences), String>)
        ensures
            ({
                let active = match self.settings.active_provider_id {
                    Some(id) => provider_index(self.settings.providers@, id),
                    None => None,
                };
                match active {
                    None => r matches Err(e) && e@ == "No active provider configured. Add one in Settings."@,
                    Some(i) => match key_lookup {
                        Some(Err(err)) => r matches Err(e) && e@ == ai_error_message(err),
                        Some(Ok(Some(key))) => match preferences_outcome(*self, temperature_ok) {
                            Err(pe) => r matches Err(e) && e@ == pe,
                            Ok(p) => r matches Ok((profile, prefs)) && prefs_view(prefs) == p
                                && profile == resolved(self.settings.providers@[i], key),
                        },
                        _ => r matches Err(e) && e@ == "No API key stored for the active provider."@,
                    },
                }
            }),
    {
        let provider = match self.settings.active_provider() {
            Some(p) => p.duplicate(),
            None => return Err(String::from_str("No active provider configured. Add one in Settings.")),
        };
        let api_key = match key_lookup {
            Some(Err(e)) => return Err(e.message()),
            Some(Ok(Some(k))) => k,
            _ => return Err(String::from_str("No API key stored for the active provider.")),
        };
        let preferences = match self.translation_preferences(temperature_ok) {
            Ok(p) => p,
            Err(e) => return Err(e),
        };
        Ok((ResolvedProviderProfile::from((provider, api_key)), preferences))
    }
}

/// Translation preferences as plain values: (timeout, concurrency,
/// compile on save, default locale, system prompt).
pub type PrefsView = (Option<u64>, Option<usize>, bool, Option<Seq<char>>, Option<Seq<char>>);

/// Translation preferences as plain values.
pub open spec fn prefs_view(p: TranslationPreferences) -> PrefsView {
    (p.timeout_secs, p.batch_concurrency, p.auto_compile_mo_on_save, opt_view(p.default_locale), opt_view(p.system_prompt))
}

/// The translation preferences that the preference fields give, or the
/// message for the first field that does not parse.
pub open spec fn preferences_outcome(a: LexitoApp, temperature_ok: bool) -> Result<PrefsView, Seq<char>> {
    if !temperature_ok {
        Err("Temperature must be a number."@)
    } else {
        match field_value(a.timeout_input@, u64::MAX as nat) {
            None => Err("Timeout must be an integer number of seconds."@),
            Some(t) => match field_value(a.concurrency_input@, usize::MAX as nat) {
                None => Err("Concurrency must be a whole number."@),
                Some(c) => Ok((
                    Some(t as u64),
                    Some(if c == 0 { 1usize } else { c as usize }),
                    a.auto_compile_on_save,
                    nonblank(a.default_locale_input@),
                    nonblank(a.system_prompt_input@),
                )),
            },
        }
    }
}

/// A key the workspace reacts to.
#[derive(Debug, Clone)]
pub enum Key {
    ArrowDown,
    ArrowUp,
    Enter,
    Character(String),
    Other,
}

/// What the user did, or what a task finished with.
#[derive(Debug)]
pub enum Message {
    GoToProjects,
    GoToDashboard,
    GoToSettings,
    SaveAndGo,
    ConfirmDiscard,
    CancelNavigation,
    OpenProject(String),
    /// A project was read: the project, its directory, and the text of each
    /// language's catalog (`None` where it could not be read).
    ProjectLoaded(Result<(Project, String, Vec<Option<String>>), String>),
    /// The projects found: (name, directory).
    ProjectsListed(Vec<(String, String)>),
    DeleteProject(String),
    /// A project directory was deleted; on success, the projects found now.
    ProjectDeleted { dir: String, result: Result<Vec<(String, String)>, String> },
    NewProjectNameChanged(String),
    PickPotFile,
    PotFilePicked(Option<String>),
    CreateProject,
    ProjectCreated(Result<(Project, String), String>),
    AddLanguage(Locale),
    /// A language was added: the project, the locale, and the text of each
    /// language's catalog.
    LanguageAdded(Result<(Project, String, Vec<Option<String>>), String>),
    RemoveLanguage(String),
    /// A language's files were removed and the project saved; on success,
    /// the text of each remaining language's catalog.
    LanguageRemoved { locale: String, result: Result<Vec<Option<String>>, String> },
    /// The text of each language's catalog, read again.
    LanguageStatsLoaded(Vec<Option<String>>),
    OpenLanguage(String),
    /// The catalog file of a language does not exist.
    LanguageFileMissing(String),
    /// A language's catalog was read: its path, its text and the locale.
    LanguageOpened(Result<(String, String, String), String>),
    OpenProjectFolder,
    KeyPressed { key: Key, command: bool },
    SelectNextEntry,
    SelectPrevEntry,
    SavePressed,
    SavePathPicked(Option<String>),
    /// The catalog was written where the outcome says.
    CatalogSaved(Result<SaveOutcome, String>),
    SelectEntry(crate::model::EntryKey),
    FilterSelected(EntryFilter),
    SingularChanged(String),
    PluralChanged(usize, String),
    ApplyLocalEdit,
    ToggleSelectedFuzzy,
    TranslateSelectedPressed,
    /// No client could be built for an AI request; the message says why.
    ClientUnavailable(String),
    SingleTranslationFinished(Result<SingleTranslationFinished, String>),
    BatchTranslateUntranslated,
    BatchTranslateFuzzy,
    /// A client for a batch is ready.
    BatchClientReady { filter: EntryFilter, locale: String },
    ApproveAllFuzzy,
    BatchProgress(BatchProgressEvent),
    CancelBatch,
    SpinnerTick,
    SelectProvider(u128),
    /// Edit a provider; `stored_key` is its API key from the keychain (empty
    /// when there is none or the lookup failed).
    EditProvider { id: u128, stored_key: String },
    AddProvider,
    RemoveProvider(u128),
    CancelEditProvider,
    DraftNameChanged(String),
    DraftProviderTypeChanged(ProviderType),
    DraftApiKeyChanged(String),
    DraftModelSelected(ModelInfo),
    FetchModels,
    ModelsFetched(Result<Vec<ModelInfo>, String>),
    SaveProvider,
    ProviderSaved(Result<AppSettings, String>),
    ThemePreferenceChanged(ThemePreference),
    TemperatureChanged(String),
    TimeoutChanged(String),
    ConcurrencyChanged(String),
    DefaultLocaleChanged(Locale),
    SystemPromptChanged(String),
    AutoCompileToggled(bool),
    /// Save the preferences; whether the temperature field holds a number.
    SaveSettingsPressed { temperature_ok: bool },
    SettingsSaved(Result<AppSettings, String>),
}

/// Work for the caller to do.
#[derive(Debug)]
pub enum Command {
    /// No work.
    Nothing,
    /// Open a directory in the file manager.
    OpenFolder(String),
    /// Scroll the entry list to a position of a list of `count` entries.
    ScrollTo { position: usize, count: usize },
    /// List the projects again (`ProjectsListed`).
    ListProjects,
    /// Read a project (`ProjectLoaded`).
    LoadProject(String),
    /// Delete a project directory (`ProjectDeleted`).
    DeleteProject(String),
    /// Ask for a template file (`PotFilePicked`).
    PickPotFile,
    /// Create a project (`ProjectCreated`).
    CreateProject { name: String, pot_path: String },
    /// Add a language to the current project (`LanguageAdded`).
    AddLanguage(String),
    /// Delete a removed language's catalog file (and its `.mo`), then save
    /// the current project (`LanguageRemoved`).
    RemoveLanguageFiles { locale: String, po_file: Option<String> },
    /// Read the catalogs at these paths (`LanguageStatsLoaded`).
    LoadLanguageStats(Vec<String>),
    /// Read a language's catalog (`LanguageOpened`, or
    /// `LanguageFileMissing`).
    OpenLanguage { po_path: String, locale: String },
    /// Write a saved catalog (`CatalogSaved`).
    SaveCatalog(SavedCatalog),
    /// Ask where to save the catalog (`SavePathPicked`).
    PickSavePath,
    /// Build a client and translate one entry (`SingleTranslationFinished`,
    /// or `ClientUnavailable`).
    Translate(TranslationRequest),
    /// Build a client for a batch (`BatchClientReady`, or
    /// `ClientUnavailable`).
    PrepareBatch { filter: EntryFilter, locale: String },
    /// Run a batch (`BatchProgress`).
    RunBatch(Vec<BatchItem>),
    /// Stop the running batch.
    AbortBatch,
    /// Fetch a provider's models (`ModelsFetched`).
    FetchModels { provider_type: ProviderType, api_key: String },
    /// Store a draft's API key and save settings holding its provider
    /// (`ProviderSaved`).
    SaveProvider { draft: ProviderDraft, settings: AppSettings },
    /// Save settings (`SettingsSaved`).
    SaveSettings(AppSettings),
}

/// `a` is `b` with only the status changed, to `s`.
pub open spec fn with_status(b: LexitoApp, a: LexitoApp, s: Seq<char>) -> bool {
    a == (LexitoApp { status: a.status, ..b }) && a.status@ == s
}

/// `a` is `b` with only the workspace and the status changed, the status to
/// the action's own when it has one.
pub open spec fn workspace_step(b: LexitoApp, a: LexitoApp, st: Option<Seq<char>>) -> bool {
    a == (LexitoApp { workspace: a.workspace, status: a.status, ..b }) && a.status@ == status_after(b.status@, st)
}

/// The language statistics after the catalog texts were read again: those
/// of the current project, when a project and its directory are set.
pub open spec fn refreshed_stats(b: LexitoApp, texts: Seq<Option<String>>, stats: Seq<(String, CatalogStats)>) -> bool {
    match (b.current_project, b.current_project_dir) {
        (Some(p), Some(_)) => stats_view(stats) == language_stats(p.languages@, texts),
        _ => stats == b.language_stats@,
    }
}

/// The command to read the current project's catalogs again.
pub open spec fn stats_command(b: LexitoApp, c: Command) -> bool {
    match (b.current_project, b.current_project_dir) {
        (Some(p), Some(d)) => c matches Command::LoadLanguageStats(paths) && paths@.len() == p.languages@.len()
            && forall|i: int| 0 <= i < paths@.len() ==> #[trigger] paths@[i]@ == path_join(d@, p.languages@[i].po_file@),
        _ => c is Nothing,
    }
}

/// The command to scroll to the selection.
pub open spec fn scroll_command(w: Workspace, c: Command) -> bool {
    match crate::workspace::scroll_target(w) {
        Some((p, n)) => c matches Command::ScrollTo { position, count } && position == p && count == n,
        None => c is Nothing,
    }
}

/// The command to write the catalog at `path` (or its own destination).
pub open spec fn save_command(d: CatalogDocument, path: Option<String>, c: Command) -> bool {
    let dest = match path {
        Some(p) => Some(p@),
        None => opt_view(d.state().po_path),
    };
    match dest {
        Some(dest) => c matches Command::SaveCatalog(saved) && saved.outcome.po_path@ == dest
            && opt_view(saved.outcome.mo_path) == Some(crate::paths::path_with_extension(dest, "mo"@))
            && saved.mo_bytes is Some,
        None => c is Nothing,
    }
}

/// The status after the catalog was written.
pub open spec fn saved_status(o: SaveOutcome) -> Seq<char> {
    "Saved "@ + o.po_path@ + match o.mo_path {
        Some(m) => " and compiled "@ + m@,
        None => Seq::empty(),
    }
}

/// What moving the selection does: the workspace steps, and the list
/// scrolls to the new selection.
pub open spec fn step_done(b: LexitoApp, a: LexitoApp, c: Command, down: bool) -> bool {
    &&& a == (LexitoApp { workspace: a.workspace, ..b })
    &&& crate::workspace::stepped(b.workspace, a.workspace, down)
    &&& scroll_command(a.workspace, c)
}

/// What saving does: with a destination the catalog is written there,
/// without one the user is asked for one.
pub open spec fn save_done(b: LexitoApp, a: LexitoApp, c: Command) -> bool {
    &&& a == b
    &&& match b.workspace.catalog {
        None => c is Nothing,
        Some(d) => if d.state().po_path is Some { save_command(d, None, c) } else { c is PickSavePath },
    }
}

/// What applying the editor's translation does.
pub open spec fn local_edit_done(b: LexitoApp, a: LexitoApp, c: Command) -> bool {
    &&& workspace_step(b, a, crate::workspace::local_edit_status(b.workspace))
    &&& crate::workspace::local_edit_effect(b.workspace, a.workspace)
    &&& c is Nothing
}

/// What asking for the selected entry's AI translation does.
pub open spec fn translate_done(b: LexitoApp, a: LexitoApp, c: Command) -> bool {
    match crate::workspace::selected_model(b.workspace.entries(), crate::workspace::opt_key(b.workspace.selected_key)) {
        Some(e) => with_status(b, a, "Requesting AI translation..."@) && (c matches Command::Translate(q)
            && q@ == crate::desktop::entry_request(
            e,
            crate::workspace::chosen_locale(b.workspace.locale_input@, b.default_locale_input@),
        )),
        None => with_status(b, a, "Select an entry first."@) && c is Nothing,
    }
}

/// What asking for a batch over the entries a filter shows does.
pub open spec fn batch_request_done(b: LexitoApp, a: LexitoApp, c: Command, f: EntryFilter) -> bool {
    let locale = crate::workspace::chosen_locale(b.workspace.locale_input@, b.default_locale_input@);
    if b.workspace.catalog is None {
        with_status(b, a, "Open a catalog first."@) && c is Nothing
    } else if locale.len() == 0 {
        with_status(b, a, "Set a target locale before using AI translation."@) && c is Nothing
    } else {
        a == b && (c matches Command::PrepareBatch { filter, locale: l } && filter == f && l@ == locale)
    }
}

/// What each message does to the editor and which work it asks for.
pub open spec fn handled(b: LexitoApp, m: Message, a: LexitoApp, c: Command) -> bool {
    match m {
        Message::GoToProjects => a == (LexitoApp {
            screen: AppScreen::ProjectList,
            workspace: Workspace { catalog: None, ..b.workspace },
            current_language: None,
            ..b
        }) && c is ListProjects,
        Message::ProjectsListed(list) => a == (LexitoApp { projects: list, ..b }) && c is Nothing,
        Message::GoToDashboard => a == (LexitoApp {
            screen: AppScreen::ProjectDashboard,
            workspace: Workspace { catalog: None, ..b.workspace },
            current_language: None,
            ..b
        }) && stats_command(b, c),
        Message::LanguageStatsLoaded(texts) => a == (LexitoApp { language_stats: a.language_stats, ..b })
            && refreshed_stats(b, texts@, a.language_stats@) && c is Nothing,
        Message::GoToSettings => a == (LexitoApp { screen: AppScreen::Settings, ..b }) && c is Nothing,
        Message::SaveAndGo | Message::ConfirmDiscard | Message::CancelNavigation => a == b && c is Nothing,
        Message::OpenProject(dir) => with_status(b, a, "Loading project\u{2026}"@) && (c matches Command::LoadProject(d)
            && d == dir),
        Message::ProjectLoaded(Ok((project, dir, texts))) => a == (LexitoApp {
            status: a.status,
            current_project: Some(project),
            current_project_dir: Some(dir),
            language_stats: a.language_stats,
            screen: AppScreen::ProjectDashboard,
            ..b
        }) && a.status@ == "Opened project: "@ + project.project.name@ && stats_view(a.language_stats@)
            == language_stats(project.languages@, texts@) && c is Nothing,
        Message::ProjectLoaded(Err(e)) => with_status(b, a, "Failed to open project: "@ + e@) && c is Nothing,
        Message::DeleteProject(dir) => a == b && (c matches Command::DeleteProject(d) && d == dir),
        Message::ProjectDeleted { dir, result: Err(e) } => with_status(b, a, "Failed to delete project: "@ + e@)
            && c is Nothing,
        Message::ProjectDeleted { dir, result: Ok(list) } => {
            let gone = opt_view(b.current_project_dir) == Some(dir@);
            &&& a == (LexitoApp {
                status: a.status,
                projects: list,
                current_project: if gone { None } else { b.current_project },
                current_project_dir: if gone { None } else { b.current_project_dir },
                ..b
            })
            &&& a.status@ == "Project deleted."@
            &&& c is Nothing
        },
        Message::NewProjectNameChanged(name) => a == (LexitoApp { new_project_name: name, ..b }) && c is Nothing,
        Message::PickPotFile => a == b && c is PickPotFile,
        Message::PotFilePicked(path) => a == (LexitoApp { new_project_pot_path: path, ..b }) && c is Nothing,
        Message::CreateProject => {
            let name = trim(b.new_project_name@);
            if name.len() == 0 {
                with_status(b, a, "Enter a project name."@) && c is Nothing
            } else {
                match b.new_project_pot_path {
                    None => with_status(b, a, "Pick a .pot file first."@) && c is Nothing,
                    Some(pot) => a == (LexitoApp { creating_project: true, status: a.status, ..b })
                        && a.status@ == "Creating project\u{2026}"@ && (c matches Command::CreateProject { name: n, pot_path }
                        && n@ == name && pot_path == pot),
                }
            }
        },
        Message::ProjectCreated(Ok((project, dir))) => a == (LexitoApp {
            creating_project: false,
            status: a.status,
            current_project: Some(project),
            current_project_dir: Some(dir),
            language_stats: a.language_stats,
            new_project_name: a.new_project_name,
            new_project_pot_path: None,
            screen: AppScreen::ProjectDashboard,
            ..b
        }) && a.language_stats@.len() == 0 && a.new_project_name@.len() == 0 && a.status@ == "Created project: "@
            + project.project.name@ && c is ListProjects,
        Message::ProjectCreated(Err(e)) => a == (LexitoApp { creating_project: false, status: a.status, ..b })
            && a.status@ == "Failed to create project: "@ + e@ && c is Nothing,
        Message::AddLanguage(locale) => a == b && if b.current_project is Some && b.current_project_dir is Some {
            c matches Command::AddLanguage(code) && code@ == locale.code@
        } else {
            c is Nothing
        },
        Message::LanguageAdded(Ok((project, locale, texts))) => {
            let kept = LexitoApp { current_project: Some(project), ..b };
            &&& a == (LexitoApp { current_project: Some(project), language_stats: a.language_stats, status: a.status, ..b })
            &&& refreshed_stats(kept, texts@, a.language_stats@)
            &&& a.status@ == "Added language: "@ + locale@ + " ("@ + decimal(a.language_stats@.len()) + " language stats loaded)"@
            &&& c is Nothing
        },
        Message::LanguageAdded(Err(e)) => with_status(b, a, "Failed to add language: "@ + e@) && c is Nothing,
        Message::RemoveLanguage(locale) => match (b.current_project, b.current_project_dir) {
            (Some(p), Some(_)) => {
                &&& a == (LexitoApp { current_project: a.current_project, ..b })
                &&& a.current_project matches Some(p2) && p2.languages@ == crate::project::without_locale(p.languages@, locale@)
                    && p2.project == p.project && p2.source == p.source
                &&& c matches Command::RemoveLanguageFiles { locale: l, po_file } && l == locale && opt_view(po_file)
                    == match first_language(p.languages@, locale@) {
                    Some(i) => Some(p.languages@[i].po_file@),
                    None => None,
                }
            },
            _ => a == b && c is Nothing,
        },
        Message::LanguageRemoved { locale, result: Ok(texts) } => a == (LexitoApp {
            language_stats: a.language_stats,
            status: a.status,
            ..b
        }) && refreshed_stats(b, texts@, a.language_stats@) && a.status@ == "Removed language: "@ + locale@ && c is Nothing,
        Message::LanguageRemoved { locale, result: Err(e) } => with_status(b, a, "Failed to remove language: "@ + e@)
            && c is Nothing,
        Message::OpenLanguage(locale) => match b.current_project {
            None => with_status(b, a, "No project loaded."@) && c is Nothing,
            Some(p) => match b.current_project_dir {
                None => with_status(b, a, "No project directory set."@) && c is Nothing,
                Some(d) => match first_language(p.languages@, locale@) {
                    None => with_status(b, a, "No .po file configured for '"@ + locale@ + "'"@) && c is Nothing,
                    Some(i) => with_status(b, a, "Loading translations\u{2026}"@) && (c matches Command::OpenLanguage {
                        po_path,
                        locale: l,
                    } && po_path@ == path_join(d@, p.languages@[i].po_file@) && l == locale),
                },
            },
        },
        Message::LanguageFileMissing(path) => with_status(b, a, "PO file does not exist: "@ + path@) && c is Nothing,
        Message::LanguageOpened(Ok((path, text, locale))) => c is Nothing && match crate::catalog::parse_outcome(text@) {
            Ok(f) => a.status@ == "Translations loaded."@ && a == (LexitoApp {
                status: a.status,
                workspace: a.workspace,
                current_language: Some(locale),
                screen: AppScreen::Workspace,
                ..b
            }) && (a.workspace.catalog matches Some(d) && d.contents() == f
                && d.opened(crate::model::CatalogSourceKind::Po, path@, Some(path@))
                && crate::workspace::reselected(
                Workspace { catalog: a.workspace.catalog, locale_input: locale, ..b.workspace },
                a.workspace,
                crate::workspace::first_visible_key(doc_entries_of(a.workspace), b.workspace.filter),
            )),
            Err(m) => a == (LexitoApp { status: a.status, ..b })
                && a.status@ == "Failed to open translations: "@ + "failed to parse gettext catalog: "@ + m,
        },
        Message::LanguageOpened(Err(e)) => with_status(b, a, "Failed to open translations: "@ + e@) && c is Nothing,
        Message::OpenProjectFolder => a == b && match b.current_project_dir {
            Some(d) => c matches Command::OpenFolder(d2) && d2 == d,
            None => c is Nothing,
        },
        Message::KeyPressed { key, command } => if b.screen != AppScreen::Workspace {
            a == b && c is Nothing
        } else {
            match key {
                Key::ArrowDown => if !command { step_done(b, a, c, true) } else { a == b && c is Nothing },
                Key::ArrowUp => if !command { step_done(b, a, c, false) } else { a == b && c is Nothing },
                Key::Enter => if command { local_edit_done(b, a, c) } else { a == b && c is Nothing },
                Key::Character(ch) => if command && ch@ == "s"@ {
                    save_done(b, a, c)
                } else if command && ch@ == "t"@ {
                    translate_done(b, a, c)
                } else {
                    a == b && c is Nothing
                },
                Key::Other => a == b && c is Nothing,
            }
        },
        Message::SelectNextEntry => step_done(b, a, c, true),
        Message::SelectPrevEntry => step_done(b, a, c, false),
        Message::SavePressed => save_done(b, a, c),
        Message::SavePathPicked(path) => a == b && match (b.workspace.catalog, path) {
            (Some(d), Some(p)) => save_command(d, Some(p), c),
            _ => c is Nothing,
        },
        Message::CatalogSaved(Ok(outcome)) => a == (LexitoApp { workspace: a.workspace, status: a.status, ..b })
            && a.status@ == saved_status(outcome) && c is Nothing && match b.workspace.catalog {
            None => a.workspace == b.workspace,
            Some(d) => a.workspace == (Workspace { catalog: a.workspace.catalog, ..b.workspace })
                && (a.workspace.catalog matches Some(d2) && opt_view(d2.state().po_path) == Some(outcome.po_path@)
                && !d2.state().dirty && d2.contents() == d.contents() && d2.state().entries == d.state().entries
                && d2.state().last_compiled_mo == match outcome.mo_path {
                Some(mo) => Some(mo),
                None => d.state().last_compiled_mo,
            }),
        },
        Message::CatalogSaved(Err(e)) => with_status(b, a, "Save failed: "@ + e@) && c is Nothing,
        Message::SelectEntry(key) => a == (LexitoApp { workspace: a.workspace, ..b })
            && crate::workspace::reselected(b.workspace, a.workspace, Some(key@)) && a.workspace.selected_key == Some(key)
            && c is Nothing,
        Message::FilterSelected(f) => a == (LexitoApp { workspace: a.workspace, ..b }) && crate::workspace::reselected(
            Workspace { filter: f, ..b.workspace },
            a.workspace,
            crate::workspace::first_visible_key(b.workspace.entries(), f),
        ) && c is Nothing,
        Message::SingularChanged(v) => a == (LexitoApp { workspace: Workspace { singular_input: v, ..b.workspace }, ..b })
            && c is Nothing,
        Message::PluralChanged(i, v) => c is Nothing && if i < b.workspace.plural_inputs@.len() {
            a == (LexitoApp { workspace: a.workspace, ..b }) && a.workspace == (Workspace {
                plural_inputs: a.workspace.plural_inputs,
                ..b.workspace
            }) && a.workspace.plural_inputs@ == b.workspace.plural_inputs@.update(i as int, v)
        } else {
            a == b
        },
        Message::ApplyLocalEdit => local_edit_done(b, a, c),
        Message::ToggleSelectedFuzzy => workspace_step(b, a, crate::workspace::toggle_status(b.workspace))
            && crate::workspace::toggle_effect(b.workspace, a.workspace) && c is Nothing,
        Message::TranslateSelectedPressed => translate_done(b, a, c),
        Message::ClientUnavailable(msg) => with_status(b, a, msg@) && c is Nothing,
        Message::SingleTranslationFinished(Ok(out)) => workspace_step(
            b,
            a,
            crate::workspace::ai_status(b.workspace, out.key@, out.response@),
        ) && crate::workspace::ai_effect(b.workspace, a.workspace, out.key@, out.response@) && c is Nothing,
        Message::SingleTranslationFinished(Err(e)) => with_status(b, a, "AI translation failed: "@ + e@) && c is Nothing,
        Message::BatchTranslateUntranslated => batch_request_done(b, a, c, EntryFilter::Untranslated),
        Message::BatchTranslateFuzzy => batch_request_done(b, a, c, EntryFilter::Fuzzy),
        Message::BatchClientReady { filter, locale } => {
            let v = crate::workspace::visible(b.workspace.entries(), filter);
            if v.len() == 0 {
                with_status(b, a, "No entries match the selected batch filter."@) && c is Nothing
            } else {
                a == (LexitoApp { workspace: Workspace { batch_running: true, ..b.workspace }, ..b })
                    && (c matches Command::RunBatch(items) && crate::client::items_view(items@)
                    == crate::workspace::entry_requests(v, locale@))
            }
        },
        Message::ApproveAllFuzzy => workspace_step(b, a, crate::workspace::approve_status(b.workspace))
            && crate::workspace::approve_effect(b.workspace, a.workspace) && c is Nothing,
        Message::BatchProgress(BatchProgressEvent::Started { total }) => a == (LexitoApp {
            workspace: Workspace { batch_total: total, batch_completed: 0, ..b.workspace },
            status: a.status,
            ..b
        }) && a.status@ == "Translating "@ + decimal(total as nat) + " entries\u{2026}"@ && c is Nothing,
        Message::BatchProgress(BatchProgressEvent::Item { completed, total, item }) => {
            let mid = Workspace { batch_completed: completed, batch_total: total, ..b.workspace };
            &&& c is Nothing
            &&& match item.result {
                Ok(response) => workspace_step(b, a, crate::workspace::ai_status(mid, item.key@, response@))
                    && crate::workspace::ai_effect(mid, a.workspace, item.key@, response@),
                Err(e) => a == (LexitoApp { workspace: mid, status: a.status, ..b }) && a.status@ == "Translating: "@
                    + decimal(completed as nat) + "/"@ + decimal(total as nat) + ". Last error: "@ + e@,
            }
        },
        Message::BatchProgress(BatchProgressEvent::Finished { completed, total }) => a == (LexitoApp {
            workspace: Workspace { batch_running: false, batch_total: 0, batch_completed: 0, ..b.workspace },
            status: a.status,
            ..b
        }) && a.status@ == "Batch translation finished: "@ + decimal(completed as nat) + "/"@ + decimal(total as nat) + "."@
            && c is Nothing,
        Message::CancelBatch => if b.workspace.batch_running {
            a == (LexitoApp {
                workspace: Workspace {
                    batch_running: false,
                    batch_total: 0,
                    batch_completed: 0,
                    spinner_tick: 0,
                    ..b.workspace
                },
                status: a.status,
                ..b
            }) && a.status@ == "Batch translation canceled."@ && c is AbortBatch
        } else {
            a == b && c is Nothing
        },
        Message::SpinnerTick => a == (LexitoApp {
            workspace: Workspace { spinner_tick: crate::workspace::wrapped_next(b.workspace.spinner_tick), ..b.workspace },
            ..b
        }) && c is Nothing,
        Message::SelectProvider(id) => a == (LexitoApp {
            settings: AppSettings { active_provider_id: Some(id), ..b.settings },
            editing_provider: None,
            status: a.status,
            ..b
        }) && a.status@ == "Active provider switched."@ && c is Nothing,
        Message::EditProvider { id, stored_key } => match provider_index(b.settings.providers@, id) {
            None => a == b && c is Nothing,
            Some(i) => {
                let p = b.settings.providers@[i];
                let has_key = stored_key@.len() > 0;
                &&& a == (LexitoApp {
                    editing_provider: Some(ProviderDraft {
                        id: Some(id),
                        name: p.name,
                        provider_type: p.provider_type,
                        model: p.model,
                        api_key: stored_key,
                    }),
                    available_models: a.available_models,
                    models_error: None,
                    models_loading: if has_key { true } else { b.models_loading },
                    ..b
                })
                &&& a.available_models@.len() == 0
                &&& if has_key {
                    c matches Command::FetchModels { provider_type, api_key } && provider_type == p.provider_type
                        && api_key == stored_key
                } else {
                    c is Nothing
                }
            },
        },
        Message::AddProvider => a == (LexitoApp {
            editing_provider: a.editing_provider,
            available_models: a.available_models,
            models_error: None,
            ..b
        }) && a.available_models@.len() == 0 && (a.editing_provider matches Some(d) && d.id is None && d.name@ == "OpenAI"@
            && d.provider_type == ProviderType::OpenAI && d.model@.len() == 0 && d.api_key@.len() == 0 && c is Nothing),
        Message::RemoveProvider(id) => a == (LexitoApp {
            settings: a.settings,
            editing_provider: if b.editing_provider matches Some(d) && d.id == Some(id) {
                None
            } else {
                b.editing_provider
            },
            status: a.status,
            ..b
        }) && a.settings.providers@ == crate::settings::without_provider(b.settings.providers@, id)
            && a.settings.active_provider_id == (if b.settings.active_provider_id == Some(id) {
            if a.settings.providers@.len() > 0 { Some(a.settings.providers@[0].id) } else { None }
        } else {
            b.settings.active_provider_id
        }) && a.settings.theme == b.settings.theme && a.settings.translation == b.settings.translation
            && a.settings.last_opened_path == b.settings.last_opened_path && a.status@ == "Provider removed."@ && c is Nothing,
        Message::CancelEditProvider => a == (LexitoApp {
            editing_provider: None,
            available_models: a.available_models,
            models_error: None,
            ..b
        }) && a.available_models@.len() == 0 && c is Nothing,
        Message::DraftNameChanged(v) => c is Nothing && match b.editing_provider {
            Some(d) => a == (LexitoApp { editing_provider: Some(ProviderDraft { name: v, ..d }), ..b }),
            None => a == b,
        },
        Message::DraftProviderTypeChanged(t) => match b.editing_provider {
            Some(d) => {
                let has_key = d.api_key@.len() > 0;
                &&& a == (LexitoApp {
                    editing_provider: a.editing_provider,
                    available_models: a.available_models,
                    models_error: None,
                    models_loading: if has_key { true } else { b.models_loading },
                    ..b
                })
                &&& a.editing_provider matches Some(d2) && d2 == (ProviderDraft { provider_type: t, model: d2.model, ..d })
                    && d2.model@.len() == 0
                &&& a.available_models@.len() == 0
                &&& if has_key {
                    c matches Command::FetchModels { provider_type, api_key } && provider_type == t && api_key == d.api_key
                } else {
                    c is Nothing
                }
            },
            None => a == b && c is Nothing,
        },
        Message::DraftApiKeyChanged(v) => c is Nothing && match b.editing_provider {
            Some(d) => a == (LexitoApp { editing_provider: Some(ProviderDraft { api_key: v, ..d }), ..b }),
            None => a == b,
        },
        Message::DraftModelSelected(info) => c is Nothing && match b.editing_provider {
            Some(d) => a == (LexitoApp { editing_provider: Some(ProviderDraft { model: info.id, ..d }), ..b }),
            None => a == b,
        },
        Message::FetchModels => match b.editing_provider {
            Some(d) => if trim(d.api_key@).len() == 0 {
                with_status(b, a, "Enter an API key first."@) && c is Nothing
            } else {
                a == (LexitoApp { models_loading: true, models_error: None, ..b }) && (c matches Command::FetchModels {
                    provider_type,
                    api_key,
                } && provider_type == d.provider_type && api_key == d.api_key)
            },
            None => a == b && c is Nothing,
        },
        Message::ModelsFetched(Ok(models)) => a == (LexitoApp {
            models_loading: false,
            status: a.status,
            available_models: models,
            models_error: None,
            ..b
        }) && a.status@ == "Fetched "@ + decimal(models@.len()) + " models."@ && c is Nothing,
        Message::ModelsFetched(Err(e)) => a == (LexitoApp {
            models_loading: false,
            available_models: a.available_models,
            models_error: Some(e),
            status: a.status,
            ..b
        }) && a.available_models@.len() == 0 && a.status@ == "Failed to fetch models: "@ + e@ && c is Nothing,
        Message::SaveProvider => a == b && match b.editing_provider {
            Some(d) => c matches Command::SaveProvider { draft, settings } && draft == d && settings.providers@
                == b.settings.providers@ && settings.active_provider_id == b.settings.active_provider_id
                && settings.translation == b.settings.translation && settings.theme == b.settings.theme
                && settings.last_opened_path == b.settings.last_opened_path,
            None => c is Nothing,
        },
        Message::ProviderSaved(Ok(settings)) => a == (LexitoApp {
            settings,
            editing_provider: None,
            available_models: a.available_models,
            status: a.status,
            ..b
        }) && a.available_models@.len() == 0 && a.status@ == "Provider saved."@ && c is Nothing,
        Message::ProviderSaved(Err(e)) => with_status(b, a, "Provider save failed: "@ + e@) && c is Nothing,
        Message::ThemePreferenceChanged(t) => a == (LexitoApp { theme_preference: t, ..b }) && c is Nothing,
        Message::TemperatureChanged(v) => a == (LexitoApp { temperature_input: v, ..b }) && c is Nothing,
        Message::TimeoutChanged(v) => a == (LexitoApp { timeout_input: v, ..b }) && c is Nothing,
        Message::ConcurrencyChanged(v) => a == (LexitoApp { concurrency_input: v, ..b }) && c is Nothing,
        Message::DefaultLocaleChanged(locale) => a == (LexitoApp { default_locale_input: a.default_locale_input, ..b })
            && a.default_locale_input@ == locale.code@ && c is Nothing,
        Message::SystemPromptChanged(v) => a == (LexitoApp { system_prompt_input: v, ..b }) && c is Nothing,
        Message::AutoCompileToggled(v) => a == (LexitoApp { auto_compile_on_save: v, ..b }) && c is Nothing,
        Message::SaveSettingsPressed { temperature_ok } => match preferences_outcome(b, temperature_ok) {
            Err(e) => with_status(b, a, e) && c is Nothing,
            Ok(p) => a == b && (c matches Command::SaveSettings(settings) && settings.providers@ == b.settings.providers@
                && settings.active_provider_id == b.settings.active_provider_id && prefs_view(settings.translation) == p
                && settings.theme == b.theme_preference && settings.last_opened_path == b.settings.last_opened_path),
        },
        Message::SettingsSaved(Ok(settings)) => a == (LexitoApp { settings, status: a.status, ..b })
            && a.status@ == "Settings saved."@ && c is Nothing,
        Message::SettingsSaved(Err(e)) => with_status(b, a, "Settings save failed: "@ + e@) && c is Nothing,
    }
}

/// The entries of a workspace's catalog.
pub open spec fn doc_entries_of(w: Workspace) -> Seq<crate::model::EntryModel> {
    w.entries()
}

impl LexitoApp {
    fn set_status(&mut self, status: String)
        ensures
            *final(self) == (LexitoApp { status, ..*old(self) }),
    {
        self.status = status;
    }

    fn apply_status(&mut self, st: Option<String>)
        ensures
            *final(self) == (LexitoApp { status: final(self).status, ..*old(self) }),
            final(self).status@ == status_after(old(self).status@, opt_view(st)),
    {
        if let Some(s) = st {
            self.status = s;
        }
    }

    fn stats_command(&self) -> (c: Command)
        ensures
            stats_command(*self, c),
    {
        match (&self.current_project, &self.current_project_dir) {
            (Some(p), Some(d)) => Command::LoadLanguageStats(p.language_po_paths(d.as_str())),
            _ => Command::Nothing,
        }
    }

    fn refresh_stats(&mut self, texts: &Vec<Option<String>>)
        ensures
            *final(self) == (LexitoApp { language_stats: final(self).language_stats, ..*old(self) }),
            refreshed_stats(*old(self), texts@, final(self).language_stats@),
    {
        let stats = match (&self.current_project, &self.current_project_dir) {
            (Some(p), Some(_)) => if texts.len() == p.languages.len() {
                p.load_language_stats(texts)
            } else {
                let v: Vec<(String, CatalogStats)> = Vec::new();
                assert(stats_view(v@) =~= language_stats(p.languages@, texts@));
                v
            },
            _ => return,
        };
        self.language_stats = stats;
    }

    fn on_step(&mut self, down: bool) -> (c: Command)
        ensures
            step_done(*old(self), *final(self), c, down),
    {
        if down {
            self.workspace.select_next_entry();
        } else {
            self.workspace.select_prev_entry();
        }
        match self.workspace.scroll_position() {
            Some((position, count)) => Command::ScrollTo { position, count },
            None => Command::Nothing,
        }
    }

    fn on_save(&mut self) -> (c: Command)
        ensures
            save_done(*old(self), *final(self), c),
    {
        match &self.workspace.catalog {
            None => Command::Nothing,
            Some(d) => if d.session().po_path.is_some() {
                match d.render_save(None, true) {
                    Ok(saved) => Command::SaveCatalog(saved),
                    Err(_) => Command::Nothing,
                }
            } else {
                Command::PickSavePath
            },
        }
    }

    fn on_local_edit(&mut self) -> (c: Command)
        requires
            old(self).inv(),
        ensures
            final(self).inv(),
            local_edit_done(*old(self), *final(self), c),
    {
        let st = self.workspace.apply_local_edit();
        self.apply_status(st);
        Command::Nothing
    }

    fn on_translate(&mut self) -> (c: Command)
        ensures
            translate_done(*old(self), *final(self), c),
    {
        match self.workspace.translation_request(self.default_locale_input.as_str()) {
            Ok(request) => {
                self.status = String::from_str("Requesting AI translation...");
                Command::Translate(request)
            },
            Err(s) => {
                self.status = s;
                Command::Nothing
            },
        }
    }

    fn on_batch_request(&mut self, filter: EntryFilter) -> (c: Command)
        ensures
            batch_request_done(*old(self), *final(self), c, filter),
    {
        match self.workspace.batch_target_locale(self.default_locale_input.as_str()) {
            Ok(locale) => Command::PrepareBatch { filter, locale },
            Err(s) => {
                self.status = s;
                Command::Nothing
            },
        }
    }

    fn on_key(&mut self, key: Key, command: bool) -> (c: Command)
        requires
            old(self).inv(),
        ensures
            final(self).inv(),
            handled(*old(self), Message::KeyPressed { key, command }, *final(self), c),
    {
        if self.screen != AppScreen::Workspace {
            return Command::Nothing;
        }
        match key {
            Key::ArrowDown => if !command { self.on_step(true) } else { Command::Nothing },
            Key::ArrowUp => if !command { self.on_step(false) } else { Command::Nothing },
            Key::Enter => if command { self.on_local_edit() } else { Command::Nothing },
            Key::Character(ch) => {
                if command && crate::text::str_eq(ch.as_str(), "s") {
                    self.on_save()
                } else if command && crate::text::str_eq(ch.as_str(), "t") {
                    self.on_translate()
                } else {
                    Command::Nothing
                }
            },
            Key::Other => Command::Nothing,
        }
    }
}

/// Which part of the editor a message concerns: projects and languages (0),
/// the catalog workspace (1), providers (2), preferences (3).
pub open spec fn message_group(m: Message) -> int {
    match m {
        Message::GoToProjects | Message::ProjectsListed(_) | Message::GoToDashboard | Message::LanguageStatsLoaded(_)
        | Message::GoToSettings | Message::SaveAndGo | Message::ConfirmDiscard | Message::CancelNavigation
        | Message::OpenProject(_) | Message::ProjectLoaded(_) | Message::DeleteProject(_)
        | Message::ProjectDeleted { .. } | Message::NewProjectNameChanged(_) | Message::PickPotFile
        | Message::PotFilePicked(_) | Message::CreateProject | Message::ProjectCreated(_) | Message::AddLanguage(_)
        | Message::LanguageAdded(_) | Message::RemoveLanguage(_) | Message::LanguageRemoved { .. }
        | Message::OpenLanguage(_) | Message::LanguageFileMissing(_) | Message::LanguageOpened(_)
        | Message::OpenProjectFolder => 0,
        Message::SelectProvider(_) | Message::EditProvider { .. } | Message::AddProvider | Message::RemoveProvider(_)
        | Message::CancelEditProvider | Message::DraftNameChanged(_) | Message::DraftProviderTypeChanged(_)
        | Message::DraftApiKeyChanged(_) | Message::DraftModelSelected(_) | Message::FetchModels
        | Message::ModelsFetched(_) | Message::SaveProvider | Message::ProviderSaved(_) => 2,
        Message::ThemePreferenceChanged(_) | Message::TemperatureChanged(_) | Message::TimeoutChanged(_)
        | Message::ConcurrencyChanged(_) | Message::DefaultLocaleChanged(_) | Message::SystemPromptChanged(_)
        | Message::AutoCompileToggled(_) | Message::SaveSettingsPressed { .. } | Message::SettingsSaved(_) => 3,
        _ => 1,
    }
}

impl LexitoApp {
    #[verifier::spinoff_prover]
    #[verifier::rlimit(60)]
    fn on_project_message(&mut self, message: Message) -> (c: Command)
        requires
            old(self).inv(),
            message_group(message) == 0,
        ensures
            final(self).inv(),
            handled(*old(self), message, *final(self), c),
    {
        match message {
            Message::GoToProjects => {
                self.screen = AppScreen::ProjectList;
                self.workspace.catalog = None;
                self.current_language = None;
                Command::ListProjects
            },
            Message::ProjectsListed(list) => {
                self.projects = list;
                Command::Nothing
            },
            Message::GoToDashboard => {
                self.screen = AppScreen::ProjectDashboard;
                self.workspace.catalog = None;
                self.current_language = None;
                self.stats_command()
            },
            Message::LanguageStatsLoaded(texts) => {
                self.refresh_stats(&texts);
                Command::Nothing
            },
            Message::GoToSettings => {
                self.screen = AppScreen::Settings;
                Command::Nothing
            },
            Message::SaveAndGo | Message::ConfirmDiscard | Message::CancelNavigation => Command::Nothing,
            Message::OpenProject(dir) => {
                self.status = String::from_str("Loading project\u{2026}");
                Command::LoadProject(dir)
            },
            Message::ProjectLoaded(Ok((project, dir, texts))) => {
                let stats = if texts.len() == project.languages.len() {
                    project.load_language_stats(&texts)
                } else {
                    let v: Vec<(String, CatalogStats)> = Vec::new();
                    assert(stats_view(v@) =~= language_stats(project.languages@, texts@));
                    v
                };
                self.status = String::from_str("Opened project: ").concat(project.project.name.as_str());
                self.current_project = Some(project);
                self.current_project_dir = Some(dir);
                self.language_stats = stats;
                self.screen = AppScreen::ProjectDashboard;
                Command::Nothing
            },
            Message::ProjectLoaded(Err(e)) => {
                self.status = String::from_str("Failed to open project: ").concat(e.as_str());
                Command::Nothing
            },
            Message::DeleteProject(dir) => Command::DeleteProject(dir),
            Message::ProjectDeleted { dir, result } => {
                match result {
                    Err(e) => {
                        self.status = String::from_str("Failed to delete project: ").concat(e.as_str());
                    },
                    Ok(list) => {
                        self.status = String::from_str("Project deleted.");
                        self.projects = list;
                        let gone = match &self.current_project_dir {
                            Some(d) => crate::text::str_eq(d.as_str(), dir.as_str()),
                            None => false,
                        };
                        if gone {
                            self.current_project = None;
                            self.current_project_dir = None;
                        }
                    },
                }
                Command::Nothing
            },
            Message::NewProjectNameChanged(name) => {
                self.new_project_name = name;
                Command::Nothing
            },
            Message::PickPotFile => Command::PickPotFile,
            Message::PotFilePicked(path) => {
                self.new_project_pot_path = path;
                Command::Nothing
            },
            Message::CreateProject => {
                let name = trim_str(self.new_project_name.as_str());
                if name.as_str().is_empty() {
                    self.status = String::from_str("Enter a project name.");
                    return Command::Nothing;
                }
                let pot_path = match &self.new_project_pot_path {
                    Some(p) => p.clone(),
                    None => {
                        self.status = String::from_str("Pick a .pot file first.");
                        return Command::Nothing;
                    },
                };
                self.creating_project = true;
                self.status = String::from_str("Creating project\u{2026}");
                Command::CreateProject { name, pot_path }
            },
            Message::ProjectCreated(result) => {
                self.creating_project = false;
                match result {
                    Ok((project, dir)) => {
                        self.status = String::from_str("Created project: ").concat(project.project.name.as_str());
                        self.current_project = Some(project);
                        self.current_project_dir = Some(dir);
                        self.language_stats = Vec::new();
                        self.new_project_name = String::new();
                        self.new_project_pot_path = None;
                        self.screen = AppScreen::ProjectDashboard;
                        Command::ListProjects
                    },
                    Err(e) => {
                        self.status = String::from_str("Failed to create project: ").concat(e.as_str());
                        Command::Nothing
                    },
                }
            },
            Message::AddLanguage(locale) => {
                if self.current_project.is_some() && self.current_project_dir.is_some() {
                    Command::AddLanguage(String::from_str(locale.code))
                } else {
                    Command::Nothing
                }
            },
            Message::LanguageAdded(Ok((project, locale, texts))) => {
                self.current_project = Some(project);
                self.refresh_stats(&texts);
                let count: u64 = self.language_stats.len() as u64;
                self.status = String::from_str("Added language: ").concat(locale.as_str()).concat(" (").concat(
                    decimal_string(count).as_str(),
                ).concat(" language stats loaded)");
                Command::Nothing
            },
            Message::LanguageAdded(Err(e)) => {
                self.status = String::from_str("Failed to add language: ").concat(e.as_str());
                Command::Nothing
            },
            Message::RemoveLanguage(locale) => {
                if self.current_project_dir.is_none() {
                    return Command::Nothing;
                }
                match &mut self.current_project {
                    Some(p) => {
                        let po_file = p.remove_language(locale.as_str());
                        Command::RemoveLanguageFiles { locale, po_file }
                    },
                    None => Command::Nothing,
                }
            },
            Message::LanguageRemoved { locale, result } => {
                match result {
                    Ok(texts) => {
                        self.refresh_stats(&texts);
                        self.status = String::from_str("Removed language: ").concat(locale.as_str());
                    },
                    Err(e) => {
                        self.status = String::from_str("Failed to remove language: ").concat(e.as_str());
                    },
                }
                Command::Nothing
            },
            Message::OpenLanguage(locale) => {
                let project = match &self.current_project {
                    Some(p) => p,
                    None => {
                        self.status = String::from_str("No project loaded.");
                        return Command::Nothing;
                    },
                };
                let dir = match &self.current_project_dir {
                    Some(d) => d,
                    None => {
                        self.status = String::from_str("No project directory set.");
                        return Command::Nothing;
                    },
                };
                match project.po_path(locale.as_str(), dir.as_str()) {
                    Some(po_path) => {
                        self.status = String::from_str("Loading translations\u{2026}");
                        Command::OpenLanguage { po_path, locale }
                    },
                    None => {
                        self.status = String::from_str("No .po file configured for '").concat(locale.as_str()).concat("'");
                        Command::Nothing
                    },
                }
            },
            Message::LanguageFileMissing(path) => {
                self.status = String::from_str("PO file does not exist: ").concat(path.as_str());
                Command::Nothing
            },
            Message::LanguageOpened(Ok((path, text, locale))) => {
                match CatalogDocument::open_po(path.as_str(), text.as_str()) {
                    Ok(document) => {
                        self.workspace.locale_input = locale.clone();
                        self.current_language = Some(locale);
                        self.workspace.catalog = Some(document);
                        self.workspace.select_first_visible_entry();
                        self.screen = AppScreen::Workspace;
                        self.status = String::from_str("Translations loaded.");
                    },
                    Err(e) => {
                        self.status = String::from_str("Failed to open translations: ").concat(e.message().as_str());
                        proof {
                            if let crate::error::CatalogError::Parse(mm) = e {
                                assert(self.status@ =~= "Failed to open translations: "@ + "failed to parse gettext catalog: "@ + mm@);
                            }
                        }
                    },
                }
                Command::Nothing
            },
            Message::LanguageOpened(Err(e)) => {
                self.status = String::from_str("Failed to open translations: ").concat(e.as_str());
                Command::Nothing
            },
            Message::OpenProjectFolder => match &self.current_project_dir {
                Some(d) => Command::OpenFolder(d.clone()),
                None => Command::Nothing,
            },
            _ => Command::Nothing,
        }
    }
}

impl LexitoApp {
    #[verifier::spinoff_prover]
    #[verifier::rlimit(60)]
    fn on_workspace_message(&mut self, message: Message) -> (c: Command)
        requires
            old(self).inv(),
            message_group(message) == 1,
        ensures
            final(self).inv(),
            handled(*old(self), message, *final(self), c),
    {
        match message {
            Message::KeyPressed { key, command } => self.on_key(key, command),
            Message::SelectNextEntry => self.on_step(true),
            Message::SelectPrevEntry => self.on_step(false),
            Message::SavePressed => self.on_save(),
            Message::SavePathPicked(path) => match (&self.workspace.catalog, path) {
                (Some(d), Some(p)) => match d.render_save(Some(p), true) {
                    Ok(saved) => Command::SaveCatalog(saved),
                    Err(_) => Command::Nothing,
                },
                _ => Command::Nothing,
            },
            Message::CatalogSaved(Ok(outcome)) => {
                let mut status = String::from_str("Saved ").concat(outcome.po_path.as_str());
                if let Some(mo) = &outcome.mo_path {
                    status = status.concat(" and compiled ").concat(mo.as_str());
                }
                assert(status@ =~= saved_status(outcome));
                if self.workspace.catalog.is_some() {
                    let mut d = self.workspace.catalog.take().unwrap();
                    d.record_save(&outcome);
                    self.workspace.catalog = Some(d);
                }
                self.status = status;
                Command::Nothing
            },
            Message::CatalogSaved(Err(e)) => {
                self.status = String::from_str("Save failed: ").concat(e.as_str());
                Command::Nothing
            },
            Message::SelectEntry(key) => {
                self.workspace.select_entry(key);
                Command::Nothing
            },
            Message::FilterSelected(filter) => {
                self.workspace.select_filter(filter);
                Command::Nothing
            },
            Message::SingularChanged(v) => {
                self.workspace.singular_input = v;
                Command::Nothing
            },
            Message::PluralChanged(i, v) => {
                self.workspace.set_plural_input(i, v);
                Command::Nothing
            },
            Message::ApplyLocalEdit => self.on_local_edit(),
            Message::ToggleSelectedFuzzy => {
                let st = self.workspace.toggle_selected_fuzzy();
                self.apply_status(st);
                Command::Nothing
            },
            Message::TranslateSelectedPressed => self.on_translate(),
            Message::ClientUnavailable(msg) => {
                self.status = msg;
                Command::Nothing
            },
            Message::SingleTranslationFinished(Ok(out)) => {
                let st = self.workspace.apply_ai_translation(out.key, out.response);
                self.apply_status(st);
                Command::Nothing
            },
            Message::SingleTranslationFinished(Err(e)) => {
                self.status = String::from_str("AI translation failed: ").concat(e.as_str());
                Command::Nothing
            },
            Message::BatchTranslateUntranslated => self.on_batch_request(EntryFilter::Untranslated),
            Message::BatchTranslateFuzzy => self.on_batch_request(EntryFilter::Fuzzy),
            Message::BatchClientReady { filter, locale } => match self.workspace.start_batch(filter, locale.as_str()) {
                Ok(items) => Command::RunBatch(items),
                Err(s) => {
                    self.status = s;
                    Command::Nothing
                },
            },
            Message::ApproveAllFuzzy => {
                let st = self.workspace.approve_all_fuzzy();
                self.apply_status(st);
                Command::Nothing
            },
            Message::BatchProgress(BatchProgressEvent::Started { total }) => {
                self.status = self.workspace.batch_started(total);
                Command::Nothing
            },
            Message::BatchProgress(BatchProgressEvent::Item { completed, total, item }) => {
                self.workspace.batch_completed = completed;
                self.workspace.batch_total = total;
                match item.result {
                    Ok(response) => {
                        let st = self.workspace.apply_ai_translation(item.key, response);
                        self.apply_status(st);
                    },
                    Err(e) => {
                        self.status = String::from_str("Translating: ").concat(decimal_string(completed as u64).as_str()).concat(
                            "/",
                        ).concat(decimal_string(total as u64).as_str()).concat(". Last error: ").concat(e.as_str());
                    },
                }
                Command::Nothing
            },
            Message::BatchProgress(BatchProgressEvent::Finished { completed, total }) => {
                self.status = self.workspace.batch_finished(completed, total);
                Command::Nothing
            },
            Message::CancelBatch => match self.workspace.cancel_batch() {
                Some(s) => {
                    self.status = s;
                    Command::AbortBatch
                },
                None => Command::Nothing,
            },
            Message::SpinnerTick => {
                self.workspace.spinner_step();
                Command::Nothing
            },
            _ => Command::Nothing,
        }
    }

    #[verifier::spinoff_prover]
    #[verifier::rlimit(60)]
    fn on_provider_message(&mut self, message: Message) -> (c: Command)
        requires
            old(self).inv(),
            message_group(message) == 2,
        ensures
            final(self).inv(),
            handled(*old(self), message, *final(self), c),
    {
        match message {
            Message::SelectProvider(id) => {
                self.settings.active_provider_id = Some(id);
                self.editing_provider = None;
                self.status = String::from_str("Active provider switched.");
                Command::Nothing
            },
            Message::EditProvider { id, stored_key } => {
                let i = match crate::settings::find_provider(&self.settings.providers, id) {
                    Some(i) => i,
                    None => return Command::Nothing,
                };
                let profile = self.settings.providers[i].duplicate();
                let has_key = !stored_key.as_str().is_empty();
                let provider_type = profile.provider_type;
                let api_key = stored_key.clone();
                self.editing_provider = Some(ProviderDraft {
                    id: Some(id),
                    name: profile.name,
                    provider_type,
                    model: profile.model,
                    api_key: stored_key,
                });
                self.available_models = Vec::new();
                self.models_error = None;
                if has_key {
                    self.models_loading = true;
                    Command::FetchModels { provider_type, api_key }
                } else {
                    Command::Nothing
                }
            },
            Message::AddProvider => {
                self.editing_provider = Some(ProviderDraft::default());
                self.available_models = Vec::new();
                self.models_error = None;
                Command::Nothing
            },
            Message::RemoveProvider(id) => {
                self.settings.remove_provider(id);
                let editing_it = match &self.editing_provider {
                    Some(d) => d.id == Some(id),
                    None => false,
                };
                if editing_it {
                    self.editing_provider = None;
                }
                self.status = String::from_str("Provider removed.");
                Command::Nothing
            },
            Message::CancelEditProvider => {
                self.editing_provider = None;
                self.available_models = Vec::new();
                self.models_error = None;
                Command::Nothing
            },
            Message::DraftNameChanged(v) => {
                if let Some(d) = &mut self.editing_provider {
                    d.name = v;
                }
                Command::Nothing
            },
            Message::DraftProviderTypeChanged(t) => {
                if self.editing_provider.is_none() {
                    return Command::Nothing;
                }
                let mut d = self.editing_provider.take().unwrap();
                d.provider_type = t;
                d.model = String::new();
                let has_key = !d.api_key.as_str().is_empty();
                let api_key = d.api_key.clone();
                self.editing_provider = Some(d);
                self.available_models = Vec::new();
                self.models_error = None;
                if has_key {
                    self.models_loading = true;
                    Command::FetchModels { provider_type: t, api_key }
                } else {
                    Command::Nothing
                }
            },
            Message::DraftApiKeyChanged(v) => {
                if let Some(d) = &mut self.editing_provider {
                    d.api_key = v;
                }
                Command::Nothing
            },
            Message::DraftModelSelected(info) => {
                if let Some(d) = &mut self.editing_provider {
                    d.model = info.id;
                }
                Command::Nothing
            },
            Message::FetchModels => {
                let (blank, provider_type, api_key) = match &self.editing_provider {
                    Some(d) => (is_blank(d.api_key.as_str()), d.provider_type, d.api_key.clone()),
                    None => return Command::Nothing,
                };
                if blank {
                    self.status = String::from_str("Enter an API key first.");
                    return Command::Nothing;
                }
                self.models_loading = true;
                self.models_error = None;
                Command::FetchModels { provider_type, api_key }
            },
            Message::ModelsFetched(Ok(models)) => {
                self.models_loading = false;
                let count: u64 = models.len() as u64;
                self.status = String::from_str("Fetched ").concat(decimal_string(count).as_str()).concat(" models.");
                self.available_models = models;
                self.models_error = None;
                Command::Nothing
            },
            Message::ModelsFetched(Err(e)) => {
                self.models_loading = false;
                self.available_models = Vec::new();
                self.status = String::from_str("Failed to fetch models: ").concat(e.as_str());
                self.models_error = Some(e);
                Command::Nothing
            },
            Message::SaveProvider => match &self.editing_provider {
                Some(d) => Command::SaveProvider { draft: d.duplicate(), settings: self.settings.duplicate() },
                None => Command::Nothing,
            },
            Message::ProviderSaved(Ok(settings)) => {
                self.settings = settings;
                self.editing_provider = None;
                self.available_models = Vec::new();
                self.status = String::from_str("Provider saved.");
                Command::Nothing
            },
            Message::ProviderSaved(Err(e)) => {
                self.status = String::from_str("Provider save failed: ").concat(e.as_str());
                Command::Nothing
            },
            _ => Command::Nothing,
        }
    }

    fn on_preference_message(&mut self, message: Message) -> (c: Command)
        requires
            old(self).inv(),
            message_group(message) == 3,
        ensures
            final(self).inv(),
            handled(*old(self), message, *final(self), c),
    {
        match message {
            Message::ThemePreferenceChanged(t) => {
                self.theme_preference = t;
                Command::Nothing
            },
            Message::TemperatureChanged(v) => {
                self.temperature_input = v;
                Command::Nothing
            },
            Message::TimeoutChanged(v) => {
                self.timeout_input = v;
                Command::Nothing
            },
            Message::ConcurrencyChanged(v) => {
                self.concurrency_input = v;
                Command::Nothing
            },
            Message::DefaultLocaleChanged(locale) => {
                self.default_locale_input = String::from_str(locale.code);
                Command::Nothing
            },
            Message::SystemPromptChanged(v) => {
                self.system_prompt_input = v;
                Command::Nothing
            },
            Message::AutoCompileToggled(v) => {
                self.auto_compile_on_save = v;
                Command::Nothing
            },
            Message::SaveSettingsPressed { temperature_ok } => match self.translation_preferences(temperature_ok) {
                Ok(translation) => {
                    let mut settings = self.settings.duplicate();
                    settings.translation = translation;
                    settings.theme = self.theme_preference;
                    Command::SaveSettings(settings)
                },
                Err(e) => {
                    self.status = e;
                    Command::Nothing
                },
            },
            Message::SettingsSaved(Ok(settings)) => {
                self.settings = settings;
                self.status = String::from_str("Settings saved.");
                Command::Nothing
            },
            Message::SettingsSaved(Err(e)) => {
                self.status = String::from_str("Settings save failed: ").concat(e.as_str());
                Command::Nothing
            },
            _ => Command::Nothing,
        }
    }

    /// Applies a message to the editor and gives the work it asks for;
    /// `handled` says what each message does. The open catalog stays well
    /// formed.
    pub fn update(&mut self, message: Message) -> (c: Command)
        requires
            old(self).inv(),
        ensures
            final(self).inv(),
            handled(*old(self), message, *final(self), c),
    {
        let group = message_kind(&message);
        if group == 0 {
            self.on_project_message(message)
        } else if group == 2 {
            self.on_provider_message(message)
        } else if group == 3 {
            self.on_preference_message(message)
        } else {
            self.on_workspace_message(message)
        }
    }
}

fn message_kind(m: &Message) -> (r: u8)
    ensures
        r as int == message_group(*m),
{
    match m {
        Message::GoToProjects | Message::ProjectsListed(_) | Message::GoToDashboard | Message::LanguageStatsLoaded(_)
        | Message::GoToSettings | Message::SaveAndGo | Message::ConfirmDiscard | Message::CancelNavigation
        | Message::OpenProject(_) | Message::ProjectLoaded(_) | Message::DeleteProject(_)
        | Message::ProjectDeleted { .. } | Message::NewProjectNameChanged(_) | Message::PickPotFile
        | Message::PotFilePicked(_) | Message::CreateProject | Message::ProjectCreated(_) | Message::AddLanguage(_)
        | Message::LanguageAdded(_) | Message::RemoveLanguage(_) | Message::LanguageRemoved { .. }
        | Message::OpenLanguage(_) | Message::LanguageFileMissing(_) | Message::LanguageOpened(_)
        | Message::OpenProjectFolder => 0,
        Message::SelectProvider(_) | Message::EditProvider { .. } | Message::AddProvider | Message::RemoveProvider(_)
        | Message::CancelEditProvider | Message::DraftNameChanged(_) | Message::DraftProviderTypeChanged(_)
        | Message::DraftApiKeyChanged(_) | Message::DraftModelSelected(_) | Message::FetchModels
        | Message::ModelsFetched(_) | Message::SaveProvider | Message::ProviderSaved(_) => 2,
        Message::ThemePreferenceChanged(_) | Message::TemperatureChanged(_) | Message::TimeoutChanged(_)
        | Message::ConcurrencyChanged(_) | Message::DefaultLocaleChanged(_) | Message::SystemPromptChanged(_)
        | Message::AutoCompileToggled(_) | Message::SaveSettingsPressed { .. } | Message::SettingsSaved(_) => 3,
        _ => 1,
    }
}

} // verus!
