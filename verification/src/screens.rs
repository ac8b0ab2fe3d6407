//! What each screen of the editor shows, as plain values: the entry list and
//! the entry being edited, the workspace header, the batch progress overlay,
//! the settings screen, the project dashboard and the project list. A front
//! end draws these; every choice of what appears is made here.
use vstd::prelude::*;
use crate::model::{
    CatalogEntry, CatalogStats, EntryKey, EntryModel, EntryStatus, KeyView, ValidationCode, blank, copy_opt,
    entries_view, opt_view, strs_view,
};
use crate::desktop::{
    EntryFilter, filter_label, language_count_label, language_count_text, largest_total, plural_form_label,
    plural_label_text, project_summary, spinner_frame, spinner_frames, status_label, status_text, summary_text,
    truncate, truncated,
};
use crate::workspace::{Workspace, opt_key, selected_model, visible};
use crate::prompt::{join_texts, joined};
use crate::text::{is_blank, str_eq};
use crate::locales::{Locale, find_locale, locale_index, locale_table, locale_view};
use crate::editor::{LexitoApp, Message};
use crate::settings::{ProviderProfile, ThemePreference, provider_label, theme_label};
use crate::models::ModelInfo;
use crate::project::ProjectLanguage;
use crate::paths::{file_name_of, path_file_name};

verus! {

// ── The entry list ─────────────────────────────────────────────────

/// A row of the entry list: the entry's key, its source text cut to 36
/// characters, its status, whether it is the selected entry and whether it
/// has warnings.
#[derive(Debug, Clone)]
pub struct EntryRow {
    pub key: EntryKey,
    pub label: String,
    pub status: EntryStatus,
    pub selected: bool,
    pub has_warnings: bool,
}

/// A row of the entry list as plain values.
pub struct RowModel {
    pub key: KeyView,
    pub label: Seq<char>,
    pub status: EntryStatus,
    pub selected: bool,
    pub has_warnings: bool,
}

impl View for EntryRow {
    type V = RowModel;

    open spec fn view(&self) -> RowModel {
        RowModel {
            key: self.key@,
            label: self.label@,
            status: self.status,
            selected: self.selected,
            has_warnings: self.has_warnings,
        }
    }
}

/// How the entry list shows an entry, given the selected key.
pub open spec fn row_model(e: EntryModel, selected: Option<KeyView>) -> RowModel {
    RowModel {
        key: e.key,
        label: truncated(e.msgid, 36),
        status: e.status,
        selected: selected == Some(e.key),
        has_warnings: e.warnings.len() > 0,
    }
}

/// The rows of a list of entries.
pub open spec fn rows_model(es: Seq<EntryModel>, selected: Option<KeyView>) -> Seq<RowModel> {
    es.map_values(|e: EntryModel| row_model(e, selected))
}

/// The plain values of a sequence of rows.
pub open spec fn rows_view(v: Seq<EntryRow>) -> Seq<RowModel> {
    v.map_values(|r: EntryRow| r@)
}

/// A filter button: the filter, its label, and whether it is the one in use.
#[derive(Debug, Clone, Copy)]
pub struct FilterPill {
    pub filter: EntryFilter,
    pub label: &'static str,
    pub active: bool,
}

/// The filters in the order the list offers them.
pub open spec fn filter_order() -> Seq<EntryFilter> {
    seq![EntryFilter::All, EntryFilter::Untranslated, EntryFilter::Fuzzy, EntryFilter::Warnings, EntryFilter::Obsolete]
}

/// The side panel of the workspace: where the catalog came from, the locale
/// chosen in the locale field, the statistics, the filters and the rows of
/// the entries the filter shows.
#[derive(Debug, Clone)]
pub struct WorkspaceSidebar {
    pub source: String,
    pub locale: Option<Locale>,
    pub stats: CatalogStats,
    pub filters: Vec<FilterPill>,
    pub rows: Vec<EntryRow>,
}

/// The filter buttons, in the order the list offers them.
pub open spec fn pills_ok(v: Seq<FilterPill>, current: EntryFilter) -> bool {
    &&& v.len() == 5
    &&& forall|i: int| 0 <= i < 5 ==> {
        &&& (#[trigger] v[i]).filter == filter_order()[i]
        &&& v[i].label@ == filter_label(filter_order()[i])
        &&& v[i].active == (filter_order()[i] == current)
    }
}

fn filter_pill(filter: EntryFilter, current: EntryFilter) -> (r: FilterPill)
    ensures
        r.filter == filter,
        r.label@ == filter_label(filter),
        r.active == (filter == current),
{
    FilterPill { filter, label: filter.label(), active: filter == current }
}

/// The filter buttons, the one in use marked active.
pub fn filter_pills(current: EntryFilter) -> (r: Vec<FilterPill>)
    ensures
        pills_ok(r@, current),
{
    let mut v: Vec<FilterPill> = Vec::new();
    v.push(filter_pill(EntryFilter::All, current));
    v.push(filter_pill(EntryFilter::Untranslated, current));
    v.push(filter_pill(EntryFilter::Fuzzy, current));
    v.push(filter_pill(EntryFilter::Warnings, current));
    v.push(filter_pill(EntryFilter::Obsolete, current));
    assert forall|i: int| 0 <= i < 5 implies {
        &&& (#[trigger] v@[i]).filter == filter_order()[i]
        &&& v@[i].label@ == filter_label(filter_order()[i])
        &&& v@[i].active == (filter_order()[i] == current)
    } by {
        if i == 0 {} else if i == 1 {} else if i == 2 {} else if i == 3 {} else {}
    }
    v
}

impl Workspace {
    /// The rows of the entries the filter shows, in catalog order.
    pub fn entry_rows(&self) -> (r: Vec<EntryRow>)
        ensures
            rows_view(r@) == rows_model(visible(self.entries(), self.filter), opt_key(self.selected_key)),
    {
        let mut rows: Vec<EntryRow> = Vec::new();
        let document = match &self.catalog {
            Some(d) => d,
            None => {
                assert(rows_view(rows@) =~= rows_model(visible(self.entries(), self.filter), opt_key(self.selected_key)));
                return rows;
            },
        };
        let entries = &document.session().entries;
        let ghost es = self.entries();
        let ghost sel = opt_key(self.selected_key);
        assert(es == entries_view(entries@));
        let mut i: usize = 0;
        assert(es.take(0) =~= Seq::<EntryModel>::empty());
        assert(rows_view(rows@) =~= rows_model(visible(es.take(0), self.filter), sel));
        while i < entries.len()
            invariant
                es == entries_view(entries@),
                sel == opt_key(self.selected_key),
                i <= entries@.len(),
                rows_view(rows@) == rows_model(visible(es.take(i as int), self.filter), sel),
            decreases entries.len() - i,
        {
            let entry = &entries[i];
            proof {
                assert(es.take(i + 1).drop_last() =~= es.take(i as int));
                assert(es.take(i + 1).last() == entry@);
            }
            if self.filter.matches(entry) {
                let selected = match &self.selected_key {
                    Some(k) => k.same_as(&entry.key),
                    None => false,
                };
                let row = EntryRow {
                    key: entry.key.duplicate(),
                    label: truncate(entry.msgid.as_str(), 36),
                    status: entry.status,
                    selected,
                    has_warnings: entry.warnings.len() > 0,
                };
                let ghost before = rows@;
                rows.push(row);
                proof {
                    assert(row@ == row_model(entry@, sel));
                    assert(rows_view(rows@) =~= rows_view(before).push(row@));
                    assert(rows_model(visible(es.take(i + 1), self.filter), sel)
                        =~= rows_model(visible(es.take(i as int), self.filter), sel).push(row_model(entry@, sel)));
                }
            }
            i = i + 1;
        }
        assert(es.take(entries@.len() as int) =~= es);
        rows
    }

    /// The side panel, when a catalog is open.
    pub fn sidebar(&self) -> (r: Option<WorkspaceSidebar>)
        ensures
            match (r, self.catalog) {
                (Some(s), Some(d)) => {
                    &&& s.source@ == "Source: "@ + d.state().source_path@
                    &&& s.stats == d.state().stats
                    &&& (match locale_index(locale_table(), self.locale_input@, 0) {
                        Some(i) => s.locale matches Some(l) && locale_view(l) == locale_table()[i],
                        None => s.locale is None,
                    })
                    &&& pills_ok(s.filters@, self.filter)
                    &&& rows_view(s.rows@) == rows_model(visible(self.entries(), self.filter), opt_key(self.selected_key))
                },
                (None, None) => true,
                _ => false,
            },
    {
        let document = match &self.catalog {
            Some(d) => d,
            None => return None,
        };
        let session = document.session();
        let source = String::from_str("Source: ").concat(session.source_path.as_str());
        let filters = filter_pills(self.filter);
        let rows = self.entry_rows();
        Some(WorkspaceSidebar {
            source,
            locale: find_locale(self.locale_input.as_str()),
            stats: session.stats,
            filters,
            rows,
        })
    }
}

// ── The entry being edited ─────────────────────────────────────────

/// The editing panel of the selected entry: its status, its source texts
/// and details, the translation inputs (each plural input with its label),
/// the label of the fuzzy toggle, and the warning messages.
#[derive(Debug, Clone)]
pub struct EntryPanel {
    pub status: EntryStatus,
    pub status_label: &'static str,
    pub msgid: String,
    pub plural_source: Option<String>,
    pub context: Option<String>,
    pub references: Option<String>,
    pub comment: Option<String>,
    pub flags: Option<String>,
    pub singular: String,
    pub plural_inputs: Vec<(String, String)>,
    pub fuzzy_toggle: &'static str,
    pub warnings: Vec<String>,
}

/// A list shown joined by commas, when it is not empty.
pub open spec fn listed_text(items: Seq<Seq<char>>) -> Option<Seq<char>> {
    if items.len() > 0 { Some(joined(items, ", "@)) } else { None }
}

/// The label of the fuzzy toggle for an entry status.
pub open spec fn toggle_text(status: EntryStatus) -> Seq<char> {
    if status == EntryStatus::Fuzzy { "Mark reviewed"@ } else { "Mark fuzzy"@ }
}

/// The messages of an entry's warnings.
pub open spec fn warning_messages(e: EntryModel) -> Seq<Seq<char>> {
    e.warnings.map_values(|w: (ValidationCode, Seq<char>)| w.1)
}

/// The panel shows entry `e` with the editor inputs `singular` and `plurals`:
/// the plural inputs only when the entry has a plural source.
pub open spec fn panel_shows(p: EntryPanel, e: EntryModel, singular: Seq<char>, plurals: Seq<Seq<char>>) -> bool {
    &&& p.status == e.status
    &&& p.status_label@ == status_text(e.status)
    &&& p.msgid@ == e.msgid
    &&& opt_view(p.plural_source) == e.msgid_plural
    &&& opt_view(p.context) == e.msgctxt
    &&& opt_view(p.references) == listed_text(e.references)
    &&& opt_view(p.comment) == (if blank(e.extracted_comment) { None } else { Some(e.extracted_comment) })
    &&& opt_view(p.flags) == listed_text(e.flags)
    &&& p.singular@ == singular
    &&& p.plural_inputs@.len() == (if e.msgid_plural is Some { plurals.len() } else { 0 })
    &&& forall|i: int| 0 <= i < p.plural_inputs@.len() ==> {
        &&& (#[trigger] p.plural_inputs@[i]).0@ == plural_label_text(i as nat)
        &&& p.plural_inputs@[i].1@ == plurals[i]
    }
    &&& p.fuzzy_toggle@ == toggle_text(e.status)
    &&& strs_view(p.warnings@) == warning_messages(e)
}

fn listed(items: &Vec<String>) -> (r: Option<String>)
    ensures
        opt_view(r) == listed_text(strs_view(items@)),
{
    if items.len() > 0 {
        Some(join_texts(items, ", "))
    } else {
        None
    }
}

fn labelled_inputs(values: &Vec<String>) -> (r: Vec<(String, String)>)
    ensures
        r@.len() == values@.len(),
        forall|i: int| 0 <= i < r@.len() ==> {
            &&& (#[trigger] r@[i]).0@ == plural_label_text(i as nat)
            &&& r@[i].1@ == values@[i]@
        },
{
    let mut r: Vec<(String, String)> = Vec::new();
    let mut i: usize = 0;
    while i < values.len()
        invariant
            i <= values@.len(),
            r@.len() == i,
            forall|j: int| 0 <= j < i ==> {
                &&& (#[trigger] r@[j]).0@ == plural_label_text(j as nat)
                &&& r@[j].1@ == values@[j]@
            },
        decreases values.len() - i,
    {
        r.push((plural_form_label(i), values[i].clone()));
        i = i + 1;
    }
    r
}

fn messages_of(entry: &CatalogEntry) -> (r: Vec<String>)
    ensures
        strs_view(r@) == warning_messages(entry@),
{
    let mut r: Vec<String> = Vec::new();
    let mut i: usize = 0;
    while i < entry.warnings.len()
        invariant
            i <= entry.warnings@.len(),
            strs_view(r@) == warning_messages(entry@).take(i as int),
        decreases entry.warnings.len() - i,
    {
        let ghost before = r@;
        r.push(entry.warnings[i].message.clone());
        proof {
            assert(strs_view(r@) =~= strs_view(before).push(entry.warnings@[i as int].message@));
            assert(warning_messages(entry@).take(i + 1) =~= warning_messages(entry@).take(i as int).push(entry.warnings@[i as int].message@));
        }
        i = i + 1;
    }
    assert(warning_messages(entry@).take(entry.warnings@.len() as int) =~= warning_messages(entry@));
    r
}

/// The editing panel for an entry and the editor inputs.
pub fn panel_for(entry: &CatalogEntry, singular: &String, plurals: &Vec<String>) -> (r: EntryPanel)
    ensures
        panel_shows(r, entry@, singular@, strs_view(plurals@)),
{
    let plural_inputs = if entry.msgid_plural.is_some() {
        labelled_inputs(plurals)
    } else {
        Vec::new()
    };
    let comment = if is_blank(entry.extracted_comment.as_str()) {
        None
    } else {
        Some(entry.extracted_comment.clone())
    };
    let fuzzy_toggle = if entry.status == EntryStatus::Fuzzy { "Mark reviewed" } else { "Mark fuzzy" };
    EntryPanel {
        status: entry.status,
        status_label: status_label(entry.status),
        msgid: entry.msgid.clone(),
        plural_source: copy_opt(&entry.msgid_plural),
        context: copy_opt(&entry.msgctxt),
        references: listed(&entry.references),
        comment,
        flags: listed(&entry.flags),
        singular: singular.clone(),
        plural_inputs,
        fuzzy_toggle,
        warnings: messages_of(entry),
    }
}

impl Workspace {
    /// The editing panel of the selected entry, if an entry is selected.
    pub fn entry_panel(&self) -> (r: Option<EntryPanel>)
        ensures
            match selected_model(self.entries(), opt_key(self.selected_key)) {
                Some(e) => r matches Some(p) && panel_shows(p, e, self.singular_input@, strs_view(self.plural_inputs@)),
                None => r is None,
            },
    {
        match self.selected_entry() {
            Some(entry) => Some(panel_for(entry, &self.singular_input, &self.plural_inputs)),
            None => None,
        }
    }

    /// The progress overlay, shown while a batch with entries runs: the
    /// busy indicator's frame and how many entries are done of how many.
    pub fn batch_overlay(&self) -> (r: Option<BatchOverlay>)
        ensures
            r is Some <==> (self.batch_running && self.batch_total > 0),
            r matches Some(o) ==> {
                &&& o.frame == spinner_frames()[(self.spinner_tick % 10) as int]
                &&& o.completed == self.batch_completed
                &&& o.total == self.batch_total
            },
    {
        if self.batch_running && self.batch_total > 0 {
            Some(BatchOverlay {
                frame: spinner_frame(self.spinner_tick),
                completed: self.batch_completed,
                total: self.batch_total,
            })
        } else {
            None
        }
    }
}

/// The batch progress overlay.
#[derive(Debug, Clone, Copy)]
pub struct BatchOverlay {
    pub frame: char,
    pub completed: usize,
    pub total: usize,
}

/// The workspace header: the project's name (`lexito` without a project),
/// the language being edited (empty without one), and whether the catalog
/// actions (translate all, retranslate fuzzy, approve all, save) are offered.
#[derive(Debug, Clone)]
pub struct WorkspaceHeader {
    pub project_name: String,
    pub language: String,
    pub catalog_actions: bool,
}

impl LexitoApp {
    /// The workspace header.
    pub fn workspace_header(&self) -> (r: WorkspaceHeader)
        ensures
            r.project_name@ == (match self.current_project {
                Some(p) => p.project.name@,
                None => "lexito"@,
            }),
            r.language@ == (match self.current_language {
                Some(l) => l@,
                None => Seq::<char>::empty(),
            }),
            r.catalog_actions == self.workspace.catalog is Some,
    {
        let project_name = match &self.current_project {
            Some(p) => p.project.name.clone(),
            None => String::from_str("lexito"),
        };
        let language = match &self.current_language {
            Some(l) => l.clone(),
            None => String::new(),
        };
        WorkspaceHeader { project_name, language, catalog_actions: self.workspace.catalog.is_some() }
    }
}

// ── The settings screen ────────────────────────────────────────────

/// A provider card: the provider's id, name, type label and model, and
/// whether it is the active provider.
#[derive(Debug, Clone)]
pub struct ProviderCard {
    pub id: u128,
    pub name: String,
    pub type_label: &'static str,
    pub model: String,
    pub active: bool,
}

/// The card shows the provider, active when its id is the active one.
pub open spec fn card_shows(c: ProviderCard, p: ProviderProfile, active: Option<u128>) -> bool {
    &&& c.id == p.id
    &&& c.name@ == p.name@
    &&& c.type_label@ == provider_label(p.provider_type)
    &&& c.model@ == p.model@
    &&& c.active == (active == Some(p.id))
}

/// A theme button: the preference, its label, and whether it is chosen.
#[derive(Debug, Clone, Copy)]
pub struct ThemePill {
    pub preference: ThemePreference,
    pub label: &'static str,
    pub active: bool,
}

/// The theme preferences in the order the settings offer them.
pub open spec fn theme_order() -> Seq<ThemePreference> {
    seq![ThemePreference::Dark, ThemePreference::System, ThemePreference::Light]
}

/// The provider editor: its title (`Edit Provider` for a saved provider,
/// `Add Provider` for a new one), the label of the fetch button and whether
/// it can be pressed (not while models load), the listed model whose id is
/// the draft's model, and the error of the last fetch.
#[derive(Debug, Clone)]
pub struct ProviderEditor {
    pub title: &'static str,
    pub fetch_label: &'static str,
    pub fetch_enabled: bool,
    pub selected_model: Option<ModelInfo>,
    pub error: Option<String>,
}

/// The settings screen: where the back button leads (the dashboard when a
/// project is open, else the project list), the provider cards, the
/// provider editor when a provider is being edited, the theme buttons, and
/// the locale chosen in the default locale field.
#[derive(Debug)]
pub struct SettingsScreen {
    pub back: Message,
    pub providers: Vec<ProviderCard>,
    pub editor: Option<ProviderEditor>,
    pub themes: Vec<ThemePill>,
    pub default_locale: Option<Locale>,
}

/// The position of the first model from `from` on with id `id`.
pub open spec fn model_position(ms: Seq<ModelInfo>, id: Seq<char>, from: int) -> Option<int>
    decreases ms.len() - from,
{
    if from < 0 || from >= ms.len() {
        None
    } else if ms[from].id@ == id {
        Some(from)
    } else {
        model_position(ms, id, from + 1)
    }
}

/// The theme buttons, the chosen one marked active.
pub open spec fn themes_ok(v: Seq<ThemePill>, chosen: ThemePreference) -> bool {
    &&& v.len() == 3
    &&& forall|i: int| 0 <= i < 3 ==> {
        &&& (#[trigger] v[i]).preference == theme_order()[i]
        &&& v[i].label@ == theme_label(theme_order()[i])
        &&& v[i].active == (theme_order()[i] == chosen)
    }
}

fn theme_pill(preference: ThemePreference, chosen: ThemePreference) -> (r: ThemePill)
    ensures
        r.preference == preference,
        r.label@ == theme_label(preference),
        r.active == (preference == chosen),
{
    ThemePill { preference, label: preference.label(), active: preference == chosen }
}

/// The theme buttons: dark, system, light.
pub fn theme_pills(chosen: ThemePreference) -> (r: Vec<ThemePill>)
    ensures
        themes_ok(r@, chosen),
{
    let mut v: Vec<ThemePill> = Vec::new();
    v.push(theme_pill(ThemePreference::Dark, chosen));
    v.push(theme_pill(ThemePreference::System, chosen));
    v.push(theme_pill(ThemePreference::Light, chosen));
    assert forall|i: int| 0 <= i < 3 implies {
        &&& (#[trigger] v@[i]).preference == theme_order()[i]
        &&& v@[i].label@ == theme_label(theme_order()[i])
        &&& v@[i].active == (theme_order()[i] == chosen)
    } by {
        if i == 0 {} else if i == 1 {} else {}
    }
    v
}

/// The cards of the providers.
pub fn provider_cards(providers: &Vec<ProviderProfile>, active: Option<u128>) -> (r: Vec<ProviderCard>)
    ensures
        r@.len() == providers@.len(),
        forall|i: int| 0 <= i < r@.len() ==> card_shows(#[trigger] r@[i], providers@[i], active),
{
    let mut r: Vec<ProviderCard> = Vec::new();
    let mut i: usize = 0;
    while i < providers.len()
        invariant
            i <= providers@.len(),
            r@.len() == i,
            forall|j: int| 0 <= j < i ==> card_shows(#[trigger] r@[j], providers@[j], active),
        decreases providers.len() - i,
    {
        let p = &providers[i];
        let is_active = match active {
            Some(id) => id == p.id,
            None => false,
        };
        r.push(ProviderCard {
            id: p.id,
            name: p.name.clone(),
            type_label: p.provider_type.label(),
            model: p.model.clone(),
            active: is_active,
        });
        i = i + 1;
    }
    r
}

/// The first listed model with id `id`, if any.
pub fn model_with_id(models: &Vec<ModelInfo>, id: &str) -> (r: Option<ModelInfo>)
    ensures
        match model_position(models@, id@, 0) {
            Some(i) => r == Some(models@[i]),
            None => r is None,
        },
{
    let mut i: usize = 0;
    while i < models.len()
        invariant
            i <= models@.len(),
            model_position(models@, id@, 0) == model_position(models@, id@, i as int),
        decreases models.len() - i,
    {
        if str_eq(models[i].id.as_str(), id) {
            return Some(models[i].duplicate());
        }
        i = i + 1;
    }
    None
}

impl LexitoApp {
    /// The provider editor, when a provider is being edited.
    pub fn provider_editor(&self) -> (r: Option<ProviderEditor>)
        ensures
            match self.editing_provider {
                Some(d) => r matches Some(e) && {
                    &&& e.title@ == (if d.id is Some { "Edit Provider"@ } else { "Add Provider"@ })
                    &&& e.fetch_label@ == (if self.models_loading { "Loading\u{2026}"@ } else { "Fetch models"@ })
                    &&& e.fetch_enabled == !self.models_loading
                    &&& (match model_position(self.available_models@, d.model@, 0) {
                        Some(i) => e.selected_model == Some(self.available_models@[i]),
                        None => e.selected_model is None,
                    })
                    &&& e.error == self.models_error
                },
                None => r is None,
            },
    {
        let draft = match &self.editing_provider {
            Some(d) => d,
            None => return None,
        };
        let title = if draft.id.is_some() { "Edit Provider" } else { "Add Provider" };
        let fetch_label = if self.models_loading { "Loading\u{2026}" } else { "Fetch models" };
        Some(ProviderEditor {
            title,
            fetch_label,
            fetch_enabled: !self.models_loading,
            selected_model: model_with_id(&self.available_models, draft.model.as_str()),
            error: copy_opt(&self.models_error),
        })
    }

    /// The settings screen.
    pub fn settings_screen(&self) -> (r: SettingsScreen)
        ensures
            r.back == (if self.current_project is Some { Message::GoToDashboard } else { Message::GoToProjects }),
            r.providers@.len() == self.settings.providers@.len(),
            forall|i: int| 0 <= i < r.providers@.len() ==>
                card_shows(#[trigger] r.providers@[i], self.settings.providers@[i], self.settings.active_provider_id),
            r.editor is Some <==> self.editing_provider is Some,
            themes_ok(r.themes@, self.theme_preference),
            match locale_index(locale_table(), self.default_locale_input@, 0) {
                Some(i) => r.default_locale matches Some(l) && locale_view(l) == locale_table()[i],
                None => r.default_locale is None,
            },
    {
        let back = if self.current_project.is_some() { Message::GoToDashboard } else { Message::GoToProjects };
        SettingsScreen {
            back,
            providers: provider_cards(&self.settings.providers, self.settings.active_provider_id),
            editor: self.provider_editor(),
            themes: theme_pills(self.theme_preference),
            default_locale: find_locale(self.default_locale_input.as_str()),
        }
    }
}

// ── The project dashboard ──────────────────────────────────────────

/// A language card: the locale, its display name (empty for an unknown
/// locale), and the catalog's translated, total and fuzzy counts (zero
/// when its statistics are not known).
#[derive(Debug, Clone)]
pub struct LanguageCard {
    pub locale: String,
    pub display_name: &'static str,
    pub translated: usize,
    pub total: usize,
    pub fuzzy: usize,
}

/// The dashboard of the open project: its name, the summary line (how many
/// languages, how many entries the largest catalog holds), and a card per
/// language in project order.
#[derive(Debug, Clone)]
pub struct Dashboard {
    pub project_name: String,
    pub languages_label: String,
    pub entries_label: String,
    pub cards: Vec<LanguageCard>,
}

/// The position of the first statistics from `from` on for `locale`.
pub open spec fn stats_position(v: Seq<(String, CatalogStats)>, locale: Seq<char>, from: int) -> Option<int>
    decreases v.len() - from,
{
    if from < 0 || from >= v.len() {
        None
    } else if v[from].0@ == locale {
        Some(from)
    } else {
        stats_position(v, locale, from + 1)
    }
}

/// The display name of a known locale, else the empty text.
pub open spec fn locale_name(code: Seq<char>) -> Seq<char> {
    match locale_index(locale_table(), code, 0) {
        Some(i) => locale_table()[i].1,
        None => Seq::empty(),
    }
}

/// The card shows the language with the first statistics for its locale.
pub open spec fn language_card_shows(c: LanguageCard, l: ProjectLanguage, stats: Seq<(String, CatalogStats)>) -> bool {
    &&& c.locale@ == l.locale@
    &&& c.display_name@ == locale_name(l.locale@)
    &&& match stats_position(stats, l.locale@, 0) {
        Some(i) => c.translated == stats[i].1.translated && c.total == stats[i].1.total && c.fuzzy == stats[i].1.fuzzy,
        None => c.translated == 0 && c.total == 0 && c.fuzzy == 0,
    }
}

fn stats_for(stats: &Vec<(String, CatalogStats)>, locale: &str) -> (r: Option<CatalogStats>)
    ensures
        match stats_position(stats@, locale@, 0) {
            Some(i) => r == Some(stats@[i].1),
            None => r is None,
        },
{
    let mut i: usize = 0;
    while i < stats.len()
        invariant
            i <= stats@.len(),
            stats_position(stats@, locale@, 0) == stats_position(stats@, locale@, i as int),
        decreases stats.len() - i,
    {
        if str_eq(stats[i].0.as_str(), locale) {
            return Some(stats[i].1);
        }
        i = i + 1;
    }
    None
}

/// The card of a language of the project.
pub fn language_card(language: &ProjectLanguage, stats: &Vec<(String, CatalogStats)>) -> (r: LanguageCard)
    ensures
        language_card_shows(r, *language, stats@),
{
    let display_name = match find_locale(language.locale.as_str()) {
        Some(l) => l.name,
        None => {
            proof { reveal_strlit(""); }
            assert(""@ =~= Seq::<char>::empty());
            ""
        },
    };
    assert(display_name@ == locale_name(language.locale@));
    let (translated, total, fuzzy) = match stats_for(stats, language.locale.as_str()) {
        Some(s) => (s.translated, s.total, s.fuzzy),
        None => (0, 0, 0),
    };
    LanguageCard { locale: language.locale.clone(), display_name, translated, total, fuzzy }
}

impl LexitoApp {
    /// The dashboard, when a project is open.
    pub fn dashboard(&self) -> (r: Option<Dashboard>)
        ensures
            match self.current_project {
                Some(p) => r matches Some(d) && {
                    &&& d.project_name@ == p.project.name@
                    &&& (d.languages_label@, d.entries_label@)
                        == summary_text(p.languages@.len(), largest_total(self.language_stats@))
                    &&& d.cards@.len() == p.languages@.len()
                    &&& forall|i: int| 0 <= i < d.cards@.len() ==>
                        language_card_shows(#[trigger] d.cards@[i], p.languages@[i], self.language_stats@)
                },
                None => r is None,
            },
    {
        let project = match &self.current_project {
            Some(p) => p,
            None => return None,
        };
        let (languages_label, entries_label) = project_summary(project.languages.len(), &self.language_stats);
        let mut cards: Vec<LanguageCard> = Vec::new();
        let mut i: usize = 0;
        while i < project.languages.len()
            invariant
                i <= project.languages@.len(),
                cards@.len() == i,
                forall|j: int| 0 <= j < i ==>
                    language_card_shows(#[trigger] cards@[j], project.languages@[j], self.language_stats@),
            decreases project.languages.len() - i,
        {
            cards.push(language_card(&project.languages[i], &self.language_stats));
            i = i + 1;
        }
        Some(Dashboard { project_name: project.project.name.clone(), languages_label, entries_label, cards })
    }
}

// ── The project list ───────────────────────────────────────────────

/// A project card: the project's name and directory, and how many
/// catalogs it has.
#[derive(Debug, Clone)]
pub struct ProjectCard {
    pub name: String,
    pub dir: String,
    pub languages: String,
}

/// The project list: the file name of the chosen template (`selected`
/// when the path has none), and a card per project. With no cards the
/// screen offers the form for a first project.
#[derive(Debug, Clone)]
pub struct ProjectListScreen {
    pub template: Option<String>,
    pub cards: Vec<ProjectCard>,
}

/// The name shown for a chosen template path.
pub open spec fn template_name(path: Seq<char>) -> Seq<char> {
    match path_file_name(path) {
        Some(n) => n,
        None => "selected"@,
    }
}

/// The catalog count given for a project, zero when none is given.
pub open spec fn count_at(counts: Seq<usize>, i: int) -> nat {
    if 0 <= i < counts.len() { counts[i] as nat } else { 0 }
}

impl LexitoApp {
    /// The project list, given how many catalogs each listed project's
    /// directory holds (in list order; a missing count is zero).
    pub fn project_list_screen(&self, catalog_counts: &Vec<usize>) -> (r: ProjectListScreen)
        ensures
            opt_view(r.template) == (match self.new_project_pot_path {
                Some(p) => Some(template_name(p@)),
                None => None,
            }),
            r.cards@.len() == self.projects@.len(),
            forall|i: int| 0 <= i < r.cards@.len() ==> {
                &&& (#[trigger] r.cards@[i]).name@ == self.projects@[i].0@
                &&& r.cards@[i].dir@ == self.projects@[i].1@
                &&& r.cards@[i].languages@ == language_count_text(count_at(catalog_counts@, i))
            },
    {
        let template = match &self.new_project_pot_path {
            Some(p) => match file_name_of(p.as_str()) {
                Some(n) => Some(n),
                None => Some(String::from_str("selected")),
            },
            None => None,
        };
        let mut cards: Vec<ProjectCard> = Vec::new();
        let mut i: usize = 0;
        while i < self.projects.len()
            invariant
                i <= self.projects@.len(),
                cards@.len() == i,
                forall|j: int| 0 <= j < i ==> {
                    &&& (#[trigger] cards@[j]).name@ == self.projects@[j].0@
                    &&& cards@[j].dir@ == self.projects@[j].1@
                    &&& cards@[j].languages@ == language_count_text(count_at(catalog_counts@, j))
                },
            decreases self.projects.len() - i,
        {
            let count = if i < catalog_counts.len() { catalog_counts[i] } else { 0 };
            cards.push(ProjectCard {
                name: self.projects[i].0.clone(),
                dir: self.projects[i].1.clone(),
                languages: language_count_label(count),
            });
            i = i + 1;
        }
        ProjectListScreen { template, cards }
    }
}

} // verus!
