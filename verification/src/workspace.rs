//! The catalog workspace: the open catalog, the selected entry, the entry
//! list's filter, the translation being edited, and a running batch.
use vstd::prelude::*;
use crate::catalog::{
    CatalogDocument, entries_model, entry_model, first_index, fuzzy_entries, is_first, lemma_first_exists,
    lemma_first_index, lemma_model_keys, model_keys, po_keys, translated_entries,
};
use crate::client::{ResponseView, TranslationResponse};
use crate::desktop::{EntryFilter, filter_matches, truncate, truncated};
use crate::model::{
    CatalogEntry, EntryKey, EntryModel, EntryStatus, KeyView, TranslationPayload, ValidationWarning, WarningView,
    copy_strings, entries_view, opt_view, strs_view, warnings_view,
};
use crate::po::{PoFileView, PoEntryView};
use crate::prompt::{join_texts, joined};
use crate::client::{BatchItem, RequestModel, TranslationRequest, items_view};
use crate::desktop::{entry_request, request_for_entry};
use crate::text::{decimal, decimal_string, is_blank, trim, trim_str};
use crate::validation::{validate_translation, validation_of};

verus! {

/// The workspace of the editor.
#[derive(Debug, Clone)]
pub struct Workspace {
    pub catalog: Option<CatalogDocument>,
    pub selected_key: Option<EntryKey>,
    pub filter: EntryFilter,
    pub locale_input: String,
    pub singular_input: String,
    pub plural_inputs: Vec<String>,
    pub batch_running: bool,
    pub batch_total: usize,
    pub batch_completed: usize,
    pub spinner_tick: usize,
}

/// The entries of an optional catalog (none when no catalog is open).
pub open spec fn doc_entries(c: Option<CatalogDocument>) -> Seq<EntryModel> {
    match c {
        Some(d) => entries_view(d.state().entries@),
        None => Seq::empty(),
    }
}

/// An optional key as plain values.
pub open spec fn opt_key(k: Option<EntryKey>) -> Option<KeyView> {
    match k {
        Some(k) => Some(k@),
        None => None,
    }
}

/// The first entry with the key, if any.
pub open spec fn entry_with_key(es: Seq<EntryModel>, k: KeyView) -> Option<EntryModel> {
    if model_keys(es).contains(k) {
        Some(es[first_index(model_keys(es), k)])
    } else {
        None
    }
}

/// The selected entry: the first entry with the selected key.
pub open spec fn selected_model(es: Seq<EntryModel>, k: Option<KeyView>) -> Option<EntryModel> {
    match k {
        Some(k) => entry_with_key(es, k),
        None => None,
    }
}

/// What the editor shows for an entry: its translation, and its plural
/// translations when it has a plural source (two empty ones when it has
/// none yet).
pub open spec fn editor_inputs(e: EntryModel) -> (Seq<char>, Seq<Seq<char>>) {
    (e.msgstr, if e.msgid_plural is Some {
        if e.msgstr_plural.len() == 0 { seq![Seq::<char>::empty(), Seq::<char>::empty()] } else { e.msgstr_plural }
    } else {
        Seq::empty()
    })
}

/// The entries that the filter shows, in order.
pub open spec fn visible(es: Seq<EntryModel>, f: EntryFilter) -> Seq<EntryModel>
    decreases es.len(),
{
    if es.len() == 0 {
        Seq::empty()
    } else {
        let v = visible(es.drop_last(), f);
        if filter_matches(f, es.last()) { v.push(es.last()) } else { v }
    }
}

/// The key of the first entry that the filter shows.
pub open spec fn first_visible_key(es: Seq<EntryModel>, f: EntryFilter) -> Option<KeyView> {
    let v = visible(es, f);
    if v.len() > 0 { Some(v[0].key) } else { None }
}

/// The position of the selection in the list the filter shows: the first
/// shown entry with the selected key, else the top.
pub open spec fn shown_position(v: Seq<EntryModel>, k: Option<KeyView>) -> int {
    match k {
        Some(k) => if model_keys(v).contains(k) { first_index(model_keys(v), k) } else { 0 },
        None => 0,
    }
}

/// The key selected by moving one entry down the shown list (staying on the
/// last one).
pub open spec fn next_key(v: Seq<EntryModel>, k: Option<KeyView>) -> KeyView {
    let p = shown_position(v, k);
    let n = if p + 1 < v.len() - 1 { p + 1 } else { v.len() - 1 };
    v[n].key
}

/// The key selected by moving one entry up the shown list (staying on the
/// first one).
pub open spec fn prev_key(v: Seq<EntryModel>, k: Option<KeyView>) -> KeyView {
    let p = shown_position(v, k);
    let n = if p > 0 { p - 1 } else { 0 };
    v[n].key
}

/// The editor's inputs as plain values.
pub open spec fn inputs(w: Workspace) -> (Seq<char>, Seq<Seq<char>>) {
    (w.singular_input@, strs_view(w.plural_inputs@))
}

/// The editor's inputs once entry `e` is loaded (unchanged without one).
pub open spec fn loaded(w: Workspace, e: Option<EntryModel>) -> (Seq<char>, Seq<Seq<char>>) {
    match e {
        Some(e) => editor_inputs(e),
        None => inputs(w),
    }
}

/// `a` is `b` with the selection `k` loaded into the editor.
pub open spec fn reselected(b: Workspace, a: Workspace, k: Option<KeyView>) -> bool {
    &&& a.catalog == b.catalog
    &&& a.filter == b.filter
    &&& a.locale_input == b.locale_input
    &&& a.batch_running == b.batch_running
    &&& a.batch_total == b.batch_total
    &&& a.batch_completed == b.batch_completed
    &&& a.spinner_tick == b.spinner_tick
    &&& opt_key(a.selected_key) == k
    &&& inputs(a) == loaded(b, selected_model(b.entries(), k))
}

/// `a` is `b` with the selection moved one entry down (or up) the shown
/// list; an empty list changes nothing.
pub open spec fn stepped(b: Workspace, a: Workspace, down: bool) -> bool {
    let v = visible(b.entries(), b.filter);
    if v.len() == 0 {
        a == b
    } else {
        reselected(b, a, Some(if down { next_key(v, opt_key(b.selected_key)) } else { prev_key(v, opt_key(b.selected_key)) }))
    }
}

impl Workspace {
    /// The entries of the open catalog.
    pub open spec fn entries(self) -> Seq<EntryModel> {
        doc_entries(self.catalog)
    }

    /// The open catalog, if any, is well formed.
    pub open spec fn inv(self) -> bool {
        self.catalog matches Some(d) ==> d.wf()
    }

    /// An empty workspace: no catalog, nothing selected, all entries shown,
    /// the locale field holding `locale`.
    pub fn new(locale: String) -> (r: Workspace)
        ensures
            r.catalog is None,
            r.selected_key is None,
            r.filter == EntryFilter::All,
            r.locale_input@ == locale@,
            r.singular_input@ == Seq::<char>::empty(),
            r.plural_inputs@.len() == 0,
            !r.batch_running,
            r.batch_total == 0,
            r.batch_completed == 0,
            r.spinner_tick == 0,
            r.inv(),
    {
        Workspace {
            catalog: None,
            selected_key: None,
            filter: EntryFilter::All,
            locale_input: locale,
            singular_input: String::new(),
            plural_inputs: Vec::new(),
            batch_running: false,
            batch_total: 0,
            batch_completed: 0,
            spinner_tick: 0,
        }
    }

    /// The position of the selected entry in the catalog, if any.
    pub fn selected_index(&self) -> (r: Option<usize>)
        ensures
            match r {
                Some(i) => self.selected_key matches Some(k) && self.catalog is Some
                    && is_first(model_keys(self.entries()), k@, i as int),
                None => selected_model(self.entries(), opt_key(self.selected_key)) is None,
            },
    {
        let document = match &self.catalog {
            Some(d) => d,
            None => return None,
        };
        let key = match &self.selected_key {
            Some(k) => k,
            None => return None,
        };
        crate::catalog::find_model_index(&document.session().entries, key)
    }

    /// The selected entry, if any.
    pub fn selected_entry(&self) -> (r: Option<&CatalogEntry>)
        ensures
            match r {
                Some(e) => selected_model(self.entries(), opt_key(self.selected_key)) == Some(e@),
                None => selected_model(self.entries(), opt_key(self.selected_key)) is None,
            },
    {
        match self.selected_index() {
            Some(i) => {
                let document = self.catalog.as_ref().unwrap();
                proof {
                    lemma_first_index(model_keys(self.entries()), self.selected_key.unwrap()@, i as int);
                }
                Some(&document.session().entries[i])
            },
            None => None,
        }
    }

    /// Loads the selected entry's translation into the editor; without a
    /// selected entry the editor keeps what it holds.
    pub fn sync_editor_from_selection(&mut self)
        ensures
            reselected(*old(self), *final(self), opt_key(old(self).selected_key)),
            final(self).selected_key == old(self).selected_key,
    {
        let i = match self.selected_index() {
            Some(i) => i,
            None => return,
        };
        proof {
            lemma_first_index(model_keys(self.entries()), self.selected_key.unwrap()@, i as int);
        }
        let (singular, plurals) = {
            let document = self.catalog.as_ref().unwrap();
            let entry = &document.session().entries[i];
            assert(self.entries()[i as int] == entry@);
            let singular = entry.msgstr.clone();
            let plurals: Vec<String> = if entry.msgid_plural.is_some() {
                if entry.msgstr_plural.len() == 0 {
                    let mut v: Vec<String> = Vec::new();
                    v.push(String::new());
                    v.push(String::new());
                    assert(strs_view(v@) =~= seq![Seq::<char>::empty(), Seq::<char>::empty()]);
                    v
                } else {
                    copy_strings(&entry.msgstr_plural)
                }
            } else {
                let v: Vec<String> = Vec::new();
                assert(strs_view(v@) =~= Seq::<Seq<char>>::empty());
                v
            };
            (singular, plurals)
        };
        self.singular_input = singular;
        self.plural_inputs = plurals;
    }

    /// Selects the first entry that the filter shows (nothing when none
    /// does or no catalog is open) and loads it into the editor.
    pub fn select_first_visible_entry(&mut self)
        ensures
            reselected(*old(self), *final(self), first_visible_key(old(self).entries(), old(self).filter)),
    {
        let next = match &self.catalog {
            Some(document) => {
                let shown = visible_positions(&document.session().entries, self.filter);
                if shown.len() > 0 {
                    Some(document.session().entries[shown[0]].key.duplicate())
                } else {
                    None
                }
            },
            None => None,
        };
        self.selected_key = next;
        self.sync_editor_from_selection();
    }

    /// Moves the selection one entry down the list the filter shows and
    /// loads it into the editor; nothing happens when the list is empty.
    pub fn select_next_entry(&mut self)
        ensures
            stepped(*old(self), *final(self), true),
    {
        self.step_selection(true);
    }

    /// Moves the selection one entry up the list the filter shows and
    /// loads it into the editor; nothing happens when the list is empty.
    pub fn select_prev_entry(&mut self)
        ensures
            stepped(*old(self), *final(self), false),
    {
        self.step_selection(false);
    }

    fn step_selection(&mut self, down: bool)
        ensures
            stepped(*old(self), *final(self), down),
    {
        let ghost es = self.entries();
        let ghost v = visible(es, self.filter);
        let key = match &self.catalog {
            None => return,
            Some(document) => {
                let entries = &document.session().entries;
                let shown = visible_positions(entries, self.filter);
                if shown.len() == 0 {
                    return;
                }
                let cur = shown_index(entries, &shown, &self.selected_key, Ghost(v));
                assert(cur as int == shown_position(v, opt_key(self.selected_key)));
                let last = shown.len() - 1;
                let n = if down {
                    if cur + 1 < last { cur + 1 } else { last }
                } else {
                    if cur > 0 { cur - 1 } else { 0 }
                };
                assert(es[shown@[n as int] as int] == v[n as int]);
                entries[shown[n]].key.duplicate()
            },
        };
        self.selected_key = Some(key);
        self.sync_editor_from_selection();
    }
}

/// The position in the shown list (`shown` holds the positions of the shown
/// entries) of the first shown entry with the key, else the top.
fn shown_index(entries: &Vec<CatalogEntry>, shown: &Vec<usize>, key: &Option<EntryKey>, Ghost(v): Ghost<Seq<EntryModel>>) -> (r: usize)
    requires
        shown@.len() == v.len(),
        forall|t: int| #![trigger shown@[t]] 0 <= t < shown@.len() ==> shown@[t] < entries@.len()
            && entries_view(entries@)[shown@[t] as int] == v[t],
    ensures
        r as int == shown_position(v, opt_key(*key)),
        v.len() > 0 ==> r < v.len(),
{
    let ghost es = entries_view(entries@);
    let mut cur: usize = 0;
    if let Some(k) = key {
        let mut j: usize = 0;
        let mut found = false;
        while j < shown.len()
            invariant
                es == entries_view(entries@),
                shown@.len() == v.len(),
                forall|t: int| #![trigger shown@[t]] 0 <= t < shown@.len() ==> shown@[t] < es.len() && es[shown@[t] as int] == v[t],
                j <= shown@.len(),
                !found ==> cur == 0,
                found ==> is_first(model_keys(v), k@, cur as int),
                !found ==> forall|t: int| 0 <= t < j ==> model_keys(v)[t] != k@,
            decreases shown.len() - j,
        {
            if !found && entries[shown[j]].key.same_as(k) {
                assert(model_keys(v)[j as int] == entries@[shown@[j as int] as int].key@);
                cur = j;
                found = true;
            } else if !found {
                assert(model_keys(v)[j as int] == entries@[shown@[j as int] as int].key@);
            }
            j = j + 1;
        }
        proof {
            if found {
                lemma_first_index(model_keys(v), k@, cur as int);
            } else if model_keys(v).contains(k@) {
                let w = choose|w: int| 0 <= w < model_keys(v).len() && model_keys(v)[w] == k@;
                assert(model_keys(v)[w] != k@);
            }
        }
    }
    cur
}

/// Where the selection stands in the list the filter shows, and how long
/// the list is; nothing when no catalog is open or the list is empty.
pub open spec fn scroll_target(w: Workspace) -> Option<(int, int)> {
    let v = visible(w.entries(), w.filter);
    if w.catalog is None || v.len() == 0 {
        None
    } else {
        Some((shown_position(v, opt_key(w.selected_key)), v.len() as int))
    }
}

impl Workspace {
    /// Where the selection stands in the list the filter shows, and how
    /// long the list is (for scrolling to it).
    pub fn scroll_position(&self) -> (r: Option<(usize, usize)>)
        ensures
            match scroll_target(*self) {
                Some((p, n)) => r matches Some((p2, n2)) && p2 == p && n2 == n,
                None => r is None,
            },
    {
        let document = match &self.catalog {
            Some(d) => d,
            None => return None,
        };
        let entries = &document.session().entries;
        let shown = visible_positions(entries, self.filter);
        if shown.len() == 0 {
            return None;
        }
        let p = shown_index(entries, &shown, &self.selected_key, Ghost(visible(self.entries(), self.filter)));
        Some((p, shown.len()))
    }
}

/// The positions of the entries that the filter shows, in order.
pub fn visible_positions(entries: &Vec<CatalogEntry>, filter: EntryFilter) -> (r: Vec<usize>)
    ensures
        r@.len() == visible(entries_view(entries@), filter).len(),
        forall|t: int| #![trigger r@[t]] 0 <= t < r@.len() ==> r@[t] < entries@.len()
            && entries_view(entries@)[r@[t] as int] == visible(entries_view(entries@), filter)[t],
{
    let ghost es = entries_view(entries@);
    let mut r: Vec<usize> = Vec::new();
    let mut i: usize = 0;
    while i < entries.len()
        invariant
            es == entries_view(entries@),
            i <= entries@.len(),
            r@.len() == visible(es.take(i as int), filter).len(),
            forall|t: int| #![trigger r@[t]] 0 <= t < r@.len() ==> r@[t] < i && es[r@[t] as int] == visible(es.take(i as int), filter)[t],
        decreases entries.len() - i,
    {
        assert(es.take(i + 1).drop_last() =~= es.take(i as int));
        assert(es.take(i + 1).last() == es[i as int]);
        let ghost prev = r@;
        if filter.matches(&entries[i]) {
            r.push(i);
            assert(forall|t: int| 0 <= t < prev.len() ==> r@[t] == prev[t]);
        }
        i = i + 1;
    }
    assert(es.take(entries@.len() as int) =~= es);
    r
}

/// The messages of warnings.
pub open spec fn warning_texts(ws: Seq<WarningView>) -> Seq<Seq<char>> {
    ws.map_values(|w: WarningView| w.1)
}

/// The messages of warnings joined by `; `.
pub fn warning_list(warnings: &Vec<ValidationWarning>) -> (r: String)
    ensures
        r@ == joined(warning_texts(warnings_view(warnings@)), "; "@),
{
    let mut texts: Vec<String> = Vec::new();
    let mut i: usize = 0;
    while i < warnings.len()
        invariant
            i <= warnings@.len(),
            strs_view(texts@) == warning_texts(warnings_view(warnings@)).take(i as int),
        decreases warnings.len() - i,
    {
        let ghost prev = texts@;
        texts.push(warnings[i].message.clone());
        assert(strs_view(texts@) =~= strs_view(prev).push(warnings@[i as int].message@));
        assert(warning_texts(warnings_view(warnings@)).take(i + 1) =~= warning_texts(warnings_view(warnings@)).take(i as int).push(warnings@[i as int].message@));
        i = i + 1;
    }
    assert(warning_texts(warnings_view(warnings@)).take(warnings@.len() as int) =~= warning_texts(warnings_view(warnings@)));
    join_texts(&texts, "; ")
}

/// Storing a translation keeps the keys of the file's entries.
pub proof fn lemma_translated_keys(es: Seq<PoEntryView>, k: KeyView, s: Seq<char>, p: Seq<Seq<char>>, fuzzy: bool)
    requires
        po_keys(es).contains(k),
    ensures
        po_keys(translated_entries(es, k, s, p, fuzzy)) == po_keys(es),
{
    lemma_first_exists(po_keys(es), k);
    assert(po_keys(translated_entries(es, k, s, p, fuzzy)) =~= po_keys(es));
}

/// Setting a fuzzy flag keeps the keys of the file's entries.
pub proof fn lemma_fuzzy_keys(es: Seq<PoEntryView>, k: KeyView, fuzzy: bool)
    requires
        po_keys(es).contains(k),
    ensures
        po_keys(fuzzy_entries(es, k, fuzzy)) == po_keys(es),
{
    lemma_first_exists(po_keys(es), k);
    assert(po_keys(fuzzy_entries(es, k, fuzzy)) =~= po_keys(es));
}

/// Setting a fuzzy flag keeps the texts of the entry it touches.
pub proof fn lemma_fuzzy_keeps_texts(es: Seq<PoEntryView>, k: KeyView, fuzzy: bool)
    requires
        po_keys(es).contains(k),
    ensures
        ({
            let before = entry_with_key(entries_model(es), k);
            let after = entry_with_key(entries_model(fuzzy_entries(es, k, fuzzy)), k);
            &&& before is Some && after is Some
            &&& after.unwrap().msgstr == before.unwrap().msgstr
            &&& after.unwrap().msgstr_plural == before.unwrap().msgstr_plural
        }),
{
    let f2 = fuzzy_entries(es, k, fuzzy);
    lemma_fuzzy_keys(es, k, fuzzy);
    lemma_model_keys(es);
    lemma_model_keys(f2);
    lemma_first_exists(po_keys(es), k);
    let j = first_index(po_keys(es), k);
    assert(f2[j].msgstr == es[j].msgstr);
    assert(entries_model(f2)[j] == entry_model(f2[j]));
    assert(entries_model(es)[j] == entry_model(es[j]));
}

/// Whether an edit of the entry with key `k` was stored: the file holds the
/// translation (not fuzzy, or fuzzy as asked), and reading the entry back
/// gives it.
pub open spec fn stored(
    before: Workspace,
    after: Workspace,
    k: KeyView,
    singular: Seq<char>,
    plurals: Seq<Seq<char>>,
    from_ai: bool,
) -> bool {
    let f0 = before.catalog.unwrap().contents();
    let stored_entries = translated_entries(f0.entries, k, singular, plurals, from_ai);
    &&& after.catalog matches Some(d) && d.contents() == (PoFileView {
        entries: if from_ai { stored_entries } else { fuzzy_entries(stored_entries, k, false) },
        ..f0
    })
    &&& entry_with_key(after.entries(), k) matches Some(e) && e.msgstr == singular && e.msgstr_plural == plurals
        && (if from_ai { !e.obsolete ==> e.status == EntryStatus::Fuzzy } else { e.status != EntryStatus::Fuzzy })
}

/// The parts of the workspace that an edit leaves alone.
pub open spec fn same_view(a: Workspace, b: Workspace) -> bool {
    &&& a.selected_key == b.selected_key
    &&& a.filter == b.filter
    &&& a.locale_input == b.locale_input
    &&& a.batch_running == b.batch_running
    &&& a.batch_total == b.batch_total
    &&& a.batch_completed == b.batch_completed
    &&& a.spinner_tick == b.spinner_tick
}

/// The editor shows the selected entry.
pub open spec fn synced(w: Workspace) -> bool {
    match selected_model(w.entries(), opt_key(w.selected_key)) {
        Some(e) => (w.singular_input@, strs_view(w.plural_inputs@)) == editor_inputs(e),
        None => true,
    }
}

/// The status that applying the editor's translation shows.
pub open spec fn local_edit_status(b: Workspace) -> Option<Seq<char>> {
    match b.selected_key {
        None => Some("Select an entry first."@),
        Some(k) => match entry_with_key(b.entries(), k@) {
            None => None,
            Some(e) => {
                let ws = validation_of(e.msgid, e.msgid_plural, inputs(b).0, inputs(b).1);
                if ws.len() > 0 {
                    Some("Edit not applied: "@ + joined(warning_texts(ws), "; "@))
                } else {
                    Some("Entry updated."@)
                }
            },
        },
    }
}

/// What applying the editor's translation does: with a selected entry and
/// no warnings the translation is stored, the entry marked reviewed and the
/// editor reloaded; otherwise nothing changes.
pub open spec fn local_edit_effect(b: Workspace, a: Workspace) -> bool {
    match b.selected_key {
        Some(k) => match entry_with_key(b.entries(), k@) {
            Some(e) => if validation_of(e.msgid, e.msgid_plural, inputs(b).0, inputs(b).1).len() == 0 {
                &&& same_view(a, b)
                &&& stored(b, a, k@, inputs(b).0, inputs(b).1, false)
                &&& inputs(a) == loaded(b, selected_model(a.entries(), opt_key(b.selected_key)))
            } else {
                a == b
            },
            None => a == b,
        },
        None => a == b,
    }
}

/// The plural forms kept from an AI reply: all for an entry with a plural
/// source, none otherwise.
pub open spec fn ai_plurals(e: EntryModel, response: ResponseView) -> Seq<Seq<char>> {
    if e.msgid_plural is Some { response.1 } else { Seq::empty() }
}

/// The status that applying an AI translation shows.
pub open spec fn ai_status(b: Workspace, k: KeyView, response: ResponseView) -> Option<Seq<char>> {
    match entry_with_key(b.entries(), k) {
        None => None,
        Some(e) => {
            let ws = validation_of(e.msgid, e.msgid_plural, response.0, ai_plurals(e, response));
            if ws.len() > 0 {
                Some("AI output for '"@ + truncated(e.msgid, 36) + "' needs review: "@ + joined(warning_texts(ws), "; "@))
            } else {
                Some("Applied AI translation via "@ + response.2.0 + " / "@ + response.2.1 + "."@)
            }
        },
    }
}

/// What applying an AI translation does: for a known entry and no warnings
/// the translation is stored flagged fuzzy and the editor reloaded;
/// otherwise nothing changes.
pub open spec fn ai_effect(b: Workspace, a: Workspace, k: KeyView, response: ResponseView) -> bool {
    match entry_with_key(b.entries(), k) {
        Some(e) => if validation_of(e.msgid, e.msgid_plural, response.0, ai_plurals(e, response)).len() == 0 {
            &&& same_view(a, b)
            &&& stored(b, a, k, response.0, ai_plurals(e, response), true)
            &&& inputs(a) == loaded(b, selected_model(a.entries(), opt_key(b.selected_key)))
        } else {
            a == b
        },
        None => a == b,
    }
}

/// Whether the selected entry is fuzzy.
pub open spec fn selected_is_fuzzy(b: Workspace) -> bool {
    selected_model(b.entries(), opt_key(b.selected_key)) matches Some(e) && e.status == EntryStatus::Fuzzy
}

/// The status that flipping the selected entry's fuzzy flag shows.
pub open spec fn toggle_status(b: Workspace) -> Option<Seq<char>> {
    match (b.catalog, b.selected_key) {
        (Some(d), Some(k)) => if po_keys(d.contents().entries).contains(k@) {
            Some(if selected_is_fuzzy(b) { "Entry marked reviewed."@ } else { "Entry marked fuzzy."@ })
        } else {
            Some("Could not update fuzzy flag: "@ + "entry not found"@)
        },
        _ => None,
    }
}

/// What flipping the selected entry's fuzzy flag does.
pub open spec fn toggle_effect(b: Workspace, a: Workspace) -> bool {
    match (b.catalog, b.selected_key) {
        (Some(d), Some(k)) => if po_keys(d.contents().entries).contains(k@) {
            &&& same_view(a, b)
            &&& a.catalog matches Some(d2) && d2.contents() == (PoFileView {
                entries: fuzzy_entries(d.contents().entries, k@, !selected_is_fuzzy(b)),
                ..d.contents()
            })
            &&& entry_with_key(a.entries(), k@) matches Some(e) && (selected_is_fuzzy(b) ==> e.status != EntryStatus::Fuzzy)
                && (!selected_is_fuzzy(b) && !e.obsolete ==> e.status == EntryStatus::Fuzzy)
            &&& inputs(a) == loaded(b, selected_model(a.entries(), opt_key(b.selected_key)))
        } else {
            a == b
        },
        _ => a == b,
    }
}

/// The status that approving every fuzzy entry shows.
pub open spec fn approve_status(b: Workspace) -> Option<Seq<char>> {
    match b.catalog {
        None => None,
        Some(d) => Some("Approved "@ + decimal(fuzzy_keys(b.entries()).len()) + " fuzzy entries."@),
    }
}

/// What approving every fuzzy entry does: the fuzzy flag of each entry that
/// was fuzzy is cleared, and the editor reloaded.
pub open spec fn approve_effect(b: Workspace, a: Workspace) -> bool {
    match b.catalog {
        None => a == b,
        Some(d) => {
            &&& same_view(a, b)
            &&& a.catalog matches Some(d2) && d2.contents() == (PoFileView {
                entries: cleared(d.contents().entries, fuzzy_keys(b.entries())),
                ..d.contents()
            })
            &&& inputs(a) == loaded(b, selected_model(a.entries(), opt_key(b.selected_key)))
        },
    }
}

impl Workspace {
    /// Stores the translation in the editor for the selected entry and marks
    /// it reviewed, unless it raises warnings against the entry's source;
    /// gives the status to show.
    pub fn apply_local_edit(&mut self) -> (status: Option<String>)
        requires
            old(self).inv(),
        ensures
            final(self).inv(),
            opt_view(status) == local_edit_status(*old(self)),
            local_edit_effect(*old(self), *final(self)),
    {
        let key = match &self.selected_key {
            None => return Some(String::from_str("Select an entry first.")),
            Some(k) => k.duplicate(),
        };
        let i = match self.selected_index() {
            None => return None,
            Some(i) => i,
        };
        proof {
            lemma_first_index(model_keys(self.entries()), key@, i as int);
        }
        let payload = TranslationPayload { singular: self.singular_input.clone(), plurals: copy_strings(&self.plural_inputs) };
        let warnings = {
            let document = self.catalog.as_ref().unwrap();
            validate_translation(&document.session().entries[i], &payload)
        };
        if warnings.len() > 0 {
            return Some(String::from_str("Edit not applied: ").concat(warning_list(&warnings).as_str()));
        }
        let ghost old_self = *self;
        let ghost singular = payload.singular@;
        let ghost plurals = strs_view(payload.plurals@);
        let mut document = self.catalog.take().unwrap();
        let ghost f0 = document.contents();
        proof {
            lemma_model_keys(f0.entries);
            lemma_translated_keys(f0.entries, key@, singular, plurals, false);
        }
        let result = match document.update_translation(&key, payload, false) {
            Ok(_) => {
                let ghost es1 = entries_view(document.state().entries@);
                let ghost f1 = document.contents();
                let r = document.set_fuzzy(&key, false);
                proof {
                    lemma_model_keys(f1.entries);
                    lemma_fuzzy_keeps_texts(f1.entries, key@, false);
                }
                r
            },
            Err(e) => Err(e),
        };
        self.catalog = Some(document);
        match result {
            Ok(()) => {
                proof {
                    lemma_model_keys(self.catalog.unwrap().contents().entries);
                }
                self.sync_editor_from_selection();
                Some(String::from_str("Entry updated."))
            },
            Err(e) => Some(String::from_str("Could not update entry: ").concat(e.message().as_str())),
        }
    }
}

impl Workspace {
    /// Stores an AI translation for the entry with `key`, flagged fuzzy,
    /// unless it raises warnings against the entry's source; plural forms are
    /// kept only for an entry with a plural source. Gives the status to show.
    pub fn apply_ai_translation(&mut self, key: EntryKey, response: TranslationResponse) -> (status: Option<String>)
        requires
            old(self).inv(),
        ensures
            final(self).inv(),
            opt_view(status) == ai_status(*old(self), key@, response@),
            ai_effect(*old(self), *final(self), key@, response@),
    {
        let i = match &self.catalog {
            None => return None,
            Some(document) => match crate::catalog::find_model_index(&document.session().entries, &key) {
                None => return None,
                Some(i) => i,
            },
        };
        proof {
            lemma_first_index(model_keys(self.entries()), key@, i as int);
        }
        let (msgid, has_plural) = {
            let document = self.catalog.as_ref().unwrap();
            let existing = &document.session().entries[i];
            (existing.msgid.clone(), existing.msgid_plural.is_some())
        };
        let plurals: Vec<String> = if has_plural {
            response.plurals
        } else {
            let v: Vec<String> = Vec::new();
            assert(strs_view(v@) =~= Seq::<Seq<char>>::empty());
            v
        };
        let payload = TranslationPayload { singular: response.singular, plurals };
        let warnings = {
            let document = self.catalog.as_ref().unwrap();
            validate_translation(&document.session().entries[i], &payload)
        };
        if warnings.len() > 0 {
            return Some(
                String::from_str("AI output for '").concat(truncate(msgid.as_str(), 36).as_str()).concat(
                    "' needs review: ",
                ).concat(warning_list(&warnings).as_str()),
            );
        }
        let ghost singular = payload.singular@;
        let ghost plurals_v = strs_view(payload.plurals@);
        let mut document = self.catalog.take().unwrap();
        let ghost f0 = document.contents();
        proof {
            lemma_model_keys(f0.entries);
        }
        let result = document.update_translation(&key, payload, true);
        self.catalog = Some(document);
        match result {
            Ok(_) => {
                proof {
                    lemma_model_keys(self.catalog.unwrap().contents().entries);
                }
                let status = String::from_str("Applied AI translation via ").concat(
                    response.metadata.provider_name.as_str(),
                ).concat(" / ").concat(response.metadata.model.as_str()).concat(".");
                self.sync_editor_from_selection();
                Some(status)
            },
            Err(e) => Some(String::from_str("Could not apply AI translation: ").concat(e.message().as_str())),
        }
    }

    /// Flips the fuzzy flag of the selected entry (a selected entry that is
    /// fuzzy is marked reviewed, any other one fuzzy); gives the status to
    /// show.
    pub fn toggle_selected_fuzzy(&mut self) -> (status: Option<String>)
        requires
            old(self).inv(),
        ensures
            final(self).inv(),
            opt_view(status) == toggle_status(*old(self)),
            toggle_effect(*old(self), *final(self)),
    {
        let is_fuzzy = match self.selected_entry() {
            Some(e) => e.status == EntryStatus::Fuzzy,
            None => false,
        };
        let key = match &self.selected_key {
            Some(k) => k.duplicate(),
            None => return None,
        };
        if self.catalog.is_none() {
            return None;
        }
        let mut document = self.catalog.take().unwrap();
        proof {
            lemma_model_keys(document.contents().entries);
        }
        let result = document.set_fuzzy(&key, !is_fuzzy);
        self.catalog = Some(document);
        match result {
            Ok(()) => {
                proof {
                    lemma_model_keys(self.catalog.unwrap().contents().entries);
                }
                self.sync_editor_from_selection();
                if is_fuzzy {
                    Some(String::from_str("Entry marked reviewed."))
                } else {
                    Some(String::from_str("Entry marked fuzzy."))
                }
            },
            Err(e) => Some(String::from_str("Could not update fuzzy flag: ").concat(e.message().as_str())),
        }
    }
}

/// The keys of the fuzzy entries, in order.
pub open spec fn fuzzy_keys(es: Seq<EntryModel>) -> Seq<KeyView>
    decreases es.len(),
{
    if es.len() == 0 {
        Seq::empty()
    } else {
        let ks = fuzzy_keys(es.drop_last());
        if es.last().status == EntryStatus::Fuzzy { ks.push(es.last().key) } else { ks }
    }
}

/// The file entries after the fuzzy flag is cleared for each key in turn
/// (a key the entries lack changes nothing).
pub open spec fn cleared(fs: Seq<PoEntryView>, keys: Seq<KeyView>) -> Seq<PoEntryView>
    decreases keys.len(),
{
    if keys.len() == 0 {
        fs
    } else {
        let f = cleared(fs, keys.drop_last());
        if po_keys(f).contains(keys.last()) { fuzzy_entries(f, keys.last(), false) } else { f }
    }
}

/// The text of the workspace's locale field, or else the default locale,
/// trimmed.
pub open spec fn chosen_locale(locale_input: Seq<char>, default_locale: Seq<char>) -> Seq<char> {
    if trim(locale_input).len() > 0 { trim(locale_input) } else { trim(default_locale) }
}

/// The requests made for the entries of a list, in order.
pub open spec fn entry_requests(es: Seq<EntryModel>, locale: Seq<char>) -> Seq<RequestModel> {
    es.map_values(|e: EntryModel| entry_request(e, locale))
}

/// A counter that wraps at its maximum (`wrapping_add(1)`).
pub open spec fn wrapped_next(x: usize) -> usize {
    if x == usize::MAX { 0 } else { (x + 1) as usize }
}

impl Workspace {
    /// Marks every fuzzy entry reviewed; gives the status to show.
    pub fn approve_all_fuzzy(&mut self) -> (status: Option<String>)
        requires
            old(self).inv(),
        ensures
            final(self).inv(),
            opt_view(status) == approve_status(*old(self)),
            approve_effect(*old(self), *final(self)),
    {
        if self.catalog.is_none() {
            return None;
        }
        let mut document = self.catalog.take().unwrap();
        let ghost es0 = entries_view(document.state().entries@);
        let ghost f0 = document.contents();
        let mut keys: Vec<EntryKey> = Vec::new();
        let mut i: usize = 0;
        while i < document.session().entries.len()
            invariant
                es0 == entries_view(document.state().entries@),
                i <= es0.len(),
                keys@.map_values(|k: EntryKey| k@) == fuzzy_keys(es0.take(i as int)),
            decreases document.state().entries@.len() - i,
        {
            assert(es0.take(i + 1).drop_last() =~= es0.take(i as int));
            let ghost prev = keys@;
            if document.session().entries[i].status == EntryStatus::Fuzzy {
                keys.push(document.session().entries[i].key.duplicate());
                assert(keys@.map_values(|k: EntryKey| k@) =~= prev.map_values(|k: EntryKey| k@).push(es0[i as int].key));
            }
            i = i + 1;
        }
        assert(es0.take(es0.len() as int) =~= es0);
        let ghost kv = keys@.map_values(|k: EntryKey| k@);
        let mut j: usize = 0;
        assert(kv.take(0) =~= Seq::<KeyView>::empty());
        while j < keys.len()
            invariant
                kv == keys@.map_values(|k: EntryKey| k@),
                j <= keys@.len(),
                document.wf(),
                document.contents() == (PoFileView { entries: cleared(f0.entries, kv.take(j as int)), ..f0 }),
            decreases keys.len() - j,
        {
            let _ = document.set_fuzzy(&keys[j], false);
            assert(kv.take(j + 1).drop_last() =~= kv.take(j as int));
            j = j + 1;
        }
        assert(kv.take(kv.len() as int) =~= kv);
        let count: u64 = keys.len() as u64;
        self.catalog = Some(document);
        self.sync_editor_from_selection();
        Some(String::from_str("Approved ").concat(decimal_string(count).as_str()).concat(" fuzzy entries."))
    }
}

impl Workspace {
    /// The locale to translate into: the locale field, or else the default
    /// locale, trimmed.
    pub fn current_locale_value(&self, default_locale_input: &str) -> (r: String)
        ensures
            r@ == chosen_locale(self.locale_input@, default_locale_input@),
    {
        if !is_blank(self.locale_input.as_str()) {
            trim_str(self.locale_input.as_str())
        } else {
            trim_str(default_locale_input)
        }
    }

    /// The request to translate the selected entry, or the status to show
    /// when no entry is selected.
    pub fn translation_request(&self, default_locale_input: &str) -> (r: Result<TranslationRequest, String>)
        ensures
            match selected_model(self.entries(), opt_key(self.selected_key)) {
                Some(e) => r matches Ok(q) && q@ == entry_request(e, chosen_locale(self.locale_input@, default_locale_input@)),
                None => r matches Err(s) && s@ == "Select an entry first."@,
            },
    {
        match self.selected_entry() {
            Some(entry) => {
                let locale = self.current_locale_value(default_locale_input);
                Ok(request_for_entry(entry.duplicate(), locale))
            },
            None => Err(String::from_str("Select an entry first.")),
        }
    }

    /// The requests for the entries that a filter shows, in order.
    pub fn batch_items(&self, filter: EntryFilter, locale: &str) -> (r: Vec<BatchItem>)
        ensures
            items_view(r@) == entry_requests(visible(self.entries(), filter), locale@),
    {
        let mut r: Vec<BatchItem> = Vec::new();
        let document = match &self.catalog {
            Some(d) => d,
            None => {
                assert(items_view(r@) =~= entry_requests(visible(self.entries(), filter), locale@));
                return r;
            },
        };
        let entries = &document.session().entries;
        let shown = visible_positions(entries, filter);
        let ghost v = visible(self.entries(), filter);
        let mut j: usize = 0;
        while j < shown.len()
            invariant
                v == visible(entries_view(entries@), filter),
                shown@.len() == v.len(),
                forall|t: int| #![trigger shown@[t]] 0 <= t < shown@.len() ==> shown@[t] < entries@.len()
                    && entries_view(entries@)[shown@[t] as int] == v[t],
                j <= shown@.len(),
                items_view(r@) == entry_requests(v, locale@).take(j as int),
            decreases shown.len() - j,
        {
            let entry = entries[shown[j]].duplicate();
            assert(entry@ == v[j as int]);
            let request = request_for_entry(entry, locale.to_string());
            let ghost prev = r@;
            r.push(BatchItem { request });
            assert(items_view(r@) =~= items_view(prev).push(request@));
            assert(entry_requests(v, locale@).take(j + 1) =~= entry_requests(v, locale@).take(j as int).push(entry_request(v[j as int], locale@)));
            j = j + 1;
        }
        assert(entry_requests(v, locale@).take(v.len() as int) =~= entry_requests(v, locale@));
        r
    }

    /// Checks that a batch can start: a catalog is open and a target locale
    /// is set. Gives the locale, or the status to show.
    pub fn batch_target_locale(&self, default_locale_input: &str) -> (r: Result<String, String>)
        ensures
            self.catalog is None ==> (r matches Err(s) && s@ == "Open a catalog first."@),
            self.catalog is Some && chosen_locale(self.locale_input@, default_locale_input@).len() == 0 ==> (r matches Err(s)
                && s@ == "Set a target locale before using AI translation."@),
            self.catalog is Some && chosen_locale(self.locale_input@, default_locale_input@).len() > 0 ==> (r matches Ok(l)
                && l@ == chosen_locale(self.locale_input@, default_locale_input@)),
    {
        if self.catalog.is_none() {
            return Err(String::from_str("Open a catalog first."));
        }
        let locale = self.current_locale_value(default_locale_input);
        if locale.as_str().is_empty() {
            return Err(String::from_str("Set a target locale before using AI translation."));
        }
        Ok(locale)
    }

    /// Starts a batch over the entries a filter shows: gives their requests
    /// and marks the batch running, or gives the status to show when no
    /// entry matches.
    pub fn start_batch(&mut self, filter: EntryFilter, locale: &str) -> (r: Result<Vec<BatchItem>, String>)
        ensures
            ({
                let v = visible(old(self).entries(), filter);
                if v.len() == 0 {
                    &&& r matches Err(s) && s@ == "No entries match the selected batch filter."@
                    &&& *final(self) == *old(self)
                } else {
                    &&& r matches Ok(items) && items_view(items@) == entry_requests(v, locale@)
                    &&& *final(self) == (Workspace { batch_running: true, ..*old(self) })
                }
            }),
    {
        let items = self.batch_items(filter, locale);
        assert(items_view(items@).len() == items@.len());
        assert(entry_requests(visible(self.entries(), filter), locale@).len() == visible(self.entries(), filter).len());
        if items.len() == 0 {
            return Err(String::from_str("No entries match the selected batch filter."));
        }
        self.batch_running = true;
        Ok(items)
    }

    /// A batch reports that it started.
    pub fn batch_started(&mut self, total: usize) -> (status: String)
        ensures
            *final(self) == (Workspace { batch_total: total, batch_completed: 0, ..*old(self) }),
            status@ == "Translating "@ + decimal(total as nat) + " entries\u{2026}"@,
    {
        self.batch_total = total;
        self.batch_completed = 0;
        String::from_str("Translating ").concat(decimal_string(total as u64).as_str()).concat(" entries\u{2026}")
    }

    /// A batch reports that it finished.
    pub fn batch_finished(&mut self, completed: usize, total: usize) -> (status: String)
        ensures
            *final(self) == (Workspace { batch_running: false, batch_total: 0, batch_completed: 0, ..*old(self) }),
            status@ == "Batch translation finished: "@ + decimal(completed as nat) + "/"@ + decimal(total as nat) + "."@,
    {
        self.batch_running = false;
        self.batch_total = 0;
        self.batch_completed = 0;
        String::from_str("Batch translation finished: ").concat(decimal_string(completed as u64).as_str()).concat("/").concat(
            decimal_string(total as u64).as_str(),
        ).concat(".")
    }

    /// Cancels a running batch; gives the status to show, or nothing when no
    /// batch runs.
    pub fn cancel_batch(&mut self) -> (status: Option<String>)
        ensures
            old(self).batch_running ==> (*final(self) == (Workspace {
                batch_running: false,
                batch_total: 0,
                batch_completed: 0,
                spinner_tick: 0,
                ..*old(self)
            }) && (status matches Some(s) && s@ == "Batch translation canceled."@)),
            !old(self).batch_running ==> *final(self) == *old(self) && status is None,
    {
        if !self.batch_running {
            return None;
        }
        self.batch_running = false;
        self.batch_total = 0;
        self.batch_completed = 0;
        self.spinner_tick = 0;
        Some(String::from_str("Batch translation canceled."))
    }

    /// Advances the busy indicator.
    pub fn spinner_step(&mut self)
        ensures
            *final(self) == (Workspace { spinner_tick: wrapped_next(old(self).spinner_tick), ..*old(self) }),
    {
        self.spinner_tick = self.spinner_tick.wrapping_add(1);
    }

    /// Selects the entry with a key and loads it into the editor.
    pub fn select_entry(&mut self, key: EntryKey)
        ensures
            reselected(*old(self), *final(self), Some(key@)),
            final(self).selected_key == Some(key),
    {
        self.selected_key = Some(key);
        self.sync_editor_from_selection();
    }

    /// Shows the entries a filter selects and selects the first of them.
    pub fn select_filter(&mut self, filter: EntryFilter)
        ensures
            reselected(Workspace { filter, ..*old(self) }, *final(self), first_visible_key(old(self).entries(), filter)),
    {
        self.filter = filter;
        self.select_first_visible_entry();
    }

    /// Replaces one plural form in the editor; an index past the forms
    /// changes nothing.
    pub fn set_plural_input(&mut self, index: usize, value: String)
        ensures
            index < old(self).plural_inputs@.len() ==> *final(self) == (Workspace {
                plural_inputs: final(self).plural_inputs,
                ..*old(self)
            }) && final(self).plural_inputs@ == old(self).plural_inputs@.update(index as int, value),
            index >= old(self).plural_inputs@.len() ==> *final(self) == *old(self),
    {
        if index < self.plural_inputs.len() {
            self.plural_inputs.set(index, value);
        }
    }
}

} // verus!
