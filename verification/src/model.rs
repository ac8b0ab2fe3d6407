//! The catalog data model: entries, keys, statuses, warnings and statistics.
use vstd::prelude::*;
use crate::text::{is_ws, trim};

verus! {

/// Whether a session was opened from a `.po` catalog or a `.pot` template.
#[derive(Debug, Clone, Copy, PartialEq, Eq, Structural)]
pub enum CatalogSourceKind {
    Po,
    Pot,
}

/// Identifies an entry: its source text and optional context.
#[derive(Debug, Clone)]
pub struct EntryKey {
    pub msgid: String,
    pub msgctxt: Option<String>,
}

/// The translation state of an entry.
#[derive(Debug, Clone, Copy, PartialEq, Eq, Structural)]
pub enum EntryStatus {
    Translated,
    Untranslated,
    Fuzzy,
    Obsolete,
}

/// The kind of problem a validation warning reports.
#[derive(Debug, Clone, Copy, PartialEq, Eq, Structural)]
pub enum ValidationCode {
    PlaceholderMismatch,
    TagMismatch,
    PluralMismatch,
}

/// A problem found when comparing a translation with its source.
#[derive(Debug, Clone)]
pub struct ValidationWarning {
    pub code: ValidationCode,
    pub message: String,
}

/// A proposed translation: the singular form and the plural forms.
#[derive(Debug, Clone)]
pub struct TranslationPayload {
    pub singular: String,
    pub plurals: Vec<String>,
}

/// One entry of a catalog, as the editor shows it.
#[derive(Debug, Clone)]
pub struct CatalogEntry {
    pub key: EntryKey,
    pub msgid: String,
    pub msgid_plural: Option<String>,
    pub msgctxt: Option<String>,
    pub msgstr: String,
    pub msgstr_plural: Vec<String>,
    pub extracted_comment: String,
    pub translator_comment: String,
    pub references: Vec<String>,
    pub flags: Vec<String>,
    pub previous_msgid: Option<String>,
    pub previous_msgid_plural: Option<String>,
    pub previous_msgctxt: Option<String>,
    pub obsolete: bool,
    pub status: EntryStatus,
    pub warnings: Vec<ValidationWarning>,
}

/// The catalog header: raw header comment and metadata fields.
///
/// `metadata` holds each key once; its order is not significant.
#[derive(Debug, Clone)]
pub struct CatalogHeader {
    pub raw_header: Option<String>,
    pub metadata_is_fuzzy: bool,
    pub metadata: Vec<(String, String)>,
    pub locale: Option<String>,
    pub plural_forms: Option<String>,
}

/// Counts of entries by status, and of entries with warnings.
#[derive(Debug, Clone, Copy, PartialEq, Eq, Structural)]
pub struct CatalogStats {
    pub total: usize,
    pub translated: usize,
    pub untranslated: usize,
    pub fuzzy: usize,
    pub obsolete: usize,
    pub warnings: usize,
}

/// The editable state of an open catalog.
#[derive(Debug, Clone)]
pub struct CatalogSession {
    pub source_kind: CatalogSourceKind,
    pub source_path: String,
    pub po_path: Option<String>,
    pub locale: Option<String>,
    pub dirty: bool,
    pub last_compiled_mo: Option<String>,
    pub header: CatalogHeader,
    pub stats: CatalogStats,
    pub entries: Vec<CatalogEntry>,
}

/// Where a save wrote the catalog, and the compiled `.mo` if any.
#[derive(Debug, Clone)]
pub struct SaveOutcome {
    pub po_path: String,
    pub mo_path: Option<String>,
}

// ── Views ──────────────────────────────────────────────────────────

/// The characters of an optional string.
pub open spec fn opt_view(o: Option<String>) -> Option<Seq<char>> {
    match o {
        Some(s) => Some(s@),
        None => None,
    }
}

/// The characters of each string of a sequence.
pub open spec fn strs_view(v: Seq<String>) -> Seq<Seq<char>> {
    v.map_values(|s: String| s@)
}

/// A key as plain values: (msgid, msgctxt).
pub type KeyView = (Seq<char>, Option<Seq<char>>);

impl View for EntryKey {
    type V = KeyView;

    open spec fn view(&self) -> KeyView {
        (self.msgid@, opt_view(self.msgctxt))
    }
}

/// A warning as plain values.
pub type WarningView = (ValidationCode, Seq<char>);

impl View for ValidationWarning {
    type V = WarningView;

    open spec fn view(&self) -> WarningView {
        (self.code, self.message@)
    }
}

/// The plain values of a sequence of warnings.
pub open spec fn warnings_view(v: Seq<ValidationWarning>) -> Seq<WarningView> {
    v.map_values(|w: ValidationWarning| w@)
}

/// `strs_view` of a pushed sequence.
pub proof fn lemma_strs_view_push(v: Seq<String>, x: String)
    ensures
        strs_view(v.push(x)) == strs_view(v).push(x@),
{
    assert(strs_view(v.push(x)) =~= strs_view(v).push(x@));
}

/// `strs_view` of a prefix.
pub proof fn lemma_strs_view_take(v: Seq<String>, n: int)
    requires
        0 <= n < v.len(),
    ensures
        strs_view(v).take(n + 1) == strs_view(v).take(n).push(v[n]@),
{
    assert(strs_view(v).take(n + 1) =~= strs_view(v).take(n).push(v[n]@));
}

/// A catalog entry as plain values.
pub struct EntryModel {
    pub key: KeyView,
    pub msgid: Seq<char>,
    pub msgid_plural: Option<Seq<char>>,
    pub msgctxt: Option<Seq<char>>,
    pub msgstr: Seq<char>,
    pub msgstr_plural: Seq<Seq<char>>,
    pub extracted_comment: Seq<char>,
    pub translator_comment: Seq<char>,
    pub references: Seq<Seq<char>>,
    pub flags: Seq<Seq<char>>,
    pub previous_msgid: Option<Seq<char>>,
    pub previous_msgid_plural: Option<Seq<char>>,
    pub previous_msgctxt: Option<Seq<char>>,
    pub obsolete: bool,
    pub status: EntryStatus,
    pub warnings: Seq<WarningView>,
}

impl View for CatalogEntry {
    type V = EntryModel;

    open spec fn view(&self) -> EntryModel {
        EntryModel {
            key: self.key@,
            msgid: self.msgid@,
            msgid_plural: opt_view(self.msgid_plural),
            msgctxt: opt_view(self.msgctxt),
            msgstr: self.msgstr@,
            msgstr_plural: strs_view(self.msgstr_plural@),
            extracted_comment: self.extracted_comment@,
            translator_comment: self.translator_comment@,
            references: strs_view(self.references@),
            flags: strs_view(self.flags@),
            previous_msgid: opt_view(self.previous_msgid),
            previous_msgid_plural: opt_view(self.previous_msgid_plural),
            previous_msgctxt: opt_view(self.previous_msgctxt),
            obsolete: self.obsolete,
            status: self.status,
            warnings: warnings_view(self.warnings@),
        }
    }
}

/// The plain values of a sequence of entries.
pub open spec fn entries_view(v: Seq<CatalogEntry>) -> Seq<EntryModel> {
    v.map_values(|e: CatalogEntry| e@)
}

/// Whether a string is empty after trimming whitespace.
pub open spec fn blank(s: Seq<char>) -> bool {
    trim(s).len() == 0
}

/// The status an entry has: obsolete first, then fuzzy, then translated when
/// the singular or some plural form is not blank.
pub open spec fn classify(
    obsolete: bool,
    flags: Seq<Seq<char>>,
    msgstr: Seq<char>,
    msgstr_plural: Seq<Seq<char>>,
) -> EntryStatus {
    if obsolete {
        EntryStatus::Obsolete
    } else if flags.contains("fuzzy"@) {
        EntryStatus::Fuzzy
    } else if !blank(msgstr) || exists|i: int|
        0 <= i < msgstr_plural.len() && !blank(#[trigger] msgstr_plural[i]) {
        EntryStatus::Translated
    } else {
        EntryStatus::Untranslated
    }
}

/// Statistics as plain numbers.
pub struct StatsModel {
    pub total: nat,
    pub translated: nat,
    pub untranslated: nat,
    pub fuzzy: nat,
    pub obsolete: nat,
    pub warnings: nat,
}

impl View for CatalogStats {
    type V = StatsModel;

    open spec fn view(&self) -> StatsModel {
        StatsModel {
            total: self.total as nat,
            translated: self.translated as nat,
            untranslated: self.untranslated as nat,
            fuzzy: self.fuzzy as nat,
            obsolete: self.obsolete as nat,
            warnings: self.warnings as nat,
        }
    }
}

/// The statistics of a sequence of entries: how many have each status and
/// how many carry at least one warning.
pub open spec fn stats_of(es: Seq<EntryModel>) -> StatsModel
    decreases es.len(),
{
    if es.len() == 0 {
        StatsModel { total: 0, translated: 0, untranslated: 0, fuzzy: 0, obsolete: 0, warnings: 0 }
    } else {
        add_entry(stats_of(es.drop_last()), es.last())
    }
}

/// `s` with one more entry counted (total included).
pub open spec fn add_entry(s: StatsModel, e: EntryModel) -> StatsModel {
    StatsModel {
        total: s.total + 1,
        translated: s.translated + if e.status == EntryStatus::Translated { 1nat } else { 0 },
        untranslated: s.untranslated + if e.status == EntryStatus::Untranslated { 1nat } else { 0 },
        fuzzy: s.fuzzy + if e.status == EntryStatus::Fuzzy { 1nat } else { 0 },
        obsolete: s.obsolete + if e.status == EntryStatus::Obsolete { 1nat } else { 0 },
        warnings: s.warnings + if e.warnings.len() > 0 { 1nat } else { 0 },
    }
}

/// Every status count of `stats_of` is at most the number of entries.
pub proof fn lemma_stats_bounded(es: Seq<EntryModel>)
    ensures
        stats_of(es).total == es.len(),
        stats_of(es).translated <= es.len(),
        stats_of(es).untranslated <= es.len(),
        stats_of(es).fuzzy <= es.len(),
        stats_of(es).obsolete <= es.len(),
        stats_of(es).warnings <= es.len(),
        stats_of(es).translated + stats_of(es).untranslated + stats_of(es).fuzzy
            + stats_of(es).obsolete == es.len(),
    decreases es.len(),
{
    if es.len() > 0 {
        lemma_stats_bounded(es.drop_last());
    }
}


// ── Copies with known contents ─────────────────────────────────────

/// A copy of an optional string.
pub fn copy_opt(o: &Option<String>) -> (r: Option<String>)
    ensures
        r == *o,
{
    match o {
        Some(s) => Some(s.clone()),
        None => None,
    }
}

/// A copy of a vector of strings.
pub fn copy_strings(v: &Vec<String>) -> (r: Vec<String>)
    ensures
        r@ == v@,
{
    let mut r: Vec<String> = Vec::new();
    let mut i: usize = 0;
    while i < v.len()
        invariant
            i <= v@.len(),
            r@ == v@.take(i as int),
        decreases v.len() - i,
    {
        r.push(v[i].clone());
        assert(v@.take(i + 1) == v@.take(i as int).push(v@[i as int]));
        i = i + 1;
    }
    assert(v@.take(v@.len() as int) == v@);
    r
}

impl EntryKey {
    /// A copy of the key.
    pub fn duplicate(&self) -> (r: EntryKey)
        ensures
            r == *self,
    {
        EntryKey { msgid: self.msgid.clone(), msgctxt: copy_opt(&self.msgctxt) }
    }

    /// Whether two keys are equal.
    pub fn same_as(&self, other: &EntryKey) -> (r: bool)
        ensures
            r == (self@ == other@),
    {
        if self.msgid != other.msgid {
            return false;
        }
        match (&self.msgctxt, &other.msgctxt) {
            (Some(a), Some(b)) => *a == *b,
            (None, None) => true,
            _ => false,
        }
    }
}

impl ValidationWarning {
    /// A copy of the warning.
    pub fn duplicate(&self) -> (r: ValidationWarning)
        ensures
            r == *self,
    {
        ValidationWarning { code: self.code, message: self.message.clone() }
    }
}

/// A copy of a vector of warnings.
pub fn copy_warnings(v: &Vec<ValidationWarning>) -> (r: Vec<ValidationWarning>)
    ensures
        r@ == v@,
{
    let mut r: Vec<ValidationWarning> = Vec::new();
    let mut i: usize = 0;
    while i < v.len()
        invariant
            i <= v@.len(),
            r@ == v@.take(i as int),
        decreases v.len() - i,
    {
        r.push(v[i].duplicate());
        assert(v@.take(i + 1) == v@.take(i as int).push(v@[i as int]));
        i = i + 1;
    }
    assert(v@.take(v@.len() as int) == v@);
    r
}

impl CatalogEntry {
    /// A copy of the entry.
    pub fn duplicate(&self) -> (r: CatalogEntry)
        ensures
            r@ == self@,
    {
        CatalogEntry {
            key: self.key.duplicate(),
            msgid: self.msgid.clone(),
            msgid_plural: copy_opt(&self.msgid_plural),
            msgctxt: copy_opt(&self.msgctxt),
            msgstr: self.msgstr.clone(),
            msgstr_plural: copy_strings(&self.msgstr_plural),
            extracted_comment: self.extracted_comment.clone(),
            translator_comment: self.translator_comment.clone(),
            references: copy_strings(&self.references),
            flags: copy_strings(&self.flags),
            previous_msgid: copy_opt(&self.previous_msgid),
            previous_msgid_plural: copy_opt(&self.previous_msgid_plural),
            previous_msgctxt: copy_opt(&self.previous_msgctxt),
            obsolete: self.obsolete,
            status: self.status,
            warnings: copy_warnings(&self.warnings),
        }
    }
}

} // verus!
