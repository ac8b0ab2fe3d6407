//! What the editor's screens show and filter: screens, entry filters,
//! status labels, shortened texts, and the request made for an entry.
use vstd::prelude::*;
use crate::client::{RequestModel, TranslationRequest, TranslationResponse};
use crate::model::{CatalogEntry, EntryKey, EntryModel, EntryStatus, strs_view};
use crate::text::{chars_of, decimal, decimal_string, is_blank, string_of, trim};
use crate::settings::ThemePreference;
use crate::model::CatalogStats;

verus! {

/// The screens of the editor.
#[derive(Debug, Clone, Copy, PartialEq, Eq, Structural)]
pub enum AppScreen {
    ProjectList,
    ProjectDashboard,
    Workspace,
    Settings,
}

/// Which entries the entry list shows.
#[derive(Debug, Clone, Copy, PartialEq, Eq, Structural)]
pub enum EntryFilter {
    All,
    Untranslated,
    Fuzzy,
    Warnings,
    Obsolete,
}

/// Whether the filter shows the entry.
pub open spec fn filter_matches(f: EntryFilter, e: EntryModel) -> bool {
    match f {
        EntryFilter::All => true,
        EntryFilter::Untranslated => e.status == EntryStatus::Untranslated,
        EntryFilter::Fuzzy => e.status == EntryStatus::Fuzzy,
        EntryFilter::Warnings => e.warnings.len() > 0,
        EntryFilter::Obsolete => e.status == EntryStatus::Obsolete,
    }
}

/// The label of a filter.
pub open spec fn filter_label(f: EntryFilter) -> Seq<char> {
    match f {
        EntryFilter::All => "All"@,
        EntryFilter::Untranslated => "Untranslated"@,
        EntryFilter::Fuzzy => "Fuzzy"@,
        EntryFilter::Warnings => "Warnings"@,
        EntryFilter::Obsolete => "Obsolete"@,
    }
}

impl EntryFilter {
    /// Whether the filter shows the entry.
    pub fn matches(self, entry: &CatalogEntry) -> (r: bool)
        ensures
            r == filter_matches(self, entry@),
    {
        match self {
            EntryFilter::All => true,
            EntryFilter::Untranslated => entry.status == EntryStatus::Untranslated,
            EntryFilter::Fuzzy => entry.status == EntryStatus::Fuzzy,
            EntryFilter::Warnings => entry.warnings.len() > 0,
            EntryFilter::Obsolete => entry.status == EntryStatus::Obsolete,
        }
    }

    /// The label shown for the filter.
    pub fn label(self) -> (r: &'static str)
        ensures
            r@ == filter_label(self),
    {
        match self {
            EntryFilter::All => "All",
            EntryFilter::Untranslated => "Untranslated",
            EntryFilter::Fuzzy => "Fuzzy",
            EntryFilter::Warnings => "Warnings",
            EntryFilter::Obsolete => "Obsolete",
        }
    }
}

/// The label of an entry status.
pub open spec fn status_text(status: EntryStatus) -> Seq<char> {
    match status {
        EntryStatus::Translated => "Translated"@,
        EntryStatus::Untranslated => "Untranslated"@,
        EntryStatus::Fuzzy => "Fuzzy"@,
        EntryStatus::Obsolete => "Obsolete"@,
    }
}

/// The label shown for an entry status.
pub fn status_label(status: EntryStatus) -> (r: &'static str)
    ensures
        r@ == status_text(status),
{
    match status {
        EntryStatus::Translated => "Translated",
        EntryStatus::Untranslated => "Untranslated",
        EntryStatus::Fuzzy => "Fuzzy",
        EntryStatus::Obsolete => "Obsolete",
    }
}

/// A text cut to `max` characters, with `...` after it when it was longer.
pub open spec fn truncated(s: Seq<char>, max: nat) -> Seq<char> {
    if s.len() <= max {
        s
    } else {
        s.take(max as int) + "..."@
    }
}

/// A text shortened to `max` characters, marked with `...` when cut.
pub fn truncate(value: &str, max: usize) -> (r: String)
    ensures
        r@ == truncated(value@, max as nat),
{
    let cs = chars_of(value);
    if cs.len() <= max {
        return value.to_string();
    }
    let mut r = string_of(&cs, 0, max);
    r.append("...");
    assert(cs@.subrange(0, max as int) =~= value@.take(max as int));
    r
}

/// The comments sent with an entry: its extracted comment and then its
/// translator comment, each only when not blank.
pub open spec fn request_comments(e: EntryModel) -> Seq<Seq<char>> {
    (if trim(e.extracted_comment).len() > 0 { seq![e.extracted_comment] } else { Seq::empty() })
        + (if trim(e.translator_comment).len() > 0 { seq![e.translator_comment] } else { Seq::empty() })
}

/// The request made to translate an entry into a locale.
pub open spec fn entry_request(e: EntryModel, target_locale: Seq<char>) -> RequestModel {
    RequestModel {
        key: e.key,
        target_locale,
        msgid: e.msgid,
        msgid_plural: e.msgid_plural,
        msgctxt: e.msgctxt,
        comments: request_comments(e),
        references: e.references,
    }
}

/// The request made to translate an entry into a locale.
pub fn request_for_entry(entry: CatalogEntry, target_locale: String) -> (r: TranslationRequest)
    ensures
        r@ == entry_request(entry@, target_locale@),
{
    let ghost e = entry@;
    let mut comments: Vec<String> = Vec::new();
    if !is_blank(entry.extracted_comment.as_str()) {
        comments.push(entry.extracted_comment);
    }
    let ghost first = comments@;
    if !is_blank(entry.translator_comment.as_str()) {
        comments.push(entry.translator_comment);
    }
    assert(strs_view(comments@) =~= request_comments(e));
    TranslationRequest {
        key: entry.key,
        target_locale,
        msgid: entry.msgid,
        msgid_plural: entry.msgid_plural,
        msgctxt: entry.msgctxt,
        comments,
        references: entry.references,
    }
}

/// A single translation that came back for an entry.
#[derive(Debug, Clone)]
pub struct SingleTranslationFinished {
    pub key: EntryKey,
    pub response: TranslationResponse,
}

/// The colour scheme shown.
#[derive(Debug, Clone, Copy, PartialEq, Eq, Structural)]
pub enum ThemeChoice {
    /// The dark scheme (Catppuccin Mocha).
    Mocha,
    /// The light scheme (Catppuccin Latte).
    Latte,
}

/// The colour scheme for a preference; for `System`, whether the system
/// was found to use a light appearance (a failed detection counts as dark).
pub fn resolve_theme(preference: ThemePreference, system_is_light: bool) -> (r: ThemeChoice)
    ensures
        r == match preference {
            ThemePreference::Dark => ThemeChoice::Mocha,
            ThemePreference::Light => ThemeChoice::Latte,
            ThemePreference::System => if system_is_light { ThemeChoice::Latte } else { ThemeChoice::Mocha },
        },
{
    match preference {
        ThemePreference::Dark => ThemeChoice::Mocha,
        ThemePreference::Light => ThemeChoice::Latte,
        ThemePreference::System => if system_is_light { ThemeChoice::Latte } else { ThemeChoice::Mocha },
    }
}

/// The label above a plural form in the editor.
pub open spec fn plural_label_text(index: nat) -> Seq<char> {
    if index == 0 {
        "Plural form 0 (e.g. n = 0 or n >= 2)"@
    } else if index == 1 {
        "Plural form 1 (e.g. n = 2\u{2013}4)"@
    } else {
        "Plural form "@ + decimal(index)
    }
}

/// The label above a plural form in the editor.
pub fn plural_form_label(index: usize) -> (r: String)
    ensures
        r@ == plural_label_text(index as nat),
{
    if index == 0 {
        String::from_str("Plural form 0 (e.g. n = 0 or n >= 2)")
    } else if index == 1 {
        String::from_str("Plural form 1 (e.g. n = 2\u{2013}4)")
    } else {
        String::from_str("Plural form ").concat(decimal_string(index as u64).as_str())
    }
}

/// How many catalogs a project card shows.
pub open spec fn language_count_text(n: nat) -> Seq<char> {
    if n == 0 {
        "No languages"@
    } else if n == 1 {
        "1 language"@
    } else {
        decimal(n) + " languages"@
    }
}

/// How many catalogs a project card shows.
pub fn language_count_label(n: usize) -> (r: String)
    ensures
        r@ == language_count_text(n as nat),
{
    if n == 0 {
        String::from_str("No languages")
    } else if n == 1 {
        String::from_str("1 language")
    } else {
        decimal_string(n as u64).concat(" languages")
    }
}

/// The project summary: how many languages, and how many entries the
/// largest catalog holds.
pub open spec fn summary_text(languages: nat, largest: nat) -> (Seq<char>, Seq<char>) {
    (decimal(languages) + " language"@ + (if languages == 1 { Seq::empty() } else { "s"@ }), decimal(largest) + " entries"@)
}

/// The largest total among the statistics (0 when there are none).
pub open spec fn largest_total(stats: Seq<(String, CatalogStats)>) -> nat
    decreases stats.len(),
{
    if stats.len() == 0 {
        0
    } else {
        let rest = largest_total(stats.drop_last());
        let t = stats.last().1.total as nat;
        if t > rest { t } else { rest }
    }
}

/// The project summary shown on its dashboard.
pub fn project_summary(languages: usize, stats: &Vec<(String, CatalogStats)>) -> (r: (String, String))
    ensures
        (r.0@, r.1@) == summary_text(languages as nat, largest_total(stats@)),
{
    let mut largest: usize = 0;
    let mut i: usize = 0;
    while i < stats.len()
        invariant
            i <= stats@.len(),
            largest as nat == largest_total(stats@.take(i as int)),
        decreases stats.len() - i,
    {
        assert(stats@.take(i + 1).drop_last() =~= stats@.take(i as int));
        if stats[i].1.total > largest {
            largest = stats[i].1.total;
        }
        i = i + 1;
    }
    assert(stats@.take(stats@.len() as int) =~= stats@);
    let mut first = decimal_string(languages as u64).concat(" language");
    if languages != 1 {
        first = first.concat("s");
    }
    (first, decimal_string(largest as u64).concat(" entries"))
}

/// The frames of the busy indicator.
pub open spec fn spinner_frames() -> Seq<char> {
    seq!['\u{280B}', '\u{2819}', '\u{2839}', '\u{2838}', '\u{283C}', '\u{2834}', '\u{2826}', '\u{2827}', '\u{2807}', '\u{280F}']
}

/// The frame of the busy indicator for a tick.
pub fn spinner_frame(tick: usize) -> (r: char)
    ensures
        r == spinner_frames()[(tick % 10) as int],
{
    let i = tick % 10;
    if i == 0 { '\u{280B}' }
    else if i == 1 { '\u{2819}' }
    else if i == 2 { '\u{2839}' }
    else if i == 3 { '\u{2838}' }
    else if i == 4 { '\u{283C}' }
    else if i == 5 { '\u{2834}' }
    else if i == 6 { '\u{2826}' }
    else if i == 7 { '\u{2827}' }
    else if i == 8 { '\u{2807}' }
    else { '\u{280F}' }
}

/// How a language's progress is coloured.
#[derive(Debug, Clone, Copy, PartialEq, Eq, Structural)]
pub enum ProgressTone {
    /// All entries translated.
    Complete,
    /// At least half translated.
    Half,
    /// Less than half translated.
    Low,
}

/// How a percentage of translated entries is coloured.
pub fn progress_tone(percent: u32) -> (r: ProgressTone)
    ensures
        r == if percent == 100 {
            ProgressTone::Complete
        } else if percent >= 50 {
            ProgressTone::Half
        } else {
            ProgressTone::Low
        },
{
    if percent == 100 {
        ProgressTone::Complete
    } else if percent >= 50 {
        ProgressTone::Half
    } else {
        ProgressTone::Low
    }
}

} // verus!
