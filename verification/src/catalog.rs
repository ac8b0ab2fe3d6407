//! An open gettext catalog: the `rspolib` file and the editor's view of it,
//! kept in step.
use vstd::prelude::*;
use crate::text::{decimal, decimal_string, is_blank, push_char, str_eq, trim, trim_str};
use crate::po_check::{check_lines, check_po_text};
use crate::model::{
    CatalogEntry, CatalogHeader, CatalogSession, CatalogSourceKind, CatalogStats, EntryKey,
    EntryModel, EntryStatus, KeyView, SaveOutcome, StatsModel, TranslationPayload,
    ValidationWarning, add_entry, blank, classify, copy_opt, copy_strings, entries_view,
    lemma_strs_view_push, lemma_strs_view_take, opt_view, warnings_view, stats_of, strs_view,
};
use crate::validation::{validate_translation, validation_of};
use crate::po::{
    PoEntryData, PoEntryView, PoFileView, merge_entries, po_contents, po_entry, po_entry_count,
    po_entry_key, po_header, po_merge, po_metadata_get, po_metadata_insert, po_metadata_is_fuzzy,
    po_metadata_pairs, po_mo_bytes, po_mo_image, po_parse, po_parsed, po_render, po_rendered, po_set_flags,
    po_set_translation, with_translation, keys_apart,
};
use crate::error::CatalogError;
use crate::paths::{extension_of, path_extension, path_with_extension, with_extension};
use crate::po_text::{lines_of, repair_po_text, repaired_text};


verus! {

// ── The entry model ────────────────────────────────────────────────

/// The characters of an optional string, or nothing.
pub open spec fn or_empty(o: Option<Seq<char>>) -> Seq<char> {
    match o {
        Some(s) => s,
        None => Seq::empty(),
    }
}

/// A reference `path:line`.
pub open spec fn reference_text(o: (Seq<char>, Seq<char>)) -> Seq<char> {
    o.0 + ":"@ + o.1
}

/// The editor's view of a file entry: its texts, its references as
/// `path:line`, its status and the warnings its current translation raises.
pub open spec fn entry_model(p: PoEntryView) -> EntryModel {
    let msgstr = or_empty(p.msgstr);
    EntryModel {
        key: (p.msgid, p.msgctxt),
        msgid: p.msgid,
        msgid_plural: p.msgid_plural,
        msgctxt: p.msgctxt,
        msgstr: msgstr,
        msgstr_plural: p.msgstr_plural,
        extracted_comment: or_empty(p.comment),
        translator_comment: or_empty(p.tcomment),
        references: p.occurrences.map_values(|o: (Seq<char>, Seq<char>)| reference_text(o)),
        flags: p.flags,
        previous_msgid: p.previous_msgid,
        previous_msgid_plural: p.previous_msgid_plural,
        previous_msgctxt: p.previous_msgctxt,
        obsolete: p.obsolete,
        status: classify(p.obsolete, p.flags, msgstr, p.msgstr_plural),
        warnings: validation_of(p.msgid, p.msgid_plural, msgstr, p.msgstr_plural),
    }
}

/// The editor's view of every entry of a file.
pub open spec fn entries_model(es: Seq<PoEntryView>) -> Seq<EntryModel> {
    es.map_values(|p: PoEntryView| entry_model(p))
}

fn unwrap_or_empty(o: &Option<String>) -> (r: String)
    ensures
        r@ == or_empty(opt_view(*o)),
{
    match o {
        Some(s) => s.clone(),
        None => String::new(),
    }
}

/// Whether `flags` holds `flag`.
pub fn has_flag(flags: &Vec<String>, flag: &str) -> (r: bool)
    ensures
        r == strs_view(flags@).contains(flag@),
{
    let mut i: usize = 0;
    while i < flags.len()
        invariant
            i <= flags@.len(),
            forall|j: int| 0 <= j < i ==> flags@[j]@ != flag@,
        decreases flags.len() - i,
    {
        if str_eq(flags[i].as_str(), flag) {
            assert(strs_view(flags@)[i as int] == flag@);
            return true;
        }
        i = i + 1;
    }
    proof {
        if strs_view(flags@).contains(flag@) {
            let j = choose|j: int| 0 <= j < strs_view(flags@).len() && strs_view(flags@)[j] == flag@;
            assert(flags@[j]@ == flag@);
        }
    }
    false
}

/// The status of an entry (see `classify`).
pub fn classify_entry(obsolete: bool, flags: &Vec<String>, msgstr: &String, plurals: &Vec<String>) -> (r: EntryStatus)
    ensures
        r == classify(obsolete, strs_view(flags@), msgstr@, strs_view(plurals@)),
{
    if obsolete {
        return EntryStatus::Obsolete;
    }
    if has_flag(flags, "fuzzy") {
        return EntryStatus::Fuzzy;
    }
    if !is_blank(msgstr.as_str()) {
        return EntryStatus::Translated;
    }
    let mut i: usize = 0;
    while i < plurals.len()
        invariant
            i <= plurals@.len(),
            !obsolete,
            !strs_view(flags@).contains("fuzzy"@),
            forall|j: int| 0 <= j < i ==> blank(#[trigger] strs_view(plurals@)[j]),
        decreases plurals.len() - i,
    {
        if !is_blank(plurals[i].as_str()) {
            assert(!blank(strs_view(plurals@)[i as int]));
            return EntryStatus::Translated;
        }
        i = i + 1;
    }
    EntryStatus::Untranslated
}

fn references_of(occurrences: &Vec<(String, String)>) -> (r: Vec<String>)
    ensures
        strs_view(r@) == crate::po::pairs_view(occurrences@).map_values(
            |o: (Seq<char>, Seq<char>)| reference_text(o),
        ),
{
    let ghost target = crate::po::pairs_view(occurrences@).map_values(
        |o: (Seq<char>, Seq<char>)| reference_text(o),
    );
    let mut r: Vec<String> = Vec::new();
    let mut i: usize = 0;
    while i < occurrences.len()
        invariant
            i <= occurrences@.len(),
            target == crate::po::pairs_view(occurrences@).map_values(
                |o: (Seq<char>, Seq<char>)| reference_text(o),
            ),
            strs_view(r@) == target.take(i as int),
        decreases occurrences.len() - i,
    {
        let (path, line) = &occurrences[i];
        let s = path.clone().concat(":").concat(line.as_str());
        let ghost prev = r@;
        r.push(s);
        proof {
            lemma_strs_view_push(prev, s);
            assert(target.take(i + 1) =~= target.take(i as int).push(target[i as int]));
        }
        i = i + 1;
    }
    assert(target.take(occurrences@.len() as int) == target);
    r
}

/// The editor's entry for a file entry.
pub fn entry_to_model(p: &PoEntryData) -> (r: CatalogEntry)
    ensures
        r@ == entry_model(p@),
{
    let msgstr = unwrap_or_empty(&p.msgstr);
    let status = classify_entry(p.obsolete, &p.flags, &msgstr, &p.msgstr_plural);
    let mut model = CatalogEntry {
        key: EntryKey { msgid: p.msgid.clone(), msgctxt: copy_opt(&p.msgctxt) },
        msgid: p.msgid.clone(),
        msgid_plural: copy_opt(&p.msgid_plural),
        msgctxt: copy_opt(&p.msgctxt),
        msgstr: msgstr,
        msgstr_plural: copy_strings(&p.msgstr_plural),
        extracted_comment: unwrap_or_empty(&p.comment),
        translator_comment: unwrap_or_empty(&p.tcomment),
        references: references_of(&p.occurrences),
        flags: copy_strings(&p.flags),
        previous_msgid: copy_opt(&p.previous_msgid),
        previous_msgid_plural: copy_opt(&p.previous_msgid_plural),
        previous_msgctxt: copy_opt(&p.previous_msgctxt),
        obsolete: p.obsolete,
        status: status,
        warnings: Vec::new(),
    };
    let payload = TranslationPayload {
        singular: model.msgstr.clone(),
        plurals: copy_strings(&p.msgstr_plural),
    };
    model.warnings = validate_translation(&model, &payload);
    model
}

// ── Statistics ─────────────────────────────────────────────────────

/// The statistics of the entries.
pub fn build_stats(entries: &Vec<CatalogEntry>) -> (r: CatalogStats)
    ensures
        r@ == stats_of(entries_view(entries@)),
{
    let mut stats = CatalogStats {
        total: entries.len(),
        translated: 0,
        untranslated: 0,
        fuzzy: 0,
        obsolete: 0,
        warnings: 0,
    };
    let mut i: usize = 0;
    while i < entries.len()
        invariant
            i <= entries@.len(),
            stats.total == entries@.len(),
            ({
                let s = stats_of(entries_view(entries@).take(i as int));
                &&& stats.translated == s.translated
                &&& stats.untranslated == s.untranslated
                &&& stats.fuzzy == s.fuzzy
                &&& stats.obsolete == s.obsolete
                &&& stats.warnings == s.warnings
            }),
        decreases entries.len() - i,
    {
        let ghost es = entries_view(entries@);
        proof {
            assert(es.take(i + 1).drop_last() =~= es.take(i as int));
            crate::model::lemma_stats_bounded(es.take(i as int));
        }
        match entries[i].status {
            EntryStatus::Translated => stats.translated = stats.translated + 1,
            EntryStatus::Untranslated => stats.untranslated = stats.untranslated + 1,
            EntryStatus::Fuzzy => stats.fuzzy = stats.fuzzy + 1,
            EntryStatus::Obsolete => stats.obsolete = stats.obsolete + 1,
        }
        if entries[i].warnings.len() > 0 {
            stats.warnings = stats.warnings + 1;
        }
        i = i + 1;
    }
    proof {
        assert(entries_view(entries@).take(entries@.len() as int) =~= entries_view(entries@));
        crate::model::lemma_stats_bounded(entries_view(entries@));
    }
    stats
}

/// `x - 1`, or 0.
pub open spec fn sat_dec(x: usize) -> usize {
    if x == 0 { 0 } else { (x - 1) as usize }
}

/// `x + 1`, or `x` at the top of the range.
pub open spec fn sat_inc(x: usize) -> usize {
    if x == usize::MAX { x } else { (x + 1) as usize }
}

/// The statistics with `e` no longer counted (each count stays at 0 or above).
pub open spec fn dec_stats(s: CatalogStats, e: EntryModel) -> CatalogStats {
    CatalogStats {
        total: s.total,
        translated: if e.status == EntryStatus::Translated { sat_dec(s.translated) } else { s.translated },
        untranslated: if e.status == EntryStatus::Untranslated { sat_dec(s.untranslated) } else { s.untranslated },
        fuzzy: if e.status == EntryStatus::Fuzzy { sat_dec(s.fuzzy) } else { s.fuzzy },
        obsolete: if e.status == EntryStatus::Obsolete { sat_dec(s.obsolete) } else { s.obsolete },
        warnings: if e.warnings.len() > 0 { sat_dec(s.warnings) } else { s.warnings },
    }
}

/// The statistics with `e` counted once more (the total is unchanged).
pub open spec fn inc_stats(s: CatalogStats, e: EntryModel) -> CatalogStats {
    CatalogStats {
        total: s.total,
        translated: if e.status == EntryStatus::Translated { sat_inc(s.translated) } else { s.translated },
        untranslated: if e.status == EntryStatus::Untranslated { sat_inc(s.untranslated) } else { s.untranslated },
        fuzzy: if e.status == EntryStatus::Fuzzy { sat_inc(s.fuzzy) } else { s.fuzzy },
        obsolete: if e.status == EntryStatus::Obsolete { sat_inc(s.obsolete) } else { s.obsolete },
        warnings: if e.warnings.len() > 0 { sat_inc(s.warnings) } else { s.warnings },
    }
}

fn increment_stats(stats: &mut CatalogStats, entry: &CatalogEntry)
    ensures
        *final(stats) == inc_stats(*old(stats), entry@),
{
    match entry.status {
        EntryStatus::Translated => if stats.translated < usize::MAX { stats.translated = stats.translated + 1 },
        EntryStatus::Untranslated => if stats.untranslated < usize::MAX { stats.untranslated = stats.untranslated + 1 },
        EntryStatus::Fuzzy => if stats.fuzzy < usize::MAX { stats.fuzzy = stats.fuzzy + 1 },
        EntryStatus::Obsolete => if stats.obsolete < usize::MAX { stats.obsolete = stats.obsolete + 1 },
    }
    if entry.warnings.len() > 0 && stats.warnings < usize::MAX {
        stats.warnings = stats.warnings + 1;
    }
}

fn decrement_stats(stats: &mut CatalogStats, entry: &CatalogEntry)
    ensures
        *final(stats) == dec_stats(*old(stats), entry@),
{
    match entry.status {
        EntryStatus::Translated => stats.translated = stats.translated.saturating_sub(1),
        EntryStatus::Untranslated => stats.untranslated = stats.untranslated.saturating_sub(1),
        EntryStatus::Fuzzy => stats.fuzzy = stats.fuzzy.saturating_sub(1),
        EntryStatus::Obsolete => stats.obsolete = stats.obsolete.saturating_sub(1),
    }
    if entry.warnings.len() > 0 {
        stats.warnings = stats.warnings.saturating_sub(1);
    }
}

/// Counting an entry does not depend on where it stands.
pub proof fn lemma_stats_remove(es: Seq<EntryModel>, i: int)
    requires
        0 <= i < es.len(),
    ensures
        stats_of(es) == add_entry(stats_of(es.remove(i)), es[i]),
    decreases es.len(),
{
    if i == es.len() - 1 {
        assert(es.remove(i) =~= es.drop_last());
    } else {
        lemma_stats_remove(es.drop_last(), i);
        assert(es.remove(i).drop_last() =~= es.drop_last().remove(i));
        assert(es.remove(i).last() == es.last());
    }
}

/// Replacing one entry: taking the old entry out and counting the new one
/// gives the statistics of the updated entries.
pub proof fn lemma_stats_update(es: Seq<EntryModel>, i: int, m: EntryModel, s: CatalogStats)
    requires
        0 <= i < es.len(),
        s@ == stats_of(es),
    ensures
        inc_stats(dec_stats(s, es[i]), m)@ == stats_of(es.update(i, m)),
{
    let r = es.remove(i);
    let u = es.update(i, m);
    lemma_stats_remove(es, i);
    lemma_stats_remove(u, i);
    assert(u.remove(i) =~= r);
    assert(u[i] == m);
    let a = stats_of(r);
    crate::model::lemma_stats_bounded(r);
    assert(stats_of(es) == add_entry(a, es[i]));
    assert(stats_of(u) == add_entry(a, m));
    let d = dec_stats(s, es[i]);
    assert(d.translated == a.translated);
    assert(d.untranslated == a.untranslated);
    assert(d.fuzzy == a.fuzzy);
    assert(d.obsolete == a.obsolete);
    assert(d.warnings == a.warnings);
    assert(a.translated < usize::MAX);
    assert(a.untranslated < usize::MAX);
    assert(a.fuzzy < usize::MAX);
    assert(a.obsolete < usize::MAX);
    assert(a.warnings < usize::MAX);
}


// ── Keys ───────────────────────────────────────────────────────────

/// The keys of file entries.
pub open spec fn po_keys(es: Seq<PoEntryView>) -> Seq<KeyView> {
    es.map_values(|p: PoEntryView| (p.msgid, p.msgctxt))
}

/// The keys of editor entries.
pub open spec fn model_keys(es: Seq<EntryModel>) -> Seq<KeyView> {
    es.map_values(|e: EntryModel| e.key)
}

/// `i` is the first position of `k` in `keys`.
pub open spec fn is_first(keys: Seq<KeyView>, k: KeyView, i: int) -> bool {
    &&& 0 <= i < keys.len()
    &&& keys[i] == k
    &&& forall|j: int| 0 <= j < i ==> keys[j] != k
}

/// The first position of `k` in `keys` (meaningful when `keys` holds `k`).
pub open spec fn first_index(keys: Seq<KeyView>, k: KeyView) -> int {
    choose|i: int| is_first(keys, k, i)
}

/// The first position is unique.
pub proof fn lemma_first_index(keys: Seq<KeyView>, k: KeyView, i: int)
    requires
        is_first(keys, k, i),
    ensures
        first_index(keys, k) == i,
{
    let j = first_index(keys, k);
    assert(is_first(keys, k, j));
    if j < i {
        assert(keys[j] != k);
    } else if i < j {
        assert(keys[i] != k);
    }
}

/// A key that occurs has a first position.
pub proof fn lemma_first_exists(keys: Seq<KeyView>, k: KeyView)
    requires
        keys.contains(k),
    ensures
        is_first(keys, k, first_index(keys, k)),
    decreases keys.len(),
{
    let n = keys.len() - 1;
    if keys[n] == k && !keys.drop_last().contains(k) {
        assert forall|j: int| 0 <= j < n implies keys[j] != k by {
            if keys[j] == k {
                assert(keys.drop_last()[j] == k);
            }
        }
        assert(is_first(keys, k, n));
    } else {
        let t = keys.drop_last();
        if !t.contains(k) {
            let w = choose|w: int| 0 <= w < keys.len() && keys[w] == k;
            if w < n {
                assert(t[w] == k);
            }
        }
        lemma_first_exists(t, k);
        let i = first_index(t, k);
        assert(keys[i] == t[i]);
        assert forall|j: int| 0 <= j < i implies keys[j] != k by {
            assert(keys[j] == t[j]);
        }
        assert(is_first(keys, k, i));
    }
}

/// The editor's keys are the file's keys.
pub proof fn lemma_model_keys(es: Seq<PoEntryView>)
    ensures
        model_keys(entries_model(es)) == po_keys(es),
{
    assert(model_keys(entries_model(es)) =~= po_keys(es));
}

/// The first entry of the file with `key`, if any.
pub fn find_po_index(file: &rspolib::POFile, key: &EntryKey) -> (r: Option<usize>)
    ensures
        match r {
            Some(i) => is_first(po_keys(po_contents(*file).entries), key@, i as int),
            None => !po_keys(po_contents(*file).entries).contains(key@),
        },
{
    let ghost keys = po_keys(po_contents(*file).entries);
    let n = po_entry_count(file);
    let mut i: usize = 0;
    while i < n
        invariant
            n == keys.len(),
            keys == po_keys(po_contents(*file).entries),
            i <= n,
            forall|j: int| 0 <= j < i ==> keys[j] != key@,
        decreases n - i,
    {
        let (msgid, msgctxt) = po_entry_key(file, i);
        let probe = EntryKey { msgid, msgctxt };
        if probe.same_as(key) {
            return Some(i);
        }
        i = i + 1;
    }
    proof {
        if keys.contains(key@) {
            let w = choose|w: int| 0 <= w < keys.len() && keys[w] == key@;
            assert(keys[w] != key@);
        }
    }
    None
}

/// The line appended to catalog text before it is parsed: a `#~|` line,
/// which the parser skips, holding a NUL character, so that the text can
/// never be taken for a file name.
pub open spec fn marker() -> Seq<char> {
    seq!['\n', '#', '~', '|', ' ', '\0']
}

/// Catalog text as handed to the parser: with the marker line after it.
pub open spec fn marked(text: Seq<char>) -> Seq<char> {
    text + marker()
}

/// Whether the line check refuses catalog text (with its marker line).
pub open spec fn refused(text: Seq<char>) -> bool {
    check_lines(lines_of(marked(text))) is Err
}

/// The syntax error for refused text: the number of the first line refused.
pub open spec fn refusal(text: Seq<char>) -> Seq<char> {
    match check_lines(lines_of(marked(text))) {
        Err(n) => "unsupported syntax at line "@ + decimal(n),
        Ok(_) => Seq::empty(),
    }
}

/// What parsing catalog text gives: the refusal of the line check, else
/// what the parser gives for the marked text.
pub open spec fn parse_outcome(text: Seq<char>) -> Result<PoFileView, Seq<char>> {
    if refused(text) {
        Err(refusal(text))
    } else {
        po_parsed(marked(text))
    }
}

/// The outcome of a parse as plain values.
pub open spec fn parse_view(r: Result<rspolib::POFile, String>) -> Result<PoFileView, Seq<char>> {
    match r {
        Ok(f) => Ok(po_contents(f)),
        Err(m) => Err(m@),
    }
}

/// Parses catalog text: text the line check refuses is a syntax error
/// naming its first refused line; other text goes to the parser, with the
/// marker line after it.
fn parse_text(text: &str) -> (r: Result<rspolib::POFile, String>)
    ensures
        parse_view(r) == parse_outcome(text@),
{
    let mut handed = String::from_str(text);
    push_char(&mut handed, '\n');
    push_char(&mut handed, '#');
    push_char(&mut handed, '~');
    push_char(&mut handed, '|');
    push_char(&mut handed, ' ');
    push_char(&mut handed, '\0');
    assert(handed@ =~= marked(text@));
    assert(handed@[handed@.len() - 1] == '\0');
    match check_po_text(handed.as_str()) {
        Ok(()) => po_parse(handed.as_str()),
        Err(n) => Err(String::from_str("unsupported syntax at line ").concat(decimal_string(n as u64).as_str())),
    }
}

/// The compiled catalog's extension holds no path separator.
proof fn lemma_mo_has_no_separator()
    ensures
        !crate::paths::has_separator("mo"@),
{
    reveal_strlit("mo");
    assert(!"mo"@.contains('/'));
    assert(!"mo"@.contains('\\'));
}

/// The first editor entry with `key`, if any.
pub fn find_model_index(entries: &Vec<CatalogEntry>, key: &EntryKey) -> (r: Option<usize>)
    ensures
        match r {
            Some(i) => is_first(model_keys(entries_view(entries@)), key@, i as int),
            None => !model_keys(entries_view(entries@)).contains(key@),
        },
{
    let ghost keys = model_keys(entries_view(entries@));
    let mut i: usize = 0;
    while i < entries.len()
        invariant
            keys == model_keys(entries_view(entries@)),
            i <= entries@.len(),
            forall|j: int| 0 <= j < i ==> keys[j] != key@,
        decreases entries.len() - i,
    {
        if entries[i].key.same_as(key) {
            assert(keys[i as int] == entries@[i as int].key@);
            return Some(i);
        }
        assert(keys[i as int] == entries@[i as int].key@);
        i = i + 1;
    }
    proof {
        if keys.contains(key@) {
            let w = choose|w: int| 0 <= w < keys.len() && keys[w] == key@;
            assert(keys[w] != key@);
        }
    }
    None
}

// ── Flags ──────────────────────────────────────────────────────────

/// The flags with `flag` added unless already present.
pub open spec fn with_flag(flags: Seq<Seq<char>>, flag: Seq<char>) -> Seq<Seq<char>> {
    if flags.contains(flag) { flags } else { flags.push(flag) }
}

/// The flags with every occurrence of `flag` removed, order kept.
pub open spec fn without_flag(flags: Seq<Seq<char>>, flag: Seq<char>) -> Seq<Seq<char>>
    decreases flags.len(),
{
    if flags.len() == 0 {
        flags
    } else {
        let rest = without_flag(flags.drop_last(), flag);
        if flags.last() != flag { rest.push(flags.last()) } else { rest }
    }
}

fn ensure_flag(flags: Vec<String>, flag: &str) -> (r: Vec<String>)
    ensures
        strs_view(r@) == with_flag(strs_view(flags@), flag@),
{
    let mut flags = flags;
    if !has_flag(&flags, flag) {
        let ghost prev = flags@;
        let f = String::from_str(flag);
        flags.push(f);
        proof {
            lemma_strs_view_push(prev, f);
        }
    }
    flags
}

fn remove_flag(flags: &Vec<String>, flag: &str) -> (r: Vec<String>)
    ensures
        strs_view(r@) == without_flag(strs_view(flags@), flag@),
{
    let ghost fv = strs_view(flags@);
    let mut r: Vec<String> = Vec::new();
    let mut i: usize = 0;
    while i < flags.len()
        invariant
            fv == strs_view(flags@),
            i <= flags@.len(),
            strs_view(r@) == without_flag(fv.take(i as int), flag@),
        decreases flags.len() - i,
    {
        let ghost prev = r@;
        proof {
            assert(fv.take(i + 1).drop_last() =~= fv.take(i as int));
            assert(fv.take(i + 1).last() == flags@[i as int]@);
        }
        if !str_eq(flags[i].as_str(), flag) {
            let f = flags[i].clone();
            r.push(f);
            proof {
                lemma_strs_view_push(prev, f);
            }
        }
        i = i + 1;
    }
    assert(fv.take(flags@.len() as int) =~= fv);
    r
}

// ── The document ───────────────────────────────────────────────────

/// The value the metadata holds for `k`, if any.
pub open spec fn metadata_value(m: Map<Seq<char>, Seq<char>>, k: Seq<char>) -> Option<Seq<char>> {
    if m.contains_key(k) { Some(m[k]) } else { None }
}

/// The pairs hold exactly the map, each key once.
pub open spec fn pairs_hold(v: Seq<(String, String)>, m: Map<Seq<char>, Seq<char>>) -> bool {
    &&& forall|i: int| 0 <= i < v.len() ==> m.contains_key(#[trigger] v[i].0@) && m[v[i].0@] == v[i].1@
    &&& forall|k: Seq<char>| m.contains_key(k) ==> exists|i: int| 0 <= i < v.len() && #[trigger] v[i].0@ == k
    &&& forall|i: int, j: int| 0 <= i < j < v.len() ==> v[i].0@ != v[j].0@
}

/// The header shows the file's header comment and metadata, with the
/// `Language` and `Plural-Forms` fields picked out.
pub open spec fn header_shows(h: CatalogHeader, f: PoFileView) -> bool {
    &&& opt_view(h.raw_header) == f.header
    &&& h.metadata_is_fuzzy == f.metadata_is_fuzzy
    &&& pairs_hold(h.metadata@, f.metadata)
    &&& opt_view(h.locale) == metadata_value(f.metadata, "Language"@)
    &&& opt_view(h.plural_forms) == metadata_value(f.metadata, "Plural-Forms"@)
}

/// The session shows the file: locale, header and one editor entry per file
/// entry, in order.
pub open spec fn shows(s: CatalogSession, f: PoFileView) -> bool {
    &&& opt_view(s.locale) == metadata_value(f.metadata, "Language"@)
    &&& header_shows(s.header, f)
    &&& entries_view(s.entries@) == entries_model(f.entries)
}

/// The statistics count the session's entries.
pub open spec fn counted(s: CatalogSession) -> bool {
    s.stats@ == stats_of(entries_view(s.entries@))
}

/// The session agrees with `t` except for entries, statistics, locale and header.
pub open spec fn same_settings(s: CatalogSession, t: CatalogSession) -> bool {
    &&& s.source_kind == t.source_kind
    &&& s.source_path == t.source_path
    &&& s.po_path == t.po_path
    &&& s.dirty == t.dirty
    &&& s.last_compiled_mo == t.last_compiled_mo
}

/// The session agrees with `t` except for entries and statistics.
pub open spec fn same_but_entries(s: CatalogSession, t: CatalogSession) -> bool {
    &&& same_settings(s, t)
    &&& s.locale == t.locale
    &&& s.header == t.header
}

/// What refreshing the entry with key `k` does to the session's entries and
/// statistics: the first editor entry with the key is rebuilt from the first
/// file entry with the key, the old entry is no longer counted and the new
/// one is. When either is missing nothing changes.
pub open spec fn refresh_entry_effect(
    es: Seq<EntryModel>,
    stats: CatalogStats,
    f: PoFileView,
    k: KeyView,
) -> (Seq<EntryModel>, CatalogStats) {
    if po_keys(f.entries).contains(k) && model_keys(es).contains(k) {
        let pi = first_index(po_keys(f.entries), k);
        let si = first_index(model_keys(es), k);
        let m = entry_model(f.entries[pi]);
        (es.update(si, m), inc_stats(dec_stats(stats, es[si]), m))
    } else {
        (es, stats)
    }
}

/// The number of entries that `p` holds of.
pub open spec fn count_with(es: Seq<EntryModel>, p: spec_fn(EntryModel) -> bool) -> nat
    decreases es.len(),
{
    if es.len() == 0 {
        0
    } else {
        count_with(es.drop_last(), p) + if p(es.last()) { 1nat } else { 0nat }
    }
}

/// An entry has the status.
pub open spec fn has_status(st: EntryStatus) -> spec_fn(EntryModel) -> bool {
    |e: EntryModel| e.status == st
}

/// An entry has warnings.
pub open spec fn warned() -> spec_fn(EntryModel) -> bool {
    |e: EntryModel| e.warnings.len() > 0
}

/// The statistics count the entries: the total is their number, each status
/// count the number of entries with that status, and the warning count the
/// number of entries with warnings.
pub open spec fn counts_match(es: Seq<EntryModel>, s: CatalogStats) -> bool {
    &&& s.total == es.len()
    &&& s.translated == count_with(es, has_status(EntryStatus::Translated))
    &&& s.untranslated == count_with(es, has_status(EntryStatus::Untranslated))
    &&& s.fuzzy == count_with(es, has_status(EntryStatus::Fuzzy))
    &&& s.obsolete == count_with(es, has_status(EntryStatus::Obsolete))
    &&& s.warnings == count_with(es, warned())
}

/// A count is at most the number of entries, and at least one when an
/// entry it counts is present.
proof fn lemma_count_bounds(es: Seq<EntryModel>, p: spec_fn(EntryModel) -> bool, i: int)
    requires
        0 <= i < es.len(),
    ensures
        count_with(es, p) <= es.len(),
        p(es[i]) ==> count_with(es, p) >= 1,
    decreases es.len(),
{
    if es.len() > 1 {
        if i < es.len() - 1 {
            lemma_count_bounds(es.drop_last(), p, i);
        } else {
            lemma_count_bounds(es.drop_last(), p, 0);
        }
    } else {
        assert(count_with(es.drop_last(), p) == 0);
    }
}

/// Replacing one entry changes a count by what the old and new entries
/// contribute.
proof fn lemma_count_update(es: Seq<EntryModel>, p: spec_fn(EntryModel) -> bool, i: int, m: EntryModel)
    requires
        0 <= i < es.len(),
    ensures
        count_with(es.update(i, m), p) + (if p(es[i]) { 1nat } else { 0nat })
            == count_with(es, p) + (if p(m) { 1nat } else { 0nat }),
    decreases es.len(),
{
    let u = es.update(i, m);
    if i == es.len() - 1 {
        assert(u.drop_last() =~= es.drop_last());
    } else {
        assert(u.drop_last() =~= es.drop_last().update(i, m));
        lemma_count_update(es.drop_last(), p, i, m);
    }
}

/// A recount is a count of the entries.
pub proof fn lemma_recount_matches(es: Seq<EntryModel>, s: CatalogStats)
    requires
        s@ == stats_of(es),
    ensures
        counts_match(es, s),
    decreases es.len(),
{
    lemma_stats_of_counts(es);
}

proof fn lemma_stats_of_counts(es: Seq<EntryModel>)
    ensures
        stats_of(es).total == es.len(),
        stats_of(es).translated == count_with(es, has_status(EntryStatus::Translated)),
        stats_of(es).untranslated == count_with(es, has_status(EntryStatus::Untranslated)),
        stats_of(es).fuzzy == count_with(es, has_status(EntryStatus::Fuzzy)),
        stats_of(es).obsolete == count_with(es, has_status(EntryStatus::Obsolete)),
        stats_of(es).warnings == count_with(es, warned()),
    decreases es.len(),
{
    if es.len() > 0 {
        lemma_stats_of_counts(es.drop_last());
    }
}

/// One count after the entry at `i` is replaced by `m` and the statistics
/// are adjusted by `dec_stats` and `inc_stats`.
proof fn lemma_one_count(es: Seq<EntryModel>, p: spec_fn(EntryModel) -> bool, i: int, m: EntryModel, c: usize)
    requires
        0 <= i < es.len(),
        es.len() <= usize::MAX,
        c == count_with(es, p),
    ensures
        (if p(m) { sat_inc(if p(es[i]) { sat_dec(c) } else { c }) } else { if p(es[i]) { sat_dec(c) } else { c } })
            == count_with(es.update(i, m), p),
{
    lemma_count_update(es, p, i, m);
    lemma_count_bounds(es, p, i);
    lemma_count_bounds(es.update(i, m), p, i);
}

/// Refreshing one entry keeps statistics that count the entries.
pub proof fn lemma_refresh_entry_counts(es: Seq<EntryModel>, stats: CatalogStats, f: PoFileView, k: KeyView)
    requires
        counts_match(es, stats),
    ensures
        counts_match(refresh_entry_effect(es, stats, f, k).0, refresh_entry_effect(es, stats, f, k).1),
{
    if po_keys(f.entries).contains(k) && model_keys(es).contains(k) {
        let si = first_index(model_keys(es), k);
        lemma_first_exists(model_keys(es), k);
        let pi = first_index(po_keys(f.entries), k);
        let m = entry_model(f.entries[pi]);
        assert(0 <= si < es.len());
        lemma_one_count(es, has_status(EntryStatus::Translated), si, m, stats.translated);
        lemma_one_count(es, has_status(EntryStatus::Untranslated), si, m, stats.untranslated);
        lemma_one_count(es, has_status(EntryStatus::Fuzzy), si, m, stats.fuzzy);
        lemma_one_count(es, has_status(EntryStatus::Obsolete), si, m, stats.obsolete);
        lemma_one_count(es, warned(), si, m, stats.warnings);
    }
}

/// The file entries after a translation is stored for the first entry with
/// key `k`, with the fuzzy flag added when asked.
pub open spec fn translated_entries(
    es: Seq<PoEntryView>,
    k: KeyView,
    singular: Seq<char>,
    plurals: Seq<Seq<char>>,
    mark_fuzzy: bool,
) -> Seq<PoEntryView> {
    let j = first_index(po_keys(es), k);
    let e = with_translation(es[j], singular, plurals);
    es.update(j, if mark_fuzzy { PoEntryView { flags: with_flag(e.flags, "fuzzy"@), ..e } } else { e })
}

/// The file entries after the fuzzy flag of the first entry with key `k` is
/// set or cleared.
pub open spec fn fuzzy_entries(es: Seq<PoEntryView>, k: KeyView, fuzzy: bool) -> Seq<PoEntryView> {
    let j = first_index(po_keys(es), k);
    es.update(j, PoEntryView {
        flags: if fuzzy { with_flag(es[j].flags, "fuzzy"@) } else { without_flag(es[j].flags, "fuzzy"@) },
        ..es[j]
    })
}

/// What setting (or clearing) the fuzzy flag of the entry with key `k` does
/// to a document: without such an entry nothing changes; with one, the
/// file's first such entry has its flags changed, the session's entry is
/// refreshed from it, and the session becomes dirty, all else unchanged.
pub open spec fn fuzzy_set(before: CatalogDocument, after: CatalogDocument, k: KeyView, fuzzy: bool) -> bool {
    let s0 = before.state();
    let f0 = before.contents();
    let f1 = PoFileView { entries: fuzzy_entries(f0.entries, k, fuzzy), ..f0 };
    &&& !po_keys(f0.entries).contains(k) ==> after == before
    &&& po_keys(f0.entries).contains(k) ==> {
        &&& after.contents() == f1
        &&& (entries_view(after.state().entries@), after.state().stats)
            == refresh_entry_effect(entries_view(s0.entries@), s0.stats, f1, k)
        &&& after.state().dirty
        &&& after.state().locale == s0.locale
        &&& after.state().header == s0.header
        &&& after.state().source_kind == s0.source_kind
        &&& after.state().source_path == s0.source_path
        &&& after.state().po_path == s0.po_path
        &&& after.state().last_compiled_mo == s0.last_compiled_mo
    }
    &&& before.wf() ==> after.wf()
}

/// An open catalog: the `rspolib` file and the session the editor shows.
#[derive(Debug, Clone)]
pub struct CatalogDocument {
    session: CatalogSession,
    po_file: rspolib::POFile,
}

impl CatalogDocument {
    /// The editor's session.
    pub closed spec fn state(self) -> CatalogSession {
        self.session
    }

    /// What the underlying file holds.
    pub closed spec fn contents(self) -> PoFileView {
        po_contents(self.po_file)
    }

    /// The session shows the file and its statistics count its entries.
    pub open spec fn wf(self) -> bool {
        &&& shows(self.state(), self.contents())
        &&& counted(self.state())
    }

    /// Rebuilds locale, header, entries and statistics from the file.
    fn refresh(&mut self)
        ensures
            final(self).contents() == old(self).contents(),
            shows(final(self).state(), final(self).contents()),
            counted(final(self).state()),
            same_settings(final(self).state(), old(self).state()),
    {
        let language = po_metadata_get(&self.po_file, "Language");
        let plural_forms = po_metadata_get(&self.po_file, "Plural-Forms");
        let metadata = po_metadata_pairs(&self.po_file);
        let n = po_entry_count(&self.po_file);
        let ghost es = po_contents(self.po_file).entries;
        let mut entries: Vec<CatalogEntry> = Vec::new();
        let mut i: usize = 0;
        while i < n
            invariant
                n == es.len(),
                es == po_contents(self.po_file).entries,
                i <= n,
                entries_view(entries@) == entries_model(es.take(i as int)),
            decreases n - i,
        {
            let data = po_entry(&self.po_file, i);
            let model = entry_to_model(&data);
            let ghost prev = entries@;
            entries.push(model);
            assert(es.take(i + 1) =~= es.take(i as int).push(es[i as int]));
            assert(entries_view(entries@) =~= entries_view(prev).push(model@));
            assert(entries_model(es.take(i + 1)) =~= entries_model(es.take(i as int)).push(entry_model(es[i as int])));
            i = i + 1;
        }
        assert(es.take(n as int) =~= es);
        let stats = build_stats(&entries);
        self.session.locale = copy_opt(&language);
        self.session.header = CatalogHeader {
            raw_header: po_header(&self.po_file),
            metadata_is_fuzzy: po_metadata_is_fuzzy(&self.po_file),
            metadata: metadata,
            locale: language,
            plural_forms: plural_forms,
        };
        self.session.entries = entries;
        self.session.stats = stats;
    }

    fn from_po_file(
        source_kind: CatalogSourceKind,
        source_path: String,
        po_path: Option<String>,
        po_file: rspolib::POFile,
        dirty: bool,
    ) -> (r: CatalogDocument)
        ensures
            r.contents() == po_contents(po_file),
            r.wf(),
            r.state().source_kind == source_kind,
            r.state().source_path == source_path,
            r.state().po_path == po_path,
            r.state().dirty == dirty,
            r.state().last_compiled_mo is None,
    {
        let mut document = CatalogDocument {
            session: CatalogSession {
                source_kind,
                source_path,
                po_path,
                locale: None,
                dirty,
                last_compiled_mo: None,
                header: CatalogHeader {
                    raw_header: None,
                    metadata_is_fuzzy: false,
                    metadata: Vec::new(),
                    locale: None,
                    plural_forms: None,
                },
                stats: CatalogStats {
                    total: 0,
                    translated: 0,
                    untranslated: 0,
                    fuzzy: 0,
                    obsolete: 0,
                    warnings: 0,
                },
                entries: Vec::new(),
            },
            po_file,
        };
        document.refresh();
        document
    }

    /// Rebuilds the first editor entry with `key` from the first file entry
    /// with `key`, adjusting the statistics.
    fn refresh_entry(&mut self, key: &EntryKey)
        ensures
            final(self).contents() == old(self).contents(),
            same_but_entries(final(self).state(), old(self).state()),
            (entries_view(final(self).state().entries@), final(self).state().stats) == refresh_entry_effect(
                entries_view(old(self).state().entries@),
                old(self).state().stats,
                old(self).contents(),
                key@,
            ),
    {
        let ghost es0 = entries_view(self.session.entries@);
        let pi = match find_po_index(&self.po_file, key) {
            Some(pi) => pi,
            None => return,
        };
        let data = po_entry(&self.po_file, pi);
        let updated = entry_to_model(&data);
        let si = match find_model_index(&self.session.entries, key) {
            Some(si) => si,
            None => {
                return;
            },
        };
        proof {
            lemma_first_index(po_keys(po_contents(self.po_file).entries), key@, pi as int);
            lemma_first_index(model_keys(es0), key@, si as int);
        }
        decrement_stats(&mut self.session.stats, &self.session.entries[si]);
        increment_stats(&mut self.session.stats, &updated);
        self.session.entries.set(si, updated);
        assert(entries_view(self.session.entries@) =~= es0.update(si as int, entry_model(data@)));
    }

    /// Whether a rebuilt entry keeps the session showing the file.
    proof fn lemma_refresh_entry_keeps(
        es: Seq<EntryModel>,
        stats: CatalogStats,
        f0: PoFileView,
        f: PoFileView,
        j: int,
        k: KeyView,
    )
        requires
            es == entries_model(f0.entries),
            stats@ == stats_of(es),
            0 <= j < f0.entries.len(),
            f.entries == f0.entries.update(j, f.entries[j]),
            f.entries[j].msgid == f0.entries[j].msgid,
            f.entries[j].msgctxt == f0.entries[j].msgctxt,
            is_first(po_keys(f0.entries), k, j),
        ensures
            refresh_entry_effect(es, stats, f, k).0 == entries_model(f.entries),
            refresh_entry_effect(es, stats, f, k).1@ == stats_of(entries_model(f.entries)),
    {
        assert(po_keys(f.entries) =~= po_keys(f0.entries));
        lemma_model_keys(f0.entries);
        lemma_first_index(po_keys(f0.entries), k, j);
        lemma_first_index(model_keys(es), k, j);
        assert(po_keys(f0.entries)[j] == k);
        assert(po_keys(f.entries).contains(k));
        assert(model_keys(es).contains(k));
        assert(entries_model(f.entries) =~= es.update(j, entry_model(f.entries[j])));
        lemma_stats_update(es, j, entry_model(f.entries[j]), stats);
    }


    /// A document freshly opened from a file: it shows the file, is clean and
    /// has compiled nothing yet.
    pub open spec fn opened(self, kind: CatalogSourceKind, source_path: Seq<char>, po_path: Option<Seq<char>>) -> bool {
        &&& self.wf()
        &&& self.state().source_kind == kind
        &&& self.state().source_path@ == source_path
        &&& opt_view(self.state().po_path) == po_path
        &&& !self.state().dirty
        &&& self.state().last_compiled_mo is None
    }

    /// Opens a parsed `.po` catalog: the catalog is its own destination.
    /// A parse failure becomes `CatalogError::Parse` with its message.
    pub fn open_po_parsed(path: &str, parsed: Result<rspolib::POFile, String>) -> (r: Result<CatalogDocument, CatalogError>)
        ensures
            match parsed {
                Err(m) => r matches Err(CatalogError::Parse(m2)) && m2 == m,
                Ok(f) => r matches Ok(d) && d.contents() == po_contents(f) && d.opened(
                    CatalogSourceKind::Po,
                    path@,
                    Some(path@),
                ),
            },
    {
        match parsed {
            Err(m) => Err(CatalogError::Parse(m)),
            Ok(f) => Ok(Self::from_po_file(
                CatalogSourceKind::Po,
                String::from_str(path),
                Some(String::from_str(path)),
                f,
                false,
            )),
        }
    }

    /// Opens `.po` catalog text read from `path`.
    pub fn open_po(path: &str, text: &str) -> (r: Result<CatalogDocument, CatalogError>)
        ensures
            match parse_outcome(text@) {
                Ok(f) => r matches Ok(d) && d.contents() == f && d.opened(CatalogSourceKind::Po, path@, Some(path@)),
                Err(m) => r matches Err(CatalogError::Parse(m2)) && m2@ == m,
            },
            r matches Err(e) ==> e is Parse,
            refused(text@) ==> (r matches Err(CatalogError::Parse(m)) && m@ == refusal(text@)),
            r matches Ok(d) ==> d.opened(CatalogSourceKind::Po, path@, Some(path@)),
    {
        Self::open_po_parsed(path, parse_text(text))
    }

    /// Opens a parsed `.pot` template; it has no destination until saved.
    /// A locale that is not blank becomes the `Language` metadata field.
    pub fn open_pot_parsed(path: &str, parsed: Result<rspolib::POFile, String>, locale: Option<String>) -> (r: Result<CatalogDocument, CatalogError>)
        ensures
            match parsed {
                Err(m) => r matches Err(CatalogError::Parse(m2)) && m2 == m,
                Ok(f) => r matches Ok(d) && d.contents() == with_locale(po_contents(f), opt_view(locale))
                    && d.opened(CatalogSourceKind::Pot, path@, None),
            },
    {
        match parsed {
            Err(m) => Err(CatalogError::Parse(m)),
            Ok(f) => {
                let mut f = f;
                apply_locale(&mut f, &locale);
                Ok(Self::from_po_file(CatalogSourceKind::Pot, String::from_str(path), None, f, false))
            },
        }
    }

    /// Opens `.pot` template text read from `path`.
    pub fn open_pot(path: &str, text: &str, locale: Option<String>) -> (r: Result<CatalogDocument, CatalogError>)
        ensures
            match parse_outcome(text@) {
                Ok(f) => r matches Ok(d) && d.contents() == with_locale(f, opt_view(locale))
                    && d.opened(CatalogSourceKind::Pot, path@, None),
                Err(m) => r matches Err(CatalogError::Parse(m2)) && m2@ == m,
            },
            r matches Err(e) ==> e is Parse,
            refused(text@) ==> (r matches Err(CatalogError::Parse(m)) && m@ == refusal(text@)),
            r matches Ok(d) ==> d.opened(CatalogSourceKind::Pot, path@, None),
    {
        Self::open_pot_parsed(path, parse_text(text), locale)
    }

    /// Opens an existing `.po` catalog merged with its `.pot` template: the
    /// template is checked first, then the catalog; the merged catalog keeps
    /// the `.po` path as its destination.
    pub fn open_pot_with_existing_po_parsed(
        pot_path: &str,
        pot: Result<rspolib::POFile, String>,
        po_path: &str,
        po: Result<rspolib::POFile, String>,
        locale: Option<String>,
    ) -> (r: Result<CatalogDocument, CatalogError>)
        ensures
            match (pot, po) {
                (Err(m), _) => r matches Err(CatalogError::Parse(m2)) && m2 == m,
                (Ok(_), Err(m)) => r matches Err(CatalogError::Parse(m2)) && m2 == m,
                (Ok(t), Ok(f)) => r matches Ok(d) && d.contents() == with_locale(
                    (PoFileView {
                        entries: merge_entries(po_contents(f).entries, po_contents(t).entries),
                        ..po_contents(f)
                    }),
                    opt_view(locale),
                ) && d.opened(CatalogSourceKind::Pot, pot_path@, Some(po_path@)),
            },
    {
        let template = match pot {
            Err(m) => return Err(CatalogError::Parse(m)),
            Ok(t) => t,
        };
        let mut file = match po {
            Err(m) => return Err(CatalogError::Parse(m)),
            Ok(f) => f,
        };
        po_merge(&mut file, template);
        apply_locale(&mut file, &locale);
        Ok(Self::from_po_file(
            CatalogSourceKind::Pot,
            String::from_str(pot_path),
            Some(String::from_str(po_path)),
            file,
            false,
        ))
    }

    /// Opens template text and catalog text, merged (see
    /// `open_pot_with_existing_po_parsed`).
    pub fn open_pot_with_existing_po(
        pot_path: &str,
        pot_text: &str,
        po_path: &str,
        po_text: &str,
        locale: Option<String>,
    ) -> (r: Result<CatalogDocument, CatalogError>)
        ensures
            match (parse_outcome(pot_text@), parse_outcome(po_text@)) {
                (Err(m), _) => r matches Err(CatalogError::Parse(m2)) && m2@ == m,
                (Ok(_), Err(m)) => r matches Err(CatalogError::Parse(m2)) && m2@ == m,
                (Ok(t), Ok(f)) => r matches Ok(d) && d.contents() == with_locale(
                    (PoFileView { entries: merge_entries(f.entries, t.entries), ..f }),
                    opt_view(locale),
                ) && d.opened(CatalogSourceKind::Pot, pot_path@, Some(po_path@)),
            },
            r matches Err(e) ==> e is Parse,
            refused(pot_text@) ==> (r matches Err(CatalogError::Parse(m)) && m@ == refusal(pot_text@)),
            refused(po_text@) ==> r is Err,
            r matches Ok(d) ==> d.opened(CatalogSourceKind::Pot, pot_path@, Some(po_path@)),
    {
        let pot = parse_text(pot_text);
        let po = parse_text(po_text);
        Self::open_pot_with_existing_po_parsed(pot_path, pot, po_path, po, locale)
    }

    /// Opens catalog text by the extension of its path: `.po` as a catalog,
    /// `.pot` as a template; any other path is refused.
    pub fn open(path: &str, text: &str, locale: Option<String>) -> (r: Result<CatalogDocument, CatalogError>)
        ensures
            path_extension(path@) == Some("po"@) ==> match parse_outcome(text@) {
                Ok(f) => r matches Ok(d) && d.contents() == f && d.opened(CatalogSourceKind::Po, path@, Some(path@)),
                Err(m) => r matches Err(CatalogError::Parse(m2)) && m2@ == m,
            },
            path_extension(path@) == Some("pot"@) ==> match parse_outcome(text@) {
                Ok(f) => r matches Ok(d) && d.contents() == with_locale(f, opt_view(locale))
                    && d.opened(CatalogSourceKind::Pot, path@, None),
                Err(m) => r matches Err(CatalogError::Parse(m2)) && m2@ == m,
            },
            path_extension(path@) != Some("po"@) && path_extension(path@) != Some("pot"@) ==> (r matches Err(
                CatalogError::UnsupportedSource(p),
            ) && p@ == path@),
    {
        let ext = extension_of(path);
        proof {
            reveal_strlit("po");
            reveal_strlit("pot");
            assert("po"@.len() == 2);
            assert("pot"@.len() == 3);
            assert("po"@ != "pot"@);
        }
        match ext {
            Some(e) => {
                if str_eq(e.as_str(), "po") {
                    Self::open_po(path, text)
                } else if str_eq(e.as_str(), "pot") {
                    Self::open_pot(path, text, locale)
                } else {
                    Err(CatalogError::UnsupportedSource(String::from_str(path)))
                }
            },
            None => Err(CatalogError::UnsupportedSource(String::from_str(path))),
        }
    }

    /// The editor's session.
    pub fn session(&self) -> (r: &CatalogSession)
        ensures
            *r == self.state(),
    {
        &self.session
    }

    /// The editor's session, for changing it in place.
    pub fn session_mut(&mut self) -> (r: &mut CatalogSession)
        ensures
            *r == old(self).state(),
            final(self).state() == *final(r),
            final(self).contents() == old(self).contents(),
    {
        &mut self.session
    }

    /// Sets the catalog's language: the trimmed locale becomes the `Language`
    /// metadata field, the session is rebuilt and marked dirty.
    pub fn set_locale(&mut self, locale: &str)
        ensures
            final(self).contents() == (PoFileView {
                metadata: old(self).contents().metadata.insert("Language"@, trim(locale@)),
                ..old(self).contents()
            }),
            final(self).wf(),
            final(self).state().dirty,
            final(self).state().source_kind == old(self).state().source_kind,
            final(self).state().source_path == old(self).state().source_path,
            final(self).state().po_path == old(self).state().po_path,
            final(self).state().last_compiled_mo == old(self).state().last_compiled_mo,
            counts_match(entries_view(final(self).state().entries@), final(self).state().stats),
    {
        let trimmed = trim_str(locale);
        self.session.locale = if !is_blank(trimmed.as_str()) { Some(trimmed.clone()) } else { None };
        po_metadata_insert(&mut self.po_file, String::from_str("Language"), trimmed);
        self.refresh();
        self.session.dirty = true;
        proof { lemma_recount_matches(entries_view(self.session.entries@), self.session.stats); }
    }

    /// Stores a translation for the entry with `key` and returns the warnings
    /// it raises against that entry's source. With `mark_fuzzy` the entry is
    /// also flagged fuzzy. The entry must be both in the session and in the
    /// file; otherwise nothing changes and the result is `EntryNotFound`.
    pub fn update_translation(
        &mut self,
        key: &EntryKey,
        payload: TranslationPayload,
        mark_fuzzy: bool,
    ) -> (r: Result<Vec<ValidationWarning>, CatalogError>)
        ensures
            ({
                let s0 = old(self).state();
                let f0 = old(self).contents();
                let es0 = entries_view(s0.entries@);
                let found = model_keys(es0).contains(key@) && po_keys(f0.entries).contains(key@);
                let f1 = PoFileView {
                    entries: translated_entries(f0.entries, key@, payload.singular@, strs_view(payload.plurals@), mark_fuzzy),
                    ..f0
                };
                &&& r is Ok == found
                &&& !found ==> (r matches Err(e) && e is EntryNotFound) && *final(self) == *old(self)
                &&& found ==> {
                    let e = es0[first_index(model_keys(es0), key@)];
                    &&& r matches Ok(w) && warnings_view(w@) == validation_of(
                        e.msgid,
                        e.msgid_plural,
                        payload.singular@,
                        strs_view(payload.plurals@),
                    )
                    &&& final(self).contents() == f1
                    &&& (entries_view(final(self).state().entries@), final(self).state().stats)
                        == refresh_entry_effect(es0, s0.stats, f1, key@)
                    &&& final(self).state().dirty
                    &&& final(self).state().locale == s0.locale
                    &&& final(self).state().header == s0.header
                    &&& final(self).state().source_kind == s0.source_kind
                    &&& final(self).state().source_path == s0.source_path
                    &&& final(self).state().po_path == s0.po_path
                    &&& final(self).state().last_compiled_mo == s0.last_compiled_mo
                }
            }),
            old(self).wf() ==> final(self).wf(),
            // Reading the entry back gives the translation just stored.
            r is Ok && old(self).wf() ==> ({
                let es = entries_view(final(self).state().entries@);
                let e = es[first_index(model_keys(es), key@)];
                &&& model_keys(es).contains(key@)
                &&& e.msgstr == payload.singular@
                &&& e.msgstr_plural == strs_view(payload.plurals@)
                &&& mark_fuzzy && !e.obsolete ==> e.status == EntryStatus::Fuzzy
            }),
            // Statistics that count the entries still count them afterwards.
            counts_match(entries_view(old(self).state().entries@), old(self).state().stats)
                ==> counts_match(entries_view(final(self).state().entries@), final(self).state().stats),
    {
        let ghost s0 = self.session;
        let ghost f0 = po_contents(self.po_file);
        let ghost es0 = entries_view(self.session.entries@);
        let si = match find_model_index(&self.session.entries, key) {
            Some(si) => si,
            None => return Err(CatalogError::EntryNotFound),
        };
        let warnings = validate_translation(&self.session.entries[si], &payload);
        let j = match find_po_index(&self.po_file, key) {
            Some(j) => j,
            None => return Err(CatalogError::EntryNotFound),
        };
        proof {
            lemma_first_index(model_keys(es0), key@, si as int);
            lemma_first_index(po_keys(f0.entries), key@, j as int);
            assert(model_keys(es0)[si as int] == key@);
            assert(po_keys(f0.entries)[j as int] == key@);
        }
        let ghost singular = payload.singular@;
        let ghost plurals = strs_view(payload.plurals@);
        po_set_translation(&mut self.po_file, j, payload.singular, payload.plurals);
        if mark_fuzzy {
            let data = po_entry(&self.po_file, j);
            let flags = ensure_flag(data.flags, "fuzzy");
            po_set_flags(&mut self.po_file, j, flags);
        }
        let ghost f1 = po_contents(self.po_file);
        assert(f1.entries =~= translated_entries(f0.entries, key@, singular, plurals, mark_fuzzy));
        self.refresh_entry(key);
        self.session.dirty = true;
        proof {
            if counts_match(es0, s0.stats) {
                lemma_refresh_entry_counts(es0, s0.stats, f1, key@);
            }
            if s0.stats@ == stats_of(es0) && shows(s0, f0) {
                Self::lemma_refresh_entry_keeps(es0, s0.stats, f0, f1, j as int, key@);
                let es = entries_view(self.session.entries@);
                assert(es == entries_model(f1.entries));
                lemma_model_keys(f1.entries);
                assert(po_keys(f1.entries) =~= po_keys(f0.entries));
                assert(model_keys(es) == po_keys(f0.entries));
                lemma_first_index(model_keys(es), key@, j as int);
                assert(model_keys(es)[j as int] == key@);
                lemma_without_flag(f0.entries[j as int].flags, "fuzzy"@);
                lemma_fuzzy_classified(f1.entries[j as int]);
                assert(es[j as int] == entry_model(f1.entries[j as int]));
            }
        }
        Ok(warnings)
    }

    /// Sets or clears the fuzzy flag of the entry with `key`; a key the file
    /// lacks is `EntryNotFound` and changes nothing.
    pub fn set_fuzzy(&mut self, key: &EntryKey, fuzzy: bool) -> (r: Result<(), CatalogError>)
        ensures
            r is Ok == po_keys(old(self).contents().entries).contains(key@),
            r matches Err(e) ==> e is EntryNotFound,
            fuzzy_set(*old(self), *final(self), key@, fuzzy),
            old(self).wf() ==> final(self).wf(),
            // Reading the entry back shows the flag just set or cleared.
            r is Ok && old(self).wf() ==> ({
                let es = entries_view(final(self).state().entries@);
                let e = es[first_index(model_keys(es), key@)];
                &&& model_keys(es).contains(key@)
                &&& fuzzy && !e.obsolete ==> e.status == EntryStatus::Fuzzy
                &&& !fuzzy ==> e.status != EntryStatus::Fuzzy
            }),
            // Statistics that count the entries still count them afterwards.
            counts_match(entries_view(old(self).state().entries@), old(self).state().stats)
                ==> counts_match(entries_view(final(self).state().entries@), final(self).state().stats),
    {
        let ghost s0 = self.session;
        let ghost f0 = po_contents(self.po_file);
        let ghost es0 = entries_view(self.session.entries@);
        let j = match find_po_index(&self.po_file, key) {
            Some(j) => j,
            None => return Err(CatalogError::EntryNotFound),
        };
        proof {
            lemma_first_index(po_keys(f0.entries), key@, j as int);
            assert(po_keys(f0.entries)[j as int] == key@);
        }
        let data = po_entry(&self.po_file, j);
        let flags = if fuzzy { ensure_flag(data.flags, "fuzzy") } else { remove_flag(&data.flags, "fuzzy") };
        po_set_flags(&mut self.po_file, j, flags);
        let ghost f1 = po_contents(self.po_file);
        assert(f1.entries =~= fuzzy_entries(f0.entries, key@, fuzzy));
        self.refresh_entry(key);
        self.session.dirty = true;
        proof {
            if counts_match(es0, s0.stats) {
                lemma_refresh_entry_counts(es0, s0.stats, f1, key@);
            }
            if s0.stats@ == stats_of(es0) && shows(s0, f0) {
                Self::lemma_refresh_entry_keeps(es0, s0.stats, f0, f1, j as int, key@);
                let es = entries_view(self.session.entries@);
                lemma_model_keys(f1.entries);
                assert(po_keys(f1.entries) =~= po_keys(f0.entries));
                lemma_first_index(model_keys(es), key@, j as int);
                lemma_fuzzy_classified(f1.entries[j as int]);
                lemma_without_flag(f0.entries[j as int].flags, "fuzzy"@);
            }
        }
        Ok(())
    }

    /// Merges a parsed template into the catalog (see `po_merge`), rebuilds
    /// the session and marks it dirty. A parse failure changes nothing.
    pub fn merge_template_parsed(&mut self, parsed: Result<rspolib::POFile, String>) -> (r: Result<(), CatalogError>)
        ensures
            match parsed {
                Err(m) => (r matches Err(CatalogError::Parse(m2)) && m2 == m) && *final(self) == *old(self),
                Ok(t) => r is Ok && final(self).contents() == (PoFileView {
                    entries: merge_entries(old(self).contents().entries, po_contents(t).entries),
                    ..old(self).contents()
                }) && final(self).wf() && final(self).state().dirty
                    && final(self).state().source_kind == old(self).state().source_kind
                    && final(self).state().source_path == old(self).state().source_path
                    && final(self).state().po_path == old(self).state().po_path
                    && final(self).state().last_compiled_mo == old(self).state().last_compiled_mo,
            },
            counts_match(entries_view(old(self).state().entries@), old(self).state().stats)
                ==> counts_match(entries_view(final(self).state().entries@), final(self).state().stats),
    {
        match parsed {
            Err(m) => Err(CatalogError::Parse(m)),
            Ok(t) => {
                po_merge(&mut self.po_file, t);
                self.refresh();
                self.session.dirty = true;
                proof { lemma_recount_matches(entries_view(self.session.entries@), self.session.stats); }
                Ok(())
            },
        }
    }

    /// Merges template text into the catalog (see `merge_template_parsed`).
    pub fn merge_template(&mut self, pot_text: &str) -> (r: Result<(), CatalogError>)
        ensures
            match parse_outcome(pot_text@) {
                Err(m) => (r matches Err(CatalogError::Parse(m2)) && m2@ == m) && *final(self) == *old(self),
                Ok(t) => r is Ok && final(self).contents() == (PoFileView {
                    entries: merge_entries(old(self).contents().entries, t.entries),
                    ..old(self).contents()
                }) && final(self).wf() && final(self).state().dirty,
            },
            r matches Err(e) ==> e is Parse && *final(self) == *old(self),
            refused(pot_text@) ==> (r matches Err(CatalogError::Parse(m)) && m@ == refusal(pot_text@)),
            r is Ok ==> final(self).wf() && final(self).state().dirty,
            counts_match(entries_view(old(self).state().entries@), old(self).state().stats)
                ==> counts_match(entries_view(final(self).state().entries@), final(self).state().stats),
    {
        self.merge_template_parsed(parse_text(pot_text))
    }

    /// Saves the catalog: to `path` when given, else to its destination
    /// (`MissingPoPath` when it has none). Gives the PO text to write (the
    /// rendered text after `finish_po_text`) and, with `auto_compile_mo`, the
    /// MO bytes for the `.mo` path beside it. The destination is remembered
    /// and the session becomes clean.
    pub fn save_po(&mut self, path: Option<String>, auto_compile_mo: bool) -> (r: Result<SavedCatalog, CatalogError>)
        ensures
            ({
                let dest = match path {
                    Some(p) => Some(p@),
                    None => opt_view(old(self).state().po_path),
                };
                &&& r is Err == dest is None
                &&& dest is None ==> (r matches Err(e) && e is MissingPoPath) && *final(self) == *old(self)
                &&& r matches Ok(saved) ==> {
                    let d = dest->0;
                    &&& saved.outcome.po_path@ == d
                    &&& keys_apart(old(self).contents().metadata) ==> {
                        &&& saved.po_text@ == finished(po_rendered(old(self).contents()))
                        &&& auto_compile_mo ==> (saved.mo_bytes matches Some(b) && b@ == po_mo_image(old(self).contents()))
                    }
                    &&& opt_view(final(self).state().po_path) == Some(d)
                    &&& !final(self).state().dirty
                    &&& auto_compile_mo ==> opt_view(saved.outcome.mo_path) == Some(path_with_extension(d, "mo"@))
                        && final(self).state().last_compiled_mo == saved.outcome.mo_path
                        && saved.mo_bytes is Some
                    &&& !auto_compile_mo ==> saved.outcome.mo_path is None && saved.mo_bytes is None
                        && final(self).state().last_compiled_mo == old(self).state().last_compiled_mo
                    &&& final(self).contents() == old(self).contents()
                    &&& final(self).state().entries == old(self).state().entries
                    &&& final(self).state().stats == old(self).state().stats
                    &&& final(self).state().header == old(self).state().header
                    &&& final(self).state().locale == old(self).state().locale
                    &&& final(self).state().source_kind == old(self).state().source_kind
                    &&& final(self).state().source_path == old(self).state().source_path
                }
            }),
            old(self).wf() ==> final(self).wf(),
    {
        let po_path = match path {
            Some(p) => p,
            None => match &self.session.po_path {
                Some(p) => p.clone(),
                None => return Err(CatalogError::MissingPoPath),
            },
        };
        let rendered = po_render(&self.po_file);
        let po_text = finish_po_text(rendered.as_str());
        self.session.po_path = Some(po_path.clone());
        self.session.dirty = false;
        let (mo_path, mo_bytes) = if auto_compile_mo {
            proof { lemma_mo_has_no_separator(); }
            let mo = with_extension(po_path.as_str(), "mo");
            let bytes = po_mo_bytes(&self.po_file);
            self.session.last_compiled_mo = Some(mo.clone());
            (Some(mo), Some(bytes))
        } else {
            (None, None)
        };
        Ok(SavedCatalog { outcome: SaveOutcome { po_path, mo_path }, po_text, mo_bytes })
    }

    /// What saving would write, without recording anything: the
    /// destination (`path`, else the catalog's own), the PO text, and with
    /// `auto_compile_mo` the `.mo` path beside it and its bytes.
    pub fn render_save(&self, path: Option<String>, auto_compile_mo: bool) -> (r: Result<SavedCatalog, CatalogError>)
        ensures
            ({
                let dest = match path {
                    Some(p) => Some(p@),
                    None => opt_view(self.state().po_path),
                };
                &&& r is Err == dest is None
                &&& dest is None ==> (r matches Err(e) && e is MissingPoPath)
                &&& r matches Ok(saved) ==> {
                    &&& saved.outcome.po_path@ == dest->0
                    &&& keys_apart(self.contents().metadata) ==> {
                        &&& saved.po_text@ == finished(po_rendered(self.contents()))
                        &&& auto_compile_mo ==> (saved.mo_bytes matches Some(b) && b@ == po_mo_image(self.contents()))
                    }
                    &&& auto_compile_mo ==> opt_view(saved.outcome.mo_path) == Some(path_with_extension(dest->0, "mo"@))
                        && saved.mo_bytes is Some
                    &&& !auto_compile_mo ==> saved.outcome.mo_path is None && saved.mo_bytes is None
                }
            }),
    {
        let po_path = match path {
            Some(p) => p,
            None => match &self.session.po_path {
                Some(p) => p.clone(),
                None => return Err(CatalogError::MissingPoPath),
            },
        };
        let rendered = po_render(&self.po_file);
        let po_text = finish_po_text(rendered.as_str());
        let (mo_path, mo_bytes) = if auto_compile_mo {
            proof { lemma_mo_has_no_separator(); }
            let mo = with_extension(po_path.as_str(), "mo");
            let bytes = po_mo_bytes(&self.po_file);
            (Some(mo), Some(bytes))
        } else {
            (None, None)
        };
        Ok(SavedCatalog { outcome: SaveOutcome { po_path, mo_path }, po_text, mo_bytes })
    }

    /// Records that the catalog was written: the destination is remembered,
    /// the session becomes clean, and a compiled `.mo` is remembered.
    pub fn record_save(&mut self, outcome: &SaveOutcome)
        ensures
            opt_view(final(self).state().po_path) == Some(outcome.po_path@),
            !final(self).state().dirty,
            final(self).state().last_compiled_mo == match outcome.mo_path {
                Some(m) => Some(m),
                None => old(self).state().last_compiled_mo,
            },
            final(self).contents() == old(self).contents(),
            final(self).state().entries == old(self).state().entries,
            final(self).state().stats == old(self).state().stats,
            final(self).state().header == old(self).state().header,
            final(self).state().locale == old(self).state().locale,
            final(self).state().source_kind == old(self).state().source_kind,
            final(self).state().source_path == old(self).state().source_path,
            old(self).wf() ==> final(self).wf(),
    {
        self.session.po_path = Some(outcome.po_path.clone());
        self.session.dirty = false;
        if let Some(m) = &outcome.mo_path {
            self.session.last_compiled_mo = Some(m.clone());
        }
    }

    /// Compiles the catalog to MO bytes, for `path` when given, else for the
    /// `.mo` path beside the destination (`MissingPoPath` when there is
    /// none). The path is remembered as the last compiled one.
    pub fn compile_mo(&mut self, path: Option<String>) -> (r: Result<(String, Vec<u8>), CatalogError>)
        ensures
            ({
                let target = match path {
                    Some(p) => Some(p@),
                    None => match old(self).state().po_path {
                        Some(p) => Some(path_with_extension(p@, "mo"@)),
                        None => None,
                    },
                };
                &&& r is Err == target is None
                &&& target is None ==> (r matches Err(e) && e is MissingPoPath) && *final(self) == *old(self)
                &&& r matches Ok(out) ==> {
                    &&& out.0@ == target->0
                    &&& keys_apart(old(self).contents().metadata) ==> out.1@ == po_mo_image(old(self).contents())
                    &&& opt_view(final(self).state().last_compiled_mo) == target
                    &&& final(self).contents() == old(self).contents()
                    &&& final(self).state().entries == old(self).state().entries
                    &&& final(self).state().stats == old(self).state().stats
                    &&& final(self).state().header == old(self).state().header
                    &&& final(self).state().locale == old(self).state().locale
                    &&& final(self).state().dirty == old(self).state().dirty
                    &&& final(self).state().po_path == old(self).state().po_path
                    &&& final(self).state().source_kind == old(self).state().source_kind
                    &&& final(self).state().source_path == old(self).state().source_path
                }
            }),
            old(self).wf() ==> final(self).wf(),
    {
        let mo_path = match path {
            Some(p) => p,
            None => match &self.session.po_path {
                Some(p) => {
                    proof { lemma_mo_has_no_separator(); }
                    with_extension(p.as_str(), "mo")
                },
                None => return Err(CatalogError::MissingPoPath),
            },
        };
        let bytes = po_mo_bytes(&self.po_file);
        self.session.last_compiled_mo = Some(mo_path.clone());
        Ok((mo_path, bytes))
    }
}

/// The file with `locale` as its `Language` field, when the locale is not blank.
pub open spec fn with_locale(f: PoFileView, locale: Option<Seq<char>>) -> PoFileView {
    match locale {
        Some(l) => if !blank(l) {
            PoFileView { metadata: f.metadata.insert("Language"@, l), ..f }
        } else {
            f
        },
        None => f,
    }
}

fn apply_locale(file: &mut rspolib::POFile, locale: &Option<String>)
    ensures
        po_contents(*final(file)) == with_locale(po_contents(*old(file)), opt_view(*locale)),
{
    match locale {
        Some(l) => {
            if !is_blank(l.as_str()) {
                po_metadata_insert(file, String::from_str("Language"), l.clone());
            }
        },
        None => {},
    }
}

/// An entry flagged fuzzy and not obsolete is classified fuzzy, and one
/// without the flag is not.
pub proof fn lemma_fuzzy_classified(p: PoEntryView)
    ensures
        p.flags.contains("fuzzy"@) && !p.obsolete ==> entry_model(p).status == EntryStatus::Fuzzy,
        !p.flags.contains("fuzzy"@) ==> entry_model(p).status != EntryStatus::Fuzzy,
{
}

/// `with_flag` holds the flag; `without_flag` does not.
pub proof fn lemma_without_flag(flags: Seq<Seq<char>>, flag: Seq<char>)
    ensures
        with_flag(flags, flag).contains(flag),
        !without_flag(flags, flag).contains(flag),
    decreases flags.len(),
{
    if !flags.contains(flag) {
        assert(flags.push(flag)[flags.len() as int] == flag);
    }
    if flags.len() > 0 {
        lemma_without_flag(flags.drop_last(), flag);
        let rest = without_flag(flags.drop_last(), flag);
        if flags.last() != flag {
            assert forall|i: int| 0 <= i < rest.push(flags.last()).len() implies rest.push(flags.last())[i] != flag by {
                if i < rest.len() {
                    assert(rest.push(flags.last())[i] == rest[i]);
                }
            }
        }
    }
}

/// What `save_po` gives: where the catalog goes, the PO text to write there
/// and, when compiled, the MO bytes for `outcome.mo_path`.
#[derive(Debug, Clone)]
pub struct SavedCatalog {
    pub outcome: SaveOutcome,
    pub po_text: String,
    pub mo_bytes: Option<Vec<u8>>,
}

/// The PO text written for rendered catalog text: the repaired text when
/// repair changes a line, else the rendered text itself.
pub open spec fn finished(rendered: Seq<char>) -> Seq<char> {
    match repaired_text(rendered) {
        Some(t) => t,
        None => rendered,
    }
}

/// The PO text to write for rendered catalog text (see `finished`).
pub fn finish_po_text(rendered: &str) -> (r: String)
    ensures
        r@ == finished(rendered@),
{
    match repair_po_text(rendered) {
        Some(t) => t,
        None => String::from_str(rendered),
    }
}

} // verus!
