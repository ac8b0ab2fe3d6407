//! What holds across the library's operations.
use vstd::prelude::*;
use crate::catalog::{
    CatalogDocument, counts_match, entry_model, fuzzy_set, lemma_recount_matches, lemma_refresh_entry_counts, first_index, fuzzy_entries, lemma_first_exists, lemma_fuzzy_classified, lemma_model_keys,
    lemma_without_flag, model_keys, po_keys, without_flag,
};
use crate::po::PoEntryView;
use crate::model::KeyView;
use crate::workspace::{Workspace, approve_effect, cleared, fuzzy_keys, lemma_fuzzy_keys};
use crate::model::{EntryModel, EntryStatus};
use crate::client::{BATCH_CHUNK_SIZE, RequestModel, chunk_of};
use crate::order::{insert_by_key, seq_lt, sort_by_key};
use crate::editor::{LexitoApp, PrefsView, field_value, nonblank, preferences_outcome};
use crate::model::{entries_view, lemma_stats_bounded, stats_of};
use crate::project::{ProjectLanguage, first_language, locales, without_locale};
use crate::settings::{ProviderProfile, provider_ids, provider_index, upserted, without_provider};
use crate::text::{all_digits, decimal, digit_char, digits_value, is_ws, trim, trim_end, trim_start, unsigned_value};
use crate::validation::{
    PLACEHOLDER_MESSAGE, PLURAL_REQUIRED_MESSAGE, PLURAL_UNEXPECTED_MESSAGE, TAG_MESSAGE, validation_of, warnings_model,
};
use crate::model::{ValidationCode, WarningView, opt_view};
use crate::client::{BatchEntryEnvelope, MetadataView, batch_outcome, envelope_for, envelope_response, opt_strs_view};
use crate::desktop::{EntryFilter, filter_matches};
use crate::workspace::visible;
use crate::models::{allowed_model, lowercase};
use crate::text::contains_seq;
use crate::text::has_prefix;
use crate::po_text::{ScanState, after_space, commit, has_non_quote, scan_line};

verus! {

/// In a well-formed catalog (as every opened catalog is) the statistics
/// count the entries: each status count is the number of entries with that
/// status and the warning count the number with warnings; every entry is
/// counted once under exactly one status, so the counts add up to the
/// number of entries, which is the total.
pub proof fn law_counts_partition_entries(d: CatalogDocument)
    requires
        d.wf(),
    ensures
        counts_match(entries_view(d.state().entries@), d.state().stats),
        d.state().stats.total == d.state().entries@.len(),
        d.state().stats.translated + d.state().stats.untranslated + d.state().stats.fuzzy + d.state().stats.obsolete
            == d.state().stats.total,
        d.state().stats.warnings <= d.state().stats.total,
{
    lemma_stats_bounded(entries_view(d.state().entries@));
    lemma_recount_matches(entries_view(d.state().entries@), d.state().stats);
}

/// A translation that is the source text itself raises no warning, for a
/// singular entry and for a plural entry translated by its plural source.
pub proof fn law_source_text_is_a_valid_translation(msgid: Seq<char>, msgid_plural: Option<Seq<char>>)
    ensures
        validation_of(
            msgid,
            msgid_plural,
            msgid,
            match msgid_plural {
                Some(p) => seq![p],
                None => Seq::empty(),
            },
        ).len() == 0,
{
    let plurals = match msgid_plural {
        Some(p) => seq![p],
        None => Seq::<Seq<char>>::empty(),
    };
    assert(crate::validation::target_texts(msgid, plurals) =~= crate::validation::source_texts(msgid, msgid_plural));
    let w = validation_of(msgid, msgid_plural, msgid, plurals);
    assert(w =~= Seq::empty());
}

/// `m` is the first position of a provider with `id`.
pub open spec fn first_with_id(ps: Seq<ProviderProfile>, id: u128, m: int) -> bool {
    0 <= m < ps.len() && ps[m].id == id && forall|k: int| 0 <= k < m ==> ps[k].id != id
}

proof fn lemma_index_is_first(ps: Seq<ProviderProfile>, id: u128, m: int)
    requires
        first_with_id(ps, id, m),
    ensures
        provider_index(ps, id) == Some(m),
{
    assert(provider_ids(ps)[m] == id);
    let w = choose|w: int| 0 <= w < ps.len() && ps[w].id == id && forall|k: int| 0 <= k < w ==> ps[k].id != id;
    assert(first_with_id(ps, id, w));
    if w < m {
        assert(ps[w].id != id);
    }
    if m < w {
        assert(ps[m].id != id);
    }
}

proof fn lemma_first_id_exists(ps: Seq<ProviderProfile>, id: u128)
    requires
        provider_ids(ps).contains(id),
    ensures
        exists|m: int| first_with_id(ps, id, m),
    decreases ps.len(),
{
    let t = ps.drop_last();
    if provider_ids(t).contains(id) {
        let w = choose|w: int| 0 <= w < provider_ids(t).len() && provider_ids(t)[w] == id;
        assert(provider_ids(t)[w] == t[w].id);
        lemma_first_id_exists(t, id);
        let m = choose|m: int| first_with_id(t, id, m);
        assert forall|k: int| 0 <= k < m implies ps[k].id != id by {
            assert(ps[k] == t[k]);
        }
        assert(ps[m] == t[m]);
        assert(first_with_id(ps, id, m));
    } else {
        let w = choose|w: int| 0 <= w < provider_ids(ps).len() && provider_ids(ps)[w] == id;
        let n = ps.len() - 1;
        assert forall|k: int| 0 <= k < n implies ps[k].id != id by {
            assert(provider_ids(t)[k] == t[k].id);
        }
        if w < n {
            assert(ps[w].id == id);
        }
        assert(first_with_id(ps, id, n));
    }
}

/// After a provider is saved, looking its id up finds it: the first
/// provider with its id is the saved profile.
pub proof fn law_saved_provider_is_found(ps: Seq<ProviderProfile>, p: ProviderProfile)
    ensures
        provider_index(upserted(ps, p), p.id) matches Some(i) && upserted(ps, p)[i] == p,
{
    let qs = upserted(ps, p);
    match provider_index(ps, p.id) {
        Some(j) => {
            assert(provider_ids(ps).contains(p.id));
            lemma_first_id_exists(ps, p.id);
            assert(first_with_id(ps, p.id, j));
            assert(first_with_id(qs, p.id, j));
            lemma_index_is_first(qs, p.id, j);
        },
        None => {
            let n = ps.len() as int;
            assert forall|k: int| 0 <= k < n implies qs[k].id != p.id by {
                assert(provider_ids(ps)[k] == ps[k].id);
            }
            assert(first_with_id(qs, p.id, n));
            lemma_index_is_first(qs, p.id, n);
        },
    }
}

proof fn lemma_without_provider(ps: Seq<ProviderProfile>, id: u128)
    ensures
        forall|k: int| 0 <= k < without_provider(ps, id).len() ==> #[trigger] without_provider(ps, id)[k].id != id,
    decreases ps.len(),
{
    if ps.len() > 0 {
        lemma_without_provider(ps.drop_last(), id);
    }
}

/// After a provider is removed, no provider has its id, and it is not the
/// active one.
pub proof fn law_removed_provider_is_gone(
    ps: Seq<ProviderProfile>,
    active: Option<u128>,
    id: u128,
)
    ensures
        ({
            let rest = without_provider(ps, id);
            let new_active = if active == Some(id) {
                if rest.len() > 0 { Some(rest[0].id) } else { None }
            } else {
                active
            };
            &&& !provider_ids(rest).contains(id)
            &&& new_active != Some(id)
        }),
{
    lemma_without_provider(ps, id);
    let rest = without_provider(ps, id);
    if provider_ids(rest).contains(id) {
        let k = choose|k: int| 0 <= k < provider_ids(rest).len() && provider_ids(rest)[k] == id;
        assert(rest[k].id != id);
    }
    if active == Some(id) && rest.len() > 0 {
        assert(rest[0].id != id);
    }
}

proof fn lemma_without_locale(ls: Seq<ProjectLanguage>, locale: Seq<char>)
    ensures
        forall|k: int| 0 <= k < without_locale(ls, locale).len() ==> #[trigger] without_locale(ls, locale)[k].locale@
            != locale,
        forall|l: Seq<char>| l != locale ==> (locales(without_locale(ls, locale)).contains(l) <==> locales(ls).contains(l)),
    decreases ls.len(),
{
    if ls.len() > 0 {
        let t = ls.drop_last();
        lemma_without_locale(t, locale);
        let rest = without_locale(t, locale);
        assert forall|l: Seq<char>| l != locale implies (locales(without_locale(ls, locale)).contains(l) <==> locales(
            ls,
        ).contains(l)) by {
            broadcast use vstd::seq_lib::lemma_seq_contains_after_push;
            assert(locales(ls) =~= locales(t).push(ls.last().locale@));
            if ls.last().locale@ != locale {
                assert(locales(without_locale(ls, locale)) =~= locales(rest).push(ls.last().locale@));
            } else {
                assert(without_locale(ls, locale) == rest);
            }
        }
    }
}

/// After a language is removed from a project it has no catalog, and every
/// other language it had is still there.
pub proof fn law_removed_language_is_gone(ls: Seq<ProjectLanguage>, locale: Seq<char>, other: Seq<char>)
    requires
        other != locale,
    ensures
        first_language(without_locale(ls, locale), locale) is None,
        locales(without_locale(ls, locale)).contains(other) == locales(ls).contains(other),
{
    lemma_without_locale(ls, locale);
    let rest = without_locale(ls, locale);
    if locales(rest).contains(locale) {
        let k = choose|k: int| 0 <= k < locales(rest).len() && locales(rest)[k] == locale;
        assert(rest[k].locale@ != locale);
    }
}

proof fn lemma_decimal_digits(n: nat)
    ensures
        decimal(n).len() > 0,
        all_digits(decimal(n)),
        digits_value(decimal(n)) == n,
        forall|i: int| 0 <= i < decimal(n).len() ==> !is_ws(#[trigger] decimal(n)[i]),
        decimal(n)[0] != '+',
    decreases n,
{
    if n >= 10 {
        lemma_decimal_digits(n / 10);
        let d = decimal(n);
        assert(d.drop_last() =~= decimal(n / 10));
        assert(d.last() == digit_char(n % 10));
        assert((digit_char(n % 10) as u32) - ('0' as u32) == n % 10);
        assert(n == (n / 10) * 10 + n % 10);
        assert(digits_value(d) == digits_value(d.drop_last()) * 10 + ((d.last() as u32) - ('0' as u32)) as nat);
        assert(digits_value(d.drop_last()) == n / 10);
        assert forall|i: int| 0 <= i < d.len() implies '0' <= #[trigger] d[i] && d[i] <= '9' by {
            if i < d.len() - 1 {
                assert(d[i] == decimal(n / 10)[i]);
            }
        }
        assert forall|i: int| 0 <= i < d.len() implies !is_ws(#[trigger] d[i]) by {
            if i < d.len() - 1 {
                assert(d[i] == decimal(n / 10)[i]);
            }
        }
        assert(d[0] == decimal(n / 10)[0]);
    } else {
        assert((digit_char(n) as u32) - ('0' as u32) == n);
        assert(decimal(n).drop_last() =~= Seq::<char>::empty());
        assert(digits_value(decimal(n)) == digits_value(decimal(n).drop_last()) * 10 + ((decimal(n).last() as u32) - ('0' as u32)) as nat);
    }
}

proof fn lemma_trim_no_ws(s: Seq<char>)
    requires
        forall|i: int| 0 <= i < s.len() ==> !is_ws(#[trigger] s[i]),
    ensures
        trim(s) == s,
{
    crate::text::lemma_trim_start(s, 0);
    assert(trim_start(s) == s);
    crate::text::lemma_trim_end(s, s.len() as int);
}

/// A count written out in decimal reads back as the same count: a
/// preference field filled from a stored count gives that count again.
pub proof fn law_count_reads_back(n: nat)
    ensures
        unsigned_value(decimal(n)) == Some(n),
        trim(decimal(n)) == decimal(n),
{
    lemma_decimal_digits(n);
    lemma_trim_no_ws(decimal(n));
}

/// Saving the preferences as the editor shows them gives back the stored
/// timeout and concurrency, and the stored default locale and system prompt
/// when they are trimmed and not blank.
pub proof fn law_preferences_read_back(
    a: LexitoApp,
    timeout: u64,
    concurrency: usize,
    locale: Seq<char>,
    prompt: Seq<char>,
)
    requires
        a.timeout_input@ == decimal(timeout as nat),
        a.concurrency_input@ == decimal(concurrency as nat),
        concurrency > 0,
        a.default_locale_input@ == locale,
        a.system_prompt_input@ == prompt,
        trim(locale) == locale,
        trim(prompt) == prompt,
        locale.len() > 0,
        prompt.len() > 0,
    ensures
        preferences_outcome(a, true) == Ok::<PrefsView, Seq<char>>((
            Some(timeout),
            Some(concurrency),
            a.auto_compile_on_save,
            Some(locale),
            Some(prompt),
        )),
{
    law_count_reads_back(timeout as nat);
    law_count_reads_back(concurrency as nat);
    assert(field_value(a.timeout_input@, u64::MAX as nat) == Some(timeout as nat));
    assert(field_value(a.concurrency_input@, usize::MAX as nat) == Some(concurrency as nat));
    assert(nonblank(locale) == Some(locale));
    assert(nonblank(prompt) == Some(prompt));
}

/// The chunks one after another.
pub open spec fn flatten(cs: Seq<Seq<RequestModel>>) -> Seq<RequestModel>
    decreases cs.len(),
{
    if cs.len() == 0 {
        Seq::empty()
    } else {
        flatten(cs.drop_last()) + cs.last()
    }
}

proof fn lemma_chunks_prefix(s: Seq<RequestModel>, cs: Seq<Seq<RequestModel>>, j: int)
    requires
        0 <= j <= cs.len(),
        cs.len() == 0 || (cs.len() - 1) * BATCH_CHUNK_SIZE < s.len(),
        forall|k: int| 0 <= k < cs.len() ==> #[trigger] cs[k] == chunk_of(s, k),
    ensures
        flatten(cs.take(j)) == s.take(if j * BATCH_CHUNK_SIZE < s.len() { j * BATCH_CHUNK_SIZE } else { s.len() as int }),
    decreases j,
{
    if j == 0 {
        assert(cs.take(0) =~= Seq::<Seq<RequestModel>>::empty());
        assert(s.take(0) =~= Seq::<RequestModel>::empty());
    } else {
        lemma_chunks_prefix(s, cs, j - 1);
        assert(cs.take(j).drop_last() =~= cs.take(j - 1));
        assert(cs.take(j).last() == cs[j - 1]);
        let lo = (j - 1) * BATCH_CHUNK_SIZE;
        assert(lo < s.len());
        let hi = if lo + BATCH_CHUNK_SIZE < s.len() { lo + BATCH_CHUNK_SIZE } else { s.len() as int };
        assert(cs[j - 1] == s.subrange(lo, hi));
        assert(s.take(lo) + s.subrange(lo, hi) =~= s.take(hi));
    }
}

/// The chunks of a batch hold its requests, each once and in order, and no
/// chunk is empty or larger than `BATCH_CHUNK_SIZE`.
pub proof fn law_chunks_cover_the_batch(s: Seq<RequestModel>, cs: Seq<Seq<RequestModel>>)
    requires
        cs.len() * BATCH_CHUNK_SIZE >= s.len(),
        cs.len() == 0 || (cs.len() - 1) * BATCH_CHUNK_SIZE < s.len(),
        forall|k: int| 0 <= k < cs.len() ==> #[trigger] cs[k] == chunk_of(s, k),
    ensures
        flatten(cs) == s,
        forall|k: int| 0 <= k < cs.len() ==> 0 < (#[trigger] cs[k]).len() <= BATCH_CHUNK_SIZE,
{
    lemma_chunks_prefix(s, cs, cs.len() as int);
    assert(cs.take(cs.len() as int) =~= cs);
    assert(s.take(s.len() as int) =~= s);
    assert forall|k: int| 0 <= k < cs.len() implies 0 < (#[trigger] cs[k]).len() <= BATCH_CHUNK_SIZE by {
        assert(k * BATCH_CHUNK_SIZE <= (cs.len() - 1) * BATCH_CHUNK_SIZE);
    }
}

proof fn lemma_lt_irreflexive(a: Seq<char>)
    ensures
        !seq_lt(a, a),
    decreases a.len(),
{
    if a.len() > 0 {
        lemma_lt_irreflexive(a.drop_first());
    }
}

proof fn lemma_lt_total(a: Seq<char>, b: Seq<char>)
    ensures
        seq_lt(a, b) || seq_lt(b, a) || a == b,
    decreases a.len(),
{
    if a.len() > 0 && b.len() > 0 && a[0] == b[0] {
        lemma_lt_total(a.drop_first(), b.drop_first());
        if a.drop_first() == b.drop_first() {
            assert(a =~= seq![a[0]] + a.drop_first());
            assert(b =~= seq![b[0]] + b.drop_first());
        }
    } else if a.len() > 0 && b.len() > 0 {
        vstd::utf8::char_u32_cast(a[0], a[0] as u32);
        vstd::utf8::char_u32_cast(b[0], b[0] as u32);
    } else if a.len() == 0 && b.len() == 0 {
        assert(a =~= b);
    }
}

proof fn lemma_lt_transitive(a: Seq<char>, b: Seq<char>, c: Seq<char>)
    requires
        seq_lt(a, b),
        seq_lt(b, c),
    ensures
        seq_lt(a, c),
    decreases a.len(),
{
    if a.len() > 0 && b.len() > 0 && c.len() > 0 && a[0] == b[0] && b[0] == c[0] {
        lemma_lt_transitive(a.drop_first(), b.drop_first(), c.drop_first());
    }
}

proof fn lemma_lt_asymmetric(a: Seq<char>, b: Seq<char>)
    requires
        seq_lt(a, b),
    ensures
        !seq_lt(b, a),
{
    if seq_lt(b, a) {
        lemma_lt_transitive(a, b, a);
        lemma_lt_irreflexive(a);
    }
}

/// No later key comes strictly before an earlier one.
pub open spec fn keys_sorted(s: Seq<(Seq<char>, Seq<char>)>) -> bool {
    forall|i: int, j: int| 0 <= i < j < s.len() ==> !seq_lt(#[trigger] s[j].0, #[trigger] s[i].0)
}

proof fn lemma_insert_sorted(s: Seq<(Seq<char>, Seq<char>)>, x: (Seq<char>, Seq<char>))
    requires
        keys_sorted(s),
    ensures
        keys_sorted(insert_by_key(s, x)),
        insert_by_key(s, x).to_multiset() == s.to_multiset().insert(x),
    decreases s.len(),
{
    broadcast use vstd::multiset::group_multiset_axioms;
    if s.len() == 0 {
        assert(insert_by_key(s, x) =~= seq![x]);
        assert(s =~= Seq::<(Seq<char>, Seq<char>)>::empty());
        broadcast use vstd::seq_lib::group_seq_properties;
        assert(seq![x] =~= Seq::<(Seq<char>, Seq<char>)>::empty().push(x));
    } else if seq_lt(x.0, s.last().0) {
        let t = s.drop_last();
        assert forall|i: int, j: int| 0 <= i < j < t.len() implies !seq_lt(#[trigger] t[j].0, #[trigger] t[i].0) by {
            assert(t[i] == s[i] && t[j] == s[j]);
        }
        lemma_insert_sorted(t, x);
        let u = insert_by_key(t, x);
        let r = u.push(s.last());
        assert(r == insert_by_key(s, x));
        broadcast use vstd::seq_lib::group_seq_properties;
        assert(s =~= t.push(s.last()));
        assert forall|i: int| 0 <= i < u.len() implies !seq_lt(s.last().0, #[trigger] u[i].0) by {
            assert(u.to_multiset().count(u[i]) > 0);
            assert(t.to_multiset().insert(x).count(u[i]) > 0);
            if u[i] == x {
                lemma_lt_asymmetric(x.0, s.last().0);
            } else {
                assert(t.to_multiset().count(u[i]) > 0);
                assert(t.contains(u[i]));
                let k = choose|k: int| 0 <= k < t.len() && t[k] == u[i];
                assert(s[k] == t[k]);
                assert(!seq_lt(s[s.len() - 1].0, s[k].0));
            }
        }
        assert forall|i: int, j: int| 0 <= i < j < r.len() implies !seq_lt(#[trigger] r[j].0, #[trigger] r[i].0) by {
            if j < u.len() {
                assert(r[i] == u[i] && r[j] == u[j]);
            } else {
                assert(r[j] == s.last());
                assert(r[i] == u[i]);
            }
        }
    } else {
        let r = s.push(x);
        broadcast use vstd::seq_lib::group_seq_properties;
        assert forall|i: int, j: int| 0 <= i < j < r.len() implies !seq_lt(#[trigger] r[j].0, #[trigger] r[i].0) by {
            if j < s.len() {
                assert(r[i] == s[i] && r[j] == s[j]);
            } else {
                assert(r[j] == x);
                assert(r[i] == s[i]);
                let last = s.last();
                if i < s.len() - 1 {
                    assert(!seq_lt(s[s.len() - 1].0, s[i].0));
                }
                if seq_lt(x.0, s[i].0) {
                    lemma_lt_total(x.0, last.0);
                    lemma_lt_total(s[i].0, last.0);
                    if seq_lt(last.0, x.0) {
                        if seq_lt(s[i].0, last.0) {
                            lemma_lt_transitive(x.0, s[i].0, last.0);
                        } else if s[i].0 == last.0 {
                        } else {
                            assert(i == s.len() - 1 || !seq_lt(last.0, s[i].0));
                            if i == s.len() - 1 {
                                lemma_lt_irreflexive(last.0);
                            }
                        }
                        lemma_lt_asymmetric(last.0, x.0);
                    } else if x.0 == last.0 {
                        if i == s.len() - 1 {
                            lemma_lt_irreflexive(x.0);
                        }
                    }
                }
            }
        }
    }
}

/// Sorting by key puts the pairs in key order and keeps every pair, each
/// as often as before: the models offered are in order of id, the projects
/// listed in order of name.
pub proof fn law_sorted_by_key(s: Seq<(Seq<char>, Seq<char>)>)
    ensures
        keys_sorted(sort_by_key(s)),
        sort_by_key(s).to_multiset() == s.to_multiset(),
    decreases s.len(),
{
    broadcast use vstd::multiset::group_multiset_axioms;
    broadcast use vstd::seq_lib::group_seq_properties;
    if s.len() == 0 {
        assert(sort_by_key(s) == s);
    } else {
        law_sorted_by_key(s.drop_last());
        lemma_insert_sorted(sort_by_key(s.drop_last()), s.last());
        assert(s =~= s.drop_last().push(s.last()));
    }
}

proof fn lemma_without_absent_flag(flags: Seq<Seq<char>>, flag: Seq<char>)
    requires
        !flags.contains(flag),
    ensures
        without_flag(flags, flag) == flags,
    decreases flags.len(),
{
    if flags.len() > 0 {
        let t = flags.drop_last();
        assert(!t.contains(flag)) by {
            if t.contains(flag) {
                let w = choose|w: int| 0 <= w < t.len() && t[w] == flag;
                assert(flags[w] == flag);
            }
        }
        lemma_without_absent_flag(t, flag);
        assert(flags.last() != flag) by {
            assert(flags[flags.len() - 1] == flags.last());
        }
        assert(flags =~= t.push(flags.last()));
    }
}

/// Marking an entry fuzzy and then reviewed gives back the file as it was,
/// when the entry was not flagged fuzzy before.
/// Setting or clearing the fuzzy flag of an entry: with the flag set the
/// entry's flags hold `fuzzy`, cleared they do not, and its translation is
/// untouched; doing it twice leaves the same file as doing it once (the
/// flag is never added twice).
pub proof fn law_setting_fuzzy_twice_is_once(es: Seq<PoEntryView>, k: KeyView, fuzzy: bool)
    requires
        po_keys(es).contains(k),
    ensures
        ({
            let j = first_index(po_keys(es), k);
            let e = fuzzy_entries(es, k, fuzzy)[j];
            &&& fuzzy ==> e.flags.contains("fuzzy"@)
            &&& !fuzzy ==> !e.flags.contains("fuzzy"@)
            &&& e.msgstr == es[j].msgstr
            &&& e.msgstr_plural == es[j].msgstr_plural
        }),
        fuzzy_entries(fuzzy_entries(es, k, fuzzy), k, fuzzy) == fuzzy_entries(es, k, fuzzy),
{
    lemma_first_exists(po_keys(es), k);
    let j = first_index(po_keys(es), k);
    let es1 = fuzzy_entries(es, k, fuzzy);
    lemma_fuzzy_keys(es, k, fuzzy);
    assert(first_index(po_keys(es1), k) == j);
    lemma_without_flag(es[j].flags, "fuzzy"@);
    if !fuzzy {
        lemma_without_absent_flag(es1[j].flags, "fuzzy"@);
    }
    let es2 = fuzzy_entries(es1, k, fuzzy);
    assert(es2[j] == es1[j]);
    assert(es2 =~= es1);
}

/// Setting (or clearing) the fuzzy flag of an entry twice leaves the whole
/// document as setting it once: the same file, and a session showing the
/// same entries and statistics, equally dirty, with the same locale,
/// header, source and destinations.
pub proof fn law_fuzzy_twice_leaves_the_document_as_once(
    d0: CatalogDocument,
    d1: CatalogDocument,
    d2: CatalogDocument,
    k: KeyView,
    fuzzy: bool,
)
    requires
        d0.wf(),
        fuzzy_set(d0, d1, k, fuzzy),
        fuzzy_set(d1, d2, k, fuzzy),
    ensures
        d2.contents() == d1.contents(),
        entries_view(d2.state().entries@) == entries_view(d1.state().entries@),
        d2.state().stats == d1.state().stats,
        d2.state().dirty == d1.state().dirty,
        d2.state().locale == d1.state().locale,
        d2.state().header == d1.state().header,
        d2.state().source_kind == d1.state().source_kind,
        d2.state().source_path == d1.state().source_path,
        d2.state().po_path == d1.state().po_path,
        d2.state().last_compiled_mo == d1.state().last_compiled_mo,
{
    let f0 = d0.contents();
    if po_keys(f0.entries).contains(k) {
        let f1 = d1.contents();
        law_setting_fuzzy_twice_is_once(f0.entries, k, fuzzy);
        lemma_fuzzy_keys(f0.entries, k, fuzzy);
        assert(po_keys(f1.entries).contains(k));
        assert(d2.contents() =~= f1);
        let es1 = entries_view(d1.state().entries@);
        let st1 = d1.state().stats;
        lemma_model_keys(f1.entries);
        assert(model_keys(es1) == po_keys(f1.entries));
        lemma_first_exists(po_keys(f1.entries), k);
        let si = first_index(model_keys(es1), k);
        assert(es1[si] == entry_model(f1.entries[si]));
        assert(es1.update(si, entry_model(f1.entries[si])) =~= es1);
        lemma_recount_matches(es1, st1);
        lemma_refresh_entry_counts(es1, st1, f1, k);
        let st2 = d2.state().stats;
        assert(entries_view(d2.state().entries@) == es1);
        assert(counts_match(es1, st2));
        assert(st2 == st1);
    }
}

pub proof fn law_marking_fuzzy_then_reviewed_restores(es: Seq<PoEntryView>, k: KeyView)
    requires
        po_keys(es).contains(k),
        !es[first_index(po_keys(es), k)].flags.contains("fuzzy"@),
    ensures
        fuzzy_entries(fuzzy_entries(es, k, true), k, false) == es,
{
    lemma_first_exists(po_keys(es), k);
    let j = first_index(po_keys(es), k);
    let es1 = fuzzy_entries(es, k, true);
    lemma_fuzzy_keys(es, k, true);
    assert(first_index(po_keys(es1), k) == j);
    let flags = es[j].flags;
    assert(es1[j].flags == flags.push("fuzzy"@));
    assert(flags.push("fuzzy"@).drop_last() =~= flags);
    assert(without_flag(flags.push("fuzzy"@), "fuzzy"@) == without_flag(flags, "fuzzy"@));
    lemma_without_absent_flag(flags, "fuzzy"@);
    let es2 = fuzzy_entries(es1, k, false);
    assert(es2[j] == es[j]);
    assert(es2 =~= es);
}

/// The entries after the fuzzy flag was cleared for the keys `ks`: each
/// entry whose key is among them has its flags without `fuzzy`, and
/// nothing else differs.
pub open spec fn cleared_shape(f0: Seq<PoEntryView>, f: Seq<PoEntryView>, ks: Seq<KeyView>) -> bool {
    &&& f.len() == f0.len()
    &&& forall|i: int| 0 <= i < f.len() ==> #[trigger] f[i] == (PoEntryView {
        flags: if ks.contains(po_keys(f0)[i]) { without_flag(f0[i].flags, "fuzzy"@) } else { f0[i].flags },
        ..f0[i]
    })
}

/// No two entries share a key.
pub open spec fn distinct_keys(keys: Seq<KeyView>) -> bool {
    forall|i: int, j: int| 0 <= i < j < keys.len() ==> keys[i] != keys[j]
}

proof fn lemma_cleared_shape(f0: Seq<PoEntryView>, ks: Seq<KeyView>)
    requires
        distinct_keys(po_keys(f0)),
    ensures
        cleared_shape(f0, cleared(f0, ks), ks),
    decreases ks.len(),
{
    broadcast use vstd::seq_lib::group_seq_properties;
    if ks.len() == 0 {
        assert forall|i: int| 0 <= i < f0.len() implies #[trigger] f0[i] == (PoEntryView {
            flags: if ks.contains(po_keys(f0)[i]) { without_flag(f0[i].flags, "fuzzy"@) } else { f0[i].flags },
            ..f0[i]
        }) by {}
    } else {
        let t = ks.drop_last();
        let k = ks.last();
        lemma_cleared_shape(f0, t);
        let f = cleared(f0, t);
        assert(ks =~= t.push(k));
        assert(po_keys(f) =~= po_keys(f0)) by {
            assert forall|i: int| 0 <= i < f.len() implies po_keys(f)[i] == po_keys(f0)[i] by {
                assert(f[i].msgid == f0[i].msgid && f[i].msgctxt == f0[i].msgctxt);
            }
        }
        if po_keys(f).contains(k) {
            lemma_first_exists(po_keys(f), k);
            let j = first_index(po_keys(f), k);
            let g = fuzzy_entries(f, k, false);
            assert forall|i: int| 0 <= i < g.len() implies #[trigger] g[i] == (PoEntryView {
                flags: if ks.contains(po_keys(f0)[i]) { without_flag(f0[i].flags, "fuzzy"@) } else { f0[i].flags },
                ..f0[i]
            }) by {
                if i == j {
                    lemma_without_flag(f0[i].flags, "fuzzy"@);
                    lemma_without_absent_flag(without_flag(f0[i].flags, "fuzzy"@), "fuzzy"@);
                    assert(ks.contains(po_keys(f0)[i]));
                } else {
                    assert(g[i] == f[i]);
                    assert(po_keys(f0)[i] != k) by {
                        if po_keys(f0)[i] == k {
                            if i < j {
                                assert(po_keys(f)[i] == k);
                            } else {
                                assert(po_keys(f0)[j] == po_keys(f0)[i]);
                            }
                        }
                    }
                    assert(ks.contains(po_keys(f0)[i]) == t.contains(po_keys(f0)[i]));
                }
            }
        } else {
            assert forall|i: int| 0 <= i < f.len() implies #[trigger] f[i] == (PoEntryView {
                flags: if ks.contains(po_keys(f0)[i]) { without_flag(f0[i].flags, "fuzzy"@) } else { f0[i].flags },
                ..f0[i]
            }) by {
                assert(po_keys(f)[i] == po_keys(f0)[i]);
                assert(po_keys(f0)[i] != k);
                assert(ks.contains(po_keys(f0)[i]) == t.contains(po_keys(f0)[i]));
            }
        }
    }
}

proof fn lemma_fuzzy_keys_cover(es: Seq<EntryModel>, i: int)
    requires
        0 <= i < es.len(),
        es[i].status == EntryStatus::Fuzzy,
    ensures
        fuzzy_keys(es).contains(es[i].key),
    decreases es.len(),
{
    broadcast use vstd::seq_lib::group_seq_properties;
    if i < es.len() - 1 {
        lemma_fuzzy_keys_cover(es.drop_last(), i);
    }
}

/// Approving every fuzzy entry of a catalog whose entries have distinct
/// keys leaves no entry fuzzy.
pub proof fn law_approving_all_leaves_none_fuzzy(b: Workspace, a: Workspace)
    requires
        b.inv(),
        a.inv(),
        b.catalog is Some,
        approve_effect(b, a),
        distinct_keys(model_keys(b.entries())),
    ensures
        forall|i: int| 0 <= i < a.entries().len() ==> (#[trigger] a.entries()[i]).status != EntryStatus::Fuzzy,
{
    let f0 = b.catalog.unwrap().contents().entries;
    lemma_model_keys(f0);
    let keys = fuzzy_keys(b.entries());
    lemma_cleared_shape(f0, keys);
    let f = cleared(f0, keys);
    assert forall|i: int| 0 <= i < a.entries().len() implies (#[trigger] a.entries()[i]).status != EntryStatus::Fuzzy by {
        assert(a.entries()[i] == entry_model(f[i]));
        assert(b.entries()[i] == entry_model(f0[i]));
        lemma_fuzzy_classified(f0[i]);
        lemma_fuzzy_classified(f[i]);
        lemma_without_flag(f0[i].flags, "fuzzy"@);
        if b.entries()[i].status == EntryStatus::Fuzzy {
            lemma_fuzzy_keys_cover(b.entries(), i);
            assert(po_keys(f0)[i] == b.entries()[i].key);
        }
    }
}


// ── Batch replies ──────────────────────────────────────────────────

proof fn lemma_first_with_id_at(entries: Seq<BatchEntryEnvelope>, id: Seq<char>, from: int, j: int)
    requires
        0 <= from <= j < entries.len(),
        opt_view(entries[j].id) == Some(id),
        forall|k: int| from <= k < j ==> opt_view(#[trigger] entries[k].id) != Some(id),
    ensures
        crate::client::first_with_id(entries, id, from) == Some(j),
    decreases j - from,
{
    if from < j {
        lemma_first_with_id_at(entries, id, from + 1, j);
    }
}

proof fn lemma_first_with_id_none(entries: Seq<BatchEntryEnvelope>, id: Seq<char>, from: int)
    requires
        0 <= from,
        forall|k: int| from <= k < entries.len() ==> opt_view(#[trigger] entries[k].id) != Some(id),
    ensures
        crate::client::first_with_id(entries, id, from) is None,
    decreases entries.len() - from,
{
    if from < entries.len() {
        lemma_first_with_id_none(entries, id, from + 1);
    }
}

/// A batch reply answers request `i` (counted from 0) by the first envelope
/// whose id is exactly `i + 1` in decimal, whatever envelopes come before it
/// with other ids (a longer or shorter number included).
pub proof fn law_batch_reply_matched_by_exact_id(entries: Seq<BatchEntryEnvelope>, i: int, j: int, metadata: MetadataView)
    requires
        0 <= i,
        0 <= j < entries.len(),
        opt_view(entries[j].id) == Some(decimal((i + 1) as nat)),
        forall|k: int| 0 <= k < j ==> opt_view(#[trigger] entries[k].id) != Some(decimal((i + 1) as nat)),
    ensures
        envelope_for(entries, i) == Some(entries[j]),
        batch_outcome(entries, i, metadata)
            == Ok::<_, Seq<char>>(envelope_response(opt_view(entries[j].singular), opt_strs_view(entries[j].plurals), metadata)),
        batch_outcome(entries, i, metadata) matches Ok(resp) && {
            &&& entries[j].singular matches Some(t) ==> resp.0 == t@
            &&& entries[j].singular is None ==> resp.0.len() == 0
            &&& resp.2 == metadata
        },
{
    lemma_first_with_id_at(entries, decimal((i + 1) as nat), 0, j);
}

/// When no envelope's id is exactly `i + 1`, request `i` is answered by the
/// envelope at its position, and skipped when there is none: an envelope is
/// never chosen by an id that differs from the request's number.
pub proof fn law_batch_reply_without_its_id_goes_by_position(entries: Seq<BatchEntryEnvelope>, i: int, metadata: MetadataView)
    requires
        0 <= i,
        forall|k: int| 0 <= k < entries.len() ==> opt_view(#[trigger] entries[k].id) != Some(decimal((i + 1) as nat)),
    ensures
        envelope_for(entries, i) == if i < entries.len() { Some(entries[i]) } else { None },
        i >= entries.len() ==> batch_outcome(entries, i, metadata) is Err,
        i < entries.len() ==> batch_outcome(entries, i, metadata) is Ok,
{
    lemma_first_with_id_none(entries, decimal((i + 1) as nat), 0);
}

// ── Quick statistics ───────────────────────────────────────────────

/// A `msgstr` line, plural (`msgstr[N]`) or not, whose value has content
/// marks the entry being read as translated so far.
pub proof fn law_translation_lines_give_content(st: ScanState, line: Seq<char>)
    requires
        has_prefix(trim(line), "msgstr["@) || has_prefix(trim(line), "msgstr "@),
        has_non_quote(after_space(trim(line))),
    ensures
        scan_line(st, line).has_content,
        scan_line(st, line).in_msgstr,
        scan_line(st, line).total == st.total,
        scan_line(st, line).translated == st.translated,
{
    reveal_strlit("msgstr[");
    reveal_strlit("msgstr ");
    reveal_strlit("#~");
    reveal_strlit("msgid ");
    reveal_strlit("#,");
    let t = trim(line);
    assert(t[0] == 'm' && t[3] == 's') by {
        if has_prefix(t, "msgstr["@) {
            assert(t[0] == t.take(7)[0]);
            assert(t[3] == t.take(7)[3]);
        } else {
            assert(t[0] == t.take(7)[0]);
            assert(t[3] == t.take(7)[3]);
        }
    }
    if has_prefix(t, "#~"@) {
        assert(t[0] == t.take(2)[0]);
    }
    if has_prefix(t, "#,"@) {
        assert(t[0] == t.take(2)[0]);
    }
    if has_prefix(t, "msgid "@) {
        assert(t[3] == t.take(6)[3]);
    }
}

/// A flags line naming `fuzzy` marks the entry whose `msgid` line comes
/// next (not the entry before it): that entry is read as fuzzy, and the
/// entry before it is finished as it was.
pub proof fn law_fuzzy_flag_belongs_to_the_next_entry(st: ScanState, flags: Seq<char>, msgid: Seq<char>)
    requires
        has_prefix(trim(flags), "#, "@),
        contains_seq(trim(flags), "fuzzy"@),
        has_prefix(trim(msgid), "msgid "@),
    ensures
        scan_line(scan_line(st, flags), msgid).is_fuzzy,
        scan_line(scan_line(st, flags), msgid).seen_msgid,
        !scan_line(scan_line(st, flags), msgid).is_obsolete,
        scan_line(scan_line(st, flags), msgid).total == commit(st).total,
        scan_line(scan_line(st, flags), msgid).fuzzy == commit(st).fuzzy,
        scan_line(scan_line(st, flags), msgid).translated == commit(st).translated,
{
    reveal_strlit("#, ");
    reveal_strlit("#,");
    reveal_strlit("#~");
    reveal_strlit("msgid ");
    let t = trim(flags);
    assert(t.take(2) =~= "#,"@) by {
        assert(t.take(3)[0] == t.take(2)[0]);
        assert(t.take(3)[1] == t.take(2)[1]);
    }
    assert(t[1] == t.take(3)[1]);
    if has_prefix(t, "#~"@) {
        assert(t[1] == t.take(2)[1]);
    }
    if has_prefix(t, "msgid "@) {
        assert(t[0] == t.take(6)[0]);
    }
    reveal_strlit("msgstr ");
    reveal_strlit("msgstr[");
    reveal_strlit("\"");
    reveal_strlit("#");
    if has_prefix(t, "msgstr "@) || has_prefix(t, "msgstr["@) {
        assert(t[0] == t.take(7)[0]);
    }
    if has_prefix(t, "\""@) {
        assert(t[0] == t.take(1)[0]);
    }
    assert(t.take(1) =~= "#"@) by {
        assert(t.take(1)[0] == t.take(3)[0]);
    }
    assert(scan_line(st, flags) == ScanState { pending_fuzzy: true, ..st });
    let m = trim(msgid);
    assert(m[0] == m.take(6)[0]);
    if has_prefix(m, "#~"@) {
        assert(m[0] == m.take(2)[0]);
    }
}

/// A finished entry that is neither obsolete nor fuzzy, is not the header
/// and whose translation had content is counted once, as translated.
pub proof fn law_translated_entry_is_counted(st: ScanState)
    requires
        st.seen_msgid,
        !st.is_obsolete,
        !st.is_fuzzy,
        st.has_content,
        !(st.msgid_empty && !st.header_seen),
    ensures
        commit(st).total == st.total + 1,
        commit(st).translated == st.translated + 1,
        commit(st).fuzzy == st.fuzzy,
        commit(st).obsolete == st.obsolete,
{
}

/// A finished entry that is fuzzy (and not obsolete, not the header) is
/// counted as fuzzy, not translated; an obsolete one as obsolete.
pub proof fn law_fuzzy_and_obsolete_entries_are_counted(st: ScanState)
    requires
        st.seen_msgid,
    ensures
        st.is_obsolete ==> commit(st).obsolete == st.obsolete + 1 && commit(st).translated == st.translated
            && commit(st).total == st.total + 1,
        !st.is_obsolete && st.is_fuzzy && !(st.msgid_empty && !st.header_seen) ==> commit(st).fuzzy == st.fuzzy + 1
            && commit(st).translated == st.translated && commit(st).total == st.total + 1,
{
}

// ── Entry filters ──────────────────────────────────────────────────

/// Each filter shows exactly the entries of its kind: all of them; the
/// untranslated, fuzzy or obsolete ones by status; those with warnings.
pub proof fn law_filters_show_their_kind(e: EntryModel)
    ensures
        filter_matches(EntryFilter::All, e),
        filter_matches(EntryFilter::Untranslated, e) <==> e.status == EntryStatus::Untranslated,
        filter_matches(EntryFilter::Fuzzy, e) <==> e.status == EntryStatus::Fuzzy,
        filter_matches(EntryFilter::Obsolete, e) <==> e.status == EntryStatus::Obsolete,
        filter_matches(EntryFilter::Warnings, e) <==> e.warnings.len() > 0,
{
}

/// A filtered list holds exactly the catalog's entries that the filter
/// shows.
proof fn lemma_visible_contains(es: Seq<EntryModel>, f: EntryFilter, x: EntryModel)
    ensures
        visible(es, f).contains(x) <==> (es.contains(x) && filter_matches(f, x)),
    decreases es.len(),
{
    if es.len() > 0 {
        let init = es.drop_last();
        let last = es.last();
        lemma_visible_contains(init, f, x);
        let v = visible(init, f);
        assert(es.contains(x) <==> (init.contains(x) || last == x)) by {
            if es.contains(x) {
                let w = choose|w: int| 0 <= w < es.len() && es[w] == x;
                if w < es.len() - 1 {
                    assert(init[w] == x);
                }
            }
            if init.contains(x) {
                let w = choose|w: int| 0 <= w < init.len() && init[w] == x;
                assert(es[w] == x);
            }
            if last == x {
                assert(es[es.len() - 1] == x);
            }
        }
        if filter_matches(f, last) {
            assert(v.push(last).contains(x) <==> (v.contains(x) || last == x)) by {
                if v.push(last).contains(x) {
                    let w = choose|w: int| 0 <= w < v.push(last).len() && v.push(last)[w] == x;
                    if w < v.len() {
                        assert(v[w] == x);
                    }
                }
                if v.contains(x) {
                    let w = choose|w: int| 0 <= w < v.len() && v[w] == x;
                    assert(v.push(last)[w] == x);
                }
                if last == x {
                    assert(v.push(last)[v.len() as int] == x);
                }
            }
        }
    }
}

/// The fuzzy list shows exactly the fuzzy entries of the catalog.
pub proof fn law_fuzzy_list_holds_the_fuzzy_entries(es: Seq<EntryModel>, x: EntryModel)
    ensures
        visible(es, EntryFilter::Fuzzy).contains(x) <==> (es.contains(x) && x.status == EntryStatus::Fuzzy),
{
    lemma_visible_contains(es, EntryFilter::Fuzzy, x);
    law_filters_show_their_kind(x);
}

// ── Validation ─────────────────────────────────────────────────────

proof fn lemma_plural_messages_differ()
    ensures
        PLURAL_REQUIRED_MESSAGE@ != PLURAL_UNEXPECTED_MESSAGE@,
{
    reveal_strlit("Plural source entry requires plural translations.");
    reveal_strlit("Singular source entry should not produce plural translations.");
    assert(PLURAL_REQUIRED_MESSAGE@[0] != PLURAL_UNEXPECTED_MESSAGE@[0]);
}

/// The plural warnings: a plural source without plural translations is
/// always reported, and so is a singular source with plural translations;
/// neither is reported otherwise.
pub proof fn law_plural_mismatch_is_reported(hp: bool, pe: bool, ps: bool, ts: bool)
    ensures
        warnings_model(hp, pe, ps, ts).contains((ValidationCode::PluralMismatch, PLURAL_REQUIRED_MESSAGE@))
            <==> (hp && pe),
        warnings_model(hp, pe, ps, ts).contains((ValidationCode::PluralMismatch, PLURAL_UNEXPECTED_MESSAGE@))
            <==> (!hp && !pe),
        warnings_model(hp, pe, ps, ts).contains((ValidationCode::PlaceholderMismatch, PLACEHOLDER_MESSAGE@)) <==> !ps,
        warnings_model(hp, pe, ps, ts).contains((ValidationCode::TagMismatch, TAG_MESSAGE@)) <==> !ts,
        forall|w: WarningView| #[trigger] warnings_model(hp, pe, ps, ts).contains(w) ==> {
            ||| w == (ValidationCode::PlaceholderMismatch, PLACEHOLDER_MESSAGE@)
            ||| w == (ValidationCode::TagMismatch, TAG_MESSAGE@)
            ||| w == (ValidationCode::PluralMismatch, PLURAL_REQUIRED_MESSAGE@)
            ||| w == (ValidationCode::PluralMismatch, PLURAL_UNEXPECTED_MESSAGE@)
        },
{
    lemma_plural_messages_differ();
    let req = (ValidationCode::PluralMismatch, PLURAL_REQUIRED_MESSAGE@);
    let unexp = (ValidationCode::PluralMismatch, PLURAL_UNEXPECTED_MESSAGE@);
    let ph = (ValidationCode::PlaceholderMismatch, PLACEHOLDER_MESSAGE@);
    let tg = (ValidationCode::TagMismatch, TAG_MESSAGE@);
    let a: Seq<WarningView> = if ps { Seq::empty() } else { seq![ph] };
    let b: Seq<WarningView> = if ts { Seq::empty() } else { seq![tg] };
    let c: Seq<WarningView> = if hp && pe { seq![req] } else { Seq::empty() };
    let d: Seq<WarningView> = if !hp && !pe { seq![unexp] } else { Seq::empty() };
    let all = a + b + c + d;
    assert(warnings_model(hp, pe, ps, ts) == all);
    assert forall|w: WarningView| all.contains(w) <==> (
        (!ps && w == ph) || (!ts && w == tg) || (hp && pe && w == req) || (!hp && !pe && w == unexp)
    ) by {
        if all.contains(w) {
            let i = choose|i: int| 0 <= i < all.len() && all[i] == w;
            if i < a.len() { assert(a[i] == w); }
            else if i < a.len() + b.len() { assert(b[i - a.len()] == w); }
            else if i < a.len() + b.len() + c.len() { assert(c[i - a.len() - b.len()] == w); }
            else { assert(d[i - a.len() - b.len() - c.len()] == w); }
        }
        if !ps && w == ph { assert(all[0] == w); }
        if !ts && w == tg { assert(all[a.len() as int] == w); }
        if hp && pe && w == req { assert(all[(a.len() + b.len()) as int] == w); }
        if !hp && !pe && w == unexp { assert(all[(a.len() + b.len() + c.len()) as int] == w); }
    }
    assert(all.contains(req) <==> (hp && pe));
    assert(all.contains(unexp) <==> (!hp && !pe));
    assert(all.contains(ph) <==> !ps);
    assert(all.contains(tg) <==> !ts);
}

/// Validating a translation of a plural entry that has no plural forms
/// always reports the missing plural translations.
pub proof fn law_plural_source_needs_plural_translations(
    msgid: Seq<char>,
    msgid_plural: Seq<char>,
    singular: Seq<char>,
)
    ensures
        validation_of(msgid, Some(msgid_plural), singular, Seq::empty())
            .contains((ValidationCode::PluralMismatch, PLURAL_REQUIRED_MESSAGE@)),
{
    let src = crate::validation::source_texts(msgid, Some(msgid_plural));
    let tgt = crate::validation::target_texts(singular, Seq::empty());
    law_plural_mismatch_is_reported(
        true,
        true,
        crate::validation::token_set(crate::validation::PLACEHOLDER_PATTERN@, src)
            == crate::validation::token_set(crate::validation::PLACEHOLDER_PATTERN@, tgt),
        crate::validation::token_set(crate::validation::TAG_PATTERN@, src)
            == crate::validation::token_set(crate::validation::TAG_PATTERN@, tgt),
    );
}

// ── Model families ─────────────────────────────────────────────────

/// A model is offered exactly when its id, in lower case, names a listed
/// family: Sonnet, Opus, GLM, Gemini Pro (both words), Kimi or DeepSeek.
pub proof fn law_models_of_listed_families_are_offered(id: Seq<char>)
    ensures
        contains_seq(lowercase(id), "glm"@) ==> allowed_model(id),
        contains_seq(lowercase(id), "sonnet"@) ==> allowed_model(id),
        contains_seq(lowercase(id), "opus"@) ==> allowed_model(id),
        contains_seq(lowercase(id), "kimi"@) ==> allowed_model(id),
        contains_seq(lowercase(id), "deepseek"@) ==> allowed_model(id),
        contains_seq(lowercase(id), "gemini"@) && contains_seq(lowercase(id), "pro"@) ==> allowed_model(id),
        allowed_model(id) ==> {
            let l = lowercase(id);
            ||| contains_seq(l, "glm"@)
            ||| contains_seq(l, "sonnet"@)
            ||| contains_seq(l, "opus"@)
            ||| contains_seq(l, "kimi"@)
            ||| contains_seq(l, "deepseek"@)
            ||| contains_seq(l, "gemini"@) && contains_seq(l, "pro"@)
        },
{
}

} // verus!
