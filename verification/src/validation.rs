//! Checks a proposed translation against its source text: placeholders,
//! markup tags and plural forms must agree.
use vstd::prelude::*;
use crate::model::{lemma_strs_view_push, lemma_strs_view_take, CatalogEntry, TranslationPayload, ValidationCode, ValidationWarning, WarningView, opt_view, strs_view, warnings_view};

verus! {

/// printf-style (`%s`, `%1$d`, `%(name)s`) and brace (`{name}`) placeholders.
pub const PLACEHOLDER_PATTERN: &'static str =
    r"%(\(\w+\))?[#0\- +'I]*(\d+\$)?[0-9.*hlLjzt]*[a-zA-Z%]|\{[a-zA-Z0-9_.-]+\}";

/// HTML/XML-like opening and closing tags.
pub const TAG_PATTERN: &'static str = r"</?[A-Za-z][^>]*>";

pub const PLACEHOLDER_MESSAGE: &'static str = "The translation changed or dropped placeholders.";

pub const TAG_MESSAGE: &'static str = "The translation changed or dropped HTML/XML-like tags.";

pub const PLURAL_REQUIRED_MESSAGE: &'static str = "Plural source entry requires plural translations.";

pub const PLURAL_UNEXPECTED_MESSAGE: &'static str =
    "Singular source entry should not produce plural translations.";

/// What `regex::Regex::new(pattern)` followed by `find_iter(text)` yields:
/// the matched substrings in order, or `None` when the pattern does not
/// compile.
pub uninterp spec fn regex_find_all(pattern: Seq<char>, text: Seq<char>) -> Option<Seq<Seq<char>>>;

/// Compiles `pattern` with `regex::Regex::new` and collects the text of every
/// match of `Regex::find_iter` over `text`, in order. The contract claims only
/// that the result is the named function of the two strings; which substrings
/// match is left to the regex crate.
#[verifier::external_body]
fn regex_matches(pattern: &str, text: &str) -> (r: Option<Vec<String>>)
    ensures
        r is Some == regex_find_all(pattern@, text@) is Some,
        r matches Some(v) ==> regex_find_all(pattern@, text@) == Some(strs_view(v@)),
{
    regex::Regex::new(pattern).ok().map(|re| re.find_iter(text).map(|m| m.as_str().to_string()).collect())
}

/// The matches of `pattern` in `text`; none when the pattern does not compile.
pub open spec fn matches_of(pattern: Seq<char>, text: Seq<char>) -> Seq<Seq<char>> {
    match regex_find_all(pattern, text) {
        Some(m) => m,
        None => Seq::empty(),
    }
}

/// The matches of `pattern` in each text, concatenated in order.
pub open spec fn all_matches(pattern: Seq<char>, texts: Seq<Seq<char>>) -> Seq<Seq<char>>
    decreases texts.len(),
{
    if texts.len() == 0 {
        Seq::empty()
    } else {
        all_matches(pattern, texts.drop_last()) + matches_of(pattern, texts.last())
    }
}

/// The set of distinct tokens `pattern` finds in the texts.
pub open spec fn token_set(pattern: Seq<char>, texts: Seq<Seq<char>>) -> Set<Seq<char>> {
    all_matches(pattern, texts).to_set()
}

/// The source texts of an entry: the msgid, then the plural msgid if any.
pub open spec fn source_texts(msgid: Seq<char>, msgid_plural: Option<Seq<char>>) -> Seq<Seq<char>> {
    match msgid_plural {
        Some(p) => seq![msgid, p],
        None => seq![msgid],
    }
}

/// The texts of a translation: the singular, then each plural form.
pub open spec fn target_texts(singular: Seq<char>, plurals: Seq<Seq<char>>) -> Seq<Seq<char>> {
    seq![singular] + plurals
}

/// The warnings, in order: placeholders differ, tags differ, a plural source
/// without plural translations, a singular source with plural translations.
pub open spec fn warnings_model(
    has_plural_source: bool,
    plurals_empty: bool,
    placeholders_same: bool,
    tags_same: bool,
) -> Seq<WarningView> {
    (if placeholders_same { Seq::empty() } else {
        seq![(ValidationCode::PlaceholderMismatch, PLACEHOLDER_MESSAGE@)]
    }) + (if tags_same { Seq::empty() } else {
        seq![(ValidationCode::TagMismatch, TAG_MESSAGE@)]
    }) + (if has_plural_source && plurals_empty {
        seq![(ValidationCode::PluralMismatch, PLURAL_REQUIRED_MESSAGE@)]
    } else {
        Seq::empty()
    }) + (if !has_plural_source && !plurals_empty {
        seq![(ValidationCode::PluralMismatch, PLURAL_UNEXPECTED_MESSAGE@)]
    } else {
        Seq::empty()
    })
}

/// The warnings `validate_translation` gives for the source texts and the
/// translation texts.
pub open spec fn validation_of(
    msgid: Seq<char>,
    msgid_plural: Option<Seq<char>>,
    singular: Seq<char>,
    plurals: Seq<Seq<char>>,
) -> Seq<WarningView> {
    let src = source_texts(msgid, msgid_plural);
    let tgt = target_texts(singular, plurals);
    warnings_model(
        msgid_plural is Some,
        plurals.len() == 0,
        token_set(PLACEHOLDER_PATTERN@, src) == token_set(PLACEHOLDER_PATTERN@, tgt),
        token_set(TAG_PATTERN@, src) == token_set(TAG_PATTERN@, tgt),
    )
}

/// Every match of `pattern` in each of `values`, in order.
pub fn extract_tokens(pattern: &str, values: &Vec<String>) -> (r: Vec<String>)
    ensures
        strs_view(r@) == all_matches(pattern@, strs_view(values@)),
{
    let mut r: Vec<String> = Vec::new();
    let mut i: usize = 0;
    while i < values.len()
        invariant
            i <= values@.len(),
            strs_view(r@) == all_matches(pattern@, strs_view(values@).take(i as int)),
        decreases values.len() - i,
    {
        let found = regex_matches(pattern, values[i].as_str());
        let ghost before = r@;
        match found {
            Some(ms) => {
                let mut j: usize = 0;
                while j < ms.len()
                    invariant
                        j <= ms@.len(),
                        strs_view(r@) == strs_view(before) + strs_view(ms@).take(j as int),
                    decreases ms.len() - j,
                {
                    let ghost prev = r@;
                    r.push(ms[j].clone());
                    proof {
                        lemma_strs_view_push(prev, ms@[j as int]);
                        lemma_strs_view_take(ms@, j as int);
                    }
                    assert(strs_view(r@) =~= strs_view(before) + strs_view(ms@).take(j + 1));
                    j = j + 1;
                }
                assert(strs_view(ms@).take(ms@.len() as int) == strs_view(ms@));
            },
            None => {
                assert(strs_view(r@) =~= strs_view(before) + Seq::<Seq<char>>::empty());
            },
        }
        let ghost vs = strs_view(values@);
        assert(vs.take(i + 1).drop_last() == vs.take(i as int));
        assert(vs.take(i + 1).last() == values@[i as int]@);
        i = i + 1;
    }
    assert(strs_view(values@).take(values@.len() as int) == strs_view(values@));
    r
}

/// Whether `x` equals one of the strings of `v`.
pub fn contains_string(v: &Vec<String>, x: &String) -> (r: bool)
    ensures
        r == strs_view(v@).contains(x@),
{
    let mut i: usize = 0;
    while i < v.len()
        invariant
            i <= v@.len(),
            forall|j: int| 0 <= j < i ==> v@[j]@ != x@,
        decreases v.len() - i,
    {
        if v[i] == *x {
            assert(strs_view(v@)[i as int] == x@);
            return true;
        }
        i = i + 1;
    }
    proof {
        if strs_view(v@).contains(x@) {
            let j = choose|j: int| 0 <= j < strs_view(v@).len() && strs_view(v@)[j] == x@;
            assert(v@[j]@ == x@);
        }
    }
    false
}

/// Whether every string of `a` occurs in `b`.
fn all_in(a: &Vec<String>, b: &Vec<String>) -> (r: bool)
    ensures
        r == (forall|i: int| 0 <= i < a@.len() ==> strs_view(b@).contains(#[trigger] a@[i]@)),
{
    let mut i: usize = 0;
    while i < a.len()
        invariant
            i <= a@.len(),
            forall|j: int| 0 <= j < i ==> strs_view(b@).contains(#[trigger] a@[j]@),
        decreases a.len() - i,
    {
        if !contains_string(b, &a[i]) {
            return false;
        }
        i = i + 1;
    }
    true
}

/// Whether two vectors hold the same set of strings.
pub fn same_string_set(a: &Vec<String>, b: &Vec<String>) -> (r: bool)
    ensures
        r == (strs_view(a@).to_set() == strs_view(b@).to_set()),
{
    let ab = all_in(a, b);
    let ba = all_in(b, a);
    proof {
        let sa = strs_view(a@);
        let sb = strs_view(b@);
        if ab && ba {
            assert forall|x: Seq<char>| sa.to_set().contains(x) == sb.to_set().contains(x) by {
                if sa.contains(x) {
                    let j = choose|j: int| 0 <= j < sa.len() && sa[j] == x;
                    assert(a@[j]@ == x);
                }
                if sb.contains(x) {
                    let j = choose|j: int| 0 <= j < sb.len() && sb[j] == x;
                    assert(b@[j]@ == x);
                }
            }
            assert(sa.to_set() =~= sb.to_set());
        } else if !ab {
            let i = choose|i: int| 0 <= i < a@.len() && !sb.contains(#[trigger] a@[i]@);
            assert(sa[i] == a@[i]@);
            assert(sa.to_set().contains(a@[i]@));
            assert(!sb.to_set().contains(a@[i]@));
        } else {
            let i = choose|i: int| 0 <= i < b@.len() && !sa.contains(#[trigger] b@[i]@);
            assert(sb[i] == b@[i]@);
            assert(sb.to_set().contains(b@[i]@));
            assert(!sa.to_set().contains(b@[i]@));
        }
    }
    ab && ba
}

fn warning(code: ValidationCode, message: &str) -> (r: ValidationWarning)
    ensures
        r@ == (code, message@),
{
    ValidationWarning { code, message: String::from_str(message) }
}

/// The warnings for an entry and a translation, given the tokens found in
/// the source texts and in the translation texts.
pub fn warnings_from_tokens(
    entry: &CatalogEntry,
    translation: &TranslationPayload,
    source_placeholders: &Vec<String>,
    target_placeholders: &Vec<String>,
    source_tags: &Vec<String>,
    target_tags: &Vec<String>,
) -> (r: Vec<ValidationWarning>)
    ensures
        warnings_view(r@) == warnings_model(
            entry.msgid_plural is Some,
            translation.plurals@.len() == 0,
            strs_view(source_placeholders@).to_set() == strs_view(target_placeholders@).to_set(),
            strs_view(source_tags@).to_set() == strs_view(target_tags@).to_set(),
        ),
{
    let mut r: Vec<ValidationWarning> = Vec::new();
    let ph_same = same_string_set(source_placeholders, target_placeholders);
    let tags_same = same_string_set(source_tags, target_tags);
    let has_plural = entry.msgid_plural.is_some();
    let plurals_empty = translation.plurals.len() == 0;
    if !ph_same {
        r.push(warning(ValidationCode::PlaceholderMismatch, PLACEHOLDER_MESSAGE));
    }
    if !tags_same {
        r.push(warning(ValidationCode::TagMismatch, TAG_MESSAGE));
    }
    if has_plural && plurals_empty {
        r.push(warning(ValidationCode::PluralMismatch, PLURAL_REQUIRED_MESSAGE));
    }
    if !has_plural && !plurals_empty {
        r.push(warning(ValidationCode::PluralMismatch, PLURAL_UNEXPECTED_MESSAGE));
    }
    assert(warnings_view(r@) =~= warnings_model(has_plural, plurals_empty, ph_same, tags_same));
    r
}

/// The source texts of an entry, as strings.
fn entry_sources(entry: &CatalogEntry) -> (r: Vec<String>)
    ensures
        strs_view(r@) == source_texts(entry.msgid@, opt_view(entry.msgid_plural)),
{
    let mut r: Vec<String> = Vec::new();
    r.push(entry.msgid.clone());
    match &entry.msgid_plural {
        Some(p) => r.push(p.clone()),
        None => {},
    }
    assert(strs_view(r@) =~= source_texts(entry.msgid@, opt_view(entry.msgid_plural)));
    r
}

/// The texts of a translation, as strings.
fn payload_targets(translation: &TranslationPayload) -> (r: Vec<String>)
    ensures
        strs_view(r@) == target_texts(translation.singular@, strs_view(translation.plurals@)),
{
    let mut r: Vec<String> = Vec::new();
    r.push(translation.singular.clone());
    let mut i: usize = 0;
    while i < translation.plurals.len()
        invariant
            i <= translation.plurals@.len(),
            strs_view(r@) == seq![translation.singular@] + strs_view(translation.plurals@).take(i as int),
        decreases translation.plurals.len() - i,
    {
        let ghost prev = r@;
        r.push(translation.plurals[i].clone());
        proof {
            lemma_strs_view_push(prev, translation.plurals@[i as int]);
            lemma_strs_view_take(translation.plurals@, i as int);
        }
        assert(strs_view(r@) =~= seq![translation.singular@] + strs_view(translation.plurals@).take(i + 1));
        i = i + 1;
    }
    assert(strs_view(translation.plurals@).take(translation.plurals@.len() as int) == strs_view(translation.plurals@));
    r
}

/// Compares a translation with the entry it translates.
///
/// Warns when the placeholders or the markup tags of the translation differ
/// (as sets) from those of the source, when a plural source gets no plural
/// forms, and when a singular source gets plural forms.
pub fn validate_translation(entry: &CatalogEntry, translation: &TranslationPayload) -> (r: Vec<ValidationWarning>)
    ensures
        warnings_view(r@) == validation_of(
            entry.msgid@,
            opt_view(entry.msgid_plural),
            translation.singular@,
            strs_view(translation.plurals@),
        ),
{
    let sources = entry_sources(entry);
    let targets = payload_targets(translation);
    let source_placeholders = extract_tokens(PLACEHOLDER_PATTERN, &sources);
    let target_placeholders = extract_tokens(PLACEHOLDER_PATTERN, &targets);
    let source_tags = extract_tokens(TAG_PATTERN, &sources);
    let target_tags = extract_tokens(TAG_PATTERN, &targets);
    warnings_from_tokens(
        entry,
        translation,
        &source_placeholders,
        &target_placeholders,
        &source_tags,
        &target_tags,
    )
}

} // verus!
