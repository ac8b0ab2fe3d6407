//! The gettext catalog file as held by the `rspolib` crate, and the trusted
//! items through which the rest of the library reads and changes it.
//!
//! `po_contents` names what a `POFile` holds; every wrapper that reads or
//! changes a file states its effect over that name.
use vstd::prelude::*;
use rspolib::Merge;
use rspolib::AsBytes;
use crate::model::{opt_view, strs_view};

verus! {

#[verifier::external_type_specification]
#[verifier::external_body]
pub struct ExPOFile(rspolib::POFile);

/// One `rspolib::POEntry` as plain values (all fields but the line number).
pub struct PoEntryView {
    pub msgid: Seq<char>,
    pub msgstr: Option<Seq<char>>,
    pub msgid_plural: Option<Seq<char>>,
    pub msgstr_plural: Seq<Seq<char>>,
    pub msgctxt: Option<Seq<char>>,
    pub obsolete: bool,
    pub comment: Option<Seq<char>>,
    pub tcomment: Option<Seq<char>>,
    pub occurrences: Seq<(Seq<char>, Seq<char>)>,
    pub flags: Seq<Seq<char>>,
    pub previous_msgid: Option<Seq<char>>,
    pub previous_msgid_plural: Option<Seq<char>>,
    pub previous_msgctxt: Option<Seq<char>>,
}

/// What an `rspolib::POFile` holds: its entries in order, the header comment,
/// the metadata map and whether the metadata is marked fuzzy.
pub struct PoFileView {
    pub entries: Seq<PoEntryView>,
    pub header: Option<Seq<char>>,
    pub metadata: Map<Seq<char>, Seq<char>>,
    pub metadata_is_fuzzy: bool,
}

/// The contents of a `POFile`.
pub uninterp spec fn po_contents(file: rspolib::POFile) -> PoFileView;

/// `POFile`'s derived `Clone`: the copy has the same contents.
pub assume_specification[ <rspolib::POFile as core::clone::Clone>::clone ](file: &rspolib::POFile) -> (r: rspolib::POFile)
    ensures
        po_contents(r) == po_contents(*file),
;

/// A copy of one entry of a `POFile`.
#[derive(Debug, Clone)]
pub struct PoEntryData {
    pub msgid: String,
    pub msgstr: Option<String>,
    pub msgid_plural: Option<String>,
    pub msgstr_plural: Vec<String>,
    pub msgctxt: Option<String>,
    pub obsolete: bool,
    pub comment: Option<String>,
    pub tcomment: Option<String>,
    pub occurrences: Vec<(String, String)>,
    pub flags: Vec<String>,
    pub previous_msgid: Option<String>,
    pub previous_msgid_plural: Option<String>,
    pub previous_msgctxt: Option<String>,
}

/// The plain values of `(path, line)` occurrence pairs.
pub open spec fn pairs_view(v: Seq<(String, String)>) -> Seq<(Seq<char>, Seq<char>)> {
    v.map_values(|p: (String, String)| (p.0@, p.1@))
}

impl View for PoEntryData {
    type V = PoEntryView;

    open spec fn view(&self) -> PoEntryView {
        PoEntryView {
            msgid: self.msgid@,
            msgstr: opt_view(self.msgstr),
            msgid_plural: opt_view(self.msgid_plural),
            msgstr_plural: strs_view(self.msgstr_plural@),
            msgctxt: opt_view(self.msgctxt),
            obsolete: self.obsolete,
            comment: opt_view(self.comment),
            tcomment: opt_view(self.tcomment),
            occurrences: pairs_view(self.occurrences@),
            flags: strs_view(self.flags@),
            previous_msgid: opt_view(self.previous_msgid),
            previous_msgid_plural: opt_view(self.previous_msgid_plural),
            previous_msgctxt: opt_view(self.previous_msgctxt),
        }
    }
}

/// `f` with the same entries, header and fuzzy mark as `g`.
pub open spec fn same_file_but_metadata(f: PoFileView, g: PoFileView) -> bool {
    &&& f.entries == g.entries
    &&& f.header == g.header
    &&& f.metadata_is_fuzzy == g.metadata_is_fuzzy
}

/// `f` with the same header, metadata and fuzzy mark as `g`.
pub open spec fn same_file_but_entries(f: PoFileView, g: PoFileView) -> bool {
    &&& f.header == g.header
    &&& f.metadata == g.metadata
    &&& f.metadata_is_fuzzy == g.metadata_is_fuzzy
}

/// What `rspolib::pofile` gives for catalog text read as content: the
/// contents of the parsed file, or the message of its syntax error.
pub uninterp spec fn po_parsed(text: Seq<char>) -> Result<PoFileView, Seq<char>>;

/// Parses catalog text with `rspolib::pofile`; a syntax error comes back as
/// its message. `pofile` reads its argument as a path when a file of that
/// name exists; a text holding a NUL character never names a file
/// (`Path::is_file` is false for it), so such a text is always read as
/// content, and its result is named by `po_parsed`. The text must also pass
/// the line check of `po_check`, which keeps out the lines on which the
/// parser panics.
#[verifier::external_body]
pub(crate) fn po_parse(text: &str) -> (r: Result<rspolib::POFile, String>)
    requires
        crate::po_check::parser_takes(text@),
        text@.contains('\0'),
    ensures
        match r {
            Ok(f) => po_parsed(text@) == Ok::<PoFileView, Seq<char>>(po_contents(f)),
            Err(m) => po_parsed(text@) == Err::<PoFileView, Seq<char>>(m@),
        },
{
    rspolib::pofile(text).map_err(|error| error.to_string())
}

/// The number of entries (`POFile::entries.len()`).
#[verifier::external_body]
pub(crate) fn po_entry_count(file: &rspolib::POFile) -> (r: usize)
    ensures
        r == po_contents(*file).entries.len(),
{
    file.entries.len()
}

/// A copy of the entry at `index` (`POFile::entries[index]`, field by field).
#[verifier::external_body]
pub(crate) fn po_entry(file: &rspolib::POFile, index: usize) -> (r: PoEntryData)
    requires
        index < po_contents(*file).entries.len(),
    ensures
        r@ == po_contents(*file).entries[index as int],
{
    let e = &file.entries[index];
    PoEntryData {
        msgid: e.msgid.clone(), msgstr: e.msgstr.clone(), msgid_plural: e.msgid_plural.clone(),
        msgstr_plural: e.msgstr_plural.clone(), msgctxt: e.msgctxt.clone(), obsolete: e.obsolete,
        comment: e.comment.clone(), tcomment: e.tcomment.clone(), occurrences: e.occurrences.clone(),
        flags: e.flags.clone(), previous_msgid: e.previous_msgid.clone(),
        previous_msgid_plural: e.previous_msgid_plural.clone(),
        previous_msgctxt: e.previous_msgctxt.clone(),
    }
}

/// The `(msgid, msgctxt)` of the entry at `index`.
#[verifier::external_body]
pub(crate) fn po_entry_key(file: &rspolib::POFile, index: usize) -> (r: (String, Option<String>))
    requires
        index < po_contents(*file).entries.len(),
    ensures
        r.0@ == po_contents(*file).entries[index as int].msgid,
        opt_view(r.1) == po_contents(*file).entries[index as int].msgctxt,
{
    let e = &file.entries[index];
    (e.msgid.clone(), e.msgctxt.clone())
}

/// The value of one metadata field (`POFile::metadata.get(key)`).
#[verifier::external_body]
pub(crate) fn po_metadata_get(file: &rspolib::POFile, key: &str) -> (r: Option<String>)
    ensures
        opt_view(r) == (if po_contents(*file).metadata.contains_key(key@) {
            Some(po_contents(*file).metadata[key@])
        } else {
            None
        }),
{
    file.metadata.get(key).cloned()
}

/// Every metadata field as a `(key, value)` pair, each key once, in the
/// order in which the hash map yields them (which this contract leaves open).
#[verifier::external_body]
pub(crate) fn po_metadata_pairs(file: &rspolib::POFile) -> (r: Vec<(String, String)>)
    ensures
        forall|i: int| 0 <= i < r@.len() ==> po_contents(*file).metadata.contains_key(#[trigger] r@[i].0@)
            && po_contents(*file).metadata[r@[i].0@] == r@[i].1@,
        forall|k: Seq<char>| po_contents(*file).metadata.contains_key(k) ==> exists|i: int|
            0 <= i < r@.len() && #[trigger] r@[i].0@ == k,
        forall|i: int, j: int| 0 <= i < j < r@.len() ==> r@[i].0@ != r@[j].0@,
{
    file.metadata.iter().map(|(k, v)| (k.clone(), v.clone())).collect()
}

/// The header comment (`POFile::header`).
#[verifier::external_body]
pub(crate) fn po_header(file: &rspolib::POFile) -> (r: Option<String>)
    ensures
        opt_view(r) == po_contents(*file).header,
{
    file.header.clone()
}

/// Whether the metadata is marked fuzzy (`POFile::metadata_is_fuzzy`).
#[verifier::external_body]
pub(crate) fn po_metadata_is_fuzzy(file: &rspolib::POFile) -> (r: bool)
    ensures
        r == po_contents(*file).metadata_is_fuzzy,
{
    file.metadata_is_fuzzy
}

/// The entry `e` with a new translation.
pub open spec fn with_translation(e: PoEntryView, msgstr: Seq<char>, plurals: Seq<Seq<char>>) -> PoEntryView {
    PoEntryView { msgstr: Some(msgstr), msgstr_plural: plurals, ..e }
}

/// Sets `msgstr` and `msgstr_plural` of the entry at `index`.
#[verifier::external_body]
pub(crate) fn po_set_translation(file: &mut rspolib::POFile, index: usize, msgstr: String, plurals: Vec<String>)
    requires
        index < po_contents(*old(file)).entries.len(),
    ensures
        po_contents(*final(file)).entries == po_contents(*old(file)).entries.update(
            index as int,
            with_translation(po_contents(*old(file)).entries[index as int], msgstr@, strs_view(plurals@)),
        ),
        same_file_but_entries(po_contents(*final(file)), po_contents(*old(file))),
{
    let e = &mut file.entries[index];
    e.msgstr = Some(msgstr);
    e.msgstr_plural = plurals;
}

/// Replaces the flags of the entry at `index`.
#[verifier::external_body]
pub(crate) fn po_set_flags(file: &mut rspolib::POFile, index: usize, flags: Vec<String>)
    requires
        index < po_contents(*old(file)).entries.len(),
    ensures
        po_contents(*final(file)).entries == po_contents(*old(file)).entries.update(
            index as int,
            PoEntryView { flags: strs_view(flags@), ..po_contents(*old(file)).entries[index as int] },
        ),
        same_file_but_entries(po_contents(*final(file)), po_contents(*old(file))),
{
    file.entries[index].flags = flags;
}

/// Sets one metadata field (`POFile::metadata.insert(key, value)`).
#[verifier::external_body]
pub(crate) fn po_metadata_insert(file: &mut rspolib::POFile, key: String, value: String)
    ensures
        po_contents(*final(file)).metadata == po_contents(*old(file)).metadata.insert(key@, value@),
        same_file_but_metadata(po_contents(*final(file)), po_contents(*old(file))),
{
    file.metadata.insert(key, value);
}

/// The context an entry is matched by when merging: its own, or empty.
pub open spec fn ctxt_or_empty(c: Option<Seq<char>>) -> Seq<char> {
    match c {
        Some(c) => c,
        None => Seq::empty(),
    }
}

/// Whether merging finds an existing entry for `o` among `es`: same msgid,
/// and the same context when `o` has one.
pub open spec fn merge_finds(es: Seq<PoEntryView>, o: PoEntryView) -> bool {
    exists|i: int| 0 <= i < es.len() && #[trigger] es[i].msgid == o.msgid && match o.msgctxt {
        Some(c) => ctxt_or_empty(es[i].msgctxt) == c,
        None => true,
    }
}

/// The entries after the first pass of a merge: each template entry that is
/// not found is appended, in template order.
pub open spec fn merge_append(es: Seq<PoEntryView>, others: Seq<PoEntryView>) -> Seq<PoEntryView>
    decreases others.len(),
{
    if others.len() == 0 {
        es
    } else {
        let prev = merge_append(es, others.drop_last());
        if merge_finds(prev, others.last()) {
            prev
        } else {
            prev.push(others.last())
        }
    }
}

/// Whether some template entry has this msgid.
pub open spec fn has_msgid(others: Seq<PoEntryView>, msgid: Seq<char>) -> bool {
    exists|j: int| 0 <= j < others.len() && #[trigger] others[j].msgid == msgid
}

/// The entries after a merge with a template: missing template entries are
/// appended, and every entry whose msgid the template lacks is marked
/// obsolete. Entries that are found are left as they were.
pub open spec fn merge_entries(es: Seq<PoEntryView>, others: Seq<PoEntryView>) -> Seq<PoEntryView> {
    merge_append(es, others).map_values(|e: PoEntryView|
        if has_msgid(others, e.msgid) { e } else { PoEntryView { obsolete: true, ..e } })
}

/// Merges a template into the file (`rspolib::Merge::merge`). As its source
/// shows: template entries not found by msgid (and context, when the template
/// entry has one) are appended as copies, entries found are left unchanged,
/// and entries whose msgid the template lacks become obsolete.
#[verifier::external_body]
pub(crate) fn po_merge(file: &mut rspolib::POFile, template: rspolib::POFile)
    ensures
        po_contents(*final(file)).entries == merge_entries(
            po_contents(*old(file)).entries,
            po_contents(template).entries,
        ),
        same_file_but_entries(po_contents(*final(file)), po_contents(*old(file))),
{
    file.merge(template);
}

/// A text without its whitespace characters.
pub open spec fn without_ws(s: Seq<char>) -> Seq<char> {
    s.filter(|c: char| !crate::text::is_ws(c))
}

/// No two metadata keys differ only in whitespace. `rspolib` orders the
/// metadata fields it writes by natural order, which skips whitespace; keys
/// that differ only in whitespace compare equal there and keep the order of
/// the hash map, which is not fixed by the contents.
pub open spec fn keys_apart(m: Map<Seq<char>, Seq<char>>) -> bool {
    forall|k1: Seq<char>, k2: Seq<char>|
        #![trigger m.dom().contains(k1), m.dom().contains(k2)]
        m.dom().contains(k1) && m.dom().contains(k2) && k1 != k2 ==> without_ws(k1) != without_ws(k2)
}

/// What `POFile`'s `Display` writes for a file's contents (entries at the
/// fixed width 78, metadata in its fixed order).
pub uninterp spec fn po_rendered(f: PoFileView) -> Seq<char>;

/// What `AsBytes::as_bytes` gives for a file's contents: the MO image of the
/// translated entries and the metadata.
pub uninterp spec fn po_mo_image(f: PoFileView) -> Seq<u8>;

/// The catalog as PO text (`POFile`'s `Display`, what `save` writes). When
/// no two metadata keys differ only in whitespace, the text is fixed by the
/// contents and named by `po_rendered`; otherwise the order of such keys
/// follows the hash map, and nothing is claimed.
#[verifier::external_body]
pub(crate) fn po_render(file: &rspolib::POFile) -> (r: String)
    ensures
        keys_apart(po_contents(*file).metadata) ==> r@ == po_rendered(po_contents(*file)),
{
    file.to_string()
}

/// The catalog compiled to MO bytes (`AsBytes::as_bytes`, what
/// `save_as_mofile` writes), named by `po_mo_image` under the same
/// condition on the metadata keys as `po_render`.
#[verifier::external_body]
pub(crate) fn po_mo_bytes(file: &rspolib::POFile) -> (r: Vec<u8>)
    ensures
        keys_apart(po_contents(*file).metadata) ==> r@ == po_mo_image(po_contents(*file)),
{
    file.as_bytes().into_owned()
}

} // verus!
