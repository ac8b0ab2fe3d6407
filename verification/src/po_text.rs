//! Line-oriented work on PO text: splitting into lines, the quick statistics
//! shown on the project dashboard, and the repair applied to saved catalogs.
use vstd::prelude::*;
use crate::text::{
    chars_of, contains, contains_seq, has_prefix, is_ws, is_whitespace, push_char, slice_chars, starts_with,
    trim, trim_chars,
};
use crate::model::{CatalogStats, StatsModel};

verus! {

// ── Lines ──────────────────────────────────────────────────────────

/// The pieces of `s` between `'\n'` characters (always at least one).
pub open spec fn split_nl(s: Seq<char>) -> Seq<Seq<char>>
    decreases s.len(),
{
    if s.len() == 0 {
        seq![Seq::empty()]
    } else {
        let p = split_nl(s.drop_last());
        if s.last() == '\n' {
            p.push(Seq::empty())
        } else {
            p.update(p.len() - 1, p.last().push(s.last()))
        }
    }
}

/// A line without the `'\r'` of a `"\r\n"` ending.
pub open spec fn strip_cr(l: Seq<char>) -> Seq<char> {
    if l.len() > 0 && l.last() == '\r' { l.drop_last() } else { l }
}

/// The lines of `s` as `str::lines` gives them: split at `"\n"` or
/// `"\r\n"`, the final line ending optional (a `'\r'` ending the last line
/// without a `'\n'` stays).
pub open spec fn lines_of(s: Seq<char>) -> Seq<Seq<char>> {
    let parts = split_nl(s);
    let done = parts.drop_last().map_values(|l: Seq<char>| strip_cr(l));
    if parts.last().len() > 0 { done.push(parts.last()) } else { done }
}

/// The characters of each line.
pub open spec fn lines_view(v: Seq<Vec<char>>) -> Seq<Seq<char>> {
    v.map_values(|l: Vec<char>| l@)
}

fn strip_cr_exec(l: Vec<char>) -> (r: Vec<char>)
    ensures
        r@ == strip_cr(l@),
{
    let mut l = l;
    if l.len() > 0 && l[l.len() - 1] == '\r' {
        l.pop();
    }
    l
}

/// The lines of `s` (`str::lines`).
pub fn lines(s: &str) -> (r: Vec<Vec<char>>)
    ensures
        lines_view(r@) == lines_of(s@),
{
    let cs = chars_of(s);
    let mut done: Vec<Vec<char>> = Vec::new();
    let mut cur: Vec<char> = Vec::new();
    let ghost mut raw: Seq<Seq<char>> = Seq::empty();
    let mut i: usize = 0;
    while i < cs.len()
        invariant
            i <= cs@.len(),
            cs@ == s@,
            split_nl(cs@.take(i as int)) == raw.push(cur@),
            lines_view(done@) == raw.map_values(|l: Seq<char>| strip_cr(l)),
        decreases cs.len() - i,
    {
        assert(cs@.take(i + 1).drop_last() =~= cs@.take(i as int));
        assert(cs@.take(i + 1).last() == cs@[i as int]);
        let c = cs[i];
        if c == '\n' {
            let line = strip_cr_exec(cur);
            let ghost prev = done@;
            proof {
                raw = raw.push(cur@);
            }
            done.push(line);
            assert(lines_view(done@) =~= lines_view(prev).push(line@));
            assert(raw.map_values(|l: Seq<char>| strip_cr(l)) =~= raw.drop_last().map_values(|l: Seq<char>| strip_cr(l)).push(strip_cr(raw.last())));
            cur = Vec::new();
            assert(raw.push(cur@) =~= split_nl(cs@.take(i as int)).push(Seq::empty()));
        } else {
            let ghost before = cur@;
            cur.push(c);
            assert(raw.push(cur@) =~= raw.push(before).update(raw.len() as int, before.push(c)));
        }
        i = i + 1;
    }
    assert(cs@.take(cs@.len() as int) =~= cs@);
    proof {
        assert(split_nl(s@).drop_last() =~= raw);
        assert(split_nl(s@).last() == cur@);
    }
    if cur.len() > 0 {
        let ghost prev = done@;
        done.push(cur);
        assert(lines_view(done@) =~= lines_view(prev).push(cur@));
    }
    done
}

// ── Quick statistics ───────────────────────────────────────────────

/// The state of the quick scan: the counts of the entries finished so far,
/// whether the header was met, what is known of the entry being read, and
/// whether a flags line naming `fuzzy` waits for the next entry.
pub struct ScanState {
    pub total: nat,
    pub translated: nat,
    pub fuzzy: nat,
    pub obsolete: nat,
    pub header_seen: bool,
    pub seen_msgid: bool,
    pub is_fuzzy: bool,
    pub is_obsolete: bool,
    pub msgid_empty: bool,
    pub in_msgid: bool,
    pub in_msgstr: bool,
    pub has_content: bool,
    pub pending_fuzzy: bool,
}

/// The state before any line.
pub open spec fn scan_start() -> ScanState {
    ScanState {
        total: 0,
        translated: 0,
        fuzzy: 0,
        obsolete: 0,
        header_seen: false,
        seen_msgid: false,
        is_fuzzy: false,
        is_obsolete: false,
        msgid_empty: false,
        in_msgid: false,
        in_msgstr: false,
        has_content: false,
        pending_fuzzy: false,
    }
}

/// Counts the entry being read, if one was started: as obsolete; else, the
/// first live entry with an empty `msgid` is the header and is not counted;
/// else as fuzzy, else translated when its `msgstr` had content, else
/// untranslated.
pub open spec fn commit(st: ScanState) -> ScanState {
    if !st.seen_msgid {
        st
    } else if st.is_obsolete {
        ScanState { total: st.total + 1, obsolete: st.obsolete + 1, ..st }
    } else if st.msgid_empty && !st.header_seen {
        ScanState { header_seen: true, ..st }
    } else {
        ScanState {
            total: st.total + 1,
            fuzzy: if st.is_fuzzy { st.fuzzy + 1 } else { st.fuzzy },
            translated: if !st.is_fuzzy && st.has_content { st.translated + 1 } else { st.translated },
            ..st
        }
    }
}

/// Whether `s` has a character other than `'"'` (so that
/// `s.trim_matches('"')` is not empty).
pub open spec fn has_non_quote(s: Seq<char>) -> bool {
    exists|i: int| 0 <= i < s.len() && s[i] != '"'
}

/// What follows the first space of `s` (`split_once(' ')`), or nothing.
pub open spec fn after_space(s: Seq<char>) -> Seq<char>
    decreases s.len(),
{
    if s.len() == 0 {
        Seq::empty()
    } else if s[0] == ' ' {
        s.drop_first()
    } else {
        after_space(s.drop_first())
    }
}

/// A trimmed line without its obsolete mark `#~`, trimmed again.
pub open spec fn line_body(t: Seq<char>) -> Seq<char> {
    if has_prefix(t, "#~"@) { trim(t.skip(2)) } else { t }
}

/// The state after one line of the catalog. A `#,` line naming `fuzzy`
/// marks the entry whose `msgid` comes next; a `msgid` line (`#~ msgid` for
/// an obsolete entry) finishes the entry before it and starts one; `msgstr`
/// lines and the quoted lines after them tell whether the translation has
/// content; quoted lines after `msgid` tell whether the `msgid` is empty.
pub open spec fn scan_line(st: ScanState, line: Seq<char>) -> ScanState {
    let t = trim(line);
    let obsolete = has_prefix(t, "#~"@);
    let body = line_body(t);
    let st1 = if !obsolete && has_prefix(body, "#,"@) && contains_seq(body, "fuzzy"@) {
        ScanState { pending_fuzzy: true, ..st }
    } else {
        st
    };
    if has_prefix(body, "msgid "@) {
        ScanState {
            seen_msgid: true,
            is_fuzzy: st1.pending_fuzzy,
            is_obsolete: obsolete,
            msgid_empty: !has_non_quote(after_space(body)),
            in_msgid: true,
            in_msgstr: false,
            has_content: false,
            pending_fuzzy: false,
            ..commit(st1)
        }
    } else if has_prefix(body, "msgstr "@) || has_prefix(body, "msgstr["@) {
        ScanState {
            in_msgid: false,
            in_msgstr: true,
            has_content: st1.has_content || has_non_quote(after_space(body)),
            ..st1
        }
    } else if has_prefix(body, "\""@) {
        ScanState {
            has_content: st1.has_content || (st1.in_msgstr && has_non_quote(body)),
            msgid_empty: st1.msgid_empty && !(st1.in_msgid && has_non_quote(body)),
            ..st1
        }
    } else if body.len() == 0 || has_prefix(body, "#"@) {
        st1
    } else {
        ScanState { in_msgid: false, in_msgstr: false, ..st1 }
    }
}

/// The state after all the lines.
pub open spec fn scan_lines(ls: Seq<Seq<char>>) -> ScanState
    decreases ls.len(),
{
    if ls.len() == 0 {
        scan_start()
    } else {
        scan_line(scan_lines(ls.drop_last()), ls.last())
    }
}

/// `a - b`, or 0.
pub open spec fn nat_sub(a: nat, b: nat) -> nat {
    if a >= b { (a - b) as nat } else { 0 }
}

/// The statistics the dashboard shows for PO text, from a scan of its lines
/// (no full parse, see `scan_line`): every entry but the header is counted,
/// each as obsolete, fuzzy, translated or else untranslated, with flags and
/// the obsolete mark belonging to the entry whose `msgid` follows them;
/// warnings are not checked.
pub open spec fn quick_stats(content: Seq<char>) -> StatsModel {
    let st = commit(scan_lines(lines_of(content)));
    StatsModel {
        total: st.total,
        translated: st.translated,
        untranslated: nat_sub(st.total, st.translated + st.fuzzy + st.obsolete),
        fuzzy: st.fuzzy,
        obsolete: st.obsolete,
        warnings: 0,
    }
}

fn has_non_quote_exec(s: &Vec<char>, from: usize) -> (r: bool)
    requires
        from <= s@.len(),
    ensures
        r == has_non_quote(s@.skip(from as int)),
{
    let mut i = from;
    while i < s.len()
        invariant
            from <= i <= s@.len(),
            forall|j: int| from <= j < i ==> s@[j] == '"',
        decreases s.len() - i,
    {
        if s[i] != '"' {
            assert(s@.skip(from as int)[i - from] != '"');
            return true;
        }
        i = i + 1;
    }
    proof {
        if has_non_quote(s@.skip(from as int)) {
            let j = choose|j: int| 0 <= j < s@.skip(from as int).len() && s@.skip(from as int)[j] != '"';
            assert(s@[j + from] == s@.skip(from as int)[j]);
        }
    }
    false
}

/// `after_space` is what follows the first space.
proof fn lemma_after_space(s: Seq<char>, k: int)
    requires
        0 <= k <= s.len(),
        forall|j: int| 0 <= j < k ==> s[j] != ' ',
        k == s.len() || s[k] == ' ',
    ensures
        after_space(s) == (if k < s.len() { s.skip(k + 1) } else { Seq::empty() }),
    decreases k,
{
    if k == 0 {
        if s.len() > 0 {
            assert(s.drop_first() =~= s.skip(1));
        }
    } else {
        let t = s.drop_first();
        assert forall|j: int| 0 <= j < k - 1 implies t[j] != ' ' by {
            assert(t[j] == s[j + 1]);
        }
        if k < s.len() {
            assert(t[k - 1] == s[k]);
        }
        lemma_after_space(t, k - 1);
        if k < s.len() {
            assert(t.skip(k) =~= s.skip(k + 1));
        }
    }
}

/// Whether what follows the first space of `s` has a non-quote character.
fn after_space_has_content(s: &Vec<char>) -> (r: bool)
    ensures
        r == has_non_quote(after_space(s@)),
{
    let mut k: usize = 0;
    while k < s.len() && s[k] != ' '
        invariant
            k <= s@.len(),
            forall|j: int| 0 <= j < k ==> s@[j] != ' ',
        decreases s.len() - k,
    {
        k = k + 1;
    }
    proof {
        lemma_after_space(s@, k as int);
    }
    if k < s.len() {
        has_non_quote_exec(s, k + 1)
    } else {
        proof {
            assert(!has_non_quote(Seq::<char>::empty()));
        }
        false
    }
}

/// Literal prefixes the scan looks for, as characters.
struct ScanWords {
    comment_flags: Vec<char>,
    fuzzy: Vec<char>,
    obsolete: Vec<char>,
    msgid_space: Vec<char>,
    msgstr_space: Vec<char>,
    msgstr_bracket: Vec<char>,
    quote: Vec<char>,
    hash: Vec<char>,
}

impl ScanWords {
    spec fn ok(self) -> bool {
        &&& self.comment_flags@ == "#,"@
        &&& self.fuzzy@ == "fuzzy"@
        &&& self.obsolete@ == "#~"@
        &&& self.msgid_space@ == "msgid "@
        &&& self.msgstr_space@ == "msgstr "@
        &&& self.msgstr_bracket@ == "msgstr["@
        &&& self.quote@ == "\""@
        &&& self.hash@ == "#"@
    }

    fn new() -> (r: ScanWords)
        ensures
            r.ok(),
    {
        ScanWords {
            comment_flags: chars_of("#,"),
            fuzzy: chars_of("fuzzy"),
            obsolete: chars_of("#~"),
            msgid_space: chars_of("msgid "),
            msgstr_space: chars_of("msgstr "),
            msgstr_bracket: chars_of("msgstr["),
            quote: chars_of("\""),
            hash: chars_of("#"),
        }
    }
}

/// The scan state in machine integers.
struct Scan {
    total: usize,
    translated: usize,
    fuzzy: usize,
    obsolete: usize,
    header_seen: bool,
    seen_msgid: bool,
    is_fuzzy: bool,
    is_obsolete: bool,
    msgid_empty: bool,
    in_msgid: bool,
    in_msgstr: bool,
    has_content: bool,
    pending_fuzzy: bool,
}

impl Scan {
    spec fn view(self) -> ScanState {
        ScanState {
            total: self.total as nat,
            translated: self.translated as nat,
            fuzzy: self.fuzzy as nat,
            obsolete: self.obsolete as nat,
            header_seen: self.header_seen,
            seen_msgid: self.seen_msgid,
            is_fuzzy: self.is_fuzzy,
            is_obsolete: self.is_obsolete,
            msgid_empty: self.msgid_empty,
            in_msgid: self.in_msgid,
            in_msgstr: self.in_msgstr,
            has_content: self.has_content,
            pending_fuzzy: self.pending_fuzzy,
        }
    }

    spec fn bounded(self, n: nat) -> bool {
        &&& self.seen_msgid ==> self.total < n
        &&& !self.seen_msgid ==> self.total == 0
        &&& self.translated + self.fuzzy + self.obsolete <= self.total
    }

    fn commit(&mut self)
        requires
            old(self).seen_msgid ==> old(self).total < usize::MAX,
            old(self).translated + old(self).fuzzy + old(self).obsolete <= old(self).total,
        ensures
            final(self).view() == commit(old(self).view()),
            final(self).total <= if old(self).seen_msgid { old(self).total + 1 } else { old(self).total as int },
            final(self).translated + final(self).fuzzy + final(self).obsolete <= final(self).total,
    {
        if !self.seen_msgid {
        } else if self.is_obsolete {
            self.total = self.total + 1;
            self.obsolete = self.obsolete + 1;
        } else if self.msgid_empty && !self.header_seen {
            self.header_seen = true;
        } else {
            self.total = self.total + 1;
            if self.is_fuzzy {
                self.fuzzy = self.fuzzy + 1;
            } else if self.has_content {
                self.translated = self.translated + 1;
            }
        }
    }
}

/// A trimmed line without its obsolete mark (see `line_body`).
fn body_of(t: &Vec<char>, words: &ScanWords) -> (r: Vec<char>)
    requires
        words.ok(),
    ensures
        r@ == line_body(t@),
{
    if starts_with(t, &words.obsolete) {
        proof { reveal_strlit("#~"); }
        let rest = slice_chars(t, 2, t.len());
        assert(rest@ =~= t@.skip(2));
        trim_chars(&rest)
    } else {
        t.clone()
    }
}

/// One line of the scan (see `scan_line`).
#[verifier::spinoff_prover]
#[verifier::rlimit(60)]
fn scan_step(st: &mut Scan, line: &Vec<char>, words: &ScanWords, n: usize)
    requires
        words.ok(),
        old(st).bounded(n as nat),
        n < usize::MAX,
    ensures
        final(st).view() == scan_line(old(st).view(), line@),
        final(st).bounded(n as nat + 1),
{
    let t = trim_chars(line);
    let obsolete = starts_with(&t, &words.obsolete);
    let body = body_of(&t, &words);
    if !obsolete && starts_with(&body, &words.comment_flags) && contains(&body, &words.fuzzy) {
        st.pending_fuzzy = true;
    }
    if starts_with(&body, &words.msgid_space) {
        let pending = st.pending_fuzzy;
        st.commit();
        st.seen_msgid = true;
        st.is_fuzzy = pending;
        st.is_obsolete = obsolete;
        st.msgid_empty = !after_space_has_content(&body);
        st.in_msgid = true;
        st.in_msgstr = false;
        st.has_content = false;
        st.pending_fuzzy = false;
    } else if starts_with(&body, &words.msgstr_space) || starts_with(&body, &words.msgstr_bracket) {
        st.in_msgid = false;
        st.in_msgstr = true;
        if after_space_has_content(&body) {
            st.has_content = true;
        }
    } else if starts_with(&body, &words.quote) {
        let content_here = has_non_quote_exec(&body, 0);
        assert(body@.skip(0) =~= body@);
        if st.in_msgstr && content_here {
            st.has_content = true;
        }
        if st.in_msgid && content_here {
            st.msgid_empty = false;
        }
    } else if body.len() == 0 || starts_with(&body, &words.hash) {
    } else {
        st.in_msgid = false;
        st.in_msgstr = false;
    }
}

/// Statistics for PO text from a quick scan of its lines (see `quick_stats`).
pub fn quick_po_stats(content: &str) -> (r: CatalogStats)
    ensures
        r@ == quick_stats(content@),
{
    let ls = lines(content);
    let words = ScanWords::new();
    let mut st = Scan {
        total: 0,
        translated: 0,
        fuzzy: 0,
        obsolete: 0,
        header_seen: false,
        seen_msgid: false,
        is_fuzzy: false,
        is_obsolete: false,
        msgid_empty: false,
        in_msgid: false,
        in_msgstr: false,
        has_content: false,
        pending_fuzzy: false,
    };
    let ghost lv = lines_view(ls@);
    let mut i: usize = 0;
    while i < ls.len()
        invariant
            words.ok(),
            lv == lines_view(ls@),
            i <= ls@.len(),
            st.view() == scan_lines(lv.take(i as int)),
            st.bounded(i as nat),
        decreases ls.len() - i,
    {
        proof {
            assert(lv.take(i + 1).drop_last() =~= lv.take(i as int));
            assert(lv.take(i + 1).last() == ls@[i as int]@);
        }
        scan_step(&mut st, &ls[i], &words, i);
        i = i + 1;
    }
    assert(lv.take(ls@.len() as int) =~= lv);
    st.commit();
    let counted = st.translated + st.fuzzy + st.obsolete;
    CatalogStats {
        total: st.total,
        translated: st.translated,
        untranslated: st.total - counted,
        fuzzy: st.fuzzy,
        obsolete: st.obsolete,
        warnings: 0,
    }
}

} // verus!

verus! {

// ── Repair of saved catalogs ───────────────────────────────────────

/// The number of UTF-8 bytes that encode `c`.
pub open spec fn char_utf8_len(c: char) -> nat {
    if (c as u32) < 0x80 { 1 }
    else if (c as u32) < 0x800 { 2 }
    else if (c as u32) < 0x10000 { 3 }
    else { 4 }
}

/// The number of UTF-8 bytes that encode `s` (`str::len`).
pub open spec fn utf8_len(s: Seq<char>) -> nat
    decreases s.len(),
{
    if s.len() == 0 { 0 } else { utf8_len(s.drop_last()) + char_utf8_len(s.last()) }
}

/// The whitespace-separated words of `s` (`str::split_whitespace`).
pub open spec fn ws_tokens(s: Seq<char>) -> Seq<Seq<char>>
    decreases s.len(),
{
    if s.len() == 0 {
        Seq::empty()
    } else {
        let t = ws_tokens(s.drop_last());
        if is_ws(s.last()) {
            t
        } else if s.len() >= 2 && !is_ws(s[s.len() - 2]) {
            t.update(t.len() - 1, t.last().push(s.last()))
        } else {
            t.push(seq![s.last()])
        }
    }
}

/// The words with later repetitions dropped, first occurrences in order.
pub open spec fn dedup(ts: Seq<Seq<char>>) -> Seq<Seq<char>>
    decreases ts.len(),
{
    if ts.len() == 0 {
        Seq::empty()
    } else {
        let d = dedup(ts.drop_last());
        if d.contains(ts.last()) { d } else { d.push(ts.last()) }
    }
}

/// A reference line `#:` followed by each word after a space.
pub open spec fn refs_line(ts: Seq<Seq<char>>) -> Seq<char>
    decreases ts.len(),
{
    if ts.len() == 0 { "#:"@ } else { refs_line(ts.drop_last()) + " "@ + ts.last() }
}

/// A line that lost its `#. ` comment prefix: not empty, and not a comment,
/// a string continuation, a keyword line or a tab-indented line.
pub open spec fn is_bare(line: Seq<char>) -> bool {
    line.len() > 0 && !has_prefix(line, "#"@) && !has_prefix(line, "\""@) && !has_prefix(line, "msg"@)
        && !has_prefix(line, "\t"@)
}

/// A reference line longer than 1000 bytes.
pub open spec fn is_long_ref(line: Seq<char>) -> bool {
    has_prefix(line, "#:"@) && utf8_len(line) > 1000
}

/// The reference line with each reference kept once.
pub open spec fn deduped_refs(line: Seq<char>) -> Seq<char> {
    refs_line(dedup(ws_tokens(line.skip(2))))
}

/// A line after repair: bare lines get their `#. ` prefix back, long
/// reference lines keep each reference once, other lines stay.
pub open spec fn repaired_line(line: Seq<char>) -> Seq<char> {
    if is_bare(line) {
        "#. "@ + line
    } else if is_long_ref(line) {
        deduped_refs(line)
    } else {
        line
    }
}

/// Whether repair changes the line.
pub open spec fn line_changes(line: Seq<char>) -> bool {
    is_bare(line) || (is_long_ref(line) && utf8_len(deduped_refs(line)) < utf8_len(line))
}

/// The repaired lines, each ended by `'\n'`.
pub open spec fn repaired_lines(ls: Seq<Seq<char>>) -> Seq<char>
    decreases ls.len(),
{
    if ls.len() == 0 { Seq::empty() } else { repaired_lines(ls.drop_last()) + repaired_line(ls.last()) + seq!['\n'] }
}

/// The repaired catalog text, when repair changes some line.
pub open spec fn repaired_text(content: Seq<char>) -> Option<Seq<char>> {
    let ls = lines_of(content);
    if exists|i: int| 0 <= i < ls.len() && line_changes(#[trigger] ls[i]) {
        Some(repaired_lines(ls))
    } else {
        None
    }
}

pub(crate) fn char_len_utf8(c: char) -> (r: usize)
    ensures
        r == char_utf8_len(c),
{
    let u = c as u32;
    if u < 0x80 { 1 } else if u < 0x800 { 2 } else if u < 0x10000 { 3 } else { 4 }
}

/// Whether `s` takes more than `limit` UTF-8 bytes.
fn utf8_longer_than(s: &Vec<char>, limit: usize) -> (r: bool)
    ensures
        r == (utf8_len(s@) > limit),
{
    let mut n: usize = 0;
    let mut i: usize = 0;
    while i < s.len()
        invariant
            i <= s@.len(),
            n == utf8_len(s@.take(i as int)),
            n <= limit,
        decreases s.len() - i,
    {
        assert(s@.take(i + 1).drop_last() =~= s@.take(i as int));
        let w = char_len_utf8(s[i]);
        if w > limit - n {
            proof {
                lemma_utf8_len_prefix(s@, i + 1);
            }
            return true;
        }
        n = n + w;
        i = i + 1;
    }
    assert(s@.take(s@.len() as int) =~= s@);
    false
}

/// A prefix takes no more bytes than the whole.
proof fn lemma_utf8_len_prefix(s: Seq<char>, k: int)
    requires
        0 <= k <= s.len(),
    ensures
        utf8_len(s.take(k)) <= utf8_len(s),
    decreases s.len() - k,
{
    if k < s.len() {
        lemma_utf8_len_prefix(s, k + 1);
        assert(s.take(k + 1).drop_last() =~= s.take(k));
    } else {
        assert(s.take(k) =~= s);
    }
}

/// Whether `a` takes fewer UTF-8 bytes than `b`.
fn utf8_shorter(a: &Vec<char>, b: &Vec<char>) -> (r: bool)
    ensures
        r == (utf8_len(a@) < utf8_len(b@)),
{
    // Compare by counting down the bytes of `b` while counting those of `a`.
    let mut na: u128 = 0;
    let mut i: usize = 0;
    while i < a.len()
        invariant
            i <= a@.len(),
            na == utf8_len(a@.take(i as int)),
            na <= 4 * i,
        decreases a.len() - i,
    {
        assert(a@.take(i + 1).drop_last() =~= a@.take(i as int));
        na = na + char_len_utf8(a[i]) as u128;
        i = i + 1;
    }
    let mut nb: u128 = 0;
    let mut j: usize = 0;
    while j < b.len()
        invariant
            j <= b@.len(),
            nb == utf8_len(b@.take(j as int)),
            nb <= 4 * j,
        decreases b.len() - j,
    {
        assert(b@.take(j + 1).drop_last() =~= b@.take(j as int));
        nb = nb + char_len_utf8(b[j]) as u128;
        j = j + 1;
    }
    assert(a@.take(a@.len() as int) =~= a@);
    assert(b@.take(b@.len() as int) =~= b@);
    na < nb
}

/// The whitespace-separated words of `s[from..]`.
fn ws_tokens_exec(s: &Vec<char>, from: usize) -> (r: Vec<Vec<char>>)
    requires
        from <= s@.len(),
    ensures
        lines_view(r@) == ws_tokens(s@.skip(from as int)),
{
    let ghost u = s@.skip(from as int);
    let mut done: Vec<Vec<char>> = Vec::new();
    let mut cur: Vec<char> = Vec::new();
    let mut i = from;
    while i < s.len()
        invariant
            from <= i <= s@.len(),
            u == s@.skip(from as int),
            ws_tokens(u.take(i - from)) == if cur@.len() > 0 {
                lines_view(done@).push(cur@)
            } else {
                lines_view(done@)
            },
            cur@.len() > 0 <==> (i > from && !is_ws(s@[i - 1])),
        decreases s.len() - i,
    {
        let ghost k = i - from;
        assert(u.take(k + 1).drop_last() =~= u.take(k));
        assert(u.take(k + 1).last() == s@[i as int]);
        proof {
            if k >= 1 {
                assert(u.take(k + 1)[k - 1] == s@[i - 1]);
            }
        }
        let c = s[i];
        if is_whitespace(c) {
            if cur.len() > 0 {
                let ghost prev = done@;
                done.push(cur);
                assert(lines_view(done@) =~= lines_view(prev).push(cur@));
                cur = Vec::new();
            }
        } else {
            let ghost before = cur@;
            cur.push(c);
            proof {
                if before.len() > 0 {
                    assert(lines_view(done@).push(cur@) =~= lines_view(done@).push(before).update(
                        lines_view(done@).len() as int, before.push(c)));
                } else {
                    assert(cur@ =~= seq![c]);
                }
            }
        }
        i = i + 1;
    }
    assert(u.take(s@.len() - from) =~= u);
    if cur.len() > 0 {
        let ghost prev = done@;
        done.push(cur);
        assert(lines_view(done@) =~= lines_view(prev).push(cur@));
    }
    done
}

/// Whether `ts` holds a word equal to `t`.
fn has_token(ts: &Vec<Vec<char>>, t: &Vec<char>) -> (r: bool)
    ensures
        r == lines_view(ts@).contains(t@),
{
    let mut i: usize = 0;
    while i < ts.len()
        invariant
            i <= ts@.len(),
            forall|j: int| 0 <= j < i ==> ts@[j]@ != t@,
        decreases ts.len() - i,
    {
        if crate::text::chars_eq(&ts[i], t) {
            assert(lines_view(ts@)[i as int] == t@);
            return true;
        }
        i = i + 1;
    }
    proof {
        if lines_view(ts@).contains(t@) {
            let j = choose|j: int| 0 <= j < lines_view(ts@).len() && lines_view(ts@)[j] == t@;
            assert(ts@[j]@ == t@);
        }
    }
    false
}

/// The reference line rebuilt with each reference once.
fn dedup_refs_exec(line: &Vec<char>) -> (r: Vec<char>)
    requires
        has_prefix(line@, "#:"@),
    ensures
        r@ == deduped_refs(line@),
{
    proof {
        reveal_strlit("#:");
    }
    let toks = ws_tokens_exec(line, 2);
    let ghost tv = lines_view(toks@);
    let mut kept: Vec<Vec<char>> = Vec::new();
    let mut out: Vec<char> = Vec::new();
    out.push('#');
    out.push(':');
    assert(out@ =~= "#:"@);
    proof {
        reveal_strlit(" ");
    }
    let mut i: usize = 0;
    while i < toks.len()
        invariant
            i <= toks@.len(),
            tv == lines_view(toks@),
            lines_view(kept@) == dedup(tv.take(i as int)),
            out@ == refs_line(dedup(tv.take(i as int))),
            " "@ == seq![' '],
        decreases toks.len() - i,
    {
        assert(tv.take(i + 1).drop_last() =~= tv.take(i as int));
        assert(tv.take(i + 1).last() == toks@[i as int]@);
        if !has_token(&kept, &toks[i]) {
            let t = crate::text::slice_chars(&toks[i], 0, toks[i].len());
            assert(t@ =~= toks@[i as int]@);
            let ghost prev_kept = kept@;
            let ghost prev_out = out@;
            out.push(' ');
            let mut j: usize = 0;
            while j < t.len()
                invariant
                    j <= t@.len(),
                    out@ == prev_out.push(' ') + t@.take(j as int),
                decreases t.len() - j,
            {
                out.push(t[j]);
                assert(out@ =~= prev_out.push(' ') + t@.take(j + 1));
                j = j + 1;
            }
            assert(t@.take(t@.len() as int) =~= t@);
            kept.push(t);
            assert(lines_view(kept@) =~= lines_view(prev_kept).push(t@));
            let ghost d = dedup(tv.take(i + 1));
            assert(d.drop_last() =~= dedup(tv.take(i as int)));
            assert(out@ =~= refs_line(d.drop_last()) + " "@ + d.last());
        }
        i = i + 1;
    }
    assert(tv.take(toks@.len() as int) =~= tv);
    out
}

/// Repairs PO text as written by `rspolib`: restores the `#. ` prefix of
/// extracted-comment lines that lost it, and collapses over-long reference
/// lines whose references repeat. `None` when no line changes.
pub fn repair_po_text(content: &str) -> (r: Option<String>)
    ensures
        opt_string_view(r) == repaired_text(content@),
{
    let ls = lines(content);
    let ghost lv = lines_view(ls@);
    let hash = chars_of("#");
    let quote = chars_of("\"");
    let msg = chars_of("msg");
    let tab = chars_of("\t");
    let refs = chars_of("#:");
    let mut out: Vec<char> = Vec::new();
    let mut changed = false;
    let mut i: usize = 0;
    while i < ls.len()
        invariant
            lv == lines_view(ls@),
            i <= ls@.len(),
            hash@ == "#"@,
            quote@ == "\""@,
            msg@ == "msg"@,
            tab@ == "\t"@,
            refs@ == "#:"@,
            out@ == repaired_lines(lv.take(i as int)),
            changed == exists|j: int| 0 <= j < i && line_changes(#[trigger] lv[j]),
        decreases ls.len() - i,
    {
        assert(lv.take(i + 1).drop_last() =~= lv.take(i as int));
        assert(lv.take(i + 1).last() == ls@[i as int]@);
        let line = &ls[i];
        let ghost before = out@;
        let bare = line.len() > 0 && !starts_with(line, &hash) && !starts_with(line, &quote)
            && !starts_with(line, &msg) && !starts_with(line, &tab);
        let piece: Vec<char> = if bare {
            let mut p: Vec<char> = Vec::new();
            p.push('#');
            p.push('.');
            p.push(' ');
            proof {
                reveal_strlit("#. ");
            }
            let mut j: usize = 0;
            while j < line.len()
                invariant
                    j <= line@.len(),
                    p@ == "#. "@ + line@.take(j as int),
                decreases line.len() - j,
            {
                p.push(line[j]);
                assert(p@ =~= "#. "@ + line@.take(j + 1));
                j = j + 1;
            }
            assert(line@.take(line@.len() as int) =~= line@);
            changed = true;
            p
        } else if starts_with(line, &refs) && utf8_longer_than(line, 1000) {
            let d = dedup_refs_exec(line);
            if utf8_shorter(&d, line) {
                changed = true;
            }
            d
        } else {
            crate::text::slice_chars(line, 0, line.len())
        };
        assert(piece@ =~= repaired_line(lv[i as int])) by {
            assert(line@.subrange(0, line@.len() as int) =~= line@);
        }
        let mut j: usize = 0;
        while j < piece.len()
            invariant
                j <= piece@.len(),
                out@ == before + piece@.take(j as int),
            decreases piece.len() - j,
        {
            out.push(piece[j]);
            assert(out@ =~= before + piece@.take(j + 1));
            j = j + 1;
        }
        assert(piece@.take(piece@.len() as int) =~= piece@);
        out.push('\n');
        assert(out@ =~= repaired_lines(lv.take(i + 1)));
        i = i + 1;
    }
    assert(lv.take(ls@.len() as int) =~= lv);
    if changed {
        Some(crate::text::string_of(&out, 0, out.len()))
    } else {
        None
    }
}

/// The characters of an optional string.
pub open spec fn opt_string_view(o: Option<String>) -> Option<Seq<char>> {
    match o {
        Some(s) => Some(s@),
        None => None,
    }
}

} // verus!
