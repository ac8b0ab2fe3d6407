//! Which catalog texts are handed to the PO parser. The parser classifies
//! each trimmed line, moves through a table of states, and slices quoted
//! values; a line with no entry in the table from the current state, a
//! quoted value too short to slice, or a plural translation in an entry
//! whose `msgid` may be empty (the parser later unwraps the `msgstr` of the
//! entry with an empty `msgid`) would stop it with a panic. This check
//! accepts the lines of well-formed catalogs, in the plain shapes written by
//! gettext tools, and refuses everything else with the number of the first
//! line it refuses.
use vstd::prelude::*;
use crate::text::{chars_eq, chars_of, has_prefix, starts_with, trim, trim_chars};
use crate::po_text::{lines, lines_of, lines_view};

verus! {

/// The parser's states, and its symbols (`MC`, a continuation line, is a
/// symbol only).
#[derive(Debug, Clone, Copy, PartialEq, Eq, Structural)]
pub enum ParserState {
    ST,
    HE,
    TC,
    GC,
    OC,
    FL,
    CT,
    PC,
    PM,
    PP,
    MI,
    MP,
    MS,
    MX,
    MC,
}

/// The state after symbol `sym` in state `st`, or nothing when the table has
/// no entry for them. A continuation keeps the state.
pub open spec fn next_state(sym: ParserState, st: ParserState) -> Option<ParserState> {
    match sym {
        ParserState::TC => if st == ParserState::ST || st == ParserState::HE {
            Some(ParserState::HE)
        } else if st == ParserState::CT || st == ParserState::MC {
            None
        } else {
            Some(ParserState::TC)
        },
        ParserState::GC | ParserState::OC | ParserState::FL | ParserState::PC | ParserState::PM
        | ParserState::PP => if st == ParserState::MC { None } else { Some(sym) },
        ParserState::CT => if st == ParserState::CT || st == ParserState::MP || st == ParserState::MI
            || st == ParserState::MC {
            None
        } else {
            Some(ParserState::CT)
        },
        ParserState::MI => if st == ParserState::MI || st == ParserState::MP || st == ParserState::MC {
            None
        } else {
            Some(ParserState::MI)
        },
        ParserState::MP => if st == ParserState::TC || st == ParserState::GC || st == ParserState::PC
            || st == ParserState::PM || st == ParserState::PP || st == ParserState::MI {
            Some(ParserState::MP)
        } else {
            None
        },
        ParserState::MS => if st == ParserState::MI || st == ParserState::MP || st == ParserState::TC {
            Some(ParserState::MS)
        } else {
            None
        },
        ParserState::MX => if st == ParserState::MI || st == ParserState::MX || st == ParserState::MP
            || st == ParserState::TC {
            Some(ParserState::MX)
        } else {
            None
        },
        ParserState::MC => if st == ParserState::CT || st == ParserState::MI || st == ParserState::MP
            || st == ParserState::MS || st == ParserState::MX || st == ParserState::PM
            || st == ParserState::PP || st == ParserState::PC {
            Some(st)
        } else {
            None
        },
        ParserState::ST | ParserState::HE => None,
    }
}

/// What a trimmed line is to the parser.
#[derive(Debug, Clone, Copy, PartialEq, Eq, Structural)]
pub enum LineKind {
    /// Nothing to do (blank, or a marker with nothing after it).
    Skip,
    /// A line processed as this symbol.
    Sym(ParserState),
    /// A `msgid ""` line.
    EmptyMsgid,
    /// A `#| "..."` continuation of a previous value.
    PrevContinuation,
    /// A line this check refuses.
    Bad,
}

/// A quoted value: at least two characters, a quote at each end.
pub open spec fn quoted(q: Seq<char>) -> bool {
    q.len() >= 2 && q[0] == '"' && q[q.len() - 1] == '"'
}

/// `t` is the prefix `p` followed by a quoted value.
pub open spec fn prefixed_value(t: Seq<char>, p: Seq<char>) -> bool {
    has_prefix(t, p) && quoted(t.skip(p.len() as int))
}

/// Whether `c` is an ASCII digit.
pub open spec fn is_digit(c: char) -> bool {
    '0' <= c && c <= '9'
}

/// After `msgstr[`: one or two digits, `]`, a space and a quoted value.
pub open spec fn index_tail(s: Seq<char>) -> bool {
    ||| (s.len() >= 3 && is_digit(s[0]) && s[1] == ']' && s[2] == ' ' && quoted(s.skip(3)))
    ||| (s.len() >= 4 && is_digit(s[0]) && is_digit(s[1]) && s[2] == ']' && s[3] == ' ' && quoted(s.skip(4)))
}

/// What a trimmed line that is not obsolete is.
pub open spec fn plain_kind(t: Seq<char>) -> LineKind {
    if t.len() == 0 {
        LineKind::Skip
    } else if prefixed_value(t, "msgctxt "@) {
        LineKind::Sym(ParserState::CT)
    } else if prefixed_value(t, "msgid_plural "@) {
        LineKind::Sym(ParserState::MP)
    } else if prefixed_value(t, "msgid "@) {
        if t.len() == 8 { LineKind::EmptyMsgid } else { LineKind::Sym(ParserState::MI) }
    } else if prefixed_value(t, "msgstr "@) {
        LineKind::Sym(ParserState::MS)
    } else if has_prefix(t, "msgstr["@) && index_tail(t.skip(7)) {
        LineKind::Sym(ParserState::MX)
    } else if quoted(t) {
        LineKind::Sym(ParserState::MC)
    } else if t == "#:"@ || t == "#,"@ || t == "#."@ {
        LineKind::Skip
    } else if has_prefix(t, "#: "@) {
        LineKind::Sym(ParserState::OC)
    } else if has_prefix(t, "#, "@) {
        LineKind::Sym(ParserState::FL)
    } else if has_prefix(t, "#. "@) {
        LineKind::Sym(ParserState::GC)
    } else if t == "#"@ || has_prefix(t, "# "@) || has_prefix(t, "##"@) {
        LineKind::Sym(ParserState::TC)
    } else if prefixed_value(t, "#| "@) {
        LineKind::PrevContinuation
    } else if prefixed_value(t, "#| msgctxt "@) {
        LineKind::Sym(ParserState::PC)
    } else if prefixed_value(t, "#| msgid_plural "@) {
        LineKind::Sym(ParserState::PP)
    } else if prefixed_value(t, "#| msgid "@) {
        LineKind::Sym(ParserState::PM)
    } else {
        LineKind::Bad
    }
}

/// What an obsolete line's text may be: a keyword line or a continuation.
pub open spec fn obsolete_kind(k: LineKind) -> LineKind {
    match k {
        LineKind::EmptyMsgid => k,
        LineKind::Sym(s) => if s == ParserState::CT || s == ParserState::MI || s == ParserState::MP
            || s == ParserState::MS || s == ParserState::MX || s == ParserState::MC {
            k
        } else {
            LineKind::Bad
        },
        _ => LineKind::Bad,
    }
}

/// What a trimmed line is: `#~|` lines are skipped, `#~ ` lines are read
/// without the mark, other `#~` lines are refused.
pub open spec fn line_kind(t: Seq<char>) -> LineKind {
    if t == "#~|"@ || has_prefix(t, "#~| "@) {
        LineKind::Skip
    } else if has_prefix(t, "#~ "@) {
        obsolete_kind(plain_kind(trim(t.skip(3))))
    } else if has_prefix(t, "#~"@) {
        LineKind::Bad
    } else {
        plain_kind(t)
    }
}

/// The check's state: the parser's state, and whether the entry being built
/// may have an empty `msgid` (a fresh entry, or one whose `msgid` line was
/// `msgid ""`).
pub type CheckState = (ParserState, bool);

/// Whether the parser finishes the entry being built before processing
/// symbol `sym` in state `st` (it does so from `MS` and `MX` for every
/// symbol but a translation or a continuation).
pub open spec fn finishes_entry(sym: ParserState, st: ParserState) -> bool {
    (st == ParserState::MS || st == ParserState::MX) && !(sym == ParserState::MP || sym == ParserState::MS
        || sym == ParserState::MX || sym == ParserState::MC)
}

/// The state after symbol `sym` (with `empty` telling whether it is a
/// `msgid ""` line), or nothing when refused: a plural translation is
/// refused while the entry may have an empty `msgid`.
pub open spec fn symbol_step(c: CheckState, sym: ParserState, empty: bool) -> Option<CheckState> {
    let may_be_empty = if finishes_entry(sym, c.0) { true } else { c.1 };
    if sym == ParserState::MX && may_be_empty {
        None
    } else {
        match next_state(sym, c.0) {
            Some(n) => Some((n, if sym == ParserState::MI { empty } else { may_be_empty })),
            None => None,
        }
    }
}

/// The state after one line, or nothing when the line is refused.
pub open spec fn check_step(c: CheckState, line: Seq<char>) -> Option<CheckState> {
    match line_kind(trim(line)) {
        LineKind::Skip => Some(c),
        LineKind::Bad => None,
        LineKind::PrevContinuation => if c.0 == ParserState::PM || c.0 == ParserState::PP
            || c.0 == ParserState::PC {
            Some(c)
        } else {
            None
        },
        LineKind::EmptyMsgid => symbol_step(c, ParserState::MI, true),
        LineKind::Sym(s) => symbol_step(c, s, false),
    }
}

/// The state after the lines, or the number (from 1) of the first line
/// refused.
pub open spec fn check_lines(ls: Seq<Seq<char>>) -> Result<CheckState, nat>
    decreases ls.len(),
{
    if ls.len() == 0 {
        Ok((ParserState::ST, true))
    } else {
        match check_lines(ls.drop_last()) {
            Err(n) => Err(n),
            Ok(c) => match check_step(c, ls.last()) {
                Some(c2) => Ok(c2),
                None => Err(ls.len()),
            },
        }
    }
}

/// Whether the parser is handed the text: no line of it is refused.
pub open spec fn parser_takes(text: Seq<char>) -> bool {
    check_lines(lines_of(text)) is Ok
}

/// The literal prefixes the check looks for, as characters.
struct Words {
    msgctxt: Vec<char>,
    msgid_plural: Vec<char>,
    msgid: Vec<char>,
    msgstr: Vec<char>,
    msgstr_index: Vec<char>,
    occ: Vec<char>,
    flags: Vec<char>,
    gen: Vec<char>,
    occ_sp: Vec<char>,
    flags_sp: Vec<char>,
    gen_sp: Vec<char>,
    hash: Vec<char>,
    hash_sp: Vec<char>,
    hash_hash: Vec<char>,
    prev: Vec<char>,
    prev_msgctxt: Vec<char>,
    prev_msgid_plural: Vec<char>,
    prev_msgid: Vec<char>,
    obs_prev: Vec<char>,
    obs_prev_sp: Vec<char>,
    obs_sp: Vec<char>,
    obs: Vec<char>,
}

impl Words {
    spec fn ok(self) -> bool {
        &&& self.msgctxt@ == "msgctxt "@
        &&& self.msgid_plural@ == "msgid_plural "@
        &&& self.msgid@ == "msgid "@
        &&& self.msgstr@ == "msgstr "@
        &&& self.msgstr_index@ == "msgstr["@
        &&& self.occ@ == "#:"@
        &&& self.flags@ == "#,"@
        &&& self.gen@ == "#."@
        &&& self.occ_sp@ == "#: "@
        &&& self.flags_sp@ == "#, "@
        &&& self.gen_sp@ == "#. "@
        &&& self.hash@ == "#"@
        &&& self.hash_sp@ == "# "@
        &&& self.hash_hash@ == "##"@
        &&& self.prev@ == "#| "@
        &&& self.prev_msgctxt@ == "#| msgctxt "@
        &&& self.prev_msgid_plural@ == "#| msgid_plural "@
        &&& self.prev_msgid@ == "#| msgid "@
        &&& self.obs_prev@ == "#~|"@
        &&& self.obs_prev_sp@ == "#~| "@
        &&& self.obs_sp@ == "#~ "@
        &&& self.obs@ == "#~"@
    }

    fn new() -> (r: Words)
        ensures
            r.ok(),
    {
        Words {
            msgctxt: chars_of("msgctxt "),
            msgid_plural: chars_of("msgid_plural "),
            msgid: chars_of("msgid "),
            msgstr: chars_of("msgstr "),
            msgstr_index: chars_of("msgstr["),
            occ: chars_of("#:"),
            flags: chars_of("#,"),
            gen: chars_of("#."),
            occ_sp: chars_of("#: "),
            flags_sp: chars_of("#, "),
            gen_sp: chars_of("#. "),
            hash: chars_of("#"),
            hash_sp: chars_of("# "),
            hash_hash: chars_of("##"),
            prev: chars_of("#| "),
            prev_msgctxt: chars_of("#| msgctxt "),
            prev_msgid_plural: chars_of("#| msgid_plural "),
            prev_msgid: chars_of("#| msgid "),
            obs_prev: chars_of("#~|"),
            obs_prev_sp: chars_of("#~| "),
            obs_sp: chars_of("#~ "),
            obs: chars_of("#~"),
        }
    }
}

fn is_quoted_from(t: &Vec<char>, k: usize) -> (r: bool)
    requires
        k <= t@.len(),
    ensures
        r == quoted(t@.skip(k as int)),
{
    let n = t.len() - k;
    n >= 2 && t[k] == '"' && t[t.len() - 1] == '"'
}

fn has_value(t: &Vec<char>, p: &Vec<char>) -> (r: bool)
    ensures
        r == prefixed_value(t@, p@),
{
    starts_with(t, p) && is_quoted_from(t, p.len())
}

fn digit(c: char) -> (r: bool)
    ensures
        r == is_digit(c),
{
    '0' <= c && c <= '9'
}

fn index_tail_from(t: &Vec<char>, k: usize) -> (r: bool)
    requires
        k <= t@.len(),
    ensures
        r == index_tail(t@.skip(k as int)),
{
    let n = t.len() - k;
    let one = n >= 3 && digit(t[k]) && t[k + 1] == ']' && t[k + 2] == ' ' && is_quoted_from(t, k + 3);
    let two = n >= 4 && digit(t[k]) && digit(t[k + 1]) && t[k + 2] == ']' && t[k + 3] == ' '
        && is_quoted_from(t, k + 4);
    proof {
        let s = t@.skip(k as int);
        if n >= 3 {
            assert(s.skip(3) =~= t@.skip(k + 3));
        }
        if n >= 4 {
            assert(s.skip(4) =~= t@.skip(k + 4));
        }
    }
    one || two
}

fn plain_kind_of(t: &Vec<char>, w: &Words) -> (r: LineKind)
    requires
        w.ok(),
    ensures
        r == plain_kind(t@),
{
    proof { reveal_strlit("msgstr["); }
    let indexed = starts_with(t, &w.msgstr_index) && index_tail_from(t, 7);
    let continuation = is_quoted_from(t, 0);
    assert(t@.skip(0) =~= t@);
    if t.len() == 0 {
        LineKind::Skip
    } else if has_value(t, &w.msgctxt) {
        LineKind::Sym(ParserState::CT)
    } else if has_value(t, &w.msgid_plural) {
        LineKind::Sym(ParserState::MP)
    } else if has_value(t, &w.msgid) {
        if t.len() == 8 { LineKind::EmptyMsgid } else { LineKind::Sym(ParserState::MI) }
    } else if has_value(t, &w.msgstr) {
        LineKind::Sym(ParserState::MS)
    } else if indexed {
        LineKind::Sym(ParserState::MX)
    } else if continuation {
        LineKind::Sym(ParserState::MC)
    } else if chars_eq(t, &w.occ) || chars_eq(t, &w.flags) || chars_eq(t, &w.gen) {
        LineKind::Skip
    } else if starts_with(t, &w.occ_sp) {
        LineKind::Sym(ParserState::OC)
    } else if starts_with(t, &w.flags_sp) {
        LineKind::Sym(ParserState::FL)
    } else if starts_with(t, &w.gen_sp) {
        LineKind::Sym(ParserState::GC)
    } else if chars_eq(t, &w.hash) || starts_with(t, &w.hash_sp) || starts_with(t, &w.hash_hash) {
        LineKind::Sym(ParserState::TC)
    } else if has_value(t, &w.prev) {
        LineKind::PrevContinuation
    } else if has_value(t, &w.prev_msgctxt) {
        LineKind::Sym(ParserState::PC)
    } else if has_value(t, &w.prev_msgid_plural) {
        LineKind::Sym(ParserState::PP)
    } else if has_value(t, &w.prev_msgid) {
        LineKind::Sym(ParserState::PM)
    } else {
        LineKind::Bad
    }
}

fn line_kind_of(t: &Vec<char>, w: &Words) -> (r: LineKind)
    requires
        w.ok(),
    ensures
        r == line_kind(t@),
{
    if chars_eq(t, &w.obs_prev) || starts_with(t, &w.obs_prev_sp) {
        LineKind::Skip
    } else if starts_with(t, &w.obs_sp) {
        proof { reveal_strlit("#~ "); }
        let rest = crate::text::slice_chars(t, 3, t.len());
        assert(rest@ =~= t@.skip(3));
        let body = trim_chars(&rest);
        match plain_kind_of(&body, w) {
            LineKind::EmptyMsgid => LineKind::EmptyMsgid,
            LineKind::Sym(s) => if s == ParserState::CT || s == ParserState::MI || s == ParserState::MP
                || s == ParserState::MS || s == ParserState::MX || s == ParserState::MC {
                LineKind::Sym(s)
            } else {
                LineKind::Bad
            },
            _ => LineKind::Bad,
        }
    } else if starts_with(t, &w.obs) {
        LineKind::Bad
    } else {
        plain_kind_of(t, w)
    }
}

fn next_state_of(sym: ParserState, st: ParserState) -> (r: Option<ParserState>)
    ensures
        r == next_state(sym, st),
{
    match sym {
        ParserState::TC => if st == ParserState::ST || st == ParserState::HE {
            Some(ParserState::HE)
        } else if st == ParserState::CT || st == ParserState::MC {
            None
        } else {
            Some(ParserState::TC)
        },
        ParserState::GC | ParserState::OC | ParserState::FL | ParserState::PC | ParserState::PM
        | ParserState::PP => if st == ParserState::MC { None } else { Some(sym) },
        ParserState::CT => if st == ParserState::CT || st == ParserState::MP || st == ParserState::MI
            || st == ParserState::MC {
            None
        } else {
            Some(ParserState::CT)
        },
        ParserState::MI => if st == ParserState::MI || st == ParserState::MP || st == ParserState::MC {
            None
        } else {
            Some(ParserState::MI)
        },
        ParserState::MP => if st == ParserState::TC || st == ParserState::GC || st == ParserState::PC
            || st == ParserState::PM || st == ParserState::PP || st == ParserState::MI {
            Some(ParserState::MP)
        } else {
            None
        },
        ParserState::MS => if st == ParserState::MI || st == ParserState::MP || st == ParserState::TC {
            Some(ParserState::MS)
        } else {
            None
        },
        ParserState::MX => if st == ParserState::MI || st == ParserState::MX || st == ParserState::MP
            || st == ParserState::TC {
            Some(ParserState::MX)
        } else {
            None
        },
        ParserState::MC => if st == ParserState::CT || st == ParserState::MI || st == ParserState::MP
            || st == ParserState::MS || st == ParserState::MX || st == ParserState::PM
            || st == ParserState::PP || st == ParserState::PC {
            Some(st)
        } else {
            None
        },
        ParserState::ST | ParserState::HE => None,
    }
}

fn symbol_step_of(c: (ParserState, bool), sym: ParserState, empty: bool) -> (r: Option<(ParserState, bool)>)
    ensures
        r == symbol_step(c, sym, empty),
{
    let finishes = (c.0 == ParserState::MS || c.0 == ParserState::MX) && !(sym == ParserState::MP
        || sym == ParserState::MS || sym == ParserState::MX || sym == ParserState::MC);
    let may_be_empty = if finishes { true } else { c.1 };
    if sym == ParserState::MX && may_be_empty {
        None
    } else {
        match next_state_of(sym, c.0) {
            Some(n) => Some((n, if sym == ParserState::MI { empty } else { may_be_empty })),
            None => None,
        }
    }
}

fn check_step_of(c: (ParserState, bool), line: &Vec<char>, w: &Words) -> (r: Option<(ParserState, bool)>)
    requires
        w.ok(),
    ensures
        r == check_step(c, line@),
{
    let t = trim_chars(line);
    match line_kind_of(&t, w) {
        LineKind::Skip => Some(c),
        LineKind::Bad => None,
        LineKind::PrevContinuation => if c.0 == ParserState::PM || c.0 == ParserState::PP
            || c.0 == ParserState::PC {
            Some(c)
        } else {
            None
        },
        LineKind::EmptyMsgid => symbol_step_of(c, ParserState::MI, true),
        LineKind::Sym(s) => symbol_step_of(c, s, false),
    }
}

/// Checks catalog text for the parser: `Ok` when it takes the text, else
/// the number (from 1) of the first line refused.
pub fn check_po_text(text: &str) -> (r: Result<(), usize>)
    ensures
        match r {
            Ok(()) => check_lines(lines_of(text@)) is Ok,
            Err(k) => check_lines(lines_of(text@)) == Err::<CheckState, nat>(k as nat),
        },
{
    let ls = lines(text);
    let w = Words::new();
    let ghost lv = lines_view(ls@);
    let mut c: (ParserState, bool) = (ParserState::ST, true);
    let mut i: usize = 0;
    assert(lv.take(0) =~= Seq::<Seq<char>>::empty());
    while i < ls.len()
        invariant
            w.ok(),
            lv == lines_view(ls@),
            lv == lines_of(text@),
            i <= ls@.len(),
            check_lines(lv.take(i as int)) == Ok::<CheckState, nat>(c),
        decreases ls.len() - i,
    {
        proof {
            assert(lv.take(i + 1).drop_last() =~= lv.take(i as int));
            assert(lv.take(i + 1).last() == ls@[i as int]@);
        }
        match check_step_of(c, &ls[i], &w) {
            Some(c2) => {
                c = c2;
            },
            None => {
                proof {
                    lemma_refusal_stays(lv, i + 1);
                }
                return Err(i + 1);
            },
        }
        i = i + 1;
    }
    assert(lv.take(ls@.len() as int) =~= lv);
    Ok(())
}

/// Once a line is refused, the check of the lines after it gives that
/// refusal.
proof fn lemma_refusal_stays(ls: Seq<Seq<char>>, k: int)
    requires
        0 <= k <= ls.len(),
        check_lines(ls.take(k)) is Err,
    ensures
        check_lines(ls) == check_lines(ls.take(k)),
    decreases ls.len() - k,
{
    if k < ls.len() {
        assert(ls.take(k + 1).drop_last() =~= ls.take(k));
        lemma_refusal_stays(ls, k + 1);
    } else {
        assert(ls.take(k) =~= ls);
    }
}

} // verus!
