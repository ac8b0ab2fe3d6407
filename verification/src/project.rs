//! Translation projects: a template copied into a project directory and the
//! languages it is being translated into, recorded in `project.toml`.
//!
//! Reading and writing files is left to the caller; these functions decide
//! what is read, what is written and how the project record changes.
use vstd::prelude::*;
use crate::text::{chars_of, decimal, decimal_string, push_char, str_eq};
use crate::model::{CatalogStats, StatsModel, opt_view};
use crate::error::CatalogError;
use crate::paths::{join, path_join};
use crate::po_text::{quick_po_stats, quick_stats};

verus! {

/// A project record.
#[derive(Debug, Clone)]
pub struct Project {
    pub project: ProjectMeta,
    pub source: ProjectSource,
    pub languages: Vec<ProjectLanguage>,
}

/// The project's name and creation time.
#[derive(Debug, Clone)]
pub struct ProjectMeta {
    pub name: String,
    pub created_at: String,
}

/// The template: its file name inside the project directory, and where it
/// was copied from.
#[derive(Debug, Clone)]
pub struct ProjectSource {
    pub pot_file: String,
    pub original_path: String,
}

/// A language of the project and its catalog file name.
#[derive(Debug, Clone)]
pub struct ProjectLanguage {
    pub locale: String,
    pub po_file: String,
}

/// The name of the template file inside a project directory.
pub const POT_FILE_NAME: &'static str = "source.pot";

/// The name of the project record inside a project directory.
pub const PROJECT_FILE_NAME: &'static str = "project.toml";

/// The locales of the languages, in order.
pub open spec fn locales(ls: Seq<ProjectLanguage>) -> Seq<Seq<char>> {
    ls.map_values(|l: ProjectLanguage| l.locale@)
}

/// The first language with `locale`, if any.
pub open spec fn first_language(ls: Seq<ProjectLanguage>, locale: Seq<char>) -> Option<int> {
    if locales(ls).contains(locale) {
        Some(choose|i: int| 0 <= i < ls.len() && ls[i].locale@ == locale && forall|j: int|
            0 <= j < i ==> ls[j].locale@ != locale)
    } else {
        None
    }
}

/// The languages without those of `locale`, order kept.
pub open spec fn without_locale(ls: Seq<ProjectLanguage>, locale: Seq<char>) -> Seq<ProjectLanguage>
    decreases ls.len(),
{
    if ls.len() == 0 {
        ls
    } else {
        let rest = without_locale(ls.drop_last(), locale);
        if ls.last().locale@ != locale { rest.push(ls.last()) } else { rest }
    }
}

/// The catalog file name of a locale.
pub open spec fn po_file_name(locale: Seq<char>) -> Seq<char> {
    locale + ".po"@
}

/// Every occurrence of `from` in `s`, scanning left to right without
/// overlap, replaced by `to` (`str::replace` with a non-empty pattern).
pub open spec fn replace_all(s: Seq<char>, from: Seq<char>, to: Seq<char>) -> Seq<char>
    decreases s.len(),
{
    if from.len() == 0 || s.len() < from.len() {
        s
    } else if s.take(from.len() as int) == from {
        to + replace_all(s.skip(from.len() as int), from, to)
    } else {
        seq![s[0]] + replace_all(s.drop_first(), from, to)
    }
}

/// The template text with the empty `Language` header field set to `locale`.
pub open spec fn with_language_header(pot_text: Seq<char>, locale: Seq<char>) -> Seq<char> {
    replace_all(pot_text, "\"Language: \\n\""@, "\"Language: "@ + locale + "\\n\""@)
}

/// The statistics of the languages whose catalog text could be read, in
/// order (`None` marks a catalog that could not be read).
pub open spec fn language_stats(ls: Seq<ProjectLanguage>, texts: Seq<Option<String>>) -> Seq<(Seq<char>, StatsModel)>
    decreases ls.len(),
{
    if ls.len() == 0 || texts.len() != ls.len() {
        Seq::empty()
    } else {
        let rest = language_stats(ls.drop_last(), texts.drop_last());
        match texts.last() {
            Some(t) => rest.push((ls.last().locale@, quick_stats(t@))),
            None => rest,
        }
    }
}

/// `s` with every occurrence of `from` replaced by `to`.
pub fn replace(s: &str, from: &str, to: &str) -> (r: String)
    requires
        from@.len() > 0,
    ensures
        r@ == replace_all(s@, from@, to@),
{
    let cs = crate::text::chars_of(s);
    let fs = crate::text::chars_of(from);
    let ts = crate::text::chars_of(to);
    let mut out: Vec<char> = Vec::new();
    let mut i: usize = 0;
    assert(cs@.skip(0) =~= cs@);
    assert(out@ + replace_all(cs@.skip(0), from@, to@) =~= replace_all(s@, from@, to@));
    while i < cs.len()
        invariant
            i <= cs@.len(),
            fs@ == from@,
            ts@ == to@,
            fs@.len() > 0,
            out@ + replace_all(cs@.skip(i as int), from@, to@) == replace_all(s@, from@, to@),
            cs@ == s@,
        decreases cs.len() - i,
    {
        let ghost rest = cs@.skip(i as int);
        if fs.len() <= cs.len() - i && crate::text::occurs_at_exec(&cs, &fs, i) {
            assert(rest.take(fs@.len() as int) =~= cs@.subrange(i as int, i + fs@.len()));
            assert(rest.skip(fs@.len() as int) =~= cs@.skip(i + fs@.len()));
            let ghost before = out@;
            let mut j: usize = 0;
            while j < ts.len()
                invariant
                    j <= ts@.len(),
                    out@ == before + ts@.take(j as int),
                decreases ts.len() - j,
            {
                out.push(ts[j]);
                assert(out@ =~= before + ts@.take(j + 1));
                j = j + 1;
            }
            assert(ts@.take(ts@.len() as int) =~= ts@);
            assert(out@ + replace_all(cs@.skip(i + fs@.len()), from@, to@) =~= before + replace_all(rest, from@, to@));
            i = i + fs.len();
        } else {
            proof {
                if rest.len() >= fs@.len() {
                    assert(rest.take(fs@.len() as int) =~= cs@.subrange(i as int, i + fs@.len()));
                }
                assert(rest.drop_first() =~= cs@.skip(i + 1));
            }
            let ghost before = out@;
            out.push(cs[i]);
            assert(out@ + replace_all(cs@.skip(i + 1), from@, to@) =~= before + replace_all(rest, from@, to@));
            i = i + 1;
        }
    }
    assert(cs@.skip(cs@.len() as int) =~= Seq::<char>::empty());
    assert(out@ + Seq::<char>::empty() =~= out@);
    crate::text::string_of(&out, 0, out.len())
}

/// The directory of a project under the projects root.
pub fn project_dir(projects_root: &str, name: &str) -> (r: String)
    ensures
        r@ == path_join(projects_root@, name@),
{
    join(projects_root, name)
}

/// The projects root: `Lexito` under the home directory, or under the
/// current directory when there is no home.
pub fn projects_root(home: Option<&str>) -> (r: String)
    ensures
        r@ == path_join(
            match home {
                Some(h) => h@,
                None => "."@,
            },
            "Lexito"@,
        ),
{
    match home {
        Some(h) => join(h, "Lexito"),
        None => join(".", "Lexito"),
    }
}

/// Seconds since the Unix epoch, from the system clock (0 when the clock is
/// set before the epoch). Nothing is claimed of the value.
#[verifier::external_body]
fn unix_seconds() -> (r: u64)
{
    std::time::SystemTime::now().duration_since(std::time::UNIX_EPOCH).map(|d| d.as_secs()).unwrap_or(0)
}

/// Whether a year of the Gregorian calendar is a leap year.
pub open spec fn is_leap(y: nat) -> bool {
    y % 4 == 0 && (y % 100 != 0 || y % 400 == 0)
}

/// The number of days of a year.
pub open spec fn year_days(y: nat) -> nat {
    if is_leap(y) { 366 } else { 365 }
}

/// The number of days of month `m` (1 to 12) of year `y`.
pub open spec fn month_days(y: nat, m: nat) -> nat {
    if m == 2 {
        if is_leap(y) { 29 } else { 28 }
    } else if m == 4 || m == 6 || m == 9 || m == 11 {
        30
    } else {
        31
    }
}

/// The year, and the day within it (from 0), that lie `days` days after
/// the first day of year `y`.
pub open spec fn year_of(days: nat, y: nat) -> (nat, nat)
    decreases days,
{
    if days < year_days(y) {
        (y, days)
    } else {
        year_of((days - year_days(y)) as nat, y + 1)
    }
}

/// The month, and the day within it (from 0), of day `doy` of year `y`,
/// counting from the first day of month `m`.
pub open spec fn month_of(doy: nat, y: nat, m: nat) -> (nat, nat)
    decreases 12 - m,
{
    if m >= 12 || doy < month_days(y, m) {
        (m, doy)
    } else {
        month_of((doy - month_days(y, m)) as nat, y, m + 1)
    }
}

/// `n` in decimal, with zeros in front up to `width` digits.
pub open spec fn padded(n: nat, width: nat) -> Seq<char> {
    let d = decimal(n);
    if d.len() >= width { d } else { Seq::new((width - d.len()) as nat, |i: int| '0') + d }
}

/// The UTC time `secs` seconds after the Unix epoch, in the ISO 8601 form
/// `YYYY-MM-DDTHH:MM:SSZ`.
pub open spec fn iso_timestamp(secs: nat) -> Seq<char> {
    let days = secs / 86400;
    let rem = secs % 86400;
    let (y, doy) = year_of(days, 1970);
    let (m, d) = month_of(doy, y, 1);
    padded(y, 4) + seq!['-'] + padded(m, 2) + seq!['-'] + padded(d + 1, 2) + seq!['T']
        + padded(rem / 3600, 2) + seq![':'] + padded((rem % 3600) / 60, 2) + seq![':'] + padded(rem % 60, 2)
        + seq!['Z']
}

fn leap(y: u64) -> (r: bool)
    ensures
        r == is_leap(y as nat),
{
    y % 4 == 0 && (y % 100 != 0 || y % 400 == 0)
}

/// `n` in decimal, zero-padded to `width` digits.
fn padded_string(n: u64, width: usize) -> (r: String)
    ensures
        r@ == padded(n as nat, width as nat),
{
    let d = decimal_string(n);
    let cs = chars_of(d.as_str());
    if cs.len() >= width {
        return d;
    }
    let mut r = String::new();
    let mut i: usize = 0;
    let fill: usize = width - cs.len();
    while i < fill
        invariant
            i <= fill,
            r@ == Seq::new(i as nat, |j: int| '0'),
        decreases fill - i,
    {
        push_char(&mut r, '0');
        assert(r@ =~= Seq::new((i + 1) as nat, |j: int| '0'));
        i = i + 1;
    }
    r.append(d.as_str());
    r
}

/// The UTC time `secs` seconds after the Unix epoch, as
/// `YYYY-MM-DDTHH:MM:SSZ`.
pub fn format_timestamp(secs: u64) -> (r: String)
    ensures
        r@ == iso_timestamp(secs as nat),
{
    let days0: u64 = secs / 86400;
    let rem: u64 = secs % 86400;
    let mut days: u64 = days0;
    let mut y: u64 = 1970;
    while days >= year_len(y)
        invariant
            days <= days0,
            days0 == secs / 86400,
            1970 <= y <= 1970 + (days0 - days),
            year_of(days0 as nat, 1970) == year_of(days as nat, y as nat),
        decreases days,
    {
        let yd: u64 = year_len(y);
        days = days - yd;
        y = y + 1;
    }
    let mut doy: u64 = days;
    let mut m: u64 = 1;
    while m < 12 && doy >= month_len(y, m)
        invariant
            1 <= m <= 12,
            doy <= days,
            month_of(days as nat, y as nat, 1) == month_of(doy as nat, y as nat, m as nat),
        decreases 12 - m,
    {
        doy = doy - month_len(y, m);
        m = m + 1;
    }
    let mut r = padded_string(y, 4);
    push_char(&mut r, '-');
    r.append(padded_string(m, 2).as_str());
    push_char(&mut r, '-');
    r.append(padded_string(doy + 1, 2).as_str());
    push_char(&mut r, 'T');
    r.append(padded_string(rem / 3600, 2).as_str());
    push_char(&mut r, ':');
    r.append(padded_string((rem % 3600) / 60, 2).as_str());
    push_char(&mut r, ':');
    r.append(padded_string(rem % 60, 2).as_str());
    push_char(&mut r, 'Z');
    r
}

fn year_len(y: u64) -> (r: u64)
    ensures
        r == year_days(y as nat),
{
    if leap(y) { 366 } else { 365 }
}

fn month_len(y: u64, m: u64) -> (r: u64)
    ensures
        r == month_days(y as nat, m as nat),
{
    if m == 2 {
        if leap(y) { 29 } else { 28 }
    } else if m == 4 || m == 6 || m == 9 || m == 11 {
        30
    } else {
        31
    }
}

/// The creation time recorded for a new project: the current UTC time as
/// an ISO 8601 timestamp (`YYYY-MM-DDTHH:MM:SSZ`).
pub fn chrono_now() -> (r: String)
    ensures
        exists|secs: u64| r@ == iso_timestamp(secs as nat),
{
    let secs = unix_seconds();
    format_timestamp(secs)
}

/// The index of the first language with `locale`, if any.
fn find_language(ls: &Vec<ProjectLanguage>, locale: &str) -> (r: Option<usize>)
    ensures
        match r {
            Some(i) => first_language(ls@, locale@) == Some(i as int) && i < ls@.len(),
            None => first_language(ls@, locale@) is None,
        },
{
    let mut i: usize = 0;
    while i < ls.len()
        invariant
            i <= ls@.len(),
            forall|j: int| 0 <= j < i ==> ls@[j].locale@ != locale@,
        decreases ls.len() - i,
    {
        if str_eq(ls[i].locale.as_str(), locale) {
            proof {
                assert(locales(ls@)[i as int] == locale@);
                let k = choose|k: int| 0 <= k < ls@.len() && ls@[k].locale@ == locale@ && forall|j: int|
                    0 <= j < k ==> ls@[j].locale@ != locale@;
                if k < i {
                    assert(ls@[k].locale@ != locale@);
                }
                if i < k {
                    assert(ls@[i as int].locale@ != locale@);
                }
            }
            return Some(i);
        }
        i = i + 1;
    }
    proof {
        if locales(ls@).contains(locale@) {
            let w = choose|w: int| 0 <= w < locales(ls@).len() && locales(ls@)[w] == locale@;
            assert(ls@[w].locale@ == locale@);
        }
    }
    None
}

fn without_locale_exec(ls: &Vec<ProjectLanguage>, locale: &str) -> (r: Vec<ProjectLanguage>)
    ensures
        r@ == without_locale(ls@, locale@),
{
    let mut kept: Vec<ProjectLanguage> = Vec::new();
    let mut i: usize = 0;
    while i < ls.len()
        invariant
            i <= ls@.len(),
            kept@ == without_locale(ls@.take(i as int), locale@),
        decreases ls.len() - i,
    {
        assert(ls@.take(i + 1).drop_last() =~= ls@.take(i as int));
        assert(ls@.take(i + 1).last() == ls@[i as int]);
        if !str_eq(ls[i].locale.as_str(), locale) {
            let l = ProjectLanguage { locale: ls[i].locale.clone(), po_file: ls[i].po_file.clone() };
            assert(l == ls@[i as int]);
            kept.push(l);
        }
        i = i + 1;
    }
    assert(ls@.take(ls@.len() as int) =~= ls@);
    kept
}

impl Project {
    /// A new project record named `name` for the template at
    /// `pot_source_path`, with no languages, and its directory under
    /// `projects_root`. Refused when that directory already exists.
    pub fn create(
        name: &str,
        pot_source_path: &str,
        projects_root: &str,
        project_dir_exists: bool,
        created_at: String,
    ) -> (r: Result<(Project, String), CatalogError>)
        ensures
            project_dir_exists ==> (r matches Err(CatalogError::Parse(m)) && m@
                == "Project directory already exists: "@ + path_join(projects_root@, name@)),
            !project_dir_exists ==> (r matches Ok((p, dir)) && dir@ == path_join(projects_root@, name@)
                && p.project.name@ == name@ && p.project.created_at == created_at
                && p.source.pot_file@ == POT_FILE_NAME@ && p.source.original_path@ == pot_source_path@
                && p.languages@.len() == 0),
    {
        let dir = project_dir(projects_root, name);
        if project_dir_exists {
            return Err(CatalogError::Parse(
                String::from_str("Project directory already exists: ").concat(dir.as_str()),
            ));
        }
        let project = Project {
            project: ProjectMeta { name: String::from_str(name), created_at },
            source: ProjectSource {
                pot_file: String::from_str(POT_FILE_NAME),
                original_path: String::from_str(pot_source_path),
            },
            languages: Vec::new(),
        };
        Ok((project, dir))
    }

    /// The template's path in the project directory.
    pub fn pot_path(&self, project_dir: &str) -> (r: String)
        ensures
            r@ == path_join(project_dir@, self.source.pot_file@),
    {
        join(project_dir, self.source.pot_file.as_str())
    }

    /// The catalog path of the first language with `locale`, if any.
    pub fn po_path(&self, locale: &str, project_dir: &str) -> (r: Option<String>)
        ensures
            opt_view(r) == match first_language(self.languages@, locale@) {
                Some(i) => Some(path_join(project_dir@, self.languages@[i].po_file@)),
                None => None,
            },
    {
        match find_language(&self.languages, locale) {
            Some(i) => Some(join(project_dir, self.languages[i].po_file.as_str())),
            None => None,
        }
    }

    /// The path a new catalog for `locale` gets in the project directory.
    pub fn new_po_path(locale: &str, project_dir: &str) -> (r: String)
        ensures
            r@ == path_join(project_dir@, po_file_name(locale@)),
    {
        let name = String::from_str(locale).concat(".po");
        join(project_dir, name.as_str())
    }

    /// The catalog paths of the languages, in order.
    pub fn language_po_paths(&self, project_dir: &str) -> (r: Vec<String>)
        ensures
            r@.len() == self.languages@.len(),
            forall|i: int| 0 <= i < r@.len() ==> #[trigger] r@[i]@ == path_join(
                project_dir@,
                self.languages@[i].po_file@,
            ),
    {
        let mut r: Vec<String> = Vec::new();
        let mut i: usize = 0;
        while i < self.languages.len()
            invariant
                i <= self.languages@.len(),
                r@.len() == i,
                forall|k: int| 0 <= k < i ==> #[trigger] r@[k]@ == path_join(
                    project_dir@,
                    self.languages@[k].po_file@,
                ),
            decreases self.languages.len() - i,
        {
            r.push(join(project_dir, self.languages[i].po_file.as_str()));
            i = i + 1;
        }
        r
    }

    /// Adds a language: the catalog `<locale>.po` is the template text with
    /// its empty `Language` header set to the locale, and the language is
    /// recorded unless already there. Refused when the language is already
    /// recorded and its catalog file exists (`po_file_exists`); a recorded
    /// language whose file is missing is added again. Gives the catalog text
    /// to write.
    pub fn add_language(&mut self, locale: &str, po_file_exists: bool, pot_text: &str) -> (r: Result<String, CatalogError>)
        ensures
            ({
                let known = locales(old(self).languages@).contains(locale@);
                &&& known && po_file_exists ==> (r matches Err(CatalogError::Parse(m)) && m@ == "Language '"@
                    + locale@ + "' already exists in this project"@ && *final(self) == *old(self))
                &&& !(known && po_file_exists) ==> (r matches Ok(text) && text@ == with_language_header(
                    pot_text@,
                    locale@,
                ) && final(self).project == old(self).project && final(self).source == old(self).source
                    && (known ==> final(self).languages@ == old(self).languages@)
                    && (!known ==> final(self).languages@.len() == old(self).languages@.len() + 1
                        && final(self).languages@.drop_last() == old(self).languages@
                        && final(self).languages@.last().locale@ == locale@
                        && final(self).languages@.last().po_file@ == po_file_name(locale@)))
            }),
    {
        let known = find_language(&self.languages, locale).is_some();
        proof {
            if locales(self.languages@).contains(locale@) {
                assert(first_language(self.languages@, locale@) is Some);
            }
        }
        if known && po_file_exists {
            let m = String::from_str("Language '").concat(locale).concat("' already exists in this project");
            return Err(CatalogError::Parse(m));
        }
        proof {
            reveal_strlit("\"Language: \\n\"");
        }
        let replacement = String::from_str("\"Language: ").concat(locale).concat("\\n\"");
        let text = replace(pot_text, "\"Language: \\n\"", replacement.as_str());
        if !known {
            self.languages.push(ProjectLanguage {
                locale: String::from_str(locale),
                po_file: String::from_str(locale).concat(".po"),
            });
        }
        Ok(text)
    }

    /// Removes every language with `locale`; gives the catalog file name of
    /// the first one, whose catalog (and compiled `.mo`) the caller deletes.
    pub fn remove_language(&mut self, locale: &str) -> (r: Option<String>)
        ensures
            final(self).languages@ == without_locale(old(self).languages@, locale@),
            final(self).project == old(self).project,
            final(self).source == old(self).source,
            opt_view(r) == match first_language(old(self).languages@, locale@) {
                Some(i) => Some(old(self).languages@[i].po_file@),
                None => None,
            },
    {
        let found = match find_language(&self.languages, locale) {
            Some(i) => Some(self.languages[i].po_file.clone()),
            None => None,
        };
        let kept = without_locale_exec(&self.languages, locale);
        self.languages = kept;
        found
    }

    /// Statistics for each language whose catalog text could be read, from
    /// the quick scan (`texts[i]` is the text of language `i`, `None` when it
    /// could not be read).
    pub fn load_language_stats(&self, texts: &Vec<Option<String>>) -> (r: Vec<(String, CatalogStats)>)
        requires
            texts@.len() == self.languages@.len(),
        ensures
            r@.map_values(|p: (String, CatalogStats)| (p.0@, p.1@)) == language_stats(self.languages@, texts@),
    {
        let ghost ls = self.languages@;
        let mut r: Vec<(String, CatalogStats)> = Vec::new();
        let mut i: usize = 0;
        while i < texts.len()
            invariant
                ls == self.languages@,
                texts@.len() == ls.len(),
                i <= ls.len(),
                r@.map_values(|p: (String, CatalogStats)| (p.0@, p.1@)) == language_stats(
                    ls.take(i as int),
                    texts@.take(i as int),
                ),
            decreases texts.len() - i,
        {
            assert(ls.take(i + 1).drop_last() =~= ls.take(i as int));
            assert(texts@.take(i + 1).drop_last() =~= texts@.take(i as int));
            let ghost prev = r@;
            match &texts[i] {
                Some(t) => {
                    let stats = quick_po_stats(t.as_str());
                    r.push((self.languages[i].locale.clone(), stats));
                    assert(r@.map_values(|p: (String, CatalogStats)| (p.0@, p.1@)) =~= prev.map_values(
                        |p: (String, CatalogStats)| (p.0@, p.1@),
                    ).push((ls[i as int].locale@, stats@)));
                },
                None => {},
            }
            i = i + 1;
        }
        assert(ls.take(ls.len() as int) =~= ls);
        assert(texts@.take(ls.len() as int) =~= texts@);
        r
    }
}

} // verus!

verus! {

/// The projects found under the projects root, as `(name, directory)`
/// pairs, sorted by name (pairs with equal names keep their order).
pub fn list_projects(found: Vec<(String, String)>) -> (r: Vec<(String, String)>)
    ensures
        crate::order::pairs_of(r@) == crate::order::sort_by_key(crate::order::pairs_of(found@)),
{
    crate::order::sort_pairs_by_key(found)
}

} // verus!
