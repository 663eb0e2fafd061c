//! A patch series: its identity fields, its ordered revisions and its
//! activity log.

use vstd::prelude::*;
use crate::error::{GitError, GitErrorCode};
use crate::input::{sanitize_cc_list, valid_cc_list};
use crate::text::{
    alnum, chars_of, decimal, decimal_chars, extend_chars, is_alnum, lines_chars, lines_of,
    is_ws, string_of, trim, trim_chars, trim_front, trimmed, views_of,
};

verus! {

/// Letters, digits, `_` and `-`.
pub open spec fn is_name_char(c: char) -> bool {
    is_alnum(c) || c == '_' || c == '-'
}

/// A series name: one or more name characters.
pub open spec fn valid_name(s: Seq<char>) -> bool {
    s.len() > 0 && forall|i: int| 0 <= i < s.len() ==> is_name_char(#[trigger] s[i])
}

/// A series title: one or more name characters or spaces.
pub open spec fn valid_title(s: Seq<char>) -> bool {
    s.len() > 0 && forall|i: int| 0 <= i < s.len() ==> is_name_char(#[trigger] s[i]) || s[i] == ' '
}

/// A short name: one to eight name characters.
pub open spec fn valid_short_name(s: Seq<char>) -> bool {
    1 <= s.len() <= 8 && forall|i: int| 0 <= i < s.len() ==> is_name_char(#[trigger] s[i])
}

/// Tests that every character is a name character, or a space where spaces
/// are allowed.
fn name_chars_only(v: &Vec<char>, allow_space: bool) -> (r: bool)
    ensures
        r == forall|i: int|
            0 <= i < v@.len() ==> is_name_char(#[trigger] v@[i]) || (allow_space && v@[i] == ' '),
{
    let mut i: usize = 0;
    while i < v.len()
        invariant
            0 <= i <= v@.len(),
            forall|k: int|
                0 <= k < i ==> is_name_char(#[trigger] v@[k]) || (allow_space && v@[k] == ' '),
        decreases v@.len() - i,
    {
        let c = v[i];
        if !(alnum(c) || c == '_' || c == '-' || (allow_space && c == ' ')) {
            return false;
        }
        i = i + 1;
    }
    true
}

/// The content of a revision with each line indented by four spaces and
/// ended by the separator `sep`.
pub open spec fn indented(ls: Seq<Seq<char>>, sep: Seq<char>) -> Seq<char>
    decreases ls.len(),
{
    if ls.len() == 0 {
        Seq::empty()
    } else {
        indented(ls.drop_last(), sep) + seq![' ', ' ', ' ', ' '] + ls.last() + sep
    }
}

/// The revisions of a series from the highest number down to 2, each as
/// `v<N>`, the separator `sep`, its indented content and `sep` again.
pub open spec fn render_revisions(cs: Seq<Seq<char>>, sep: Seq<char>) -> Seq<char>
    decreases cs.len(),
{
    if cs.len() == 0 {
        Seq::empty()
    } else {
        seq!['v'] + decimal((cs.len() + 1) as nat) + sep + indented(lines_of(cs.last()), sep) + sep
            + render_revisions(cs.drop_last(), sep)
    }
}

/// A series as it is shown: the cover letter, a blank line, the revisions.
pub open spec fn render_series(cover_letter: Seq<char>, cs: Seq<Seq<char>>, sep: Seq<char>) -> Seq<char> {
    cover_letter + sep + sep + render_revisions(cs, sep)
}

/// The log entries, each followed by the separator `sep`.
pub open spec fn log_lines(logs: Seq<Seq<char>>, sep: Seq<char>) -> Seq<char>
    decreases logs.len(),
{
    if logs.len() == 0 {
        Seq::empty()
    } else {
        log_lines(logs.drop_last(), sep) + logs.last() + sep
    }
}

/// A series with its identity fields, its revisions and its log.
pub open spec fn describe_series(m: SeriesModel, sep: Seq<char>) -> Seq<char> {
    "Name : "@ + m.name + sep + "Title : "@ + m.title + sep + "Short name : "@ + m.short_name + sep
        + "Revision : "@ + decimal((m.contents.len() + 1) as nat) + sep + sep
        + render_series(m.cover_letter, m.contents, sep) + "Log :"@ + sep + log_lines(m.logs, sep)
}

/// A log entry: the time, the operation and a message.
pub open spec fn log_line(time: Seq<char>, op: Seq<char>, msg: Seq<char>) -> Seq<char> {
    time + ": "@ + op + " - "@ + msg
}

/// Whether revision number `n` has stored content in a series with `len`
/// stored revisions (revision 1 has none).
pub open spec fn revision_exists(len: nat, n: int) -> bool {
    2 <= n < len + 2
}

proof fn lemma_update_contents(s: Seq<SeriesRevision>, i: int)
    requires
        0 <= i < s.len(),
    ensures
        forall|x: SeriesRevision|
            (#[trigger] s.update(i, x)).map_values(|r: SeriesRevision| r@) == s.map_values(
                |r: SeriesRevision| r@,
            ).update(i, x@),
{
    assert forall|x: SeriesRevision|
        (#[trigger] s.update(i, x)).map_values(|r: SeriesRevision| r@) == s.map_values(
            |r: SeriesRevision| r@,
        ).update(i, x@) by {
        assert(s.update(i, x).map_values(|r: SeriesRevision| r@) =~= s.map_values(
            |r: SeriesRevision| r@,
        ).update(i, x@));
    }
}

/// One revision of a series.
pub struct SeriesRevision {
    content: String,
}

impl View for SeriesRevision {
    type V = Seq<char>;

    closed spec fn view(&self) -> Seq<char> {
        self.content@
    }
}

impl SeriesRevision {
    pub fn new(content: &str) -> (r: Self)
        ensures
            r@ == content@,
    {
        Self { content: content.to_owned() }
    }

    pub fn content(&self) -> (r: &str)
        ensures
            r@ == self@,
    {
        self.content.as_str()
    }

    /// Stores the content without leading and trailing white space.
    pub fn set_content(&mut self, content: &str)
        ensures
            final(self)@ == trimmed(content@),
    {
        self.content = trim(content);
    }

    /// The content, each line indented by four spaces and ended by `sep`.
    pub fn render(&self, sep: &str) -> (r: Vec<char>)
        ensures
            r@ == indented(lines_of(self@), sep@),
    {
        let sv = chars_of(sep);
        let ls = lines_chars(&chars_of(self.content.as_str()));
        let ghost v = views_of(ls@);
        let mut r: Vec<char> = Vec::new();
        let mut i: usize = 0;
        while i < ls.len()
            invariant
                0 <= i <= ls@.len(),
                v == views_of(ls@),
                v == lines_of(self@),
                sv@ == sep@,
                r@ == indented(v.subrange(0, i as int), sep@),
            decreases ls@.len() - i,
        {
            r.push(' ');
            r.push(' ');
            r.push(' ');
            r.push(' ');
            extend_chars(&mut r, &ls[i]);
            extend_chars(&mut r, &sv);
            proof {
                let w = v.subrange(0, i + 1);
                assert(w.drop_last() == v.subrange(0, i as int));
                assert(w.last() == ls@[i as int]@);
            }
            i = i + 1;
        }
        assert(v.subrange(0, ls@.len() as int) == v);
        r
    }
}

/// One entry of the activity log of a series.
pub struct SeriesLog {
    entry: String,
}

impl View for SeriesLog {
    type V = Seq<char>;

    closed spec fn view(&self) -> Seq<char> {
        self.entry@
    }
}

/// Relies on `SystemTime::now` and `SystemTime::duration_since`: the whole
/// seconds since the Unix epoch, none when the clock reads earlier.
#[verifier::external_body]
fn unix_seconds() -> (r: Option<u64>) {
    std::time::SystemTime::now().duration_since(std::time::UNIX_EPOCH).ok().map(|d| d.as_secs())
}

/// What chrono writes for a time given in seconds since the Unix epoch, in
/// UTC, as year-month-day hours:minutes:seconds; none out of its range.
pub uninterp spec fn utc_text(secs: int) -> Option<Seq<char>>;

/// Relies on chrono's `DateTime::from_timestamp` and `format`: the UTC time
/// of a number of seconds since the Unix epoch, written as
/// year-month-day hours:minutes:seconds; none out of chrono's range.
#[verifier::external_body]
fn format_utc(secs: i64) -> (r: Option<String>)
    ensures
        r is None <==> utc_text(secs as int) is None,
        r matches Some(t) ==> utc_text(secs as int) == Some(t@),
{
    chrono::DateTime::from_timestamp(secs, 0).map(|t| t.format("%Y-%m-%d %H:%M:%S").to_string())
}

/// The time now as it is written in the log, or `unknown time` when the
/// clock gives none that can be written.
fn log_time() -> (r: String) {
    let text = match unix_seconds() {
        Some(secs) => {
            if secs <= i64::MAX as u64 {
                format_utc(secs as i64)
            } else {
                None
            }
        },
        None => None,
    };
    match text {
        Some(t) => t,
        None => "unknown time".to_owned(),
    }
}

impl SeriesLog {
    pub fn entry(&self) -> (r: &str)
        ensures
            r@ == self@,
    {
        self.entry.as_str()
    }

    /// An entry of the given text, as stored.
    pub fn from_entry(entry: &str) -> (r: Self)
        ensures
            r@ == entry@,
    {
        Self { entry: entry.to_owned() }
    }

    /// Appends an entry stamped with the local time now.
    fn log(series: &mut Series, op: &str, msg: &Vec<char>)
        ensures
            final(series).view() == (SeriesModel { logs: final(series).view().logs, ..old(series).view() }),
            exists|t: Seq<char>| final(series).view().logs == old(series).view().logs.push(#[trigger] log_line(t, op@, msg@)),
    {
        let time = log_time();
        series.append_log(time.as_str(), op, msg);
    }

    /// Records that the series was sent to an address.
    pub fn send(series: &mut Series, to: &str)
        requires
            old(series).wf(),
        ensures
            final(series).wf(),
            final(series).view() == (SeriesModel { logs: final(series).view().logs, ..old(series).view() }),
            exists|t: Seq<char>|
                final(series).view().logs == old(series).view().logs.push(
                    #[trigger] log_line(
                        t,
                        "send"@,
                        "revision "@ + decimal((old(series)@.contents.len() + 1) as nat) + " send to "@ + to@,
                    ),
                ),
    {
        let mut msg = chars_of("revision ");
        let cur = series.current_revision();
        extend_chars(&mut msg, &decimal_chars(cur as u64));
        extend_chars(&mut msg, &chars_of(" send to "));
        extend_chars(&mut msg, &chars_of(to));
        Self::log(series, "send", &msg);
    }

    /// Records that the series reached revision `rev`.
    pub fn add_revision(series: &mut Series, rev: usize)
        requires
            old(series).wf(),
        ensures
            final(series).wf(),
            final(series).view() == (SeriesModel { logs: final(series).view().logs, ..old(series).view() }),
            exists|t: Seq<char>|
                final(series).view().logs == old(series).view().logs.push(
                    #[trigger] log_line(t, "add revision"@, "revision updated to "@ + decimal(rev as nat)),
                ),
    {
        let mut msg = chars_of("revision updated to ");
        extend_chars(&mut msg, &decimal_chars(rev as u64));
        Self::log(series, "add revision", &msg);
    }

    /// Records that revision `rev` was deleted.
    pub fn delete_revision(series: &mut Series, rev: usize)
        requires
            old(series).wf(),
        ensures
            final(series).wf(),
            final(series).view() == (SeriesModel { logs: final(series).view().logs, ..old(series).view() }),
            exists|t: Seq<char>|
                final(series).view().logs == old(series).view().logs.push(
                    #[trigger] log_line(t, "delete revision"@, "revision "@ + decimal(rev as nat) + " deleted"@),
                ),
    {
        let mut msg = chars_of("revision ");
        extend_chars(&mut msg, &decimal_chars(rev as u64));
        extend_chars(&mut msg, &chars_of(" deleted"));
        Self::log(series, "delete revision", &msg);
    }
}

/// What a series holds, as mathematical values.
pub struct SeriesModel {
    pub name: Seq<char>,
    pub title: Seq<char>,
    pub cover_letter: Seq<char>,
    pub short_name: Seq<char>,
    pub cc: Seq<char>,
    pub contents: Seq<Seq<char>>,
    pub logs: Seq<Seq<char>>,
}

/// A named, versioned patch series. Revision 1 is implicit; stored revision
/// `i` is revision number `i + 2`.
pub struct Series {
    name: String,
    title: String,
    cover_letter: String,
    short_name: String,
    revisions: Vec<SeriesRevision>,
    logs: Vec<SeriesLog>,
    cc: String,
}

impl View for Series {
    type V = SeriesModel;

    closed spec fn view(&self) -> SeriesModel {
        SeriesModel {
            name: self.name@,
            title: self.title@,
            cover_letter: self.cover_letter@,
            short_name: self.short_name@,
            cc: self.cc@,
            contents: self.revisions@.map_values(|r: SeriesRevision| r@),
            logs: self.logs@.map_values(|l: SeriesLog| l@),
        }
    }
}

impl Series {
    /// The name and the title are valid, the short name is empty or valid,
    /// and the revision number fits in a `u32`.
    pub open spec fn wf(&self) -> bool {
        &&& valid_name(self@.name)
        &&& valid_title(self@.title)
        &&& (self@.short_name.len() == 0 || valid_short_name(self@.short_name))
        &&& self@.contents.len() + 1 <= u32::MAX
    }

    /// Creates a series with no stored revision; the name and the title are
    /// trimmed and must be valid.
    pub fn new(name: &str, title: &str) -> (r: Option<Self>)
        ensures
            r is Some <==> valid_name(trimmed(name@)) && valid_title(trimmed(title@)),
            r matches Some(s) ==> {
                &&& s.wf()
                &&& s@ == SeriesModel {
                    name: trimmed(name@),
                    title: trimmed(title@),
                    cover_letter: Seq::empty(),
                    short_name: Seq::empty(),
                    cc: Seq::empty(),
                    contents: Seq::empty(),
                    logs: Seq::empty(),
                }
            },
    {
        let (Some(title), Some(name)) = (Series::validate_title(title), Series::validate_name(name)) else {
            return None;
        };
        let s = Self {
            name,
            title,
            cover_letter: String::new(),
            short_name: String::new(),
            revisions: Vec::new(),
            logs: Vec::new(),
            cc: String::new(),
        };
        assert(s@.contents =~= Seq::empty());
        assert(s@.logs =~= Seq::empty());
        Some(s)
    }

    /// The number of the newest revision: one more than the stored ones.
    pub fn current_revision(&self) -> (r: u32)
        requires
            self.wf(),
        ensures
            r == self@.contents.len() + 1,
    {
        (self.revisions.len() + 1) as u32
    }

    pub fn name(&self) -> (r: &str)
        ensures
            r@ == self@.name,
    {
        self.name.as_str()
    }

    pub fn set_name(&mut self, name: &str) -> (r: Result<(), GitError>)
        requires
            old(self).wf(),
        ensures
            final(self).wf(),
            r is Ok <==> valid_name(trimmed(name@)),
            r is Ok ==> final(self)@ == (SeriesModel { name: trimmed(name@), ..old(self)@ }),
            r matches Err(e) ==> final(self)@ == old(self)@ && e.spec_code() == GitErrorCode::StringFormatError,
    {
        if let Some(name) = Series::validate_name(name) {
            self.name = name;
            Ok(())
        } else {
            Err(GitError::new(GitErrorCode::StringFormatError, "Invalid name format".to_owned()))
        }
    }

    pub fn title(&self) -> (r: &str)
        ensures
            r@ == self@.title,
    {
        self.title.as_str()
    }

    pub fn set_title(&mut self, title: &str) -> (r: Result<(), GitError>)
        requires
            old(self).wf(),
        ensures
            final(self).wf(),
            r is Ok <==> valid_title(trimmed(title@)),
            r is Ok ==> final(self)@ == (SeriesModel { title: trimmed(title@), ..old(self)@ }),
            r matches Err(e) ==> final(self)@ == old(self)@ && e.spec_code() == GitErrorCode::StringFormatError,
    {
        if let Some(title) = Series::validate_title(title) {
            self.title = title;
            Ok(())
        } else {
            Err(GitError::new(GitErrorCode::StringFormatError, "Invalid title format".to_owned()))
        }
    }

    pub fn cover_letter(&self) -> (r: &str)
        ensures
            r@ == self@.cover_letter,
    {
        self.cover_letter.as_str()
    }

    /// Stores the cover letter without leading and trailing white space.
    pub fn set_cover_letter(&mut self, cover_letter: &str) -> (r: Result<(), GitError>)
        requires
            old(self).wf(),
        ensures
            final(self).wf(),
            r is Ok,
            final(self)@ == (SeriesModel { cover_letter: trimmed(cover_letter@), ..old(self)@ }),
    {
        self.cover_letter = trim(cover_letter);
        Ok(())
    }

    pub fn short_name(&self) -> (r: &str)
        ensures
            r@ == self@.short_name,
    {
        self.short_name.as_str()
    }

    pub fn set_short_name(&mut self, short_name: &str) -> (r: Result<(), GitError>)
        requires
            old(self).wf(),
        ensures
            final(self).wf(),
            r is Ok <==> (trimmed(short_name@).len() == 0 || valid_short_name(trimmed(short_name@))),
            r is Ok ==> final(self)@ == (SeriesModel { short_name: trimmed(short_name@), ..old(self)@ }),
            r matches Err(e) ==> final(self)@ == old(self)@ && e.spec_code() == GitErrorCode::StringFormatError,
    {
        let t = trim_chars(&chars_of(short_name));
        if t.len() == 0 {
            assert(trimmed(short_name@) =~= Seq::<char>::empty());
            self.short_name = String::new();
            return Ok(());
        }
        if let Some(short_name) = Series::validate_short_name(short_name) {
            self.short_name = short_name;
            Ok(())
        } else {
            Err(GitError::new(GitErrorCode::StringFormatError, "Invalid short name format".to_owned()))
        }
    }

    pub fn cc(&self) -> (r: &str)
        ensures
            r@ == self@.cc,
    {
        self.cc.as_str()
    }

    /// Stores a comma-separated list of e-mail addresses, trimmed; the list is
    /// accepted whole or not at all.
    pub fn set_cc(&mut self, cc: &str) -> (r: Result<(), GitError>)
        requires
            old(self).wf(),
        ensures
            final(self).wf(),
            r is Ok <==> valid_cc_list(trimmed(cc@)),
            r is Ok ==> final(self)@ == (SeriesModel { cc: trimmed(cc@), ..old(self)@ }),
            r matches Err(e) ==> final(self)@ == old(self)@ && e.spec_code() == GitErrorCode::StringFormatError,
    {
        if let Some(sanitized_cc) = sanitize_cc_list(cc) {
            self.cc = sanitized_cc;
            Ok(())
        } else {
            Err(GitError::new(GitErrorCode::StringFormatError, "Invalid cc list format".to_owned()))
        }
    }

    /// Appends an empty revision and logs it.
    pub fn add_revision(&mut self)
        requires
            old(self).wf(),
            old(self)@.contents.len() + 2 <= u32::MAX,
        ensures
            final(self).wf(),
            final(self)@.contents == old(self)@.contents.push(Seq::empty()),
            final(self)@.name == old(self)@.name,
            final(self)@.title == old(self)@.title,
            final(self)@.cover_letter == old(self)@.cover_letter,
            final(self)@.short_name == old(self)@.short_name,
            final(self)@.cc == old(self)@.cc,
            exists|t: Seq<char>|
                final(self)@.logs == old(self)@.logs.push(
                    #[trigger] log_line(
                        t,
                        "add revision"@,
                        "revision updated to "@ + decimal((old(self)@.contents.len() + 2) as nat),
                    ),
                ),
    {
        let ghost before = self@;
        self.revisions.push(SeriesRevision { content: String::new() });
        assert(self@.contents =~= before.contents.push(Seq::empty()));
        let cur = self.current_revision();
        SeriesLog::add_revision(self, cur as usize);
    }

    /// The index in storage of revision number `rev`: none for revisions 0
    /// and 1, which have no stored content.
    pub fn revision_index(rev: usize) -> (r: Option<usize>)
        ensures
            r == if rev < 2 { None } else { Some((rev - 2) as usize) },
    {
        if rev < 2 {
            None
        } else {
            Some(rev - 2)
        }
    }

    /// Deletes revision `n`, renumbering the later ones; does nothing when
    /// there is no such stored revision.
    pub fn delete_revision(&mut self, n: usize)
        requires
            old(self).wf(),
        ensures
            final(self).wf(),
            !revision_exists(old(self)@.contents.len(), n as int) ==> final(self)@ == old(self)@,
            revision_exists(old(self)@.contents.len(), n as int) ==> {
                &&& final(self)@.contents == old(self)@.contents.remove(n - 2)
                &&& final(self)@.name == old(self)@.name
                &&& final(self)@.title == old(self)@.title
                &&& final(self)@.cover_letter == old(self)@.cover_letter
                &&& final(self)@.short_name == old(self)@.short_name
                &&& final(self)@.cc == old(self)@.cc
                &&& exists|t: Seq<char>|
                    final(self)@.logs == old(self)@.logs.push(
                        #[trigger] log_line(t, "delete revision"@, "revision "@ + decimal(n as nat) + " deleted"@),
                    )
            },
    {
        let Some(i) = Self::revision_index(n) else {
            return;
        };
        if i < self.revisions.len() {
            let ghost before = self@;
            self.revisions.remove(i);
            assert(self@.contents =~= before.contents.remove(i as int));
            SeriesLog::delete_revision(self, n);
        }
    }

    /// The stored revision number `n`, to read or change.
    pub fn revision_mut(&mut self, n: usize) -> (r: Option<&mut SeriesRevision>)
        requires
            old(self).wf(),
        ensures
            r is Some <==> revision_exists(old(self)@.contents.len(), n as int),
            r is None ==> final(self)@ == old(self)@,
            r matches Some(rev) ==> {
                &&& rev@ == old(self)@.contents[n - 2]
                &&& final(self)@ == (SeriesModel {
                    contents: old(self)@.contents.update(n - 2, final(rev)@),
                    ..old(self)@
                })
            },
    {
        let Some(i) = Self::revision_index(n) else {
            return None;
        };
        if i < self.revisions.len() {
            proof {
                lemma_update_contents(self.revisions@, i as int);
            }
            let rev = &mut self.revisions[i];
            Some(rev)
        } else {
            None
        }
    }

    /// The name, trimmed, when it is valid.
    pub fn validate_name(name: &str) -> (r: Option<String>)
        ensures
            r is Some <==> valid_name(trimmed(name@)),
            r matches Some(t) ==> t@ == trimmed(name@),
    {
        let t = trim_chars(&chars_of(name));
        if t.len() > 0 && name_chars_only(&t, false) {
            Some(string_of(t.as_slice()))
        } else {
            None
        }
    }

    /// The title, trimmed, when it is valid.
    pub fn validate_title(title: &str) -> (r: Option<String>)
        ensures
            r is Some <==> valid_title(trimmed(title@)),
            r matches Some(t) ==> t@ == trimmed(title@),
    {
        let t = trim_chars(&chars_of(title));
        if t.len() > 0 && name_chars_only(&t, true) {
            Some(string_of(t.as_slice()))
        } else {
            None
        }
    }

    /// The short name, trimmed, when it is valid.
    pub fn validate_short_name(short_name: &str) -> (r: Option<String>)
        ensures
            r is Some <==> valid_short_name(trimmed(short_name@)),
            r matches Some(t) ==> t@ == trimmed(short_name@),
    {
        let t = trim_chars(&chars_of(short_name));
        if t.len() > 0 && t.len() <= 8 && name_chars_only(&t, false) {
            Some(string_of(t.as_slice()))
        } else {
            None
        }
    }

    /// Appends a log entry made of a time, an operation and a message.
    pub fn append_log(&mut self, time: &str, op: &str, msg: &Vec<char>)
        ensures
            final(self)@ == (SeriesModel { logs: old(self)@.logs.push(log_line(time@, op@, msg@)), ..old(self)@ }),
    {
        let ghost before = self@;
        let mut e = chars_of(time);
        extend_chars(&mut e, &chars_of(": "));
        extend_chars(&mut e, &chars_of(op));
        extend_chars(&mut e, &chars_of(" - "));
        extend_chars(&mut e, msg);
        self.logs.push(SeriesLog { entry: string_of(e.as_slice()) });
        assert(self@.logs =~= before.logs.push(log_line(time@, op@, msg@)));
    }

    /// The log entries, oldest first.
    pub fn logs(&self) -> (r: &[SeriesLog])
        ensures
            r@.map_values(|l: SeriesLog| l@) == self@.logs,
    {
        self.logs.as_slice()
    }

    /// The stored revisions, revision 2 first.
    pub fn revisions(&self) -> (r: &[SeriesRevision])
        ensures
            r@.map_values(|x: SeriesRevision| x@) == self@.contents,
    {
        self.revisions.as_slice()
    }

    /// The series as it is shown: the cover letter, a blank line, then the
    /// revisions from the highest number down to 2; lines end with `sep`.
    pub fn render(&self, sep: &str) -> (r: String)
        requires
            self.wf(),
        ensures
            r@ == render_series(self@.cover_letter, self@.contents, sep@),
    {
        let ghost cs = self@.contents;
        let sv = chars_of(sep);
        let mut r = chars_of(self.cover_letter.as_str());
        extend_chars(&mut r, &sv);
        extend_chars(&mut r, &sv);
        let ghost prefix = r@;
        let mut i: usize = self.revisions.len();
        assert(cs.subrange(0, i as int) == cs);
        assert(render_revisions(cs, sep@) == Seq::<char>::empty() + render_revisions(cs, sep@));
        while i > 0
            invariant
                0 <= i <= self.revisions@.len(),
                cs == self@.contents,
                self.revisions@.len() + 1 <= u32::MAX,
                sv@ == sep@,
                prefix + render_revisions(cs, sep@) == r@ + render_revisions(cs.subrange(0, i as int), sep@),
            decreases i,
        {
            let ghost before = r@;
            let ghost sub = cs.subrange(0, i as int);
            assert(sub.drop_last() == cs.subrange(0, i - 1));
            assert(sub.last() == self.revisions@[i - 1]@);
            r.push('v');
            extend_chars(&mut r, &decimal_chars((i + 1) as u64));
            extend_chars(&mut r, &sv);
            extend_chars(&mut r, &self.revisions[i - 1].render(sep));
            extend_chars(&mut r, &sv);
            assert(r@ =~= before + (seq!['v'] + decimal((sub.len() + 1) as nat) + sep@
                + indented(lines_of(sub.last()), sep@) + sep@));
            i = i - 1;
        }
        string_of(r.as_slice())
    }
}

impl Series {
    /// Appends a revision with the given content, as stored, without
    /// logging it.
    pub fn push_revision(&mut self, content: &str)
        requires
            old(self).wf(),
            old(self)@.contents.len() + 2 <= u32::MAX,
        ensures
            final(self).wf(),
            final(self)@ == (SeriesModel { contents: old(self)@.contents.push(content@), ..old(self)@ }),
    {
        let ghost before = self@;
        self.revisions.push(SeriesRevision::new(content));
        assert(self@.contents =~= before.contents.push(content@));
    }

    /// Appends a log entry as stored.
    pub fn push_log(&mut self, log: SeriesLog)
        requires
            old(self).wf(),
        ensures
            final(self).wf(),
            final(self)@ == (SeriesModel { logs: old(self)@.logs.push(log@), ..old(self)@ }),
    {
        let ghost before = self@;
        self.logs.push(log);
        assert(self@.logs =~= before.logs.push(log@));
    }
}

impl Series {
    /// The series with its identity fields, its revisions and its log;
    /// lines end with `sep`.
    pub fn describe(&self, sep: &str) -> (r: String)
        requires
            self.wf(),
        ensures
            r@ == describe_series(self@, sep@),
    {
        let sv = chars_of(sep);
        let mut t = chars_of("Name : ");
        extend_chars(&mut t, &chars_of(self.name.as_str()));
        extend_chars(&mut t, &sv);
        extend_chars(&mut t, &chars_of("Title : "));
        extend_chars(&mut t, &chars_of(self.title.as_str()));
        extend_chars(&mut t, &sv);
        extend_chars(&mut t, &chars_of("Short name : "));
        extend_chars(&mut t, &chars_of(self.short_name.as_str()));
        extend_chars(&mut t, &sv);
        extend_chars(&mut t, &chars_of("Revision : "));
        extend_chars(&mut t, &decimal_chars(self.current_revision() as u64));
        extend_chars(&mut t, &sv);
        extend_chars(&mut t, &sv);
        extend_chars(&mut t, &chars_of(self.render(sep).as_str()));
        extend_chars(&mut t, &chars_of("Log :"));
        extend_chars(&mut t, &sv);
        let ghost head = t@;
        let mut i: usize = 0;
        while i < self.logs.len()
            invariant
                0 <= i <= self.logs@.len(),
                sv@ == sep@,
                t@ == head + log_lines(self@.logs.subrange(0, i as int), sep@),
            decreases self.logs@.len() - i,
        {
            let ghost w = self@.logs.subrange(0, i + 1);
            assert(w.drop_last() == self@.logs.subrange(0, i as int));
            assert(w.last() == self.logs@[i as int]@);
            extend_chars(&mut t, &chars_of(self.logs[i].entry.as_str()));
            extend_chars(&mut t, &sv);
            i = i + 1;
        }
        assert(self@.logs.subrange(0, self.logs@.len() as int) == self@.logs);
        assert(t@ =~= describe_series(self@, sep@));
        string_of(t.as_slice())
    }
}

/// The stored contents after `k` revisions are added to a series that has
/// none: `add_revision` appends one empty content each time.
pub open spec fn after_additions(k: nat) -> Seq<Seq<char>>
    decreases k,
{
    if k == 0 {
        Seq::empty()
    } else {
        after_additions((k - 1) as nat).push(Seq::empty())
    }
}

/// After `k` additions to a new series the current revision is `k + 1`, and
/// exactly the revisions numbered 2 to `k + 1` can be reached.
pub proof fn lemma_revisions_after_additions(k: nat)
    ensures
        after_additions(k).len() + 1 == k + 1,
        forall|n: int| revision_exists(after_additions(k).len(), n) <==> 2 <= n <= k + 1,
    decreases k,
{
    if k > 0 {
        lemma_revisions_after_additions((k - 1) as nat);
    }
}

/// Revisions 0 and 1 have no stored content, so deleting them leaves a
/// series, and its current revision, as they are.
pub proof fn lemma_delete_below_two(len: nat, n: int)
    requires
        n < 2,
    ensures
        !revision_exists(len, n),
{
}

/// Deleting revision `m` keeps the revisions numbered below it and moves
/// every revision numbered above it down by one, its content unchanged.
pub proof fn lemma_delete_shifts(contents: Seq<Seq<char>>, m: int)
    requires
        revision_exists(contents.len(), m),
    ensures
        contents.remove(m - 2).len() + 1 == contents.len(),
        forall|n: int| 2 <= n < m ==> #[trigger] contents.remove(m - 2)[n - 2] == contents[n - 2],
        forall|n: int| m < n < contents.len() + 2 ==> #[trigger] contents.remove(m - 2)[n - 3] == contents[n - 2],
{
}

/// A valid short name has no white space around it.
pub proof fn lemma_short_name_trimmed(t: Seq<char>)
    requires
        valid_short_name(t),
    ensures
        trimmed(t) == t,
{
    assert(is_name_char(t[0]));
    assert(!is_ws(t[0]));
    assert(trim_front(t) == t);
    assert(t.last() == t[t.len() - 1]);
    assert(is_name_char(t.last()));
    assert(!is_ws(t.last()));
}

} // verus!
