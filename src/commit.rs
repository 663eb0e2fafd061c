//! Commits as the library sees them: their ids, the trailer kinds, and the
//! trailer edits of a commit message.

use vstd::prelude::*;
use crate::error::{GitError, GitErrorCode};
use crate::input::{commit_hash_valid, valid_commit_hash};
use crate::text::{
    lemma_lines_append, lemma_lines_no_nl, lemma_split_extend, lemma_split_sep, lines_of_pieces, chars_eq, chars_of, chars_start_with, extend_chars, lines_chars, lines_of,
    split_on, starts_with, string_of, strip_cr, views_of,
};

verus! {

/// A hexadecimal digit written in lower case.
pub open spec fn hex_lower(c: char) -> char {
    if c == 'A' { 'a' }
    else if c == 'B' { 'b' }
    else if c == 'C' { 'c' }
    else if c == 'D' { 'd' }
    else if c == 'E' { 'e' }
    else if c == 'F' { 'f' }
    else { c }
}

fn to_hex_lower(c: char) -> (r: char)
    ensures
        r == hex_lower(c),
{
    if c == 'A' { 'a' }
    else if c == 'B' { 'b' }
    else if c == 'C' { 'c' }
    else if c == 'D' { 'd' }
    else if c == 'E' { 'e' }
    else if c == 'F' { 'f' }
    else { c }
}

/// The id of a commit: forty hexadecimal digits, kept in lower case.
#[derive(Debug, Clone)]
pub struct CommitId {
    hex: Vec<char>,
}

impl View for CommitId {
    type V = Seq<char>;

    closed spec fn view(&self) -> Seq<char> {
        self.hex@
    }
}

impl CommitId {
    /// Reads a full commit hash; anything but forty hexadecimal digits is
    /// refused.
    pub fn new(hex: &str) -> (r: Result<Self, GitError>)
        ensures
            r is Ok <==> valid_commit_hash(hex@),
            r matches Ok(id) ==> id@ == hex@.map_values(|c: char| hex_lower(c)),
            r matches Err(e) ==> e.spec_code() == GitErrorCode::StringFormatError,
    {
        if !commit_hash_valid(hex) {
            return Err(GitError::new(GitErrorCode::StringFormatError, "Invalid commit hash".to_owned()));
        }
        let c = chars_of(hex);
        let mut v: Vec<char> = Vec::new();
        let mut i: usize = 0;
        while i < c.len()
            invariant
                0 <= i <= c@.len(),
                c@ == hex@,
                v@ == c@.subrange(0, i as int).map_values(|c: char| hex_lower(c)),
            decreases c@.len() - i,
        {
            let x = c[i];
            let y = to_hex_lower(x);
            v.push(y);
            proof {
                assert(c@.subrange(0, i + 1).map_values(|c: char| hex_lower(c)) =~= c@.subrange(
                    0,
                    i as int,
                ).map_values(|c: char| hex_lower(c)).push(hex_lower(x)));
            }
            i = i + 1;
        }
        assert(c@.subrange(0, c@.len() as int) == c@);
        Ok(Self { hex: v })
    }

    /// The id as forty lower-case hexadecimal digits.
    pub fn to_hex(&self) -> (r: String)
        ensures
            r@ == self@,
    {
        string_of(self.hex.as_slice())
    }

    /// Whether two ids name the same commit.
    pub fn same(&self, other: &CommitId) -> (r: bool)
        ensures
            r == (self@ == other@),
    {
        chars_eq(&self.hex, &other.hex)
    }
}

/// The kind of a trailer line.
#[derive(Debug, Clone)]
pub enum CommitTag {
    ReviewedBy,
    SignedOffBy,
    Custom(String),
}

impl CommitTag {
    /// The name of the trailer as it is written in a message.
    pub open spec fn spec_text(&self) -> Seq<char> {
        match self {
            CommitTag::ReviewedBy => "Reviewed-by"@,
            CommitTag::SignedOffBy => "Signed-off-by"@,
            CommitTag::Custom(s) => s@,
        }
    }

    /// The trailer for a short name: `rb` and `so` are the well-known ones,
    /// anything else is taken as it is.
    pub fn from_mnemonic(value: &str) -> (r: Self)
        ensures
            value@ == "rb"@ ==> r is ReviewedBy,
            value@ == "so"@ ==> r is SignedOffBy,
            value@ != "rb"@ && value@ != "so"@ ==> (r matches CommitTag::Custom(s) && s@ == value@),
    {
        proof {
            reveal_strlit("rb");
            reveal_strlit("so");
            assert("so"@[0] != "rb"@[0]);
        }
        let v = chars_of(value);
        if chars_eq(&v, &chars_of("rb")) {
            CommitTag::ReviewedBy
        } else if chars_eq(&v, &chars_of("so")) {
            CommitTag::SignedOffBy
        } else {
            CommitTag::Custom(value.to_owned())
        }
    }

    /// A trailer of the same kind and name.
    pub fn from_text(tag: &CommitTag) -> (r: Self)
        ensures
            r == *tag,
    {
        match tag {
            CommitTag::ReviewedBy => CommitTag::ReviewedBy,
            CommitTag::SignedOffBy => CommitTag::SignedOffBy,
            CommitTag::Custom(s) => CommitTag::Custom(s.clone()),
        }
    }

    /// The name of the trailer as it is written in a message.
    pub fn text(&self) -> (r: String)
        ensures
            r@ == self.spec_text(),
    {
        match self {
            CommitTag::ReviewedBy => "Reviewed-by".to_owned(),
            CommitTag::SignedOffBy => "Signed-off-by".to_owned(),
            CommitTag::Custom(s) => s.clone(),
        }
    }
}

/// The view of an optional text.
pub open spec fn opt_view(o: Option<&str>) -> Option<Seq<char>> {
    match o {
        Some(v) => Some(v@),
        None => None,
    }
}

/// A trailer line: the tag's name, then `": "` and the value when there is
/// one.
pub open spec fn trailer(tag: CommitTag, value: Option<Seq<char>>) -> Seq<char> {
    match value {
        Some(v) => tag.spec_text() + ": "@ + v,
        None => tag.spec_text(),
    }
}

/// Builds a trailer line.
pub fn prepare_tag(tag: &CommitTag, tag_value: Option<&str>) -> (r: String)
    ensures
        r@ == trailer(*tag, opt_view(tag_value)),
{
    let mut t = chars_of(tag.text().as_str());
    if let Some(v) = tag_value {
        extend_chars(&mut t, &chars_of(": "));
        extend_chars(&mut t, &chars_of(v));
    }
    string_of(t.as_slice())
}

/// The message with a trailer line added after the separator `sep`, or none
/// when one of its lines is already exactly that trailer.
pub open spec fn with_trailer(message: Seq<char>, line: Seq<char>, sep: Seq<char>) -> Option<Seq<char>> {
    if lines_of(message).contains(line) {
        None
    } else {
        Some(message + sep + line)
    }
}

/// The line separators that are written: `"\n"`, or `"\r\n"` on the
/// platforms that use it.
pub open spec fn valid_sep(sep: Seq<char>) -> bool {
    sep == seq!['\n'] || sep == seq!['\r', '\n']
}

/// The message that adding a trailer gives: none when the message already
/// holds that exact line, so that the commit stays as it is. The trailer
/// follows the separator `sep`.
pub fn add_tag_message(message: &str, tag: &CommitTag, tag_value: Option<&str>, sep: &str) -> (r: Option<String>)
    ensures
        r matches Some(m) ==> with_trailer(message@, trailer(*tag, opt_view(tag_value)), sep@) == Some(m@),
        r is None ==> with_trailer(message@, trailer(*tag, opt_view(tag_value)), sep@) is None,
{
    let full = chars_of(prepare_tag(tag, tag_value).as_str());
    let m = chars_of(message);
    let ls = lines_chars(&m);
    let ghost v = views_of(ls@);
    let mut i: usize = 0;
    while i < ls.len()
        invariant
            0 <= i <= ls@.len(),
            v == views_of(ls@),
            v == lines_of(message@),
            m@ == message@,
            full@ == trailer(*tag, opt_view(tag_value)),
            forall|k: int| 0 <= k < i ==> v[k] != full@,
        decreases ls@.len() - i,
    {
        if chars_eq(&ls[i], &full) {
            assert(v[i as int] == full@);
            assert(v.contains(full@));
            return None;
        }
        i = i + 1;
    }
    let mut out = m;
    extend_chars(&mut out, &chars_of(sep));
    extend_chars(&mut out, &full);
    Some(string_of(out.as_slice()))
}

/// What `str::to_lowercase` makes of a text.
pub uninterp spec fn lower_of(s: Seq<char>) -> Seq<char>;

/// Relies on `str::to_lowercase`: the lower-case form of a text, which
/// depends on its characters alone.
#[verifier::external_body]
fn lowercase(s: &str) -> (r: String)
    ensures
        r@ == lower_of(s@),
{
    s.to_lowercase()
}

/// Whether a line, already in lower case, is taken out: it equals the
/// lower-case trailer, or, for `prefix`, begins with it.
pub open spec fn line_dropped(line_lower: Seq<char>, key_lower: Seq<char>, prefix: bool) -> bool {
    if prefix {
        starts_with(line_lower, key_lower)
    } else {
        line_lower == key_lower
    }
}

/// The lines that are kept, each followed by the separator `sep`.
pub open spec fn kept_text(ls: Seq<Seq<char>>, key_lower: Seq<char>, prefix: bool, sep: Seq<char>) -> Seq<char>
    decreases ls.len(),
{
    if ls.len() == 0 {
        Seq::empty()
    } else {
        kept_text(ls.drop_last(), key_lower, prefix, sep) + if line_dropped(lower_of(ls.last()), key_lower, prefix) {
            Seq::<char>::empty()
        } else {
            ls.last() + sep
        }
    }
}

/// Decides, on lower-case texts, whether a line stays in the message.
pub fn keep_line(line_lower: &str, key_lower: &str, prefix: bool) -> (r: bool)
    ensures
        r == !line_dropped(line_lower@, key_lower@, prefix),
{
    let l = chars_of(line_lower);
    let k = chars_of(key_lower);
    if prefix {
        !chars_start_with(&l, &k)
    } else {
        !chars_eq(&l, &k)
    }
}

/// The message without the lines that match a trailer, compared without
/// regard to case: lines equal to it, or for `prefix` lines that begin with
/// it.
fn filter_message(message: &str, key: &str, prefix: bool, sep: &str) -> (r: String)
    ensures
        r@ == kept_text(lines_of(message@), lower_of(key@), prefix, sep@),
{
    let sv = chars_of(sep);
    let key_lower = lowercase(key);
    let ls = lines_chars(&chars_of(message));
    let ghost v = views_of(ls@);
    let mut out: Vec<char> = Vec::new();
    let mut i: usize = 0;
    while i < ls.len()
        invariant
            0 <= i <= ls@.len(),
            v == views_of(ls@),
            v == lines_of(message@),
            key_lower@ == lower_of(key@),
            sv@ == sep@,
            out@ == kept_text(v.subrange(0, i as int), lower_of(key@), prefix, sep@),
        decreases ls@.len() - i,
    {
        let line = string_of(ls[i].as_slice());
        let lowered = lowercase(line.as_str());
        proof {
            let w = v.subrange(0, i + 1);
            assert(w.drop_last() == v.subrange(0, i as int));
            assert(w.last() == ls@[i as int]@);
        }
        if keep_line(lowered.as_str(), key_lower.as_str(), prefix) {
            extend_chars(&mut out, &ls[i]);
            extend_chars(&mut out, &sv);
        }
        i = i + 1;
    }
    assert(v.subrange(0, ls@.len() as int) == v);
    string_of(out.as_slice())
}

/// The message without the lines equal to the trailer, without regard to
/// case; the other lines are kept, each followed by the separator `sep`.
pub fn remove_tag_message(message: &str, tag: &CommitTag, tag_value: Option<&str>, sep: &str) -> (r: String)
    ensures
        r@ == kept_text(
            lines_of(message@),
            lower_of(trailer(*tag, opt_view(tag_value))),
            false,
            sep@,
        ),
{
    let full = prepare_tag(tag, tag_value);
    filter_message(message, full.as_str(), false, sep)
}

/// The message without the lines that begin with `"<tag>: "`, without regard
/// to case; the other lines are kept, each followed by the separator `sep`.
pub fn remove_tag_all_message(message: &str, tag: &CommitTag, sep: &str) -> (r: String)
    ensures
        r@ == kept_text(lines_of(message@), lower_of(tag.spec_text() + ": "@), true, sep@),
{
    let full = prepare_tag(tag, Some(""));
    proof {
        reveal_strlit("");
        assert(tag.spec_text() + ": "@ + ""@ =~= tag.spec_text() + ": "@);
    }
    filter_message(message, full.as_str(), true, sep)
}

/// Adding a trailer twice gives what adding it once gives: the second
/// addition finds the line and leaves the message, and so the commit, as
/// they are. The trailer is one non-empty line.
pub proof fn lemma_add_trailer_idempotent(message: Seq<char>, line: Seq<char>, sep: Seq<char>)
    requires
        !line.contains('\n'),
        line.len() > 0,
        valid_sep(sep),
    ensures
        with_trailer(
            match with_trailer(message, line, sep) {
                Some(m) => m,
                None => message,
            },
            line,
            sep,
        ) is None,
{
    if with_trailer(message, line, sep) is Some {
        if sep == seq!['\n'] {
            lemma_lines_append(message, line);
        } else {
            let m = message.push('\r');
            lemma_lines_append(m, line);
            assert(m + seq!['\n'] + line =~= message + sep + line);
        }
    }
}

/// The lines that stay in a message, in order.
pub open spec fn kept_lines(ls: Seq<Seq<char>>, key_lower: Seq<char>, prefix: bool) -> Seq<Seq<char>>
    decreases ls.len(),
{
    if ls.len() == 0 {
        Seq::empty()
    } else {
        kept_lines(ls.drop_last(), key_lower, prefix) + if line_dropped(lower_of(ls.last()), key_lower, prefix) {
            Seq::<Seq<char>>::empty()
        } else {
            seq![ls.last()]
        }
    }
}

/// How many times a line occurs.
pub open spec fn count_line(ls: Seq<Seq<char>>, x: Seq<char>) -> nat
    decreases ls.len(),
{
    if ls.len() == 0 {
        0
    } else {
        count_line(ls.drop_last(), x) + if ls.last() == x { 1nat } else { 0nat }
    }
}

proof fn lemma_count_absent(ls: Seq<Seq<char>>, x: Seq<char>)
    requires
        forall|i: int| 0 <= i < ls.len() ==> ls[i] != x,
    ensures
        count_line(ls, x) == 0,
    decreases ls.len(),
{
    if ls.len() > 0 {
        let t = ls.drop_last();
        assert forall|i: int| 0 <= i < t.len() implies t[i] != x by {
            assert(t[i] == ls[i]);
        }
        lemma_count_absent(t, x);
        assert(ls.last() == ls[ls.len() - 1]);
    }
}

proof fn lemma_no_nl_concat(a: Seq<char>, b: Seq<char>)
    requires
        !a.contains('\n'),
        !b.contains('\n'),
    ensures
        !(a + b).contains('\n'),
{
    if (a + b).contains('\n') {
        let k = choose|k: int| 0 <= k < (a + b).len() && (a + b)[k] == '\n';
        if k < a.len() {
            assert(a[k] == '\n');
        } else {
            assert(b[k - a.len()] == '\n');
        }
    }
}

proof fn lemma_kept_text_split(ls: Seq<Seq<char>>, key_lower: Seq<char>, prefix: bool, sep: Seq<char>)
    requires
        forall|i: int| 0 <= i < ls.len() ==> !(#[trigger] ls[i]).contains('\n'),
        sep.len() > 0,
        sep.last() == '\n',
        !sep.drop_last().contains('\n'),
    ensures
        split_on(kept_text(ls, key_lower, prefix, sep), '\n') == kept_lines(ls, key_lower, prefix).map_values(
            |k: Seq<char>| k + sep.drop_last(),
        ).push(Seq::<char>::empty()),
        forall|i: int| 0 <= i < kept_lines(ls, key_lower, prefix).len() ==> {
            let k = #[trigger] kept_lines(ls, key_lower, prefix)[i];
            &&& !k.contains('\n')
            &&& !line_dropped(lower_of(k), key_lower, prefix)
        },
    decreases ls.len(),
{
    let d = sep.drop_last();
    if ls.len() == 0 {
        assert(kept_text(ls, key_lower, prefix, sep) =~= Seq::<char>::empty());
        assert(kept_lines(ls, key_lower, prefix).map_values(|k: Seq<char>| k + d) =~= Seq::<Seq<char>>::empty());
        assert(split_on(Seq::<char>::empty(), '\n') =~= Seq::<Seq<char>>::empty().push(Seq::<char>::empty()));
    } else {
        let t = ls.drop_last();
        assert forall|i: int| 0 <= i < t.len() implies !(#[trigger] t[i]).contains('\n') by {
            assert(t[i] == ls[i]);
        }
        lemma_kept_text_split(t, key_lower, prefix, sep);
        let a = kept_text(t, key_lower, prefix, sep);
        let kl = kept_lines(t, key_lower, prefix);
        let x = kl.map_values(|k: Seq<char>| k + d);
        let l = ls.last();
        assert(l == ls[ls.len() - 1]);
        if line_dropped(lower_of(l), key_lower, prefix) {
            assert(kept_text(ls, key_lower, prefix, sep) =~= a);
            assert(kept_lines(ls, key_lower, prefix) =~= kl);
        } else {
            assert(sep =~= d.push('\n'));
            assert(kept_text(ls, key_lower, prefix, sep) =~= (a + (l + d)) + seq!['\n']);
            assert(kept_lines(ls, key_lower, prefix) =~= kl.push(l));
            assert(kept_lines(ls, key_lower, prefix).map_values(|k: Seq<char>| k + d) =~= x.push(l + d));
            lemma_no_nl_concat(l, d);
            lemma_split_extend(a, l + d, '\n');
            assert(x.push(Seq::<char>::empty()).update(x.len() as int, Seq::<char>::empty() + (l + d)) =~= x.push(l + d));
            lemma_split_sep(a + (l + d), '\n');
            assert forall|i: int| 0 <= i < kept_lines(ls, key_lower, prefix).len() implies {
                let k = #[trigger] kept_lines(ls, key_lower, prefix)[i];
                &&& !k.contains('\n')
                &&& !line_dropped(lower_of(k), key_lower, prefix)
            } by {
                if i < kl.len() {
                    assert(kept_lines(ls, key_lower, prefix)[i] == kl[i]);
                }
            }
        }
    }
}

/// Removing every trailer of a kind and then adding one such trailer
/// leaves exactly one line equal to it. The trailer is one non-empty line,
/// and lower-casing keeps the kind's prefix at the start of the trailer,
/// also when a carriage return follows it.
pub proof fn lemma_remove_all_then_add(message: Seq<char>, key: Seq<char>, line: Seq<char>, sep: Seq<char>)
    requires
        starts_with(lower_of(line), lower_of(key)),
        starts_with(lower_of(line.push('\r')), lower_of(key)),
        !line.contains('\n'),
        line.len() > 0,
        valid_sep(sep),
    ensures
        with_trailer(kept_text(lines_of(message), lower_of(key), true, sep), line, sep) matches Some(m)
            && count_line(lines_of(m), line) == 1,
{
    let d = sep.drop_last();
    assert(sep.last() == '\n');
    assert(!d.contains('\n')) by {
        if d.contains('\n') {
            let k = choose|k: int| 0 <= k < d.len() && d[k] == '\n';
            assert(sep[k] == d[k]);
        }
    }
    let ls = lines_of(message);
    lemma_lines_no_nl(message);
    lemma_kept_text_split(ls, lower_of(key), true, sep);
    let m1 = kept_text(ls, lower_of(key), true, sep);
    let kl = kept_lines(ls, lower_of(key), true);
    let p = split_on(m1, '\n');
    assert(p.last().len() == 0);
    let sl = p.drop_last().map_values(|l: Seq<char>| strip_cr(l));
    assert(lines_of(m1) == sl);
    assert forall|i: int| 0 <= i < sl.len() implies #[trigger] sl[i] != line by {
        let k = kl[i];
        assert(p[i] == k + d);
        assert(!line_dropped(lower_of(k), lower_of(key), true));
        if sl[i] == line {
            if sep == seq!['\n'] {
                assert(k + d =~= k);
                if k.len() > 0 && k.last() == '\r' {
                    assert(k =~= line.push('\r'));
                } else {
                    assert(k == line);
                }
            } else {
                assert(d =~= seq!['\r']);
                assert((k + d).drop_last() =~= k);
                assert(k == line);
            }
        }
    }
    assert(!lines_of(m1).contains(line));
    let m2 = m1 + sep + line;
    if sep == seq!['\n'] {
        lemma_lines_append(m1, line);
        assert(lines_of_pieces(p) =~= sl.push(Seq::<char>::empty())) by {
            assert(strip_cr(Seq::<char>::empty()) == Seq::<char>::empty());
        }
        assert(lines_of(m2) == sl.push(Seq::<char>::empty()).push(line));
    } else {
        let mr = m1.push('\r');
        lemma_lines_append(mr, line);
        assert(mr + seq!['\n'] + line =~= m2);
        assert(!seq!['\r'].contains('\n')) by {
            if seq!['\r'].contains('\n') {
                let k = choose|k: int| 0 <= k < 1 && seq!['\r'][k] == '\n';
            }
        }
        lemma_split_extend(m1, seq!['\r'], '\n');
        assert(m1 + seq!['\r'] =~= mr);
        let q = split_on(mr, '\n');
        assert(q =~= p.drop_last().push(seq!['\r']));
        assert(strip_cr(seq!['\r']) =~= Seq::<char>::empty());
        assert(lines_of_pieces(q) =~= sl.push(Seq::<char>::empty()));
        assert(lines_of(m2) == sl.push(Seq::<char>::empty()).push(line));
    }
    let full = sl.push(Seq::<char>::empty()).push(line);
    assert(full.drop_last() == sl.push(Seq::<char>::empty()));
    assert(sl.push(Seq::<char>::empty()).drop_last() == sl);
    lemma_count_absent(sl, line);
    assert(count_line(sl.push(Seq::<char>::empty()), line) == 0);
    assert(count_line(full, line) == 1);
}

} // verus!
