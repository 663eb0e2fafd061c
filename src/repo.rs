//! The series of one registered repository, and what identifies that
//! repository.

use vstd::prelude::*;
use crate::error::{GitError, GitErrorCode};
use crate::series::{valid_name, valid_title, Series, SeriesModel};
use crate::text::{chars_eq, chars_of, str_eq, trimmed};

verus! {

/// Version written into the stored data.
pub open spec fn spec_project_version() -> Seq<char> {
    "0.1.0"@
}

/// Version written into the stored data.
pub fn project_version() -> (r: String)
    ensures
        r@ == spec_project_version(),
{
    "0.1.0".to_owned()
}

/// What the last component of a path is, as `std::path` reads it.
pub uninterp spec fn last_component_of(path: Seq<char>) -> Option<Seq<char>>;

/// Relies on `std::path::Path::components`: the last component of a path,
/// if it has any.
#[verifier::external_body]
fn last_component(path: &str) -> (r: Option<String>)
    ensures
        r is Some <==> last_component_of(path@) is Some,
        r matches Some(c) ==> last_component_of(path@) == Some(c@),
{
    std::path::Path::new(path).components().last().map(|c| c.as_os_str().to_string_lossy().to_string())
}

/// A registered repository: its name and the absolute path of its root.
#[derive(Clone)]
pub struct RepoMetadata {
    name: String,
    path: String,
}

impl View for RepoMetadata {
    type V = (Seq<char>, Seq<char>);

    closed spec fn view(&self) -> (Seq<char>, Seq<char>) {
        (self.name@, self.path@)
    }
}

impl RepoMetadata {
    /// A repository named `name` whose root is at `path`, which the caller
    /// has made absolute.
    pub fn new(name: &str, path: &str) -> (r: Self)
        ensures
            r@ == (name@, path@),
    {
        Self { name: name.to_owned(), path: path.to_owned() }
    }

    pub fn name(&self) -> (r: &str)
        ensures
            r@ == self@.0,
    {
        self.name.as_str()
    }

    /// The name of the root directory: the last component of the path, empty
    /// when the path has none.
    pub fn dirname(&self) -> (r: String)
        ensures
            r@ == match last_component_of(self@.1) {
                Some(c) => c,
                None => Seq::<char>::empty(),
            },
    {
        match last_component(self.path.as_str()) {
            Some(c) => c,
            None => String::new(),
        }
    }

    pub fn path(&self) -> (r: &str)
        ensures
            r@ == self@.1,
    {
        self.path.as_str()
    }

    /// Whether two records name the same repository at the same place.
    pub fn same(&self, other: &RepoMetadata) -> (r: bool)
        ensures
            r == (self@ == other@),
    {
        chars_eq(&chars_of(self.name.as_str()), &chars_of(other.name.as_str()))
            && chars_eq(&chars_of(self.path.as_str()), &chars_of(other.path.as_str()))
    }
}

/// The series of a repository.
pub struct Repo {
    version: String,
    series: Vec<Series>,
}

impl View for Repo {
    type V = Seq<Series>;

    closed spec fn view(&self) -> Seq<Series> {
        self.series@
    }
}

/// No two series share a name.
pub open spec fn names_unique(s: Seq<Series>) -> bool {
    forall|a: int, b: int| 0 <= a < b < s.len() ==> (#[trigger] s[a])@.name != (#[trigger] s[b])@.name
}

/// The index of the first series named `name`, if any.
pub open spec fn series_index(s: Seq<Series>, name: Seq<char>) -> Option<int>
    decreases s.len(),
{
    if s.len() == 0 {
        None
    } else {
        match series_index(s.drop_last(), name) {
            Some(i) => Some(i),
            None => if s.last()@.name == name { Some(s.len() - 1) } else { None },
        }
    }
}

/// Whether a series named `name` is among `s`.
pub open spec fn has_series(s: Seq<Series>, name: Seq<char>) -> bool {
    exists|i: int| 0 <= i < s.len() && (#[trigger] s[i])@.name == name
}

pub proof fn lemma_series_index(s: Seq<Series>, name: Seq<char>)
    ensures
        series_index(s, name) is Some <==> has_series(s, name),
        series_index(s, name) matches Some(i) ==> 0 <= i < s.len() && s[i]@.name == name
            && forall|k: int| 0 <= k < i ==> (#[trigger] s[k])@.name != name,
    decreases s.len(),
{
    if s.len() > 0 {
        let t = s.drop_last();
        lemma_series_index(t, name);
        if has_series(s, name) {
            let i = choose|i: int| 0 <= i < s.len() && (#[trigger] s[i])@.name == name;
            if i < s.len() - 1 {
                assert(t[i] == s[i]);
            }
        }
        if has_series(t, name) {
            let i = choose|i: int| 0 <= i < t.len() && (#[trigger] t[i])@.name == name;
            assert(s[i] == t[i]);
        }
        assert forall|k: int| 0 <= k < t.len() implies t[k] == s[k] by {}
    }
}

impl Repo {
    /// Every series is well formed.
    pub open spec fn wf(&self) -> bool {
        &&& forall|i: int| 0 <= i < self@.len() ==> (#[trigger] self@[i]).wf()
        &&& names_unique(self@)
    }

    pub fn new() -> (r: Self)
        ensures
            r.wf(),
            r@ == Seq::<Series>::empty(),
            r.spec_version() == spec_project_version(),
    {
        Self { version: project_version(), series: Vec::new() }
    }

    /// A repository's series as they were stored; none when two share a
    /// name.
    pub fn restore(version: &str, series: Vec<Series>) -> (r: Option<Self>)
        requires
            forall|i: int| 0 <= i < series@.len() ==> (#[trigger] series@[i]).wf(),
        ensures
            r is Some <==> names_unique(series@),
            r matches Some(repo) ==> repo.wf() && repo@ == series@ && repo.spec_version() == version@,
    {
        let mut i: usize = 0;
        while i < series.len()
            invariant
                0 <= i <= series@.len(),
                forall|a: int, b: int| 0 <= a < b < series@.len() && a < i ==> (#[trigger] series@[a])@.name
                    != (#[trigger] series@[b])@.name,
            decreases series@.len() - i,
        {
            let mut j: usize = i + 1;
            while j < series.len()
                invariant
                    i < series@.len(),
                    i + 1 <= j <= series@.len(),
                    forall|a: int, b: int| 0 <= a < b < series@.len() && a < i ==> (#[trigger] series@[a])@.name
                        != (#[trigger] series@[b])@.name,
                    forall|b: int| i < b < j ==> series@[i as int]@.name != (#[trigger] series@[b])@.name,
                decreases series@.len() - j,
            {
                if str_eq(series[i].name(), series[j].name()) {
                    assert(!names_unique(series@));
                    return None;
                }
                j = j + 1;
            }
            i = i + 1;
        }
        Some(Self { version: version.to_owned(), series })
    }

    pub fn series(&self) -> (r: &[Series])
        ensures
            r@ == self@,
    {
        self.series.as_slice()
    }

    /// The index of the series named `name`.
    fn find_index(&self, name: &str) -> (r: Option<usize>)
        ensures
            r matches Some(i) ==> series_index(self@, name@) == Some(i as int),
            r is None ==> series_index(self@, name@) is None,
    {
        proof {
            lemma_series_index(self@, name@);
        }
        let n = chars_of(name);
        let mut i: usize = 0;
        while i < self.series.len()
            invariant
                0 <= i <= self@.len(),
                n@ == name@,
                series_index(self@, name@) is Some <==> has_series(self@, name@),
                series_index(self@, name@) matches Some(j) ==> 0 <= j < self@.len() && self@[j]@.name == name@
                    && forall|k: int| 0 <= k < j ==> (#[trigger] self@[k])@.name != name@,
                forall|k: int| 0 <= k < i ==> (#[trigger] self@[k])@.name != name@,
            decreases self@.len() - i,
        {
            if chars_eq(&chars_of(self.series[i].name()), &n) {
                assert(has_series(self@, name@));
                return Some(i);
            }
            i = i + 1;
        }
        None
    }

    /// Adds a new series; the name must be valid and not in use, the title
    /// valid, and the short name, when given, valid. The cover letter, when
    /// given, becomes the series' cover letter.
    pub fn add_series(
        &mut self,
        name: &str,
        title: &str,
        short_name: Option<&str>,
        cv_skel: Option<&str>,
    ) -> (r: Result<(), GitError>)
        requires
            old(self).wf(),
        ensures
            final(self).wf(),
            r is Ok <==> valid_name(trimmed(name@)) && valid_title(trimmed(title@))
                && !has_series(old(self)@, trimmed(name@))
                && (short_name matches Some(sn) ==> (trimmed(sn@).len() == 0
                    || crate::series::valid_short_name(trimmed(sn@)))),
            r is Ok ==> {
                &&& final(self)@.len() == old(self)@.len() + 1
                &&& final(self)@.drop_last() == old(self)@
                &&& final(self)@.last()@ == (SeriesModel {
                    name: trimmed(name@),
                    title: trimmed(title@),
                    cover_letter: match cv_skel { Some(c) => trimmed(c@), None => Seq::empty() },
                    short_name: match short_name { Some(sn) => trimmed(sn@), None => Seq::empty() },
                    cc: Seq::empty(),
                    contents: Seq::empty(),
                    logs: Seq::empty(),
                })
            },
            r matches Err(e) ==> final(self)@ == old(self)@ && (
                if !(valid_name(trimmed(name@)) && valid_title(trimmed(title@))) {
                    e.spec_code() == GitErrorCode::FailedToCreateSeries
                } else if has_series(old(self)@, trimmed(name@)) {
                    e.spec_code() == GitErrorCode::SeriesAlreadyExists
                } else {
                    e.spec_code() == GitErrorCode::StringFormatError
                }),
    {
        let Some(mut series) = Series::new(name, title) else {
            return Err(GitError::new(GitErrorCode::FailedToCreateSeries, "Invalid inputs".to_owned()));
        };
        proof {
            lemma_series_index(self@, trimmed(name@));
        }
        if self.find_index(series.name()).is_some() {
            return Err(GitError::new(GitErrorCode::SeriesAlreadyExists, "Series already exists".to_owned()));
        }
        if let Some(s) = short_name {
            series.set_short_name(s)?;
        }
        if let Some(s) = cv_skel {
            let _ = series.set_cover_letter(s);
        }
        let ghost before = self@;
        self.series.push(series);
        assert(self@.drop_last() =~= before);
        Ok(())
    }

    /// Deletes the series named `name`; an unknown name is an error.
    pub fn delete_series(&mut self, name: &str) -> (r: Result<(), GitError>)
        requires
            old(self).wf(),
        ensures
            final(self).wf(),
            r is Ok <==> has_series(old(self)@, name@),
            r is Ok ==> final(self)@ == without_series(old(self)@, name@),
            r matches Err(e) ==> final(self)@ == old(self)@ && e.spec_code() == GitErrorCode::UnknownSeries,
    {
        let ghost all = self@;
        let total = self.series.len();
        let n = chars_of(name);
        let mut found = false;
        let mut i: usize = 0;
        let mut j: usize = 0;
        assert(all.subrange(0, 0) =~= Seq::<Series>::empty());
        assert(all.subrange(0, all.len() as int) == all);
        while i < self.series.len()
            invariant
                0 <= i <= j <= all.len(),
                all.len() == total,
                n@ == name@,
                self@.len() - i == all.len() - j,
                self@ == without_series(all.subrange(0, j as int), name@) + all.subrange(j as int, all.len() as int),
                without_series(all.subrange(0, j as int), name@).len() == i,
                found <==> has_series(all.subrange(0, j as int), name@),
                !found ==> without_series(all.subrange(0, j as int), name@) == all.subrange(0, j as int),
                forall|k: int| 0 <= k < all.len() ==> (#[trigger] all[k]).wf(),
                forall|k: int| 0 <= k < self@.len() ==> (#[trigger] self@[k]).wf(),
                names_unique(self@),
            decreases all.len() - j,
        {
            assert(j < all.len());
            let ghost pre = all.subrange(0, j as int);
            let ghost next = all.subrange(0, j + 1);
            assert(next.drop_last() == pre);
            assert(next.last() == all[j as int]);
            assert(self@[i as int] == all[j as int]);
            let hit = chars_eq(&chars_of(self.series[i].name()), &n);
            proof {
                if has_series(pre, name@) {
                    let k = choose|k: int| 0 <= k < pre.len() && (#[trigger] pre[k])@.name == name@;
                    assert(next[k] == pre[k]);
                }
                if has_series(next, name@) {
                    let k = choose|k: int| 0 <= k < next.len() && (#[trigger] next[k])@.name == name@;
                    if k < pre.len() {
                        assert(pre[k] == next[k]);
                    }
                }
                if hit {
                    assert(next[j as int]@.name == name@);
                }
            }
            if hit {
                let ghost before = self@;
                self.series.remove(i);
                proof {
                    assert forall|a: int, b: int| 0 <= a < b < self@.len() implies (#[trigger] self@[a])@.name
                        != (#[trigger] self@[b])@.name by {
                        let a2 = if a < i { a } else { a + 1 };
                        let b2 = if b < i { b } else { b + 1 };
                        assert(self@[a] == before[a2]);
                        assert(self@[b] == before[b2]);
                        assert(before[a2]@.name != before[b2]@.name);
                    }
                }
                found = true;
                assert(self@ =~= without_series(next, name@) + all.subrange(j + 1, all.len() as int));
            } else {
                i = i + 1;
                assert(self@ =~= without_series(next, name@) + all.subrange(j + 1, all.len() as int));
            }
            j = j + 1;
        }
        assert(all.subrange(all.len() as int, all.len() as int) =~= Seq::<Series>::empty());
        assert(self@ =~= without_series(all, name@));
        if !found {
            return Err(GitError::new(GitErrorCode::UnknownSeries, "The series does not exist in this repo".to_owned()));
        }
        Ok(())
    }

    /// The first series named `name`.
    pub fn get_series_by_name(&self, name: &str) -> (r: Option<&Series>)
        ensures
            r is Some <==> has_series(self@, name@),
            r is None ==> series_index(self@, name@) is None,
            r matches Some(s) ==> (series_index(self@, name@) matches Some(i) && *s == self@[i]),
    {
        proof {
            lemma_series_index(self@, name@);
        }
        match self.find_index(name) {
            Some(i) => Some(&self.series[i]),
            None => None,
        }
    }

    /// The first series named `name`, to change.
    pub fn get_series_by_name_mut(&mut self, name: &str) -> (r: Option<&mut Series>)
        ensures
            r is Some <==> has_series(old(self)@, name@),
            r is None ==> series_index(old(self)@, name@) is None && *final(self) == *old(self),
            final(self).spec_version() == old(self).spec_version(),
            r matches Some(s) ==> (series_index(old(self)@, name@) matches Some(i) && *s == old(self)@[i]
                && final(self)@ == old(self)@.update(i, *final(s))),
    {
        proof {
            lemma_series_index(self@, name@);
        }
        match self.find_index(name) {
            Some(i) => {
                let s = &mut self.series[i];
                Some(s)
            },
            None => None,
        }
    }

    pub closed spec fn spec_version(&self) -> Seq<char> {
        self.version@
    }

    pub fn version(&self) -> (r: &str)
        ensures
            r@ == self.spec_version(),
    {
        self.version.as_str()
    }
}

/// The series whose name is not `name`, in order.
pub open spec fn without_series(s: Seq<Series>, name: Seq<char>) -> Seq<Series>
    decreases s.len(),
{
    if s.len() == 0 {
        s
    } else if s.last()@.name == name {
        without_series(s.drop_last(), name)
    } else {
        without_series(s.drop_last(), name).push(s.last())
    }
}

/// A registered repository with its series.
pub struct RepoData {
    repo: Repo,
    meta: RepoMetadata,
}

impl RepoData {
    pub closed spec fn spec_repo(&self) -> Repo {
        self.repo
    }

    pub closed spec fn spec_meta(&self) -> RepoMetadata {
        self.meta
    }

    pub fn new(meta: RepoMetadata, repo: Repo) -> (r: Self)
        ensures
            r.spec_repo() == repo,
            r.spec_meta() == meta,
    {
        Self { repo, meta }
    }

    pub fn repo(&self) -> (r: &Repo)
        ensures
            *r == self.spec_repo(),
    {
        &self.repo
    }

    pub fn repo_mut(&mut self) -> (r: &mut Repo)
        ensures
            *r == old(self).spec_repo(),
            final(self).spec_repo() == *final(r),
            final(self).spec_meta() == old(self).spec_meta(),
    {
        &mut self.repo
    }

    pub fn meta(&self) -> (r: &RepoMetadata)
        ensures
            *r == self.spec_meta(),
    {
        &self.meta
    }
}

} // verus!
