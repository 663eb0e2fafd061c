//! What the user keeps between runs: the configuration, the mailing lists,
//! the registered repositories and the series of the current one.

use vstd::prelude::*;
use crate::error::{UserDataError, UserDataErrorCode};
use crate::input::{email_valid, is_valid_email};
use crate::repo::{spec_project_version, project_version, Repo, RepoData, RepoMetadata};
use crate::text::{alnum, chars_eq, chars_of, is_alnum, opt_as_str, opt_seq, opt_str, opt_to_string};

verus! {

/// The user's settings, each possibly unset.
#[derive(Clone)]
pub struct UserConfig {
    editor: Option<String>,
    send_command: Option<String>,
    from_email: Option<String>,
    smtp_server: Option<String>,
    smtp_user: Option<String>,
    smtp_port: Option<u16>,
    smtp_encryption: Option<String>,
    cv_skel: Option<String>,
}

/// The user's settings, as values.
pub struct ConfigModel {
    pub editor: Option<Seq<char>>,
    pub send_command: Option<Seq<char>>,
    pub from_email: Option<Seq<char>>,
    pub smtp_server: Option<Seq<char>>,
    pub smtp_user: Option<Seq<char>>,
    pub smtp_port: Option<u16>,
    pub smtp_encryption: Option<Seq<char>>,
    pub cv_skel: Option<Seq<char>>,
}

impl View for UserConfig {
    type V = ConfigModel;

    closed spec fn view(&self) -> ConfigModel {
        ConfigModel {
            editor: opt_seq(self.editor),
            send_command: opt_seq(self.send_command),
            from_email: opt_seq(self.from_email),
            smtp_server: opt_seq(self.smtp_server),
            smtp_user: opt_seq(self.smtp_user),
            smtp_port: self.smtp_port,
            smtp_encryption: opt_seq(self.smtp_encryption),
            cv_skel: opt_seq(self.cv_skel),
        }
    }
}

impl UserConfig {
    /// Nothing set.
    pub fn new() -> (r: Self)
        ensures
            r@ == (ConfigModel {
                editor: None,
                send_command: None,
                from_email: None,
                smtp_server: None,
                smtp_user: None,
                smtp_port: None,
                smtp_encryption: None,
                cv_skel: None,
            }),
    {
        Self {
            editor: None,
            send_command: None,
            from_email: None,
            smtp_server: None,
            smtp_user: None,
            smtp_port: None,
            smtp_encryption: None,
            cv_skel: None,
        }
    }

    pub fn editor(&self) -> (r: Option<&str>)
        ensures
            opt_str(r) == self@.editor,
    {
        opt_as_str(&self.editor)
    }

    pub fn set_editor(&mut self, editor: &str)
        ensures
            final(self)@ == (ConfigModel { editor: Some(editor@), ..old(self)@ }),
    {
        self.editor = Some(editor.to_owned());
    }

    pub fn send_command(&self) -> (r: Option<&str>)
        ensures
            opt_str(r) == self@.send_command,
    {
        opt_as_str(&self.send_command)
    }

    pub fn set_send_command(&mut self, send_command: Option<&str>)
        ensures
            final(self)@ == (ConfigModel { send_command: opt_str(send_command), ..old(self)@ }),
    {
        self.send_command = opt_to_string(send_command);
    }

    pub fn from_email(&self) -> (r: Option<&str>)
        ensures
            opt_str(r) == self@.from_email,
    {
        opt_as_str(&self.from_email)
    }

    pub fn set_from_email(&mut self, from_email: &str)
        ensures
            final(self)@ == (ConfigModel { from_email: Some(from_email@), ..old(self)@ }),
    {
        self.from_email = Some(from_email.to_owned());
    }

    pub fn smtp_server(&self) -> (r: Option<&str>)
        ensures
            opt_str(r) == self@.smtp_server,
    {
        opt_as_str(&self.smtp_server)
    }

    pub fn set_smtp_server(&mut self, smtp_server: Option<&str>)
        ensures
            final(self)@ == (ConfigModel { smtp_server: opt_str(smtp_server), ..old(self)@ }),
    {
        self.smtp_server = opt_to_string(smtp_server);
    }

    pub fn smtp_user(&self) -> (r: Option<&str>)
        ensures
            opt_str(r) == self@.smtp_user,
    {
        opt_as_str(&self.smtp_user)
    }

    pub fn set_smtp_user(&mut self, smtp_user: Option<&str>)
        ensures
            final(self)@ == (ConfigModel { smtp_user: opt_str(smtp_user), ..old(self)@ }),
    {
        self.smtp_user = opt_to_string(smtp_user);
    }

    pub fn smtp_port(&self) -> (r: Option<u16>)
        ensures
            r == self@.smtp_port,
    {
        self.smtp_port
    }

    pub fn set_smtp_port(&mut self, smtp_port: Option<u16>)
        ensures
            final(self)@ == (ConfigModel { smtp_port, ..old(self)@ }),
    {
        self.smtp_port = smtp_port;
    }

    pub fn smtp_encryption(&self) -> (r: Option<&str>)
        ensures
            opt_str(r) == self@.smtp_encryption,
    {
        opt_as_str(&self.smtp_encryption)
    }

    pub fn set_smtp_encryption(&mut self, smtp_encryption: Option<&str>)
        ensures
            final(self)@ == (ConfigModel { smtp_encryption: opt_str(smtp_encryption), ..old(self)@ }),
    {
        self.smtp_encryption = opt_to_string(smtp_encryption);
    }

    pub fn cv_skel(&self) -> (r: Option<&str>)
        ensures
            opt_str(r) == self@.cv_skel,
    {
        opt_as_str(&self.cv_skel)
    }

    pub fn set_cv_skel(&mut self, cv_skel: Option<&str>)
        ensures
            final(self)@ == (ConfigModel { cv_skel: opt_str(cv_skel), ..old(self)@ }),
    {
        self.cv_skel = opt_to_string(cv_skel);
    }
}

/// The words that `shlex::split` makes of a text, none when it is
/// malformed.
pub uninterp spec fn shell_words(s: Seq<char>) -> Option<Seq<Seq<char>>>;

/// Relies on `shlex::split`: the text split into words as a POSIX shell
/// does, none when a quote or an escape is left open.
#[verifier::external_body]
fn shell_split(s: &str) -> (r: Option<Vec<String>>)
    ensures
        r is None <==> shell_words(s@) is None,
        r matches Some(v) ==> shell_words(s@) == Some(v@.map_values(|w: String| w@)),
{
    shlex::split(s)
}

/// The program, the first word, and its arguments, the others; none
/// without any word.
pub fn editor_program(words: Vec<String>) -> (r: Option<(String, Vec<String>)>)
    ensures
        r is Some <==> words@.len() >= 1,
        r matches Some(p) ==> p.0@ == words@[0]@
            && p.1@.map_values(|x: String| x@) == words@.map_values(|x: String| x@).drop_first(),
{
    if words.len() < 1 {
        return None;
    }
    let mut rest = words;
    let ghost all = rest@;
    let program = rest.remove(0);
    assert(rest@.map_values(|x: String| x@) =~= all.map_values(|x: String| x@).drop_first());
    Some((program, rest))
}

/// The editor's program and its arguments, from the configured command.
pub fn extract_editor_args(editor: &str) -> (r: Option<(String, Vec<String>)>)
    ensures
        r is Some <==> (shell_words(editor@) matches Some(w) && w.len() >= 1),
        r matches Some(p) ==> (shell_words(editor@) matches Some(w) && p.0@ == w[0]
            && p.1@.map_values(|x: String| x@) == w.drop_first()),
{
    match shell_split(editor) {
        Some(words) => editor_program(words),
        None => None,
    }
}

/// A mailing list name: one to twenty letters, digits or `_`.
pub open spec fn valid_list_name(s: Seq<char>) -> bool {
    1 <= s.len() <= 20 && forall|i: int| 0 <= i < s.len() ==> is_alnum(#[trigger] s[i]) || s[i] == '_'
}

/// A named mailing list address.
pub struct MailingList {
    name: String,
    email: String,
}

impl View for MailingList {
    type V = (Seq<char>, Seq<char>);

    closed spec fn view(&self) -> (Seq<char>, Seq<char>) {
        (self.name@, self.email@)
    }
}

impl MailingList {
    /// A list with a valid address and a valid name.
    pub fn new(name: &str, email: &str) -> (r: Option<Self>)
        ensures
            r is Some <==> email_valid(email@) && valid_list_name(name@),
            r matches Some(l) ==> l@ == (name@, email@),
    {
        if !is_valid_email(email) {
            return None;
        }
        let n = chars_of(name);
        if n.len() < 1 || n.len() > 20 {
            return None;
        }
        let mut i: usize = 0;
        while i < n.len()
            invariant
                0 <= i <= n@.len(),
                n@ == name@,
                forall|k: int| 0 <= k < i ==> is_alnum(#[trigger] n@[k]) || n@[k] == '_',
            decreases n@.len() - i,
        {
            if !(alnum(n[i]) || n[i] == '_') {
                return None;
            }
            i = i + 1;
        }
        Some(MailingList { name: name.to_owned(), email: email.to_owned() })
    }

    pub fn name(&self) -> (r: &str)
        ensures
            r@ == self@.0,
    {
        self.name.as_str()
    }

    pub fn email(&self) -> (r: &str)
        ensures
            r@ == self@.1,
    {
        self.email.as_str()
    }
}

/// The index of the list named `name`, if any.
pub open spec fn list_index(ls: Seq<MailingList>, name: Seq<char>) -> Option<int> {
    if exists|i: int| 0 <= i < ls.len() && (#[trigger] ls[i])@.0 == name {
        Some(choose|i: int| 0 <= i < ls.len() && (#[trigger] ls[i])@.0 == name)
    } else {
        None
    }
}

/// Whether a repository with this name or this path is among `rs`.
pub open spec fn repo_known(rs: Seq<RepoMetadata>, name: Seq<char>, path: Seq<char>) -> bool {
    exists|i: int| 0 <= i < rs.len() && ((#[trigger] rs[i])@.0 == name || rs[i]@.1 == path)
}

/// The user's data file: configuration, lists and repositories.
pub struct RootFile {
    version: String,
    user_config: UserConfig,
    lists: Vec<MailingList>,
    repos: Vec<RepoMetadata>,
}

impl RootFile {
    pub closed spec fn spec_version(&self) -> Seq<char> {
        self.version@
    }

    pub closed spec fn spec_config(&self) -> UserConfig {
        self.user_config
    }

    /// The mailing lists, in the order they were added.
    pub closed spec fn spec_lists(&self) -> Seq<MailingList> {
        self.lists@
    }

    pub closed spec fn spec_repos(&self) -> Seq<RepoMetadata> {
        self.repos@
    }

    /// No two lists share a name.
    pub open spec fn wf(&self) -> bool {
        forall|i: int, j: int|
            0 <= i < j < self.spec_lists().len() ==> (#[trigger] self.spec_lists()[i])@.0
                != (#[trigger] self.spec_lists()[j])@.0
    }

    pub fn new() -> (r: Self)
        ensures
            r.wf(),
            r.spec_version() == spec_project_version(),
            r.spec_config()@ == UserConfig::new_model(),
            r.spec_lists().len() == 0,
            r.spec_repos().len() == 0,
    {
        Self { version: project_version(), user_config: UserConfig::new(), lists: Vec::new(), repos: Vec::new() }
    }

    /// Rebuilds a root file from stored parts; lists with a name already
    /// seen are left out.
    pub fn from_parts(version: &str, user_config: UserConfig, lists: Vec<MailingList>, repos: Vec<RepoMetadata>) -> (r: Self)
        ensures
            r.wf(),
            r.spec_version() == version@,
            r.spec_config() == user_config,
            r.spec_repos() == repos@,
    {
        let mut r = Self { version: version.to_owned(), user_config, lists: Vec::new(), repos };
        let mut rest = lists;
        while rest.len() > 0
            invariant
                r.wf(),
                r.spec_version() == version@,
                r.spec_config() == user_config,
                r.spec_repos() == repos@,
            decreases rest@.len(),
        {
            let l = rest.remove(0);
            if r.find_list(l.name.as_str()).is_none() {
                let ghost before = r.lists@;
                r.lists.push(l);
                assert(r.lists@ == before.push(l));
            }
        }
        r
    }

    /// The registered repository whose root is at `root_path`.
    pub fn find_repo_by_path(&self, root_path: &str) -> (r: Option<&RepoMetadata>)
        ensures
            r is Some <==> exists|i: int| 0 <= i < self.spec_repos().len() && (#[trigger] self.spec_repos()[i])@.1 == root_path@,
            r matches Some(m) ==> m@.1 == root_path@ && self.spec_repos().contains(*m),
    {
        let p = chars_of(root_path);
        let mut i: usize = 0;
        while i < self.repos.len()
            invariant
                0 <= i <= self.repos@.len(),
                p@ == root_path@,
                forall|k: int| 0 <= k < i ==> (#[trigger] self.repos@[k])@.1 != root_path@,
            decreases self.repos@.len() - i,
        {
            if chars_eq(&chars_of(self.repos[i].path()), &p) {
                assert(self.spec_repos()[i as int] == self.repos@[i as int]);
                return Some(&self.repos[i]);
            }
            i = i + 1;
        }
        None
    }

    /// Whether a repository with this name or this root is registered.
    fn repo_exists(&self, name: &str, path: &str) -> (r: bool)
        ensures
            r == repo_known(self.spec_repos(), name@, path@),
    {
        let n = chars_of(name);
        let p = chars_of(path);
        let mut i: usize = 0;
        while i < self.repos.len()
            invariant
                0 <= i <= self.repos@.len(),
                n@ == name@,
                p@ == path@,
                forall|k: int| 0 <= k < i ==> (#[trigger] self.repos@[k])@.0 != name@ && self.repos@[k]@.1 != path@,
            decreases self.repos@.len() - i,
        {
            if chars_eq(&chars_of(self.repos[i].name()), &n) || chars_eq(&chars_of(self.repos[i].path()), &p) {
                assert(self.spec_repos()[i as int] == self.repos@[i as int]);
                return true;
            }
            i = i + 1;
        }
        false
    }

    /// Registers the repository `name` found at `path`. `root` is the root of
    /// the repository that holds `path`, none when `path` is in no
    /// repository. A name or a path already registered is refused.
    pub fn register_repo(&mut self, name: &str, path: &str, root: Option<&str>) -> (r: Result<RepoMetadata, UserDataError>)
        requires
            old(self).wf(),
        ensures
            final(self).wf(),
            final(self).spec_version() == old(self).spec_version(),
            final(self).spec_config() == old(self).spec_config(),
            final(self).spec_lists() == old(self).spec_lists(),
            repo_known(old(self).spec_repos(), name@, path@) ==> (r matches Err(e)
                && e.spec_code() == UserDataErrorCode::RepoAlreadyExists),
            !repo_known(old(self).spec_repos(), name@, path@) && root is None ==> (r matches Err(e)
                && e.spec_code() == UserDataErrorCode::NotAGitRepo),
            r is Err ==> final(self).spec_repos() == old(self).spec_repos(),
            r is Ok <==> !repo_known(old(self).spec_repos(), name@, path@) && root is Some,
            r matches Ok(m) ==> (root matches Some(p) && m@ == (name@, p@)
                && final(self).spec_repos().len() == old(self).spec_repos().len() + 1
                && final(self).spec_repos().drop_last() == old(self).spec_repos()
                && final(self).spec_repos().last()@ == m@),
    {
        if self.repo_exists(name, path) {
            return Err(UserDataError::new(UserDataErrorCode::RepoAlreadyExists));
        }
        let Some(root) = root else {
            return Err(UserDataError::new(UserDataErrorCode::NotAGitRepo));
        };
        let ghost before = self.repos@;
        self.repos.push(RepoMetadata::new(name, root));
        assert(self.repos@.drop_last() =~= before);
        assert(self.spec_lists() == old(self).spec_lists());
        Ok(RepoMetadata::new(name, root))
    }

    /// Forgets the repositories named `name`; an unknown name is an error.
    pub fn delete_repo(&mut self, name: &str) -> (r: Result<(), UserDataError>)
        requires
            old(self).wf(),
        ensures
            final(self).wf(),
            final(self).spec_version() == old(self).spec_version(),
            final(self).spec_config() == old(self).spec_config(),
            final(self).spec_lists() == old(self).spec_lists(),
            r is Ok <==> exists|i: int| 0 <= i < old(self).spec_repos().len() && (#[trigger] old(self).spec_repos()[i])@.0 == name@,
            r is Ok ==> final(self).spec_repos() == without_repo(old(self).spec_repos(), name@),
            r matches Err(e) ==> final(self).spec_repos() == old(self).spec_repos()
                && e.spec_code() == UserDataErrorCode::RepoDoesNotExist,
    {
        let ghost all = self.repos@;
        let total = self.repos.len();
        let n = chars_of(name);
        let mut found = false;
        let mut i: usize = 0;
        let mut j: usize = 0;
        assert(all.subrange(0, 0) =~= Seq::<RepoMetadata>::empty());
        assert(all.subrange(0, all.len() as int) == all);
        while i < self.repos.len()
            invariant
                0 <= i <= j <= all.len(),
                all.len() == total,
                all == old(self).repos@,
                old(self).wf(),
                n@ == name@,
                self.repos@.len() - i == all.len() - j,
                self.repos@ == without_repo(all.subrange(0, j as int), name@) + all.subrange(j as int, all.len() as int),
                without_repo(all.subrange(0, j as int), name@).len() == i,
                found <==> exists|k: int| 0 <= k < j && (#[trigger] all[k])@.0 == name@,
                !found ==> without_repo(all.subrange(0, j as int), name@) == all.subrange(0, j as int),
                self.version == old(self).version,
                self.user_config == old(self).user_config,
                self.lists == old(self).lists,
            decreases all.len() - j,
        {
            assert(j < all.len());
            let ghost pre = all.subrange(0, j as int);
            let ghost next = all.subrange(0, j + 1);
            assert(next.drop_last() == pre);
            assert(self.repos@[i as int] == all[j as int]);
            let hit = chars_eq(&chars_of(self.repos[i].name()), &n);
            if hit {
                assert(all[j as int]@.0 == name@);
                self.repos.remove(i);
                found = true;
                assert(self.repos@ =~= without_repo(next, name@) + all.subrange(j + 1, all.len() as int));
            } else {
                i = i + 1;
                assert(self.repos@ =~= without_repo(next, name@) + all.subrange(j + 1, all.len() as int));
            }
            j = j + 1;
        }
        assert(j == all.len());
        assert(all.subrange(all.len() as int, all.len() as int) =~= Seq::<RepoMetadata>::empty());
        assert(self.repos@ =~= without_repo(all, name@));
        assert(self.spec_lists() == old(self).spec_lists());
        proof {
            let o = old(self).spec_repos();
            assert(o == all);
            if found {
                let k = choose|k: int| 0 <= k < j && (#[trigger] all[k])@.0 == name@;
                assert(o[k]@.0 == name@);
            }
            if exists|k: int| 0 <= k < o.len() && (#[trigger] o[k])@.0 == name@ {
                let k = choose|k: int| 0 <= k < o.len() && (#[trigger] o[k])@.0 == name@;
                assert(all[k]@.0 == name@);
            }
        }
        if !found {
            return Err(UserDataError::new(UserDataErrorCode::RepoDoesNotExist));
        }
        Ok(())
    }

    pub fn repos(&self) -> (r: &[RepoMetadata])
        ensures
            r@ == self.spec_repos(),
    {
        self.repos.as_slice()
    }

    pub fn config(&self) -> (r: &UserConfig)
        ensures
            *r == self.spec_config(),
    {
        &self.user_config
    }

    pub fn config_mut(&mut self) -> (r: &mut UserConfig)
        requires
            old(self).wf(),
        ensures
            *r == old(self).spec_config(),
            final(self).spec_config() == *final(r),
            final(self).spec_version() == old(self).spec_version(),
            final(self).spec_lists() == old(self).spec_lists(),
            final(self).spec_repos() == old(self).spec_repos(),
            final(self).wf(),
    {
        &mut self.user_config
    }

    /// The index of the list named `name`.
    fn find_list(&self, name: &str) -> (r: Option<usize>)
        ensures
            r matches Some(i) ==> i < self.spec_lists().len() && self.spec_lists()[i as int]@.0 == name@,
            r is None ==> forall|k: int| 0 <= k < self.spec_lists().len() ==> (#[trigger] self.spec_lists()[k])@.0 != name@,
    {
        let n = chars_of(name);
        let mut i: usize = 0;
        while i < self.lists.len()
            invariant
                0 <= i <= self.lists@.len(),
                n@ == name@,
                forall|k: int| 0 <= k < i ==> (#[trigger] self.lists@[k])@.0 != name@,
            decreases self.lists@.len() - i,
        {
            if chars_eq(&chars_of(self.lists[i].name()), &n) {
                return Some(i);
            }
            i = i + 1;
        }
        None
    }

    /// Adds a mailing list; its name must be new, valid, and its address
    /// valid.
    pub fn add_mailing_list(&mut self, name: &str, email: &str) -> (r: Result<(), UserDataError>)
        requires
            old(self).wf(),
        ensures
            final(self).wf(),
            final(self).spec_version() == old(self).spec_version(),
            final(self).spec_config() == old(self).spec_config(),
            final(self).spec_repos() == old(self).spec_repos(),
            list_index(old(self).spec_lists(), name@) is Some ==> (r matches Err(e)
                && e.spec_code() == UserDataErrorCode::ListAlreadyExists),
            list_index(old(self).spec_lists(), name@) is None && !(email_valid(email@) && valid_list_name(name@))
                ==> (r matches Err(e) && e.spec_code() == UserDataErrorCode::InputError),
            r is Ok <==> list_index(old(self).spec_lists(), name@) is None && email_valid(email@) && valid_list_name(name@),
            r is Ok ==> final(self).spec_lists().len() == old(self).spec_lists().len() + 1
                && final(self).spec_lists().drop_last() == old(self).spec_lists()
                && final(self).spec_lists().last()@ == (name@, email@),
            r is Err ==> final(self).spec_lists() == old(self).spec_lists(),
    {
        if let Some(i) = self.find_list(name) {
            assert(self.spec_lists()[i as int]@.0 == name@);
            return Err(UserDataError::new(UserDataErrorCode::ListAlreadyExists));
        }
        if let Some(list) = MailingList::new(name, email) {
            let ghost before = self.lists@;
            self.lists.push(list);
            assert(self.lists@.drop_last() =~= before);
            Ok(())
        } else {
            Err(UserDataError::new_with_message(
                UserDataErrorCode::InputError,
                "The list cannot be created, the address format must be valid and the name must be an alphanumeric string".to_owned(),
            ))
        }
    }

    /// Removes the list named `name`; an unknown name is an error.
    pub fn delete_mailing_list(&mut self, name: &str) -> (r: Result<(), UserDataError>)
        requires
            old(self).wf(),
        ensures
            final(self).wf(),
            final(self).spec_version() == old(self).spec_version(),
            final(self).spec_config() == old(self).spec_config(),
            final(self).spec_repos() == old(self).spec_repos(),
            r is Ok <==> list_index(old(self).spec_lists(), name@) is Some,
            r is Ok ==> (list_index(old(self).spec_lists(), name@) matches Some(i)
                && final(self).spec_lists() == old(self).spec_lists().remove(i)),
            r matches Err(e) ==> final(self).spec_lists() == old(self).spec_lists()
                && e.spec_code() == UserDataErrorCode::ListDoesNotExist,
    {
        match self.find_list(name) {
            Some(i) => {
                proof {
                    let ls = self.spec_lists();
                    let j = choose|j: int| 0 <= j < ls.len() && (#[trigger] ls[j])@.0 == name@;
                    if j != i {
                        if j < i {
                            assert(ls[j]@.0 != ls[i as int]@.0);
                        } else {
                            assert(ls[i as int]@.0 != ls[j]@.0);
                        }
                    }
                }
                self.lists.remove(i);
                Ok(())
            },
            None => Err(UserDataError::new(UserDataErrorCode::ListDoesNotExist)),
        }
    }

    /// The list named `name`.
    pub fn find_mailing_list(&self, name: &str) -> (r: Option<&MailingList>)
        ensures
            r is Some <==> list_index(self.spec_lists(), name@) is Some,
            r matches Some(l) ==> l@.0 == name@ && self.spec_lists().contains(*l),
    {
        match self.find_list(name) {
            Some(i) => {
                assert(self.spec_lists()[i as int]@.0 == name@);
                Some(&self.lists[i])
            },
            None => None,
        }
    }

    /// The mailing lists, in the order they were added.
    pub fn lists(&self) -> (r: &[MailingList])
        ensures
            r@ == self.spec_lists(),
    {
        self.lists.as_slice()
    }

    pub fn version(&self) -> (r: &str)
        ensures
            r@ == self.spec_version(),
    {
        self.version.as_str()
    }
}

impl UserConfig {
    /// Nothing set, as values.
    pub open spec fn new_model() -> ConfigModel {
        ConfigModel {
            editor: None,
            send_command: None,
            from_email: None,
            smtp_server: None,
            smtp_user: None,
            smtp_port: None,
            smtp_encryption: None,
            cv_skel: None,
        }
    }
}

/// The repositories not named `name`, in order.
pub open spec fn without_repo(s: Seq<RepoMetadata>, name: Seq<char>) -> Seq<RepoMetadata>
    decreases s.len(),
{
    if s.len() == 0 {
        s
    } else if s.last()@.0 == name {
        without_repo(s.drop_last(), name)
    } else {
        without_repo(s.drop_last(), name).push(s.last())
    }
}

/// The user's data in one run: the root file and, when the working
/// directory is in a registered repository, that repository's series.
pub struct UserData {
    root_file: RootFile,
    repo: Option<RepoData>,
}

impl UserData {
    pub closed spec fn spec_root(&self) -> RootFile {
        self.root_file
    }

    pub closed spec fn spec_repo(&self) -> Option<RepoData> {
        self.repo
    }

    /// The root file is well formed and so is the current repository.
    pub open spec fn wf(&self) -> bool {
        &&& self.spec_root().wf()
        &&& (self.spec_repo() matches Some(r) ==> r.spec_repo().wf())
    }

    /// The data of a run, from what was read.
    pub fn new(root_file: RootFile, repo: Option<RepoData>) -> (r: Self)
        ensures
            r.spec_root() == root_file,
            r.spec_repo() == repo,
    {
        Self { root_file, repo }
    }

    /// Registers a repository (see `RootFile::register_repo`) and makes it
    /// the current one, with no series.
    pub fn register_repo(&mut self, name: &str, path: &str, root: Option<&str>) -> (r: Result<(), UserDataError>)
        requires
            old(self).wf(),
        ensures
            final(self).wf(),
            r is Ok <==> !repo_known(old(self).spec_root().spec_repos(), name@, path@) && root is Some,
            repo_known(old(self).spec_root().spec_repos(), name@, path@) ==> (r matches Err(e)
                && e.spec_code() == UserDataErrorCode::RepoAlreadyExists),
            !repo_known(old(self).spec_root().spec_repos(), name@, path@) && root is None ==> (r matches Err(e)
                && e.spec_code() == UserDataErrorCode::NotAGitRepo),
            r is Err ==> final(self).spec_repo() == old(self).spec_repo()
                && final(self).spec_root().spec_repos() == old(self).spec_root().spec_repos(),
            r is Ok ==> (root matches Some(p) && final(self).spec_repo() matches Some(d)
                && d.spec_meta()@ == (name@, p@) && d.spec_repo()@.len() == 0
                && final(self).spec_root().spec_repos().last()@ == (name@, p@)
                && final(self).spec_root().spec_repos().drop_last() == old(self).spec_root().spec_repos()),
    {
        match self.root_file.register_repo(name, path, root) {
            Ok(meta) => {
                self.repo = Some(RepoData::new(meta, Repo::new()));
                Ok(())
            },
            Err(e) => Err(e),
        }
    }

    /// Forgets the repository named `name` and leaves no current one.
    pub fn delete_repo(&mut self, name: &str) -> (r: Result<(), UserDataError>)
        requires
            old(self).wf(),
        ensures
            final(self).wf(),
            r is Ok <==> exists|i: int| 0 <= i < old(self).spec_root().spec_repos().len()
                && (#[trigger] old(self).spec_root().spec_repos()[i])@.0 == name@,
            r is Ok ==> final(self).spec_repo() is None
                && final(self).spec_root().spec_repos() == without_repo(old(self).spec_root().spec_repos(), name@),
            r matches Err(e) ==> final(self).spec_repo() == old(self).spec_repo()
                && final(self).spec_root().spec_repos() == old(self).spec_root().spec_repos()
                && e.spec_code() == UserDataErrorCode::RepoDoesNotExist,
    {
        self.root_file.delete_repo(name)?;
        self.repo = None;
        Ok(())
    }

    pub fn repos(&self) -> (r: &[RepoMetadata])
        ensures
            r@ == self.spec_root().spec_repos(),
    {
        self.root_file.repos()
    }

    pub fn repo(&self) -> (r: Option<&RepoData>)
        ensures
            r matches Some(d) ==> self.spec_repo() == Some(*d),
            r is None <==> self.spec_repo() is None,
    {
        self.repo.as_ref()
    }

    pub fn repo_mut(&mut self) -> (r: Option<&mut RepoData>)
        ensures
            r is None <==> old(self).spec_repo() is None,
            r is None ==> *final(self) == *old(self),
            r matches Some(d) ==> (old(self).spec_repo() == Some(*d)
                && final(self).spec_repo() == Some(*final(d))
                && final(self).spec_root() == old(self).spec_root()),
    {
        match &mut self.repo {
            Some(d) => Some(d),
            None => None,
        }
    }

    pub fn config(&self) -> (r: &UserConfig)
        ensures
            *r == self.spec_root().spec_config(),
    {
        self.root_file.config()
    }

    pub fn config_mut(&mut self) -> (r: &mut UserConfig)
        requires
            old(self).wf(),
        ensures
            *r == old(self).spec_root().spec_config(),
            final(self).spec_root().spec_config() == *final(r),
            final(self).spec_root().spec_lists() == old(self).spec_root().spec_lists(),
            final(self).spec_root().spec_repos() == old(self).spec_root().spec_repos(),
            final(self).spec_repo() == old(self).spec_repo(),
            final(self).wf(),
    {
        self.root_file.config_mut()
    }

    /// Adds a mailing list (see `RootFile::add_mailing_list`).
    pub fn add_mailing_list(&mut self, name: &str, email: &str) -> (r: Result<(), UserDataError>)
        requires
            old(self).wf(),
        ensures
            final(self).wf(),
            final(self).spec_repo() == old(self).spec_repo(),
            r is Ok <==> list_index(old(self).spec_root().spec_lists(), name@) is None && email_valid(email@)
                && valid_list_name(name@),
            r is Ok ==> final(self).spec_root().spec_lists().drop_last() == old(self).spec_root().spec_lists()
                && final(self).spec_root().spec_lists().last()@ == (name@, email@),
            r is Err ==> final(self).spec_root().spec_lists() == old(self).spec_root().spec_lists(),
    {
        self.root_file.add_mailing_list(name, email)
    }

    /// Removes a mailing list (see `RootFile::delete_mailing_list`).
    pub fn delete_mailing_list(&mut self, name: &str) -> (r: Result<(), UserDataError>)
        requires
            old(self).wf(),
        ensures
            final(self).wf(),
            final(self).spec_repo() == old(self).spec_repo(),
            r is Ok <==> list_index(old(self).spec_root().spec_lists(), name@) is Some,
            r is Err ==> final(self).spec_root().spec_lists() == old(self).spec_root().spec_lists(),
    {
        self.root_file.delete_mailing_list(name)
    }

    pub fn find_mailing_list(&self, name: &str) -> (r: Option<&MailingList>)
        ensures
            r is Some <==> list_index(self.spec_root().spec_lists(), name@) is Some,
            r matches Some(l) ==> l@.0 == name@ && self.spec_root().spec_lists().contains(*l),
    {
        self.root_file.find_mailing_list(name)
    }

    pub fn root_file(&self) -> (r: &RootFile)
        ensures
            *r == self.spec_root(),
    {
        &self.root_file
    }
}

} // verus!
