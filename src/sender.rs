//! Sending a series by mail through git: the checks made before anything
//! runs, the arguments of `git format-patch` and `git send-email`, and the
//! cover letter filled from the series.

use vstd::prelude::*;
use crate::error::{GitError, GitErrorCode};
use crate::input::{commit_hash_valid, email_valid, is_valid_email, valid_commit_hash};
use crate::series::{render_series, Series};
use crate::text::{chars_of, decimal, decimal_chars, extend_chars, opt_as_str, opt_seq, opt_str, opt_to_string, string_of};

verus! {

/// Name of the cover letter that `git format-patch` writes.
pub const COVER_LETTER_FILE_NAME: &'static str = "0000-cover-letter.patch";

/// Placeholder of the subject in the cover letter that git writes.
pub const CV_PATCH_SUBJECT_PLACEHOLDER: &'static str = "*** SUBJECT HERE ***";

/// Placeholder of the description in the cover letter that git writes.
pub const CV_PATCH_DESCRIPTION_PLACEHOLDER: &'static str = "*** BLURB HERE ***";

/// The views of a sequence of strings.
pub open spec fn strings_view(v: Seq<String>) -> Seq<Seq<char>> {
    v.map_values(|s: String| s@)
}

/// `s` with each occurrence of `pat`, from left to right and without
/// overlap, replaced by `rep`, as `str::replace` does for a non-empty
/// pattern.
pub open spec fn replaced(s: Seq<char>, pat: Seq<char>, rep: Seq<char>) -> Seq<char>
    decreases s.len(),
{
    if pat.len() == 0 || s.len() < pat.len() {
        s
    } else if s.subrange(0, pat.len() as int) == pat {
        rep + replaced(s.subrange(pat.len() as int, s.len() as int), pat, rep)
    } else {
        seq![s[0]] + replaced(s.drop_first(), pat, rep)
    }
}

/// Whether `pat` occurs in `s` at position `i`.
fn occurs_at(s: &Vec<char>, i: usize, pat: &Vec<char>) -> (r: bool)
    requires
        i <= s@.len(),
    ensures
        r == (i + pat@.len() <= s@.len() && s@.subrange(i as int, i + pat@.len()) == pat@),
{
    let n = s.len();
    if pat.len() > n - i {
        return false;
    }
    let mut k: usize = 0;
    while k < pat.len()
        invariant
            0 <= k <= pat@.len(),
            n == s@.len(),
            i + pat@.len() <= s@.len(),
            forall|m: int| 0 <= m < k ==> s@[i + m] == pat@[m],
        decreases pat@.len() - k,
    {
        if s[i + k] != pat[k] {
            assert(s@.subrange(i as int, i + pat@.len())[k as int] != pat@[k as int]);
            return false;
        }
        k = k + 1;
    }
    assert(s@.subrange(i as int, i + pat@.len()) =~= pat@);
    true
}

/// Replaces every occurrence of a non-empty pattern.
fn replace_all(s: &str, pat: &str, rep: &str) -> (r: String)
    requires
        pat@.len() > 0,
    ensures
        r@ == replaced(s@, pat@, rep@),
{
    let c = chars_of(s);
    let p = chars_of(pat);
    let q = chars_of(rep);
    let n = c.len();
    let mut out: Vec<char> = Vec::new();
    let mut i: usize = 0;
    assert(c@.subrange(0, n as int) == c@);
    while i < n
        invariant
            0 <= i <= n,
            n == c@.len(),
            c@ == s@,
            p@ == pat@,
            q@ == rep@,
            pat@.len() > 0,
            out@ + replaced(c@.subrange(i as int, n as int), p@, q@) == replaced(s@, pat@, rep@),
        decreases n - i,
    {
        let ghost rest = c@.subrange(i as int, n as int);
        if occurs_at(&c, i, &p) {
            proof {
                assert(rest.subrange(0, p@.len() as int) == c@.subrange(i as int, i + p@.len()));
                assert(rest.subrange(p@.len() as int, rest.len() as int) == c@.subrange(i + p@.len(), n as int));
            }
            let ghost before = out@;
            extend_chars(&mut out, &q);
            assert(out@ + replaced(c@.subrange(i + p@.len(), n as int), p@, q@)
                =~= before + replaced(rest, p@, q@));
            i = i + p.len();
        } else {
            if n - i < p.len() {
                assert(replaced(rest, p@, q@) == rest);
                let ghost before = out@;
                while i < n
                    invariant
                        0 <= i <= n,
                        n == c@.len(),
                        out@ + c@.subrange(i as int, n as int) == before + rest,
                    decreases n - i,
                {
                    let ghost o = out@;
                    out.push(c[i]);
                    assert(out@ + c@.subrange(i + 1, n as int) =~= o + c@.subrange(i as int, n as int));
                    i = i + 1;
                }
                assert(c@.subrange(n as int, n as int) =~= Seq::<char>::empty());
                assert(out@ =~= before + rest);
                return string_of(out.as_slice());
            }
            proof {
                assert(rest.subrange(0, p@.len() as int) == c@.subrange(i as int, i + p@.len()));
                assert(rest.drop_first() == c@.subrange(i + 1, n as int));
            }
            let ghost before = out@;
            out.push(c[i]);
            assert(out@ + replaced(c@.subrange(i + 1, n as int), p@, q@) =~= before + replaced(rest, p@, q@));
            i = i + 1;
        }
    }
    assert(c@.subrange(n as int, n as int) =~= Seq::<char>::empty());
    assert(replaced(Seq::<char>::empty(), p@, q@) == Seq::<char>::empty());
    assert(out@ =~= out@ + Seq::<char>::empty());
    string_of(out.as_slice())
}

/// Joins two texts.
fn join2(a: &str, b: &str) -> (r: String)
    ensures
        r@ == a@ + b@,
{
    let mut v = chars_of(a);
    extend_chars(&mut v, &chars_of(b));
    string_of(v.as_slice())
}

/// One argument `prefix` + value when there is a value, none otherwise.
pub open spec fn opt_arg(prefix: Seq<char>, value: Option<Seq<char>>) -> Seq<Seq<char>> {
    match value {
        Some(v) => seq![prefix + v],
        None => Seq::empty(),
    }
}

/// Appends `prefix` + value when there is a value.
fn push_opt_arg(args: &mut Vec<String>, prefix: &str, value: Option<&str>)
    ensures
        strings_view(final(args)@) == strings_view(old(args)@) + opt_arg(prefix@, opt_str(value)),
{
    let ghost before = args@;
    if let Some(v) = value {
        args.push(join2(prefix, v));
        assert(strings_view(args@) =~= strings_view(before) + opt_arg(prefix@, opt_str(value)));
    } else {
        assert(strings_view(args@) =~= strings_view(before) + opt_arg(prefix@, opt_str(value)));
    }
}

/// How the series is sent: the sender and the optional SMTP settings.
pub struct GitPatchSender {
    from_email: String,
    send_command: Option<String>,
    smtp_server: Option<String>,
    smtp_port: Option<u16>,
    smtp_user: Option<String>,
    smtp_encryption: Option<String>,
}

/// The settings of a sender, as values.
pub struct SenderModel {
    pub from_email: Seq<char>,
    pub send_command: Option<Seq<char>>,
    pub smtp_server: Option<Seq<char>>,
    pub smtp_port: Option<u16>,
    pub smtp_user: Option<Seq<char>>,
    pub smtp_encryption: Option<Seq<char>>,
}

impl View for GitPatchSender {
    type V = SenderModel;

    closed spec fn view(&self) -> SenderModel {
        SenderModel {
            from_email: self.from_email@,
            send_command: opt_seq(self.send_command),
            smtp_server: opt_seq(self.smtp_server),
            smtp_port: self.smtp_port,
            smtp_user: opt_seq(self.smtp_user),
            smtp_encryption: opt_seq(self.smtp_encryption),
        }
    }
}

/// Collects the settings of a sender.
pub struct GitPatchSenderBuilder {
    from_email: String,
    send_command: Option<String>,
    smtp_server: Option<String>,
    smtp_port: Option<u16>,
    smtp_user: Option<String>,
    smtp_encryption: Option<String>,
}

impl View for GitPatchSenderBuilder {
    type V = SenderModel;

    closed spec fn view(&self) -> SenderModel {
        SenderModel {
            from_email: self.from_email@,
            send_command: opt_seq(self.send_command),
            smtp_server: opt_seq(self.smtp_server),
            smtp_port: self.smtp_port,
            smtp_user: opt_seq(self.smtp_user),
            smtp_encryption: opt_seq(self.smtp_encryption),
        }
    }
}

/// The port written in decimal, when there is one.
pub open spec fn port_arg(port: Option<u16>) -> Seq<Seq<char>> {
    match port {
        Some(p) => seq!["--smtp-server-port="@ + decimal(p as nat)],
        None => Seq::empty(),
    }
}

/// The arguments of `git send-email` for a sender.
pub open spec fn send_email_args_of(s: SenderModel, to: Seq<char>, out_dir: Seq<char>, cc: Option<Seq<char>>) -> Seq<Seq<char>> {
    seq!["send-email"@, "--from="@ + s.from_email, "--to="@ + to, out_dir]
        + opt_arg("--sendmail-cmd="@, s.send_command)
        + opt_arg("--smtp-user="@, s.smtp_user)
        + opt_arg("--smtp-server="@, s.smtp_server)
        + port_arg(s.smtp_port)
        + opt_arg("--smtp-encryption="@, s.smtp_encryption)
        + opt_arg("--cc="@, cc)
}

/// The subject prefix: `PATCH `, the short name and a space when there is
/// one, then `v` and the revision number.
pub open spec fn subject_prefix_of(short_name: Seq<char>, revision: nat) -> Seq<char> {
    "--subject-prefix=PATCH "@ + (if short_name.len() > 0 { short_name + seq![' '] } else { Seq::empty() })
        + seq!['v'] + decimal(revision)
}

/// The arguments of `git format-patch`.
pub open spec fn format_patch_args_of(
    short_name: Seq<char>,
    revision: nat,
    out_dir: Seq<char>,
    first: Seq<char>,
    last: Seq<char>,
) -> Seq<Seq<char>> {
    seq![
        "format-patch"@,
        "--cover-letter"@,
        "-n"@,
        "-o"@,
        out_dir,
        subject_prefix_of(short_name, revision),
        first + ".."@ + last,
    ]
}

impl GitPatchSenderBuilder {
    fn new(from_email: &str) -> (r: Self)
        ensures
            r@ == (SenderModel {
                from_email: from_email@,
                send_command: None,
                smtp_server: None,
                smtp_port: None,
                smtp_user: None,
                smtp_encryption: None,
            }),
    {
        Self {
            from_email: from_email.to_owned(),
            send_command: None,
            smtp_server: None,
            smtp_port: None,
            smtp_user: None,
            smtp_encryption: None,
        }
    }

    pub fn set_send_command(&mut self, send_command: &str)
        ensures
            final(self)@ == (SenderModel { send_command: Some(send_command@), ..old(self)@ }),
    {
        self.send_command = Some(send_command.to_owned());
    }

    pub fn set_smtp_server(&mut self, smtp_server: &str)
        ensures
            final(self)@ == (SenderModel { smtp_server: Some(smtp_server@), ..old(self)@ }),
    {
        self.smtp_server = Some(smtp_server.to_owned());
    }

    pub fn set_smtp_port(&mut self, smtp_port: u16)
        ensures
            final(self)@ == (SenderModel { smtp_port: Some(smtp_port), ..old(self)@ }),
    {
        self.smtp_port = Some(smtp_port);
    }

    pub fn set_smtp_user(&mut self, smtp_user: &str)
        ensures
            final(self)@ == (SenderModel { smtp_user: Some(smtp_user@), ..old(self)@ }),
    {
        self.smtp_user = Some(smtp_user.to_owned());
    }

    pub fn set_smtp_encryption(&mut self, smtp_encryption: &str)
        ensures
            final(self)@ == (SenderModel { smtp_encryption: Some(smtp_encryption@), ..old(self)@ }),
    {
        self.smtp_encryption = Some(smtp_encryption.to_owned());
    }

    pub fn build(&self) -> (r: GitPatchSender)
        ensures
            r@ == self@,
    {
        GitPatchSender::new(
            self.from_email.as_str(),
            opt_as_str(&self.send_command),
            opt_as_str(&self.smtp_server),
            self.smtp_port,
            opt_as_str(&self.smtp_user),
            opt_as_str(&self.smtp_encryption),
        )
    }
}

impl GitPatchSender {
    fn new(
        from_email: &str,
        send_command: Option<&str>,
        smtp_server: Option<&str>,
        smtp_port: Option<u16>,
        smtp_user: Option<&str>,
        smtp_encryption: Option<&str>,
    ) -> (r: Self)
        ensures
            r@ == (SenderModel {
                from_email: from_email@,
                send_command: opt_str(send_command),
                smtp_server: opt_str(smtp_server),
                smtp_port,
                smtp_user: opt_str(smtp_user),
                smtp_encryption: opt_str(smtp_encryption),
            }),
    {
        Self {
            from_email: from_email.to_owned(),
            send_command: opt_to_string(send_command),
            smtp_server: opt_to_string(smtp_server),
            smtp_port,
            smtp_user: opt_to_string(smtp_user),
            smtp_encryption: opt_to_string(smtp_encryption),
        }
    }

    /// A builder with the sender's address and nothing else set.
    pub fn builder(from_email: &str) -> (r: GitPatchSenderBuilder)
        ensures
            r@ == (SenderModel {
                from_email: from_email@,
                send_command: None,
                smtp_server: None,
                smtp_port: None,
                smtp_user: None,
                smtp_encryption: None,
            }),
    {
        GitPatchSenderBuilder::new(from_email)
    }

    /// Checks what is sent before anything runs: both commits must be full
    /// hashes, and both addresses valid.
    pub fn check(&self, to_email: &str, first_commit: &str, last_commit: &str) -> (r: Result<(), GitError>)
        ensures
            r is Ok <==> valid_commit_hash(first_commit@) && valid_commit_hash(last_commit@)
                && email_valid(self@.from_email) && email_valid(to_email@),
            r matches Err(e) ==> e.spec_code() == GitErrorCode::StringFormatError,
    {
        if !commit_hash_valid(first_commit) || !commit_hash_valid(last_commit) {
            return Err(GitError::new(GitErrorCode::StringFormatError, "Invalid commit hash format".to_owned()));
        }
        if !is_valid_email(self.from_email.as_str()) || !is_valid_email(to_email) {
            return Err(GitError::new(GitErrorCode::StringFormatError, "Invalid email address".to_owned()));
        }
        Ok(())
    }

    /// The arguments of `git format-patch` that write the series' patches and
    /// cover letter into `out_dir`.
    pub fn format_patch_args(series: &Series, out_dir: &str, first_commit: &str, last_commit: &str) -> (r: Vec<String>)
        requires
            series.wf(),
        ensures
            strings_view(r@) == format_patch_args_of(
                series@.short_name,
                (series@.contents.len() + 1) as nat,
                out_dir@,
                first_commit@,
                last_commit@,
            ),
    {
        let mut prefix = chars_of("--subject-prefix=PATCH ");
        let short = chars_of(series.short_name());
        let ghost sp = if short@.len() > 0 { short@ + seq![' '] } else { Seq::<char>::empty() };
        if short.len() > 0 {
            extend_chars(&mut prefix, &short);
            prefix.push(' ');
        }
        assert(prefix@ =~= "--subject-prefix=PATCH "@ + sp);
        prefix.push('v');
        let rev = series.current_revision();
        extend_chars(&mut prefix, &decimal_chars(rev as u64));
        assert(prefix@ =~= subject_prefix_of(series@.short_name, (series@.contents.len() + 1) as nat));
        let mut range = chars_of(first_commit);
        extend_chars(&mut range, &chars_of(".."));
        extend_chars(&mut range, &chars_of(last_commit));
        assert(range@ =~= first_commit@ + ".."@ + last_commit@);
        let mut args: Vec<String> = Vec::new();
        args.push("format-patch".to_owned());
        args.push("--cover-letter".to_owned());
        args.push("-n".to_owned());
        args.push("-o".to_owned());
        args.push(out_dir.to_owned());
        args.push(string_of(prefix.as_slice()));
        args.push(string_of(range.as_slice()));
        assert(strings_view(args@) =~= format_patch_args_of(
            series@.short_name,
            (series@.contents.len() + 1) as nat,
            out_dir@,
            first_commit@,
            last_commit@,
        ));
        args
    }

    /// The arguments of `git send-email` that send what `out_dir` holds.
    pub fn send_email_args(&self, to_email: &str, out_dir: &str, cc: Option<&str>) -> (r: Vec<String>)
        ensures
            strings_view(r@) == send_email_args_of(self@, to_email@, out_dir@, opt_str(cc)),
    {
        let mut args: Vec<String> = Vec::new();
        args.push("send-email".to_owned());
        args.push(join2("--from=", self.from_email.as_str()));
        args.push(join2("--to=", to_email));
        args.push(out_dir.to_owned());
        let ghost a0 = strings_view(args@);
        assert(a0 =~= seq!["send-email"@, "--from="@ + self@.from_email, "--to="@ + to_email@, out_dir@]);
        push_opt_arg(&mut args, "--sendmail-cmd=", opt_as_str(&self.send_command));
        push_opt_arg(&mut args, "--smtp-user=", opt_as_str(&self.smtp_user));
        push_opt_arg(&mut args, "--smtp-server=", opt_as_str(&self.smtp_server));
        let ghost a3 = strings_view(args@);
        if let Some(port) = self.smtp_port {
            let mut p = chars_of("--smtp-server-port=");
            extend_chars(&mut p, &decimal_chars(port as u64));
            args.push(string_of(p.as_slice()));
            assert(strings_view(args@) =~= a3 + port_arg(self@.smtp_port));
        } else {
            assert(strings_view(args@) =~= a3 + port_arg(self@.smtp_port));
        }
        push_opt_arg(&mut args, "--smtp-encryption=", opt_as_str(&self.smtp_encryption));
        push_opt_arg(&mut args, "--cc=", cc);
        assert(strings_view(args@) =~= send_email_args_of(self@, to_email@, out_dir@, opt_str(cc)));
        args
    }

    /// The cover letter that git wrote, with the series' title as subject
    /// and the series itself, its lines ended by `sep`, as description.
    pub fn fill_cover_letter(content: &str, series: &Series, sep: &str) -> (r: String)
        requires
            series.wf(),
        ensures
            r@ == replaced(
                replaced(content@, CV_PATCH_SUBJECT_PLACEHOLDER@, series@.title),
                CV_PATCH_DESCRIPTION_PLACEHOLDER@,
                render_series(series@.cover_letter, series@.contents, sep@),
            ),
    {
        proof {
            reveal_strlit("*** SUBJECT HERE ***");
            reveal_strlit("*** BLURB HERE ***");
        }
        let with_subject = replace_all(content, CV_PATCH_SUBJECT_PLACEHOLDER, series.title());
        let blurb = series.render(sep);
        replace_all(with_subject.as_str(), CV_PATCH_DESCRIPTION_PLACEHOLDER, blurb.as_str())
    }
}

} // verus!
