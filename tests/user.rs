use patchr::error::{UserDataErrorCode, ErrorCode};
use patchr::repo::{Repo, RepoData, RepoMetadata};
use patchr::series::Series;
use patchr::user_data::{editor_program, extract_editor_args, MailingList, RootFile, UserConfig, UserData};
use patchr::util::{next_verbose_level, VerboseLevel};

fn data_with_repo() -> UserData {
    let mut root = RootFile::new();
    root.register_repo("proj", "/work/proj/src", Some("/work/proj")).unwrap();
    let meta = RepoMetadata::new("proj", "/work/proj");
    UserData::new(root, Some(RepoData::new(meta, Repo::new())))
}

#[test]
fn repos_are_registered_once() {
    let mut root = RootFile::new();
    let m = root.register_repo("proj", "/a/b", Some("/a")).unwrap();
    assert_eq!(m.name(), "proj");
    assert_eq!(m.path(), "/a");
    let e = root.register_repo("proj", "/c", Some("/c")).err().unwrap();
    assert_eq!(e.code(), UserDataErrorCode::RepoAlreadyExists);
    let e = root.register_repo("other", "/a", Some("/a")).err().unwrap();
    assert_eq!(e.code(), UserDataErrorCode::RepoAlreadyExists);
    let e = root.register_repo("other", "/tmp/x", None).err().unwrap();
    assert_eq!(e.code(), UserDataErrorCode::NotAGitRepo);
    assert!(root.find_repo_by_path("/a").is_some());
    assert!(root.find_repo_by_path("/a/b").is_none());
    assert!(root.delete_repo("proj").is_ok());
    assert_eq!(root.delete_repo("proj").err().unwrap().code(), UserDataErrorCode::RepoDoesNotExist);
    assert_eq!(root.repos().len(), 0);
}

#[test]
fn mailing_lists_have_unique_names() {
    let mut root = RootFile::new();
    assert!(root.add_mailing_list("kernel_dev", "dev@lists.org").is_ok());
    assert_eq!(
        root.add_mailing_list("kernel_dev", "other@lists.org").err().unwrap().code(),
        UserDataErrorCode::ListAlreadyExists
    );
    assert_eq!(root.add_mailing_list("bad name", "x@y.org").err().unwrap().code(), UserDataErrorCode::InputError);
    assert_eq!(root.add_mailing_list("ok", "not-an-address").err().unwrap().code(), UserDataErrorCode::InputError);
    assert_eq!(root.find_mailing_list("kernel_dev").unwrap().email(), "dev@lists.org");
    assert!(root.delete_mailing_list("kernel_dev").is_ok());
    assert_eq!(root.delete_mailing_list("kernel_dev").err().unwrap().code(), UserDataErrorCode::ListDoesNotExist);
    assert!(MailingList::new("a_very_long_list_name_x", "a@b.org").is_none());
    assert!(MailingList::new("a_long_list_name_twenty"[..20].as_ref(), "a@b.org").is_some());
}

#[test]
fn configuration_settings() {
    let mut c = UserConfig::new();
    assert_eq!(c.editor(), None);
    c.set_editor("vim");
    c.set_smtp_port(Some(587));
    c.set_smtp_server(Some("smtp.example.org"));
    c.set_cv_skel(Some("Hello"));
    assert_eq!(c.editor(), Some("vim"));
    assert_eq!(c.smtp_port(), Some(587));
    assert_eq!(c.smtp_server(), Some("smtp.example.org"));
    assert_eq!(c.cv_skel(), Some("Hello"));
    c.set_smtp_server(None);
    assert_eq!(c.smtp_server(), None);
}

#[test]
fn user_data_tracks_the_current_repo() {
    let mut ud = UserData::new(RootFile::new(), None);
    assert!(ud.repo().is_none());
    assert!(ud.register_repo("proj", "/w/p", Some("/w/p")).is_ok());
    assert_eq!(ud.repo().unwrap().meta().name(), "proj");
    assert_eq!(ud.repos().len(), 1);
    assert!(ud.delete_repo("proj").is_ok());
    assert!(ud.repo().is_none());
    let ud = data_with_repo();
    assert_eq!(ud.repo().unwrap().meta().dirname(), "proj");
}

#[test]
fn series_of_a_repo() {
    let mut repo = Repo::new();
    assert!(repo.add_series("alpha", "Alpha", Some("al"), Some("  skeleton ")).is_ok());
    let s = repo.get_series_by_name("alpha").unwrap();
    assert_eq!(s.short_name(), "al");
    assert_eq!(s.cover_letter(), "skeleton");
    assert!(repo.add_series(" alpha ", "Other", None, None).is_err());
    assert!(repo.add_series("bad$", "Other", None, None).is_err());
    assert!(repo.add_series("beta", "Beta", Some("much-too-long"), None).is_err());
    assert_eq!(repo.series().len(), 1);
    repo.get_series_by_name_mut("alpha").unwrap().add_revision();
    assert_eq!(repo.get_series_by_name("alpha").unwrap().current_revision(), 2);
    assert!(repo.delete_series("alpha").is_ok());
    assert!(repo.delete_series("alpha").is_err());
    assert_eq!(repo.version(), "0.1.0");
}

#[test]
fn exit_codes_and_verbosity() {
    assert_eq!(ErrorCode::CannotReadUserData.code(), 1);
    assert_eq!(ErrorCode::CannotWriteUserData.code(), 2);
    assert_eq!(ErrorCode::CommandError.code(), 3);
    assert_eq!(ErrorCode::ParsingError.code(), 4);
    assert_eq!(next_verbose_level(VerboseLevel::Off), VerboseLevel::Error);
    assert_eq!(next_verbose_level(VerboseLevel::Debug), VerboseLevel::Trace);
    assert_eq!(next_verbose_level(VerboseLevel::Trace), VerboseLevel::Trace);
}

#[test]
fn editor_command_is_split_like_a_shell() {
    let (bin, args) = extract_editor_args("code --wait 'my file'").unwrap();
    assert_eq!(bin, "code");
    assert_eq!(args, vec![String::from("--wait"), String::from("my file")]);
    assert!(extract_editor_args("vim 'open").is_none());
    assert!(extract_editor_args("   ").is_none());
    assert!(editor_program(vec![]).is_none());
    let (bin, args) = editor_program(vec![String::from("nano")]).unwrap();
    assert_eq!(bin, "nano");
    assert!(args.is_empty());
}

#[test]
fn restored_series_have_distinct_names() {
    let a = Series::new("alpha", "A").unwrap();
    let b = Series::new("beta", "B").unwrap();
    assert_eq!(Repo::restore("0.1.0", vec![a, b]).unwrap().series().len(), 2);
    let a = Series::new("alpha", "A").unwrap();
    let a2 = Series::new(" alpha", "Again").unwrap();
    assert!(Repo::restore("0.1.0", vec![a, a2]).is_none());
}

#[test]
fn deleting_the_current_repo() {
    let mut ud = UserData::new(RootFile::new(), None);
    assert!(ud.register_repo("proj", "/w/p", Some("/w/p")).is_ok());
    let c = patchr::parser::parse_command_line(vec![String::from("patchr"), String::from("delrepo")]).unwrap();
    match &c[0] {
        patchr::commands::Command::DeleteRepo(d) => {
            assert!(d.exec(&mut ud).is_ok());
            assert!(d.exec(&mut ud).is_err());
        },
        _ => panic!("a delrepo command"),
    }
    assert!(ud.repos().is_empty());
}
