use patchr::commands::{get_command_builder, Command, CommandBuilder, CommandBuilderErrorCode, Tag};
use patchr::parser::{lex, parse_command_line};
use patchr::repo::{Repo, RepoData, RepoMetadata};
use patchr::sender::GitPatchSender;
use patchr::series::Series;
use patchr::user_data::{RootFile, UserData};

fn args(words: &[&str]) -> Vec<String> {
    words.iter().map(|w| w.to_string()).collect()
}

fn data_with_repo() -> UserData {
    let mut root = RootFile::new();
    root.register_repo("proj", "/work/proj", Some("/work/proj")).unwrap();
    UserData::new(root, Some(RepoData::new(RepoMetadata::new("proj", "/work/proj"), Repo::new())))
}

fn run(ud: &mut UserData, words: &[&str]) -> Result<String, String> {
    let mut cmds = parse_command_line(args(words)).unwrap();
    match cmds.pop().unwrap() {
        Command::CreateSeries(c) => c.exec(ud),
        Command::AddRevision(c) => c.exec(ud),
        Command::DeleteRevision(c) => c.exec(ud),
        Command::DeleteSeries(c) => c.exec(ud),
        Command::Configure(c) => c.exec(ud),
        Command::AddMailingList(c) => c.exec(ud),
        Command::DeleteMailingList(c) => c.exec(ud),
        _ => panic!("not a command of these tests"),
    }
}

#[test]
fn lexer_splits_flag_groups() {
    let t = lex(&args(&["patchr", "show", "-vx", "name", "-", "ignored"]));
    let v: Vec<(bool, &str)> = t.iter().map(|t| (t.is_flag, t.text.as_str())).collect();
    assert_eq!(v, vec![(false, "show"), (true, "v"), (true, "x"), (false, "name")]);
}

#[test]
fn parser_builds_commands() {
    assert_eq!(parse_command_line(args(&["patchr"])).unwrap().len(), 0);
    let c = parse_command_line(args(&["patchr", "-v", "create", "alpha", "Alpha title"])).unwrap();
    assert_eq!(c.len(), 2);
    assert!(matches!(c[0], Command::SetVerbose(_)));
    assert!(matches!(c[1], Command::CreateSeries(_)));
    assert!(parse_command_line(args(&["patchr", "create", "alpha"])).is_err());
    assert!(parse_command_line(args(&["patchr", "-q"])).is_err());
    let c = parse_command_line(args(&["patchr", "send", "-c", " a@b.org ", "s", "-i", "to@x.org"])).unwrap();
    match &c[0] {
        Command::SendSeries(s) => {
            assert_eq!(s.cc(), Some("a@b.org"));
            assert!(s.interactive());
            assert_eq!(s.to_email(), "to@x.org");
            assert_eq!(s.first_commit(), None);
        },
        _ => panic!("a send command"),
    }
    assert!(matches!(parse_command_line(args(&["patchr", "-h"])).unwrap()[0], Command::Help(_)));
}

#[test]
fn builders_collect_arguments() {
    let mut b = get_command_builder("delrev").unwrap();
    assert!(b.add_value("alpha").is_ok());
    assert_eq!(b.add_value("two").err().unwrap().code(), CommandBuilderErrorCode::UnexpectedValue);
    assert!(b.add_value("2").is_ok());
    assert!(b.add_value("3").is_err());
    assert!(b.build().is_ok());
    let mut b = get_command_builder("config").unwrap();
    assert!(b.add_value("smtpport").is_ok());
    assert!(b.add_flag("d").is_ok());
    assert!(b.add_value("25").is_ok());
    assert_eq!(b.build().err().unwrap().code(), CommandBuilderErrorCode::IncompatibleValues);
    assert!(get_command_builder("nothing").is_none());
    assert!(get_command_builder("tag").is_none());
    assert!(get_command_builder("untag").is_none());
    assert!(get_command_builder("editcv").is_none());
    assert_eq!(get_command_builder("cleantmp").unwrap().name(), "addrev");
    assert_eq!(get_command_builder("send").unwrap().name(), "send");
    let mut b = Tag::builder();
    assert!(b.add_value("a".repeat(40).as_str()).is_ok());
    assert!(b.add_value("rb").is_ok());
    assert_eq!(b.build().err().unwrap().code(), CommandBuilderErrorCode::MissingValue);
    assert!(b.add_value("me@x.org").is_ok());
    match b.build().unwrap() {
        Command::Tag(t) => {
            assert_eq!(t.tag().text(), "Reviewed-by");
            assert_eq!(t.new_message("S\n\nBody", "\n").unwrap(), "S\n\nBody\nReviewed-by: me@x.org");
        },
        _ => panic!("a tag command"),
    }
    let mut b = get_command_builder("list").unwrap();
    assert_eq!(b.add_value("x").err().unwrap().code(), CommandBuilderErrorCode::UnexpectedValue);
    assert_eq!(b.add_flag("x").err().unwrap().code(), CommandBuilderErrorCode::UnknownFlag);
    assert!(matches!(b, CommandBuilder::ListSeries(_)));
}

#[test]
fn commands_change_the_user_data() {
    let mut ud = data_with_repo();
    assert!(run(&mut ud, &["patchr", "create", "alpha", "Alpha title"]).is_ok());
    assert!(run(&mut ud, &["patchr", "create", "alpha", "Again"]).is_err());
    assert!(run(&mut ud, &["patchr", "addrev", "alpha"]).is_ok());
    assert!(run(&mut ud, &["patchr", "addrev", "alpha"]).is_ok());
    assert!(run(&mut ud, &["patchr", "addrev", "beta"]).is_err());
    let s = ud.repo().unwrap().repo().get_series_by_name("alpha").unwrap();
    assert_eq!(s.current_revision(), 3);
    assert_eq!(s.short_name(), "proj");
    assert!(run(&mut ud, &["patchr", "delrev", "alpha", "2"]).is_ok());
    assert_eq!(ud.repo().unwrap().repo().get_series_by_name("alpha").unwrap().current_revision(), 2);
    assert!(run(&mut ud, &["patchr", "config", "smtpport", "2525"]).is_ok());
    assert_eq!(ud.config().smtp_port(), Some(2525));
    assert!(run(&mut ud, &["patchr", "config", "-d", "editor"]).is_err());
    assert!(run(&mut ud, &["patchr", "addlist", "dev", "dev@lists.org"]).is_ok());
    assert!(run(&mut ud, &["patchr", "dellist", "dev"]).is_ok());
    assert!(run(&mut ud, &["patchr", "delete", "alpha"]).is_ok());
    assert!(run(&mut ud, &["patchr", "delete", "alpha"]).is_err());
}

#[test]
fn listing_and_showing() {
    let mut ud = data_with_repo();
    run(&mut ud, &["patchr", "create", "alpha", "Alpha"]).unwrap();
    run(&mut ud, &["patchr", "addrev", "alpha"]).unwrap();
    let c = parse_command_line(args(&["patchr", "list"])).unwrap();
    match &c[0] {
        Command::ListSeries(l) => assert_eq!(l.exec(&ud).unwrap(), vec![String::from("- alpha (v2)")]),
        _ => panic!("a list command"),
    }
    let c = parse_command_line(args(&["patchr", "repos"])).unwrap();
    match &c[0] {
        Command::ListRepos(l) => assert_eq!(l.exec(&ud), vec![(String::from("- proj : /work/proj"), true)]),
        _ => panic!("a repos command"),
    }
    let c = parse_command_line(args(&["patchr", "show", "-v", "alpha"])).unwrap();
    match &c[0] {
        Command::ShowSeries(s) => {
            let text = s.exec(&ud, "\n").unwrap();
            assert!(text.starts_with("Name : alpha\nTitle : Alpha\nShort name : proj\nRevision : 2\n\n\n\nv2\n\nLog :\n"));
        },
        _ => panic!("a show command"),
    }
}

#[test]
fn sender_arguments() {
    let mut series = Series::new("alpha", "Alpha title").unwrap();
    series.set_short_name("al").unwrap();
    series.add_revision();
    let mut b = GitPatchSender::builder("me@x.org");
    b.set_smtp_port(465);
    b.set_smtp_server("smtp.x.org");
    let sender = b.build();
    let first = "a".repeat(40);
    let last = "b".repeat(40);
    assert!(sender.check("to@y.org", &first, &last).is_ok());
    assert!(sender.check("to@y.org", "abc", &last).is_err());
    assert!(sender.check("nobody", &first, &last).is_err());
    let fp = GitPatchSender::format_patch_args(&series, "/tmp/out", &first, &last);
    assert_eq!(fp[5], "--subject-prefix=PATCH al v2");
    assert_eq!(fp[6], format!("{}..{}", first, last));
    let se = sender.send_email_args("to@y.org", "/tmp/out", Some("c@d.org"));
    assert_eq!(
        se,
        vec![
            "send-email",
            "--from=me@x.org",
            "--to=to@y.org",
            "/tmp/out",
            "--smtp-server=smtp.x.org",
            "--smtp-server-port=465",
            "--cc=c@d.org",
        ]
    );
    let cv = GitPatchSender::fill_cover_letter("Subject: *** SUBJECT HERE ***\n\n*** BLURB HERE ***\n", &series, "\n");
    assert_eq!(cv, "Subject: Alpha title\n\n\n\nv2\n\n\n");
    let twice = GitPatchSender::fill_cover_letter("*** BLURB HERE ****** BLURB HERE ***", &series, "\n");
    assert_eq!(twice, "\n\nv2\n\n\n\nv2\n\n");
}

#[test]
fn lines_without_a_command_give_global_commands() {
    let c = parse_command_line(args(&["patchr", "-vh", "nothing", "-v"])).unwrap();
    assert_eq!(c.len(), 3);
    assert!(matches!(c[0], Command::SetVerbose(_)));
    assert!(matches!(c[1], Command::Help(_)));
    assert!(matches!(c[2], Command::SetVerbose(_)));
    assert!(parse_command_line(args(&["patchr", "nothing", "-vx"])).is_err());
    assert!(parse_command_line(args(&["patchr", "tag", "x"])).unwrap().is_empty());
}

#[test]
fn editing_a_series_field() {
    let mut ud = data_with_repo();
    run(&mut ud, &["patchr", "create", "alpha", "Alpha"]).unwrap();
    run(&mut ud, &["patchr", "create", "beta", "Beta"]).unwrap();
    let c = parse_command_line(args(&["patchr", "edit", "name", "alpha"])).unwrap();
    let Command::EditSeries(e) = &c[0] else { panic!("an edit command") };
    assert!(e.apply(&mut ud, "beta").is_err());
    assert!(e.apply(&mut ud, "bad name").is_err());
    assert!(e.apply(&mut ud, " gamma \n").is_ok());
    assert!(ud.repo().unwrap().repo().get_series_by_name("gamma").is_some());
    assert!(ud.repo().unwrap().repo().get_series_by_name("alpha").is_none());
    let c = parse_command_line(args(&["patchr", "edit", "cc", "beta"])).unwrap();
    let Command::EditSeries(e) = &c[0] else { panic!("an edit command") };
    assert!(e.apply(&mut ud, "a@b.org,,c@d.org").is_err());
    assert!(e.apply(&mut ud, "a@b.org").is_ok());
    assert_eq!(e.current_value(&ud).unwrap(), "a@b.org");
    assert!(run(&mut ud, &["patchr", "create", "bad$", "Title"]).is_err());
}

#[test]
fn a_leading_unknown_flag_refuses_the_line() {
    assert!(parse_command_line(args(&["patchr", "-x", "create", "alpha", "Alpha"])).is_err());
    assert!(parse_command_line(args(&["patchr", "-v", "create", "alpha", "Alpha"])).is_ok());
}
