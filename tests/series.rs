use patchr::series::Series;

#[test]
fn test_series_creation() {
    // Invalid
    assert!(Series::new("", "The title").is_none());
    assert!(Series::new("TheName", "").is_none());
    assert!(Series::new("The name", "The title").is_none());
    assert!(Series::new("Thename$", "The title").is_none());
    assert!(Series::new("Thename$", "The title").is_none());

    // Valid
    assert!(Series::new("Thename", "The title").is_some());
    assert!(Series::new("The_name", "The title").is_some());
    assert!(Series::new("The_name", "My-long_and_weird-title").is_some());
}

#[test]
fn test_series_revs() {
    let mut series = Series::new("Name", "Title").unwrap();
    assert_eq!(series.current_revision(), 1);
    for i in 2..10 {
        series.add_revision();
        assert_eq!(series.current_revision(), i);
    }

    assert_eq!(series.current_revision(), 9);
    series.delete_revision(0);
    assert_eq!(series.current_revision(), 9);
    series.delete_revision(1);
    assert_eq!(series.current_revision(), 9);

    for i in (2..10).rev() {
        assert_eq!(series.current_revision(), i);
        series.delete_revision(2);
    }
    assert_eq!(series.current_revision(), 1);
    series.add_revision();
    series.add_revision();
    series.add_revision();
    series.add_revision();
    assert_eq!(series.current_revision(), 5);
    series.delete_revision(0);
    assert_eq!(series.current_revision(), 5);
    series.delete_revision(1);
    assert_eq!(series.current_revision(), 5);
}

#[test]
fn test_series_revs_data() {
    let gen_content = |i| format!("This is revision {}", i);
    let mut series = Series::new("Name", "Title").unwrap();
    for i in 2..10 {
        series.add_revision();
        let rev = series.revision_mut(i).unwrap();
        assert_eq!(rev.content(), "");
        rev.set_content(gen_content(i).as_str());
    }

    assert_eq!(series.revision_mut(6).unwrap().content(), gen_content(6).as_str());
    series.delete_revision(6);
    assert_eq!(series.revision_mut(8).unwrap().content(), gen_content(9).as_str());
    series.delete_revision(8);
    assert_eq!(series.revision_mut(2).unwrap().content(), gen_content(2).as_str());
    series.delete_revision(2);
    assert_eq!(series.revision_mut(5).unwrap().content(), gen_content(7).as_str());
    series.delete_revision(5);
    assert_eq!(series.revision_mut(5).unwrap().content(), gen_content(8).as_str());
    series.delete_revision(5);
    assert_eq!(series.revision_mut(3).unwrap().content(), gen_content(4).as_str());
    series.delete_revision(3);
    assert_eq!(series.revision_mut(2).unwrap().content(), gen_content(3).as_str());
    series.delete_revision(2);
    assert_eq!(series.revision_mut(2).unwrap().content(), gen_content(5).as_str());
    series.delete_revision(2);
    assert_eq!(series.current_revision(), 1);
    series.delete_revision(1);
    assert_eq!(series.current_revision(), 1);
    series.delete_revision(0);
    assert_eq!(series.current_revision(), 1);
}

#[test]
fn test_series_name() {
    let mut series = Series::new("name", "title").unwrap();

    assert!(series.set_name("").is_err());
    assert_eq!(series.name(), "name");
    assert!(series.set_name("test$a").is_err());
    assert!(series.set_name("test-a").is_ok());
    assert_eq!(series.name(), "test-a");
    assert!(series.set_name("a name").is_err());
    assert!(series.set_name("a_-_name").is_ok());
    assert!(series.set_title("aAgGdDpP---RTY").is_ok());
}

#[test]
fn test_series_short_name() {
    let mut series = Series::new("name", "title").unwrap();

    assert_eq!(series.short_name(), "");
    assert!(series.set_short_name("a").is_ok());
    assert_eq!(series.short_name(), "a");

    assert!(series.set_short_name("a space").is_err());

    // Short names are limited to eight characters.
    assert!(series.set_short_name("not-a-space").is_err());
    assert_eq!(series.short_name(), "a");

    assert!(series.set_short_name("not_a_space").is_err());
    assert_eq!(series.short_name(), "a");

    assert!(series.set_short_name("not-a-sp").is_ok());
    assert_eq!(series.short_name(), "not-a-sp");

    assert!(series.set_short_name("not+allowed").is_err());
    assert!(series.set_short_name("fancy-name-that-is-not-so-short").is_err());

    assert!(series.set_short_name("").is_ok());
    assert_eq!(series.short_name(), "");
}

#[test]
fn test_series_title() {
    let mut series = Series::new("name", "title").unwrap();

    assert!(series.set_title("").is_err());
    assert_eq!(series.title(), "title");
    assert!(series.set_title("test$a").is_err());
    assert!(series.set_title("test-a").is_ok());
    assert_eq!(series.title(), "test-a");
    assert!(series.set_title("a title").is_ok());
    assert!(series.set_title("a_-title").is_ok());
    assert!(series.set_title("aAgGdDpP---RTY").is_ok());
}

#[test]
fn test_series_cover_letter() {
    let mut series = Series::new("name", "title").unwrap();

    assert!(series.set_cover_letter("").is_ok());
    assert_eq!(series.cover_letter(), "");
    let cv = "test\n\n\t\na multi line \ncover\nletter";
    assert!(series.set_cover_letter(cv).is_ok());
    assert_eq!(series.cover_letter(), cv);

    let cv = "a".repeat(1500);
    assert!(series.set_cover_letter(cv.as_str()).is_ok());
    assert_eq!(series.cover_letter(), cv);

    assert!(series.set_cover_letter("").is_ok());
    assert_eq!(series.cover_letter(), "");
}

#[test]
fn revision_count_after_additions() {
    for k in 1..6usize {
        let mut series = Series::new("alpha", "Alpha title").unwrap();
        for _ in 0..k {
            series.add_revision();
        }
        assert_eq!(series.current_revision() as usize, k + 1);
        for n in 0..(k + 4) {
            assert_eq!(series.revision_mut(n).is_some(), 2 <= n && n <= k + 1);
        }
    }
}

#[test]
fn deleting_revisions_zero_and_one_changes_nothing() {
    let mut series = Series::new("alpha", "Alpha title").unwrap();
    series.delete_revision(0);
    series.delete_revision(1);
    assert_eq!(series.current_revision(), 1);
    series.add_revision();
    series.add_revision();
    series.delete_revision(0);
    series.delete_revision(1);
    assert_eq!(series.current_revision(), 3);
    assert_eq!(series.logs().len(), 2);
}

#[test]
fn deleting_a_revision_shifts_the_later_ones() {
    let mut series = Series::new("alpha", "Alpha title").unwrap();
    for i in 0..5 {
        series.add_revision();
        series.revision_mut(i + 2).unwrap().set_content(format!("c{}", i + 2).as_str());
    }
    series.delete_revision(4);
    let contents: Vec<&str> = series.revisions().iter().map(|r| r.content()).collect();
    assert_eq!(contents, vec!["c2", "c3", "c5", "c6"]);
    assert_eq!(series.current_revision(), 5);
}

#[test]
fn alpha_scenario() {
    let mut series = Series::new("alpha", "Alpha title").unwrap();
    series.add_revision();
    series.add_revision();
    series.add_revision();
    assert_eq!(series.current_revision(), 4);
    series.revision_mut(3).unwrap().set_content("fix typo");
    series.delete_revision(2);
    assert_eq!(series.current_revision(), 3);
    assert_eq!(series.revision_mut(2).unwrap().content(), "fix typo");
    series.delete_revision(99);
    assert_eq!(series.current_revision(), 3);
    assert_eq!(series.revision_mut(2).unwrap().content(), "fix typo");
}

#[test]
fn names_are_trimmed() {
    let series = Series::new("  alpha \t", " Alpha title\n").unwrap();
    assert_eq!(series.name(), "alpha");
    assert_eq!(series.title(), "Alpha title");
    assert_eq!(Series::validate_short_name(" abcdefgh "), Some(String::from("abcdefgh")));
    assert_eq!(Series::validate_short_name("abcdefghi"), None);
    assert_eq!(Series::revision_index(0), None);
    assert_eq!(Series::revision_index(1), None);
    assert_eq!(Series::revision_index(7), Some(5));
}

#[test]
fn cc_list_is_accepted_whole() {
    let mut series = Series::new("alpha", "Alpha title").unwrap();
    assert!(series.set_cc(" a@b.com,c@d.org ").is_ok());
    assert_eq!(series.cc(), "a@b.com,c@d.org");
    assert!(series.set_cc("a@b.com,,c@d.org").is_err());
    assert_eq!(series.cc(), "a@b.com,c@d.org");
    assert!(series.set_cc("nobody").is_err());
}

#[test]
fn rendering_lists_revisions_newest_first() {
    let mut series = Series::new("alpha", "Alpha title").unwrap();
    series.set_cover_letter("  Cover\nletter ").unwrap();
    series.add_revision();
    series.add_revision();
    series.revision_mut(2).unwrap().set_content("first\nsecond");
    series.revision_mut(3).unwrap().set_content("third");
    assert_eq!(
        series.render("\n"),
        "Cover\nletter\n\nv3\n    third\n\nv2\n    first\n    second\n\n"
    );
}

#[test]
fn log_entries_have_a_time_and_a_message() {
    let mut series = Series::new("alpha", "Alpha title").unwrap();
    series.add_revision();
    series.delete_revision(2);
    let logs = series.logs();
    assert_eq!(logs.len(), 2);
    let first = logs[0].entry();
    assert!(first.ends_with(": add revision - revision updated to 2"));
    let time = &first[..19];
    assert_eq!(time.len(), 19);
    assert_eq!(&time[4..5], "-");
    assert_eq!(&time[10..11], " ");
    assert!(logs[1].entry().ends_with(": delete revision - revision 2 deleted"));
}

#[test]
fn rendering_with_crlf_separator() {
    let mut series = Series::new("alpha", "Alpha title").unwrap();
    series.set_cover_letter("Cover").unwrap();
    series.add_revision();
    series.revision_mut(2).unwrap().set_content("one\ntwo");
    assert_eq!(series.render("\r\n"), "Cover\r\n\r\nv2\r\n    one\r\n    two\r\n\r\n");
}
