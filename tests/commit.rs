use patchr::commit::{
    add_tag_message, keep_line, prepare_tag, remove_tag_all_message, remove_tag_message, CommitId,
    CommitTag,
};
use patchr::error::GitErrorCode;

#[test]
fn commit_ids_are_forty_hex_digits() {
    let ok = "7AC63F28FBB52736232655DA7C817C181A91F384";
    let id = CommitId::new(ok).unwrap();
    assert_eq!(id.to_hex(), "7ac63f28fbb52736232655da7c817c181a91f384");
    assert!(id.same(&CommitId::new("7ac63f28fbb52736232655da7c817c181a91f384").unwrap()));
    let bad = [
        "7ac63f28fbb52736232655da7c817c181a91f38",
        "7ac63f28fbb52736232655da7c817c181a91f3844",
        "7ac63f28fbb52736232655da 7c817c181a91f38",
        "7ac63f28fbb52736232655dag7c817c181a91f38",
    ];
    for b in bad.iter() {
        let e = CommitId::new(b).err().unwrap();
        assert_eq!(e.code(), GitErrorCode::StringFormatError);
    }
}

#[test]
fn tags_from_mnemonics() {
    assert_eq!(CommitTag::from_mnemonic("rb").text(), "Reviewed-by");
    assert_eq!(CommitTag::from_mnemonic("so").text(), "Signed-off-by");
    assert_eq!(CommitTag::from_mnemonic("Acked-by").text(), "Acked-by");
    assert_eq!(prepare_tag(&CommitTag::ReviewedBy, Some("x@y.z")), "Reviewed-by: x@y.z");
    assert_eq!(prepare_tag(&CommitTag::SignedOffBy, None), "Signed-off-by");
}

#[test]
fn adding_a_trailer_twice_changes_nothing_the_second_time() {
    let m = "Subject\n\nBody";
    let once = add_tag_message(m, &CommitTag::SignedOffBy, Some("a@b.com"), "\n").unwrap();
    assert_eq!(once, "Subject\n\nBody\nSigned-off-by: a@b.com");
    assert!(once.ends_with("\nSigned-off-by: a@b.com"));
    assert_eq!(add_tag_message(&once, &CommitTag::SignedOffBy, Some("a@b.com"), "\n"), None);
    assert_eq!(once.matches("Signed-off-by: a@b.com").count(), 1);
}

#[test]
fn remove_all_then_add_leaves_one_trailer() {
    let m = "Subject\n\nBody\nSigned-off-by: x@y.z\nsigned-off-by: a@b.com\nReviewed-by: r@s.t\n";
    let cleared = remove_tag_all_message(m, &CommitTag::SignedOffBy, "\n");
    assert_eq!(cleared, "Subject\n\nBody\nReviewed-by: r@s.t\n");
    let added = add_tag_message(&cleared, &CommitTag::SignedOffBy, Some("a@b.com"), "\n").unwrap();
    let count = added.lines().filter(|l| *l == "Signed-off-by: a@b.com").count();
    assert_eq!(count, 1);
}

#[test]
fn remove_one_trailer_ignores_case() {
    let m = "Subject\r\n\r\nSIGNED-OFF-BY: A@B.COM\nSigned-off-by: c@d.e";
    let r = remove_tag_message(m, &CommitTag::SignedOffBy, Some("a@b.com"), "\n");
    assert_eq!(r, "Subject\n\nSigned-off-by: c@d.e\n");
    assert!(keep_line("reviewed-by: x", "signed-off-by: ", true));
    assert!(!keep_line("signed-off-by: x", "signed-off-by: ", true));
    assert!(!keep_line("abc", "abc", false));
}

#[test]
fn trailers_with_crlf_separator() {
    let once = add_tag_message("Subject\r\n\r\nBody", &CommitTag::ReviewedBy, Some("r@s.t"), "\r\n").unwrap();
    assert_eq!(once, "Subject\r\n\r\nBody\r\nReviewed-by: r@s.t");
    assert_eq!(add_tag_message(&once, &CommitTag::ReviewedBy, Some("r@s.t"), "\r\n"), None);
    let cleared = remove_tag_all_message(&once, &CommitTag::ReviewedBy, "\r\n");
    assert_eq!(cleared, "Subject\r\n\r\nBody\r\n");
}

#[test]
fn a_bare_carriage_return_stays_on_the_last_line() {
    let m = "Subject\nSigned-off-by: a@b.com\r";
    let added = add_tag_message(m, &CommitTag::SignedOffBy, Some("a@b.com"), "\n").unwrap();
    assert_eq!(added, "Subject\nSigned-off-by: a@b.com\r\nSigned-off-by: a@b.com");
    assert_eq!(m.lines().last(), Some("Signed-off-by: a@b.com\r"));
}
