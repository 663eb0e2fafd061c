use patchr::commit::CommitId;
use patchr::error::GitErrorCode;
use patchr::history::{Rewrite, RewriteAction, RewriteEvent, RewritePhase};
use patchr::selection::{is_affirmative, RangeSelection};

fn id(c: char) -> CommitId {
    CommitId::new(&c.to_string().repeat(40)).unwrap()
}

#[test]
fn rewrite_replays_and_finishes() {
    let (w, a) = Rewrite::start(id('b'), "new message");
    assert!(matches!(a, RewriteAction::NextOperation));
    let (w, a) = w.step(RewriteEvent::Operation(id('a')));
    assert!(matches!(a, RewriteAction::Commit(None)));
    let (w, a) = w.step(RewriteEvent::Committed(id('1')));
    assert!(matches!(a, RewriteAction::NextOperation));
    let (w, a) = w.step(RewriteEvent::Operation(id('b')));
    match a {
        RewriteAction::Commit(Some(m)) => assert_eq!(m, "new message"),
        _ => panic!("the target keeps the new message"),
    }
    let (w, _) = w.step(RewriteEvent::Committed(id('2')));
    let (w, a) = w.step(RewriteEvent::Operation(id('c')));
    assert!(matches!(a, RewriteAction::Commit(None)));
    let (w, _) = w.step(RewriteEvent::Committed(id('3')));
    let (w, a) = w.step(RewriteEvent::NoMoreOperations);
    assert!(matches!(a, RewriteAction::Finish));
    let (w, a) = w.step(RewriteEvent::Finished);
    match a {
        RewriteAction::Return(Ok(new_id)) => assert_eq!(new_id.to_hex(), "2".repeat(40)),
        _ => panic!("the rewrite succeeds"),
    }
    assert!(matches!(w.phase(), RewritePhase::Done));
}

#[test]
fn rewrite_aborts_on_failure() {
    let (w, _) = Rewrite::start(id('b'), "m");
    let (w, _) = w.step(RewriteEvent::Operation(id('b')));
    let (w, a) = w.step(RewriteEvent::Failed(String::from("conflict")));
    assert!(matches!(a, RewriteAction::Abort));
    let (_, a) = w.step(RewriteEvent::Aborted);
    match a {
        RewriteAction::Return(Err(e)) => {
            assert_eq!(e.code(), GitErrorCode::RepoOpFailed);
            assert_eq!(e.message(), "conflict");
        },
        _ => panic!("the error is returned"),
    }
}

#[test]
fn rewrite_without_target_aborts() {
    let (w, _) = Rewrite::start(id('b'), "m");
    let (w, _) = w.step(RewriteEvent::Operation(id('a')));
    let (w, _) = w.step(RewriteEvent::Committed(id('1')));
    let (w, a) = w.step(RewriteEvent::NoMoreOperations);
    assert!(matches!(a, RewriteAction::Abort));
    let (_, a) = w.step(RewriteEvent::Aborted);
    assert!(matches!(a, RewriteAction::Return(Err(_))));
}

#[test]
fn rewrite_aborts_when_finishing_fails() {
    let (w, _) = Rewrite::start(id('b'), "m");
    let (w, _) = w.step(RewriteEvent::Operation(id('b')));
    let (w, _) = w.step(RewriteEvent::Committed(id('2')));
    let (w, _) = w.step(RewriteEvent::NoMoreOperations);
    let (w, a) = w.step(RewriteEvent::Failed(String::from("locked")));
    assert!(matches!(a, RewriteAction::Abort));
    let (_, a) = w.step(RewriteEvent::Aborted);
    assert!(matches!(a, RewriteAction::Return(Err(_))));
}

#[test]
fn range_selection_takes_two_answers() {
    let mut s = RangeSelection::new();
    assert!(s.answer("c3", Some("n\n")));
    assert!(s.answer("c2", Some(" Y \n")));
    assert!(s.result().is_none());
    assert!(!s.answer("c1", Some("y")));
    assert_eq!(s.result(), Some((String::from("c1"), String::from("c2"))));
    assert!(is_affirmative("y"));
    assert!(!is_affirmative("yes"));
}

#[test]
fn range_selection_fails_on_read_error() {
    let mut s = RangeSelection::new();
    assert!(s.answer("c3", Some("y")));
    assert!(!s.answer("c2", None));
    assert!(s.result().is_none());
}
