use librime_api::builder::{Host, RimeBuilder};
use librime_api::candidate::{RimeCandidate, RimeCandidateList};
use librime_api::engine::Rime;

fn cursor_over(items: Vec<RimeCandidate>) -> RimeCandidateList {
    let host = Host::new("rime-query", "0.3.1", false).expect("no NUL in it");
    let traits = RimeBuilder::new()
        .shared_data_dir("./rime-ice")
        .user_data_dir("./rime-user")
        .build(&host)
        .expect("both directories are set");
    let mut startup = traits.setup();
    while startup.call().is_some() {
        startup = startup.advance(0);
    }
    let mut rime: Rime<String> = startup.finish().expect("setup has run to its end");
    let session = rime.CreateSession(1);
    session.candidates(&mut rime, items).expect("the session is live")
}

fn candidate(text: &str, comment: &str) -> RimeCandidate {
    RimeCandidate::new(Some(text.as_bytes().to_vec()), Some(comment.as_bytes().to_vec()))
}

fn absent() -> RimeCandidate {
    RimeCandidate::new(None, None)
}

fn items() -> Vec<RimeCandidate> {
    vec![candidate("中", "zhong"), candidate("种", "zhong, chong"), candidate("重", "")]
}

#[test]
fn candidate_shows_text_and_comment() {
    let one = candidate("中", "zhong");
    assert_eq!(one.text(), "中");
    assert_eq!(one.comment(), "zhong");
}

#[test]
fn candidate_without_strings_shows_empty_strings() {
    assert_eq!(absent().text(), "");
    assert_eq!(absent().comment(), "");
    let half = RimeCandidate::new(Some(b"x".to_vec()), None);
    assert_eq!(half.text(), "x");
    assert_eq!(half.comment(), "");
}

#[test]
fn candidate_that_is_no_utf8_is_read_lossily() {
    let broken = RimeCandidate::new(Some(vec![0xe4, 0xb8]), Some(vec![b'o', b'k', 0x80]));
    assert_eq!(broken.text(), "\u{fffd}");
    assert_eq!(broken.comment(), "ok\u{fffd}");
}

#[test]
fn candidate_clone_is_equal() {
    let one = candidate("中", "zhong");
    assert_eq!(one.clone(), one);
    assert_eq!(absent().clone(), absent());
    assert_ne!(absent(), RimeCandidate::new(Some(Vec::new()), None));
}

#[test]
fn cursor_starts_before_the_first_candidate() {
    let list = cursor_over(items());
    assert_eq!(list.index(), -1);
    assert_eq!(list.get(), absent());
    assert_eq!(list, cursor_over(items()));
    assert_eq!(list.session_id(), 1);
}

#[test]
fn cursor_stands_on_the_candidate_of_its_index() {
    let all = items();
    let mut list = cursor_over(items());
    for steps in 1..=all.len() {
        list.next();
        assert_eq!(list.index(), steps as i32 - 1);
        assert_eq!(list.get(), all[steps - 1]);
        assert_eq!(list.get(), all[list.index() as usize]);
    }
}

#[test]
fn get_does_not_move_the_cursor() {
    let mut list = cursor_over(items());
    list.next();
    list.next();
    assert_eq!(list.get().text(), "种");
    assert_eq!(list.get().comment(), "zhong, chong");
    assert_eq!(list.get().text(), "种");
    assert_eq!(list.index(), 1);
}

#[test]
fn cursor_past_the_end_keeps_the_last_candidate() {
    let mut list = cursor_over(items());
    for _ in 0..5 {
        list.next();
    }
    assert_eq!(list.index(), 4);
    assert_eq!(list.get(), candidate("重", ""));
}

#[test]
fn cursor_over_nothing_shows_nothing() {
    let mut list = cursor_over(Vec::new());
    assert_eq!(list.get(), absent());
    list.next();
    assert_eq!(list.index(), 0);
    assert_eq!(list.get(), absent());
}

#[test]
fn ended_cursor_shows_nothing_and_stays() {
    let mut list = cursor_over(items());
    list.next();
    list.next();
    list.end();
    assert_eq!(list.index(), 0);
    assert_eq!(list.get(), absent());
    list.next();
    list.next();
    assert_eq!(list.index(), 0);
    assert_eq!(list.get(), absent());
    list.end();
    assert_eq!(list.index(), 0);
}

#[test]
fn cursor_ended_at_once_never_moves() {
    let mut list = cursor_over(items());
    list.end();
    list.next();
    assert_eq!(list.index(), 0);
    assert_eq!(list.get(), absent());
}
