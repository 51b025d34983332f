use librime_api::builder::{Host, RimeBuilder};
use librime_api::call::RimeCall;
use librime_api::candidate::RimeCandidate;
use librime_api::engine::Rime;
use librime_api::session::RimeSession;
use librime_api::util::{property_value, NativeText};

fn session_engine() -> Rime<String> {
    let host = Host::new("rime-query", "0.3.1", false).expect("no NUL in it");
    let traits = RimeBuilder::new()
        .shared_data_dir("./rime-ice")
        .user_data_dir("./rime-user")
        .build(&host)
        .expect("both directories are set");
    let mut startup = traits.setup();
    while startup.call().is_some() {
        startup = startup.advance(0);
    }
    startup.finish().expect("setup has run to its end")
}

fn text(s: &str) -> NativeText {
    NativeText::new(s).expect("no NUL in it")
}

fn key(id: usize, keycode: i32) -> RimeCall {
    RimeCall::ProcessKey { id, keycode, mask: 0 }
}

#[test]
fn new_session_keeps_its_identifier() {
    assert_eq!(RimeSession::new(17).session_id(), 17);
    assert_eq!(RimeSession::new(0).session_id(), 0);
    assert_eq!(RimeSession::new(usize::MAX).session_id(), usize::MAX);
}

#[test]
fn process_key_has_no_modifier() {
    let mut rime = session_engine();
    let session = rime.CreateSession(3);
    assert_eq!(
        session.process_key(&rime, 0xff0d),
        Some(RimeCall::ProcessKey { id: 3, keycode: 0xff0d, mask: 0 })
    );
    assert_eq!(
        session.process_key(&rime, -1),
        Some(RimeCall::ProcessKey { id: 3, keycode: -1, mask: 0 })
    );
}

#[test]
fn process_key_mask_keeps_the_modifiers() {
    let mut rime = session_engine();
    let session = rime.CreateSession(3);
    assert_eq!(
        session.process_key_mask(&rime, 0x61, 4),
        Some(RimeCall::ProcessKey { id: 3, keycode: 0x61, mask: 4 })
    );
    assert_eq!(session.process_key_mask(&rime, 0x61, 0), session.process_key(&rime, 0x61));
}

#[test]
fn process_char_feeds_the_scalar_value() {
    let mut rime = session_engine();
    let session = rime.CreateSession(8);
    assert_eq!(session.process_char(&rime, 'a'), Some(key(8, 97)));
    assert_eq!(session.process_char(&rime, ' '), Some(key(8, 32)));
    assert_eq!(session.process_char(&rime, '\0'), Some(key(8, 0)));
    assert_eq!(session.process_char(&rime, '中'), Some(key(8, 0x4e2d)));
    assert_eq!(session.process_char(&rime, '\u{10ffff}'), Some(key(8, 0x10ffff)));
}

#[test]
fn process_string_feeds_nine_keys_for_china_man() {
    let mut rime = session_engine();
    let session = rime.CreateSession(2);
    let calls = session.process_string(&rime, "china man");
    assert_eq!(calls.len(), 9);
    assert_eq!(
        calls,
        vec![
            key(2, 99),
            key(2, 104),
            key(2, 105),
            key(2, 110),
            key(2, 97),
            key(2, 32),
            key(2, 109),
            key(2, 97),
            key(2, 110),
        ]
    );
}

#[test]
fn process_string_feeds_one_key_for_each_character() {
    let mut rime = session_engine();
    let session = rime.CreateSession(2);
    assert_eq!(session.process_string(&rime, ""), Vec::new());
    assert_eq!(
        session.process_string(&rime, "math"),
        vec![key(2, 109), key(2, 97), key(2, 116), key(2, 104)]
    );
    assert_eq!(session.process_string(&rime, "拼音"), vec![key(2, 0x62fc), key(2, 0x97f3)]);
    for (call, character) in session.process_string(&rime, "nihao").into_iter().zip("nihao".chars())
    {
        assert_eq!(Some(call), session.process_char(&rime, character));
    }
}

#[test]
fn session_that_is_not_live_asks_nothing_of_the_engine() {
    let mut rime = session_engine();
    let stranger = RimeSession::new(5);
    assert_eq!(stranger.process_key(&rime, 97), None);
    assert_eq!(stranger.process_key_mask(&rime, 97, 1), None);
    assert_eq!(stranger.process_char(&rime, 'a'), None);
    assert_eq!(stranger.process_string(&rime, "china man"), Vec::new());
    assert_eq!(stranger.set_property(&rime, "test", "value"), None);
    assert_eq!(stranger.get_property(&rime, "test", 16), None);
    assert_eq!(stranger.clear_composition(&rime), None);
    assert_eq!(stranger.context(&mut rime, None, Vec::new()), None);
    assert_eq!(stranger.commit(&mut rime, None), None);
    assert_eq!(stranger.status(&mut rime, 1, 1, 1), None);
    assert_eq!(stranger.candidates(&mut rime, Vec::new()), None);
    assert_eq!(rime.session_count(), 0);
}

#[test]
fn destroyed_session_asks_nothing_of_the_engine() {
    let mut rime = session_engine();
    let session = rime.CreateSession(5);
    assert_eq!(session.process_key(&rime, 97), Some(key(5, 97)));
    assert_eq!(rime.DestroySession(5), Some(RimeCall::DestroySession { id: 5 }));
    assert_eq!(session.process_key(&rime, 97), None);
    assert_eq!(session.process_string(&rime, "ab"), Vec::new());
    assert_eq!(session.clear_composition(&rime), None);
    assert_eq!(session.commit(&mut rime, Some(b"x".to_vec())), None);
    assert_eq!(rime.release(session), None);
}

#[test]
fn context_after_each_key_is_well_formed() {
    let mut rime = session_engine();
    let session = rime.CreateSession(2);
    let mut fed: Vec<u8> = Vec::new();
    for call in session.process_string(&rime, "china man") {
        let keycode: i32 = match call {
            RimeCall::ProcessKey { keycode, .. } => keycode,
            other => panic!("not a key: {:?}", other),
        };
        fed.push(keycode as u8);
        let candidates: Vec<RimeCandidate> =
            vec![RimeCandidate::new(Some(fed.clone()), None); fed.len() % 3];
        let context = session
            .context(&mut rime, Some(fed.clone()), candidates)
            .expect("the session is live");
        assert_eq!(context.preedit().as_bytes(), fed.as_slice());
        assert!(context.num_candidates() >= 0);
        assert_eq!(context.num_candidates() as usize, fed.len() % 3);
        assert_eq!(rime.release(context.into_session()), None);
        let empty = session.context(&mut rime, None, Vec::new()).expect("the session is live");
        assert_eq!(empty.preedit(), "");
        assert_eq!(empty.num_candidates(), 0);
        assert_eq!(rime.release(empty.into_session()), None);
    }
    assert_eq!(fed, b"china man");
    assert_eq!(rime.owners(2), 1);
}

#[test]
fn set_property_names_the_session_and_both_texts() {
    let mut rime = session_engine();
    let session = rime.CreateSession(6);
    assert_eq!(
        session.set_property(&rime, "test", "value"),
        Some(RimeCall::SetProperty { id: 6, prop: text("test"), value: text("value") })
    );
}

#[test]
fn set_property_with_a_nul_asks_nothing() {
    let mut rime = session_engine();
    let session = rime.CreateSession(6);
    assert_eq!(session.set_property(&rime, "te\0st", "value"), None);
    assert_eq!(session.set_property(&rime, "test", "\0"), None);
}

#[test]
fn get_property_names_the_session_and_the_size() {
    let mut rime = session_engine();
    let session = rime.CreateSession(6);
    assert_eq!(
        session.get_property(&rime, "test", 32),
        Some(RimeCall::GetProperty { id: 6, prop: text("test"), size: 32 })
    );
    assert_eq!(session.get_property(&rime, "t\0", 32), None);
}

fn engine_fills(value: &[u8], size: usize) -> Vec<u8> {
    let mut buffer: Vec<u8> = vec![0; size];
    for (slot, byte) in buffer.iter_mut().zip(value.iter()) {
        *slot = *byte;
    }
    buffer
}

#[test]
fn property_round_trip() {
    let mut rime = session_engine();
    let session = rime.CreateSession(6);
    let stored: Vec<u8> = match session.set_property(&rime, "test", "value") {
        Some(RimeCall::SetProperty { value, .. }) => value.as_bytes().to_vec(),
        other => panic!("not a property: {:?}", other),
    };
    for size in [6usize, 7, 64] {
        let asked: usize = match session.get_property(&rime, "test", size) {
            Some(RimeCall::GetProperty { size, .. }) => size,
            other => panic!("not a query: {:?}", other),
        };
        assert_eq!(property_value(1, &engine_fills(&stored, asked)), Some(String::from("value")));
    }
    for size in [0usize, 1, 4, 5] {
        assert_eq!(property_value(1, &engine_fills(&stored, size)), None);
    }
    assert_eq!(property_value(0, &engine_fills(b"", 64)), None);
}

#[test]
fn clear_composition_names_the_session() {
    let mut rime = session_engine();
    let session = rime.CreateSession(6);
    assert_eq!(session.clear_composition(&rime), Some(RimeCall::ClearComposition { id: 6 }));
}

#[test]
fn snapshots_are_tied_to_the_session() {
    let mut rime = session_engine();
    let session = rime.CreateSession(23);
    let context = session.context(&mut rime, None, Vec::new()).expect("live");
    let commit = session.commit(&mut rime, None).expect("live");
    let status = session.status(&mut rime, 0, 0, 0).expect("live");
    let list = session.candidates(&mut rime, Vec::new()).expect("live");
    assert_eq!(context.session_id(), 23);
    assert_eq!(commit.session_id(), 23);
    assert_eq!(status.session_id(), 23);
    assert_eq!(list.session_id(), 23);
    assert_eq!(rime.owners(23), 5);
    assert_eq!(context.into_session().session_id(), 23);
    assert_eq!(commit.into_session().session_id(), 23);
    assert_eq!(status.into_session().session_id(), 23);
    assert_eq!(list.into_session().session_id(), 23);
}

#[test]
fn snapshot_keeps_its_session_alive() {
    let mut rime = session_engine();
    let session = rime.CreateSession(9);
    let context = session
        .context(&mut rime, Some(b"zhong".to_vec()), vec![RimeCandidate::new(None, None)])
        .expect("the session is live");
    assert_eq!(rime.owners(9), 2);
    assert_eq!(rime.release(session), None);
    assert!(rime.is_live(9));
    assert_eq!(context.preedit(), "zhong");
    assert_eq!(context.num_candidates(), 1);
    let owner = context.into_session();
    assert_eq!(owner.process_key(&rime, 97), Some(key(9, 97)));
    assert_eq!(rime.release(owner), Some(RimeCall::DestroySession { id: 9 }));
    assert!(!rime.is_live(9));
}

#[test]
fn every_kind_of_snapshot_is_an_owner() {
    let mut rime = session_engine();
    let session = rime.CreateSession(4);
    let commit = session.commit(&mut rime, None).expect("live");
    let status = session.status(&mut rime, 0, 1, 0).expect("live");
    let list = session.candidates(&mut rime, Vec::new()).expect("live");
    assert_eq!(rime.release(session), None);
    assert_eq!(rime.release(commit.into_session()), None);
    assert_eq!(rime.release(status.into_session()), None);
    assert_eq!(rime.owners(4), 1);
    assert_eq!(list.index(), -1);
    assert_eq!(rime.release(list.into_session()), Some(RimeCall::DestroySession { id: 4 }));
}

#[test]
fn teardown_destroys_a_session_that_only_a_snapshot_holds() {
    let mut rime = session_engine();
    let session = rime.CreateSession(4);
    let status = session.status(&mut rime, 0, 0, 0).expect("live");
    assert_eq!(rime.release(session), None);
    let (plan, _) = rime.teardown();
    assert_eq!(plan, vec![RimeCall::DestroySession { id: 4 }, RimeCall::Finalize]);
    assert!(!status.is_composing());
}

#[test]
fn commit_may_be_absent() {
    let mut rime = session_engine();
    let session = rime.CreateSession(1);
    let nothing = session.commit(&mut rime, None).expect("live");
    assert!(!nothing.has_text());
    assert_eq!(nothing.text(), "");
    let empty = session.commit(&mut rime, Some(Vec::new())).expect("live");
    assert!(empty.has_text());
    assert_eq!(empty.text(), "");
    let some = session.commit(&mut rime, Some("中国".as_bytes().to_vec())).expect("live");
    assert!(some.has_text());
    assert_eq!(some.text(), "中国");
    let broken = session.commit(&mut rime, Some(vec![b'a', 0xff])).expect("live");
    assert_eq!(broken.text(), "a\u{fffd}");
}

#[test]
fn status_reads_flags_as_the_engine_gives_them() {
    let mut rime = session_engine();
    let session = rime.CreateSession(1);
    let status = session.status(&mut rime, 0, 1, -1).expect("live");
    assert!(!status.is_disabled());
    assert!(status.is_composing());
    assert!(status.is_ascii_mode());
    let idle = session.status(&mut rime, 2, 0, 0).expect("live");
    assert!(idle.is_disabled());
    assert!(!idle.is_composing());
    assert!(!idle.is_ascii_mode());
    let one = session.status(&mut rime, 1, 1, 1).expect("live");
    let other = session.status(&mut rime, 5, 6, 7).expect("live");
    assert_eq!(one, other);
}

#[test]
fn context_lists_all_candidates_in_rank() {
    let mut rime = session_engine();
    let session = rime.CreateSession(1);
    let candidates: Vec<RimeCandidate> = vec![
        RimeCandidate::new(Some("中国".as_bytes().to_vec()), Some(b"zhong guo".to_vec())),
        RimeCandidate::new(Some("种果".as_bytes().to_vec()), None),
        RimeCandidate::new(None, Some(vec![0xff])),
    ];
    let context =
        session.context(&mut rime, Some(b"zhong guo".to_vec()), candidates).expect("live");
    assert_eq!(context.preedit(), "zhong guo");
    assert_eq!(context.num_candidates(), 3);
    assert_eq!(
        context.all_candidates(),
        vec![
            (String::from("中国"), String::from("zhong guo")),
            (String::from("种果"), String::new()),
            (String::new(), String::from("\u{fffd}")),
        ]
    );
    let none = session.context(&mut rime, None, Vec::new()).expect("live");
    assert_eq!(none.all_candidates(), Vec::new());
}
