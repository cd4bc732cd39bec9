use snipet::session::{encode_session, parse_session, Session, SessionStore};

fn sample() -> Session {
    Session {
        email: String::from("a@b.com"),
        token: String::from("tok123"),
        user_id: String::from("u1"),
        server: String::from("http://127.0.0.1:8090"),
    }
}

#[test]
fn save_then_load_returns_equal_session() {
    let mut store = SessionStore::absent();
    store.save(&sample());
    let loaded = store.load().unwrap();
    assert_eq!(loaded.email, "a@b.com");
    assert_eq!(loaded.token, "tok123");
    assert_eq!(loaded.user_id, "u1");
    assert_eq!(loaded.server, "http://127.0.0.1:8090");
}

#[test]
fn round_trip_survives_special_characters() {
    let s = Session {
        email: String::from("odd\nname@x.y"),
        token: String::from("a\\b\nc=d token\\n"),
        user_id: String::from(""),
        server: String::from("http://h/\n\\"),
    };
    let text = encode_session(&s);
    let back = parse_session(&text).unwrap();
    assert_eq!(back.email, s.email);
    assert_eq!(back.token, s.token);
    assert_eq!(back.user_id, s.user_id);
    assert_eq!(back.server, s.server);
}

#[test]
fn encoding_is_a_key_value_file() {
    let text = encode_session(&sample());
    assert_eq!(
        text,
        "email=a@b.com\ntoken=tok123\nuser_id=u1\nserver=http://127.0.0.1:8090\n"
    );
}

#[test]
fn clear_on_absent_store_succeeds_and_loads_absent() {
    let mut store = SessionStore::absent();
    store.clear();
    assert!(store.load().is_none());
    assert!(store.clear_then_load().is_none());
}

#[test]
fn clear_after_save_forgets_the_session() {
    let mut store = SessionStore::absent();
    store.save(&sample());
    store.clear();
    assert!(store.load().is_none());
    assert!(store.contents.is_none());
}

#[test]
fn absent_store_loads_absent() {
    let store = SessionStore::absent();
    assert!(store.load().is_none());
}

#[test]
fn unparseable_file_loads_absent() {
    let store = SessionStore::from_file(String::from("not a session file"));
    assert!(store.load().is_none());
    let store = SessionStore::from_file(String::from("email=a\n"));
    assert!(store.load().is_none());
    let store = SessionStore::from_file(String::from(""));
    assert!(store.load().is_none());
}

#[test]
fn trailing_garbage_is_rejected() {
    let mut text = encode_session(&sample());
    text.push_str("extra");
    assert!(parse_session(&text).is_none());
}

#[test]
fn store_save_then_load_helper() {
    let mut store = SessionStore::absent();
    let loaded = store.save_then_load(&sample()).unwrap();
    assert_eq!(loaded.email, "a@b.com");
    assert_eq!(loaded.token, "tok123");
}

#[test]
fn empty_token_means_not_logged_in() {
    let mut s = sample();
    assert!(s.is_logged_in());
    s.token = String::new();
    assert!(!s.is_logged_in());
}
