use erudition::item::Item;
use erudition::shared::{Auth, SessionId};
use erudition::state::ServerState;
use erudition::storage::StoredData;

#[test]
fn signin_then_login() {
    let mut state = ServerState::new(StoredData::new());
    let id = state.signin(Auth::new("alice".to_string(), "secret".to_string())).expect("signed in");
    assert_eq!(id.0.len(), 64);
    assert_eq!(state.session_user(&id).map(|u| u.0.as_str()), Some("alice"));
    assert!(state.check_credentials(&Auth::new("alice".to_string(), "secret".to_string())));
    assert!(!state.check_credentials(&Auth::new("alice".to_string(), "wrong".to_string())));

    let again = state.login(Auth::new("alice".to_string(), "secret".to_string())).expect("logged in");
    assert_ne!(again, id);
    assert_eq!(state.session_user(&again).map(|u| u.0.as_str()), Some("alice"));
    assert_eq!(state.session_user(&id).map(|u| u.0.as_str()), Some("alice"));
}

#[test]
fn signin_twice_is_refused() {
    let mut state = ServerState::new(StoredData::new());
    assert!(state.signin(Auth::new("bob".to_string(), "one".to_string())).is_some());
    assert!(state.signin(Auth::new("bob".to_string(), "two".to_string())).is_none());
    assert!(state.check_credentials(&Auth::new("bob".to_string(), "one".to_string())));
    assert!(!state.check_credentials(&Auth::new("bob".to_string(), "two".to_string())));
}

#[test]
fn login_refuses_unknown_users_and_wrong_passwords() {
    let mut state = ServerState::new(StoredData::new());
    assert!(state.login(Auth::new("carol".to_string(), "pw".to_string())).is_none());
    assert!(state.signin(Auth::new("carol".to_string(), "pw".to_string())).is_some());
    assert!(state.login(Auth::new("carol".to_string(), "nope".to_string())).is_none());
    assert!(state.session_user(&SessionId("x".to_string())).is_none());
}

#[test]
fn state_items_and_feedback() {
    let mut state = ServerState::new(StoredData::new());
    state.add_feedback("nice".to_string());
    state.add_item(Item::MultipleChoice { answers: vec!["b".to_string()], question: "a".to_string() });
    let old = state.edit_item(0, Item::MultipleChoice { answers: vec![], question: "c".to_string() });
    assert_eq!(old, Some(Item::MultipleChoice { answers: vec!["b".to_string()], question: "a".to_string() }));
    assert_eq!(state.get_items()[0].question(), "c");
    assert_eq!(state.get_feedback(), &["nice".to_string()]);
    assert_eq!(state.edit_item(5, Item::MultipleChoice { answers: vec![], question: "d".to_string() }), None);
}

#[test]
fn start_session_uses_the_given_bytes() {
    let mut state = ServerState::new(StoredData::new());
    let id = state.start_session(erudition::shared::Username("dan".to_string()), &[0, 93, 200]);
    assert_eq!(id.0, "!~-");
    assert_eq!(state.session_user(&id).map(|u| u.0.as_str()), Some("dan"));
}

#[test]
fn register_with_given_salts() {
    let mut state = ServerState::new(StoredData::new());
    let auth = Auth::new("erin".to_string(), "pw".to_string());
    assert!(state.register(&auth, &[7u8; 16]));
    assert!(state.check_credentials(&auth));
    assert!(!state.register(&Auth::new("erin".to_string(), "other".to_string()), &[1u8; 16]));
    assert!(state.check_credentials(&auth));
    let short = Auth::new("frank".to_string(), "pw".to_string());
    assert!(!state.register(&short, &[1u8; 2]));
    assert!(!state.register(&short, &[1u8; 5]));
    assert!(!state.check_credentials(&short));
    assert!(state.register(&short, &[1u8; 8]));
    assert!(state.check_credentials(&short));
}

#[test]
fn register_hashes_with_the_given_salt() {
    let auth = Auth::new("gail".to_string(), "pw".to_string());
    let mut a = ServerState::new(StoredData::new());
    let mut b = ServerState::new(StoredData::new());
    let mut c = ServerState::new(StoredData::new());
    assert!(a.register(&auth, &[3u8; 16]));
    assert!(b.register(&auth, &[3u8; 16]));
    assert!(c.register(&auth, &[4u8; 16]));
    let name = erudition::shared::Username("gail".to_string());
    let ha = a.stored().get_user(&name).unwrap().clone();
    let hb = b.stored().get_user(&name).unwrap().clone();
    let hc = c.stored().get_user(&name).unwrap().clone();
    assert_eq!(ha, hb);
    assert_ne!(ha, hc);
    assert_ne!(ha.0, "pw");
}
