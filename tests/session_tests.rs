use chat_stream::profile::User;
use chat_stream::room_code::chat_path;
use chat_stream::session::{Phase, SessionController};
use chat_stream::store::{get_user, save_user, Backend, ProfileStore, StorageError};

fn is_canonical(code: &str) -> bool {
    let chars: Vec<char> = code.chars().collect();
    chars.len() == 36
        && chars.iter().enumerate().all(|(i, c)| {
            if i == 8 || i == 13 || i == 18 || i == 23 {
                *c == '-'
            } else {
                c.is_ascii_digit() || ('a'..='f').contains(c)
            }
        })
}

#[test]
fn new_session_starts_on_empty_form() {
    let s = SessionController::new(None);
    assert_eq!(s.phase(), Phase::Entry);
    assert_eq!(s.name(), "");
    assert_eq!(s.email(), "");
    assert_eq!(s.phone(), "");
    assert_eq!(s.room_code(), "");
    assert!(s.is_create_flow());
    let j = SessionController::new(Some("abc123".to_string()));
    assert_eq!(j.room_code(), "abc123");
    assert!(!j.is_create_flow());
}

#[test]
fn empty_code_mints_and_navigates_once() {
    let mut s = SessionController::new(None);
    let nav = s.finish_submit(Ok(()));
    assert_eq!(s.phase(), Phase::Joined);
    assert!(is_canonical(s.room_code()));
    assert_eq!(nav, Some(chat_path(s.room_code())));
    assert!(nav.unwrap().starts_with("/chat?code="));
}

#[test]
fn present_code_joins_without_navigation() {
    let mut s = SessionController::new(Some("abc123".to_string()));
    let nav = s.finish_submit(Ok(()));
    assert_eq!(s.phase(), Phase::Joined);
    assert_eq!(nav, None);
    assert_eq!(s.room_code(), "abc123");
}

#[test]
fn failed_save_still_joins_and_navigates() {
    let mut store = ProfileStore::new(Backend::Faulty);
    let mut s = SessionController::new(None);
    s.set_name("Ada".to_string());
    let nav = s.submit(&mut store, 10);
    assert_eq!(s.phase(), Phase::Joined);
    assert!(is_canonical(s.room_code()));
    assert_eq!(nav, Some(chat_path(s.room_code())));
    assert_eq!(store.record_count(), 0);

    let mut t = SessionController::new(Some("abc123".to_string()));
    assert_eq!(t.finish_submit(Err(StorageError::TransactionError)), None);
    assert_eq!(t.phase(), Phase::Joined);
    assert_eq!(t.room_code(), "abc123");
}

#[test]
fn scenario_create_room() {
    let mut store = ProfileStore::new(Backend::Persistent);
    let mut s = SessionController::new(None);
    s.mount(&store);
    s.set_name("Ada".to_string());
    let nav = s.submit(&mut store, 1_700_000_000_000);
    assert_eq!(s.phase(), Phase::Joined);
    let code = s.room_code().to_string();
    assert_eq!(code.len(), 36);
    assert!(is_canonical(&code));
    assert_eq!(nav, Some(format!("/chat?code={}", code)));
    let loaded = get_user(&store).unwrap().unwrap();
    assert_eq!(loaded.name, "Ada");
    assert_eq!(loaded.email, "");
    assert_eq!(loaded.created_at, 1_700_000_000_000);
}

#[test]
fn scenario_join_room() {
    let mut store = ProfileStore::new(Backend::Persistent);
    let mut s = SessionController::new(Some("room-42".to_string()));
    s.mount(&store);
    let nav = s.submit(&mut store, 7);
    assert_eq!(s.phase(), Phase::Joined);
    assert_eq!(s.room_code(), "room-42");
    assert_eq!(nav, None);
    assert_eq!(
        get_user(&store),
        Ok(Some(User::new(String::new(), String::new(), String::new(), 7)))
    );
}

#[test]
fn mount_prefills_from_saved_profile() {
    let mut store = ProfileStore::new(Backend::Persistent);
    save_user(
        &mut store,
        User::new("Ada".to_string(), "ada@example.com".to_string(), "123".to_string(), 3),
    )
    .unwrap();
    let mut s = SessionController::new(None);
    s.set_phone("999".to_string());
    s.mount(&store);
    assert_eq!(s.name(), "Ada");
    assert_eq!(s.email(), "ada@example.com");
    assert_eq!(s.phone(), "123");
    assert_eq!(s.phase(), Phase::Entry);
}

#[test]
fn failed_or_empty_load_keeps_the_form() {
    let mut s = SessionController::new(None);
    s.set_name("typed".to_string());
    s.apply_loaded_profile(Ok(None));
    assert_eq!(s.name(), "typed");
    s.apply_loaded_profile(Err(StorageError::SerializationError));
    assert_eq!(s.name(), "typed");
    s.mount(&ProfileStore::new(Backend::Faulty));
    assert_eq!(s.name(), "typed");
}

#[test]
fn submission_builds_profile_from_form() {
    let mut s = SessionController::new(None);
    s.set_name("Ada".to_string());
    s.set_email("ada@example.com".to_string());
    s.set_phone("123".to_string());
    let u = s.begin_submit(99).unwrap();
    assert_eq!(u.name, "Ada");
    assert_eq!(u.email, "ada@example.com");
    assert_eq!(u.phone, "123");
    assert_eq!(u.created_at, 99);
}

#[test]
fn joined_session_ignores_further_submits() {
    let mut store = ProfileStore::new(Backend::Persistent);
    let mut s = SessionController::new(Some("abc123".to_string()));
    s.submit(&mut store, 1);
    assert_eq!(s.begin_submit(2), None);
    s.set_name("Later".to_string());
    assert_eq!(s.submit(&mut store, 2), None);
    assert_eq!(s.room_code(), "abc123");
    assert_eq!(get_user(&store).unwrap().unwrap().created_at, 1);
}
