use pastebin::handlers::{paste_page, submit_paste};
use pastebin::pages::{
    landing_page, redirect_location, render_paste_page, LANDING_PAGE, PASTE_PAGE_PREFIX,
    PASTE_PAGE_SUFFIX,
};
use pastebin::store::{PasteStore, StoreError};
use pastebin::token::generate_token;

#[test]
fn round_trip_insert_lookup() {
    let mut store = PasteStore::new();
    let r = store.insert("abcde01234".to_string(), "hello".to_string());
    assert_eq!(r, Ok(()));
    let content = store.lookup(&"abcde01234".to_string());
    assert_eq!(content, "hello");
}

#[test]
fn token_length_and_alphabet() {
    for _ in 0..50 {
        let t = generate_token().unwrap();
        assert_eq!(t.chars().count(), 10);
        assert!(t.chars().all(|c| c.is_ascii_alphanumeric()));
    }
}

#[test]
fn lookup_missing_returns_sentinel() {
    let store = PasteStore::new();
    let content = store.lookup(&"doesnotexist".to_string());
    assert_eq!(content, "Paste not found");
}

#[test]
fn duplicate_insert_fails_cleanly() {
    let mut store = PasteStore::new();
    let first = store.insert("abcde01234".to_string(), "first".to_string());
    assert_eq!(first, Ok(()));
    let second = store.insert("abcde01234".to_string(), "second".to_string());
    assert_eq!(second, Err(StoreError::DuplicateToken));
    let content = store.lookup(&"abcde01234".to_string());
    assert_eq!(content, "first");
}

#[test]
fn distinct_tokens_for_two_submissions() {
    let mut store = PasteStore::new();
    let t1 = submit_paste(&mut store, "payload one".to_string()).unwrap();
    let t2 = submit_paste(&mut store, "payload two".to_string()).unwrap();
    assert_ne!(t1, t2);
}

#[test]
fn landing_page_is_fixed_and_complete() {
    let page = landing_page();
    assert_eq!(page, LANDING_PAGE);
    assert!(page.contains("<form action='/submit' method='post'>"));
    assert!(page.contains("name='content'"));
}

#[test]
fn render_page_embeds_content_exactly() {
    let page = render_paste_page(&"abc".to_string());
    assert_eq!(page, format!("{}{}{}", PASTE_PAGE_PREFIX, "abc", PASTE_PAGE_SUFFIX));
}

#[test]
fn redirect_location_exact() {
    let loc = redirect_location(&"abcde01234".to_string());
    assert_eq!(loc, "/paste/abcde01234");
}

#[test]
fn submit_hello_world_scenario() {
    let mut store = PasteStore::new();
    let token = submit_paste(&mut store, "hello world".to_string()).unwrap();
    assert_eq!(token.chars().count(), 10);
    assert!(token.chars().all(|c| c.is_ascii_alphanumeric()));
    let loc = redirect_location(&token);
    assert_eq!(loc, format!("/paste/{}", token));
    let page = paste_page(&store, &token);
    assert!(page.contains("hello world"));
}

#[test]
fn get_missing_paste_scenario() {
    let store = PasteStore::new();
    let page = paste_page(&store, &"doesnotexist".to_string());
    assert!(page.contains("Paste not found"));
}

#[test]
fn empty_content_round_trip() {
    let mut store = PasteStore::new();
    let token = submit_paste(&mut store, String::new()).unwrap();
    let content = store.lookup(&token);
    assert_eq!(content, "");
}

#[test]
fn many_pastes_each_retrievable() {
    let mut store = PasteStore::new();
    let mut tokens = Vec::new();
    for i in 0..20 {
        let token = submit_paste(&mut store, format!("content {}", i)).unwrap();
        tokens.push(token);
    }
    for (i, token) in tokens.iter().enumerate() {
        assert_eq!(store.lookup(token), format!("content {}", i));
    }
}
