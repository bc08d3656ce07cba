use twitter_tool_rs::api::{Timestamp, Tweet, User};
use twitter_tool_rs::store::{Store, StoreError};
use twitter_tool_rs::user_config::UserConfig;

fn me() -> User {
    User { id: "me".to_string(), name: "Me".to_string(), username: "me_online".to_string() }
}

fn tweet(id: &str, author_id: &str, text: &str) -> Tweet {
    Tweet {
        id: id.to_string(),
        text: text.to_string(),
        created_at: Timestamp::new(2023, 3, 14, 15, 9, 26),
        author_id: author_id.to_string(),
        author_username: Some("bob".to_string()),
        author_name: Some("Bob".to_string()),
        conversation_id: None,
        referenced_tweets: None,
        attachments: None,
        public_metrics: None,
    }
}

fn fresh_store() -> Store {
    Store::new(&me(), UserConfig::new())
}

#[test]
fn second_load_while_in_flight_fails_with_contention() {
    let mut store = fresh_store();
    let first = store.begin_page_load(true);
    assert!(first.is_ok());
    // The second call fails immediately with the contention condition...
    let second = store.begin_page_load(true);
    assert_eq!(second, Err(StoreError::AlreadyInFlight));
    // ...and the first call's eventual result is unaffected.
    store.complete_page_load(vec![tweet("t1", "u1", "one")], Some("cursor-1".to_string()));
    assert_eq!(store.feed_len(), 1);
    assert_eq!(store.feed_id_at(0), Some("t1".to_string()));
}

#[test]
fn next_page_without_token_fails_with_exhaustion() {
    let mut store = fresh_store();
    // No continuation token is stored, so a non-restart load aborts before
    // any network call and leaves the store idle.
    let r = store.begin_page_load(false);
    assert_eq!(r, Err(StoreError::NoMorePages));
    // The pagination slot was not left held: a restart can start at once.
    assert!(store.begin_page_load(true).is_ok());
}

#[test]
fn restart_replaces_ordering_and_append_extends_it() {
    let mut store = fresh_store();

    let token = store.begin_page_load(true).unwrap();
    assert_eq!(token, None);
    store.complete_page_load(
        vec![tweet("t3", "u1", "three"), tweet("t2", "u1", "two"), tweet("t1", "u2", "one")],
        Some("page-2".to_string()),
    );
    assert_eq!(store.feed_len(), 3);

    let token = store.begin_page_load(false).unwrap();
    assert_eq!(token, Some("page-2".to_string()));
    store.complete_page_load(
        vec![tweet("t5", "u2", "five"), tweet("t4", "u1", "four")],
        Some("page-3".to_string()),
    );
    let ids: Vec<Option<String>> = (0..5).map(|i| store.feed_id_at(i)).collect();
    assert_eq!(
        ids,
        vec![
            Some("t3".to_string()),
            Some("t2".to_string()),
            Some("t1".to_string()),
            Some("t5".to_string()),
            Some("t4".to_string())
        ]
    );

    let token = store.begin_page_load(true).unwrap();
    assert_eq!(token, None);
    store.complete_page_load(vec![tweet("t9", "u3", "nine"), tweet("t8", "u3", "eight")], None);

    // The ordering was replaced wholesale...
    assert_eq!(store.feed_len(), 2);
    assert_eq!(store.feed_id_at(0), Some("t9".to_string()));
    assert_eq!(store.feed_id_at(1), Some("t8".to_string()));
    // ...while the tweet set retains every previously merged tweet.
    for id in ["t1", "t2", "t3", "t4", "t5", "t8", "t9"] {
        assert!(store.get_tweet(id).is_some(), "{id} missing from the tweet set");
    }
}

#[test]
fn fetch_failure_aborts_without_merging() {
    let mut store = fresh_store();
    let token = store.begin_page_load(true).unwrap();
    assert_eq!(token, None);
    store.complete_page_load(vec![tweet("t1", "u1", "one")], Some("cursor-1".to_string()));

    assert!(store.begin_page_load(false).is_ok());
    store.abort_page_load();
    // Nothing merged, the continuation token unchanged.
    assert_eq!(store.feed_len(), 1);
    assert_eq!(store.begin_page_load(false).unwrap(), Some("cursor-1".to_string()));
}

#[test]
fn later_fetch_of_same_id_overwrites_stored_copy() {
    let mut store = fresh_store();
    store.begin_page_load(true).unwrap();
    store.complete_page_load(vec![tweet("t1", "u1", "first wording")], Some("c".to_string()));
    store.begin_page_load(false).unwrap();
    store.complete_page_load(vec![tweet("t1", "u1", "revised wording")], None);
    assert_eq!(store.get_tweet("t1").unwrap().text, "revised wording");
    // The ordering keeps both occurrences in arrival order.
    assert_eq!(store.feed_len(), 2);
}

#[test]
fn store_error_messages_name_the_condition() {
    assert_eq!(StoreError::AlreadyInFlight.message(), "Already in-flight");
    assert_eq!(StoreError::NoMorePages.message(), "No more pages");
}
