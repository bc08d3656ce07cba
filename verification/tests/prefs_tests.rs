use twitter_tool_rs::api::User;
use twitter_tool_rs::user_config::UserConfig;

fn user(id: &str, name: &str, username: &str) -> User {
    User { id: id.to_string(), name: name.to_string(), username: username.to_string() }
}

fn entries_of(cfg: &UserConfig) -> Vec<(String, String, String)> {
    cfg.entries()
        .iter()
        .map(|(k, u)| (k.clone(), u.name.clone(), u.username.clone()))
        .collect()
}

#[test]
fn star_then_unstar_restores_the_exact_prior_value() {
    let mut cfg = UserConfig::new();
    cfg.star_account(&user("u1", "Alice", "alice"));
    let before = entries_of(&cfg);

    cfg.star_account(&user("u2", "Bob", "bob"));
    assert!(cfg.is_starred("u2"));
    cfg.unstar_account(&user("u2", "Bob", "bob"));

    assert!(!cfg.is_starred("u2"));
    assert_eq!(entries_of(&cfg), before);
}

#[test]
fn unstar_then_star_restores_the_exact_prior_value() {
    let mut cfg = UserConfig::new();
    cfg.star_account(&user("u1", "Alice", "alice"));
    cfg.star_account(&user("u2", "Bob", "bob"));
    let before = entries_of(&cfg);

    cfg.unstar_account(&user("u1", "Alice", "alice"));
    assert!(!cfg.is_starred("u1"));
    cfg.star_account(&user("u1", "Alice", "alice"));

    assert!(cfg.is_starred("u1"));
    let mut after = entries_of(&cfg);
    let mut expected = before.clone();
    after.sort();
    expected.sort();
    assert_eq!(after, expected);
}

#[test]
fn starring_twice_is_idempotent() {
    let mut cfg = UserConfig::new();
    cfg.star_account(&user("u1", "Alice", "alice"));
    cfg.star_account(&user("u1", "Alice", "alice"));
    assert_eq!(cfg.entries().len(), 1);
    assert!(cfg.is_starred("u1"));
}

#[test]
fn unstarring_a_non_starred_user_is_a_no_op() {
    let mut cfg = UserConfig::new();
    cfg.unstar_account(&user("u1", "Alice", "alice"));
    assert!(!cfg.is_starred("u1"));
    assert_eq!(cfg.entries().len(), 0);
}

#[test]
fn preferences_rebuild_from_stored_entries() {
    let mut cfg = UserConfig::new();
    cfg.star_account(&user("u1", "Alice", "alice"));
    cfg.star_account(&user("u2", "Bob", "bob"));

    let entries: Vec<(String, User)> =
        cfg.entries().iter().map(|(k, u)| (k.clone(), u.clone())).collect();
    let rebuilt = UserConfig::from_entries(entries);
    assert!(rebuilt.is_starred("u1"));
    assert!(rebuilt.is_starred("u2"));
    assert!(!rebuilt.is_starred("u3"));
}
