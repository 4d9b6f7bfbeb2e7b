use backend::cache::{blacklist_key, refresh_token_key};

#[test]
fn refresh_key_has_prefix() {
    assert_eq!(refresh_token_key("abc"), "refresh_token:abc");
}

#[test]
fn blacklist_key_has_prefix() {
    assert_eq!(blacklist_key("j-1"), "blacklist:j-1");
}

#[test]
fn keys_of_empty_ids() {
    assert_eq!(refresh_token_key(""), "refresh_token:");
    assert_eq!(blacklist_key(""), "blacklist:");
}

#[test]
fn key_namespaces_do_not_collide() {
    assert_ne!(refresh_token_key("x"), blacklist_key("x"));
    assert_ne!(refresh_token_key("a"), refresh_token_key("b"));
}
