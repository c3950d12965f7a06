use fragarach::config::Config;

#[test]
fn config_holds_the_keys_it_was_given() {
    let c = Config::new(Some("k1".to_string()), None);
    assert_eq!(c.transpose_api_key(), Some("k1".to_string()));
    assert_eq!(c.urlscan_api_key(), None);
}

#[test]
fn setting_one_key_leaves_the_other() {
    let mut c = Config::new(Some("k1".to_string()), Some("k2".to_string()));
    c.set_transpose_api_key(None);
    assert_eq!(c.transpose_api_key(), None);
    assert_eq!(c.urlscan_api_key(), Some("k2".to_string()));
    c.set_urlscan_api_key(Some("k3".to_string()));
    assert_eq!(c.urlscan_api_key(), Some("k3".to_string()));
    assert_eq!(c.transpose_api_key(), None);
}
