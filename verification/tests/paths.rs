use datafile::fs::{Error, StandardPaths};

#[test]
fn config_with_name_appends_the_application_name() {
    match StandardPaths::config_with_name("myapp") {
        Ok(p) => assert!(p.ends_with("/myapp")),
        Err(e) => assert!(matches!(e, Error::HomeNotFound)),
    }
}

#[test]
fn cache_with_name_appends_the_application_name() {
    match StandardPaths::cache_with_name("myapp") {
        Ok(p) => assert!(p.ends_with("/myapp")),
        Err(e) => assert!(matches!(e, Error::HomeNotFound)),
    }
}

#[test]
fn config_and_cache_differ_for_the_same_name() {
    let config = StandardPaths::config_path();
    let cache = StandardPaths::cache_path();
    if let (Ok(config), Ok(cache)) = (config, cache) {
        assert_ne!(config, cache);
    }
}
