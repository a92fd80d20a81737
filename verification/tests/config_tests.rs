use qbittorrent_mover::config::{Categories, Config, ServerConfig, CONFIG_FILE};

#[test]
fn test_default_config() {
    let config = Config::default();
    assert!(config.servers.is_empty());
    assert_eq!(config.rate_limit_delay, 5);
    assert_eq!(config.log_file, "qbittorrent-mover.log");
    assert_eq!(config.max_log_file_size, "10M");
}

#[test]
fn test_default_server_config() {
    let server_config = ServerConfig::default();
    assert_eq!(server_config.qbit_url, "http://localhost:8080");
    assert_eq!(server_config.username, "admin");
    assert_eq!(server_config.password, "adminadmin");
    assert_eq!(server_config.categories, Categories::new());
}

#[test]
fn default_server_config_has_no_paths() {
    let server_config = ServerConfig::default();
    assert!(server_config.categories.is_empty());
    assert!(server_config.categories.names().is_empty());
    assert_eq!(server_config.root_path, None);
    assert_eq!(server_config.path_prefix, None);
}

#[test]
fn config_file_name() {
    assert_eq!(CONFIG_FILE, "config.yaml");
}

#[test]
fn categories_insert_then_get() {
    let mut categories = Categories::new();
    categories.insert("movies".to_string(), "/dest".to_string());
    categories.insert("music".to_string(), "/music".to_string());
    assert_eq!(categories.get("movies"), Some(&"/dest".to_string()));
    assert_eq!(categories.get("music"), Some(&"/music".to_string()));
    assert_eq!(categories.get("books"), None);
    assert!(!categories.is_empty());
}

#[test]
fn categories_insert_replaces() {
    let mut categories = Categories::new();
    categories.insert("movies".to_string(), "/old".to_string());
    categories.insert("music".to_string(), "/music".to_string());
    categories.insert("movies".to_string(), "/new".to_string());
    assert_eq!(categories.get("movies"), Some(&"/new".to_string()));
    assert_eq!(categories.get("music"), Some(&"/music".to_string()));
    let mut names = categories.names();
    names.sort();
    assert_eq!(names, vec!["movies".to_string(), "music".to_string()]);
}

#[test]
fn categories_get_is_exact_about_names() {
    let mut categories = Categories::new();
    categories.insert("movies".to_string(), "/dest".to_string());
    assert_eq!(categories.get("movie"), None);
    assert_eq!(categories.get("Movies"), None);
    assert_eq!(categories.get(""), None);
}

#[test]
fn categories_equal_whatever_the_order() {
    let mut first = Categories::new();
    first.insert("movies".to_string(), "/dest".to_string());
    first.insert("music".to_string(), "/music".to_string());
    let mut second = Categories::new();
    second.insert("music".to_string(), "/music".to_string());
    second.insert("movies".to_string(), "/dest".to_string());
    assert_eq!(first, second);

    let mut third = Categories::new();
    third.insert("movies".to_string(), "/dest".to_string());
    assert_ne!(first, third);
    assert_ne!(third, first);

    let mut fourth = Categories::new();
    fourth.insert("movies".to_string(), "/dest".to_string());
    fourth.insert("music".to_string(), "/elsewhere".to_string());
    assert_ne!(first, fourth);
}

#[test]
fn categories_clone_keeps_the_mapping() {
    let mut categories = Categories::new();
    categories.insert("movies".to_string(), "/dest".to_string());
    let copy = categories.clone();
    assert_eq!(copy, categories);
    assert_eq!(copy.get("movies"), Some(&"/dest".to_string()));
}

#[test]
fn server_configs_compare_by_their_fields() {
    let mut first = ServerConfig::default();
    let second = ServerConfig::default();
    assert_eq!(first, second);
    first.categories.insert("movies".to_string(), "/dest".to_string());
    assert_ne!(first, second);
}

#[test]
fn clones_say_the_same() {
    let mut server = ServerConfig::default();
    server.categories.insert("movies".to_string(), "/dest".to_string());
    server.root_path = Some("/mnt/staging".to_string());
    server.path_prefix = Some("/data".to_string());
    assert_eq!(server.clone(), server);

    let mut config = Config::default();
    config.servers.push(server.clone());
    config.servers.push(ServerConfig::default());
    config.rate_limit_delay = 9;
    let copy = config.clone();
    assert_eq!(copy.servers, config.servers);
    assert_eq!(copy.rate_limit_delay, 9);
    assert_eq!(copy.log_file, config.log_file);
    assert_eq!(copy.max_log_file_size, config.max_log_file_size);
}
