use watchd::cli::Options;
use watchd::config::{Config, ConfigError, RawConfig, RawDelay, RawEntry};

fn options() -> Options {
    Options {
        config: "/etc/watchd/config.toml".to_string(),
        init: false,
        verbose: false,
        dry_run: false,
    }
}

fn entry(path: &str, commands: Vec<&str>) -> RawEntry {
    RawEntry {
        path: path.to_string(),
        path_exists: true,
        recursive: None,
        delay: None,
        excludes: None,
        commands: commands.into_iter().map(|s| s.to_string()).collect(),
    }
}

fn raw(entries: Vec<RawEntry>) -> RawConfig {
    RawConfig {
        init: None,
        dry_run: None,
        verbose: None,
        entries,
    }
}

fn load(options: Options, raw: RawConfig) -> Config {
    match Config::from(options, Ok(raw)) {
        Ok(c) => c,
        Err(_) => panic!("configuration should be valid"),
    }
}

fn entry_paths(config: &Config) -> Vec<String> {
    config.entries.iter().map(|e| e.path.clone()).collect()
}

#[test]
fn absent_fields_take_their_defaults() {
    let config = load(options(), raw(vec![entry("/a", vec!["make"])]));
    assert!(!config.init);
    assert!(!config.dry_run);
    assert!(!config.verbose);
    assert_eq!(config.entries.len(), 1);
    assert!(!config.entries[0].recursive);
    assert_eq!(config.entries[0].delay_ms, 0);
    assert_eq!(config.entries[0].excludes.len(), 0);
    assert_eq!(config.entries[0].commands, vec!["make".to_string()]);
}

#[test]
fn file_flags_and_entry_fields_are_taken() {
    let mut r = raw(vec![entry("/a", vec!["c1", "c2"])]);
    r.init = Some(true);
    r.verbose = Some(true);
    r.entries[0].recursive = Some(true);
    r.entries[0].delay = Some(RawDelay { negative: false, millis: 2500 });
    let config = load(options(), r);
    assert!(config.init);
    assert!(config.verbose);
    assert!(!config.dry_run);
    assert!(config.entries[0].recursive);
    assert_eq!(config.entries[0].delay_ms, 2500);
    assert_eq!(
        config.entries[0].commands,
        vec!["c1".to_string(), "c2".to_string()]
    );
}

#[test]
fn command_line_overrides_file_flags() {
    let mut opts = options();
    opts.dry_run = true;
    opts.init = true;
    let mut r = raw(vec![entry("/a", vec!["make"])]);
    r.dry_run = Some(false);
    let config = load(opts, r);
    assert!(config.dry_run);
    assert!(config.init);
}

#[test]
fn missing_path_is_rejected() {
    let mut e = entry("/gone", vec!["make"]);
    e.path_exists = false;
    match Config::from(options(), Ok(raw(vec![e]))) {
        Err(ConfigError::MissingPath { path }) => assert_eq!(path, "/gone"),
        _ => panic!("a missing path must be rejected"),
    }
}

#[test]
fn negative_delay_is_rejected() {
    let mut e = entry("/a", vec!["make"]);
    e.delay = Some(RawDelay { negative: true, millis: 500 });
    match Config::from(options(), Ok(raw(vec![e]))) {
        Err(ConfigError::NegativeDelay { path }) => assert_eq!(path, "/a"),
        _ => panic!("a negative delay must be rejected"),
    }
}

#[test]
fn bad_exclude_pattern_is_rejected() {
    let mut e = entry("/a", vec!["make"]);
    e.excludes = Some(vec!["ok.*".to_string(), "(".to_string()]);
    match Config::from(options(), Ok(raw(vec![e]))) {
        Err(ConfigError::BadPattern { path, pattern }) => {
            assert_eq!(path, "/a");
            assert_eq!(pattern, "(");
        },
        _ => panic!("an invalid pattern must be rejected"),
    }
}

#[test]
fn parse_failure_is_passed_through() {
    let parse_error = ConfigError::Unreadable { path: "/etc/watchd/config.toml".to_string() };
    match Config::from(options(), Err(parse_error)) {
        Err(ConfigError::Unreadable { path }) => {
            assert_eq!(path, "/etc/watchd/config.toml");
        },
        _ => panic!("a parse failure must be passed through"),
    }
}

#[test]
fn malformed_file_is_passed_through() {
    let parse_error = ConfigError::Malformed { message: "expected a table".to_string() };
    match Config::from(options(), Err(parse_error)) {
        Err(ConfigError::Malformed { message }) => {
            assert_eq!(message, "expected a table");
        },
        _ => panic!("a malformed file must be passed through"),
    }
}

#[test]
fn first_invalid_entry_is_reported() {
    let mut bad_delay = entry("/b", vec!["make"]);
    bad_delay.delay = Some(RawDelay { negative: true, millis: 1 });
    let mut bad_path = entry("/c", vec!["make"]);
    bad_path.path_exists = false;
    let r = raw(vec![entry("/a", vec!["make"]), bad_delay, bad_path]);
    match Config::from(options(), Ok(r)) {
        Err(ConfigError::NegativeDelay { path }) => assert_eq!(path, "/b"),
        _ => panic!("the first invalid entry decides the error"),
    }
}

#[test]
fn duplicate_path_keeps_the_later_entry() {
    let config = load(
        options(),
        raw(vec![entry("/a", vec!["old"]), entry("/a", vec!["new"])]),
    );
    assert_eq!(config.entries.len(), 1);
    assert_eq!(config.entries[0].commands, vec!["new".to_string()]);
}

#[test]
fn reload_with_unreadable_file_rolls_back() {
    let mut config = load(
        options(),
        raw(vec![entry("/a", vec!["ca"]), entry("/b", vec!["cb"])]),
    );
    let r = config.reload(Err(ConfigError::Unreadable {
        path: "/etc/watchd/config.toml".to_string(),
    }));
    assert!(r.is_err());
    assert_eq!(entry_paths(&config), vec!["/a".to_string(), "/b".to_string()]);
    assert_eq!(config.entries[0].commands, vec!["ca".to_string()]);
    assert_eq!(config.entries[1].commands, vec!["cb".to_string()]);
}

#[test]
fn reload_with_invalid_entry_rolls_back() {
    let mut config = load(
        options(),
        raw(vec![entry("/a", vec!["ca"]), entry("/b", vec!["cb"])]),
    );
    let mut bad = entry("/nowhere", vec!["cc"]);
    bad.path_exists = false;
    let r = config.reload(Ok(raw(vec![entry("/a", vec!["ca"]), bad])));
    match r {
        Err(ConfigError::MissingPath { path }) => assert_eq!(path, "/nowhere"),
        _ => panic!("an invalid reload must fail"),
    }
    assert_eq!(entry_paths(&config), vec!["/a".to_string(), "/b".to_string()]);
    assert_eq!(config.entries[0].commands, vec!["ca".to_string()]);
    assert_eq!(config.entries[1].commands, vec!["cb".to_string()]);
}

#[test]
fn reload_with_valid_config_replaces_entries() {
    let mut config = load(
        options(),
        raw(vec![entry("/a", vec!["ca"]), entry("/b", vec!["cb"])]),
    );
    let r = config.reload(Ok(raw(vec![entry("/a", vec!["ca"]), entry("/c", vec!["cc"])])));
    assert!(r.is_ok());
    assert_eq!(entry_paths(&config), vec!["/a".to_string(), "/c".to_string()]);
    assert_eq!(config.entries[1].commands, vec!["cc".to_string()]);
}

#[test]
fn reload_reapplies_command_line_overrides() {
    let mut opts = options();
    opts.dry_run = true;
    let mut config = load(opts, raw(vec![entry("/a", vec!["make"])]));
    assert!(config.dry_run);
    let r = config.reload(Ok(raw(vec![entry("/a", vec!["make"])])));
    assert!(r.is_ok());
    assert!(config.dry_run);
}

#[test]
fn options_default_names_the_stock_file() {
    let opts = Options::default();
    assert_eq!(opts.config_path(), "/etc/watchd/config.toml");
    assert!(!opts.init);
    assert!(!opts.verbose);
    assert!(!opts.dry_run);
}

#[test]
fn config_path_returns_the_given_file() {
    let mut opts = Options::default();
    opts.config = "/tmp/other.toml".to_string();
    assert_eq!(opts.config_path(), "/tmp/other.toml");
}
