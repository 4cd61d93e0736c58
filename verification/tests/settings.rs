use pciewatch::config::{load_config, Config, ConfigFile};

fn parsed(cfg: Config) -> (Config, Vec<String>) {
    load_config(ConfigFile::Parsed(cfg))
}

#[test]
fn first_run_uses_defaults_silently() {
    let (cfg, lines) = load_config(ConfigFile::Missing);
    assert_eq!(cfg, Config::default());
    assert!(lines.is_empty());
    assert_eq!(
        cfg,
        Config {
            gpu_index: 0,
            baseline_gen: 3,
            baseline_width: 16,
            poll_ms: 5000,
            width_debounce: 3,
            util_active_threshold: 20,
        }
    );
}

#[test]
fn broken_file_uses_defaults_and_says_so() {
    let (cfg, lines) = load_config(ConfigFile::Unparseable);
    assert_eq!(cfg, Config::default());
    assert_eq!(
        lines,
        vec!["config.json unparseable — using defaults".to_string()]
    );
}

#[test]
fn sane_values_are_kept() {
    let cfg = Config {
        gpu_index: 2,
        baseline_gen: 5,
        baseline_width: 8,
        poll_ms: 1000,
        width_debounce: 10,
        util_active_threshold: 100,
    };
    assert_eq!(parsed(cfg), (cfg, vec![]));
    let cfg = Config {
        poll_ms: 3_600_000,
        width_debounce: 1,
        util_active_threshold: 0,
        ..cfg
    };
    assert_eq!(parsed(cfg), (cfg, vec![]));
}

#[test]
fn low_values_are_clamped() {
    let (cfg, lines) = parsed(Config {
        poll_ms: 0,
        width_debounce: 0,
        ..Config::default()
    });
    assert_eq!((cfg.poll_ms, cfg.width_debounce), (1000, 1));
    assert_eq!(
        lines,
        vec![
            "config: poll_ms 0 out of range — clamped to 1000".to_string(),
            "config: width_debounce 0 out of range — clamped to 1".to_string(),
        ]
    );
}

#[test]
fn high_values_are_clamped() {
    let (cfg, lines) = parsed(Config {
        poll_ms: 18446744073709551615,
        width_debounce: 11,
        util_active_threshold: 101,
        ..Config::default()
    });
    assert_eq!(
        (cfg.poll_ms, cfg.width_debounce, cfg.util_active_threshold),
        (3_600_000, 10, 100)
    );
    assert_eq!(
        lines,
        vec![
            "config: poll_ms 18446744073709551615 out of range — clamped to 3600000".to_string(),
            "config: width_debounce 11 out of range — clamped to 10".to_string(),
            "config: util_active_threshold 101 out of range — clamped to 100".to_string(),
        ]
    );
    assert_eq!(parsed(cfg), (cfg, vec![]));
}
