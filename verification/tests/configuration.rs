use pf2::configuration::{Configuration, ConfigurationError, TimeMode, DEFAULT_INTERVAL_MS};

#[test]
fn time_mode_cpu() {
    assert_eq!(TimeMode::from_str("cpu"), Ok(TimeMode::CpuTime));
}

#[test]
fn time_mode_wall() {
    assert_eq!(TimeMode::from_str("wall"), Ok(TimeMode::WallTime));
}

#[test]
fn time_mode_other_strings_are_refused() {
    for s in ["", "CPU", "cpu ", "wal", "walls", "real", "cp", "wa\u{300}l"] {
        assert_eq!(TimeMode::from_str(s), Err(ConfigurationError::InvalidTimeMode));
    }
}

#[test]
fn defaults_when_nothing_is_given() {
    let (c, warn) = Configuration::new(None, None, &[3, 4], None, None).unwrap();
    assert!(!warn);
    assert_eq!(DEFAULT_INTERVAL_MS, 49);
    assert_eq!(c.interval_ms(), 49);
    assert_eq!(c.time_mode(), TimeMode::CpuTime);
    assert!(!c.track_new_threads());
    assert_eq!(c.target_ruby_threads().to_vec(), vec![3, 4]);
}

#[test]
fn given_values_are_kept() {
    let (c, warn) =
        Configuration::new(Some(10), Some(&[8, 9]), &[3, 4], Some("wall"), Some(true)).unwrap();
    assert!(!warn);
    assert_eq!(c.interval_ms(), 10);
    assert_eq!(c.time_mode(), TimeMode::WallTime);
    assert!(c.track_new_threads());
    assert_eq!(c.target_ruby_threads().to_vec(), vec![8, 9]);
}

#[test]
fn negative_interval_falls_back_with_warning() {
    let (c, warn) = Configuration::new(Some(-5), None, &[], Some("cpu"), None).unwrap();
    assert!(warn);
    assert_eq!(c.interval_ms(), 49);
}

#[test]
fn invalid_time_mode_is_an_error() {
    let r = Configuration::new(Some(10), None, &[1], Some("fast"), None);
    assert_eq!(r.err(), Some(ConfigurationError::InvalidTimeMode));
}

#[test]
fn target_threads_are_kept_once_each() {
    let (c, _) = Configuration::new(None, Some(&[5, 6, 5, 7, 6]), &[], None, None).unwrap();
    assert_eq!(c.target_ruby_threads().to_vec(), vec![5, 6, 7]);
    assert!(c.target_ruby_threads().contains(6));
    assert!(!c.target_ruby_threads().contains(8));
    assert_eq!(c.target_ruby_threads().len(), 3);
    assert_eq!(c.target_ruby_threads().get(2), 7);
}
