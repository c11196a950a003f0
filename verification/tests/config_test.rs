use rustratify::Config;
use rustratify::DefaultConfig;
use rustratify::Duration;

#[test]
fn test_default_config() {
    let config = DefaultConfig::new().with_name("test").with_timeout_ms(5000).verbose();

    assert_eq!(config.name(), "test");
    assert_eq!(config.timeout(), Some(Duration::from_millis(5000)));
    assert!(config.is_verbose());
    assert!(!config.is_debug());
}

#[test]
fn test_config_validation() {
    let config = DefaultConfig::new();
    assert!(config.validate().is_ok());
}

#[derive(Debug, Clone)]
struct CustomConfig {
    max_workers: u32,
}

impl Config for CustomConfig {
    fn name(&self) -> String {
        "custom".to_string()
    }

    fn validate(&self) -> Result<(), String> {
        if self.max_workers == 0 {
            Err("max_workers must be greater than 0".to_string())
        } else {
            Ok(())
        }
    }
}

#[test]
fn test_custom_config_validation() {
    let valid = CustomConfig { max_workers: 4 };
    assert!(valid.validate().is_ok());

    let invalid = CustomConfig { max_workers: 0 };
    assert!(invalid.validate().is_err());
}

#[test]
fn test_default_config_fallback_name() {
    let config = DefaultConfig::new();
    assert_eq!(config.name(), "default");
    assert_eq!(config.timeout(), None);
}

#[test]
fn test_with_timeout_duration() {
    let config = DefaultConfig::new().with_timeout(Duration::from_millis(250));
    assert_eq!(config.timeout(), Some(Duration::from_millis(250)));
    assert_eq!(config.timeout().unwrap().as_millis(), 250);
}

#[test]
fn test_debug_flag() {
    let config = DefaultConfig::new().debug();
    assert!(config.is_debug());
    assert!(!config.is_verbose());
}
