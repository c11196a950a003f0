//! Configuration traits for embedding applications.
//!
//! These are interfaces consumed by collaborating components; the toolkit
//! imposes no behavior on them beyond the shapes here. `DefaultConfig` is a
//! ready-made implementation.

use vstd::prelude::*;

verus! {

/// A span of time, counted in whole milliseconds.
#[derive(Debug, Clone, Copy, PartialEq, Eq, Structural)]
pub struct Duration {
    /// Whole milliseconds.
    pub millis: u64,
}

impl Duration {
    /// A duration of `ms` milliseconds.
    pub fn from_millis(ms: u64) -> (r: Duration)
        ensures
            r.millis == ms,
    {
        Duration { millis: ms }
    }

    /// The duration in whole milliseconds.
    pub fn as_millis(&self) -> (r: u64)
        ensures
            r == self.millis,
    {
        self.millis
    }
}

/// Base trait for configuration types.
pub trait Config: Sized {
    /// The configuration's name.
    fn name(&self) -> String {
        "default".to_owned()
    }

    /// The timeout, when one is configured.
    fn timeout(&self) -> Option<Duration> {
        None
    }

    /// Whether verbose output is enabled.
    fn is_verbose(&self) -> bool {
        false
    }

    /// Whether debug mode is enabled.
    fn is_debug(&self) -> bool {
        false
    }

    /// Validates the configuration: nothing on success, a message otherwise.
    fn validate(&self) -> Result<(), String> {
        Ok(())
    }
}

/// Trait for configurations loaded from and saved to files; paths are given
/// as text. The file work itself belongs to the embedding application.
pub trait FileConfig: Config {
    /// Load a configuration from the file at `path`.
    fn from_file(path: &str) -> Result<Self, String>;

    /// Save this configuration to the file at `path`.
    fn to_file(&self, path: &str) -> Result<(), String>;
}

/// Trait for configurations that can be merged.
pub trait MergeableConfig: Config {
    /// Merge another configuration into this one; values from `other`
    /// override values in `self` where applicable.
    fn merge(&mut self, other: &Self);

    /// A new configuration: `base` with `overlay` merged in.
    fn merged(base: &Self, overlay: &Self) -> Self where Self: Clone {
        let mut result = base.clone();
        result.merge(overlay);
        result
    }
}

/// Builder trait for constructing configurations.
pub trait ConfigBuilder {
    /// The configuration type this builder produces.
    type Config: Config;

    /// Build the configuration, or report why it cannot be built.
    fn build(self) -> Result<Self::Config, String>;
}

/// A simple ready-made configuration.
#[derive(Debug, Clone)]
pub struct DefaultConfig {
    /// Configuration name; empty stands for the default name.
    pub name: String,
    /// Timeout in milliseconds, when one is set.
    pub timeout_ms: Option<u64>,
    /// Verbose output flag.
    pub verbose: bool,
    /// Debug mode flag.
    pub debug: bool,
}

impl DefaultConfig {
    /// Create a configuration with nothing set.
    pub fn new() -> (r: DefaultConfig)
        ensures
            r.name@ == Seq::<char>::empty(),
            r.timeout_ms is None,
            !r.verbose,
            !r.debug,
    {
        DefaultConfig { name: String::new(), timeout_ms: None, verbose: false, debug: false }
    }

    /// Set the configuration name.
    pub fn with_name(self, name: &str) -> (r: DefaultConfig)
        ensures
            r.name@ == name@,
            r.timeout_ms == self.timeout_ms,
            r.verbose == self.verbose,
            r.debug == self.debug,
    {
        DefaultConfig { name: name.to_owned(), ..self }
    }

    /// Set the timeout in milliseconds.
    pub fn with_timeout_ms(self, ms: u64) -> (r: DefaultConfig)
        ensures
            r.timeout_ms == Some(ms),
            r.name@ == self.name@,
            r.verbose == self.verbose,
            r.debug == self.debug,
    {
        DefaultConfig { timeout_ms: Some(ms), ..self }
    }

    /// Set the timeout as a duration.
    pub fn with_timeout(self, duration: Duration) -> (r: DefaultConfig)
        ensures
            r.timeout_ms == Some(duration.millis),
            r.name@ == self.name@,
            r.verbose == self.verbose,
            r.debug == self.debug,
    {
        let ms = duration.as_millis();
        DefaultConfig { timeout_ms: Some(ms), ..self }
    }

    /// Enable verbose output.
    pub fn verbose(self) -> (r: DefaultConfig)
        ensures
            r.verbose,
            r.name@ == self.name@,
            r.timeout_ms == self.timeout_ms,
            r.debug == self.debug,
    {
        DefaultConfig { verbose: true, ..self }
    }

    /// Enable debug mode.
    pub fn debug(self) -> (r: DefaultConfig)
        ensures
            r.debug,
            r.name@ == self.name@,
            r.timeout_ms == self.timeout_ms,
            r.verbose == self.verbose,
    {
        DefaultConfig { debug: true, ..self }
    }
}

impl Default for DefaultConfig {
    /// A configuration with nothing set.
    fn default() -> (r: DefaultConfig)
        ensures
            r.name@ == Seq::<char>::empty(),
            r.timeout_ms is None,
            !r.verbose,
            !r.debug,
    {
        DefaultConfig::new()
    }
}

impl Config for DefaultConfig {
    fn name(&self) -> (r: String)
        ensures
            r@ == if self.name@.len() == 0 { "default"@ } else { self.name@ },
    {
        if self.name.as_str().is_empty() {
            "default".to_owned()
        } else {
            self.name.clone()
        }
    }

    fn timeout(&self) -> (r: Option<Duration>)
        ensures
            r == (match self.timeout_ms {
                Some(ms) => Some(Duration { millis: ms }),
                None => None::<Duration>,
            }),
    {
        match self.timeout_ms {
            Some(ms) => Some(Duration::from_millis(ms)),
            None => None,
        }
    }

    fn is_verbose(&self) -> (r: bool)
        ensures
            r == self.verbose,
    {
        self.verbose
    }

    fn is_debug(&self) -> (r: bool)
        ensures
            r == self.debug,
    {
        self.debug
    }

    fn validate(&self) -> (r: Result<(), String>)
        ensures
            r is Ok,
    {
        Ok(())
    }
}

} // verus!
