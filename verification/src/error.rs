//! The error taxonomy surfaced to callers.
//!
//! A lookup miss is not an error: lookups return an empty result. Only
//! `register_unique` raises `RegistryError::AlreadyRegistered`; the remaining
//! variants are reserved for collaborating components. Every failure is a
//! value returned to the immediate caller; nothing here panics or aborts.

use vstd::prelude::*;
use vstd::string::StringExecFns;

verus! {

/// The decimal digit characters.
pub open spec fn digit_char(d: nat) -> char {
    if d == 0 {
        '0'
    } else if d == 1 {
        '1'
    } else if d == 2 {
        '2'
    } else if d == 3 {
        '3'
    } else if d == 4 {
        '4'
    } else if d == 5 {
        '5'
    } else if d == 6 {
        '6'
    } else if d == 7 {
        '7'
    } else if d == 8 {
        '8'
    } else {
        '9'
    }
}

/// The decimal rendering of a natural number, most significant digit first.
pub open spec fn dec_str(n: nat) -> Seq<char>
    decreases n,
{
    if n < 10 {
        seq![digit_char(n)]
    } else {
        dec_str(n / 10).push(digit_char(n % 10))
    }
}

fn digit_str(d: u64) -> (r: &'static str)
    requires
        d < 10,
    ensures
        r@ == seq![digit_char(d as nat)],
{
    proof {
        reveal_strlit("0");
        reveal_strlit("1");
        reveal_strlit("2");
        reveal_strlit("3");
        reveal_strlit("4");
        reveal_strlit("5");
        reveal_strlit("6");
        reveal_strlit("7");
        reveal_strlit("8");
        reveal_strlit("9");
    }
    let r: &'static str = if d == 0 {
        "0"
    } else if d == 1 {
        "1"
    } else if d == 2 {
        "2"
    } else if d == 3 {
        "3"
    } else if d == 4 {
        "4"
    } else if d == 5 {
        "5"
    } else if d == 6 {
        "6"
    } else if d == 7 {
        "7"
    } else if d == 8 {
        "8"
    } else {
        "9"
    };
    proof {
        assert(r@ =~= seq![digit_char(d as nat)]);
    }
    r
}

/// Render a number in decimal.
pub fn u64_to_string(n: u64) -> (r: String)
    ensures
        r@ == dec_str(n as nat),
    decreases n,
{
    if n < 10 {
        digit_str(n).to_owned()
    } else {
        let mut s = u64_to_string(n / 10);
        s.append(digit_str(n % 10));
        s
    }
}

/// Errors that can occur in registry operations.
#[derive(Debug, Clone, PartialEq, Eq)]
pub enum RegistryError {
    /// A provider is already registered under this name.
    AlreadyRegistered(String),
    /// No provider matches the criteria.
    NoMatchingProvider,
    /// The registry is empty.
    Empty,
    /// The provider name is invalid.
    InvalidName(String),
}

/// What `RegistryError::message` returns for each variant.
pub open spec fn registry_error_text(e: RegistryError) -> Seq<char> {
    match e {
        RegistryError::AlreadyRegistered(n) => "Provider already registered: "@ + n@,
        RegistryError::NoMatchingProvider => "No matching provider found"@,
        RegistryError::Empty => "Registry is empty"@,
        RegistryError::InvalidName(n) => "Invalid provider name: "@ + n@,
    }
}

impl RegistryError {
    /// A human-readable description of the error.
    pub fn message(&self) -> (r: String)
        ensures
            r@ == registry_error_text(*self),
    {
        match self {
            RegistryError::AlreadyRegistered(n) => {
                String::from_str("Provider already registered: ").concat(n.as_str())
            },
            RegistryError::NoMatchingProvider => String::from_str("No matching provider found"),
            RegistryError::Empty => String::from_str("Registry is empty"),
            RegistryError::InvalidName(n) => {
                String::from_str("Invalid provider name: ").concat(n.as_str())
            },
        }
    }
}

/// Errors that can occur in provider operations. Defined for domain providers;
/// not raised by the registry or the event stream themselves.
#[derive(Debug, Clone, PartialEq, Eq)]
pub enum ProviderError {
    /// No provider found for the given key.
    NotFound(String),
    /// The provider does not support the given input.
    NotSupported(String),
    /// The provider's execution failed.
    ExecutionFailed(String),
    /// The provider's initialization failed.
    InitializationFailed(String),
    /// The provider's configuration is wrong.
    ConfigurationError(String),
    /// An input/output failure during a provider operation.
    IoError(String),
    /// The operation timed out, after this many milliseconds.
    Timeout(u64),
    /// The operation was cancelled.
    Cancelled,
}

/// What `ProviderError::message` returns for each variant.
pub open spec fn provider_error_text(e: ProviderError) -> Seq<char> {
    match e {
        ProviderError::NotFound(k) => "Provider not found: "@ + k@,
        ProviderError::NotSupported(k) => "Provider does not support: "@ + k@,
        ProviderError::ExecutionFailed(m) => "Provider execution failed: "@ + m@,
        ProviderError::InitializationFailed(m) => "Provider initialization failed: "@ + m@,
        ProviderError::ConfigurationError(m) => "Provider configuration error: "@ + m@,
        ProviderError::IoError(m) => "IO error: "@ + m@,
        ProviderError::Timeout(ms) => "Operation timed out after "@ + dec_str(ms as nat) + "ms"@,
        ProviderError::Cancelled => "Operation was cancelled"@,
    }
}

impl ProviderError {
    /// A human-readable description of the error.
    pub fn message(&self) -> (r: String)
        ensures
            r@ == provider_error_text(*self),
    {
        match self {
            ProviderError::NotFound(k) => {
                String::from_str("Provider not found: ").concat(k.as_str())
            },
            ProviderError::NotSupported(k) => {
                String::from_str("Provider does not support: ").concat(k.as_str())
            },
            ProviderError::ExecutionFailed(m) => {
                String::from_str("Provider execution failed: ").concat(m.as_str())
            },
            ProviderError::InitializationFailed(m) => {
                String::from_str("Provider initialization failed: ").concat(m.as_str())
            },
            ProviderError::ConfigurationError(m) => {
                String::from_str("Provider configuration error: ").concat(m.as_str())
            },
            ProviderError::IoError(m) => String::from_str("IO error: ").concat(m.as_str()),
            ProviderError::Timeout(ms) => {
                let rendered = u64_to_string(*ms);
                String::from_str("Operation timed out after ").concat(rendered.as_str()).concat(
                    "ms",
                )
            },
            ProviderError::Cancelled => String::from_str("Operation was cancelled"),
        }
    }
}

/// Root error type for toolkit operations.
#[derive(Debug, Clone, PartialEq, Eq)]
pub enum RustratifyError {
    /// A provider-related error.
    Provider(ProviderError),
    /// A registry-related error.
    Registry(RegistryError),
    /// A stream-related error.
    Stream(String),
    /// A generic error with a message.
    Other(String),
}

/// What `RustratifyError::message` returns for each variant.
pub open spec fn rustratify_error_text(e: RustratifyError) -> Seq<char> {
    match e {
        RustratifyError::Provider(p) => "Provider error: "@ + provider_error_text(p),
        RustratifyError::Registry(r) => "Registry error: "@ + registry_error_text(r),
        RustratifyError::Stream(m) => "Stream error: "@ + m@,
        RustratifyError::Other(m) => m@,
    }
}

impl RustratifyError {
    /// A human-readable description of the error.
    pub fn message(&self) -> (r: String)
        ensures
            r@ == rustratify_error_text(*self),
    {
        match self {
            RustratifyError::Provider(p) => {
                let inner = p.message();
                String::from_str("Provider error: ").concat(inner.as_str())
            },
            RustratifyError::Registry(e) => {
                let inner = e.message();
                String::from_str("Registry error: ").concat(inner.as_str())
            },
            RustratifyError::Stream(m) => String::from_str("Stream error: ").concat(m.as_str()),
            RustratifyError::Other(m) => m.clone(),
        }
    }
}

impl From<ProviderError> for RustratifyError {
    fn from(e: ProviderError) -> (r: RustratifyError) {
        RustratifyError::Provider(e)
    }
}

impl vstd::std_specs::convert::FromSpecImpl<ProviderError> for RustratifyError {
    open spec fn obeys_from_spec() -> bool {
        true
    }

    open spec fn from_spec(e: ProviderError) -> RustratifyError {
        RustratifyError::Provider(e)
    }
}

impl From<RegistryError> for RustratifyError {
    fn from(e: RegistryError) -> (r: RustratifyError) {
        RustratifyError::Registry(e)
    }
}

impl vstd::std_specs::convert::FromSpecImpl<RegistryError> for RustratifyError {
    open spec fn obeys_from_spec() -> bool {
        true
    }

    open spec fn from_spec(e: RegistryError) -> RustratifyError {
        RustratifyError::Registry(e)
    }
}

impl From<String> for ProviderError {
    fn from(m: String) -> (r: ProviderError) {
        ProviderError::ExecutionFailed(m)
    }
}

impl vstd::std_specs::convert::FromSpecImpl<String> for ProviderError {
    open spec fn obeys_from_spec() -> bool {
        true
    }

    open spec fn from_spec(m: String) -> ProviderError {
        ProviderError::ExecutionFailed(m)
    }
}

impl From<&str> for ProviderError {
    fn from(m: &str) -> (r: ProviderError) {
        ProviderError::ExecutionFailed(m.to_owned())
    }
}

impl vstd::std_specs::convert::FromSpecImpl<&str> for ProviderError {
    /// A `String` value cannot be written down in a specification from the
    /// text alone, so nothing is claimed of this conversion; callers needing
    /// the exact variant construct `ExecutionFailed` themselves.
    open spec fn obeys_from_spec() -> bool {
        false
    }

    open spec fn from_spec(m: &str) -> ProviderError {
        vstd::pervasive::arbitrary()
    }
}

/// Result type alias for provider operations.
pub type ProviderResult<T> = Result<T, ProviderError>;

/// Result type alias for registry operations.
pub type RegistryResult<T> = Result<T, RegistryError>;

/// Result type alias for general toolkit operations.
pub type RustratifyResult<T> = Result<T, RustratifyError>;

} // verus!
