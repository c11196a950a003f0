//! A small extensibility toolkit: a plugin registry with capability-based
//! lookup, and a bounded producer/consumer event channel.
//!
//! The registry stores providers under unique names, preserves registration
//! order, and offers selection by exact name, first match, all matches, and
//! priority-based best match. The event channel connects cloneable sender
//! handles to a single consumer, delivering events in enqueue order.

pub mod config;
pub mod error;
pub mod provider;
pub mod registry;
pub mod stream;
pub mod text;

pub use config::Config;
pub use config::ConfigBuilder;
pub use config::DefaultConfig;
pub use config::Duration;
pub use config::FileConfig;
pub use config::MergeableConfig;

pub use registry::Registry;
pub use registry::RegistryBuilder;

pub use stream::create_stream;
pub use stream::create_stream_with_buffer;
pub use stream::EventSender;
pub use stream::EventStream;
pub use stream::StreamBuilder;
pub use stream::TryRecvFailure;
pub use stream::TrySendFailure;

pub use error::ProviderError;
pub use error::ProviderResult;
pub use error::RegistryError;
pub use error::RegistryResult;
pub use error::RustratifyError;
pub use error::RustratifyResult;

pub use provider::CloneableProvider;
pub use provider::Provider;
pub use provider::ProviderExt;
pub use provider::SimpleProvider;
