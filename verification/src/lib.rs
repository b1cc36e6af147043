//! A verified client core for a binary stream-messaging protocol.
//!
//! Applications publish to and consume from append-only, offset-addressed
//! logs ("streams") hosted by a broker. One physical connection carries many
//! logical producers and consumers, demultiplexed by small integer ids;
//! responses are matched to pending requests by correlation id. This crate
//! verifies the connection-multiplexing engine and the producer/consumer
//! data plane built on it: correct demultiplexing, exactly-once confirmation
//! delivery, dual-trigger batching, credit-based backpressure, and monotonic
//! publishing-id assignment. Connection bootstrap, TLS mechanics and the
//! byte-level frame codec are collaborators that live outside the library.

pub mod client;
pub mod consumer;
pub mod environment;
pub mod error;
pub mod producer;
pub mod stream_creator;
pub mod superstream;
pub mod superstream_consumer;
pub mod superstream_producer;
pub mod types;

pub use environment::Environment;
pub use environment::EnvironmentBuilder;
pub use environment::EnvironmentOptions;
pub use environment::TlsConfiguration;
pub use environment::TlsConfigurationBuilder;
