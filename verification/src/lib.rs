//! Parsing of DNS A-record responses into an owned, iterable collection of
//! IPv4 addresses, together with the status-code mapping and the completion
//! decision used when bridging an asynchronous resolver engine's callback.

pub mod addr;
pub mod bridge;
pub mod error;
pub mod record;
pub mod wire;

pub use bridge::query_a_callback;

pub use addr::Ipv4Addr;
pub use error::ares_error;
pub use error::AresError;
pub use error::ARES_SUCCESS;
pub use record::AResults;
pub use record::AResultsIntoIterator;
pub use record::AResultsIterator;
