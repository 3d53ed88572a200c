//! Client-side engine for a stateful SOAP-based mail-server protocol.
//!
//! The crate covers the operation-dispatch and delta-synchronization logic of
//! an Exchange Web Services client: batching of entity fetches, throttling
//! retries driven by the server's back-off hints, consolidation of paginated
//! change feeds into a final per-entity state, and the per-operation
//! partial-failure policies. The SOAP codec and the HTTP transport are
//! collaborators at the boundary; the engine works on plain values.

pub mod batch;
pub mod consolidate;
pub mod credentials;
pub mod dispatch;
pub mod encoding;
pub mod endpoint;
pub mod error;
pub mod folders;
pub mod headers;
pub mod items;
pub mod ops;
pub mod response;
pub mod registry;
pub mod sync;
pub mod text;
pub mod types;
pub mod version;
