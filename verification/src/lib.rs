//! Request gateway for a collaborative-document backend.
//!
//! The gateway classifies each inbound request into a workflow, enforces two
//! tiers of authentication (an administrative server token and a per-document
//! token), allocates and validates document identifiers, shapes connection
//! descriptors, and plans the forwarding of live-connection requests to the
//! single backing instance that owns a document. All decisions are made here
//! on plain values; reading requests and performing I/O is the embedding's
//! concern.

pub mod check_store;
pub mod client_token;
pub mod doc_name;
pub mod error;
pub mod forward;
pub mod guard;
pub mod new_doc;
pub mod routes;
pub mod text;
