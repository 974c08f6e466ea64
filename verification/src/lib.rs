//! Fan-out engine for a live media relay hub.
//!
//! Publishers push packetized media into the hub; subscribers attach to a
//! named stream and receive each published packet as a binary message, while a
//! catalog channel broadcasts the set of active stream identifiers.  This
//! crate holds the verified core: the registry of active streams, the
//! semantics of the bounded lossy broadcast bus, the ingest lifecycle, and the
//! decision logic of the subscriber sessions.  The surrounding process (socket
//! listeners, the async event loops) drives these functions and performs the
//! I/O they decide on.

pub mod bus;
pub mod catalog;
pub mod channel;
pub mod ingest;
pub mod session;
pub mod state;
