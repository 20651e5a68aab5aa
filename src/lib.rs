//! A progress/status reporting pipeline: a producer reports events, a single
//! writer fans them out to handlers, and a shutdown handshake acknowledges that
//! every event was handled and every handler finalised.
pub mod message;
pub mod encode;
pub mod handler;
pub mod fanout;
pub mod writer;
pub mod reporter;
