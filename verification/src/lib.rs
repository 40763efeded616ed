//! A small verified HTTP server core: a fixed-size worker pool fed from one
//! FIFO control queue, a request-line parser, and response builders. The
//! transport and the threads that drive the workers live with the embedding
//! program; every decision between them is stated and proved here.
mod channel;
pub mod connection;
pub mod content;
pub mod pool;
pub mod request;
pub mod server;
