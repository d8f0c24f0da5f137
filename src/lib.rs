//! A preimage oracle transport: a synchronous request/response byte protocol
//! that carries 32-byte keys out and length-prefixed payloads back, plus a
//! hint side-channel with a one-byte acknowledgment.

pub mod wire;
pub mod error;
pub mod stream;
pub mod primitives;
pub mod client;
pub mod server;
pub mod inner;
pub mod hints;
pub mod hash;
pub mod loopback;
