//! The failure vocabulary of a graph-database client that talks to the server
//! over a `redis` connection.
//!
//! Every fallible operation of such a client returns [`RedisGraphResult`], and
//! every failure is one of the seven kinds of [`RedisGraphError`].
pub mod error;

pub use crate::error::client_type_error;
pub use crate::error::server_type_error;
pub use crate::error::RedisGraphError;
pub use crate::error::RedisGraphResult;
