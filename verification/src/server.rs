//! What the daemon's HTTP handlers compute: style conversions between the API
//! and the library, and the responses built from the main thread's replies.
pub mod helpers;
pub mod routes;
