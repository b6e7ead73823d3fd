//! Cursor blinking, fetched-context decoding, update notices, pixel
//! conversion and the accept loop of a Unix-socket listener, each with its
//! contract.

pub mod blink;
pub mod fetch;
pub mod notification;
pub mod pixels;
pub mod text;
pub mod uds;
