//! The transports that come with the library.
pub mod reqwest;
