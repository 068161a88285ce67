//! The finished parts of a contract: interactions and what they hold.

pub mod interaction;
pub mod request;
pub mod response;
pub mod v4;
