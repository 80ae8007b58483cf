//! Primitives shared between tasks.

pub mod notify;
pub mod ring;

pub use notify::Notification;
pub use ring::Ring;
