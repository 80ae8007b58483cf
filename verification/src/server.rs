//! Servers and their supervisor: who may connect, and how everything comes
//! to an orderly end. Beside them, a reader of plain requests and the
//! routes that answer them without a backend.

pub mod handlers;
pub mod wire;
pub mod main;
pub mod request;
pub mod routing;
pub mod server;

pub use main::Master;
pub use server::{Server, ShutdownState, State};
