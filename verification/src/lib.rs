//! Client-side logic for the REST management interface of a network switch:
//! session lifecycle, Power-over-Ethernet port resources, and bulk updates.
//!
//! Nothing here performs input or output. Every operation that needs the
//! network is split in two: one function builds the [`transport::Request`] to
//! send, another interprets the [`transport::Reply`] that came back.

pub mod bulk;
pub mod command;
pub mod endpoint;
pub mod json;
pub mod port;
pub mod selection;
pub mod session;
pub mod transport;
pub mod validation;
