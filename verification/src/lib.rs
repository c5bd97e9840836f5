//! Ticket counts of the next event, looked up at the ticketing provider and
//! answered as a small JSON document.

pub mod client;
pub mod cors;
pub mod handler;
pub mod headers;
pub mod json;
pub mod response;
pub mod router;
pub mod text;
