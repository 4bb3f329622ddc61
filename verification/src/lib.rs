//! Client-side synchronisation core of a restaurant point of sale: the
//! request catalogue, the wire framing, and the state machines that keep the
//! local view of tables, offers and orders in step with the remote authority.

pub mod client;
pub mod codec;
pub mod dbt;
pub mod decimal;
pub mod error;
pub mod kind;
pub mod login;
pub mod offers;
pub mod orders;
pub mod request;
pub mod scan;
pub mod session;
pub mod settings;
pub mod ui;
pub mod user;
pub mod vtable;
