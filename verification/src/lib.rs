//! Escrowed aid between donors and recipients: a donor locks an amount of a
//! token for a recipient until an expiry; the recipient may claim it before
//! the expiry, and after the expiry the donor (or the administrator) may take
//! it back. The contract's storage is modelled by [`contract::AidContract`];
//! every operation returns the token transfer and the events that the host
//! has to carry out.

pub mod address;
pub mod aid;
pub mod errors;
pub mod events;
pub mod contract;
pub mod laws;
pub mod runs;
