//! The payment vault: deposits held in custody for booked sessions, settled
//! by the oracle or reclaimed by the user once the oracle has stayed silent
//! for too long.

pub mod contract;
pub mod error;
pub mod events;
pub mod id_list;
pub mod lifecycle;
pub mod storage;
