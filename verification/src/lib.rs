//! Escrow-backed job marketplace: a verified job/escrow lifecycle state
//! machine. An employer posts a job and deposits its total payment into
//! escrow; a freelancer accepts; funds are released milestone by milestone
//! and on final confirmation; cancellation refunds the remainder. Every
//! transition is guarded by access-control and state-validity predicates,
//! and the escrow balance is conserved throughout.

pub mod codec;
pub mod error;
pub mod laws;
pub mod market;
pub mod reputation;
pub mod types;
