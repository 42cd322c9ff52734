//! Authoritative state machine for a two-player hidden-information
//! ("battleship") game between mutually distrusting parties.
//!
//! Players never reveal their board layouts; each publishes a 32-byte
//! commitment and later submits claimed attack results with an opaque proof
//! reference. The library is the single source of truth for game progress:
//! id allocation, the Waiting -> Placing -> Active -> Complete lifecycle,
//! commitment bookkeeping, turn arbitration, the append-only move ledger,
//! and win detection. Authentication, persistence and notification delivery
//! are the host's job and stay outside this crate.

pub mod contract;
pub mod game;
pub mod laws;
