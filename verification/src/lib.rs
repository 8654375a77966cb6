//! A token for real-world-asset claims that only accounts on an allowlist
//! may receive.
//!
//! [`token::MockRwaToken`] holds the whole state and offers the entry
//! points: construction, the public mint with its ceiling and its automatic
//! enrollment, transfers gated on the destination, burns, the management of
//! the allowlist by managers, and the role table. Each entry point takes the
//! accounts that authorized the call as an [`account::Authorization`]: the
//! host verifies signatures, the token decides whose it needs.
//!
//! The state is made of three parts: [`roles::RoleStore`],
//! [`allowlist::AllowList`] and [`ledger::Ledger`]. The ledger knows nothing
//! of the allowlist; it asks an [`allowlist::CreditPolicy`] before it
//! credits the destination of a transfer. [`mint`] holds the rule on the
//! amount of a public mint and the event that a mint yields, [`metadata`]
//! the token's fixed precision, name and symbol.
//!
//! [`state::TokenState`] is the state as mathematics, with one function per
//! entry point that says when a call is refused and what it does otherwise.
//! The contracts of the entry points are stated over it, and
//! [`invariants`] proves what holds of every state that calls can reach.

pub mod account;
pub mod allowlist;
pub mod error;
pub mod invariants;
pub mod ledger;
pub mod metadata;
pub mod mint;
pub mod pairing;
pub mod roles;
pub mod state;
pub mod tally;
pub mod token;
