//! An on-chain registry managing two linked record kinds: a Depot and the
//! Items filed under a depot. Each record carries an owner identity, two
//! fixed-size metadata buffers, a coordinate pair and timestamps from the
//! ledger clock. The library holds the account state-transition logic and
//! the marshaling discipline around it: loading a persisted record into a
//! mutable in-memory view, the authorization checks that guard every
//! mutation, the four state transitions, and the store that flushes views
//! back to persisted form.

pub mod cell;
pub mod context;
pub mod errors;
pub mod identity;
pub mod instructions;
pub mod program;
