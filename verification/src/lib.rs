//! State-access adapter between a smart-contract runtime and its storage
//! backends. Three capability surfaces, each a narrow contract the runtime
//! composes: a Header Accessor over the block-header/payment ledger, a
//! Burn-State Accessor over the burn-chain sortition ledger (one contract,
//! two access modes), and a Backing Store for contract key-value state with
//! block-height indirection (the in-memory variant for isolated execution).

pub mod hash;
pub mod headers;
pub mod sortition;
pub mod store;
pub mod types;
