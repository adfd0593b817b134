//! Porg: a one-click liquidation program for an on-chain ledger.
//!
//! The library holds the program's verified core: the administrative state
//! with its authorization rules, the basis-point fee arithmetic, the batch
//! liquidation orchestrator, and the cross-chain bridge orchestrator.
//!
//! Every externally visible effect — a token transfer, a swap through the
//! router, a bridge message — is a delegated call into another on-chain
//! program. The library therefore never performs an effect itself: each
//! entry point validates its inputs and returns the exact list of delegated
//! calls to make, and a host shell submits them to the ledger.

pub mod bridge;
pub mod fees;
pub mod liquidate;
pub mod state;
