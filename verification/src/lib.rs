//! Payment-gated access to priced services.
//!
//! A call to a priced service is paid by the caller, with a proof of
//! payment, or by a sponsor, from the budget of a campaign. This library
//! holds the rules: what a service costs, what a caller is challenged to
//! pay, when a proof is accepted, which campaign pays for whom, and how a
//! budget is charged so that it is never overspent. The rules are stated
//! as contracts and proved; reading the store and talking to the network
//! is left to the caller, whom the step functions tell what to do next.
//!
//! - [`types`]: the data model and the price catalog.
//! - [`requirement`]: the payment challenge and its encoded form.
//! - [`verification`], [`facilitator`]: the two verifiers of proofs.
//! - [`ledger`]: the budget ledger.
//! - [`settlement`]: the record of payments.
//! - [`matcher`]: the choice of a sponsor.
//! - [`orchestrator`], [`sponsored`]: the access decisions, step by step.
//! - [`response`]: what goes back to the caller.
//! - [`intake`], [`records`], [`listing`]: requests, rows and lists.
//! - [`text`], [`error`], [`outside`]: texts, failures, and the calls into
//!   other crates.

pub mod error;
pub mod facilitator;
pub mod intake;
pub mod ledger;
pub mod listing;
pub mod matcher;
pub mod orchestrator;
pub mod outside;
pub mod records;
pub mod requirement;
pub mod response;
pub mod settlement;
pub mod sponsored;
pub mod text;
pub mod types;
pub mod verification;
